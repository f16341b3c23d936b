//! The tokenize entry point: special-token partitioning, dispatch to the
//! BPE or SPM session per fragment, and BOS/EOS insertion.

use vstd::prelude::*;
use crate::vocab::{TokenizerConfig, TokenizerError, VocabType, NULL};
use crate::fragment::{
    models, st_partition_spec, tokenizer_st_partition, FragmentBufferVariant,
    FragmentBufferVariantType, GFrag,
};
use crate::bpe::{spec_bpe_tokenize, LlmTokenizerBpe, LlmTokenizerBpeSession};
use crate::spm::{spec_spm_tokenize, LlmTokenizerSpmSession};
use crate::pretokenizer::{all_custom, spec_custom_kind, views_of};
use crate::unicode::{
    chars_to_string, llama_escape_whitespace, spec_escape_whitespace, str_to_chars,
};

verus! {

/// The pretokenization patterns of the built-in BPE session: the Llama-3
/// family pattern.
pub open spec fn default_bpe_patterns() -> Seq<Seq<char>> {
    seq![
        "(?:'[sS]|'[tT]|'[rR][eE]|'[vV][eE]|'[mM]|'[lL][lL]|'[dD])|[^\\r\\n\\p{L}\\p{N}]?\\p{L}+|\\p{N}{1,3}| ?[^\\s\\p{L}\\p{N}]+[\\r\\n]*|\\s*[\\r\\n]+|\\s+(?!\\S)|\\s+"@,
    ]
}

/// The initial fragment list over a text: empty for the empty text, one
/// raw fragment otherwise.
pub open spec fn initial_frags(s: Seq<char>) -> Seq<GFrag> {
    if s.len() == 0 {
        Seq::empty()
    } else {
        seq![GFrag { is_token: false, token: NULL, text: s }]
    }
}

/// The ids the SPM dispatch emits for a fragment list, threading the
/// space-prefix state; None means a byte with no token.
pub open spec fn spec_spm_frags(
    vocab: TokenizerConfig,
    frags: Seq<GFrag>,
    prev_special: bool,
) -> Option<Seq<u32>>
    decreases frags.len(),
{
    if frags.len() == 0 {
        Option::Some(Seq::empty())
    } else {
        let f = frags[0];
        if f.is_token {
            match spec_spm_frags(vocab, frags.drop_first(), true) {
                Option::Some(rest) => Option::Some(seq![f.token] + rest),
                Option::None => Option::None,
            }
        } else {
            let text = (if vocab.add_space_prefix && prev_special {
                seq![' ']
            } else {
                Seq::<char>::empty()
            }) + f.text;
            let esc = if vocab.escape_whitespaces {
                spec_escape_whitespace(text)
            } else {
                text
            };
            match spec_spm_tokenize(vocab, esc) {
                Option::Some(ids) => match spec_spm_frags(vocab, frags.drop_first(), false) {
                    Option::Some(rest) => Option::Some(ids + rest),
                    Option::None => Option::None,
                },
                Option::None => Option::None,
            }
        }
    }
}

/// The ids the BPE dispatch emits for a fragment list.
pub open spec fn spec_bpe_frags(vocab: TokenizerConfig, frags: Seq<GFrag>) -> Seq<u32>
    decreases frags.len(),
{
    if frags.len() == 0 {
        Seq::empty()
    } else {
        let f = frags[0];
        (if f.is_token {
            seq![f.token]
        } else {
            spec_bpe_tokenize(vocab, f.text, default_bpe_patterns())
        }) + spec_bpe_frags(vocab, frags.drop_first())
    }
}

/// What `tokenize` returns: the text is split around special tokens, each
/// fragment is tokenized by the family's session, and BOS/EOS bracket the
/// output as the flags ask.
pub open spec fn spec_tokenize(
    vocab: TokenizerConfig,
    s: Seq<char>,
    add_special: bool,
    parse_special: bool,
) -> Result<Seq<u32>, TokenizerError> {
    let frags = st_partition_spec(vocab, initial_frags(s), 0, parse_special);
    let bos: Seq<u32> = if add_special && vocab.add_bos {
        seq![vocab.bos]
    } else {
        Seq::empty()
    };
    let eos: Seq<u32> = if add_special && vocab.add_eos {
        seq![vocab.eos]
    } else {
        Seq::empty()
    };
    if vocab.vocab_type == VocabType::Spm {
        match spec_spm_frags(vocab, frags, true) {
            Option::Some(ids) => Result::Ok(bos + ids + eos),
            Option::None => Result::Err(TokenizerError::MissingByteToken),
        }
    } else if vocab.vocab_type == VocabType::Bpe {
        Result::Ok(bos + spec_bpe_frags(vocab, frags) + eos)
    } else {
        Result::Err(TokenizerError::UnsupportedVocabType)
    }
}

/// Runs the SPM session over every fragment, appending the ids.
#[verifier::rlimit(60)]
fn spm_dispatch(
    vocab: &TokenizerConfig,
    buffer: &Vec<FragmentBufferVariant>,
    output: &mut Vec<u32>,
) -> (r: Result<(), TokenizerError>)
    requires
        vocab.well_formed(),
        forall|i: int| 0 <= i < buffer@.len() ==> (#[trigger] buffer@[i]).wf(),
        forall|i: int|
            0 <= i < buffer@.len() ==> (#[trigger] buffer@[i]).model().text.len() + 8
                <= usize::MAX,
    ensures
        ({
            let spec = spec_spm_frags(*vocab, models(buffer@), true);
            &&& (r is Ok <==> spec is Some)
            &&& (r is Ok ==> final(output)@ == old(output)@ + spec->0)
            &&& (r is Err ==> r->Err_0 == TokenizerError::MissingByteToken)
        }),
{
    let session = LlmTokenizerSpmSession::new();
    let ghost gfrags = models(buffer@);
    let n = buffer.len();
    let mut is_prev_special = true;
    let mut j: usize = 0;
    proof {
        assert(gfrags.subrange(0, n as int) =~= gfrags);
        assert(output@.subrange(0, old(output)@.len() as int) =~= old(output)@);
    }
    while j < n
        invariant
            j <= n,
            n == buffer@.len(),
            vocab.well_formed(),
            gfrags == models(buffer@),
            forall|i: int| 0 <= i < buffer@.len() ==> (#[trigger] buffer@[i]).wf(),
            forall|i: int|
                0 <= i < buffer@.len() ==> (#[trigger] buffer@[i]).model().text.len() + 8
                    <= usize::MAX,
            output@.len() >= old(output)@.len(),
            output@.subrange(0, old(output)@.len() as int) == old(output)@,
            spec_spm_frags(*vocab, gfrags, true) == (match spec_spm_frags(
                *vocab,
                gfrags.subrange(j as int, n as int),
                is_prev_special,
            ) {
                Option::Some(rest) => Option::Some(
                    output@.subrange(old(output)@.len() as int, output@.len() as int) + rest,
                ),
                Option::None => Option::<Seq<u32>>::None,
            }),
        decreases n - j,
    {
        let ghost rest_frags = gfrags.subrange(j as int, n as int);
        proof {
            assert(rest_frags[0] == buffer@[j as int].model());
            assert(rest_frags.drop_first() =~= gfrags.subrange(j + 1, n as int));
        }
        let f = &buffer[j];
        match f.variant_type {
            FragmentBufferVariantType::Token => {
                let ghost ob = output@;
                output.push(f.token);
                proof {
                    assert(output@.subrange(0, old(output)@.len() as int) =~= old(output)@);
                    if spec_spm_frags(*vocab, gfrags.subrange(j + 1, n as int), true) is Some {
                        let r2 = spec_spm_frags(*vocab, gfrags.subrange(j + 1, n as int), true)->0;
                        assert(output@.subrange(old(output)@.len() as int, output@.len() as int)
                            + r2 =~= ob.subrange(old(output)@.len() as int, ob.len() as int) + (
                        seq![f.token] + r2));
                    }
                }
                is_prev_special = true;
            }
            FragmentBufferVariantType::RawText => {
                let mut text: Vec<char> = Vec::new();
                if vocab.add_space_prefix && is_prev_special {
                    text.push(' ');
                }
                let mut piece = crate::fragment::copy_range(&f.raw_text, f.offset, f.length);
                text.append(&mut piece);
                let ghost spec_text = (if vocab.add_space_prefix && is_prev_special {
                    seq![' ']
                } else {
                    Seq::<char>::empty()
                }) + rest_frags[0].text;
                proof {
                    assert(text@ =~= spec_text);
                }
                let mut ts = chars_to_string(text.as_slice());
                if vocab.escape_whitespaces {
                    llama_escape_whitespace(&mut ts);
                }
                let ghost esc = if vocab.escape_whitespaces {
                    spec_escape_whitespace(spec_text)
                } else {
                    spec_text
                };
                proof {
                    assert(ts@ == esc);
                }
                let ghost ob = output@;
                match session.tokenize(vocab, ts.as_str(), output) {
                    Ok(()) => {}
                    Err(_) => {
                        proof {
                            assert(spec_spm_frags(*vocab, gfrags, true) is None);
                        }
                        return Err(TokenizerError::MissingByteToken);
                    }
                }
                proof {
                    assert(output@.subrange(0, old(output)@.len() as int) =~= old(output)@);
                    let ids = spec_spm_tokenize(*vocab, esc)->0;
                    if spec_spm_frags(*vocab, gfrags.subrange(j + 1, n as int), false) is Some {
                        let r2 = spec_spm_frags(*vocab, gfrags.subrange(j + 1, n as int), false)->0;
                        assert(output@.subrange(old(output)@.len() as int, output@.len() as int)
                            + r2 =~= ob.subrange(old(output)@.len() as int, ob.len() as int) + (ids
                            + r2));
                    }
                }
                is_prev_special = false;
            }
        }
        j = j + 1;
    }
    proof {
        assert(gfrags.subrange(n as int, n as int) =~= Seq::<GFrag>::empty());
        assert(output@.subrange(old(output)@.len() as int, output@.len() as int) + Seq::<
            u32,
        >::empty() =~= output@.subrange(old(output)@.len() as int, output@.len() as int));
        assert(output@ =~= old(output)@ + output@.subrange(
            old(output)@.len() as int,
            output@.len() as int,
        ));
    }
    Ok(())
}

/// Runs the BPE session over every fragment, appending the ids.
#[verifier::rlimit(60)]
fn bpe_dispatch(
    vocab: &TokenizerConfig,
    session: &LlmTokenizerBpeSession,
    buffer: &Vec<FragmentBufferVariant>,
    output: &mut Vec<u32>,
)
    requires
        vocab.well_formed(),
        views_of(session.bpe.regex_exprs@) == default_bpe_patterns(),
        all_custom(views_of(session.bpe.regex_exprs@)),
        forall|i: int| 0 <= i < buffer@.len() ==> (#[trigger] buffer@[i]).wf(),
        forall|i: int|
            0 <= i < buffer@.len() ==> (#[trigger] buffer@[i]).model().text.len() * 4
                <= usize::MAX,
    ensures
        final(output)@ == old(output)@ + spec_bpe_frags(*vocab, models(buffer@)),
{
    let ghost gfrags = models(buffer@);
    let n = buffer.len();
    let mut j: usize = 0;
    proof {
        assert(gfrags.subrange(0, n as int) =~= gfrags);
        assert(output@.subrange(0, old(output)@.len() as int) =~= old(output)@);
    }
    while j < n
        invariant
            j <= n,
            n == buffer@.len(),
            vocab.well_formed(),
            gfrags == models(buffer@),
            views_of(session.bpe.regex_exprs@) == default_bpe_patterns(),
            all_custom(views_of(session.bpe.regex_exprs@)),
            forall|i: int| 0 <= i < buffer@.len() ==> (#[trigger] buffer@[i]).wf(),
            forall|i: int|
                0 <= i < buffer@.len() ==> (#[trigger] buffer@[i]).model().text.len() * 4
                    <= usize::MAX,
            output@.len() >= old(output)@.len(),
            output@.subrange(0, old(output)@.len() as int) == old(output)@,
            spec_bpe_frags(*vocab, gfrags) == output@.subrange(
                old(output)@.len() as int,
                output@.len() as int,
            ) + spec_bpe_frags(*vocab, gfrags.subrange(j as int, n as int)),
        decreases n - j,
    {
        let ghost rest_frags = gfrags.subrange(j as int, n as int);
        proof {
            assert(rest_frags[0] == buffer@[j as int].model());
            assert(rest_frags.drop_first() =~= gfrags.subrange(j + 1, n as int));
        }
        let f = &buffer[j];
        match f.variant_type {
            FragmentBufferVariantType::Token => {
                let ghost ob = output@;
                output.push(f.token);
                proof {
                    assert(output@.subrange(0, old(output)@.len() as int) =~= old(output)@);
                    assert(output@.subrange(old(output)@.len() as int, output@.len() as int) =~= ob
                        .subrange(old(output)@.len() as int, ob.len() as int) + seq![f.token]);
                    assert(output@.subrange(old(output)@.len() as int, output@.len() as int)
                        + spec_bpe_frags(*vocab, gfrags.subrange(j + 1, n as int))
                        =~= spec_bpe_frags(*vocab, gfrags));
                }
            }
            FragmentBufferVariantType::RawText => {
                let piece = crate::fragment::copy_range(&f.raw_text, f.offset, f.length);
                let ts = chars_to_string(piece.as_slice());
                let ghost ob = output@;
                match session.tokenize(vocab, ts.as_str(), output) {
                    Ok(()) => {}
                    Err(_) => {
                        // unreachable: the built-in patterns have custom scanners
                        proof {
                            assert(false);
                        }
                    }
                }
                proof {
                    assert(output@.subrange(0, old(output)@.len() as int) =~= old(output)@);
                    let ids = spec_bpe_tokenize(*vocab, rest_frags[0].text, default_bpe_patterns());
                    assert(output@.subrange(old(output)@.len() as int, output@.len() as int) =~= ob
                        .subrange(old(output)@.len() as int, ob.len() as int) + ids);
                    assert(output@.subrange(old(output)@.len() as int, output@.len() as int)
                        + spec_bpe_frags(*vocab, gfrags.subrange(j + 1, n as int))
                        =~= spec_bpe_frags(*vocab, gfrags));
                }
            }
        }
        j = j + 1;
    }
    proof {
        assert(gfrags.subrange(n as int, n as int) =~= Seq::<GFrag>::empty());
        assert(spec_bpe_frags(*vocab, gfrags.subrange(n as int, n as int)) =~= Seq::<u32>::empty());
        assert(output@.subrange(old(output)@.len() as int, output@.len() as int) + Seq::<
            u32,
        >::empty() =~= output@.subrange(old(output)@.len() as int, output@.len() as int));
        assert(output@ =~= old(output)@ + spec_bpe_frags(*vocab, gfrags));
    }
}

impl TokenizerConfig {
    /// Converts a text to token ids: splits it around the vocabulary's
    /// special tokens (matched only as `parse_special` allows), runs the
    /// family's sub-tokenizer over each raw fragment, and brackets the
    /// result with BOS/EOS when `add_special` and the vocabulary ask for
    /// them. Errors: UnsupportedVocabType for families without a session,
    /// MissingByteToken when SPM byte fallback finds no token.
    pub fn tokenize(&self, raw_text: &str, add_special: bool, parse_special: bool) -> (r: Result<
        Vec<u32>,
        TokenizerError,
    >)
        requires
            self.well_formed(),
            raw_text@.len() * 4 + 8 <= usize::MAX,
        ensures
            ({
                let spec = spec_tokenize(*self, raw_text@, add_special, parse_special);
                &&& (r is Ok <==> spec is Ok)
                &&& (r is Ok ==> (r->Ok_0)@ == spec->Ok_0)
                &&& (r is Err ==> r->Err_0 == spec->Err_0)
            }),
    {
        let ghost s = raw_text@;
        let mut buffer: Vec<FragmentBufferVariant> = Vec::new();
        if !raw_text.is_empty() {
            let chars = str_to_chars(raw_text);
            let clen = chars.len();
            match FragmentBufferVariant::new_raw_text(chars, 0, clen) {
                Ok(f) => {
                    buffer.push(f);
                    proof {
                        assert(f.model().text =~= s);
                        assert(models(buffer@) =~= initial_frags(s));
                    }
                }
                Err(_) => {
                    // unreachable: the span covers the whole non-empty text
                    return Err(TokenizerError::MalformedVocabulary);
                }
            }
        } else {
            proof {
                assert(models(buffer@) =~= initial_frags(s));
            }
        }
        tokenizer_st_partition(self, &mut buffer, parse_special);
        let ghost gfrags = st_partition_spec(*self, initial_frags(s), 0, parse_special);
        proof {
            assert(models(buffer@) == gfrags);
            crate::fragment::lemma_st_partition_text_len(
                *self,
                initial_frags(s),
                0,
                parse_special,
                s.len() as int,
            );
            assert forall|i: int|
                0 <= i < buffer@.len() implies (#[trigger] buffer@[i]).model().text.len()
                <= s.len() by {
                assert(models(buffer@)[i] == buffer@[i].model());
            }
        }
        match self.vocab_type {
            VocabType::Spm => {
                let mut output: Vec<u32> = Vec::new();
                if add_special && self.add_bos {
                    output.push(self.bos);
                }
                let ghost out0 = output@;
                match spm_dispatch(self, &buffer, &mut output) {
                    Ok(()) => {}
                    Err(e) => {
                        return Err(e);
                    }
                }
                if add_special && self.add_eos {
                    output.push(self.eos);
                }
                proof {
                    let spec = spec_tokenize(*self, s, add_special, parse_special);
                    assert(output@ =~= spec->Ok_0);
                }
                Ok(output)
            }
            VocabType::Bpe => {
                let mut exprs: Vec<String> = Vec::new();
                exprs.push(
                    "(?:'[sS]|'[tT]|'[rR][eE]|'[vV][eE]|'[mM]|'[lL][lL]|'[dD])|[^\\r\\n\\p{L}\\p{N}]?\\p{L}+|\\p{N}{1,3}| ?[^\\s\\p{L}\\p{N}]+[\\r\\n]*|\\s*[\\r\\n]+|\\s+(?!\\S)|\\s+".to_owned(),
                );
                proof {
                    assert(views_of(exprs@) =~= default_bpe_patterns());
                    assert(spec_custom_kind(default_bpe_patterns()[0]) is Some);
                }
                let session = LlmTokenizerBpeSession::new(LlmTokenizerBpe { regex_exprs: exprs });
                proof {
                    assert(views_of(session.bpe.regex_exprs@) =~= default_bpe_patterns());
                }
                let mut output: Vec<u32> = Vec::new();
                if add_special {
                    session.append_bos(self, &mut output);
                }
                bpe_dispatch(self, &session, &buffer, &mut output);
                if add_special {
                    session.append_eos(self, &mut output);
                }
                proof {
                    let spec = spec_tokenize(*self, s, add_special, parse_special);
                    assert(output@ =~= spec->Ok_0);
                }
                Ok(output)
            }
            _ => Err(TokenizerError::UnsupportedVocabType),
        }
    }
}

/// The byte the GPT-2 byte mapping assigned to this codepoint, for
/// codepoints in the mapped control range; the inverse of
/// `spec_byte_to_cpt` there.
pub open spec fn spec_cpt_to_byte(v: u32) -> u8 {
    if 256 <= v <= 288 {
        (v - 256) as u8
    } else if 289 <= v <= 322 {
        (127 + (v - 289)) as u8
    } else {
        173u8
    }
}

/// One character of detokenized text: the family's inverse transform.
/// SPM turns U+2581 back into a space; BPE turns the byte-mapping's
/// control-range codepoints back into their bytes' own codepoints.
pub open spec fn spec_detokenize_char(vocab: TokenizerConfig, c: char) -> char {
    if vocab.vocab_type == VocabType::Spm || vocab.vocab_type == VocabType::Ugm {
        if c == '\u{2581}' {
            ' '
        } else {
            c
        }
    } else if vocab.vocab_type == VocabType::Bpe || vocab.vocab_type == VocabType::Wpm {
        if 256 <= c as u32 <= 323 {
            (spec_cpt_to_byte(c as u32) as u32) as char
        } else {
            c
        }
    } else {
        c
    }
}

/// The detokenized text of a sequence of ids: the token texts transformed
/// character for character and concatenated.
pub open spec fn spec_detokenize(vocab: TokenizerConfig, ids: Seq<u32>) -> Seq<char>
    decreases ids.len(),
{
    if ids.len() == 0 {
        Seq::empty()
    } else {
        vocab.token_text(ids[0] as int).map(|i: int, c: char| spec_detokenize_char(vocab, c))
            + spec_detokenize(vocab, ids.drop_first())
    }
}

impl TokenizerConfig {
    /// Concatenates the texts of the given token ids, undoing the family's
    /// whitespace escape (SPM) or byte mapping (BPE); OutOfRange when some
    /// id is not a token.
    pub fn detokenize(&self, ids: &[u32]) -> (r: Result<String, TokenizerError>)
        ensures
            r is Ok <==> (forall|i: int| 0 <= i < ids@.len() ==> (#[trigger] ids@[i])
                < self.spec_n_tokens()),
            r is Ok ==> (r->Ok_0)@ == spec_detokenize(*self, ids@),
            r is Err ==> r->Err_0 == TokenizerError::OutOfRange,
    {
        let n = ids.len();
        let mut out: Vec<char> = Vec::new();
        let mut i: usize = 0;
        proof {
            assert(ids@.subrange(0, n as int) =~= ids@);
        }
        while i < n
            invariant
                i <= n,
                n == ids@.len(),
                forall|j: int| 0 <= j < i ==> (#[trigger] ids@[j]) < self.spec_n_tokens(),
                spec_detokenize(*self, ids@) == out@ + spec_detokenize(
                    *self,
                    ids@.subrange(i as int, n as int),
                ),
            decreases n - i,
        {
            let id = ids[i];
            if id as usize >= self.id_to_token.len() {
                return Err(TokenizerError::OutOfRange);
            }
            let ghost rest = ids@.subrange(i as int, n as int);
            proof {
                assert(rest[0] == id);
                assert(rest.drop_first() =~= ids@.subrange(i + 1, n as int));
            }
            let text = str_to_chars(self.id_to_token[id as usize].text.as_str());
            let tn = text.len();
            let ghost ob = out@;
            let mut k: usize = 0;
            while k < tn
                invariant
                    k <= tn,
                    tn == text@.len(),
                    text@ == self.token_text(id as int),
                    out@ == ob + text@.map(|p: int, c: char| spec_detokenize_char(*self, c))
                        .subrange(0, k as int),
                decreases tn - k,
            {
                let c = text[k];
                let d = self.detokenize_char(c);
                out.push(d);
                proof {
                    assert(out@ =~= ob + text@.map(
                        |p: int, c2: char| spec_detokenize_char(*self, c2),
                    ).subrange(0, k + 1));
                }
                k = k + 1;
            }
            proof {
                assert(text@.map(|p: int, c2: char| spec_detokenize_char(*self, c2)).subrange(
                    0,
                    tn as int,
                ) =~= text@.map(|p: int, c2: char| spec_detokenize_char(*self, c2)));
                assert(out@ + spec_detokenize(*self, ids@.subrange(i + 1, n as int)) =~= ob
                    + spec_detokenize(*self, rest));
            }
            i = i + 1;
        }
        proof {
            assert(ids@.subrange(n as int, n as int) =~= Seq::<u32>::empty());
            assert(out@ + Seq::<char>::empty() =~= out@);
        }
        Ok(chars_to_string(out.as_slice()))
    }

    /// The family's inverse transform of one character.
    fn detokenize_char(&self, c: char) -> (r: char)
        ensures
            r == spec_detokenize_char(*self, c),
    {
        match self.vocab_type {
            VocabType::Spm | VocabType::Ugm => {
                if c == '\u{2581}' {
                    ' '
                } else {
                    c
                }
            }
            VocabType::Bpe | VocabType::Wpm => {
                let v = c as u32;
                if 256 <= v && v <= 323 {
                    let b: u8 = if v <= 288 {
                        (v - 256) as u8
                    } else if v <= 322 {
                        (127 + (v - 289)) as u8
                    } else {
                        173
                    };
                    match crate::unicode::char_from_u32(b as u32) {
                        Some(d) => {
                            proof {
                                vstd::utf8::char_u32_cast(d, b as u32);
                            }
                            d
                        }
                        None => c,  // unreachable: byte values are valid scalars
                    }
                } else {
                    c
                }
            }
            _ => c,
        }
    }
}

} // verus!
