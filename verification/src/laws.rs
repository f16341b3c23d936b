//! The library's stated laws: determinism, special-token idempotence,
//! byte-fallback totality and injectivity, merge-priority monotonicity,
//! staleness soundness, and coverage of the partitioning stage.

use vstd::prelude::*;
use crate::vocab::{
    spec_byte_hex_text, spec_bpe_byte_text, spec_has_attr, spec_hex_char, TokenizerConfig,
    TokenizerError, VocabType, ATTR_LSTRIP, ATTR_RSTRIP, NULL,
};
use crate::fragment::{
    find_first, is_match_at, lemma_find_first, partition_step, split_raw, st_partition_spec,
    trim_left_ws, trim_right_ws, GFrag,
};
use crate::bpe::{best_upto, bpe_better, lemma_best_upto, LlmBigramBpe};
use crate::tokenizer::{initial_frags, spec_bpe_frags, spec_spm_frags, spec_tokenize};
use crate::unicode::{lemma_byte_to_cpt_injective, spec_byte_to_cpt};

verus! {

/// Determinism: the tokenize contract pins its result as a function of the
/// vocabulary, text and flags alone, so any two results that meet it on
/// equal inputs are equal.
pub proof fn lemma_tokenize_deterministic(
    vocab: TokenizerConfig,
    s: Seq<char>,
    add_special: bool,
    parse_special: bool,
    r1: Result<Seq<u32>, TokenizerError>,
    r2: Result<Seq<u32>, TokenizerError>,
)
    requires
        r1 == spec_tokenize(vocab, s, add_special, parse_special),
        r2 == spec_tokenize(vocab, s, add_special, parse_special),
    ensures
        r1 == r2,
{
}

/// Merge priority is monotone in the rank: the queue never yields a
/// candidate while another with the same left symbol and a strictly lower
/// rank is waiting.
pub proof fn lemma_bpe_rank_priority(q: Seq<LlmBigramBpe>, i: int, j: int)
    requires
        0 <= i < q.len(),
        0 <= j < q.len(),
        q[i].left == q[j].left,
        q[i].rank < q[j].rank,
    ensures
        best_upto(q, q.len() as int) != j,
{
    lemma_best_upto(q, q.len() as int);
    let b = best_upto(q, q.len() as int);
    if b == j {
        assert(!bpe_better(q[i], q[b]));
        assert(bpe_better(q[i], q[j]));
    }
}

/// Staleness soundness: symbol lengths only grow (absorbing a neighbor) or
/// drop to zero (tombstoned), so when both endpoints of a popped bigram
/// are alive and their lengths still sum to the recorded size, neither
/// endpoint has been altered since the bigram was enqueued.
pub proof fn lemma_spm_staleness(l0: int, r0: int, l1: int, r1: int, size: int)
    requires
        l0 > 0,
        r0 > 0,
        size == l0 + r0,
        l1 == 0 || l1 >= l0,
        r1 == 0 || r1 >= r0,
        l1 > 0,
        r1 > 0,
        l1 + r1 == size,
    ensures
        l1 == l0,
        r1 == r0,
{
}

/// Whether the vocabulary has a token for every byte, in its family's
/// byte-fallback spelling.
pub open spec fn byte_complete(vocab: TokenizerConfig) -> bool {
    match vocab.vocab_type {
        VocabType::Spm | VocabType::Ugm => forall|x: u8|
            vocab.spec_has_text(#[trigger] spec_byte_hex_text(x)),
        VocabType::Wpm | VocabType::Bpe => forall|x: u8|
            vocab.spec_has_text(#[trigger] spec_bpe_byte_text(x)),
        _ => false,
    }
}

/// Byte fallback totality and injectivity: with a complete vocabulary,
/// every byte value gets exactly one id, and distinct bytes get distinct
/// ids.
pub proof fn lemma_byte_fallback(vocab: TokenizerConfig, a: u8, b: u8)
    requires
        vocab.well_formed(),
        byte_complete(vocab),
        a != b,
    ensures
        vocab.spec_byte_to_token(a) is Ok,
        vocab.spec_byte_to_token(a)->Ok_0 != vocab.spec_byte_to_token(b)->Ok_0,
{
    lemma_hex_text_injective(a, b);
    lemma_bpe_text_injective(a, b);
    let ta = match vocab.vocab_type {
        VocabType::Spm | VocabType::Ugm => spec_byte_hex_text(a),
        _ => spec_bpe_byte_text(a),
    };
    let tb = match vocab.vocab_type {
        VocabType::Spm | VocabType::Ugm => spec_byte_hex_text(b),
        _ => spec_bpe_byte_text(b),
    };
    let ia = vocab.spec_id_of(ta);
    let ib = vocab.spec_id_of(tb);
    assert(0 <= ia < vocab.spec_n_tokens() && vocab.token_text(ia) == ta);
    assert(0 <= ib < vocab.spec_n_tokens() && vocab.token_text(ib) == tb);
    if ia == ib {
        assert(ta == tb);
    }
}

/// Distinct bytes have distinct `<0xHH>` spellings.
pub proof fn lemma_hex_text_injective(a: u8, b: u8)
    requires
        a != b,
    ensures
        spec_byte_hex_text(a) != spec_byte_hex_text(b),
{
    if spec_byte_hex_text(a) == spec_byte_hex_text(b) {
        assert(spec_byte_hex_text(a)[3] == spec_byte_hex_text(b)[3]);
        assert(spec_byte_hex_text(a)[4] == spec_byte_hex_text(b)[4]);
        assert(spec_hex_char(a as int / 16) == spec_hex_char(b as int / 16));
        assert(spec_hex_char(a as int % 16) == spec_hex_char(b as int % 16));
        assert(a as int / 16 == b as int / 16 && a as int % 16 == b as int % 16);
        assert(a as int == 16 * (a as int / 16) + a as int % 16);
        assert(b as int == 16 * (b as int / 16) + b as int % 16);
    }
}

/// Distinct bytes have distinct GPT-2 byte-mapping texts.
pub proof fn lemma_bpe_text_injective(a: u8, b: u8)
    requires
        a != b,
    ensures
        spec_bpe_byte_text(a) != spec_bpe_byte_text(b),
{
    lemma_byte_to_cpt_injective(a, b);
    if spec_bpe_byte_text(a) == spec_bpe_byte_text(b) {
        let ca = spec_byte_to_cpt(a) as char;
        let cb = spec_byte_to_cpt(b) as char;
        assert(spec_bpe_byte_text(a)[0] == ca);
        assert(ca == cb);
        assert(ca as u32 == spec_byte_to_cpt(a));
        assert(cb as u32 == spec_byte_to_cpt(b));
    }
}

/// The concatenated payloads of a fragment list: token fragments stand for
/// their token's text, raw fragments for their own.
pub open spec fn payloads(vocab: TokenizerConfig, frags: Seq<GFrag>) -> Seq<char>
    decreases frags.len(),
{
    if frags.len() == 0 {
        Seq::empty()
    } else {
        let f = frags[0];
        (if f.is_token {
            vocab.token_text(f.token as int)
        } else {
            f.text
        }) + payloads(vocab, frags.drop_first())
    }
}

/// The payload of a single fragment.
pub proof fn lemma_payloads_singleton(vocab: TokenizerConfig, f: GFrag)
    ensures
        payloads(vocab, seq![f]) == (if f.is_token {
            vocab.token_text(f.token as int)
        } else {
            f.text
        }),
{
    assert(seq![f].drop_first() =~= Seq::<GFrag>::empty());
    assert(payloads(vocab, Seq::<GFrag>::empty()) =~= Seq::<char>::empty());
    assert(payloads(vocab, seq![f]) =~= (if f.is_token {
        vocab.token_text(f.token as int)
    } else {
        f.text
    }));
}

/// Payloads distribute over concatenation.
pub proof fn lemma_payloads_concat(vocab: TokenizerConfig, a: Seq<GFrag>, b: Seq<GFrag>)
    ensures
        payloads(vocab, a + b) == payloads(vocab, a) + payloads(vocab, b),
    decreases a.len(),
{
    if a.len() == 0 {
        assert(a + b =~= b);
        assert(payloads(vocab, a) + payloads(vocab, b) =~= payloads(vocab, b));
    } else {
        lemma_payloads_concat(vocab, a.drop_first(), b);
        assert((a + b).drop_first() =~= a.drop_first() + b);
        assert((a + b)[0] == a[0]);
        assert(payloads(vocab, a + b) =~= payloads(vocab, a) + payloads(vocab, b));
    }
}

/// Splitting a raw text around a special token without strip attributes
/// keeps the concatenated payload: the matched literal is replaced by the
/// token that spells it.
pub proof fn lemma_split_raw_coverage(vocab: TokenizerConfig, t: Seq<char>, id: u32)
    requires
        0 <= id < vocab.spec_n_tokens(),
    ensures
        payloads(vocab, split_raw(t, vocab.token_text(id as int), id, false, false)) == t,
    decreases t.len(),
{
    let st = vocab.token_text(id as int);
    let m = find_first(t, st);
    lemma_find_first(t, st);
    if st.len() == 0 || m < 0 {
        let whole = split_raw(t, st, id, false, false);
        assert(whole =~= seq![GFrag { is_token: false, token: NULL, text: t }]);
        lemma_payloads_singleton(vocab, GFrag { is_token: false, token: NULL, text: t });
        assert(payloads(vocab, whole) =~= t);
    } else {
        assert(is_match_at(t, st, m));
        let left = t.subrange(0, m);
        let lefts: Seq<GFrag> = if left.len() > 0 {
            seq![GFrag { is_token: false, token: NULL, text: left }]
        } else {
            Seq::empty()
        };
        let tok = seq![GFrag { is_token: true, token: id, text: Seq::<char>::empty() }];
        let rem = t.subrange(m + st.len(), t.len() as int);
        let tail: Seq<GFrag> = if rem.len() > 0 {
            split_raw(rem, st, id, false, false)
        } else {
            Seq::empty()
        };
        if rem.len() > 0 {
            lemma_split_raw_coverage(vocab, rem, id);
        }
        let whole = split_raw(t, st, id, false, false);
        assert(whole == lefts + tok + tail);
        lemma_payloads_concat(vocab, lefts, tok);
        lemma_payloads_concat(vocab, lefts + tok, tail);
        if left.len() > 0 {
            lemma_payloads_singleton(vocab, GFrag { is_token: false, token: NULL, text: left });
        } else {
            assert(payloads(vocab, lefts) =~= Seq::<char>::empty());
        }
        assert(payloads(vocab, lefts) =~= left);
        lemma_payloads_singleton(
            vocab,
            GFrag { is_token: true, token: id, text: Seq::<char>::empty() },
        );
        assert(payloads(vocab, tok) =~= st);
        if rem.len() == 0 {
            assert(payloads(vocab, Seq::<GFrag>::empty()) =~= Seq::<char>::empty());
        }
        assert(payloads(vocab, tail) =~= rem);
        assert(t =~= left + t.subrange(m, m + st.len()) + rem);
        assert(t.subrange(m, m + st.len()) == st);
        assert(payloads(vocab, whole) =~= t);
    }
}

/// One partitioner pass without strip attributes keeps the concatenated
/// payload.
pub proof fn lemma_partition_step_coverage(vocab: TokenizerConfig, frags: Seq<GFrag>, id: u32)
    requires
        0 <= id < vocab.spec_n_tokens(),
        forall|i: int|
            0 <= i < frags.len() ==> ((#[trigger] frags[i]).is_token ==> frags[i].token
                < vocab.spec_n_tokens()),
    ensures
        payloads(
            vocab,
            partition_step(frags, vocab.token_text(id as int), id, false, false),
        ) == payloads(vocab, frags),
    decreases frags.len(),
{
    let st = vocab.token_text(id as int);
    if frags.len() > 0 {
        let f = frags[0];
        let head: Seq<GFrag> = if f.is_token {
            seq![f]
        } else {
            split_raw(f.text, st, id, false, false)
        };
        if !f.is_token {
            lemma_split_raw_coverage(vocab, f.text, id);
        } else {
            lemma_payloads_singleton(vocab, f);
        }
        lemma_partition_step_coverage(vocab, frags.drop_first(), id);
        let tail = partition_step(frags.drop_first(), st, id, false, false);
        lemma_payloads_concat(vocab, head, tail);
        assert(payloads(vocab, frags) =~= (if f.is_token {
            vocab.token_text(f.token as int)
        } else {
            f.text
        }) + payloads(vocab, frags.drop_first()));
    }
}

/// No special token carries a strip attribute.
pub open spec fn no_strip_attrs(vocab: TokenizerConfig) -> bool {
    forall|k: int|
        0 <= k < vocab.special_tokens@.len() ==> {
            let attr = vocab.id_to_token@[(#[trigger] vocab.special_tokens@[k]) as int].attribute;
            !spec_has_attr(attr, ATTR_LSTRIP) && !spec_has_attr(attr, ATTR_RSTRIP)
        }
}

/// Token fragments produced by the partitioner name real tokens.
pub open spec fn frags_tokens_ok(vocab: TokenizerConfig, frags: Seq<GFrag>) -> bool {
    forall|i: int|
        0 <= i < frags.len() ==> ((#[trigger] frags[i]).is_token ==> frags[i].token
            < vocab.spec_n_tokens())
}

/// The whole partition without strip attributes keeps the concatenated
/// payload.
pub proof fn lemma_st_partition_coverage(
    vocab: TokenizerConfig,
    frags: Seq<GFrag>,
    k: int,
    parse_special: bool,
)
    requires
        vocab.well_formed(),
        no_strip_attrs(vocab),
        frags_tokens_ok(vocab, frags),
    ensures
        payloads(vocab, st_partition_spec(vocab, frags, k, parse_special)) == payloads(
            vocab,
            frags,
        ),
        frags_tokens_ok(vocab, st_partition_spec(vocab, frags, k, parse_special)),
    decreases vocab.special_tokens@.len() - k,
{
    if 0 <= k < vocab.special_tokens@.len() {
        let id = vocab.special_tokens@[k];
        let data = vocab.id_to_token@[id as int];
        let skip = !parse_special && spec_has_attr(
            data.attribute,
            crate::vocab::ATTR_CONTROL | crate::vocab::ATTR_UNKNOWN,
        );
        if skip {
            lemma_st_partition_coverage(vocab, frags, k + 1, parse_special);
        } else {
            assert(!spec_has_attr(data.attribute, ATTR_LSTRIP) && !spec_has_attr(
                data.attribute,
                ATTR_RSTRIP,
            ));
            let frags2 = partition_step(frags, data.text@, id, false, false);
            lemma_partition_step_coverage(vocab, frags, id);
            lemma_partition_step_tokens_ok(vocab, frags, id);
            lemma_st_partition_coverage(vocab, frags2, k + 1, parse_special);
        }
    } else {
        assert(st_partition_spec(vocab, frags, k, parse_special) == frags);
    }
}

/// One partitioner pass only adds token fragments that name the special
/// token itself.
pub proof fn lemma_partition_step_tokens_ok(vocab: TokenizerConfig, frags: Seq<GFrag>, id: u32)
    requires
        0 <= id < vocab.spec_n_tokens(),
        frags_tokens_ok(vocab, frags),
    ensures
        frags_tokens_ok(
            vocab,
            partition_step(frags, vocab.token_text(id as int), id, false, false),
        ),
    decreases frags.len(),
{
    let st = vocab.token_text(id as int);
    if frags.len() > 0 {
        let f = frags[0];
        let head: Seq<GFrag> = if f.is_token {
            seq![f]
        } else {
            split_raw(f.text, st, id, false, false)
        };
        if !f.is_token {
            lemma_split_raw_tokens_ok(vocab, f.text, id);
        }
        lemma_partition_step_tokens_ok(vocab, frags.drop_first(), id);
        let tail = partition_step(frags.drop_first(), st, id, false, false);
        let whole = partition_step(frags, st, id, false, false);
        assert forall|i: int|
            0 <= i < whole.len() && (#[trigger] whole[i]).is_token implies whole[i].token
            < vocab.spec_n_tokens() by {
            if i < head.len() {
                assert(whole[i] == head[i]);
            } else {
                assert(whole[i] == tail[i - head.len()]);
            }
        }
    }
}

/// Splitting a raw text only adds token fragments naming `id`.
pub proof fn lemma_split_raw_tokens_ok(vocab: TokenizerConfig, t: Seq<char>, id: u32)
    requires
        0 <= id < vocab.spec_n_tokens(),
    ensures
        frags_tokens_ok(vocab, split_raw(t, vocab.token_text(id as int), id, false, false)),
    decreases t.len(),
{
    let st = vocab.token_text(id as int);
    let m = find_first(t, st);
    lemma_find_first(t, st);
    if st.len() == 0 || m < 0 {
    } else {
        let rem = t.subrange(m + st.len(), t.len() as int);
        if rem.len() > 0 {
            lemma_split_raw_tokens_ok(vocab, rem, id);
        }
        let whole = split_raw(t, st, id, false, false);
        let left = t.subrange(0, m);
        let lefts: Seq<GFrag> = if left.len() > 0 {
            seq![GFrag { is_token: false, token: NULL, text: left }]
        } else {
            Seq::empty()
        };
        let tok = seq![GFrag { is_token: true, token: id, text: Seq::<char>::empty() }];
        let tail: Seq<GFrag> = if rem.len() > 0 {
            split_raw(rem, st, id, false, false)
        } else {
            Seq::empty()
        };
        assert forall|i: int|
            0 <= i < whole.len() && (#[trigger] whole[i]).is_token implies whole[i].token
            < vocab.spec_n_tokens() by {
            if i < lefts.len() {
                assert(whole[i] == lefts[i]);
            } else if i < lefts.len() + 1 {
                assert(whole[i] == tok[0]);
            } else {
                assert(whole[i] == tail[i - lefts.len() - 1]);
            }
        }
    }
}

/// Coverage of the partitioning stage: without strip attributes, the
/// fragments that reach the sub-tokenizers spell the input text exactly,
/// the matched special tokens standing for their own literals.
pub proof fn lemma_partition_coverage(vocab: TokenizerConfig, s: Seq<char>, parse_special: bool)
    requires
        vocab.well_formed(),
        no_strip_attrs(vocab),
    ensures
        payloads(
            vocab,
            st_partition_spec(vocab, initial_frags(s), 0, parse_special),
        ) == s,
{
    lemma_st_partition_coverage(vocab, initial_frags(s), 0, parse_special);
    if s.len() == 0 {
        assert(payloads(vocab, initial_frags(s)) =~= s);
    } else {
        lemma_payloads_singleton(vocab, GFrag { is_token: false, token: NULL, text: s });
        assert(payloads(vocab, initial_frags(s)) =~= s);
    }
}

/// A fragment list of tokens only passes through the partitioner
/// untouched.
proof fn lemma_partition_step_tokens_stay(
    frags: Seq<GFrag>,
    st: Seq<char>,
    id: u32,
    lstrip: bool,
    rstrip: bool,
)
    requires
        forall|i: int| 0 <= i < frags.len() ==> (#[trigger] frags[i]).is_token,
    ensures
        partition_step(frags, st, id, lstrip, rstrip) == frags,
    decreases frags.len(),
{
    if frags.len() > 0 {
        lemma_partition_step_tokens_stay(frags.drop_first(), st, id, lstrip, rstrip);
        assert(partition_step(frags, st, id, lstrip, rstrip) =~= frags);
    } else {
        assert(partition_step(frags, st, id, lstrip, rstrip) =~= frags);
    }
}

/// Token-only fragment lists pass through the whole partition untouched.
proof fn lemma_st_partition_tokens_stay(
    vocab: TokenizerConfig,
    frags: Seq<GFrag>,
    j: int,
    parse_special: bool,
)
    requires
        forall|i: int| 0 <= i < frags.len() ==> (#[trigger] frags[i]).is_token,
    ensures
        st_partition_spec(vocab, frags, j, parse_special) == frags,
    decreases vocab.special_tokens@.len() - j,
{
    if 0 <= j < vocab.special_tokens@.len() {
        let id = vocab.special_tokens@[j];
        let data = vocab.id_to_token@[id as int];
        lemma_partition_step_tokens_stay(
            frags,
            data.text@,
            id,
            spec_has_attr(data.attribute, ATTR_LSTRIP),
            spec_has_attr(data.attribute, ATTR_RSTRIP),
        );
        lemma_st_partition_tokens_stay(vocab, frags, j + 1, parse_special);
    }
}

/// Partitioning a single raw fragment that is exactly the literal of
/// special token `k` leaves it whole until pass `k`, which replaces it by
/// the token; later passes keep the token.
proof fn lemma_partition_single_literal(vocab: TokenizerConfig, k: int, j: int)
    requires
        vocab.well_formed(),
        0 <= j <= k < vocab.special_tokens@.len(),
        vocab.token_text(vocab.special_tokens@[k] as int).len() >= 1,
    ensures
        ({
            let id = vocab.special_tokens@[k];
            let t = vocab.token_text(id as int);
            st_partition_spec(
                vocab,
                seq![GFrag { is_token: false, token: NULL, text: t }],
                j,
                true,
            ) == seq![GFrag { is_token: true, token: id, text: Seq::<char>::empty() }]
        }),
    decreases vocab.special_tokens@.len() - j,
{
    let id = vocab.special_tokens@[k];
    let t = vocab.token_text(id as int);
    let raw = seq![GFrag { is_token: false, token: NULL, text: t }];
    let tokf = seq![GFrag { is_token: true, token: id, text: Seq::<char>::empty() }];
    let idj = vocab.special_tokens@[j];
    let dataj = vocab.id_to_token@[idj as int];
    let tj = dataj.text@;
    let lstrip = spec_has_attr(dataj.attribute, ATTR_LSTRIP);
    let rstrip = spec_has_attr(dataj.attribute, ATTR_RSTRIP);
    assert(raw.drop_first() =~= Seq::<GFrag>::empty());
    assert(partition_step(Seq::<GFrag>::empty(), tj, idj, lstrip, rstrip) =~= Seq::<
        GFrag,
    >::empty());
    if j == k {
        // the literal matches itself at position 0 and covers everything
        assert(tj == t);
        lemma_find_first(t, t);
        assert(t.subrange(0, t.len() as int) =~= t);
        assert(is_match_at(t, t, 0));
        let ff = find_first(t, t);
        if ff == -1 {
            assert(!is_match_at(t, t, 0));
        }
        if ff > 0 {
            assert(!is_match_at(t, t, 0));
        }
        assert(ff == 0);
        let left = t.subrange(0, 0);
        assert(left =~= Seq::<char>::empty());
        let left_t = if lstrip {
            trim_right_ws(left)
        } else {
            left
        };
        assert(left_t.len() == 0);
        let rem = t.subrange(0 + t.len() as int, t.len() as int);
        assert(rem =~= Seq::<char>::empty());
        let rem_t = if rstrip {
            trim_left_ws(rem)
        } else {
            rem
        };
        assert(rem_t.len() == 0);
        assert(split_raw(t, t, id, lstrip, rstrip) =~= tokf);
        assert(partition_step(raw, tj, idj, lstrip, rstrip) =~= tokf);
        assert forall|i: int| 0 <= i < tokf.len() implies (#[trigger] tokf[i]).is_token by {}
        lemma_st_partition_tokens_stay(vocab, tokf, k + 1, true);
    } else {
        // a longer or different literal of the same length cannot occur
        // inside the text
        assert(tj.len() >= t.len());
        lemma_find_first(t, tj);
        let ff = find_first(t, tj);
        if ff >= 0 {
            assert(is_match_at(t, tj, ff));
            assert(ff == 0 && tj.len() == t.len());
            assert(t.subrange(0, t.len() as int) =~= t);
            assert(tj == t);
            assert(idj != id);
            assert(vocab.token_text(idj as int) != vocab.token_text(id as int));
            assert(false);
        }
        if tj.len() == 0 || ff < 0 {
            assert(split_raw(t, tj, idj, lstrip, rstrip) =~= raw);
        }
        assert(partition_step(raw, tj, idj, lstrip, rstrip) =~= raw);
        lemma_partition_single_literal(vocab, k, j + 1);
    }
}

/// Special idempotence: when the input is exactly the literal text of a
/// special token and special parsing is on, the output is exactly that
/// token's id, bracketed by BOS/EOS as the flags ask.
pub proof fn lemma_special_idempotence(vocab: TokenizerConfig, k: int, add_special: bool)
    requires
        vocab.well_formed(),
        0 <= k < vocab.special_tokens@.len(),
        vocab.token_text(vocab.special_tokens@[k] as int).len() >= 1,
        vocab.vocab_type == VocabType::Spm || vocab.vocab_type == VocabType::Bpe,
    ensures
        ({
            let id = vocab.special_tokens@[k];
            let bos: Seq<u32> = if add_special && vocab.add_bos {
                seq![vocab.bos]
            } else {
                Seq::empty()
            };
            let eos: Seq<u32> = if add_special && vocab.add_eos {
                seq![vocab.eos]
            } else {
                Seq::empty()
            };
            spec_tokenize(vocab, vocab.token_text(id as int), add_special, true) == Result::<
                Seq<u32>,
                TokenizerError,
            >::Ok(bos + seq![id] + eos)
        }),
{
    let id = vocab.special_tokens@[k];
    let t = vocab.token_text(id as int);
    let tokf = seq![GFrag { is_token: true, token: id, text: Seq::<char>::empty() }];
    assert(initial_frags(t) =~= seq![GFrag { is_token: false, token: NULL, text: t }]);
    lemma_partition_single_literal(vocab, k, 0);
    assert(st_partition_spec(vocab, initial_frags(t), 0, true) == tokf);
    assert(tokf.drop_first() =~= Seq::<GFrag>::empty());
    if vocab.vocab_type == VocabType::Spm {
        assert(spec_spm_frags(vocab, Seq::<GFrag>::empty(), true) == Option::<Seq<u32>>::Some(
            Seq::<u32>::empty(),
        ));
        assert(spec_spm_frags(vocab, tokf, true) == Option::<Seq<u32>>::Some(
            seq![id] + Seq::<u32>::empty(),
        ));
        assert(seq![id] + Seq::<u32>::empty() =~= seq![id]);
    } else {
        assert(spec_bpe_frags(vocab, Seq::<GFrag>::empty()) =~= Seq::<u32>::empty());
        assert(spec_bpe_frags(vocab, tokf) =~= seq![id]);
    }
}

} // verus!
