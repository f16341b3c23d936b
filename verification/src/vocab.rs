//! The vocabulary: token texts, attributes, scores, merge ranks, and the
//! special-token scalar slots, together with the lookup operations the
//! tokenizer sessions build on.

use vstd::prelude::*;
use crate::unicode::{spec_byte_to_cpt, unicode_byte_to_utf8, chars_to_string};

verus! {

/// Sentinel id meaning "unset" for special-token slots and failed lookups.
pub const NULL: u32 = u32::MAX;

pub type TokenId = u32;

pub const ATTR_UNKNOWN: u32 = 1;
pub const ATTR_UNUSED: u32 = 2;
pub const ATTR_NORMAL: u32 = 4;
pub const ATTR_CONTROL: u32 = 8;
pub const ATTR_USER_DEFINED: u32 = 16;
pub const ATTR_BYTE: u32 = 32;
pub const ATTR_NORMALIZED: u32 = 64;
pub const ATTR_LSTRIP: u32 = 128;
pub const ATTR_RSTRIP: u32 = 256;
pub const ATTR_SINGLE_WORD: u32 = 512;

/// Mask of the attributes that make a token special: Control, UserDefined
/// and Unknown.
pub const ATTR_SPECIAL_MASK: u32 = 25;

/// The attribute kinds a token may carry; a token's attribute field is the
/// bitwise union of their bits.
#[derive(Clone, Copy, PartialEq, Eq, Structural, Debug)]
pub enum TokenAttribute {
    Undefined,
    Unknown,
    Unused,
    Normal,
    Control,
    UserDefined,
    Byte,
    Normalized,
    LStrip,
    RStrip,
    SingleWord,
}

impl TokenAttribute {
    /// The bit this attribute contributes to a token's attribute mask.
    pub open spec fn spec_bit(self) -> u32 {
        match self {
            TokenAttribute::Undefined => 0,
            TokenAttribute::Unknown => ATTR_UNKNOWN,
            TokenAttribute::Unused => ATTR_UNUSED,
            TokenAttribute::Normal => ATTR_NORMAL,
            TokenAttribute::Control => ATTR_CONTROL,
            TokenAttribute::UserDefined => ATTR_USER_DEFINED,
            TokenAttribute::Byte => ATTR_BYTE,
            TokenAttribute::Normalized => ATTR_NORMALIZED,
            TokenAttribute::LStrip => ATTR_LSTRIP,
            TokenAttribute::RStrip => ATTR_RSTRIP,
            TokenAttribute::SingleWord => ATTR_SINGLE_WORD,
        }
    }

    /// The attribute's bit value.
    pub fn bit(&self) -> (r: u32)
        ensures
            r == self.spec_bit(),
    {
        match self {
            TokenAttribute::Undefined => 0,
            TokenAttribute::Unknown => ATTR_UNKNOWN,
            TokenAttribute::Unused => ATTR_UNUSED,
            TokenAttribute::Normal => ATTR_NORMAL,
            TokenAttribute::Control => ATTR_CONTROL,
            TokenAttribute::UserDefined => ATTR_USER_DEFINED,
            TokenAttribute::Byte => ATTR_BYTE,
            TokenAttribute::Normalized => ATTR_NORMALIZED,
            TokenAttribute::LStrip => ATTR_LSTRIP,
            TokenAttribute::RStrip => ATTR_RSTRIP,
            TokenAttribute::SingleWord => ATTR_SINGLE_WORD,
        }
    }
}

/// True when the attribute mask has at least one bit of `mask` set.
pub open spec fn spec_has_attr(attr: u32, mask: u32) -> bool {
    attr & mask != 0
}

/// Tests an attribute mask against a set of attribute bits.
pub fn has_attr(attr: u32, mask: u32) -> (r: bool)
    ensures
        r == spec_has_attr(attr, mask),
{
    attr & mask != 0
}

/// One vocabulary entry. The score is an order-preserving integer key for
/// the model's per-token score: larger key means larger score.
pub struct TokenData {
    pub text: String,
    pub score: i64,
    pub attribute: u32,
}

/// The tokenizer families a model file may declare; only Spm and Bpe are
/// supported by the sessions.
#[derive(Clone, Copy, PartialEq, Eq, Structural, Debug)]
pub enum VocabType {
    NoVocab,
    Spm,
    Bpe,
    Wpm,
    Ugm,
    Rwkv,
}

/// Why a vocabulary operation or a tokenize call failed.
#[derive(Clone, Copy, PartialEq, Eq, Structural, Debug)]
pub enum TokenizerError {
    /// The vocabulary source is missing required fields or malformed.
    MalformedVocabulary,
    /// The vocabulary's family is not one the sessions support.
    UnsupportedVocabType,
    /// An id-indexed lookup beyond the number of tokens.
    OutOfRange,
    /// Byte fallback found no token for a byte: the vocabulary is incomplete.
    MissingByteToken,
}

/// A loaded, immutable vocabulary together with the tokenizer's
/// configuration flags.
pub struct TokenizerConfig {
    pub vocab_type: VocabType,
    pub bos: u32,
    pub eos: u32,
    pub eot: u32,
    pub eom: u32,
    pub unk: u32,
    pub sep: u32,
    pub pad: u32,
    pub fim_pre: u32,
    pub fim_suf: u32,
    pub fim_mid: u32,
    pub fim_pad: u32,
    pub fim_rep: u32,
    pub fim_sep: u32,
    pub linefeed: u32,
    pub mask: u32,
    pub add_space_prefix: bool,
    pub add_bos: bool,
    pub add_eos: bool,
    pub ignore_merges: bool,
    pub clean_spaces: bool,
    pub remove_extra_whitespaces: bool,
    pub escape_whitespaces: bool,
    pub treat_whitespace_as_suffix: bool,
    pub special_tokens: Vec<TokenId>,
    pub id_to_token: Vec<TokenData>,
    pub bpe_ranks: Vec<(String, String)>,
}

/// Hex digit character (uppercase) for a value below 16.
pub open spec fn spec_hex_char(v: int) -> char {
    if v == 0 { '0' } else if v == 1 { '1' } else if v == 2 { '2' } else if v == 3 { '3' }
    else if v == 4 { '4' } else if v == 5 { '5' } else if v == 6 { '6' } else if v == 7 { '7' }
    else if v == 8 { '8' } else if v == 9 { '9' } else if v == 10 { 'A' } else if v == 11 { 'B' }
    else if v == 12 { 'C' } else if v == 13 { 'D' } else if v == 14 { 'E' } else { 'F' }
}

/// Uppercase hex digit for a nibble.
pub fn hex_char(v: u8) -> (r: char)
    requires
        v < 16,
    ensures
        r == spec_hex_char(v as int),
{
    if v == 0 { '0' } else if v == 1 { '1' } else if v == 2 { '2' } else if v == 3 { '3' }
    else if v == 4 { '4' } else if v == 5 { '5' } else if v == 6 { '6' } else if v == 7 { '7' }
    else if v == 8 { '8' } else if v == 9 { '9' } else if v == 10 { 'A' } else if v == 11 { 'B' }
    else if v == 12 { 'C' } else if v == 13 { 'D' } else if v == 14 { 'E' } else { 'F' }
}

/// The `<0xHH>` text tried first by SPM byte fallback.
pub open spec fn spec_byte_hex_text(b: u8) -> Seq<char> {
    seq!['<', '0', 'x', spec_hex_char(b as int / 16), spec_hex_char(b as int % 16), '>']
}

/// The raw single-byte text tried second by SPM byte fallback: the byte's
/// own character below 0x80, the replacement character otherwise.
pub open spec fn spec_raw_byte_text(b: u8) -> Seq<char> {
    if b < 128 { seq![(b as u32) as char] } else { seq!['\u{FFFD}'] }
}

/// The one-character text the GPT-2 byte mapping assigns to a byte, used
/// by BPE byte fallback.
pub open spec fn spec_bpe_byte_text(b: u8) -> Seq<char> {
    seq![spec_byte_to_cpt(b) as char]
}

impl TokenizerConfig {
    /// Number of tokens.
    pub open spec fn spec_n_tokens(self) -> int {
        self.id_to_token@.len() as int
    }

    /// The text of token `id`.
    pub open spec fn token_text(self, id: int) -> Seq<char> {
        self.id_to_token@[id].text@
    }

    /// Whether some token has exactly this text.
    pub open spec fn spec_has_text(self, t: Seq<char>) -> bool {
        exists|i: int| 0 <= i < self.spec_n_tokens() && self.token_text(i) == t
    }

    /// The id of the token with this text (meaningful when the texts are
    /// unique and some token has the text).
    pub open spec fn spec_id_of(self, t: Seq<char>) -> int {
        choose|i: int| 0 <= i < self.spec_n_tokens() && self.token_text(i) == t
    }

    /// No two tokens share a text.
    pub open spec fn texts_unique(self) -> bool {
        forall|i: int, j: int|
            0 <= i < j < self.spec_n_tokens() ==> self.token_text(i) != self.token_text(j)
    }

    /// Whether token `id` carries a special attribute.
    pub open spec fn spec_is_special(self, id: int) -> bool {
        spec_has_attr(self.id_to_token@[id].attribute, ATTR_SPECIAL_MASK)
    }

    /// The special-token list holds exactly the ids with a special
    /// attribute, without repetition, ordered by weakly decreasing text
    /// length so that no special token is masked by a shorter one.
    pub open spec fn special_tokens_wf(self) -> bool {
        &&& forall|k: int|
            0 <= k < self.special_tokens@.len() ==> (#[trigger] self.special_tokens@[k]) <
                self.spec_n_tokens() && self.spec_is_special(self.special_tokens@[k] as int)
        &&& forall|i: int|
            0 <= i < self.spec_n_tokens() && #[trigger] self.spec_is_special(i)
                ==> self.special_tokens@.contains(i as u32)
        &&& forall|k1: int, k2: int|
            0 <= k1 < k2 < self.special_tokens@.len()
                ==> self.special_tokens@[k1] != self.special_tokens@[k2]
        &&& forall|k1: int, k2: int|
            0 <= k1 < k2 < self.special_tokens@.len()
                ==> self.token_text(self.special_tokens@[k1] as int).len() >= self.token_text(
                self.special_tokens@[k2] as int,
            ).len()
    }

    /// Validity of a loaded vocabulary.
    pub open spec fn well_formed(self) -> bool {
        &&& self.spec_n_tokens() < u32::MAX
        &&& self.bpe_ranks@.len() <= i32::MAX
        &&& self.texts_unique()
        &&& self.special_tokens_wf()
    }

    /// What `text_to_token` returns: the id of the token with this text,
    /// or NULL when there is none.
    pub open spec fn spec_text_to_token(self, t: Seq<char>) -> u32 {
        if self.spec_has_text(t) {
            self.spec_id_of(t) as u32
        } else {
            NULL
        }
    }

    /// Exact-text lookup: the id of the token whose text equals the
    /// argument, or NULL on a miss.
    pub fn text_to_token(&self, text: &str) -> (r: TokenId)
        requires
            self.well_formed(),
        ensures
            r == self.spec_text_to_token(text@),
    {
        let q: String = text.to_owned();
        let n = self.id_to_token.len();
        let mut i: usize = 0;
        while i < n
            invariant
                i <= n,
                n == self.spec_n_tokens(),
                q@ == text@,
                self.well_formed(),
                forall|j: int| 0 <= j < i ==> self.token_text(j) != text@,
            decreases n - i,
        {
            if self.id_to_token[i].text == q {
                proof {
                    let ii = i as int;
                    assert(self.token_text(ii) == text@);
                    assert(self.spec_has_text(text@));
                    let w = self.spec_id_of(text@);
                    assert(0 <= w < self.spec_n_tokens() && self.token_text(w) == text@);
                    assert(w == ii);
                }
                return i as u32;
            }
            proof {
                assert(self.token_text(i as int) != text@);
            }
            i = i + 1;
        }
        proof {
            assert(!self.spec_has_text(text@));
        }
        NULL
    }

    /// Number of tokens in the vocabulary.
    pub fn n_tokens(&self) -> (r: u32)
        requires
            self.spec_n_tokens() < u32::MAX,
        ensures
            r as int == self.spec_n_tokens(),
    {
        self.id_to_token.len() as u32
    }

    /// The data of token `id`; OutOfRange when `id` is not a token.
    pub fn get_token_data(&self, id: TokenId) -> (r: Result<TokenData, TokenizerError>)
        ensures
            r is Ok <==> id < self.spec_n_tokens(),
            r is Ok ==> {
                &&& r->Ok_0.text@ == self.token_text(id as int)
                &&& r->Ok_0.score == self.id_to_token@[id as int].score
                &&& r->Ok_0.attribute == self.id_to_token@[id as int].attribute
            },
            r is Err ==> r->Err_0 == TokenizerError::OutOfRange,
    {
        if (id as usize) < self.id_to_token.len() {
            let d = &self.id_to_token[id as usize];
            Ok(TokenData { text: d.text.clone(), score: d.score, attribute: d.attribute })
        } else {
            Err(TokenizerError::OutOfRange)
        }
    }

    /// What `byte_to_token` returns for each byte, by vocabulary family.
    pub open spec fn spec_byte_to_token(self, ch: u8) -> Result<TokenId, TokenizerError> {
        if self.vocab_type == VocabType::Spm || self.vocab_type == VocabType::Ugm {
            if self.spec_has_text(spec_byte_hex_text(ch)) {
                Ok(self.spec_id_of(spec_byte_hex_text(ch)) as u32)
            } else if self.spec_has_text(spec_raw_byte_text(ch)) {
                Ok(self.spec_id_of(spec_raw_byte_text(ch)) as u32)
            } else {
                Err(TokenizerError::MissingByteToken)
            }
        } else if self.vocab_type == VocabType::Wpm || self.vocab_type == VocabType::Bpe {
            if self.spec_has_text(spec_bpe_byte_text(ch)) {
                Ok(self.spec_id_of(spec_bpe_byte_text(ch)) as u32)
            } else {
                Err(TokenizerError::MissingByteToken)
            }
        } else {
            Err(TokenizerError::UnsupportedVocabType)
        }
    }

    /// Byte-fallback lookup. SPM and UGM first try the `<0xHH>` spelling
    /// with uppercase hex, then the raw single-byte text; BPE and WPM look
    /// up the GPT-2 byte mapping's text. A miss is MissingByteToken.
    pub fn byte_to_token(&self, ch: u8) -> (r: Result<TokenId, TokenizerError>)
        requires
            self.well_formed(),
        ensures
            r == self.spec_byte_to_token(ch),
    {
        match self.vocab_type {
            VocabType::Spm | VocabType::Ugm => {
                let hi = hex_char(ch / 16);
                let lo = hex_char(ch % 16);
                let buf: Vec<char> = vec!['<', '0', 'x', hi, lo, '>'];
                proof {
                    assert(buf@ =~= spec_byte_hex_text(ch));
                }
                let s = chars_to_string(buf.as_slice());
                let id = self.text_to_token(s.as_str());
                if id != NULL {
                    return Ok(id);
                }
                let rc: char = if ch < 128 {
                    match crate::unicode::char_from_u32(ch as u32) {
                        Some(c) => c,
                        None => '\u{FFFD}',  // unreachable below 0x80
                    }
                } else {
                    '\u{FFFD}'
                };
                let buf2: Vec<char> = vec![rc];
                proof {
                    if ch < 128 {
                        vstd::utf8::char_u32_cast(rc, ch as u32);
                    }
                    assert(buf2@ =~= spec_raw_byte_text(ch));
                }
                let s2 = chars_to_string(buf2.as_slice());
                let id2 = self.text_to_token(s2.as_str());
                if id2 != NULL {
                    Ok(id2)
                } else {
                    Err(TokenizerError::MissingByteToken)
                }
            }
            VocabType::Wpm | VocabType::Bpe => {
                let s = unicode_byte_to_utf8(ch);
                proof {
                    vstd::utf8::char_u32_cast(s@[0], spec_byte_to_cpt(ch));
                    assert(s@ =~= spec_bpe_byte_text(ch));
                }
                let id = self.text_to_token(s.as_str());
                if id != NULL {
                    Ok(id)
                } else {
                    Err(TokenizerError::MissingByteToken)
                }
            }
            _ => Err(TokenizerError::UnsupportedVocabType),
        }
    }

    /// Whether merge pair `i` is (l, r).
    pub open spec fn rank_pair_is(self, i: int, l: Seq<char>, r: Seq<char>) -> bool {
        self.bpe_ranks@[i].0@ == l && self.bpe_ranks@[i].1@ == r
    }

    /// What `find_bpe_rank` returns: the last position of the pair in the
    /// merge list, or -1 when the pair is not merged.
    pub open spec fn spec_find_bpe_rank(self, l: Seq<char>, r: Seq<char>) -> int {
        if exists|i: int| 0 <= i < self.bpe_ranks@.len() && self.rank_pair_is(i, l, r) {
            choose|i: int|
                0 <= i < self.bpe_ranks@.len() && self.rank_pair_is(i, l, r) && (forall|j: int|
                    i < j < self.bpe_ranks@.len() ==> !self.rank_pair_is(j, l, r))
        } else {
            -1
        }
    }

    /// The merge priority of a token pair: its position in the merge list
    /// (lower is merged earlier), or -1 when the pair is never merged.
    pub fn find_bpe_rank(&self, token_left: &str, token_right: &str) -> (r: i32)
        requires
            self.well_formed(),
        ensures
            r as int == self.spec_find_bpe_rank(token_left@, token_right@),
    {
        let ql: String = token_left.to_owned();
        let qr: String = token_right.to_owned();
        let n = self.bpe_ranks.len();
        let mut i: usize = n;
        while i > 0
            invariant
                i <= n,
                n == self.bpe_ranks@.len(),
                n <= i32::MAX,
                ql@ == token_left@,
                qr@ == token_right@,
                forall|j: int| i <= j < n ==> !self.rank_pair_is(j, token_left@, token_right@),
            decreases i,
        {
            i = i - 1;
            if self.bpe_ranks[i].0 == ql && self.bpe_ranks[i].1 == qr {
                proof {
                    let ii = i as int;
                    assert(self.rank_pair_is(ii, token_left@, token_right@));
                    assert(forall|j: int|
                        ii < j < self.bpe_ranks@.len() ==> !self.rank_pair_is(
                            j,
                            token_left@,
                            token_right@,
                        ));
                    let w = choose|k: int|
                        0 <= k < self.bpe_ranks@.len() && self.rank_pair_is(
                            k,
                            token_left@,
                            token_right@,
                        ) && (forall|j: int|
                            k < j < self.bpe_ranks@.len() ==> !self.rank_pair_is(
                                j,
                                token_left@,
                                token_right@,
                            ));
                    assert(w == ii);
                }
                return i as i32;
            }
        }
        -1
    }
}

} // verus!
