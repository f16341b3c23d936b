//! Codepoint classification, simple case folding, UTF-8 lead-byte lengths,
//! the GPT-2 byte-to-unicode mapping, and small string helpers the
//! tokenizer builds on.

use vstd::prelude::*;
use crate::unicode_data::{
    is_accent_mark_cpt, is_letter_cpt, is_lowercase_cpt, is_number_cpt, is_punctuation_cpt,
    is_symbol_cpt, is_uppercase_cpt, spec_is_accent_mark_cpt, spec_is_letter_cpt,
    spec_is_lowercase_cpt, spec_is_number_cpt, spec_is_punctuation_cpt, spec_is_symbol_cpt,
    spec_is_uppercase_cpt,
};

verus! {

/// Per-codepoint category flags.
#[allow(non_camel_case_types)]
#[derive(Clone, Copy, PartialEq, Eq, Structural)]
pub struct unicode_cpt_flags {
    pub is_whitespace: bool,
    pub is_letter: bool,
    pub is_number: bool,
    pub is_punctuation: bool,
    pub is_symbol: bool,
    pub is_accent_mark: bool,
    pub is_lowercase: bool,
    pub is_uppercase: bool,
    pub is_nfd: bool,
}

pub const FLAG_WHITESPACE: u32 = 1;
pub const FLAG_LETTER: u32 = 2;
pub const FLAG_NUMBER: u32 = 4;
pub const FLAG_PUNCTUATION: u32 = 8;
pub const FLAG_SYMBOL: u32 = 16;
pub const FLAG_ACCENT_MARK: u32 = 32;

/// The bitmask view of a flag set.
pub open spec fn spec_flags_uint(f: unicode_cpt_flags) -> u32 {
    ((if f.is_whitespace { FLAG_WHITESPACE } else { 0 })
    + (if f.is_letter { FLAG_LETTER } else { 0 })
    + (if f.is_number { FLAG_NUMBER } else { 0 })
    + (if f.is_punctuation { FLAG_PUNCTUATION } else { 0 })
    + (if f.is_symbol { FLAG_SYMBOL } else { 0 })
    + (if f.is_accent_mark { FLAG_ACCENT_MARK } else { 0 })) as u32
}

/// The single category bit of a flag set, by fixed priority.
pub open spec fn spec_category_flag(f: unicode_cpt_flags) -> u32 {
    if f.is_letter { FLAG_LETTER }
    else if f.is_number { FLAG_NUMBER }
    else if f.is_punctuation { FLAG_PUNCTUATION }
    else if f.is_symbol { FLAG_SYMBOL }
    else if f.is_accent_mark { FLAG_ACCENT_MARK }
    else { 0 }
}

/// The flag set with every flag clear: codepoints the tables do not cover.
pub open spec fn spec_flags_undefined() -> unicode_cpt_flags {
    unicode_cpt_flags {
        is_whitespace: false,
        is_letter: false,
        is_number: false,
        is_punctuation: false,
        is_symbol: false,
        is_accent_mark: false,
        is_lowercase: false,
        is_uppercase: false,
        is_nfd: false,
    }
}

/// The codepoints with the White_Space property.
pub open spec fn spec_is_whitespace_cpt(cpt: u32) -> bool {
    (0x9 <= cpt && cpt <= 0xD) || cpt == 0x20 || cpt == 0x85 || cpt == 0xA0 || cpt == 0x1680 || (
    0x2000 <= cpt && cpt <= 0x200A) || cpt == 0x2028 || cpt == 0x2029 || cpt == 0x202F || cpt
        == 0x205F || cpt == 0x3000
}

/// Whether the codepoint has the White_Space property.
pub fn is_whitespace_cpt(cpt: u32) -> (r: bool)
    ensures
        r == spec_is_whitespace_cpt(cpt),
{
    (0x9 <= cpt && cpt <= 0xD) || cpt == 0x20 || cpt == 0x85 || cpt == 0xA0 || cpt == 0x1680 || (
    0x2000 <= cpt && cpt <= 0x200A) || cpt == 0x2028 || cpt == 0x2029 || cpt == 0x202F || cpt
        == 0x205F || cpt == 0x3000
}

/// Classification of a codepoint over the full range: the category range
/// tables for letters, numbers, punctuation, symbols and marks, the
/// White_Space property, and the letter-case categories.
pub open spec fn spec_cpt_flags(cpt: u32) -> unicode_cpt_flags {
    unicode_cpt_flags {
        is_whitespace: spec_is_whitespace_cpt(cpt),
        is_letter: spec_is_letter_cpt(cpt),
        is_number: spec_is_number_cpt(cpt),
        is_punctuation: spec_is_punctuation_cpt(cpt),
        is_symbol: spec_is_symbol_cpt(cpt),
        is_accent_mark: spec_is_accent_mark_cpt(cpt),
        is_lowercase: spec_is_lowercase_cpt(cpt),
        is_uppercase: spec_is_uppercase_cpt(cpt),
        is_nfd: false,
    }
}

impl unicode_cpt_flags {
    /// All category flags packed into one bitmask.
    pub fn as_uint(&self) -> (r: u32)
        ensures
            r == spec_flags_uint(*self),
    {
        let mut result: u32 = 0;
        if self.is_whitespace {
            result = result + FLAG_WHITESPACE;
        }
        if self.is_letter {
            result = result + FLAG_LETTER;
        }
        if self.is_number {
            result = result + FLAG_NUMBER;
        }
        if self.is_punctuation {
            result = result + FLAG_PUNCTUATION;
        }
        if self.is_symbol {
            result = result + FLAG_SYMBOL;
        }
        if self.is_accent_mark {
            result = result + FLAG_ACCENT_MARK;
        }
        result
    }

    /// The single highest-priority category bit.
    pub fn category_flag(&self) -> (r: u32)
        ensures
            r == spec_category_flag(*self),
    {
        if self.is_letter {
            FLAG_LETTER
        } else if self.is_number {
            FLAG_NUMBER
        } else if self.is_punctuation {
            FLAG_PUNCTUATION
        } else if self.is_symbol {
            FLAG_SYMBOL
        } else if self.is_accent_mark {
            FLAG_ACCENT_MARK
        } else {
            0
        }
    }

    /// The all-clear flag set.
    pub fn undefined() -> (r: unicode_cpt_flags)
        ensures
            r == spec_flags_undefined(),
    {
        unicode_cpt_flags {
            is_whitespace: false,
            is_letter: false,
            is_number: false,
            is_punctuation: false,
            is_symbol: false,
            is_accent_mark: false,
            is_lowercase: false,
            is_uppercase: false,
            is_nfd: false,
        }
    }
}

/// Flags of one codepoint.
pub fn unicode_cpt_flags_from_cpt(cpt: u32) -> (r: unicode_cpt_flags)
    ensures
        r == spec_cpt_flags(cpt),
{
    unicode_cpt_flags {
        is_whitespace: is_whitespace_cpt(cpt),
        is_letter: is_letter_cpt(cpt),
        is_number: is_number_cpt(cpt),
        is_punctuation: is_punctuation_cpt(cpt),
        is_symbol: is_symbol_cpt(cpt),
        is_accent_mark: is_accent_mark_cpt(cpt),
        is_lowercase: is_lowercase_cpt(cpt),
        is_uppercase: is_uppercase_cpt(cpt),
        is_nfd: false,
    }
}

/// Simple single-codepoint case folding for the ASCII, Latin-1 and Latin
/// extended letters: cased pairs map to the lowercase partner, everything
/// else stays.
pub open spec fn spec_tolower(cpt: u32) -> u32 {
    if (0x41 <= cpt && cpt <= 0x5A) || (0xC0 <= cpt && cpt <= 0xD6) || (0xD8 <= cpt && cpt
        <= 0xDE) {
        (cpt + 0x20) as u32
    } else if ((0x100 <= cpt && cpt <= 0x12E) || (0x132 <= cpt && cpt <= 0x136) || (0x14A <= cpt
        && cpt <= 0x176)) && cpt % 2 == 0 {
        (cpt + 1) as u32
    } else if ((0x139 <= cpt && cpt <= 0x147) || (0x179 <= cpt && cpt <= 0x17D)) && cpt % 2 == 1 {
        (cpt + 1) as u32
    } else if cpt == 0x178 {
        0xFFu32
    } else {
        cpt
    }
}

/// Lower-cases one codepoint.
pub fn unicode_tolower(cpt: u32) -> (r: u32)
    ensures
        r == spec_tolower(cpt),
{
    if (0x41 <= cpt && cpt <= 0x5A) || (0xC0 <= cpt && cpt <= 0xD6) || (0xD8 <= cpt && cpt
        <= 0xDE) {
        cpt + 0x20
    } else if ((0x100 <= cpt && cpt <= 0x12E) || (0x132 <= cpt && cpt <= 0x136) || (0x14A <= cpt
        && cpt <= 0x176)) && cpt % 2 == 0 {
        cpt + 1
    } else if ((0x139 <= cpt && cpt <= 0x147) || (0x179 <= cpt && cpt <= 0x17D)) && cpt % 2 == 1 {
        cpt + 1
    } else if cpt == 0x178 {
        0xFF
    } else {
        cpt
    }
}

/// Length of the UTF-8 sequence introduced by a lead byte; invalid leads
/// count as one byte so that a scan always advances.
pub open spec fn spec_len_utf8(byte: u8) -> usize {
    if byte & 0x80 == 0 { 1usize }
    else if byte & 0xE0 == 0xC0 { 2usize }
    else if byte & 0xF0 == 0xE0 { 3usize }
    else if byte & 0xF8 == 0xF0 { 4usize }
    else { 1usize }
}

/// UTF-8 sequence length from the lead byte.
pub fn unicode_len_utf8(byte: u8) -> (r: usize)
    ensures
        r == spec_len_utf8(byte),
{
    if byte & 0x80 == 0 {
        1
    } else if byte & 0xE0 == 0xC0 {
        2
    } else if byte & 0xF0 == 0xE0 {
        3
    } else if byte & 0xF8 == 0xF0 {
        4
    } else {
        1
    }
}

/// Bytes that the GPT-2 byte mapping keeps as their own codepoint.
pub open spec fn spec_byte_is_printable(b: u8) -> bool {
    (33 <= b && b <= 126) || (161 <= b && b <= 172) || 174 <= b
}

/// Position of a non-printable byte among the non-printable bytes, in
/// byte order: 0..=32 come first, then 127..=160, then 173.
pub open spec fn spec_nonprintable_index(b: u8) -> u32 {
    if b <= 32 { b as u32 }
    else if 127 <= b && b <= 160 { (33 + (b - 127)) as u32 }
    else { 67 }
}

/// The GPT-2 byte-to-unicode mapping on codepoints: printable bytes map to
/// themselves, the 68 others to 256 + their position among those others.
pub open spec fn spec_byte_to_cpt(b: u8) -> u32 {
    if spec_byte_is_printable(b) { b as u32 } else { (256 + spec_nonprintable_index(b)) as u32 }
}

/// The GPT-2 byte mapping never collides: distinct bytes give distinct
/// codepoints.
pub proof fn lemma_byte_to_cpt_injective(a: u8, b: u8)
    requires
        a != b,
    ensures
        spec_byte_to_cpt(a) != spec_byte_to_cpt(b),
{
}

/// Relies on char::from_u32: returns the character with the given scalar
/// value, and None exactly on surrogates and values above char::MAX.
#[verifier::external_body]
pub(crate) fn char_from_u32(v: u32) -> (r: Option<char>)
    ensures
        r is Some <==> (v < 0xD800 || (0xE000 <= v && v <= 0x10FFFF)),
        r is Some ==> (r->0) as u32 == v,
{
    char::from_u32(v)
}

/// Relies on String::push: appends exactly one character at the end.
#[verifier::external_body]
fn push_char(s: &mut String, c: char)
    ensures
        final(s)@ == old(s)@.push(c),
{
    s.push(c);
}

/// The characters of a string slice, in order.
pub fn str_to_chars(s: &str) -> (r: Vec<char>)
    ensures
        r@ == s@,
{
    let n = s.unicode_len();
    let mut r: Vec<char> = Vec::new();
    let mut i: usize = 0;
    while i < n
        invariant
            i <= n,
            n == s@.len(),
            r@ == s@.subrange(0, i as int),
        decreases n - i,
    {
        let c = s.get_char(i);
        r.push(c);
        proof {
            assert(r@ =~= s@.subrange(0, i + 1));
        }
        i = i + 1;
    }
    proof {
        assert(r@ =~= s@);
    }
    r
}

/// A string holding the given characters, in order.
pub fn chars_to_string(v: &[char]) -> (r: String)
    ensures
        r@ == v@,
{
    let mut r = String::new();
    let mut i: usize = 0;
    while i < v.len()
        invariant
            i <= v@.len(),
            r@ == v@.subrange(0, i as int),
        decreases v@.len() - i,
    {
        push_char(&mut r, v[i]);
        proof {
            assert(r@ =~= v@.subrange(0, i + 1));
        }
        i = i + 1;
    }
    proof {
        assert(r@ =~= v@);
    }
    r
}

/// The single-character string the GPT-2 byte mapping assigns to a byte.
pub fn unicode_byte_to_utf8(byte: u8) -> (r: String)
    ensures
        r@.len() == 1,
        r@[0] as u32 == spec_byte_to_cpt(byte),
{
    let cpt: u32 = if (33 <= byte && byte <= 126) || (161 <= byte && byte <= 172) || 174 <= byte {
        byte as u32
    } else if byte <= 32 {
        256 + byte as u32
    } else if 127 <= byte && byte <= 160 {
        256 + 33 + (byte - 127) as u32
    } else {
        256 + 67
    };
    let c = match char_from_u32(cpt) {
        Some(c) => c,
        None => ' ',  // unreachable: the mapping stays far below the surrogates
    };
    let mut r = String::new();
    push_char(&mut r, c);
    r
}

/// Whitespace escaping: every ASCII space becomes U+2581 (lower one
/// eighth block), character for character.
pub open spec fn spec_escape_whitespace(s: Seq<char>) -> Seq<char> {
    s.map(|i: int, c: char| if c == ' ' { '\u{2581}' } else { c })
}

/// Replaces every ASCII space in the text with U+2581.
pub fn llama_escape_whitespace(text: &mut String)
    ensures
        final(text)@ == spec_escape_whitespace(old(text)@),
{
    let chars = str_to_chars(text.as_str());
    let mut out = String::new();
    let mut i: usize = 0;
    while i < chars.len()
        invariant
            i <= chars@.len(),
            chars@ == old(text)@,
            out@ == spec_escape_whitespace(old(text)@).subrange(0, i as int),
        decreases chars@.len() - i,
    {
        let c = chars[i];
        if c == ' ' {
            push_char(&mut out, '\u{2581}');
        } else {
            push_char(&mut out, c);
        }
        proof {
            assert(out@ =~= spec_escape_whitespace(old(text)@).subrange(0, i + 1));
        }
        i = i + 1;
    }
    proof {
        assert(out@ =~= spec_escape_whitespace(old(text)@));
    }
    *text = out;
}

} // verus!
