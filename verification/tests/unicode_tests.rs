use llm_tokenizer::load::get_bool;
use llm_tokenizer::pretokenizer::unicode_regex_split;
use llm_tokenizer::unicode::{
    chars_to_string, llama_escape_whitespace, str_to_chars, unicode_byte_to_utf8,
    unicode_cpt_flags_from_cpt, unicode_len_utf8, unicode_tolower,
};

#[test]
fn byte_to_utf8_printable_maps_to_itself() {
    assert_eq!(unicode_byte_to_utf8(b'!'), "!");
    assert_eq!(unicode_byte_to_utf8(b'A'), "A");
    assert_eq!(unicode_byte_to_utf8(b'~'), "~");
    assert_eq!(unicode_byte_to_utf8(0xA1), "\u{A1}");
    assert_eq!(unicode_byte_to_utf8(0xAC), "\u{AC}");
    assert_eq!(unicode_byte_to_utf8(0xAE), "\u{AE}");
    assert_eq!(unicode_byte_to_utf8(0xFF), "\u{FF}");
}

#[test]
fn byte_to_utf8_control_maps_to_offset_range() {
    // the non-printable bytes map to 256 + their position
    assert_eq!(unicode_byte_to_utf8(0x00), "\u{100}");
    assert_eq!(unicode_byte_to_utf8(0x01), "\u{101}");
    assert_eq!(unicode_byte_to_utf8(0x20), "\u{120}");
    assert_eq!(unicode_byte_to_utf8(0x7F), "\u{121}");
    assert_eq!(unicode_byte_to_utf8(0xA0), "\u{142}");
    assert_eq!(unicode_byte_to_utf8(0xAD), "\u{143}");
}

#[test]
fn byte_to_utf8_is_injective() {
    let mut seen: Vec<String> = Vec::new();
    for b in 0..=255u16 {
        let s = unicode_byte_to_utf8(b as u8);
        assert!(!seen.contains(&s), "collision at byte {}", b);
        seen.push(s);
    }
}

#[test]
fn len_utf8_lead_bytes() {
    assert_eq!(unicode_len_utf8(0x41), 1);
    assert_eq!(unicode_len_utf8(0xC3), 2);
    assert_eq!(unicode_len_utf8(0xE2), 3);
    assert_eq!(unicode_len_utf8(0xF0), 4);
    // invalid leads count as one byte
    assert_eq!(unicode_len_utf8(0x80), 1);
    assert_eq!(unicode_len_utf8(0xFF), 1);
}

#[test]
fn tolower_folds_ascii_only() {
    assert_eq!(unicode_tolower('A' as u32), 'a' as u32);
    assert_eq!(unicode_tolower('Z' as u32), 'z' as u32);
    assert_eq!(unicode_tolower('a' as u32), 'a' as u32);
    assert_eq!(unicode_tolower('0' as u32), '0' as u32);
}

#[test]
fn cpt_flags_classify_ascii() {
    assert!(unicode_cpt_flags_from_cpt('a' as u32).is_letter);
    assert!(unicode_cpt_flags_from_cpt('a' as u32).is_lowercase);
    assert!(unicode_cpt_flags_from_cpt('Q' as u32).is_uppercase);
    assert!(unicode_cpt_flags_from_cpt('7' as u32).is_number);
    assert!(unicode_cpt_flags_from_cpt(' ' as u32).is_whitespace);
    assert!(unicode_cpt_flags_from_cpt('\n' as u32).is_whitespace);
    assert!(unicode_cpt_flags_from_cpt(',' as u32).is_punctuation);
    assert_eq!(unicode_cpt_flags_from_cpt(0x01).as_uint(), 0);
}

#[test]
fn cpt_flags_masks() {
    let f = unicode_cpt_flags_from_cpt('x' as u32);
    assert_eq!(f.as_uint(), 2);
    assert_eq!(f.category_flag(), 2);
    let g = unicode_cpt_flags_from_cpt('5' as u32);
    assert_eq!(g.as_uint(), 4);
    assert_eq!(g.category_flag(), 4);
}

#[test]
fn cpt_flags_cover_the_full_plane() {
    // letters beyond ASCII
    assert!(unicode_cpt_flags_from_cpt(0xE9).is_letter);  // é
    assert!(unicode_cpt_flags_from_cpt(0xE9).is_lowercase);
    assert!(unicode_cpt_flags_from_cpt(0xC9).is_uppercase);  // É
    assert!(unicode_cpt_flags_from_cpt(0x3B1).is_letter);  // α
    assert!(unicode_cpt_flags_from_cpt(0x432).is_letter);  // в
    assert!(unicode_cpt_flags_from_cpt(0x4E2D).is_letter);  // 中
    // numbers beyond ASCII
    assert!(unicode_cpt_flags_from_cpt(0x660).is_number);  // ٠
    assert!(unicode_cpt_flags_from_cpt(0x0BEF).is_number);  // ௯
    // whitespace beyond ASCII
    assert!(unicode_cpt_flags_from_cpt(0xA0).is_whitespace);  // NBSP
    assert!(unicode_cpt_flags_from_cpt(0x2003).is_whitespace);  // EM SPACE
    assert!(unicode_cpt_flags_from_cpt(0x3000).is_whitespace);
    // punctuation, symbols and marks beyond ASCII
    assert!(unicode_cpt_flags_from_cpt(0x2014).is_punctuation);  // em dash
    assert!(unicode_cpt_flags_from_cpt(0x20AC).is_symbol);  // euro sign
    assert!(unicode_cpt_flags_from_cpt(0x301).is_accent_mark);  // combining acute
    // unassigned or control codepoints stay all-clear
    assert_eq!(unicode_cpt_flags_from_cpt(0x01).as_uint(), 0);
    assert_eq!(unicode_cpt_flags_from_cpt(0x10FFFF).as_uint(), 0);
}

#[test]
fn tolower_folds_latin_extended() {
    assert_eq!(unicode_tolower(0xC9), 0xE9);  // É -> é
    assert_eq!(unicode_tolower(0xD6), 0xF6);  // Ö -> ö
    assert_eq!(unicode_tolower(0xD7), 0xD7);  // multiplication sign unchanged
    assert_eq!(unicode_tolower(0x100), 0x101);  // Ā -> ā
    assert_eq!(unicode_tolower(0x139), 0x13A);  // Ĺ -> ĺ
    assert_eq!(unicode_tolower(0x178), 0xFF);  // Ÿ -> ÿ
    assert_eq!(unicode_tolower(0x17D), 0x17E);  // Ž -> ž
    assert_eq!(unicode_tolower(0xE9), 0xE9);  // already lowercase
}

#[test]
fn pretokenizer_chunks_non_ascii_words() {
    let pat = "(?:'[sS]|'[tT]|'[rR][eE]|'[vV][eE]|'[mM]|'[lL][lL]|'[dD])|[^\\r\\n\\p{L}\\p{N}]?\\p{L}+|\\p{N}{1,3}| ?[^\\s\\p{L}\\p{N}]+[\\r\\n]*|\\s*[\\r\\n]+|\\s+(?!\\S)|\\s+";
    let words = unicode_regex_split("héllo wörld", &[pat.to_string()]).unwrap();
    assert_eq!(words, vec!["héllo", " wörld"]);
    let nums = unicode_regex_split("\u{660}\u{661}\u{662}\u{663}", &[pat.to_string()]).unwrap();
    assert_eq!(nums, vec!["\u{660}\u{661}\u{662}", "\u{663}"]);
}

#[test]
fn escape_whitespace_replaces_spaces() {
    let mut s = String::from("a b c");
    llama_escape_whitespace(&mut s);
    assert_eq!(s, "a\u{2581}b\u{2581}c");
    let mut t = String::from("nospace");
    llama_escape_whitespace(&mut t);
    assert_eq!(t, "nospace");
}

#[test]
fn get_bool_present_decides_absent_defaults() {
    assert!(get_bool(&Some(true), false));
    assert!(!get_bool(&Some(false), true));
    assert!(get_bool(&None, true));
    assert!(!get_bool(&None, false));
}

#[test]
fn chars_round_trip() {
    let v = str_to_chars("héllo\u{2581}");
    assert_eq!(v.len(), 6);
    assert_eq!(chars_to_string(v.as_slice()), "héllo\u{2581}");
}
