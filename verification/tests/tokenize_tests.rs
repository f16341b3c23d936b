use llm_tokenizer::load::{load, VocabularySource};
use llm_tokenizer::unicode::unicode_byte_to_utf8;
use llm_tokenizer::vocab::{TokenData, TokenizerConfig, TokenizerError, VocabType, ATTR_NORMAL};

fn source(tokens: &[&str], merges: &[&str]) -> VocabularySource {
    VocabularySource {
        model_name: "gpt2".to_string(),
        tokens: tokens.iter().map(|s| s.to_string()).collect(),
        scores: None,
        token_types: None,
        merges: merges.iter().map(|s| s.to_string()).collect(),
        add_space_prefix: None,
        remove_extra_whitespaces: None,
        add_bos_token: None,
        add_eos_token: None,
    }
}

fn spm_config(tokens: &[&str], space_prefix: bool, escape: bool) -> TokenizerConfig {
    let mut v = TokenizerConfig::new();
    v.vocab_type = VocabType::Spm;
    v.add_space_prefix = space_prefix;
    v.escape_whitespaces = escape;
    v.add_bos = false;
    v.add_eos = false;
    v.id_to_token = tokens
        .iter()
        .map(|t| TokenData { text: t.to_string(), score: 0, attribute: ATTR_NORMAL })
        .collect();
    v
}

#[test]
fn bpe_hello_comma_world_end_to_end() {
    let v = load(&source(
        &["Hello", ",", "world"],
        &["H e", "He l", "Hel l", "Hell o", "w o", "wo r", "wor l", "worl d"],
    ))
    .unwrap();
    let ids = v.tokenize("Hello,world", false, false).unwrap();
    assert_eq!(ids, vec![0, 1, 2]);
}

#[test]
fn bpe_empty_text_and_special_brackets() {
    let v = load(&source(&["a"], &[])).unwrap();
    assert_eq!(v.tokenize("", false, false).unwrap(), Vec::<u32>::new());
    // add_bos and add_eos default on; BOS and EOS are both 11 for this family
    assert_eq!(v.tokenize("", true, false).unwrap(), vec![11, 11]);
}

#[test]
fn bpe_special_token_fragmenting() {
    let v = load(&source(&["<|im_end|>", "hi", "h", "i"], &["h i"])).unwrap();
    let ids = v.tokenize("<|im_end|>hi", false, true).unwrap();
    assert_eq!(ids, vec![0, 1]);
}

#[test]
fn bpe_special_token_ignored_without_parse_special() {
    let v = load(&source(&["<|im_end|>", "hi", "h", "i"], &["h i"])).unwrap();
    let ids = v.tokenize("<|im_end|>hi", false, false).unwrap();
    assert!(!ids.contains(&0), "the literal must not become the special id: {:?}", ids);
}

#[test]
fn special_token_alone_is_idempotent() {
    let v = load(&source(&["<|im_end|>", "x"], &[])).unwrap();
    let ids = v.tokenize("<|im_end|>", false, true).unwrap();
    assert_eq!(ids, vec![0]);
}

#[test]
fn raw_byte_emits_byte_mapping_token() {
    // byte 0x01 in the input comes out as the id of its byte-mapping text
    let v = load(&source(&[&unicode_byte_to_utf8(0x01), "a"], &[])).unwrap();
    let ids = v.tokenize("\u{01}", false, false).unwrap();
    assert_eq!(ids, vec![0]);
}

#[test]
fn bpe_missing_pieces_are_skipped() {
    // a chunk with no token and no byte mapping is silently dropped
    let v = load(&source(&["a"], &[])).unwrap();
    let ids = v.tokenize("ab", false, false).unwrap();
    assert_eq!(ids, vec![0]);
}

#[test]
fn tokenize_is_deterministic() {
    let v = load(&source(&["Hello", ",", " world", "H", "e", "l", "o"], &["H e"])).unwrap();
    let a = v.tokenize("Hello, world", true, true).unwrap();
    let b = v.tokenize("Hello, world", true, true).unwrap();
    assert_eq!(a, b);
}

#[test]
fn unsupported_vocab_type_errors() {
    let mut v = load(&source(&["a"], &[])).unwrap();
    v.vocab_type = VocabType::Wpm;
    assert_eq!(v.tokenize("a", false, false).unwrap_err(), TokenizerError::UnsupportedVocabType);
}

#[test]
fn spm_space_prefix_and_escape_single_token() {
    // the session sees the escaped, space-prefixed text as one vocab token
    let v = spm_config(&["\u{2581}hello", "\u{2581}hell", "\u{2581}hel", "\u{2581}he", "\u{2581}h"], true, true);
    let ids = v.tokenize("hello", false, false).unwrap();
    assert_eq!(ids, vec![0]);
}

#[test]
fn spm_merge_loop_two_pieces() {
    let v = spm_config(&["ab", "c"], false, false);
    let ids = v.tokenize("abc", false, false).unwrap();
    assert_eq!(ids, vec![0, 1]);
}

#[test]
fn spm_resegment_byte_fallback() {
    // a lone byte outside the vocabulary resolves through its <0xHH> token
    let v = spm_config(&["a", "<0x62>"], false, false);
    let ids = v.tokenize("ab", false, false).unwrap();
    assert_eq!(ids, vec![0, 1]);
}

#[test]
fn spm_missing_byte_token_is_fatal() {
    let v = spm_config(&["a"], false, false);
    assert_eq!(v.tokenize("ab", false, false).unwrap_err(), TokenizerError::MissingByteToken);
}

#[test]
fn detokenize_reverses_bpe_byte_mapping() {
    let v = load(&source(&[&unicode_byte_to_utf8(0x20), "a"], &[])).unwrap();
    let s = v.detokenize(&[0, 1]).unwrap();
    assert_eq!(s, " a");
}

#[test]
fn detokenize_reverses_spm_whitespace_escape() {
    let v = spm_config(&["\u{2581}hello"], true, true);
    assert_eq!(v.detokenize(&[0]).unwrap(), " hello");
}

#[test]
fn detokenize_out_of_range() {
    let v = load(&source(&["a"], &[])).unwrap();
    assert!(v.detokenize(&[7]).is_err());
}

#[test]
fn tokenize_detokenize_round_trip() {
    // coverage: with every piece in the vocabulary, decoding the output
    // ids gives back the input text
    let v = load(&source(
        &["Hello", ",", "world", "<|im_end|>"],
        &["H e", "He l", "Hel l", "Hell o", "w o", "wo r", "wor l", "worl d"],
    ))
    .unwrap();
    for text in ["Hello,world", "Hello<|im_end|>world"] {
        let ids = v.tokenize(text, false, true).unwrap();
        assert_eq!(v.detokenize(&ids).unwrap(), text);
    }
}

#[test]
fn spm_token_fragment_resets_space_prefix() {
    // a special-token fragment makes the next raw fragment space-prefixed
    let mut v = spm_config(&["<s>", "\u{2581}a", "a"], true, true);
    v.id_to_token[0].attribute = 8;  // Control
    v.special_tokens = vec![0];
    let ids = v.tokenize("<s>a", false, true).unwrap();
    assert_eq!(ids, vec![0, 1]);
}
