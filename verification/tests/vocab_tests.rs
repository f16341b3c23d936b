use llm_tokenizer::load::{load, VocabularySource};
use llm_tokenizer::unicode::unicode_byte_to_utf8;
use llm_tokenizer::vocab::{TokenizerError, VocabType, ATTR_CONTROL, NULL};

fn load_err(src: &VocabularySource) -> TokenizerError {
    match load(src) {
        Ok(_) => panic!("expected the loader to reject the source"),
        Err(e) => e,
    }
}

fn source(tokens: &[&str], merges: &[&str]) -> VocabularySource {
    VocabularySource {
        model_name: "gpt2".to_string(),
        tokens: tokens.iter().map(|s| s.to_string()).collect(),
        scores: None,
        token_types: None,
        merges: merges.iter().map(|s| s.to_string()).collect(),
        add_space_prefix: None,
        remove_extra_whitespaces: None,
        add_bos_token: None,
        add_eos_token: None,
    }
}

#[test]
fn load_rejects_other_models() {
    let mut src = source(&["a"], &[]);
    src.model_name = "llama".to_string();
    assert_eq!(load_err(&src), TokenizerError::MalformedVocabulary);
}

#[test]
fn load_rejects_duplicate_texts() {
    let src = source(&["a", "b", "a"], &[]);
    assert_eq!(load_err(&src), TokenizerError::MalformedVocabulary);
}

#[test]
fn load_rejects_merge_without_space() {
    let src = source(&["a", "b"], &["ab"]);
    assert_eq!(load_err(&src), TokenizerError::MalformedVocabulary);
}

#[test]
fn load_rejects_mismatched_scores() {
    let mut src = source(&["a", "b"], &[]);
    src.scores = Some(vec![1]);
    assert_eq!(load_err(&src), TokenizerError::MalformedVocabulary);
}

#[test]
fn load_presets_gpt2_family() {
    let v = load(&source(&["a", "b"], &[])).unwrap();
    assert_eq!(v.vocab_type, VocabType::Bpe);
    assert_eq!(v.bos, 11);
    assert_eq!(v.eos, 11);
    assert_eq!(v.unk, NULL);
    assert!(!v.add_space_prefix);
    assert!(v.clean_spaces);
    assert!(v.add_bos);
    assert!(v.add_eos);
    assert_eq!(v.n_tokens(), 2);
}

#[test]
fn load_metadata_booleans_override_defaults() {
    let mut src = source(&["a"], &[]);
    src.add_bos_token = Some(false);
    src.add_space_prefix = Some(true);
    let v = load(&src).unwrap();
    assert!(!v.add_bos);
    assert!(v.add_eos);
    assert!(v.add_space_prefix);
}

#[test]
fn load_binds_eot_synonym_and_marks_control() {
    let v = load(&source(&["x", "<|im_end|>", "y"], &[])).unwrap();
    assert_eq!(v.eot, 1);
    assert_eq!(v.eos, 1);
    let d = v.get_token_data(1).unwrap();
    assert!(d.attribute & ATTR_CONTROL != 0);
    assert_eq!(v.special_tokens, vec![1]);
}

#[test]
fn load_marks_every_catalogued_literal() {
    let v = load(&source(&["<|end|>", "<|endoftext|>", "plain"], &[])).unwrap();
    // the first synonym in id order fills the slot; all are marked special
    assert_eq!(v.eot, 0);
    assert!(v.get_token_data(0).unwrap().attribute & ATTR_CONTROL != 0);
    assert!(v.get_token_data(1).unwrap().attribute & ATTR_CONTROL != 0);
    assert!(v.get_token_data(2).unwrap().attribute & ATTR_CONTROL == 0);
    // longest literal first, so the longer synonym is never masked
    assert_eq!(v.special_tokens, vec![1, 0]);
}

#[test]
fn special_eog_set_collects_terminators() {
    // EOT/EOM literals plus the filled fim_pad/fim_rep/fim_sep slots
    let v = load(&source(
        &["<|eot_id|>", "plain", "<|eom_id|>", "<|fim_pad|>", "<|file_sep|>"],
        &[],
    ))
    .unwrap();
    let eog = v.special_eog_ids();
    assert!(eog.contains(&0));
    assert!(eog.contains(&2));
    assert!(eog.contains(&3));
    assert!(eog.contains(&4));
    assert!(!eog.contains(&1));
    // each id appears once
    let mut sorted = eog.clone();
    sorted.sort();
    sorted.dedup();
    assert_eq!(sorted.len(), eog.len());
}

#[test]
fn load_sets_linefeed_token() {
    let v = load(&source(&["\n", "a"], &[])).unwrap();
    assert_eq!(v.linefeed, 0);
}

#[test]
fn text_to_token_lookup() {
    let v = load(&source(&["alpha", "beta"], &[])).unwrap();
    assert_eq!(v.text_to_token("alpha"), 0);
    assert_eq!(v.text_to_token("beta"), 1);
    assert_eq!(v.text_to_token("gamma"), NULL);
}

#[test]
fn get_token_data_out_of_range() {
    let v = load(&source(&["a"], &[])).unwrap();
    assert_eq!(v.get_token_data(0).unwrap().text, "a");
    match v.get_token_data(5) {
        Ok(_) => panic!("expected OutOfRange"),
        Err(e) => assert_eq!(e, TokenizerError::OutOfRange),
    }
}

#[test]
fn find_bpe_rank_by_merge_order() {
    let v = load(&source(&["a", "b", "c", "d"], &["a b", "c d"])).unwrap();
    assert_eq!(v.find_bpe_rank("a", "b"), 0);
    assert_eq!(v.find_bpe_rank("c", "d"), 1);
    assert_eq!(v.find_bpe_rank("b", "a"), -1);
}

#[test]
fn byte_to_token_complete_bpe_vocabulary() {
    // every byte value resolves to exactly one id, injectively
    let tokens: Vec<String> = (0..=255u16).map(|b| unicode_byte_to_utf8(b as u8)).collect();
    let src = VocabularySource {
        model_name: "gpt2".to_string(),
        tokens,
        scores: None,
        token_types: None,
        merges: vec![],
        add_space_prefix: None,
        remove_extra_whitespaces: None,
        add_bos_token: None,
        add_eos_token: None,
    };
    let v = load(&src).unwrap();
    for b in 0..=255u16 {
        assert_eq!(v.byte_to_token(b as u8).unwrap(), b as u32);
    }
}

#[test]
fn byte_to_token_missing_byte_fails() {
    let v = load(&source(&["A"], &[])).unwrap();
    assert_eq!(v.byte_to_token(0x01).unwrap_err(), TokenizerError::MissingByteToken);
    assert_eq!(v.byte_to_token(b'A').unwrap(), 0);
}

#[test]
fn byte_to_token_spm_hex_spelling() {
    let mut v = load(&source(&["<0x41>", "A"], &[])).unwrap();
    v.vocab_type = VocabType::Spm;
    // the <0xHH> spelling wins over the raw character
    assert_eq!(v.byte_to_token(0x41).unwrap(), 0);
    // a byte with no hex token falls back to the raw character
    let mut w = load(&source(&["B"], &[])).unwrap();
    w.vocab_type = VocabType::Spm;
    assert_eq!(w.byte_to_token(b'B').unwrap(), 0);
}
