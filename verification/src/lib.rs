//! A verified text tokenizer for large-language-model vocabularies.
//!
//! The crate turns raw UTF-8 text into sequences of integer token ids
//! according to a vocabulary and merge table, matching the byte-level BPE
//! (GPT-2 family) and SentencePiece-style (SPM) tokenizers: special-token
//! partitioning, pretokenization, priority-driven pair merging and byte
//! fallback.

pub mod bpe;
pub mod coverage;
pub mod fragment;
pub mod laws;
pub mod load;
pub mod pretokenizer;
pub mod regex_fallback;
pub mod spm;
pub mod tokenizer;
pub mod unicode;
pub mod unicode_data;
pub mod vocab;
