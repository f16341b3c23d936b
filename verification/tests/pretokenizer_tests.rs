use llm_tokenizer::pretokenizer::unicode_regex_split;

const GPT2_PATTERN: &str =
    "'s|'t|'re|'ve|'m|'ll|'d| ?\\p{L}+| ?\\p{N}+| ?[^\\s\\p{L}\\p{N}]+|\\s+(?!\\S)|\\s+";
const GPT2_PATTERN_SHORT: &str =
    "'s|'t|'re|'ve|'m|'ll|'d| ?\\p{L}+| ?\\p{N}+| ?[^\\s\\p{L}\\p{N}]+|\\s+(?!\\S)";
const LLAMA3_PATTERN: &str = "(?:'[sS]|'[tT]|'[rR][eE]|'[vV][eE]|'[mM]|'[lL][lL]|'[dD])|[^\\r\\n\\p{L}\\p{N}]?\\p{L}+|\\p{N}{1,3}| ?[^\\s\\p{L}\\p{N}]+[\\r\\n]*|\\s*[\\r\\n]+|\\s+(?!\\S)|\\s+";

fn split(text: &str, pattern: &str) -> Vec<String> {
    unicode_regex_split(text, &[pattern.to_string()]).unwrap()
}

#[test]
fn gpt2_hello_comma_world() {
    assert_eq!(split("Hello, world", GPT2_PATTERN), vec!["Hello", ",", " world"]);
}

#[test]
fn gpt2_trailing_whitespace_single_chunk() {
    // two spaces with nothing after match as a single terminal run
    assert_eq!(split("  ", GPT2_PATTERN), vec!["  "]);
}

#[test]
fn gpt2_interword_whitespace_lookahead() {
    // \s+(?!\S) keeps the last space with the following word
    assert_eq!(split("abc  def", GPT2_PATTERN), vec!["abc", " ", " def"]);
}

#[test]
fn gpt2_both_spellings_agree() {
    for text in ["Hello, world", "  ", "abc  def"] {
        assert_eq!(split(text, GPT2_PATTERN), split(text, GPT2_PATTERN_SHORT));
    }
}

#[test]
fn gpt2_contractions() {
    assert_eq!(split("it's", GPT2_PATTERN), vec!["it", "'s"]);
    assert_eq!(split("we'll", GPT2_PATTERN), vec!["we", "'ll"]);
}

#[test]
fn llama3_digit_runs_split_in_threes() {
    assert_eq!(split("1234567", LLAMA3_PATTERN), vec!["123", "456", "7"]);
    assert_eq!(split("123456", LLAMA3_PATTERN), vec!["123", "456"]);
    assert_eq!(split("12", LLAMA3_PATTERN), vec!["12"]);
}

#[test]
fn llama3_case_insensitive_contractions() {
    assert_eq!(split("it'S", LLAMA3_PATTERN), vec!["it", "'S"]);
}

#[test]
fn llama3_newline_runs() {
    assert_eq!(split("a\n\nb", LLAMA3_PATTERN), vec!["a", "\n\n", "b"]);
}

#[test]
fn pretokenizer_round_trip() {
    for text in ["Hello, world", "  ", "abc  def", "1234567", "a\r\n b", "", "ünïcode tëst"] {
        for pat in [GPT2_PATTERN, LLAMA3_PATTERN] {
            let words = split(text, pat);
            let joined: String = words.concat();
            assert_eq!(joined, text, "round trip failed for {:?}", text);
        }
    }
}

#[test]
fn fallback_pattern_plain_regex() {
    // a pattern without a custom scanner goes through the regex engine
    let words = split("baaab", "a+");
    assert_eq!(words, vec!["b", "aaa", "b"]);
}

#[test]
fn fallback_pattern_with_category_class() {
    let words = split("ab1cd", "\\p{L}+");
    assert_eq!(words, vec!["ab", "1", "cd"]);
}

#[test]
fn fallback_round_trip() {
    for text in ["baaab", "xyz", "a b c"] {
        let words = split(text, "a+");
        assert_eq!(words.concat(), text);
    }
}

#[test]
fn fallback_bad_pattern_is_rejected() {
    assert!(unicode_regex_split("abc", &["(".to_string()]).is_err());
}

#[test]
fn fallback_rejects_category_class_with_non_ascii() {
    // a category class together with a non-ASCII codepoint in the pattern
    // cannot be collapsed
    assert!(unicode_regex_split("abc", &["\\p{L}é".to_string()]).is_err());
}

#[test]
fn fallback_keep_out_spans_still_partition() {
    // a keep-out group inside a lookbehind can make the engine report a
    // match that starts before the previous one ends; the translation
    // clamps, so the chunks still partition the input
    let words = unicode_regex_split("abbb", &["(?<=\\K..)b".to_string()]).unwrap();
    assert_eq!(words.concat(), "abbb");
}

#[test]
fn fallback_collapses_non_ascii_text() {
    // the collapsed text lets an ASCII-written class match beyond ASCII
    let words = unicode_regex_split("ab1é", &["\\p{N}".to_string()]).unwrap();
    assert_eq!(words, vec!["ab", "1", "é"]);
}
