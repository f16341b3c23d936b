//! Building a frozen vocabulary from an already-parsed model source:
//! token table, merge ranks, special-token catalogue, and the
//! special-token list ordered for longest-match partitioning.

use vstd::prelude::*;
use crate::vocab::{
    TokenData, TokenizerConfig, TokenizerError, VocabType, ATTR_CONTROL, ATTR_NORMAL, NULL,
    spec_has_attr, ATTR_SPECIAL_MASK,
};
use crate::unicode::{chars_to_string, str_to_chars};
use crate::fragment::{find_first, find_in_range};
use vstd::string::StringExecFns;

verus! {

/// An already-parsed model file: the fields the tokenizer core consumes.
/// Scores are order-preserving integer keys for the model's per-token
/// scores; the metadata booleans are None when the model file leaves them
/// out.
pub struct VocabularySource {
    pub model_name: String,
    pub tokens: Vec<String>,
    pub scores: Option<Vec<i64>>,
    pub token_types: Option<Vec<i32>>,
    pub merges: Vec<String>,
    pub add_space_prefix: Option<bool>,
    pub remove_extra_whitespaces: Option<bool>,
    pub add_bos_token: Option<bool>,
    pub add_eos_token: Option<bool>,
}

/// A model-file boolean combined with its family default: a key that is
/// present decides with its own value, an absent key keeps the default.
pub open spec fn spec_get_bool(model: Option<bool>, config: bool) -> bool {
    match model {
        Option::Some(b) => b,
        Option::None => config,
    }
}

/// Combines a model-file boolean with the configured family default:
/// present and true gives true, present and false gives false, absent
/// keeps the default.
pub fn get_bool(model: &Option<bool>, config: bool) -> (r: bool)
    ensures
        r == spec_get_bool(*model, config),
{
    match model {
        Option::Some(b) => *b,
        Option::None => config,
    }
}

/// The catalogued literals for the eot slot.
pub open spec fn spec_is_eot_literal(t: Seq<char>) -> bool {
    t == "<|eot_id|>"@ || t == "<|im_end|>"@ || t == "<|end|>"@ || t == "<end_of_turn>"@ || t == "<|endoftext|>"@ || t == "< EOT >"@ || t == "_< EOT >"@ || t == "<｜end▁of▁sentence｜>"@
}

/// Whether the text is one of the eot literals.
fn is_eot_literal(s: &String) -> (r: bool)
    ensures
        r == spec_is_eot_literal(s@),
{
    *s == String::from_str("<|eot_id|>") || *s == String::from_str("<|im_end|>") || *s == String::from_str("<|end|>") || *s == String::from_str("<end_of_turn>") || *s == String::from_str("<|endoftext|>") || *s == String::from_str("< EOT >") || *s == String::from_str("_< EOT >") || *s == String::from_str("<｜end▁of▁sentence｜>")
}

/// The lowest token id whose text is a eot literal, or NULL.
fn find_eot(id_to_token: &Vec<TokenData>) -> (r: u32)
    requires
        id_to_token@.len() < u32::MAX,
    ensures
        r == NULL ==> forall|i: int|
            0 <= i < id_to_token@.len() ==> !spec_is_eot_literal(
                (#[trigger] id_to_token@[i]).text@,
            ),
        r != NULL ==> r < id_to_token@.len() && spec_is_eot_literal(
            id_to_token@[r as int].text@,
        ) && forall|i: int|
            0 <= i < r ==> !spec_is_eot_literal((#[trigger] id_to_token@[i]).text@),
{
    let n = id_to_token.len();
    let mut i: usize = 0;
    while i < n
        invariant
            i <= n,
            n == id_to_token@.len(),
            n < u32::MAX,
            forall|j: int|
                0 <= j < i ==> !spec_is_eot_literal((#[trigger] id_to_token@[j]).text@),
        decreases n - i,
    {
        if is_eot_literal(&id_to_token[i].text) {
            return i as u32;
        }
        i = i + 1;
    }
    NULL
}

/// The catalogued literals for the eom slot.
pub open spec fn spec_is_eom_literal(t: Seq<char>) -> bool {
    t == "<|eom_id|>"@
}

/// Whether the text is one of the eom literals.
fn is_eom_literal(s: &String) -> (r: bool)
    ensures
        r == spec_is_eom_literal(s@),
{
    *s == String::from_str("<|eom_id|>")
}

/// The lowest token id whose text is a eom literal, or NULL.
fn find_eom(id_to_token: &Vec<TokenData>) -> (r: u32)
    requires
        id_to_token@.len() < u32::MAX,
    ensures
        r == NULL ==> forall|i: int|
            0 <= i < id_to_token@.len() ==> !spec_is_eom_literal(
                (#[trigger] id_to_token@[i]).text@,
            ),
        r != NULL ==> r < id_to_token@.len() && spec_is_eom_literal(
            id_to_token@[r as int].text@,
        ) && forall|i: int|
            0 <= i < r ==> !spec_is_eom_literal((#[trigger] id_to_token@[i]).text@),
{
    let n = id_to_token.len();
    let mut i: usize = 0;
    while i < n
        invariant
            i <= n,
            n == id_to_token@.len(),
            n < u32::MAX,
            forall|j: int|
                0 <= j < i ==> !spec_is_eom_literal((#[trigger] id_to_token@[j]).text@),
        decreases n - i,
    {
        if is_eom_literal(&id_to_token[i].text) {
            return i as u32;
        }
        i = i + 1;
    }
    NULL
}

/// The catalogued literals for the fim_pre slot.
pub open spec fn spec_is_fim_pre_literal(t: Seq<char>) -> bool {
    t == "<|fim_prefix|>"@ || t == "<fim-prefix>"@ || t == "<｜fim▁begin｜>"@ || t == "<PRE>"@ || t == "▁<PRE>"@
}

/// Whether the text is one of the fim_pre literals.
fn is_fim_pre_literal(s: &String) -> (r: bool)
    ensures
        r == spec_is_fim_pre_literal(s@),
{
    *s == String::from_str("<|fim_prefix|>") || *s == String::from_str("<fim-prefix>") || *s == String::from_str("<｜fim▁begin｜>") || *s == String::from_str("<PRE>") || *s == String::from_str("▁<PRE>")
}

/// The lowest token id whose text is a fim_pre literal, or NULL.
fn find_fim_pre(id_to_token: &Vec<TokenData>) -> (r: u32)
    requires
        id_to_token@.len() < u32::MAX,
    ensures
        r == NULL ==> forall|i: int|
            0 <= i < id_to_token@.len() ==> !spec_is_fim_pre_literal(
                (#[trigger] id_to_token@[i]).text@,
            ),
        r != NULL ==> r < id_to_token@.len() && spec_is_fim_pre_literal(
            id_to_token@[r as int].text@,
        ) && forall|i: int|
            0 <= i < r ==> !spec_is_fim_pre_literal((#[trigger] id_to_token@[i]).text@),
{
    let n = id_to_token.len();
    let mut i: usize = 0;
    while i < n
        invariant
            i <= n,
            n == id_to_token@.len(),
            n < u32::MAX,
            forall|j: int|
                0 <= j < i ==> !spec_is_fim_pre_literal((#[trigger] id_to_token@[j]).text@),
        decreases n - i,
    {
        if is_fim_pre_literal(&id_to_token[i].text) {
            return i as u32;
        }
        i = i + 1;
    }
    NULL
}

/// The catalogued literals for the fim_suf slot.
pub open spec fn spec_is_fim_suf_literal(t: Seq<char>) -> bool {
    t == "<|fim_suffix|>"@ || t == "<fim-suffix>"@ || t == "<｜fim▁hole｜>"@ || t == "<SUF>"@ || t == "▁<SUF>"@
}

/// Whether the text is one of the fim_suf literals.
fn is_fim_suf_literal(s: &String) -> (r: bool)
    ensures
        r == spec_is_fim_suf_literal(s@),
{
    *s == String::from_str("<|fim_suffix|>") || *s == String::from_str("<fim-suffix>") || *s == String::from_str("<｜fim▁hole｜>") || *s == String::from_str("<SUF>") || *s == String::from_str("▁<SUF>")
}

/// The lowest token id whose text is a fim_suf literal, or NULL.
fn find_fim_suf(id_to_token: &Vec<TokenData>) -> (r: u32)
    requires
        id_to_token@.len() < u32::MAX,
    ensures
        r == NULL ==> forall|i: int|
            0 <= i < id_to_token@.len() ==> !spec_is_fim_suf_literal(
                (#[trigger] id_to_token@[i]).text@,
            ),
        r != NULL ==> r < id_to_token@.len() && spec_is_fim_suf_literal(
            id_to_token@[r as int].text@,
        ) && forall|i: int|
            0 <= i < r ==> !spec_is_fim_suf_literal((#[trigger] id_to_token@[i]).text@),
{
    let n = id_to_token.len();
    let mut i: usize = 0;
    while i < n
        invariant
            i <= n,
            n == id_to_token@.len(),
            n < u32::MAX,
            forall|j: int|
                0 <= j < i ==> !spec_is_fim_suf_literal((#[trigger] id_to_token@[j]).text@),
        decreases n - i,
    {
        if is_fim_suf_literal(&id_to_token[i].text) {
            return i as u32;
        }
        i = i + 1;
    }
    NULL
}

/// The catalogued literals for the fim_mid slot.
pub open spec fn spec_is_fim_mid_literal(t: Seq<char>) -> bool {
    t == "<|fim_middle|>"@ || t == "<fim-middle>"@ || t == "<｜fim▁end｜>"@ || t == "<MID>"@ || t == "▁<MID>"@
}

/// Whether the text is one of the fim_mid literals.
fn is_fim_mid_literal(s: &String) -> (r: bool)
    ensures
        r == spec_is_fim_mid_literal(s@),
{
    *s == String::from_str("<|fim_middle|>") || *s == String::from_str("<fim-middle>") || *s == String::from_str("<｜fim▁end｜>") || *s == String::from_str("<MID>") || *s == String::from_str("▁<MID>")
}

/// The lowest token id whose text is a fim_mid literal, or NULL.
fn find_fim_mid(id_to_token: &Vec<TokenData>) -> (r: u32)
    requires
        id_to_token@.len() < u32::MAX,
    ensures
        r == NULL ==> forall|i: int|
            0 <= i < id_to_token@.len() ==> !spec_is_fim_mid_literal(
                (#[trigger] id_to_token@[i]).text@,
            ),
        r != NULL ==> r < id_to_token@.len() && spec_is_fim_mid_literal(
            id_to_token@[r as int].text@,
        ) && forall|i: int|
            0 <= i < r ==> !spec_is_fim_mid_literal((#[trigger] id_to_token@[i]).text@),
{
    let n = id_to_token.len();
    let mut i: usize = 0;
    while i < n
        invariant
            i <= n,
            n == id_to_token@.len(),
            n < u32::MAX,
            forall|j: int|
                0 <= j < i ==> !spec_is_fim_mid_literal((#[trigger] id_to_token@[j]).text@),
        decreases n - i,
    {
        if is_fim_mid_literal(&id_to_token[i].text) {
            return i as u32;
        }
        i = i + 1;
    }
    NULL
}

/// The catalogued literals for the fim_pad slot.
pub open spec fn spec_is_fim_pad_literal(t: Seq<char>) -> bool {
    t == "<|fim_pad|>"@ || t == "<fim-pad>"@ || t == "<PAD>"@
}

/// Whether the text is one of the fim_pad literals.
fn is_fim_pad_literal(s: &String) -> (r: bool)
    ensures
        r == spec_is_fim_pad_literal(s@),
{
    *s == String::from_str("<|fim_pad|>") || *s == String::from_str("<fim-pad>") || *s == String::from_str("<PAD>")
}

/// The lowest token id whose text is a fim_pad literal, or NULL.
fn find_fim_pad(id_to_token: &Vec<TokenData>) -> (r: u32)
    requires
        id_to_token@.len() < u32::MAX,
    ensures
        r == NULL ==> forall|i: int|
            0 <= i < id_to_token@.len() ==> !spec_is_fim_pad_literal(
                (#[trigger] id_to_token@[i]).text@,
            ),
        r != NULL ==> r < id_to_token@.len() && spec_is_fim_pad_literal(
            id_to_token@[r as int].text@,
        ) && forall|i: int|
            0 <= i < r ==> !spec_is_fim_pad_literal((#[trigger] id_to_token@[i]).text@),
{
    let n = id_to_token.len();
    let mut i: usize = 0;
    while i < n
        invariant
            i <= n,
            n == id_to_token@.len(),
            n < u32::MAX,
            forall|j: int|
                0 <= j < i ==> !spec_is_fim_pad_literal((#[trigger] id_to_token@[j]).text@),
        decreases n - i,
    {
        if is_fim_pad_literal(&id_to_token[i].text) {
            return i as u32;
        }
        i = i + 1;
    }
    NULL
}

/// The catalogued literals for the fim_rep slot.
pub open spec fn spec_is_fim_rep_literal(t: Seq<char>) -> bool {
    t == "<|fim_repo|>"@ || t == "<|repo_name|>"@ || t == "<fim-repo>"@ || t == "<REPO>"@
}

/// Whether the text is one of the fim_rep literals.
fn is_fim_rep_literal(s: &String) -> (r: bool)
    ensures
        r == spec_is_fim_rep_literal(s@),
{
    *s == String::from_str("<|fim_repo|>") || *s == String::from_str("<|repo_name|>") || *s == String::from_str("<fim-repo>") || *s == String::from_str("<REPO>")
}

/// The lowest token id whose text is a fim_rep literal, or NULL.
fn find_fim_rep(id_to_token: &Vec<TokenData>) -> (r: u32)
    requires
        id_to_token@.len() < u32::MAX,
    ensures
        r == NULL ==> forall|i: int|
            0 <= i < id_to_token@.len() ==> !spec_is_fim_rep_literal(
                (#[trigger] id_to_token@[i]).text@,
            ),
        r != NULL ==> r < id_to_token@.len() && spec_is_fim_rep_literal(
            id_to_token@[r as int].text@,
        ) && forall|i: int|
            0 <= i < r ==> !spec_is_fim_rep_literal((#[trigger] id_to_token@[i]).text@),
{
    let n = id_to_token.len();
    let mut i: usize = 0;
    while i < n
        invariant
            i <= n,
            n == id_to_token@.len(),
            n < u32::MAX,
            forall|j: int|
                0 <= j < i ==> !spec_is_fim_rep_literal((#[trigger] id_to_token@[j]).text@),
        decreases n - i,
    {
        if is_fim_rep_literal(&id_to_token[i].text) {
            return i as u32;
        }
        i = i + 1;
    }
    NULL
}

/// The catalogued literals for the fim_sep slot.
pub open spec fn spec_is_fim_sep_literal(t: Seq<char>) -> bool {
    t == "<|file_sep|>"@
}

/// Whether the text is one of the fim_sep literals.
fn is_fim_sep_literal(s: &String) -> (r: bool)
    ensures
        r == spec_is_fim_sep_literal(s@),
{
    *s == String::from_str("<|file_sep|>")
}

/// The lowest token id whose text is a fim_sep literal, or NULL.
fn find_fim_sep(id_to_token: &Vec<TokenData>) -> (r: u32)
    requires
        id_to_token@.len() < u32::MAX,
    ensures
        r == NULL ==> forall|i: int|
            0 <= i < id_to_token@.len() ==> !spec_is_fim_sep_literal(
                (#[trigger] id_to_token@[i]).text@,
            ),
        r != NULL ==> r < id_to_token@.len() && spec_is_fim_sep_literal(
            id_to_token@[r as int].text@,
        ) && forall|i: int|
            0 <= i < r ==> !spec_is_fim_sep_literal((#[trigger] id_to_token@[i]).text@),
{
    let n = id_to_token.len();
    let mut i: usize = 0;
    while i < n
        invariant
            i <= n,
            n == id_to_token@.len(),
            n < u32::MAX,
            forall|j: int|
                0 <= j < i ==> !spec_is_fim_sep_literal((#[trigger] id_to_token@[j]).text@),
        decreases n - i,
    {
        if is_fim_sep_literal(&id_to_token[i].text) {
            return i as u32;
        }
        i = i + 1;
    }
    NULL
}

/// Splits one merge entry at its first ASCII space into the token pair.
fn split_merge(m: &String) -> (r: Result<(String, String), TokenizerError>)
    ensures
        r is Ok <==> find_first(m@, seq![' ']) >= 0,
        r is Ok ==> {
            let p = find_first(m@, seq![' ']);
            &&& (r->Ok_0).0@ == m@.subrange(0, p)
            &&& (r->Ok_0).1@ == m@.subrange(p + 1, m@.len() as int)
        },
        r is Err ==> r->Err_0 == TokenizerError::MalformedVocabulary,
{
    let chars = str_to_chars(m.as_str());
    let needle: Vec<char> = vec![' '];
    proof {
        assert(needle@ =~= seq![' ']);
    }
    let n = chars.len();
    match find_in_range(&chars, 0, n, &needle) {
        Option::Some(p) => {
            proof {
                assert(chars@.subrange(0, n as int) =~= m@);
            }
            let left = chars_to_string(crate::fragment::copy_range(&chars, 0, p).as_slice());
            let right = chars_to_string(
                crate::fragment::copy_range(&chars, p + 1, n - (p + 1)).as_slice(),
            );
            Ok((left, right))
        }
        Option::None => {
            proof {
                assert(chars@.subrange(0, n as int) =~= m@);
            }
            Err(TokenizerError::MalformedVocabulary)
        }
    }
}

/// The special-token list: every id whose attribute intersects the special
/// mask, ordered by weakly decreasing text length (ids ascending within a
/// length), so that no special token is masked by a shorter one.
fn collect_special_tokens(id_to_token: &Vec<TokenData>) -> (r: Vec<u32>)
    requires
        id_to_token@.len() < u32::MAX,
    ensures
        forall|k: int|
            0 <= k < r@.len() ==> (#[trigger] r@[k]) < id_to_token@.len() && spec_has_attr(
                id_to_token@[r@[k] as int].attribute,
                ATTR_SPECIAL_MASK,
            ),
        forall|i: int|
            0 <= i < id_to_token@.len() && spec_has_attr(
                (#[trigger] id_to_token@[i]).attribute,
                ATTR_SPECIAL_MASK,
            ) ==> r@.contains(i as u32),
        forall|k1: int, k2: int| 0 <= k1 < k2 < r@.len() ==> r@[k1] != r@[k2],
        forall|k1: int, k2: int|
            0 <= k1 < k2 < r@.len() ==> id_to_token@[r@[k1] as int].text@.len()
                >= id_to_token@[r@[k2] as int].text@.len(),
{
    let n = id_to_token.len();
    let mut maxlen: usize = 0;
    let mut i: usize = 0;
    while i < n
        invariant
            i <= n,
            n == id_to_token@.len(),
            forall|j: int| 0 <= j < i ==> (#[trigger] id_to_token@[j]).text@.len() <= maxlen,
        decreases n - i,
    {
        let tl = id_to_token[i].text.as_str().unicode_len();
        if tl > maxlen {
            maxlen = tl;
        }
        i = i + 1;
    }
    let mut r: Vec<u32> = Vec::new();
    let mut l: usize = maxlen;
    loop
        invariant_except_break
            l <= maxlen,
            n == id_to_token@.len(),
            n < u32::MAX,
            forall|j: int| 0 <= j < n ==> (#[trigger] id_to_token@[j]).text@.len() <= maxlen,
            forall|k: int|
                0 <= k < r@.len() ==> (#[trigger] r@[k]) < n && spec_has_attr(
                    id_to_token@[r@[k] as int].attribute,
                    ATTR_SPECIAL_MASK,
                ) && id_to_token@[r@[k] as int].text@.len() > l,
            forall|i2: int|
                0 <= i2 < n && spec_has_attr(
                    (#[trigger] id_to_token@[i2]).attribute,
                    ATTR_SPECIAL_MASK,
                ) && id_to_token@[i2].text@.len() > l ==> r@.contains(i2 as u32),
            forall|k1: int, k2: int|
                0 <= k1 < k2 < r@.len() ==> (id_to_token@[r@[k1] as int].text@.len()
                    > id_to_token@[r@[k2] as int].text@.len() || (id_to_token@[r@[k1] as int].text@.len()
                    == id_to_token@[r@[k2] as int].text@.len() && r@[k1] < r@[k2])),
        ensures
            forall|k: int|
                0 <= k < r@.len() ==> (#[trigger] r@[k]) < n && spec_has_attr(
                    id_to_token@[r@[k] as int].attribute,
                    ATTR_SPECIAL_MASK,
                ),
            forall|i2: int|
                0 <= i2 < n && spec_has_attr(
                    (#[trigger] id_to_token@[i2]).attribute,
                    ATTR_SPECIAL_MASK,
                ) ==> r@.contains(i2 as u32),
            forall|k1: int, k2: int|
                0 <= k1 < k2 < r@.len() ==> (id_to_token@[r@[k1] as int].text@.len()
                    > id_to_token@[r@[k2] as int].text@.len() || (id_to_token@[r@[k1] as int].text@.len()
                    == id_to_token@[r@[k2] as int].text@.len() && r@[k1] < r@[k2])),
        decreases l,
    {
        let mut id: usize = 0;
        while id < n
            invariant
                id <= n,
                l <= maxlen,
                n == id_to_token@.len(),
                n < u32::MAX,
                forall|j: int| 0 <= j < n ==> (#[trigger] id_to_token@[j]).text@.len() <= maxlen,
                forall|k: int|
                    0 <= k < r@.len() ==> (#[trigger] r@[k]) < n && spec_has_attr(
                        id_to_token@[r@[k] as int].attribute,
                        ATTR_SPECIAL_MASK,
                    ) && (id_to_token@[r@[k] as int].text@.len() > l || (
                    id_to_token@[r@[k] as int].text@.len() == l && r@[k] < id)),
                forall|i2: int|
                    0 <= i2 < n && spec_has_attr(
                        (#[trigger] id_to_token@[i2]).attribute,
                        ATTR_SPECIAL_MASK,
                    ) && (id_to_token@[i2].text@.len() > l || (id_to_token@[i2].text@.len() == l
                        && i2 < id)) ==> r@.contains(i2 as u32),
                forall|k1: int, k2: int|
                    0 <= k1 < k2 < r@.len() ==> (id_to_token@[r@[k1] as int].text@.len()
                        > id_to_token@[r@[k2] as int].text@.len() || (
                    id_to_token@[r@[k1] as int].text@.len() == id_to_token@[r@[k2] as int].text@.len()
                        && r@[k1] < r@[k2])),
            decreases n - id,
        {
            let d = &id_to_token[id];
            if crate::vocab::has_attr(d.attribute, ATTR_SPECIAL_MASK) {
                let tl = d.text.as_str().unicode_len();
                if tl == l {
                    let ghost rb = r@;
                    r.push(id as u32);
                    proof {
                        assert forall|i2: int|
                            0 <= i2 < n && spec_has_attr(
                                (#[trigger] id_to_token@[i2]).attribute,
                                ATTR_SPECIAL_MASK,
                            ) && (id_to_token@[i2].text@.len() > l || (id_to_token@[i2].text@.len()
                                == l && i2 < id + 1)) implies r@.contains(i2 as u32) by {
                            if i2 == id && id_to_token@[i2].text@.len() == l {
                                assert(r@[r@.len() - 1] == i2 as u32);
                            } else {
                                assert(rb.contains(i2 as u32));
                                let w = choose|k: int| 0 <= k < rb.len() && rb[k] == i2 as u32;
                                assert(r@[w] == i2 as u32);
                            }
                        }
                    }
                }
            }
            id = id + 1;
        }
        if l == 0 {
            break;
        }
        l = l - 1;
    }
    r
}

/// The sources the loader accepts: the model name is "gpt2", the token
/// count fits an id, per-token scores and types match the token count when
/// present, token texts are pairwise distinct, every merge entry holds an
/// ASCII space, and the merge count fits a rank.
pub open spec fn spec_source_ok(source: VocabularySource) -> bool {
    &&& source.model_name@ == "gpt2"@
    &&& source.tokens@.len() < u32::MAX
    &&& (match source.scores {
        Option::Some(sc) => sc@.len() == source.tokens@.len(),
        Option::None => true,
    })
    &&& (match source.token_types {
        Option::Some(tt) => tt@.len() == source.tokens@.len(),
        Option::None => true,
    })
    &&& (forall|x: int, y: int|
        0 <= x < y < source.tokens@.len() ==> (#[trigger] source.tokens@[x])@ != (
        #[trigger] source.tokens@[y])@)
    &&& source.merges@.len() <= i32::MAX
    &&& (forall|k: int|
        0 <= k < source.merges@.len() ==> find_first((#[trigger] source.merges@[k])@, seq![' '])
            >= 0)
}

/// Whether the pair is the merge entry split at its first ASCII space.
pub open spec fn merge_pair_ok(m: Seq<char>, pair: (String, String)) -> bool {
    let p = find_first(m, seq![' ']);
    &&& p >= 0
    &&& pair.0@ == m.subrange(0, p)
    &&& pair.1@ == m.subrange(p + 1, m.len() as int)
}

/// Builds a frozen vocabulary from the source. Accepted sources have the
/// model name "gpt2", per-token scores and types matching the token count
/// when present, pairwise-distinct token texts, a space in every merge
/// entry, and sizes within the machine limits; anything else is
/// MalformedVocabulary. The catalogued special-token literals are bound to
/// their scalar slots (first match in id order) and marked Control.
pub fn load(source: &VocabularySource) -> (r: Result<TokenizerConfig, TokenizerError>)
    ensures
        r is Ok <==> spec_source_ok(*source),
        r is Ok ==> {
            let v = r->Ok_0;
            &&& v.well_formed()
            &&& v.vocab_type == VocabType::Bpe
            &&& v.spec_n_tokens() == source.tokens@.len()
            &&& forall|i: int|
                0 <= i < source.tokens@.len() ==> v.token_text(i) == (
                #[trigger] source.tokens@[i])@
            &&& v.bpe_ranks@.len() == source.merges@.len()
            &&& forall|k: int|
                0 <= k < source.merges@.len() ==> merge_pair_ok(
                    (#[trigger] source.merges@[k])@,
                    v.bpe_ranks@[k],
                )
            &&& forall|i: int|
                0 <= i < v.spec_n_tokens() ==> (#[trigger] v.id_to_token@[i]).score == (
                match source.scores {
                    Option::Some(sc) => sc@[i],
                    Option::None => 0,
                })
            &&& v.bos == 11 && v.add_space_prefix == spec_get_bool(source.add_space_prefix, false)
            &&& v.add_bos == spec_get_bool(source.add_bos_token, true)
            &&& v.add_eos == spec_get_bool(source.add_eos_token, true)
            &&& v.unk == NULL && v.sep == NULL && v.pad == NULL && v.mask == NULL
            &&& !v.ignore_merges && v.clean_spaces && v.escape_whitespaces
                && !v.treat_whitespace_as_suffix
            &&& v.remove_extra_whitespaces == spec_get_bool(source.remove_extra_whitespaces, false)
            &&& ({
                let r0 = crate::tokenizer::spec_tokenize(
                    TokenizerConfig { linefeed: NULL, ..v },
                    "\n"@,
                    false,
                    false,
                );
                v.linefeed == (if r0 is Ok && (r0->Ok_0).len() > 0 {
                    (r0->Ok_0)[0]
                } else {
                    v.pad
                })
            })
            &&& (v.eom == NULL ==> forall|i: int|
                0 <= i < v.spec_n_tokens() ==> !spec_is_eom_literal(#[trigger] v.token_text(i)))
            &&& (v.eom != NULL ==> v.eom < v.spec_n_tokens() && spec_is_eom_literal(
                v.token_text(v.eom as int),
            ) && forall|i: int|
                0 <= i < v.eom ==> !spec_is_eom_literal(#[trigger] v.token_text(i)))
            &&& (v.fim_pre == NULL ==> forall|i: int|
                0 <= i < v.spec_n_tokens() ==> !spec_is_fim_pre_literal(#[trigger] v.token_text(i)))
            &&& (v.fim_pre != NULL ==> v.fim_pre < v.spec_n_tokens() && spec_is_fim_pre_literal(
                v.token_text(v.fim_pre as int),
            ) && forall|i: int|
                0 <= i < v.fim_pre ==> !spec_is_fim_pre_literal(#[trigger] v.token_text(i)))
            &&& (v.fim_suf == NULL ==> forall|i: int|
                0 <= i < v.spec_n_tokens() ==> !spec_is_fim_suf_literal(#[trigger] v.token_text(i)))
            &&& (v.fim_suf != NULL ==> v.fim_suf < v.spec_n_tokens() && spec_is_fim_suf_literal(
                v.token_text(v.fim_suf as int),
            ) && forall|i: int|
                0 <= i < v.fim_suf ==> !spec_is_fim_suf_literal(#[trigger] v.token_text(i)))
            &&& (v.fim_mid == NULL ==> forall|i: int|
                0 <= i < v.spec_n_tokens() ==> !spec_is_fim_mid_literal(#[trigger] v.token_text(i)))
            &&& (v.fim_mid != NULL ==> v.fim_mid < v.spec_n_tokens() && spec_is_fim_mid_literal(
                v.token_text(v.fim_mid as int),
            ) && forall|i: int|
                0 <= i < v.fim_mid ==> !spec_is_fim_mid_literal(#[trigger] v.token_text(i)))
            &&& (v.fim_pad == NULL ==> forall|i: int|
                0 <= i < v.spec_n_tokens() ==> !spec_is_fim_pad_literal(#[trigger] v.token_text(i)))
            &&& (v.fim_pad != NULL ==> v.fim_pad < v.spec_n_tokens() && spec_is_fim_pad_literal(
                v.token_text(v.fim_pad as int),
            ) && forall|i: int|
                0 <= i < v.fim_pad ==> !spec_is_fim_pad_literal(#[trigger] v.token_text(i)))
            &&& (v.fim_rep == NULL ==> forall|i: int|
                0 <= i < v.spec_n_tokens() ==> !spec_is_fim_rep_literal(#[trigger] v.token_text(i)))
            &&& (v.fim_rep != NULL ==> v.fim_rep < v.spec_n_tokens() && spec_is_fim_rep_literal(
                v.token_text(v.fim_rep as int),
            ) && forall|i: int|
                0 <= i < v.fim_rep ==> !spec_is_fim_rep_literal(#[trigger] v.token_text(i)))
            &&& (v.fim_sep == NULL ==> forall|i: int|
                0 <= i < v.spec_n_tokens() ==> !spec_is_fim_sep_literal(#[trigger] v.token_text(i)))
            &&& (v.fim_sep != NULL ==> v.fim_sep < v.spec_n_tokens() && spec_is_fim_sep_literal(
                v.token_text(v.fim_sep as int),
            ) && forall|i: int|
                0 <= i < v.fim_sep ==> !spec_is_fim_sep_literal(#[trigger] v.token_text(i)))
            &&& (v.eot == NULL ==> forall|i: int|
                0 <= i < v.spec_n_tokens() ==> !spec_is_eot_literal(#[trigger] v.token_text(i)))
            &&& (v.eot != NULL ==> v.eot < v.spec_n_tokens() && spec_is_eot_literal(
                v.token_text(v.eot as int),
            ) && forall|i: int| 0 <= i < v.eot ==> !spec_is_eot_literal(#[trigger] v.token_text(i)))
            &&& v.eos == (if v.eot != NULL {
                v.eot
            } else {
                11
            })
            &&& forall|i: int|
                0 <= i < v.spec_n_tokens() ==> (#[trigger] v.id_to_token@[i]).attribute == ({
                    let given = match source.token_types {
                        Option::Some(tt) => tt@[i] as u32,
                        Option::None => ATTR_NORMAL,
                    };
                    if spec_is_catalogued(v.token_text(i)) {
                        given | ATTR_CONTROL
                    } else {
                        given
                    }
                })
        },
        r is Err ==> r->Err_0 == TokenizerError::MalformedVocabulary,
{
    if !(source.model_name == String::from_str("gpt2")) {
        return Err(TokenizerError::MalformedVocabulary);
    }
    let n = source.tokens.len();
    if n >= u32::MAX as usize {
        return Err(TokenizerError::MalformedVocabulary);
    }
    match &source.scores {
        Option::Some(sc) => {
            if sc.len() != n {
                return Err(TokenizerError::MalformedVocabulary);
            }
        }
        Option::None => {}
    }
    match &source.token_types {
        Option::Some(tt) => {
            if tt.len() != n {
                return Err(TokenizerError::MalformedVocabulary);
            }
        }
        Option::None => {}
    }
    // token table
    let mut id_to_token: Vec<TokenData> = Vec::new();
    let mut i: usize = 0;
    while i < n
        invariant
            i <= n,
            n == source.tokens@.len(),
            id_to_token@.len() == i,
            forall|j: int|
                0 <= j < i ==> (#[trigger] id_to_token@[j]).text@ == source.tokens@[j]@,
            forall|j: int|
                0 <= j < i ==> (#[trigger] id_to_token@[j]).attribute == (match source.token_types {
                    Option::Some(tt) => tt@[j] as u32,
                    Option::None => ATTR_NORMAL,
                }),
            forall|j: int|
                0 <= j < i ==> (#[trigger] id_to_token@[j]).score == (match source.scores {
                    Option::Some(sc) => sc@[j],
                    Option::None => 0,
                }),
            (match source.scores {
                Option::Some(sc) => sc@.len() == n,
                Option::None => true,
            }),
            (match source.token_types {
                Option::Some(tt) => tt@.len() == n,
                Option::None => true,
            }),
        decreases n - i,
    {
        let text = source.tokens[i].clone();
        let score: i64 = match &source.scores {
            Option::Some(sc) => sc[i],
            Option::None => 0,
        };
        let attribute: u32 = match &source.token_types {
            Option::Some(tt) => tt[i] as u32,
            Option::None => ATTR_NORMAL,
        };
        id_to_token.push(TokenData { text, score, attribute });
        i = i + 1;
    }
    // texts must be pairwise distinct
    let mut a: usize = 0;
    while a < n
        invariant
            a <= n,
            n == id_to_token@.len(),
            forall|x: int, y: int|
                0 <= x < y < n && x < a ==> (#[trigger] id_to_token@[x]).text@ != (
                #[trigger] id_to_token@[y]).text@,
            n == source.tokens@.len(),
            forall|j: int|
                0 <= j < n ==> (#[trigger] id_to_token@[j]).text@ == source.tokens@[j]@,
        decreases n - a,
    {
        let mut b: usize = a + 1;
        while b < n
            invariant
                a < b || a + 1 > n,
                b <= n,
                a < n,
                n == id_to_token@.len(),
                n == source.tokens@.len(),
                forall|j: int|
                    0 <= j < n ==> (#[trigger] id_to_token@[j]).text@ == source.tokens@[j]@,
                forall|y: int|
                    a < y < b ==> (#[trigger] id_to_token@[y]).text@ != id_to_token@[a as int].text@,
            decreases n - b,
        {
            if id_to_token[a].text == id_to_token[b].text {
                proof {
                    assert(source.tokens@[a as int]@ == source.tokens@[b as int]@);
                    assert(!spec_source_ok(*source));
                }
                return Err(TokenizerError::MalformedVocabulary);
            }
            b = b + 1;
        }
        a = a + 1;
    }
    // merge ranks
    let m = source.merges.len();
    if m > i32::MAX as usize {
        return Err(TokenizerError::MalformedVocabulary);
    }
    let mut bpe_ranks: Vec<(String, String)> = Vec::new();
    let mut k: usize = 0;
    while k < m
        invariant
            k <= m,
            m == source.merges@.len(),
            bpe_ranks@.len() == k,
            forall|j: int|
                0 <= j < k ==> merge_pair_ok((#[trigger] source.merges@[j])@, bpe_ranks@[j]),
        decreases m - k,
    {
        match split_merge(&source.merges[k]) {
            Ok(pair) => {
                bpe_ranks.push(pair);
            }
            Err(e) => {
                proof {
                    assert(find_first(source.merges@[k as int]@, seq![' ']) < 0);
                    assert(!spec_source_ok(*source));
                }
                return Err(e);
            }
        }
        k = k + 1;
    }
    // special-token catalogue: bind the scalar slots, then mark them Control
    let eot = find_eot(&id_to_token);
    let eom = find_eom(&id_to_token);
    let fim_pre = find_fim_pre(&id_to_token);
    let fim_suf = find_fim_suf(&id_to_token);
    let fim_mid = find_fim_mid(&id_to_token);
    let fim_pad = find_fim_pad(&id_to_token);
    let fim_rep = find_fim_rep(&id_to_token);
    let fim_sep = find_fim_sep(&id_to_token);
    let ghost pre_mark = id_to_token@;
    mark_catalogued_control(&mut id_to_token);
    proof {
        assert forall|j: int|
            0 <= j < id_to_token@.len() implies (#[trigger] id_to_token@[j]).text@
            == source.tokens@[j]@ && id_to_token@[j].attribute == ({
            let given = match source.token_types {
                Option::Some(tt) => tt@[j] as u32,
                Option::None => ATTR_NORMAL,
            };
            if spec_is_catalogued(id_to_token@[j].text@) {
                given | ATTR_CONTROL
            } else {
                given
            }
        }) by {
            assert(pre_mark[j].text@ == source.tokens@[j]@);
        }
        assert forall|j: int|
            0 <= j < id_to_token@.len() && spec_is_eot_literal(
                (#[trigger] id_to_token@[j]).text@,
            ) implies spec_is_eot_literal(pre_mark[j].text@) by {}
        assert forall|j: int|
            0 <= j < id_to_token@.len() && spec_is_eot_literal(
                (#[trigger] pre_mark[j]).text@,
            ) implies spec_is_eot_literal(id_to_token@[j].text@) by {}
        assert forall|j: int|
            0 <= j < id_to_token@.len() && spec_is_eom_literal(
                (#[trigger] id_to_token@[j]).text@,
            ) implies spec_is_eom_literal(pre_mark[j].text@) by {}
        assert forall|j: int|
            0 <= j < id_to_token@.len() && spec_is_eom_literal(
                (#[trigger] pre_mark[j]).text@,
            ) implies spec_is_eom_literal(id_to_token@[j].text@) by {}
        assert forall|j: int|
            0 <= j < id_to_token@.len() && spec_is_fim_pre_literal(
                (#[trigger] id_to_token@[j]).text@,
            ) implies spec_is_fim_pre_literal(pre_mark[j].text@) by {}
        assert forall|j: int|
            0 <= j < id_to_token@.len() && spec_is_fim_pre_literal(
                (#[trigger] pre_mark[j]).text@,
            ) implies spec_is_fim_pre_literal(id_to_token@[j].text@) by {}
        assert forall|j: int|
            0 <= j < id_to_token@.len() && spec_is_fim_suf_literal(
                (#[trigger] id_to_token@[j]).text@,
            ) implies spec_is_fim_suf_literal(pre_mark[j].text@) by {}
        assert forall|j: int|
            0 <= j < id_to_token@.len() && spec_is_fim_suf_literal(
                (#[trigger] pre_mark[j]).text@,
            ) implies spec_is_fim_suf_literal(id_to_token@[j].text@) by {}
        assert forall|j: int|
            0 <= j < id_to_token@.len() && spec_is_fim_mid_literal(
                (#[trigger] id_to_token@[j]).text@,
            ) implies spec_is_fim_mid_literal(pre_mark[j].text@) by {}
        assert forall|j: int|
            0 <= j < id_to_token@.len() && spec_is_fim_mid_literal(
                (#[trigger] pre_mark[j]).text@,
            ) implies spec_is_fim_mid_literal(id_to_token@[j].text@) by {}
        assert forall|j: int|
            0 <= j < id_to_token@.len() && spec_is_fim_pad_literal(
                (#[trigger] id_to_token@[j]).text@,
            ) implies spec_is_fim_pad_literal(pre_mark[j].text@) by {}
        assert forall|j: int|
            0 <= j < id_to_token@.len() && spec_is_fim_pad_literal(
                (#[trigger] pre_mark[j]).text@,
            ) implies spec_is_fim_pad_literal(id_to_token@[j].text@) by {}
        assert forall|j: int|
            0 <= j < id_to_token@.len() && spec_is_fim_rep_literal(
                (#[trigger] id_to_token@[j]).text@,
            ) implies spec_is_fim_rep_literal(pre_mark[j].text@) by {}
        assert forall|j: int|
            0 <= j < id_to_token@.len() && spec_is_fim_rep_literal(
                (#[trigger] pre_mark[j]).text@,
            ) implies spec_is_fim_rep_literal(id_to_token@[j].text@) by {}
        assert forall|j: int|
            0 <= j < id_to_token@.len() && spec_is_fim_sep_literal(
                (#[trigger] id_to_token@[j]).text@,
            ) implies spec_is_fim_sep_literal(pre_mark[j].text@) by {}
        assert forall|j: int|
            0 <= j < id_to_token@.len() && spec_is_fim_sep_literal(
                (#[trigger] pre_mark[j]).text@,
            ) implies spec_is_fim_sep_literal(id_to_token@[j].text@) by {}
    }
    // the special-token list, longest literals first
    let special_tokens = collect_special_tokens(&id_to_token);
    let mut config = TokenizerConfig {
        vocab_type: VocabType::Bpe,
        bos: 11,
        eos: if eot != NULL {
            eot
        } else {
            11
        },
        eot,
        eom,
        unk: NULL,
        sep: NULL,
        pad: NULL,
        fim_pre,
        fim_suf,
        fim_mid,
        fim_pad,
        fim_rep,
        fim_sep,
        linefeed: NULL,
        mask: NULL,
        add_space_prefix: get_bool(&source.add_space_prefix, false),
        add_bos: get_bool(&source.add_bos_token, true),
        add_eos: get_bool(&source.add_eos_token, true),
        ignore_merges: false,
        clean_spaces: true,
        remove_extra_whitespaces: get_bool(&source.remove_extra_whitespaces, false),
        escape_whitespaces: true,
        treat_whitespace_as_suffix: false,
        special_tokens,
        id_to_token,
        bpe_ranks,
    };
    proof {
        assert(config.well_formed());
    }
    // the linefeed token: what "\n" tokenizes to, or pad
    proof {
        reveal_strlit("\n");
    }
    let ghost cfg0 = config;
    let lf = match config.tokenize("\n", false, false) {
        Ok(ids) => {
            if ids.len() == 0 {
                config.pad
            } else {
                ids[0]
            }
        }
        Err(_) => config.pad,
    };
    config.linefeed = lf;
    proof {
        assert(TokenizerConfig { linefeed: NULL, ..config } == cfg0);
        assert forall|x: int, y: int|
            0 <= x < y < source.tokens@.len() implies (#[trigger] source.tokens@[x])@ != (
        #[trigger] source.tokens@[y])@ by {
            assert(pre_mark[x].text@ == source.tokens@[x]@);
            assert(pre_mark[y].text@ == source.tokens@[y]@);
            assert(pre_mark[x].text@ != pre_mark[y].text@);
        }
        assert forall|k2: int|
            0 <= k2 < source.merges@.len() implies find_first(
            (#[trigger] source.merges@[k2])@,
            seq![' '],
        ) >= 0 by {
            assert(merge_pair_ok(source.merges@[k2]@, config.bpe_ranks@[k2]));
        }
        assert(spec_source_ok(*source));
    }
    Ok(config)
}

/// Whether the text is any catalogued special-token literal.
pub open spec fn spec_is_catalogued(t: Seq<char>) -> bool {
    spec_is_eot_literal(t) || spec_is_eom_literal(t) || spec_is_fim_pre_literal(t)
        || spec_is_fim_suf_literal(t) || spec_is_fim_mid_literal(t) || spec_is_fim_pad_literal(t)
        || spec_is_fim_rep_literal(t) || spec_is_fim_sep_literal(t)
}

/// Sets the Control attribute on every token whose text is a catalogued
/// literal; nothing else changes.
fn mark_catalogued_control(id_to_token: &mut Vec<TokenData>)
    ensures
        final(id_to_token)@.len() == old(id_to_token)@.len(),
        forall|j: int|
            0 <= j < old(id_to_token)@.len() ==> {
                &&& (#[trigger] final(id_to_token)@[j]).text@ == old(id_to_token)@[j].text@
                &&& final(id_to_token)@[j].score == old(id_to_token)@[j].score
                &&& final(id_to_token)@[j].attribute == (if spec_is_catalogued(
                    old(id_to_token)@[j].text@,
                ) {
                    old(id_to_token)@[j].attribute | ATTR_CONTROL
                } else {
                    old(id_to_token)@[j].attribute
                })
            },
{
    let n = id_to_token.len();
    let mut i: usize = 0;
    while i < n
        invariant
            i <= n,
            n == id_to_token@.len(),
            forall|j: int|
                i <= j < n ==> (#[trigger] id_to_token@[j]).text@ == old(id_to_token)@[j].text@
                    && id_to_token@[j].score == old(id_to_token)@[j].score
                    && id_to_token@[j].attribute == old(id_to_token)@[j].attribute,
            forall|j: int|
                0 <= j < i ==> {
                    &&& (#[trigger] id_to_token@[j]).text@ == old(id_to_token)@[j].text@
                    &&& id_to_token@[j].score == old(id_to_token)@[j].score
                    &&& id_to_token@[j].attribute == (if spec_is_catalogued(
                        old(id_to_token)@[j].text@,
                    ) {
                        old(id_to_token)@[j].attribute | ATTR_CONTROL
                    } else {
                        old(id_to_token)@[j].attribute
                    })
                },
        decreases n - i,
    {
        let d = &id_to_token[i];
        let hit = is_eot_literal(&d.text) || is_eom_literal(&d.text) || is_fim_pre_literal(&d.text)
            || is_fim_suf_literal(&d.text) || is_fim_mid_literal(&d.text) || is_fim_pad_literal(
            &d.text,
        ) || is_fim_rep_literal(&d.text) || is_fim_sep_literal(&d.text);
        if hit {
            let nd = TokenData {
                text: d.text.clone(),
                score: d.score,
                attribute: d.attribute | ATTR_CONTROL,
            };
            id_to_token.set(i, nd);
        }
        i = i + 1;
    }
}

impl TokenizerConfig {
    /// A configuration with the family defaults and an empty vocabulary.
    pub fn new() -> (r: Self)
        ensures
            r.vocab_type == VocabType::NoVocab,
            r.bos == 1 && r.eos == 2 && r.unk == 0,
            r.sep == NULL && r.pad == NULL && r.eot == NULL && r.eom == NULL,
            r.mask == NULL && r.linefeed == NULL,
            r.fim_pre == NULL && r.fim_suf == NULL && r.fim_mid == NULL,
            r.fim_pad == NULL && r.fim_rep == NULL && r.fim_sep == NULL,
            r.add_bos && r.add_eos && !r.add_space_prefix && !r.ignore_merges,
            r.escape_whitespaces && !r.clean_spaces && !r.remove_extra_whitespaces,
            !r.treat_whitespace_as_suffix,
            r.spec_n_tokens() == 0,
            r.special_tokens@.len() == 0,
            r.bpe_ranks@.len() == 0,
    {
        Self {
            vocab_type: VocabType::NoVocab,
            bos: 1,
            eos: 2,
            eot: NULL,
            eom: NULL,
            unk: 0,
            sep: NULL,
            pad: NULL,
            fim_pre: NULL,
            fim_suf: NULL,
            fim_mid: NULL,
            fim_pad: NULL,
            fim_rep: NULL,
            fim_sep: NULL,
            linefeed: NULL,
            mask: NULL,
            add_space_prefix: false,
            add_bos: true,
            add_eos: true,
            ignore_merges: false,
            clean_spaces: false,
            remove_extra_whitespaces: false,
            escape_whitespaces: true,
            treat_whitespace_as_suffix: false,
            special_tokens: Vec::new(),
            id_to_token: Vec::new(),
            bpe_ranks: Vec::new(),
        }
    }

    /// Whether an id halts generation: its text is a catalogued EOT or EOM
    /// literal, or it fills one of the fim_pad, fim_rep or fim_sep slots.
    pub open spec fn spec_is_eog(self, x: u32) -> bool {
        ||| (x < self.spec_n_tokens() && (spec_is_eot_literal(self.token_text(x as int))
            || spec_is_eom_literal(self.token_text(x as int))))
        ||| (x != NULL && (x == self.fim_pad || x == self.fim_rep || x == self.fim_sep))
    }

    /// The end-of-generation set: every id whose text is a catalogued EOT
    /// or EOM literal, together with the filled fim_pad, fim_rep and
    /// fim_sep slots, each id once.
    pub fn special_eog_ids(&self) -> (r: Vec<u32>)
        requires
            self.spec_n_tokens() < u32::MAX,
        ensures
            forall|x: u32| r@.contains(x) <==> self.spec_is_eog(x),
            forall|k1: int, k2: int| 0 <= k1 < k2 < r@.len() ==> r@[k1] != r@[k2],
    {
        let n = self.id_to_token.len();
        let mut r: Vec<u32> = Vec::new();
        let mut i: usize = 0;
        while i < n
            invariant
                i <= n,
                n == self.spec_n_tokens(),
                n < u32::MAX,
                forall|x: u32|
                    r@.contains(x) <==> (x < i && (spec_is_eot_literal(
                        self.token_text(x as int),
                    ) || spec_is_eom_literal(self.token_text(x as int)))),
                forall|k1: int, k2: int| 0 <= k1 < k2 < r@.len() ==> r@[k1] != r@[k2],
                forall|k: int| 0 <= k < r@.len() ==> (#[trigger] r@[k]) < i,
            decreases n - i,
        {
            let d = &self.id_to_token[i];
            if is_eot_literal(&d.text) || is_eom_literal(&d.text) {
                let ghost rb = r@;
                r.push(i as u32);
                proof {
                    assert forall|x: u32|
                        r@.contains(x) <==> (x < i + 1 && (spec_is_eot_literal(
                            self.token_text(x as int),
                        ) || spec_is_eom_literal(self.token_text(x as int)))) by {
                        if rb.contains(x) {
                            let w = choose|k: int| 0 <= k < rb.len() && rb[k] == x;
                            assert(r@[w] == x);
                        }
                        if r@.contains(x) {
                            let w = choose|k: int| 0 <= k < r@.len() && r@[k] == x;
                            if w < rb.len() {
                                assert(rb[w] == x);
                            }
                        }
                        if x < i + 1 && (spec_is_eot_literal(self.token_text(x as int))
                            || spec_is_eom_literal(self.token_text(x as int))) {
                            if x < i {
                                assert(rb.contains(x));
                                let w = choose|k: int| 0 <= k < rb.len() && rb[k] == x;
                                assert(r@[w] == x);
                            } else {
                                assert(r@[r@.len() - 1] == x);
                            }
                        }
                    }
                }
            } else {
                proof {
                    assert forall|x: u32|
                        r@.contains(x) <==> (x < i + 1 && (spec_is_eot_literal(
                            self.token_text(x as int),
                        ) || spec_is_eom_literal(self.token_text(x as int)))) by {}
                }
            }
            i = i + 1;
        }
        let r = self.push_eog_slot(r, self.fim_pad);
        let r = self.push_eog_slot(r, self.fim_rep);
        let r = self.push_eog_slot(r, self.fim_sep);
        r
    }

    /// Adds one filled slot id to the set when it is not there yet.
    fn push_eog_slot(&self, r: Vec<u32>, slot: u32) -> (r2: Vec<u32>)
        ensures
            forall|x: u32| r2@.contains(x) <==> (r@.contains(x) || (slot != NULL && x == slot)),
            (forall|k1: int, k2: int| 0 <= k1 < k2 < r@.len() ==> r@[k1] != r@[k2])
                ==> (forall|k1: int, k2: int| 0 <= k1 < k2 < r2@.len() ==> r2@[k1] != r2@[k2]),
    {
        let mut r = r;
        let ghost rb = r@;
        if slot != NULL && !contains_u32(&r, slot) {
            r.push(slot);
            proof {
                assert forall|x: u32|
                    r@.contains(x) <==> (rb.contains(x) || (slot != NULL && x == slot)) by {
                    if rb.contains(x) {
                        let w = choose|k: int| 0 <= k < rb.len() && rb[k] == x;
                        assert(r@[w] == x);
                    }
                    if x == slot {
                        assert(r@[r@.len() - 1] == x);
                    }
                    if r@.contains(x) {
                        let w = choose|k: int| 0 <= k < r@.len() && r@[k] == x;
                        if w < rb.len() {
                            assert(rb[w] == x);
                        }
                    }
                }
            }
        }
        r
    }
}

/// Whether the id is in the list.
fn contains_u32(v: &Vec<u32>, x: u32) -> (r: bool)
    ensures
        r == v@.contains(x),
{
    let n = v.len();
    let mut i: usize = 0;
    while i < n
        invariant
            i <= n,
            n == v@.len(),
            forall|k: int| 0 <= k < i ==> v@[k] != x,
        decreases n - i,
    {
        if v[i] == x {
            proof {
                assert(v@[i as int] == x);
            }
            return true;
        }
        i = i + 1;
    }
    proof {
        if v@.contains(x) {
            let w = choose|k: int| 0 <= k < v@.len() && v@[k] == x;
            assert(v@[w] != x);
        }
    }
    false
}

} // verus!
