//! Fragment buffers and the special-token partitioner: splitting raw text
//! around occurrences of special-token literals, honoring the strip
//! attributes.

use vstd::prelude::*;
use crate::unicode::{spec_cpt_flags, str_to_chars, unicode_cpt_flags_from_cpt};
use crate::vocab::{
    has_attr, spec_has_attr, TokenizerConfig, ATTR_CONTROL, ATTR_LSTRIP, ATTR_RSTRIP, ATTR_UNKNOWN,
    NULL,
};

verus! {

/// Whether a fragment stands for an already-chosen token or a span of raw
/// text.
#[derive(Clone, Copy, PartialEq, Eq, Structural, Debug)]
pub enum FragmentBufferVariantType {
    Token,
    RawText,
}

/// One fragment of the input: a token id, or a span `[offset, offset+length)`
/// of an owned text.
pub struct FragmentBufferVariant {
    pub variant_type: FragmentBufferVariantType,
    pub token: u32,
    pub raw_text: Vec<char>,
    pub offset: usize,
    pub length: usize,
}

/// The fragment's content, forgetting how it is stored: a token id or the
/// text slice itself.
pub ghost struct GFrag {
    pub is_token: bool,
    pub token: u32,
    pub text: Seq<char>,
}

impl FragmentBufferVariant {
    /// A raw-text fragment's span lies inside its text and is non-empty.
    pub open spec fn wf(self) -> bool {
        self.variant_type == FragmentBufferVariantType::RawText ==> (self.offset + self.length
            <= self.raw_text@.len() && self.length >= 1)
    }

    /// The fragment's abstract content.
    pub open spec fn model(self) -> GFrag {
        if self.variant_type == FragmentBufferVariantType::Token {
            GFrag { is_token: true, token: self.token, text: Seq::empty() }
        } else {
            GFrag {
                is_token: false,
                token: NULL,
                text: self.raw_text@.subrange(
                    self.offset as int,
                    self.offset + self.length,
                ),
            }
        }
    }

    /// A fragment standing for one token.
    pub fn new_token(token: u32) -> (r: Self)
        ensures
            r.wf(),
            r.model() == (GFrag { is_token: true, token, text: Seq::<char>::empty() }),
    {
        Self {
            variant_type: FragmentBufferVariantType::Token,
            token,
            raw_text: Vec::new(),
            offset: 0,
            length: 0,
        }
    }

    /// A fragment standing for the span `[offset, offset+length)` of the
    /// text; rejected when the span is empty or runs past the text.
    pub fn new_raw_text(text: Vec<char>, offset: usize, length: usize) -> (r: Result<
        Self,
        &'static str,
    >)
        ensures
            r is Ok <==> (length >= 1 && offset + length <= text@.len()),
            r is Ok ==> r->Ok_0.wf() && r->Ok_0.model() == (GFrag {
                is_token: false,
                token: NULL,
                text: text@.subrange(offset as int, offset + length),
            }),
    {
        if length < 1 {
            return Err("length must be positive");
        }
        if offset > text.len() || length > text.len() - offset {
            return Err("offset + length exceeds text length");
        }
        Ok(Self {
            variant_type: FragmentBufferVariantType::RawText,
            token: NULL,
            raw_text: text,
            offset,
            length,
        })
    }
}

/// The abstract contents of a fragment buffer.
pub open spec fn models(frags: Seq<FragmentBufferVariant>) -> Seq<GFrag> {
    frags.map(|i: int, f: FragmentBufferVariant| f.model())
}

/// Whether the needle occurs in the haystack starting at `pos`.
pub open spec fn is_match_at(hay: Seq<char>, needle: Seq<char>, pos: int) -> bool {
    0 <= pos && pos + needle.len() <= hay.len() && hay.subrange(pos, pos + needle.len()) == needle
}

/// Position of the first occurrence of the needle in the haystack, or -1.
pub open spec fn find_first(hay: Seq<char>, needle: Seq<char>) -> int
    decreases hay.len(),
{
    if needle.len() > hay.len() {
        -1
    } else if hay.subrange(0, needle.len() as int) == needle {
        0
    } else if hay.len() == 0 {
        -1
    } else {
        let r = find_first(hay.drop_first(), needle);
        if r < 0 {
            -1
        } else {
            1 + r
        }
    }
}

/// `find_first` returns -1 exactly when the needle occurs nowhere, and
/// otherwise the earliest occurrence.
pub proof fn lemma_find_first(hay: Seq<char>, needle: Seq<char>)
    ensures
        find_first(hay, needle) == -1 ==> forall|p: int| !is_match_at(hay, needle, p),
        find_first(hay, needle) >= 0 ==> is_match_at(hay, needle, find_first(hay, needle)) && (
        forall|p: int| 0 <= p < find_first(hay, needle) ==> !is_match_at(hay, needle, p)),
    decreases hay.len(),
{
    let ff = find_first(hay, needle);
    if needle.len() > hay.len() {
        assert forall|p: int| !is_match_at(hay, needle, p) by {}
    } else if hay.subrange(0, needle.len() as int) == needle {
        assert(is_match_at(hay, needle, 0));
    } else if hay.len() == 0 {
        assert forall|p: int| !is_match_at(hay, needle, p) by {
            if is_match_at(hay, needle, p) {
                assert(p == 0 && needle.len() == 0);
                assert(hay.subrange(0, 0) =~= needle);
            }
        }
    } else {
        lemma_find_first(hay.drop_first(), needle);
        let tail = hay.drop_first();
        assert forall|p: int| 1 <= p && is_match_at(hay, needle, p) implies is_match_at(
            tail,
            needle,
            p - 1,
        ) by {
            assert(tail.subrange(p - 1, p - 1 + needle.len()) =~= hay.subrange(
                p,
                p + needle.len(),
            ));
        }
        assert forall|p: int| 0 <= p && is_match_at(tail, needle, p) implies is_match_at(
            hay,
            needle,
            p + 1,
        ) by {
            assert(hay.subrange(p + 1, p + 1 + needle.len()) =~= tail.subrange(
                p,
                p + needle.len(),
            ));
        }
        if is_match_at(hay, needle, 0) {
            assert(hay.subrange(0, needle.len() as int) == needle);
        }
    }
}

/// Finds the first occurrence of the needle inside the span
/// `[off, off+len)` of the text; the result is an absolute position.
pub fn find_in_range(raw: &Vec<char>, off: usize, len: usize, needle: &Vec<char>) -> (r: Option<
    usize,
>)
    requires
        off + len <= raw@.len(),
    ensures
        ({
            let hay = raw@.subrange(off as int, off + len);
            match r {
                Option::None => find_first(hay, needle@) == -1,
                Option::Some(p) => off <= p && p + needle@.len() <= off + len && p - off
                    == find_first(hay, needle@),
            }
        }),
{
    let ghost hay = raw@.subrange(off as int, off + len);
    proof {
        lemma_find_first(hay, needle@);
    }
    let rn = raw.len();
    let nlen = needle.len();
    if nlen > len {
        return None;
    }
    let mut p: usize = 0;
    while p <= len - nlen
        invariant
            off + len <= rn,
            rn == raw@.len(),
            nlen == needle@.len(),
            nlen <= len,
            p <= len - nlen + 1,
            hay == raw@.subrange(off as int, off + len),
            forall|q: int| 0 <= q < p ==> !is_match_at(hay, needle@, q),
        decreases len + 1 - p,
    {
        let mut k: usize = 0;
        let mut matched = true;
        proof {
            assert(needle@.subrange(0, 0) =~= hay.subrange(p as int, p as int));
        }
        while k < nlen
            invariant
                off + len <= rn,
                rn == raw@.len(),
                nlen == needle@.len(),
                nlen <= len,
                p + nlen <= len,
                k <= nlen,
                hay == raw@.subrange(off as int, off + len),
                matched == (needle@.subrange(0, k as int) == hay.subrange(
                    p as int,
                    p + k,
                )),
            decreases nlen - k,
        {
            let a = raw[off + p + k];
            let b = needle[k];
            proof {
                assert(hay[p + k] == raw@[off + p + k]);
            }
            if a != b {
                proof {
                    assert(needle@.subrange(0, k + 1) != hay.subrange(p as int, p + k + 1))
                        by {
                        assert(needle@.subrange(0, k + 1)[k as int] != hay.subrange(
                            p as int,
                            p + k + 1,
                        )[k as int]);
                    }
                }
                matched = false;
            } else {
                proof {
                    if matched {
                        assert(needle@.subrange(0, k + 1) =~= hay.subrange(p as int, p + k + 1));
                    } else {
                        assert(needle@.subrange(0, k as int) != hay.subrange(p as int, p + k));
                        assert(needle@.subrange(0, k + 1).subrange(0, k as int) =~= needle@
                            .subrange(0, k as int));
                        assert(hay.subrange(p as int, p + k + 1).subrange(0, k as int) =~= hay
                            .subrange(p as int, p + k));
                    }
                }
            }
            k = k + 1;
        }
        if matched {
            proof {
                lemma_find_first(hay, needle@);
                assert(needle@.subrange(0, nlen as int) =~= needle@);
                assert(is_match_at(hay, needle@, p as int));
                let ff = find_first(hay, needle@);
                if ff == -1 {
                    assert(!is_match_at(hay, needle@, p as int));
                }
                if 0 <= ff < p {
                    assert(!is_match_at(hay, needle@, ff));
                }
                if ff > p {
                    assert(!is_match_at(hay, needle@, p as int));
                }
                assert(ff == p as int);
            }
            return Some(off + p);
        }
        proof {
            assert(needle@.subrange(0, nlen as int) =~= needle@);
            assert(!is_match_at(hay, needle@, p as int));
        }
        p = p + 1;
    }
    proof {
        lemma_find_first(hay, needle@);
        assert forall|q: int| !is_match_at(hay, needle@, q) by {
            if 0 <= q && q + nlen <= len {
                assert(q < p);
            }
        }
        if find_first(hay, needle@) >= 0 {
            assert(false);
        }
    }
    None
}

/// Whether a codepoint counts as whitespace for the strip attributes.
pub open spec fn is_ws_char(c: char) -> bool {
    spec_cpt_flags(c as u32).is_whitespace
}

/// The text with trailing whitespace removed.
pub open spec fn trim_right_ws(t: Seq<char>) -> Seq<char>
    decreases t.len(),
{
    if t.len() > 0 && is_ws_char(t.last()) {
        trim_right_ws(t.drop_last())
    } else {
        t
    }
}

/// The text with leading whitespace removed.
pub open spec fn trim_left_ws(t: Seq<char>) -> Seq<char>
    decreases t.len(),
{
    if t.len() > 0 && is_ws_char(t[0]) {
        trim_left_ws(t.drop_first())
    } else {
        t
    }
}

/// Trimming never lengthens a text.
pub proof fn lemma_trim_left_len(t: Seq<char>)
    ensures
        trim_left_ws(t).len() <= t.len(),
    decreases t.len(),
{
    if t.len() > 0 && is_ws_char(t[0]) {
        lemma_trim_left_len(t.drop_first());
    }
}

/// Length of the prefix of the span `[off, off+len)` that remains after
/// trimming trailing whitespace.
pub fn trim_len_right(raw: &Vec<char>, off: usize, len: usize) -> (r: usize)
    requires
        off + len <= raw@.len(),
    ensures
        r <= len,
        raw@.subrange(off as int, off + r) == trim_right_ws(
            raw@.subrange(off as int, off + len),
        ),
{
    let ghost t = raw@.subrange(off as int, off + len);
    let rn = raw.len();
    let mut k: usize = len;
    while k > 0
        invariant
            k <= len,
            off + len <= rn,
            rn == raw@.len(),
            t == raw@.subrange(off as int, off + len),
            trim_right_ws(t) == trim_right_ws(raw@.subrange(off as int, off + k)),
        ensures
            k <= len,
            trim_right_ws(t) == raw@.subrange(off as int, off + k),
        decreases k,
    {
        let c = raw[off + k - 1];
        if !unicode_cpt_flags_from_cpt(c as u32).is_whitespace {
            proof {
                let cur = raw@.subrange(off as int, off + k);
                assert(cur.last() == raw@[off + k - 1]);
                assert(trim_right_ws(cur) == cur);
            }
            break;
        }
        proof {
            let cur = raw@.subrange(off as int, off + k);
            assert(cur.last() == raw@[off + k - 1]);
            assert(cur.drop_last() =~= raw@.subrange(off as int, off + (k - 1)));
        }
        k = k - 1;
    }
    k
}

/// Number of leading whitespace codepoints of the span `[off, off+len)`.
pub fn trim_len_left(raw: &Vec<char>, off: usize, len: usize) -> (r: usize)
    requires
        off + len <= raw@.len(),
    ensures
        r <= len,
        raw@.subrange(off + r, off + len) == trim_left_ws(
            raw@.subrange(off as int, off + len),
        ),
{
    let ghost t = raw@.subrange(off as int, off + len);
    let rn = raw.len();
    let mut k: usize = 0;
    while k < len
        invariant
            k <= len,
            off + len <= rn,
            rn == raw@.len(),
            t == raw@.subrange(off as int, off + len),
            trim_left_ws(t) == trim_left_ws(raw@.subrange(off + k, off + len)),
        ensures
            k <= len,
            trim_left_ws(t) == raw@.subrange(off + k, off + len),
        decreases len - k,
    {
        let c = raw[off + k];
        if !unicode_cpt_flags_from_cpt(c as u32).is_whitespace {
            proof {
                let cur = raw@.subrange(off + k, off + len);
                assert(cur[0] == raw@[off + k]);
                assert(trim_left_ws(cur) == cur);
            }
            break;
        }
        proof {
            let cur = raw@.subrange(off + k, off + len);
            assert(cur[0] == raw@[off + k]);
            assert(cur.drop_first() =~= raw@.subrange(off + (k + 1), off + len));
        }
        k = k + 1;
    }
    k
}

/// The fragments that replace one raw text after splitting around every
/// occurrence of one special token's literal: for each occurrence, the
/// (possibly right-trimmed) left part when non-empty, the token, and the
/// (possibly left-trimmed) remainder scanned again.
pub open spec fn split_raw(t: Seq<char>, st: Seq<char>, id: u32, lstrip: bool, rstrip: bool) -> Seq<
    GFrag,
>
    decreases t.len()
    via split_raw_dec
{
    let m = find_first(t, st);
    if st.len() == 0 || m < 0 {
        seq![GFrag { is_token: false, token: NULL, text: t }]
    } else {
        let left = t.subrange(0, m);
        let left_t = if lstrip { trim_right_ws(left) } else { left };
        let lefts = if left_t.len() > 0 {
            seq![GFrag { is_token: false, token: NULL, text: left_t }]
        } else {
            Seq::empty()
        };
        let tok = seq![GFrag { is_token: true, token: id, text: Seq::empty() }];
        let rem = t.subrange(m + st.len(), t.len() as int);
        let rem_t = if rstrip { trim_left_ws(rem) } else { rem };
        lefts + tok + (if rem_t.len() > 0 {
            split_raw(rem_t, st, id, lstrip, rstrip)
        } else {
            Seq::empty()
        })
    }
}

#[via_fn]
proof fn split_raw_dec(t: Seq<char>, st: Seq<char>, id: u32, lstrip: bool, rstrip: bool) {
    lemma_find_first(t, st);
    let m = find_first(t, st);
    if st.len() > 0 && m >= 0 {
        let rem = t.subrange(m + st.len(), t.len() as int);
        lemma_trim_left_len(rem);
    }
}

/// One pass of the partitioner over a fragment list for one special token:
/// token fragments stay, raw fragments are split.
pub open spec fn partition_step(
    frags: Seq<GFrag>,
    st: Seq<char>,
    id: u32,
    lstrip: bool,
    rstrip: bool,
) -> Seq<GFrag>
    decreases frags.len(),
{
    if frags.len() == 0 {
        Seq::empty()
    } else {
        let f = frags[0];
        let head = if f.is_token {
            seq![f]
        } else {
            split_raw(f.text, st, id, lstrip, rstrip)
        };
        head + partition_step(frags.drop_first(), st, id, lstrip, rstrip)
    }
}

/// The whole partition: one pass per special token, from position `k` of
/// the special-token list on. When `parse_special` is false, tokens whose
/// attribute intersects Control or Unknown are skipped.
pub open spec fn st_partition_spec(
    vocab: TokenizerConfig,
    frags: Seq<GFrag>,
    k: int,
    parse_special: bool,
) -> Seq<GFrag>
    decreases vocab.special_tokens@.len() - k,
{
    if k < 0 || k >= vocab.special_tokens@.len() {
        frags
    } else {
        let id = vocab.special_tokens@[k];
        let data = vocab.id_to_token@[id as int];
        let skip = !parse_special && spec_has_attr(data.attribute, ATTR_CONTROL | ATTR_UNKNOWN);
        let frags2 = if skip {
            frags
        } else {
            partition_step(
                frags,
                data.text@,
                id,
                spec_has_attr(data.attribute, ATTR_LSTRIP),
                spec_has_attr(data.attribute, ATTR_RSTRIP),
            )
        };
        st_partition_spec(vocab, frags2, k + 1, parse_special)
    }
}

/// Trimming from the right never lengthens a text.
pub proof fn lemma_trim_right_len(t: Seq<char>)
    ensures
        trim_right_ws(t).len() <= t.len(),
    decreases t.len(),
{
    if t.len() > 0 && is_ws_char(t.last()) {
        lemma_trim_right_len(t.drop_last());
    }
}

/// Splitting a raw text yields fragments whose texts are no longer than
/// the text itself.
pub proof fn lemma_split_raw_text_len(
    t: Seq<char>,
    st: Seq<char>,
    id: u32,
    lstrip: bool,
    rstrip: bool,
    cap: int,
)
    requires
        t.len() <= cap,
    ensures
        forall|i: int|
            0 <= i < split_raw(t, st, id, lstrip, rstrip).len() ==> (#[trigger] split_raw(
                t,
                st,
                id,
                lstrip,
                rstrip,
            )[i]).text.len() <= cap,
    decreases t.len(),
{
    let m = find_first(t, st);
    lemma_find_first(t, st);
    if st.len() == 0 || m < 0 {
    } else {
        let left = t.subrange(0, m);
        let left_t = if lstrip {
            trim_right_ws(left)
        } else {
            left
        };
        lemma_trim_right_len(left);
        let rem = t.subrange(m + st.len(), t.len() as int);
        let rem_t = if rstrip {
            trim_left_ws(rem)
        } else {
            rem
        };
        lemma_trim_left_len(rem);
        let whole = split_raw(t, st, id, lstrip, rstrip);
        if rem_t.len() > 0 {
            lemma_split_raw_text_len(rem_t, st, id, lstrip, rstrip, cap);
        }
        assert forall|i: int| 0 <= i < whole.len() implies (#[trigger] whole[i]).text.len()
            <= cap by {
            let lefts: Seq<GFrag> = if left_t.len() > 0 {
                seq![GFrag { is_token: false, token: NULL, text: left_t }]
            } else {
                Seq::empty()
            };
            let tok = seq![GFrag { is_token: true, token: id, text: Seq::<char>::empty() }];
            let tail: Seq<GFrag> = if rem_t.len() > 0 {
                split_raw(rem_t, st, id, lstrip, rstrip)
            } else {
                Seq::empty()
            };
            if i < lefts.len() {
                assert(whole[i] == lefts[i]);
            } else if i < lefts.len() + 1 {
                assert(whole[i] == tok[0]);
            } else {
                assert(whole[i] == tail[i - lefts.len() - 1]);
            }
        }
    }
}

/// One partitioner pass keeps every fragment text within the cap.
pub proof fn lemma_partition_step_text_len(
    frags: Seq<GFrag>,
    st: Seq<char>,
    id: u32,
    lstrip: bool,
    rstrip: bool,
    cap: int,
)
    requires
        forall|i: int| 0 <= i < frags.len() ==> (#[trigger] frags[i]).text.len() <= cap,
    ensures
        forall|i: int|
            0 <= i < partition_step(frags, st, id, lstrip, rstrip).len() ==> (
            #[trigger] partition_step(frags, st, id, lstrip, rstrip)[i]).text.len() <= cap,
    decreases frags.len(),
{
    if frags.len() > 0 {
        let f = frags[0];
        let head: Seq<GFrag> = if f.is_token {
            seq![f]
        } else {
            split_raw(f.text, st, id, lstrip, rstrip)
        };
        if !f.is_token {
            lemma_split_raw_text_len(f.text, st, id, lstrip, rstrip, cap);
        }
        lemma_partition_step_text_len(frags.drop_first(), st, id, lstrip, rstrip, cap);
        let tail = partition_step(frags.drop_first(), st, id, lstrip, rstrip);
        let whole = partition_step(frags, st, id, lstrip, rstrip);
        assert forall|i: int| 0 <= i < whole.len() implies (#[trigger] whole[i]).text.len()
            <= cap by {
            if i < head.len() {
                assert(whole[i] == head[i]);
            } else {
                assert(whole[i] == tail[i - head.len()]);
            }
        }
    }
}

/// The whole partition keeps every fragment text within the cap.
pub proof fn lemma_st_partition_text_len(
    vocab: TokenizerConfig,
    frags: Seq<GFrag>,
    k: int,
    parse_special: bool,
    cap: int,
)
    requires
        forall|i: int| 0 <= i < frags.len() ==> (#[trigger] frags[i]).text.len() <= cap,
    ensures
        forall|i: int|
            0 <= i < st_partition_spec(vocab, frags, k, parse_special).len() ==> (
            #[trigger] st_partition_spec(vocab, frags, k, parse_special)[i]).text.len() <= cap,
    decreases vocab.special_tokens@.len() - k,
{
    if !(0 <= k < vocab.special_tokens@.len()) {
        let res = st_partition_spec(vocab, frags, k, parse_special);
        assert(res == frags);
        assert forall|i: int| 0 <= i < res.len() implies (#[trigger] res[i]).text.len() <= cap by {
            assert(res[i] == frags[i]);
        }
    } else {
        let id = vocab.special_tokens@[k];
        let data = vocab.id_to_token@[id as int];
        let skip = !parse_special && spec_has_attr(data.attribute, ATTR_CONTROL | ATTR_UNKNOWN);
        if !skip {
            let frags2 = partition_step(
                frags,
                data.text@,
                id,
                spec_has_attr(data.attribute, ATTR_LSTRIP),
                spec_has_attr(data.attribute, ATTR_RSTRIP),
            );
            lemma_partition_step_text_len(
                frags,
                data.text@,
                id,
                spec_has_attr(data.attribute, ATTR_LSTRIP),
                spec_has_attr(data.attribute, ATTR_RSTRIP),
                cap,
            );
            lemma_st_partition_text_len(vocab, frags2, k + 1, parse_special, cap);
            assert(st_partition_spec(vocab, frags, k, parse_special) == st_partition_spec(
                vocab,
                frags2,
                k + 1,
                parse_special,
            ));
            assert forall|i: int|
                0 <= i < st_partition_spec(vocab, frags, k, parse_special).len() implies (
            #[trigger] st_partition_spec(vocab, frags, k, parse_special)[i]).text.len() <= cap by {
                assert(st_partition_spec(vocab, frags, k, parse_special)[i] == st_partition_spec(
                    vocab,
                    frags2,
                    k + 1,
                    parse_special,
                )[i]);
            }
        } else {
            lemma_st_partition_text_len(vocab, frags, k + 1, parse_special, cap);
            assert(st_partition_spec(vocab, frags, k, parse_special) == st_partition_spec(
                vocab,
                frags,
                k + 1,
                parse_special,
            ));
            assert forall|i: int|
                0 <= i < st_partition_spec(vocab, frags, k, parse_special).len() implies (
            #[trigger] st_partition_spec(vocab, frags, k, parse_special)[i]).text.len() <= cap by {
                assert(st_partition_spec(vocab, frags, k, parse_special)[i] == st_partition_spec(
                    vocab,
                    frags,
                    k + 1,
                    parse_special,
                )[i]);
            }
        }
    }
}

/// A copy of the span `[off, off+len)` of the text.
pub(crate) fn copy_range(v: &Vec<char>, off: usize, len: usize) -> (r: Vec<char>)
    requires
        off + len <= v@.len(),
    ensures
        r@ == v@.subrange(off as int, off + len),
{
    let mut r: Vec<char> = Vec::new();
    let vn = v.len();
    let mut i: usize = 0;
    while i < len
        invariant
            i <= len,
            off + len <= vn,
            vn == v@.len(),
            r@ == v@.subrange(off as int, off + i),
        decreases len - i,
    {
        r.push(v[off + i]);
        proof {
            assert(r@ =~= v@.subrange(off as int, off + i + 1));
        }
        i = i + 1;
    }
    proof {
        assert(r@ =~= v@.subrange(off as int, off + len));
    }
    r
}

/// Splits one raw-text fragment around every occurrence of the special
/// token's literal, appending the replacement fragments to `out`.
fn split_one_fragment(
    id: u32,
    st_chars: &Vec<char>,
    lstrip: bool,
    rstrip: bool,
    frag: FragmentBufferVariant,
    out: &mut Vec<FragmentBufferVariant>,
)
    requires
        frag.wf(),
        frag.variant_type == FragmentBufferVariantType::RawText,
        forall|i: int| 0 <= i < old(out)@.len() ==> (#[trigger] old(out)@[i]).wf(),
    ensures
        models(final(out)@) == models(old(out)@) + split_raw(
            frag.model().text,
            st_chars@,
            id,
            lstrip,
            rstrip,
        ),
        forall|i: int| 0 <= i < final(out)@.len() ==> (#[trigger] final(out)@[i]).wf(),
{
    let ghost orig = frag.model().text;
    let raw = frag.raw_text;
    if st_chars.len() == 0 {
        let nf = FragmentBufferVariant {
            variant_type: FragmentBufferVariantType::RawText,
            token: NULL,
            raw_text: raw,
            offset: frag.offset,
            length: frag.length,
        };
        proof {
            assert(nf.model() == frag.model());
        }
        out.push(nf);
        proof {
            assert(models(final(out)@) =~= models(old(out)@) + split_raw(
                orig,
                st_chars@,
                id,
                lstrip,
                rstrip,
            ));
        }
        return;
    }
    let st_len = st_chars.len();
    let rn = raw.len();
    let mut cur_off = frag.offset;
    let mut cur_len = frag.length;
    while cur_len >= 1
        invariant_except_break
            models(old(out)@) + split_raw(orig, st_chars@, id, lstrip, rstrip) == models(out@)
                + split_raw(
                raw@.subrange(cur_off as int, cur_off + cur_len),
                st_chars@,
                id,
                lstrip,
                rstrip,
            ),
        invariant
            st_len == st_chars@.len(),
            st_len >= 1,
            cur_off + cur_len <= rn,
            rn == raw@.len(),
            cur_len >= 1,
            forall|i: int| 0 <= i < out@.len() ==> (#[trigger] out@[i]).wf(),
        ensures
            forall|i: int| 0 <= i < out@.len() ==> (#[trigger] out@[i]).wf(),
            models(out@) == models(old(out)@) + split_raw(orig, st_chars@, id, lstrip, rstrip),
        decreases cur_len,
    {
        let ghost t = raw@.subrange(cur_off as int, cur_off + cur_len);
        let found = find_in_range(&raw, cur_off, cur_len, st_chars);
        match found {
            Option::None => {
                let ghost before = out@;
                let nf = FragmentBufferVariant {
                    variant_type: FragmentBufferVariantType::RawText,
                    token: NULL,
                    raw_text: copy_range(&raw, cur_off, cur_len),
                    offset: 0,
                    length: cur_len,
                };
                proof {
                    assert(nf.model().text =~= t);
                }
                out.push(nf);
                proof {
                    assert(split_raw(t, st_chars@, id, lstrip, rstrip) =~= seq![nf.model()]);
                    assert(models(out@) =~= models(before).push(nf.model()));
                    assert(models(out@) =~= models(old(out)@) + split_raw(
                        orig,
                        st_chars@,
                        id,
                        lstrip,
                        rstrip,
                    ));
                }
                break;
            }
            Option::Some(p_abs) => {
                let ghost m = p_abs - cur_off;
                proof {
                    assert(0 <= m && m + st_len <= cur_len);
                }
                let left_len0 = p_abs - cur_off;
                let left_len = if lstrip {
                    trim_len_right(&raw, cur_off, left_len0)
                } else {
                    left_len0
                };
                let ghost left = t.subrange(0, m);
                let ghost left_t = if lstrip { trim_right_ws(left) } else { left };
                proof {
                    assert(left =~= raw@.subrange(cur_off as int, cur_off + left_len0));
                    if lstrip {
                        assert(left_t == raw@.subrange(cur_off as int, cur_off + left_len));
                    } else {
                        assert(left_t == raw@.subrange(cur_off as int, cur_off + left_len));
                    }
                    assert(left_t.len() == left_len);
                }
                let ghost mid0 = out@;
                if left_len > 0 {
                    let nf = FragmentBufferVariant {
                        variant_type: FragmentBufferVariantType::RawText,
                        token: NULL,
                        raw_text: copy_range(&raw, cur_off, left_len),
                        offset: 0,
                        length: left_len,
                    };
                    proof {
                        assert(nf.model().text =~= left_t);
                    }
                    out.push(nf);
                }
                let tf = FragmentBufferVariant::new_token(id);
                out.push(tf);
                proof {
                    let lefts: Seq<GFrag> = if left_t.len() > 0 {
                        seq![GFrag { is_token: false, token: NULL, text: left_t }]
                    } else {
                        Seq::empty()
                    };
                    let tok = seq![GFrag { is_token: true, token: id, text: Seq::<char>::empty() }];
                    assert(models(out@) =~= models(mid0) + lefts + tok);
                }
                let rem_start0 = p_abs + st_len;
                let tail_end = cur_off + cur_len;
                let ghost rem = t.subrange(m + st_len, t.len() as int);
                proof {
                    assert(rem =~= raw@.subrange(rem_start0 as int, tail_end as int));
                }
                if rem_start0 < tail_end {
                    let rem_len0 = tail_end - rem_start0;
                    let mut rem_start = rem_start0;
                    let mut rem_len = rem_len0;
                    if rstrip {
                        let d = trim_len_left(&raw, rem_start0, rem_len0);
                        rem_start = rem_start0 + d;
                        rem_len = rem_len0 - d;
                    }
                    let ghost rem_t = if rstrip { trim_left_ws(rem) } else { rem };
                    proof {
                        assert(rem_t == raw@.subrange(rem_start as int, tail_end as int));
                        assert(rem_t.len() == rem_len);
                        assert(split_raw(t, st_chars@, id, lstrip, rstrip) == (if left_t.len() > 0 {
                            seq![GFrag { is_token: false, token: NULL, text: left_t }]
                        } else {
                            Seq::<GFrag>::empty()
                        }) + seq![GFrag { is_token: true, token: id, text: Seq::<char>::empty() }]
                            + (if rem_t.len() > 0 {
                            split_raw(rem_t, st_chars@, id, lstrip, rstrip)
                        } else {
                            Seq::<GFrag>::empty()
                        }));
                    }
                    if rem_len == 0 {
                        proof {
                            assert(models(out@) =~= models(old(out)@) + split_raw(
                                orig,
                                st_chars@,
                                id,
                                lstrip,
                                rstrip,
                            ));
                        }
                        break;
                    }
                    proof {
                        assert(models(old(out)@) + split_raw(orig, st_chars@, id, lstrip, rstrip)
                            =~= models(out@) + split_raw(
                            raw@.subrange(rem_start as int, rem_start + rem_len),
                            st_chars@,
                            id,
                            lstrip,
                            rstrip,
                        ));
                    }
                    cur_off = rem_start;
                    cur_len = rem_len;
                } else {
                    proof {
                        assert(rem =~= Seq::<char>::empty());
                        let rem_t = if rstrip { trim_left_ws(rem) } else { rem };
                        assert(rem_t.len() == 0);
                        assert(split_raw(t, st_chars@, id, lstrip, rstrip) == (if left_t.len() > 0 {
                            seq![GFrag { is_token: false, token: NULL, text: left_t }]
                        } else {
                            Seq::<GFrag>::empty()
                        }) + seq![GFrag { is_token: true, token: id, text: Seq::<char>::empty() }]
                            + Seq::<GFrag>::empty());
                        assert(models(out@) =~= models(old(out)@) + split_raw(
                            orig,
                            st_chars@,
                            id,
                            lstrip,
                            rstrip,
                        ));
                    }
                    break;
                }
            }
        }
    }
}

/// One partitioner pass over the whole buffer for one special token.
fn partition_one(
    id: u32,
    st_chars: &Vec<char>,
    lstrip: bool,
    rstrip: bool,
    buffer: &mut Vec<FragmentBufferVariant>,
)
    requires
        forall|i: int| 0 <= i < old(buffer)@.len() ==> (#[trigger] old(buffer)@[i]).wf(),
    ensures
        models(final(buffer)@) == partition_step(models(old(buffer)@), st_chars@, id, lstrip, rstrip),
        forall|i: int| 0 <= i < final(buffer)@.len() ==> (#[trigger] final(buffer)@[i]).wf(),
{
    let mut new_buf: Vec<FragmentBufferVariant> = Vec::new();
    while buffer.len() > 0
        invariant
            forall|i: int| 0 <= i < buffer@.len() ==> (#[trigger] buffer@[i]).wf(),
            forall|i: int| 0 <= i < new_buf@.len() ==> (#[trigger] new_buf@[i]).wf(),
            partition_step(models(old(buffer)@), st_chars@, id, lstrip, rstrip) == models(new_buf@)
                + partition_step(models(buffer@), st_chars@, id, lstrip, rstrip),
        decreases buffer@.len(),
    {
        let ghost before = buffer@;
        let f = buffer.remove(0);
        proof {
            assert(models(buffer@) =~= models(before).drop_first());
            assert(f.model() == models(before)[0]);
        }
        match f.variant_type {
            FragmentBufferVariantType::Token => {
                let ghost nb0 = new_buf@;
                proof {
                    assert(f.model().is_token);
                }
                new_buf.push(f);
                proof {
                    assert(models(new_buf@) =~= models(nb0) + seq![models(before)[0]]);
                }
            }
            FragmentBufferVariantType::RawText => {
                proof {
                    assert(!f.model().is_token);
                }
                let ghost ftext = f.model().text;
                split_one_fragment(id, st_chars, lstrip, rstrip, f, &mut new_buf);
            }
        }
    }
    proof {
        assert(models(buffer@) =~= Seq::<GFrag>::empty());
        assert(models(new_buf@) =~= partition_step(
            models(old(buffer)@),
            st_chars@,
            id,
            lstrip,
            rstrip,
        ));
    }
    *buffer = new_buf;
}

/// Splits every raw-text fragment of the buffer around the vocabulary's
/// special tokens, in special-token order. With `parse_special` false,
/// Control and Unknown tokens are left in the text.
pub fn tokenizer_st_partition(
    vocab: &TokenizerConfig,
    buffer: &mut Vec<FragmentBufferVariant>,
    parse_special: bool,
)
    requires
        vocab.well_formed(),
        forall|i: int| 0 <= i < old(buffer)@.len() ==> (#[trigger] old(buffer)@[i]).wf(),
    ensures
        models(final(buffer)@) == st_partition_spec(
            *vocab,
            models(old(buffer)@),
            0,
            parse_special,
        ),
        forall|i: int| 0 <= i < final(buffer)@.len() ==> (#[trigger] final(buffer)@[i]).wf(),
{
    let n_special = vocab.special_tokens.len();
    let mut k: usize = 0;
    while k < n_special
        invariant
            k <= n_special,
            n_special == vocab.special_tokens@.len(),
            vocab.well_formed(),
            forall|i: int| 0 <= i < buffer@.len() ==> (#[trigger] buffer@[i]).wf(),
            st_partition_spec(*vocab, models(buffer@), k as int, parse_special)
                == st_partition_spec(*vocab, models(old(buffer)@), 0, parse_special),
        decreases n_special - k,
    {
        let id = vocab.special_tokens[k];
        proof {
            assert(vocab.special_tokens@[k as int] < vocab.spec_n_tokens());
        }
        let data = &vocab.id_to_token[id as usize];
        let attr = data.attribute;
        let skip = !parse_special && has_attr(attr, ATTR_CONTROL | ATTR_UNKNOWN);
        let ghost mid = models(buffer@);
        if !skip {
            let st_chars = str_to_chars(data.text.as_str());
            let lstrip = has_attr(attr, ATTR_LSTRIP);
            let rstrip = has_attr(attr, ATTR_RSTRIP);
            partition_one(id, &st_chars, lstrip, rstrip, buffer);
        }
        proof {
            assert(st_partition_spec(*vocab, models(buffer@), k + 1, parse_special)
                == st_partition_spec(*vocab, mid, k as int, parse_special));
        }
        k = k + 1;
    }
}

} // verus!
