//! The generic pretokenizer fallback: patterns outside the two hand-rolled
//! fast paths are run through an outside regex engine over a collapsed
//! one-codepoint-per-category text, and the match offsets are translated
//! back to codepoint offsets.

use vstd::prelude::*;
use crate::unicode::{chars_to_string, unicode_cpt_flags_from_cpt};
use crate::fragment::find_first;
use vstd::string::StringSliceAdditionalSpecFns;

verus! {

/// Whether the regex engine accepts the pattern and scans this text
/// without error; the outcome depends on the pattern and text alone.
pub uninterp spec fn regex_scan_ok(pattern: Seq<char>, text: Seq<char>) -> bool;

/// The byte ranges of the successive matches the regex engine finds; a
/// function of the pattern and text alone.
pub uninterp spec fn regex_spans_of(pattern: Seq<char>, text: Seq<char>) -> Seq<(usize, usize)>;

/// Relies on fancy_regex::Regex::new and Regex::find_iter: compiles the
/// pattern and collects each successive match's starting and ending byte
/// offsets; None when compiling or scanning fails. Each span has its start
/// capped at its end and both within the text, and the ends never
/// decrease (each search resumes from the previous end); with keep-out
/// groups a later start may rewind before an earlier end, so no more is
/// assumed.
#[verifier::external_body]
fn regex_find_spans(pattern: &str, text: &str) -> (r: Option<Vec<(usize, usize)>>)
    ensures
        r is Some <==> regex_scan_ok(pattern@, text@),
        r is Some ==> (r->0)@ == regex_spans_of(pattern@, text@),
        r is Some ==> {
            let spans = (r->0)@;
            &&& forall|i: int|
                0 <= i < spans.len() ==> (#[trigger] spans[i]).0 <= spans[i].1 <= text.spec_bytes().len()
            &&& forall|i: int| 0 < i < spans.len() ==> (#[trigger] spans[i]).1 >= spans[i - 1].1
        },
{
    let re = match fancy_regex::Regex::new(pattern) {
        Ok(re) => re,
        Err(_) => return None,
    };
    let mut v: Vec<(usize, usize)> = Vec::new();
    for m in re.find_iter(text) {
        match m {
            Ok(m) => v.push((m.start(), m.end())),
            Err(_) => return None,
        }
    }
    Some(v)
}

/// The category sentinel byte the collapsed text uses for a codepoint, or
/// the codepoint itself below 128, following the collapsing rules: 0x0B
/// for non-ASCII whitespace, 0xD1..0xD5 for number, letter, punctuation,
/// accent mark and symbol, 0xD0 otherwise.
pub open spec fn spec_collapse_cpt(c: char) -> char {
    if (c as u32) < 128 {
        c
    } else {
        let f = crate::unicode::spec_cpt_flags(c as u32);
        if f.is_whitespace {
            11u32 as char
        } else if f.is_number {
            0xD1u32 as char
        } else if f.is_letter {
            0xD2u32 as char
        } else if f.is_punctuation {
            0xD3u32 as char
        } else if f.is_accent_mark {
            0xD4u32 as char
        } else if f.is_symbol {
            0xD5u32 as char
        } else {
            0xD0u32 as char
        }
    }
}

/// The collapsed text: every codepoint replaced by its sentinel.
pub open spec fn spec_collapse_text(s: Seq<char>) -> Seq<char> {
    s.map(|i: int, c: char| spec_collapse_cpt(c))
}

/// The wide text used for patterns without category classes: non-ASCII
/// whitespace becomes 0x0B, everything else stays.
pub open spec fn spec_wide_cpt(c: char) -> char {
    if (c as u32) > 0x7F && crate::unicode::spec_cpt_flags(c as u32).is_whitespace {
        11u32 as char
    } else {
        c
    }
}

/// The wide text: every codepoint replaced as `spec_wide_cpt` says.
pub open spec fn spec_wide_text(s: Seq<char>) -> Seq<char> {
    s.map(|i: int, c: char| spec_wide_cpt(c))
}

/// One character of the collapsed text.
fn collapse_cpt(c: char) -> (r: char)
    ensures
        r == spec_collapse_cpt(c),
{
    if (c as u32) < 128 {
        return c;
    }
    let f = unicode_cpt_flags_from_cpt(c as u32);
    let v: u32 = if f.is_whitespace {
        11
    } else if f.is_number {
        0xD1
    } else if f.is_letter {
        0xD2
    } else if f.is_punctuation {
        0xD3
    } else if f.is_accent_mark {
        0xD4
    } else if f.is_symbol {
        0xD5
    } else {
        0xD0
    };
    let r = match crate::unicode::char_from_u32(v) {
        Some(c) => c,
        None => c,  // unreachable: all sentinels are valid scalars
    };
    proof {
        vstd::utf8::char_u32_cast(r, v);
    }
    r
}

/// One character of the wide text.
fn wide_cpt(c: char) -> (r: char)
    ensures
        r == spec_wide_cpt(c),
{
    if (c as u32) > 0x7F && unicode_cpt_flags_from_cpt(c as u32).is_whitespace {
        let r = match crate::unicode::char_from_u32(11) {
            Some(c) => c,
            None => c,  // unreachable: 0x0B is a valid scalar
        };
        proof {
            vstd::utf8::char_u32_cast(r, 11);
        }
        r
    } else {
        c
    }
}

/// The collapsed form of the whole text.
fn collapse_text(cpts: &Vec<char>) -> (r: Vec<char>)
    ensures
        r@ == spec_collapse_text(cpts@),
{
    let mut r: Vec<char> = Vec::new();
    let mut i: usize = 0;
    while i < cpts.len()
        invariant
            i <= cpts@.len(),
            r@ == spec_collapse_text(cpts@).subrange(0, i as int),
        decreases cpts@.len() - i,
    {
        r.push(collapse_cpt(cpts[i]));
        proof {
            assert(r@ =~= spec_collapse_text(cpts@).subrange(0, i + 1));
        }
        i = i + 1;
    }
    proof {
        assert(r@ =~= spec_collapse_text(cpts@));
    }
    r
}

/// The wide form of the whole text.
fn wide_text(cpts: &Vec<char>) -> (r: Vec<char>)
    ensures
        r@ == spec_wide_text(cpts@),
{
    let mut r: Vec<char> = Vec::new();
    let mut i: usize = 0;
    while i < cpts.len()
        invariant
            i <= cpts@.len(),
            r@ == spec_wide_text(cpts@).subrange(0, i as int),
        decreases cpts@.len() - i,
    {
        r.push(wide_cpt(cpts[i]));
        proof {
            assert(r@ =~= spec_wide_text(cpts@).subrange(0, i + 1));
        }
        i = i + 1;
    }
    proof {
        assert(r@ =~= spec_wide_text(cpts@));
    }
    r
}

/// Whether the pattern holds the literal `\p{X}` for this class letter.
pub open spec fn spec_has_class(e: Seq<char>, cl: char) -> bool {
    find_first(e, seq!['\\', 'p', '{', cl, '}']) >= 0
}

/// Whether the pattern holds the literal `\p{X}` for this class letter.
fn has_class(expr: &Vec<char>, cl: char) -> (r: bool)
    ensures
        r == spec_has_class(expr@, cl),
{
    let needle: Vec<char> = vec!['\\', 'p', '{', cl, '}'];
    proof {
        assert(needle@ =~= seq!['\\', 'p', '{', cl, '}']);
        assert(expr@.subrange(0, expr@.len() as int) =~= expr@);
    }
    crate::fragment::find_in_range(expr, 0, expr.len(), &needle).is_some()
}

/// Whether the pattern mentions one of the category classes the collapsed
/// text can stand in for.
pub open spec fn spec_uses_categories(e: Seq<char>) -> bool {
    spec_has_class(e, 'N') || spec_has_class(e, 'L') || spec_has_class(e, 'P') || spec_has_class(
        e,
        'M',
    ) || spec_has_class(e, 'S')
}

/// Whether the pattern mentions one of the category classes.
fn pattern_uses_categories(expr: &Vec<char>) -> (r: bool)
    ensures
        r == spec_uses_categories(expr@),
{
    has_class(expr, 'N') || has_class(expr, 'L') || has_class(expr, 'P') || has_class(expr, 'M')
        || has_class(expr, 'S')
}


/// One of the category class letters the collapsing understands.
pub open spec fn spec_is_class_letter(cl: char) -> bool {
    cl == 'N' || cl == 'L' || cl == 'P' || cl == 'M' || cl == 'S'
}

/// The collapsed replacement of one `\p{X}` class: the category sentinel
/// plus the matching ASCII ranges, bracketed when not already inside a
/// character class.
pub open spec fn spec_class_replacement(cl: char, inside: bool) -> Seq<char> {
    let sentinel: char = if cl == 'N' {
        0xD1u32 as char
    } else if cl == 'L' {
        0xD2u32 as char
    } else if cl == 'P' {
        0xD3u32 as char
    } else if cl == 'M' {
        0xD4u32 as char
    } else {
        0xD5u32 as char
    };
    let ranges: Seq<char> = if cl == 'N' {
        "0-9"@
    } else if cl == 'L' {
        "A-Za-z"@
    } else if cl == 'P' {
        "!-#%-*,-/:-;?-@\\[-\\]_\\{\\}"@
    } else if cl == 'M' {
        ""@
    } else {
        "\\$+<=>^`\\|"@
    };
    if inside {
        seq![sentinel] + ranges
    } else {
        seq!['['] + (seq![sentinel] + ranges) + seq![']']
    }
}

/// The collapsed pattern from position `i` on, tracking whether the scan
/// stands inside a character class.
pub open spec fn spec_collapse_pattern_from(e: Seq<char>, i: int, inside: bool) -> Seq<char>
    decreases e.len() - i,
{
    if i < 0 || i >= e.len() {
        Seq::empty()
    } else {
        let c = e[i];
        if c == '[' && (i == 0 || e[i - 1] != '\\') {
            seq!['['] + spec_collapse_pattern_from(e, i + 1, true)
        } else if inside && c == ']' && i >= 1 && e[i - 1] != '\\' {
            seq![']'] + spec_collapse_pattern_from(e, i + 1, false)
        } else if e.len() - i > 4 && c == '\\' && e[i + 1] == 'p' && e[i + 2] == '{' && e[i + 4]
            == '}' && spec_is_class_letter(e[i + 3]) {
            spec_class_replacement(e[i + 3], inside) + spec_collapse_pattern_from(e, i + 5, inside)
        } else {
            seq![c] + spec_collapse_pattern_from(e, i + 1, inside)
        }
    }
}

/// Whether every codepoint of the pattern is ASCII.
pub open spec fn spec_all_ascii(e: Seq<char>) -> bool {
    forall|i: int| 0 <= i < e.len() ==> ((#[trigger] e[i]) as u32) < 128
}

/// Rewrites `\p{X}` classes of an ASCII pattern into their collapsed
/// form; None when the pattern holds non-ASCII codepoints.
fn collapse_pattern(expr: &Vec<char>) -> (r: Option<Vec<char>>)
    ensures
        r is Some <==> spec_all_ascii(expr@),
        r is Some ==> (r->0)@ == spec_collapse_pattern_from(expr@, 0, false),
{
    let ghost e = expr@;
    let n = expr.len();
    let mut i: usize = 0;
    while i < n
        invariant
            i <= n,
            n == e.len(),
            e == expr@,
            forall|j: int| 0 <= j < i ==> ((#[trigger] e[j]) as u32) < 128,
        decreases n - i,
    {
        if expr[i] as u32 >= 128 {
            return None;
        }
        i = i + 1;
    }
    let mut out: Vec<char> = Vec::new();
    let mut inside = false;
    let mut i: usize = 0;
    while i < n
        invariant
            i <= n,
            n == e.len(),
            e == expr@,
            out@ + spec_collapse_pattern_from(e, i as int, inside) == spec_collapse_pattern_from(
                e,
                0,
                false,
            ),
        decreases n - i,
    {
        let c = expr[i];
        if c == '[' && (i == 0 || expr[i - 1] != '\\') {
            let ghost ob = out@;
            out.push('[');
            proof {
                assert(out@ + spec_collapse_pattern_from(e, i + 1, true)
                    =~= spec_collapse_pattern_from(e, 0, false));
            }
            inside = true;
            i = i + 1;
            continue;
        }
        if inside && c == ']' && i >= 1 && expr[i - 1] != '\\' {
            let ghost ob = out@;
            out.push(']');
            proof {
                assert(out@ + spec_collapse_pattern_from(e, i + 1, false)
                    =~= spec_collapse_pattern_from(e, 0, false));
            }
            inside = false;
            i = i + 1;
            continue;
        }
        if n - i > 4 && c == '\\' && expr[i + 1] == 'p' && expr[i + 2] == '{' && expr[i + 4]
            == '}' {
            let cl = expr[i + 3];
            let known = cl == 'N' || cl == 'L' || cl == 'P' || cl == 'M' || cl == 'S';
            if known {
                let ghost ob = out@;
                if !inside {
                    out.push('[');
                }
                let sentinel: u32 = if cl == 'N' {
                    0xD1
                } else if cl == 'L' {
                    0xD2
                } else if cl == 'P' {
                    0xD3
                } else if cl == 'M' {
                    0xD4
                } else {
                    0xD5
                };
                match crate::unicode::char_from_u32(sentinel) {
                    Some(sc) => {
                        proof {
                            vstd::utf8::char_u32_cast(sc, sentinel);
                        }
                        out.push(sc);
                    }
                    None => {}  // unreachable: the sentinels are valid scalars
                }
                let ranges: &str = if cl == 'N' {
                    "0-9"
                } else if cl == 'L' {
                    "A-Za-z"
                } else if cl == 'P' {
                    "!-#%-*,-/:-;?-@\\[-\\]_\\{\\}"
                } else if cl == 'M' {
                    ""
                } else {
                    "\\$+<=>^`\\|"
                };
                let mut rv = crate::unicode::str_to_chars(ranges);
                out.append(&mut rv);
                if !inside {
                    out.push(']');
                }
                proof {
                    assert(out@ =~= ob + spec_class_replacement(cl, inside));
                    assert(out@ + spec_collapse_pattern_from(e, i + 5, inside)
                        =~= spec_collapse_pattern_from(e, 0, false));
                }
                i = i + 5;
                continue;
            }
        }
        let ghost ob = out@;
        out.push(c);
        proof {
            assert(out@ + spec_collapse_pattern_from(e, i + 1, inside)
                =~= spec_collapse_pattern_from(e, 0, false));
        }
        i = i + 1;
    }
    proof {
        assert(spec_collapse_pattern_from(e, i as int, inside) =~= Seq::<char>::empty());
        assert(out@ =~= spec_collapse_pattern_from(e, 0, false));
    }
    Some(out)
}

/// UTF-8 length of one codepoint, from its scalar value.
pub open spec fn spec_utf8_len(c: char) -> int {
    if (c as u32) < 0x80 {
        1
    } else if (c as u32) < 0x800 {
        2
    } else if (c as u32) < 0x10000 {
        3
    } else {
        4
    }
}

/// UTF-8 length of one codepoint, from its scalar value.
fn char_utf8_len(c: char) -> (r: usize)
    ensures
        1 <= r <= 4,
        r == spec_utf8_len(c),
{
    let v = c as u32;
    if v < 0x80 {
        1
    } else if v < 0x800 {
        2
    } else if v < 0x10000 {
        3
    } else {
        4
    }
}

/// The byte offset of character `i` of a text under UTF-8.
pub open spec fn spec_prefix_bytes(s: Seq<char>, i: int) -> int
    decreases i,
{
    if i <= 0 {
        0
    } else {
        spec_prefix_bytes(s, i - 1) + spec_utf8_len(s[i - 1])
    }
}

/// Cumulative byte offsets of the characters of `chars` under UTF-8:
/// entry `i` is the byte offset of character `i`, entry `len` the total.
fn byte_prefix_sums(chars: &[char]) -> (r: Vec<usize>)
    requires
        chars@.len() * 4 <= usize::MAX,
    ensures
        r@.len() == chars@.len() + 1,
        r@[0] == 0,
        forall|i: int, j: int| 0 <= i <= j < r@.len() ==> r@[i] <= r@[j],
        forall|i: int| 0 <= i < r@.len() ==> r@[i] == spec_prefix_bytes(chars@, i),
{
    let mut r: Vec<usize> = Vec::new();
    r.push(0);
    let mut i: usize = 0;
    let mut acc: usize = 0;
    while i < chars.len()
        invariant
            i <= chars@.len(),
            chars@.len() * 4 <= usize::MAX,
            r@.len() == i + 1,
            r@[0] == 0,
            r@[i as int] == acc,
            acc <= 4 * i,
            forall|a: int, b: int| 0 <= a <= b < r@.len() ==> r@[a] <= r@[b],
            forall|a: int| 0 <= a < r@.len() ==> r@[a] == spec_prefix_bytes(chars@, a),
        decreases chars@.len() - i,
    {
        let l = char_utf8_len(chars[i]);
        proof {
            vstd::arithmetic::mul::lemma_mul_inequality(i + 1, chars@.len() as int, 4);
        }
        acc = acc + l;
        r.push(acc);
        i = i + 1;
    }
    r
}

/// The chunk lengths the byte spans cut out of the encoded range: for each
/// span, the gap before it (when non-empty) and the span itself (when
/// non-empty), and finally the tail; offsets translate through the byte
/// prefix table, clamped monotone.
pub open spec fn spec_chunks_of_spans(
    pb: Seq<usize>,
    range_len: int,
    spans: Seq<(usize, usize)>,
    prev: int,
) -> Seq<usize>
    decreases spans.len(),
{
    if spans.len() == 0 {
        if prev < range_len {
            seq![(range_len - prev) as usize]
        } else {
            Seq::empty()
        }
    } else {
        let cs_raw = spec_byte_to_char(pb, range_len, spans[0].0 as int, 0);
        let ce_raw = spec_byte_to_char(pb, range_len, spans[0].1 as int, 0);
        let cs = if cs_raw < prev {
            prev
        } else {
            cs_raw
        };
        let ce = if ce_raw < cs {
            cs
        } else {
            ce_raw
        };
        (if cs > prev {
            seq![(cs - prev) as usize]
        } else {
            Seq::<usize>::empty()
        }) + (if ce > cs {
            seq![(ce - cs) as usize]
        } else {
            Seq::<usize>::empty()
        }) + spec_chunks_of_spans(pb, range_len, spans.drop_first(), ce)
    }
}

/// Turns byte spans over the encoded range into chunk lengths over its
/// characters; the lengths sum to the range length.
fn spans_to_chunks(
    pb: &Vec<usize>,
    range_len: usize,
    spans: &Vec<(usize, usize)>,
    out: &mut Vec<usize>,
)
    requires
        pb@.len() == range_len + 1,
        forall|i: int, j: int| 0 <= i <= j < pb@.len() ==> pb@[i] <= pb@[j],
    ensures
        final(out)@ == old(out)@ + spec_chunks_of_spans(pb@, range_len as int, spans@, 0),
        crate::pretokenizer::sum_usize(final(out)@) == crate::pretokenizer::sum_usize(old(out)@)
            + range_len,
{
    let mut prev: usize = 0;
    let mut si: usize = 0;
    let n_spans = spans.len();
    proof {
        assert(spans@.subrange(0, n_spans as int) =~= spans@);
    }
    while si < n_spans
        invariant
            si <= n_spans,
            n_spans == spans@.len(),
            prev <= range_len,
            pb@.len() == range_len + 1,
            forall|i: int, j: int| 0 <= i <= j < pb@.len() ==> pb@[i] <= pb@[j],
            crate::pretokenizer::sum_usize(out@) == crate::pretokenizer::sum_usize(old(out)@)
                + prev,
            old(out)@ + spec_chunks_of_spans(pb@, range_len as int, spans@, 0) == out@
                + spec_chunks_of_spans(
                pb@,
                range_len as int,
                spans@.subrange(si as int, n_spans as int),
                prev as int,
            ),
        decreases n_spans - si,
    {
        let ghost rest = spans@.subrange(si as int, n_spans as int);
        proof {
            assert(rest[0] == spans@[si as int]);
            assert(rest.drop_first() =~= spans@.subrange(si + 1, n_spans as int));
        }
        let (bs, be) = spans[si];
        let cs_raw = byte_to_char_index(pb, range_len, bs);
        let ce_raw = byte_to_char_index(pb, range_len, be);
        let cs = if cs_raw < prev {
            prev
        } else {
            cs_raw
        };
        let ce = if ce_raw < cs {
            cs
        } else {
            ce_raw
        };
        if cs > prev {
            let ghost ob = out@;
            out.push(cs - prev);
            proof {
                lemma_sum_push(ob, (cs - prev) as usize);
            }
        }
        if ce > cs {
            let ghost ob = out@;
            out.push(ce - cs);
            proof {
                lemma_sum_push(ob, (ce - cs) as usize);
            }
        }
        proof {
            assert(out@ + spec_chunks_of_spans(
                pb@,
                range_len as int,
                spans@.subrange(si + 1, n_spans as int),
                ce as int,
            ) =~= old(out)@ + spec_chunks_of_spans(pb@, range_len as int, spans@, 0));
        }
        prev = ce;
        si = si + 1;
    }
    proof {
        assert(spans@.subrange(si as int, n_spans as int) =~= Seq::<(usize, usize)>::empty());
    }
    if prev < range_len {
        let ghost ob = out@;
        out.push(range_len - prev);
        proof {
            lemma_sum_push(ob, (range_len - prev) as usize);
        }
    }
    proof {
        assert(final(out)@ =~= old(out)@ + spec_chunks_of_spans(pb@, range_len as int, spans@, 0));
    }
}

/// Appending one element adds it to the sum.
pub proof fn lemma_sum_push(s: Seq<usize>, v: usize)
    ensures
        crate::pretokenizer::sum_usize(s.push(v)) == crate::pretokenizer::sum_usize(s) + v,
{
    crate::pretokenizer::lemma_sum_concat(s, seq![v]);
    assert(seq![v].drop_first() =~= Seq::<usize>::empty());
    assert(crate::pretokenizer::sum_usize(seq![v].drop_first()) == 0);
    assert(crate::pretokenizer::sum_usize(seq![v]) == v as int);
    assert(s + seq![v] =~= s.push(v));
}

/// The character index a byte offset translates to: walks forward while
/// the next character still starts at or before the offset.
pub open spec fn spec_byte_to_char(pb: Seq<usize>, range_len: int, b: int, c: int) -> int
    decreases range_len - c,
{
    if c < range_len && 0 <= c + 1 < pb.len() && pb[c + 1] <= b {
        spec_byte_to_char(pb, range_len, b, c + 1)
    } else {
        c
    }
}

/// The largest character index whose byte offset is at most `b`, capped at
/// the range length.
fn byte_to_char_index(pb: &Vec<usize>, range_len: usize, b: usize) -> (r: usize)
    requires
        pb@.len() == range_len + 1,
        forall|i: int, j: int| 0 <= i <= j < pb@.len() ==> pb@[i] <= pb@[j],
    ensures
        r <= range_len,
        r as int == spec_byte_to_char(pb@, range_len as int, b as int, 0),
{
    let mut c: usize = 0;
    while c < range_len && pb[c + 1] <= b
        invariant
            c <= range_len,
            pb@.len() == range_len + 1,
            spec_byte_to_char(pb@, range_len as int, b as int, 0) == spec_byte_to_char(
                pb@,
                range_len as int,
                b as int,
                c as int,
            ),
        decreases range_len - c,
    {
        c = c + 1;
    }
    c
}

/// The byte prefix table of a text.
pub open spec fn spec_prefix_table(rc: Seq<char>) -> Seq<usize> {
    Seq::new((rc.len() + 1) as nat, |i: int| spec_prefix_bytes(rc, i) as usize)
}

/// The chunk lengths of the ranges of the derived text from `start` on,
/// under the derived pattern: None as soon as the engine rejects one
/// range.
pub open spec fn spec_fallback_ranges(
    pat: Seq<char>,
    derived: Seq<char>,
    offsets: Seq<usize>,
    start: int,
) -> Option<Seq<usize>>
    decreases offsets.len(),
{
    if offsets.len() == 0 {
        Option::Some(Seq::empty())
    } else {
        let len = offsets[0] as int;
        let rc = derived.subrange(start, start + len);
        if !regex_scan_ok(pat, rc) {
            Option::None
        } else {
            let head = spec_chunks_of_spans(
                spec_prefix_table(rc),
                len,
                regex_spans_of(pat, rc),
                0,
            );
            match spec_fallback_ranges(pat, derived, offsets.drop_first(), start + len) {
                Option::Some(rest) => Option::Some(head + rest),
                Option::None => Option::None,
            }
        }
    }
}

/// What the fallback split returns: None when a category-class pattern
/// holds non-ASCII codepoints or the engine rejects the derived pattern
/// on some range; otherwise the per-range chunk lengths that the engine's
/// byte spans cut out.
pub open spec fn spec_fallback_split(
    cpts: Seq<char>,
    expr: Seq<char>,
    offsets: Seq<usize>,
) -> Option<Seq<usize>> {
    if spec_uses_categories(expr) {
        if !spec_all_ascii(expr) {
            Option::None
        } else {
            spec_fallback_ranges(
                spec_collapse_pattern_from(expr, 0, false),
                spec_collapse_text(cpts),
                offsets,
                0,
            )
        }
    } else {
        spec_fallback_ranges(expr, spec_wide_text(cpts), offsets, 0)
    }
}

/// Splits each given range of the text with the outside regex engine over
/// the collapsed or wide form, translating the byte spans back to
/// codepoint offsets; the result lengths still partition the text. None
/// exactly when a category-class pattern holds non-ASCII codepoints or
/// the engine rejects the derived pattern on some range.
pub fn regex_fallback_split(cpts: &Vec<char>, expr: &String, offsets: &Vec<usize>) -> (r: Option<
    Vec<usize>,
>)
    requires
        crate::pretokenizer::sum_usize(offsets@) == cpts@.len(),
        cpts@.len() * 4 <= usize::MAX,
    ensures
        r is Some <==> spec_fallback_split(cpts@, expr@, offsets@) is Some,
        r is Some ==> (r->0)@ == spec_fallback_split(cpts@, expr@, offsets@)->0,
        r is Some ==> crate::pretokenizer::sum_usize((r->0)@) == cpts@.len(),
{
    let ghost e = expr@;
    let expr_chars = crate::unicode::str_to_chars(expr.as_str());
    let use_collapsed = pattern_uses_categories(&expr_chars);
    let derived: Vec<char>;
    let pattern: Vec<char>;
    if use_collapsed {
        match collapse_pattern(&expr_chars) {
            Some(p) => {
                pattern = p;
            }
            None => {
                proof {
                    assert(!spec_all_ascii(e));
                    assert(spec_fallback_split(cpts@, e, offsets@) is None);
                }
                return None;
            }
        }
        derived = collapse_text(cpts);
    } else {
        pattern = expr_chars;
        derived = wide_text(cpts);
    }
    let ghost pat = pattern@;
    let ghost dv = derived@;
    proof {
        assert(derived@.len() == cpts@.len());
        assert(spec_fallback_split(cpts@, e, offsets@) == spec_fallback_ranges(pat, dv, offsets@, 0));
    }
    let pattern_str = chars_to_string(pattern.as_slice());
    let mut out: Vec<usize> = Vec::new();
    let n = offsets.len();
    let total = cpts.len();
    let mut start: usize = 0;
    let mut i: usize = 0;
    proof {
        assert(offsets@.subrange(0, n as int) =~= offsets@);
    }
    while i < n
        invariant
            i <= n,
            n == offsets@.len(),
            derived@.len() == cpts@.len(),
            cpts@.len() * 4 <= usize::MAX,
            total == cpts@.len(),
            pat == pattern_str@,
            dv == derived@,
            e == expr@,
            spec_fallback_split(cpts@, e, offsets@) == spec_fallback_ranges(pat, dv, offsets@, 0),
            start + crate::pretokenizer::sum_usize(offsets@.subrange(i as int, n as int))
                == total,
            crate::pretokenizer::sum_usize(out@) == start,
            (match spec_fallback_ranges(pat, dv, offsets@.subrange(i as int, n as int), start as int) {
                Option::Some(rest) => spec_fallback_ranges(pat, dv, offsets@, 0) == Option::Some(
                    out@ + rest,
                ),
                Option::None => spec_fallback_ranges(pat, dv, offsets@, 0) is None,
            }),
        decreases n - i,
    {
        let ghost rest = offsets@.subrange(i as int, n as int);
        proof {
            crate::pretokenizer::lemma_sum_nonneg(rest.drop_first());
            assert(rest[0] == offsets@[i as int]);
            assert(crate::pretokenizer::sum_usize(rest) == rest[0] + crate::pretokenizer::sum_usize(
                rest.drop_first(),
            ));
            assert(rest.drop_first() =~= offsets@.subrange(i + 1, n as int));
        }
        let len = offsets[i];
        let range = crate::fragment::copy_range(&derived, start, len);
        let ghost rc = dv.subrange(start as int, start + len);
        proof {
            assert(range@ == rc);
        }
        let range_str = chars_to_string(range.as_slice());
        let spans = match regex_find_spans(pattern_str.as_str(), range_str.as_str()) {
            Some(s) => s,
            None => {
                proof {
                    assert(!regex_scan_ok(pat, rc));
                    assert(spec_fallback_ranges(pat, dv, rest, start as int) is None);
                }
                return None;
            }
        };
        proof {
            vstd::arithmetic::mul::lemma_mul_inequality(len as int, cpts@.len() as int, 4);
        }
        let pb = byte_prefix_sums(range.as_slice());
        proof {
            assert(pb@ =~= spec_prefix_table(rc));
        }
        let ghost ob = out@;
        spans_to_chunks(&pb, len, &spans, &mut out);
        proof {
            let head = spec_chunks_of_spans(spec_prefix_table(rc), len as int, regex_spans_of(pat, rc), 0);
            assert(spans@ == regex_spans_of(pat, rc));
            assert(out@ == ob + head);
            assert(spec_fallback_ranges(pat, dv, rest, start as int) == (
            match spec_fallback_ranges(pat, dv, rest.drop_first(), start + len) {
                Option::Some(r2) => Option::Some(head + r2),
                Option::None => Option::<Seq<usize>>::None,
            }));
            if spec_fallback_ranges(pat, dv, rest.drop_first(), start + len) is Some {
                let r2 = spec_fallback_ranges(pat, dv, rest.drop_first(), start + len)->0;
                assert((ob + head) + r2 =~= ob + (head + r2));
            }
        }
        start = start + len;
        i = i + 1;
    }
    proof {
        assert(offsets@.subrange(i as int, n as int) =~= Seq::<usize>::empty());
        assert(spec_fallback_ranges(pat, dv, offsets@.subrange(i as int, n as int), start as int)
            == Option::<Seq<usize>>::Some(Seq::empty()));
        assert(out@ + Seq::<usize>::empty() =~= out@);
    }
    Some(out)
}

} // verus!
