//! Pretokenization: splitting decoded text into word-level chunks with the
//! two hand-rolled scanners (GPT-2 and Llama-3 patterns). Chunks are given
//! as codepoint lengths; consecutive chunks partition the input exactly.

use vstd::prelude::*;
use crate::unicode::{
    spec_cpt_flags, spec_flags_undefined, spec_flags_uint, spec_tolower, unicode_cpt_flags,
    unicode_cpt_flags_from_cpt, unicode_tolower,
};

verus! {

/// Flags of the codepoint at `pos`, all-clear outside `[0, end)`.
pub open spec fn flags_at(s: Seq<char>, end: int, pos: int) -> unicode_cpt_flags {
    if 0 <= pos < end <= s.len() {
        spec_cpt_flags(s[pos] as u32)
    } else {
        spec_flags_undefined()
    }
}

/// The character classes whose runs the scanners measure.
#[derive(Clone, Copy, PartialEq, Eq, Structural)]
pub enum CharClass {
    Letter,
    Number,
    /// Not whitespace, letter or number, and covered by the tables.
    Punctish,
    Whitespace,
    CrLf,
}

/// Whether the codepoint at `pos` belongs to the class (false outside the
/// range).
pub open spec fn class_holds(cl: CharClass, s: Seq<char>, end: int, pos: int) -> bool {
    let f = flags_at(s, end, pos);
    match cl {
        CharClass::Letter => f.is_letter,
        CharClass::Number => f.is_number,
        CharClass::Punctish => !(f.is_whitespace || f.is_letter || f.is_number)
            && spec_flags_uint(f) != 0,
        CharClass::Whitespace => f.is_whitespace,
        CharClass::CrLf => 0 <= pos < end <= s.len() && (s[pos] == '\r' || s[pos] == '\n'),
    }
}

/// End of the run of class `cl` starting at `pos`: the first position at
/// or after `pos` that is not in the class.
pub open spec fn run_end(cl: CharClass, s: Seq<char>, end: int, pos: int) -> int
    decreases end - pos,
{
    if pos < end && class_holds(cl, s, end, pos) {
        run_end(cl, s, end, pos + 1)
    } else {
        pos
    }
}

/// A run end lies between its start and the range end, the run is all in
/// the class, and the run stops at a codepoint outside the class.
pub proof fn lemma_run_end(cl: CharClass, s: Seq<char>, end: int, pos: int)
    requires
        pos <= end,
    ensures
        pos <= run_end(cl, s, end, pos) <= end,
        forall|q: int| pos <= q < run_end(cl, s, end, pos) ==> class_holds(cl, s, end, q),
        !class_holds(cl, s, end, run_end(cl, s, end, pos)),
    decreases end - pos,
{
    if pos < end && class_holds(cl, s, end, pos) {
        lemma_run_end(cl, s, end, pos + 1);
    }
}

/// Tests class membership of the codepoint at `pos`.
pub fn class_test(cl: CharClass, cpts: &[char], end: usize, pos: usize) -> (r: bool)
    requires
        end <= cpts@.len(),
    ensures
        r == class_holds(cl, cpts@, end as int, pos as int),
{
    if pos >= end {
        return false;
    }
    let c = cpts[pos];
    match cl {
        CharClass::Letter => unicode_cpt_flags_from_cpt(c as u32).is_letter,
        CharClass::Number => unicode_cpt_flags_from_cpt(c as u32).is_number,
        CharClass::Punctish => {
            let f = unicode_cpt_flags_from_cpt(c as u32);
            !(f.is_whitespace || f.is_letter || f.is_number) && f.as_uint() != 0
        }
        CharClass::Whitespace => unicode_cpt_flags_from_cpt(c as u32).is_whitespace,
        CharClass::CrLf => c == '\r' || c == '\n',
    }
}

/// Scans to the end of the class run starting at `pos`.
pub fn scan_run_end(cl: CharClass, cpts: &[char], end: usize, pos: usize) -> (r: usize)
    requires
        pos <= end <= cpts@.len(),
    ensures
        r == run_end(cl, cpts@, end as int, pos as int),
        pos <= r <= end,
{
    let mut k: usize = pos;
    while class_test(cl, cpts, end, k)
        invariant
            pos <= k <= end,
            end <= cpts@.len(),
            run_end(cl, cpts@, end as int, pos as int) == run_end(cl, cpts@, end as int, k as int),
        decreases end - k,
    {
        k = k + 1;
    }
    proof {
        lemma_run_end(cl, cpts@, end as int, pos as int);
    }
    k
}

/// One past the last CR or LF inside the whitespace run starting at `pos`,
/// or 0 when the run holds none.
pub open spec fn last_crlf_in_ws(s: Seq<char>, end: int, pos: int) -> int
    decreases end - pos,
{
    if pos < end && class_holds(CharClass::Whitespace, s, end, pos) {
        let rest = last_crlf_in_ws(s, end, pos + 1);
        if rest > 0 {
            rest
        } else if s[pos] == '\r' || s[pos] == '\n' {
            pos + 1
        } else {
            0
        }
    } else {
        0
    }
}

/// The last CR/LF position marker is 0 or lies inside the whitespace run.
pub proof fn lemma_last_crlf_bounds(s: Seq<char>, end: int, pos: int)
    requires
        0 <= pos <= end,
    ensures
        last_crlf_in_ws(s, end, pos) == 0 || pos < last_crlf_in_ws(s, end, pos) <= run_end(
            CharClass::Whitespace,
            s,
            end,
            pos,
        ),
    decreases end - pos,
{
    if pos < end && class_holds(CharClass::Whitespace, s, end, pos) {
        lemma_last_crlf_bounds(s, end, pos + 1);
        assert(run_end(CharClass::Whitespace, s, end, pos) == run_end(
            CharClass::Whitespace,
            s,
            end,
            pos + 1,
        ));
        lemma_run_end(CharClass::Whitespace, s, end, pos + 1);
    }
}

/// Scans the whitespace run starting at `pos`; returns the run end and one
/// past its last CR/LF (0 when there is none).
pub fn scan_ws_crlf(cpts: &[char], end: usize, pos: usize) -> (r: (usize, usize))
    requires
        pos <= end <= cpts@.len(),
    ensures
        r.0 == run_end(CharClass::Whitespace, cpts@, end as int, pos as int),
        r.1 == last_crlf_in_ws(cpts@, end as int, pos as int),
        pos <= r.0 <= end,
        r.1 <= r.0,
{
    let ghost s = cpts@;
    let mut k: usize = pos;
    let mut best: usize = 0;
    while class_test(CharClass::Whitespace, cpts, end, k)
        invariant
            pos <= k <= end,
            end <= s.len(),
            s == cpts@,
            best <= k,
            run_end(CharClass::Whitespace, s, end as int, pos as int) == run_end(
                CharClass::Whitespace,
                s,
                end as int,
                k as int,
            ),
            last_crlf_in_ws(s, end as int, pos as int) == (if last_crlf_in_ws(
                s,
                end as int,
                k as int,
            ) > 0 {
                last_crlf_in_ws(s, end as int, k as int)
            } else {
                best as int
            }),
        decreases end - k,
    {
        let c = cpts[k];
        if c == '\r' || c == '\n' {
            best = k + 1;
        }
        k = k + 1;
    }
    proof {
        lemma_run_end(CharClass::Whitespace, s, end as int, pos as int);
        lemma_last_crlf_bounds(s, end as int, pos as int);
    }
    (k, best)
}

/// Which hand-rolled scanner splits the text.
#[derive(Clone, Copy, PartialEq, Eq, Structural)]
pub enum ScanKind {
    Gpt2,
    Llama3,
}

/// End of the GPT-2 pattern match starting at `pos`: the rules of
/// `'s|'t|'re|'ve|'m|'ll|'d| ?\p{L}+| ?\p{N}+| ?[^\s\p{L}\p{N}]+|\s+(?!\S)|\s+`
/// checked in order, with a one-codepoint fallback.
pub open spec fn match_end_gpt2(s: Seq<char>, end: int, pos: int) -> int {
    let c = s[pos];
    let f = flags_at(s, end, pos);
    if c == '\'' && pos + 1 < end && (s[pos + 1] == 's' || s[pos + 1] == 't' || s[pos + 1] == 'm'
        || s[pos + 1] == 'd') {
        pos + 2
    } else if c == '\'' && pos + 2 < end && ((s[pos + 1] == 'r' && s[pos + 2] == 'e') || (s[pos + 1]
        == 'v' && s[pos + 2] == 'e') || (s[pos + 1] == 'l' && s[pos + 2] == 'l')) {
        pos + 3
    } else {
        let skip = if c == ' ' { 1int } else { 0int };
        let f2 = if c == ' ' { flags_at(s, end, pos + 1) } else { f };
        if f2.is_letter {
            run_end(CharClass::Letter, s, end, pos + skip)
        } else if f2.is_number {
            run_end(CharClass::Number, s, end, pos + skip)
        } else if !(f2.is_whitespace || f2.is_letter || f2.is_number) && spec_flags_uint(f) != 0 {
            run_end(CharClass::Punctish, s, end, pos + skip)
        } else {
            let wsend = run_end(CharClass::Whitespace, s, end, pos);
            if wsend - pos > 1 && wsend < end {
                wsend - 1
            } else if wsend > pos {
                wsend
            } else {
                pos + 1
            }
        }
    }
}

/// End of the Llama-3 pattern match starting at `pos`: the rules of
/// `(?i:'s|'t|'re|'ve|'m|'ll|'d)|[^\r\n\p{L}\p{N}]?\p{L}+|\p{N}{1,3}| ?[^\s\p{L}\p{N}]+[\r\n]*|\s*[\r\n]+|\s+(?!\S)|\s+`
/// checked in order, with a one-codepoint fallback. Number runs are split
/// into groups of three from the left.
pub open spec fn match_end_llama3(s: Seq<char>, end: int, pos: int) -> int {
    let c = s[pos];
    let f = flags_at(s, end, pos);
    if c == '\'' && pos + 1 < end && {
        let c1 = spec_tolower(s[pos + 1] as u32);
        c1 == 's' as u32 || c1 == 't' as u32 || c1 == 'm' as u32 || c1 == 'd' as u32
    } {
        pos + 2
    } else if c == '\'' && pos + 2 < end && {
        let c1 = spec_tolower(s[pos + 1] as u32);
        let c2 = spec_tolower(s[pos + 2] as u32);
        (c1 == 'r' as u32 && c2 == 'e' as u32) || (c1 == 'v' as u32 && c2 == 'e' as u32) || (c1
            == 'l' as u32 && c2 == 'l' as u32)
    } {
        pos + 3
    } else if !(c == '\r' || c == '\n' || f.is_number) && (f.is_letter || flags_at(
        s,
        end,
        pos + 1,
    ).is_letter) {
        run_end(CharClass::Letter, s, end, pos + 1)
    } else if f.is_number {
        let nend = run_end(CharClass::Number, s, end, pos);
        if nend - pos >= 3 {
            pos + 3
        } else {
            nend
        }
    } else {
        let skip = if c == ' ' { 1int } else { 0int };
        let f2 = if c == ' ' { flags_at(s, end, pos + 1) } else { f };
        if !(f2.is_whitespace || f2.is_letter || f2.is_number) && spec_flags_uint(f) != 0 {
            run_end(CharClass::CrLf, s, end, run_end(CharClass::Punctish, s, end, pos + skip))
        } else {
            let wsend = run_end(CharClass::Whitespace, s, end, pos);
            let lcrlf = last_crlf_in_ws(s, end, pos);
            if lcrlf > 0 {
                lcrlf
            } else if wsend - pos > 1 && wsend < end {
                wsend - 1
            } else if wsend > pos {
                wsend
            } else {
                pos + 1
            }
        }
    }
}

/// The match end for either scanner.
pub open spec fn match_end(kind: ScanKind, s: Seq<char>, end: int, pos: int) -> int {
    match kind {
        ScanKind::Gpt2 => match_end_gpt2(s, end, pos),
        ScanKind::Llama3 => match_end_llama3(s, end, pos),
    }
}

/// Every match is non-empty and stays inside the range.
pub proof fn lemma_match_end_bounds(kind: ScanKind, s: Seq<char>, end: int, pos: int)
    requires
        0 <= pos < end <= s.len(),
    ensures
        pos < match_end(kind, s, end, pos) <= end,
{
    lemma_run_end(CharClass::Letter, s, end, pos);
    lemma_run_end(CharClass::Letter, s, end, pos + 1);
    lemma_run_end(CharClass::Number, s, end, pos);
    lemma_run_end(CharClass::Number, s, end, pos + 1);
    lemma_run_end(CharClass::Punctish, s, end, pos);
    lemma_run_end(CharClass::Punctish, s, end, pos + 1);
    lemma_run_end(CharClass::Whitespace, s, end, pos);
    lemma_last_crlf_bounds(s, end, pos);
    if pos + 1 <= end {
        if class_holds(CharClass::Punctish, s, end, pos) || class_holds(
            CharClass::Punctish,
            s,
            end,
            pos + 1,
        ) {
        }
    }
    match kind {
        ScanKind::Gpt2 => {
            let c = s[pos];
            let f = flags_at(s, end, pos);
            let skip = if c == ' ' { 1int } else { 0int };
            let f2 = if c == ' ' { flags_at(s, end, pos + 1) } else { f };
            if f2.is_letter {
                assert(class_holds(CharClass::Letter, s, end, pos + skip));
            } else if f2.is_number {
                assert(class_holds(CharClass::Number, s, end, pos + skip));
            }
        }
        ScanKind::Llama3 => {
            let c = s[pos];
            let f = flags_at(s, end, pos);
            let skip = if c == ' ' { 1int } else { 0int };
            lemma_run_end(CharClass::CrLf, s, end, run_end(CharClass::Punctish, s, end, pos));
            lemma_run_end(CharClass::CrLf, s, end, run_end(CharClass::Punctish, s, end, pos + 1));
            if f.is_number {
                assert(class_holds(CharClass::Number, s, end, pos));
            }
        }
    }
}

/// The chunk lengths the scanner emits over `[pos, end)`: the match
/// lengths, in order, restarting after each match.
pub open spec fn chunks_from(kind: ScanKind, s: Seq<char>, end: int, pos: int) -> Seq<usize>
    decreases end - pos
    via chunks_from_dec
{
    if 0 <= pos < end <= s.len() {
        let e = match_end(kind, s, end, pos);
        seq![(e - pos) as usize] + chunks_from(kind, s, end, e)
    } else {
        Seq::empty()
    }
}

#[via_fn]
proof fn chunks_from_dec(kind: ScanKind, s: Seq<char>, end: int, pos: int) {
    if 0 <= pos < end <= s.len() {
        lemma_match_end_bounds(kind, s, end, pos);
    }
}

/// Sum of a sequence of lengths.
pub open spec fn sum_usize(s: Seq<usize>) -> int
    decreases s.len(),
{
    if s.len() == 0 {
        0
    } else {
        s[0] + sum_usize(s.drop_first())
    }
}

/// The chunk lengths of a range are positive and sum to the range length.
pub proof fn lemma_chunks_partition(kind: ScanKind, s: Seq<char>, end: int, pos: int)
    requires
        0 <= pos <= end <= s.len(),
        end <= usize::MAX,
    ensures
        sum_usize(chunks_from(kind, s, end, pos)) == end - pos,
        forall|i: int|
            0 <= i < chunks_from(kind, s, end, pos).len() ==> chunks_from(kind, s, end, pos)[i]
                >= 1,
    decreases end - pos,
{
    if pos < end {
        lemma_match_end_bounds(kind, s, end, pos);
        let e = match_end(kind, s, end, pos);
        lemma_chunks_partition(kind, s, end, e);
        let c = chunks_from(kind, s, end, pos);
        let rest = chunks_from(kind, s, end, e);
        assert(c.drop_first() =~= rest);
        assert forall|i: int| 0 <= i < c.len() implies c[i] >= 1 by {
            if i > 0 {
                assert(c[i] == rest[i - 1]);
            }
        }
    }
}

/// Computes the end of the GPT-2 match starting at `pos`.
fn gpt2_match_at(cpts: &[char], end: usize, pos: usize) -> (e: usize)
    requires
        pos < end <= cpts@.len(),
    ensures
        e as int == match_end_gpt2(cpts@, end as int, pos as int),
        pos < e <= end,
{
    proof {
        lemma_match_end_bounds(ScanKind::Gpt2, cpts@, end as int, pos as int);
    }
    let c = cpts[pos];
    if c == '\'' && pos + 1 < end {
        let c1 = cpts[pos + 1];
        if c1 == 's' || c1 == 't' || c1 == 'm' || c1 == 'd' {
            return pos + 2;
        }
        if pos + 2 < end {
            let c2 = cpts[pos + 2];
            if (c1 == 'r' && c2 == 'e') || (c1 == 'v' && c2 == 'e') || (c1 == 'l' && c2 == 'l') {
                return pos + 3;
            }
        }
    }
    let f = unicode_cpt_flags_from_cpt(c as u32);
    let skip: usize = if c == ' ' { 1 } else { 0 };
    let f2 = if c == ' ' {
        if pos + 1 < end {
            unicode_cpt_flags_from_cpt(cpts[pos + 1] as u32)
        } else {
            unicode_cpt_flags::undefined()
        }
    } else {
        f
    };
    proof {
        assert(f2 == (if cpts@[pos as int] == ' ' {
            flags_at(cpts@, end as int, pos as int + 1)
        } else {
            flags_at(cpts@, end as int, pos as int)
        }));
    }
    if f2.is_letter {
        return scan_run_end(CharClass::Letter, cpts, end, pos + skip);
    }
    if f2.is_number {
        return scan_run_end(CharClass::Number, cpts, end, pos + skip);
    }
    if !(f2.is_whitespace || f2.is_letter || f2.is_number) && f.as_uint() != 0 {
        return scan_run_end(CharClass::Punctish, cpts, end, pos + skip);
    }
    let wsend = scan_run_end(CharClass::Whitespace, cpts, end, pos);
    if wsend - pos > 1 && wsend < end {
        wsend - 1
    } else if wsend > pos {
        wsend
    } else {
        pos + 1
    }
}

/// Computes the end of the Llama-3 match starting at `pos`.
fn llama3_match_at(cpts: &[char], end: usize, pos: usize) -> (e: usize)
    requires
        pos < end <= cpts@.len(),
    ensures
        e as int == match_end_llama3(cpts@, end as int, pos as int),
        pos < e <= end,
{
    proof {
        lemma_match_end_bounds(ScanKind::Llama3, cpts@, end as int, pos as int);
    }
    let c = cpts[pos];
    if c == '\'' && pos + 1 < end {
        let c1 = unicode_tolower(cpts[pos + 1] as u32);
        if c1 == 's' as u32 || c1 == 't' as u32 || c1 == 'm' as u32 || c1 == 'd' as u32 {
            return pos + 2;
        }
        if pos + 2 < end {
            let c2 = unicode_tolower(cpts[pos + 2] as u32);
            if (c1 == 'r' as u32 && c2 == 'e' as u32) || (c1 == 'v' as u32 && c2 == 'e' as u32) || (
            c1 == 'l' as u32 && c2 == 'l' as u32) {
                return pos + 3;
            }
        }
    }
    let f = unicode_cpt_flags_from_cpt(c as u32);
    let fl1 = if pos + 1 < end {
        unicode_cpt_flags_from_cpt(cpts[pos + 1] as u32)
    } else {
        unicode_cpt_flags::undefined()
    };
    proof {
        assert(fl1 == flags_at(cpts@, end as int, pos as int + 1));
    }
    if !(c == '\r' || c == '\n' || f.is_number) && (f.is_letter || fl1.is_letter) {
        return scan_run_end(CharClass::Letter, cpts, end, pos + 1);
    }
    if f.is_number {
        let nend = scan_run_end(CharClass::Number, cpts, end, pos);
        if nend - pos >= 3 {
            return pos + 3;
        } else {
            return nend;
        }
    }
    let skip: usize = if c == ' ' { 1 } else { 0 };
    let f2 = if c == ' ' {
        fl1
    } else {
        f
    };
    if !(f2.is_whitespace || f2.is_letter || f2.is_number) && f.as_uint() != 0 {
        let pend = scan_run_end(CharClass::Punctish, cpts, end, pos + skip);
        return scan_run_end(CharClass::CrLf, cpts, end, pend);
    }
    let (wsend, lcrlf) = scan_ws_crlf(cpts, end, pos);
    if lcrlf > 0 {
        lcrlf
    } else if wsend - pos > 1 && wsend < end {
        wsend - 1
    } else if wsend > pos {
        wsend
    } else {
        pos + 1
    }
}

/// Emits the scanner's chunk lengths for the range `[ini, end)` at the end
/// of `out`.
fn scan_range(kind: ScanKind, cpts: &[char], ini: usize, end: usize, out: &mut Vec<usize>)
    requires
        ini <= end <= cpts@.len(),
    ensures
        final(out)@ == old(out)@ + chunks_from(kind, cpts@, end as int, ini as int),
{
    let ghost s = cpts@;
    let mut pos: usize = ini;
    while pos < end
        invariant
            ini <= pos <= end <= s.len(),
            s == cpts@,
            out@ + chunks_from(kind, s, end as int, pos as int) == old(out)@ + chunks_from(
                kind,
                s,
                end as int,
                ini as int,
            ),
        decreases end - pos,
    {
        let e = match kind {
            ScanKind::Gpt2 => gpt2_match_at(cpts, end, pos),
            ScanKind::Llama3 => llama3_match_at(cpts, end, pos),
        };
        out.push(e - pos);
        proof {
            assert(chunks_from(kind, s, end as int, pos as int) == seq![(e - pos) as usize]
                + chunks_from(kind, s, end as int, e as int));
            assert(out@ + chunks_from(kind, s, end as int, e as int) =~= old(out)@ + chunks_from(
                kind,
                s,
                end as int,
                ini as int,
            ));
        }
        pos = e;
    }
    proof {
        assert(final(out)@ =~= old(out)@ + chunks_from(kind, s, end as int, ini as int));
    }
}

/// The chunk lengths over consecutive ranges of the given lengths,
/// starting at `start`.
pub open spec fn split_ranges(kind: ScanKind, s: Seq<char>, offsets: Seq<usize>, start: int) ->
    Seq<usize>
    decreases offsets.len(),
{
    if offsets.len() == 0 {
        Seq::empty()
    } else {
        chunks_from(kind, s, start + offsets[0], start) + split_ranges(
            kind,
            s,
            offsets.drop_first(),
            start + offsets[0],
        )
    }
}

/// Sums are never negative.
pub proof fn lemma_sum_nonneg(s: Seq<usize>)
    ensures
        sum_usize(s) >= 0,
    decreases s.len(),
{
    if s.len() > 0 {
        lemma_sum_nonneg(s.drop_first());
    }
}

/// Splitting ranges that fit in the text yields positive chunk lengths
/// with the same total as the ranges.
pub proof fn lemma_split_ranges_partition(
    kind: ScanKind,
    s: Seq<char>,
    offsets: Seq<usize>,
    start: int,
)
    requires
        0 <= start,
        start + sum_usize(offsets) <= s.len(),
        s.len() <= usize::MAX,
    ensures
        sum_usize(split_ranges(kind, s, offsets, start)) == sum_usize(offsets),
        forall|i: int|
            0 <= i < split_ranges(kind, s, offsets, start).len() ==> split_ranges(
                kind,
                s,
                offsets,
                start,
            )[i] >= 1,
    decreases offsets.len(),
{
    if offsets.len() > 0 {
        let end0 = start + offsets[0];
        lemma_sum_nonneg(offsets.drop_first());
        lemma_chunks_partition(kind, s, end0, start);
        lemma_split_ranges_partition(kind, s, offsets.drop_first(), end0);
        let head = chunks_from(kind, s, end0, start);
        let tail = split_ranges(kind, s, offsets.drop_first(), end0);
        let whole = split_ranges(kind, s, offsets, start);
        assert(whole == head + tail);
        lemma_sum_concat(head, tail);
        assert forall|i: int| 0 <= i < whole.len() implies whole[i] >= 1 by {
            if i < head.len() {
                assert(whole[i] == head[i]);
            } else {
                assert(whole[i] == tail[i - head.len()]);
            }
        }
    }
}

/// Sums add over concatenation.
pub proof fn lemma_sum_concat(a: Seq<usize>, b: Seq<usize>)
    ensures
        sum_usize(a + b) == sum_usize(a) + sum_usize(b),
    decreases a.len(),
{
    if a.len() == 0 {
        assert(a + b =~= b);
    } else {
        lemma_sum_concat(a.drop_first(), b);
        assert((a + b).drop_first() =~= a.drop_first() + b);
    }
}

/// Splits each given range of the text with the GPT-2 scanner; the result
/// lengths partition the same text.
pub fn unicode_regex_split_custom_gpt2(cpts: &[char], offsets: &[usize]) -> (r: Vec<usize>)
    requires
        sum_usize(offsets@) == cpts@.len(),
    ensures
        r@ == split_ranges(ScanKind::Gpt2, cpts@, offsets@, 0),
        sum_usize(r@) == cpts@.len(),
        forall|i: int| 0 <= i < r@.len() ==> r@[i] >= 1,
{
    split_with_scanner(ScanKind::Gpt2, cpts, offsets)
}

/// Splits each given range of the text with the Llama-3 scanner; the
/// result lengths partition the same text.
pub fn unicode_regex_split_custom_llama3(cpts: &[char], offsets: &[usize]) -> (r: Vec<usize>)
    requires
        sum_usize(offsets@) == cpts@.len(),
    ensures
        r@ == split_ranges(ScanKind::Llama3, cpts@, offsets@, 0),
        sum_usize(r@) == cpts@.len(),
        forall|i: int| 0 <= i < r@.len() ==> r@[i] >= 1,
{
    split_with_scanner(ScanKind::Llama3, cpts, offsets)
}

/// Runs one scanner over consecutive ranges of the text.
fn split_with_scanner(kind: ScanKind, cpts: &[char], offsets: &[usize]) -> (r: Vec<usize>)
    requires
        sum_usize(offsets@) == cpts@.len(),
    ensures
        r@ == split_ranges(kind, cpts@, offsets@, 0),
        sum_usize(r@) == cpts@.len(),
        forall|i: int| 0 <= i < r@.len() ==> r@[i] >= 1,
{
    let ghost s = cpts@;
    let n = offsets.len();
    let total = cpts.len();
    let mut out: Vec<usize> = Vec::new();
    let mut start: usize = 0;
    let mut i: usize = 0;
    proof {
        assert(offsets@.subrange(0, n as int) =~= offsets@);
    }
    while i < n
        invariant
            i <= n,
            n == offsets@.len(),
            s == cpts@,
            total == s.len(),
            start + sum_usize(offsets@.subrange(i as int, n as int)) == s.len(),
            sum_usize(offsets@) == s.len(),
            out@ + split_ranges(kind, s, offsets@.subrange(i as int, n as int), start as int)
                == split_ranges(kind, s, offsets@, 0),
        decreases n - i,
    {
        let ghost rest = offsets@.subrange(i as int, n as int);
        proof {
            lemma_sum_nonneg(rest.drop_first());
            assert(rest[0] == offsets@[i as int]);
            assert(sum_usize(rest) == rest[0] + sum_usize(rest.drop_first()));
        }
        let len = offsets[i];
        scan_range(kind, cpts, start, start + len, &mut out);
        proof {
            assert(rest.drop_first() =~= offsets@.subrange(i + 1, n as int));
        }
        start = start + len;
        i = i + 1;
    }
    proof {
        assert(offsets@.subrange(i as int, n as int) =~= Seq::<usize>::empty());
        assert(out@ + split_ranges(kind, s, offsets@.subrange(i as int, n as int), start as int)
            =~= out@);
        lemma_split_ranges_partition(kind, s, offsets@, 0);
    }
    out
}

/// The views of a sequence of strings.
pub open spec fn views_of(ws: Seq<String>) -> Seq<Seq<char>> {
    ws.map(|i: int, w: String| w@)
}

/// The concatenation of a sequence of texts.
pub open spec fn concat_chars(ws: Seq<Seq<char>>) -> Seq<char>
    decreases ws.len(),
{
    if ws.len() == 0 {
        Seq::empty()
    } else {
        ws[0] + concat_chars(ws.drop_first())
    }
}

/// The words cut out of the text by consecutive lengths, starting at
/// `start`.
pub open spec fn words_of(s: Seq<char>, lens: Seq<usize>, start: int) -> Seq<Seq<char>>
    decreases lens.len(),
{
    if lens.len() == 0 {
        Seq::empty()
    } else {
        seq![s.subrange(start, start + lens[0])] + words_of(s, lens.drop_first(), start + lens[0])
    }
}

/// Words cut by lengths that fit the text concatenate back to the piece
/// of the text they were cut from.
pub proof fn lemma_words_concat(s: Seq<char>, lens: Seq<usize>, start: int)
    requires
        0 <= start,
        start + sum_usize(lens) <= s.len(),
    ensures
        concat_chars(words_of(s, lens, start)) =~= s.subrange(start, start + sum_usize(lens)),
    decreases lens.len(),
{
    if lens.len() == 0 {
        assert(words_of(s, lens, start) =~= Seq::<Seq<char>>::empty());
    } else {
        lemma_sum_nonneg(lens.drop_first());
        lemma_words_concat(s, lens.drop_first(), start + lens[0]);
        let ws = words_of(s, lens, start);
        assert(ws.drop_first() =~= words_of(s, lens.drop_first(), start + lens[0]));
        assert(concat_chars(ws) =~= s.subrange(start, start + lens[0]) + s.subrange(
            start + lens[0],
            start + sum_usize(lens),
        ));
    }
}

/// Which custom scanner implements this pattern literally: the GPT-2
/// pattern, or one of the two spellings of the Llama-3 pattern.
pub open spec fn spec_custom_kind(e: Seq<char>) -> Option<ScanKind> {
    if e == "'s|'t|'re|'ve|'m|'ll|'d| ?\\p{L}+| ?\\p{N}+| ?[^\\s\\p{L}\\p{N}]+|\\s+(?!\\S)|\\s+"@
        || e == "'s|'t|'re|'ve|'m|'ll|'d| ?\\p{L}+| ?\\p{N}+| ?[^\\s\\p{L}\\p{N}]+|\\s+(?!\\S)"@ {
        Option::Some(ScanKind::Gpt2)
    } else if e
        == "(?i:'s|'t|'re|'ve|'m|'ll|'d)|[^\\r\\n\\p{L}\\p{N}]?\\p{L}+|\\p{N}{1,3}| ?[^\\s\\p{L}\\p{N}]+[\\r\\n]*|\\s*[\\r\\n]+|\\s+(?!\\S)|\\s+"@
        || e
        == "(?:'[sS]|'[tT]|'[rR][eE]|'[vV][eE]|'[mM]|'[lL][lL]|'[dD])|[^\\r\\n\\p{L}\\p{N}]?\\p{L}+|\\p{N}{1,3}| ?[^\\s\\p{L}\\p{N}]+[\\r\\n]*|\\s*[\\r\\n]+|\\s+(?!\\S)|\\s+"@ {
        Option::Some(ScanKind::Llama3)
    } else {
        Option::None
    }
}

/// Decides which custom scanner, if any, handles the pattern.
pub fn custom_kind(expr: &String) -> (r: Option<ScanKind>)
    ensures
        r == spec_custom_kind(expr@),
{
    let g: String =
        "'s|'t|'re|'ve|'m|'ll|'d| ?\\p{L}+| ?\\p{N}+| ?[^\\s\\p{L}\\p{N}]+|\\s+(?!\\S)|\\s+".to_owned();
    if *expr == g {
        return Some(ScanKind::Gpt2);
    }
    let g2: String =
        "'s|'t|'re|'ve|'m|'ll|'d| ?\\p{L}+| ?\\p{N}+| ?[^\\s\\p{L}\\p{N}]+|\\s+(?!\\S)".to_owned();
    if *expr == g2 {
        return Some(ScanKind::Gpt2);
    }
    let l1: String =
        "(?i:'s|'t|'re|'ve|'m|'ll|'d)|[^\\r\\n\\p{L}\\p{N}]?\\p{L}+|\\p{N}{1,3}| ?[^\\s\\p{L}\\p{N}]+[\\r\\n]*|\\s*[\\r\\n]+|\\s+(?!\\S)|\\s+".to_owned();
    if *expr == l1 {
        return Some(ScanKind::Llama3);
    }
    let l2: String =
        "(?:'[sS]|'[tT]|'[rR][eE]|'[vV][eE]|'[mM]|'[lL][lL]|'[dD])|[^\\r\\n\\p{L}\\p{N}]?\\p{L}+|\\p{N}{1,3}| ?[^\\s\\p{L}\\p{N}]+[\\r\\n]*|\\s*[\\r\\n]+|\\s+(?!\\S)|\\s+".to_owned();
    if *expr == l2 {
        return Some(ScanKind::Llama3);
    }
    None
}

/// Every pattern is one of the custom fast paths.
pub open spec fn all_custom(exprs: Seq<Seq<char>>) -> bool {
    forall|i: int| 0 <= i < exprs.len() ==> (#[trigger] spec_custom_kind(exprs[i])) is Some
}

/// The chunk lengths after applying the patterns from position `k` on to
/// the given lengths (meaningful when every pattern is a custom one).
pub open spec fn spec_split_lens(s: Seq<char>, exprs: Seq<Seq<char>>, k: int, lens: Seq<usize>) -> Seq<
    usize,
>
    decreases exprs.len() - k,
{
    if k < 0 || k >= exprs.len() {
        lens
    } else {
        let lens2 = match spec_custom_kind(exprs[k]) {
            Option::Some(kind) => split_ranges(kind, s, lens, 0),
            Option::None => lens,
        };
        spec_split_lens(s, exprs, k + 1, lens2)
    }
}

/// The words the pretokenizer produces for the text under the given
/// patterns, when they all have custom scanners.
pub open spec fn spec_unicode_split(s: Seq<char>, exprs: Seq<Seq<char>>) -> Seq<Seq<char>> {
    words_of(s, spec_split_lens(s, exprs, 0, seq![s.len() as usize]), 0)
}

/// The chunk lengths after applying every pattern from position `k` on,
/// custom scanners and the outside fallback alike: None as soon as the
/// fallback rejects one pattern.
pub open spec fn spec_split_lens_full(
    s: Seq<char>,
    exprs: Seq<Seq<char>>,
    k: int,
    lens: Seq<usize>,
) -> Option<Seq<usize>>
    decreases exprs.len() - k,
{
    if k < 0 || k >= exprs.len() {
        Option::Some(lens)
    } else {
        match spec_custom_kind(exprs[k]) {
            Option::Some(kind) => spec_split_lens_full(
                s,
                exprs,
                k + 1,
                split_ranges(kind, s, lens, 0),
            ),
            Option::None => match crate::regex_fallback::spec_fallback_split(s, exprs[k], lens) {
                Option::Some(l2) => spec_split_lens_full(s, exprs, k + 1, l2),
                Option::None => Option::None,
            },
        }
    }
}

/// Cuts the text into the words given by consecutive lengths.
fn build_words(cpts: &Vec<char>, lens: &Vec<usize>) -> (r: Vec<String>)
    requires
        sum_usize(lens@) == cpts@.len(),
    ensures
        views_of(r@) == words_of(cpts@, lens@, 0),
{
    let ghost s = cpts@;
    let n = lens.len();
    let total = cpts.len();
    let mut out: Vec<String> = Vec::new();
    let mut start: usize = 0;
    let mut i: usize = 0;
    proof {
        assert(lens@.subrange(0, n as int) =~= lens@);
        assert(views_of(out@) =~= Seq::<Seq<char>>::empty());
    }
    while i < n
        invariant
            i <= n,
            n == lens@.len(),
            s == cpts@,
            total == s.len(),
            start + sum_usize(lens@.subrange(i as int, n as int)) == total,
            words_of(s, lens@, 0) == views_of(out@) + words_of(
                s,
                lens@.subrange(i as int, n as int),
                start as int,
            ),
        decreases n - i,
    {
        let ghost rest = lens@.subrange(i as int, n as int);
        proof {
            lemma_sum_nonneg(rest.drop_first());
            assert(rest[0] == lens@[i as int]);
            assert(sum_usize(rest) == rest[0] + sum_usize(rest.drop_first()));
            assert(rest.drop_first() =~= lens@.subrange(i + 1, n as int));
        }
        let len = lens[i];
        let piece = crate::fragment::copy_range(cpts, start, len);
        let w = crate::unicode::chars_to_string(piece.as_slice());
        let ghost ob = out@;
        out.push(w);
        proof {
            assert(views_of(out@) =~= views_of(ob).push(w@));
            assert(words_of(s, rest, start as int) == seq![s.subrange(
                start as int,
                start + rest[0],
            )] + words_of(s, rest.drop_first(), start + rest[0]));
            assert(views_of(out@) + words_of(s, rest.drop_first(), start + rest[0]) =~= views_of(
                ob,
            ) + words_of(s, rest, start as int));
        }
        start = start + len;
        i = i + 1;
    }
    proof {
        assert(lens@.subrange(i as int, n as int) =~= Seq::<usize>::empty());
        assert(words_of(s, lens@.subrange(i as int, n as int), start as int) =~= Seq::<
            Seq<char>,
        >::empty());
        assert(views_of(out@) + Seq::<Seq<char>>::empty() =~= views_of(out@));
        assert(views_of(out@) =~= words_of(s, lens@, 0));
    }
    out
}

/// Splits raw text into pretokenized word chunks under the given patterns,
/// applied in order: the two hand-rolled scanners for their literal
/// patterns, the outside regex engine for anything else. It succeeds
/// exactly when every pattern is handled (a custom scanner, or a fallback
/// pass the engine accepts), the words always concatenate back to the
/// input, and the result is pinned to the pattern chain.
pub fn unicode_regex_split(text: &str, regex_exprs: &[String]) -> (r: Result<
    Vec<String>,
    crate::vocab::TokenizerError,
>)
    requires
        text@.len() * 4 <= usize::MAX,
    ensures
        r is Ok <==> spec_split_lens_full(
            text@,
            views_of(regex_exprs@),
            0,
            seq![text@.len() as usize],
        ) is Some,
        r is Ok ==> views_of((r->Ok_0)@) == words_of(
            text@,
            spec_split_lens_full(text@, views_of(regex_exprs@), 0, seq![text@.len() as usize])->0,
            0,
        ),
        r is Ok ==> concat_chars(views_of((r->Ok_0)@)) == text@,
        all_custom(views_of(regex_exprs@)) ==> r is Ok && views_of((r->Ok_0)@)
            == spec_unicode_split(text@, views_of(regex_exprs@)),
        r is Err ==> r->Err_0 == crate::vocab::TokenizerError::MalformedVocabulary,
{
    let ghost s = text@;
    let cpts = crate::unicode::str_to_chars(text);
    let mut lens: Vec<usize> = Vec::new();
    lens.push(cpts.len());
    proof {
        assert(lens@ =~= seq![s.len() as usize]);
        assert(lens@.drop_first() =~= Seq::<usize>::empty());
        assert(sum_usize(lens@.drop_first()) == 0);
        assert(sum_usize(lens@) == s.len());
    }
    let n = regex_exprs.len();
    let mut k: usize = 0;
    while k < n
        invariant
            k <= n,
            n == regex_exprs@.len(),
            s == cpts@,
            s == text@,
            s.len() * 4 <= usize::MAX,
            sum_usize(lens@) == s.len(),
            all_custom(views_of(regex_exprs@)) ==> spec_split_lens(
                s,
                views_of(regex_exprs@),
                k as int,
                lens@,
            ) == spec_split_lens(s, views_of(regex_exprs@), 0, seq![s.len() as usize]),
            spec_split_lens_full(s, views_of(regex_exprs@), k as int, lens@)
                == spec_split_lens_full(s, views_of(regex_exprs@), 0, seq![s.len() as usize]),
        decreases n - k,
    {
        let ghost before = lens@;
        proof {
            assert(views_of(regex_exprs@)[k as int] == regex_exprs@[k as int]@);
        }
        match custom_kind(&regex_exprs[k]) {
            Option::Some(ScanKind::Gpt2) => {
                lens = unicode_regex_split_custom_gpt2(cpts.as_slice(), lens.as_slice());
            }
            Option::Some(ScanKind::Llama3) => {
                lens = unicode_regex_split_custom_llama3(cpts.as_slice(), lens.as_slice());
            }
            Option::None => {
                proof {
                    if all_custom(views_of(regex_exprs@)) {
                        assert(spec_custom_kind(views_of(regex_exprs@)[k as int]) is Some);
                    }
                }
                match crate::regex_fallback::regex_fallback_split(&cpts, &regex_exprs[k], &lens) {
                    Option::Some(l2) => {
                        lens = l2;
                    }
                    Option::None => {
                        proof {
                            assert(spec_split_lens_full(s, views_of(regex_exprs@), k as int, before)
                                is None);
                        }
                        return Err(crate::vocab::TokenizerError::MalformedVocabulary);
                    }
                }
            }
        }
        k = k + 1;
    }
    proof {
        assert(spec_split_lens_full(s, views_of(regex_exprs@), k as int, lens@)
            == Option::<Seq<usize>>::Some(lens@));
    }
    let words = build_words(&cpts, &lens);
    proof {
        lemma_words_concat(s, lens@, 0);
        assert(s.subrange(0, s.len() as int) =~= s);
    }
    Ok(words)
}

/// Concatenation of texts distributes over concatenation of lists.
pub proof fn lemma_concat_chars_concat(a: Seq<Seq<char>>, b: Seq<Seq<char>>)
    ensures
        concat_chars(a + b) == concat_chars(a) + concat_chars(b),
    decreases a.len(),
{
    if a.len() == 0 {
        assert(a + b =~= b);
        assert(concat_chars(a) + concat_chars(b) =~= concat_chars(b));
    } else {
        lemma_concat_chars_concat(a.drop_first(), b);
        assert((a + b).drop_first() =~= a.drop_first() + b);
        assert((a + b)[0] == a[0]);
        assert(concat_chars(a + b) =~= concat_chars(a) + concat_chars(b));
    }
}

/// No element exceeds the sum.
pub proof fn lemma_sum_element_le(lens: Seq<usize>, i: int)
    requires
        0 <= i < lens.len(),
    ensures
        lens[i] <= sum_usize(lens),
    decreases lens.len(),
{
    lemma_sum_nonneg(lens.drop_first());
    if i == 0 {
    } else {
        lemma_sum_element_le(lens.drop_first(), i - 1);
    }
}

/// Words cut by lengths have exactly those lengths.
pub proof fn lemma_words_of_lens(s: Seq<char>, lens: Seq<usize>, start: int, i: int)
    requires
        0 <= start,
        start + sum_usize(lens) <= s.len(),
        0 <= i < lens.len(),
    ensures
        words_of(s, lens, start).len() == lens.len(),
        words_of(s, lens, start)[i].len() == lens[i],
    decreases lens.len(),
{
    lemma_sum_nonneg(lens.drop_first());
    lemma_words_of_len(s, lens, start);
    if i > 0 {
        lemma_words_of_lens(s, lens.drop_first(), start + lens[0], i - 1);
    }
}

/// The word list is as long as the length list.
pub proof fn lemma_words_of_len(s: Seq<char>, lens: Seq<usize>, start: int)
    ensures
        words_of(s, lens, start).len() == lens.len(),
    decreases lens.len(),
{
    if lens.len() > 0 {
        lemma_words_of_len(s, lens.drop_first(), start + lens[0]);
    }
}

/// Applying custom passes keeps the total length.
pub proof fn lemma_split_lens_sum(s: Seq<char>, exprs: Seq<Seq<char>>, k: int, lens: Seq<usize>)
    requires
        all_custom(exprs),
        sum_usize(lens) == s.len(),
        s.len() <= usize::MAX,
    ensures
        sum_usize(spec_split_lens(s, exprs, k, lens)) == s.len(),
    decreases exprs.len() - k,
{
    if 0 <= k < exprs.len() {
        assert(spec_custom_kind(exprs[k]) is Some);
        let kind = spec_custom_kind(exprs[k])->0;
        lemma_split_ranges_partition(kind, s, lens, 0);
        lemma_split_lens_sum(s, exprs, k + 1, split_ranges(kind, s, lens, 0));
    }
}

/// Pretokenization coverage at the specification level: under the custom
/// fast-path patterns, the words concatenate back to the text.
pub proof fn lemma_unicode_split_coverage(s: Seq<char>, exprs: Seq<Seq<char>>)
    requires
        all_custom(exprs),
        s.len() <= usize::MAX,
    ensures
        concat_chars(spec_unicode_split(s, exprs)) == s,
        forall|i: int|
            0 <= i < spec_unicode_split(s, exprs).len() ==> (#[trigger] spec_unicode_split(
                s,
                exprs,
            )[i]).len() <= s.len(),
{
    let lens0: Seq<usize> = seq![s.len() as usize];
    assert(lens0.drop_first() =~= Seq::<usize>::empty());
    assert(sum_usize(lens0.drop_first()) == 0);
    assert(sum_usize(lens0) == s.len());
    lemma_split_lens_sum(s, exprs, 0, lens0);
    let lens = spec_split_lens(s, exprs, 0, lens0);
    lemma_words_concat(s, lens, 0);
    assert(s.subrange(0, sum_usize(lens) as int) =~= s);
    assert forall|i: int|
        0 <= i < spec_unicode_split(s, exprs).len() implies (#[trigger] spec_unicode_split(
        s,
        exprs,
    )[i]).len() <= s.len() by {
        lemma_words_of_len(s, lens, 0);
        lemma_words_of_lens(s, lens, 0, i);
        lemma_sum_element_le(lens, i);
    }
}

} // verus!
