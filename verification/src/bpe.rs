//! The byte-level BPE session: a symbol chain over each pretokenized word,
//! a rank-ordered bigram queue with lazy staleness detection, and the
//! final vocabulary lookup with byte fallback.

use vstd::prelude::*;
use crate::vocab::{spec_bpe_byte_text, TokenizerConfig, TokenizerError, NULL};
use crate::pretokenizer::{all_custom, spec_unicode_split, unicode_regex_split, views_of};
use crate::unicode::{chars_to_string, str_to_chars, unicode_byte_to_utf8};
use vstd::string::StrSliceExecFns;

verus! {

/// The null link of the symbol chain.
pub const NONE_IDX: usize = usize::MAX;

/// One symbol of the intrusive chain: a span of the word's codepoints,
/// with previous and next links; a zero length marks a merged-away symbol.
#[derive(Clone, Copy, PartialEq, Eq, Structural)]
pub struct LlmSymbol {
    pub prev: usize,
    pub next: usize,
    pub start: usize,
    pub len: usize,
}

/// One queued merge candidate: the two symbol indices, the span of the
/// concatenation at enqueue time, and the merge rank (lower merges first).
#[derive(Clone, Copy, PartialEq, Eq, Structural)]
pub struct LlmBigramBpe {
    pub left: usize,
    pub right: usize,
    pub start: usize,
    pub size: usize,
    pub rank: i32,
}

/// The text a symbol spans.
pub open spec fn sym_text(s: Seq<char>, sym: LlmSymbol) -> Seq<char> {
    s.subrange(sym.start as int, sym.start + sym.len)
}

/// Every span fits the word and every link is null or in range.
pub open spec fn syms_wf(syms: Seq<LlmSymbol>, wlen: int) -> bool {
    forall|i: int|
        0 <= i < syms.len() ==> {
            &&& (#[trigger] syms[i]).start + syms[i].len <= wlen
            &&& (syms[i].prev == NONE_IDX || syms[i].prev < syms.len())
            &&& (syms[i].next == NONE_IDX || syms[i].next < syms.len())
        }
}

/// Every queued bigram's symbol indices are in range.
pub open spec fn queue_wf(q: Seq<LlmBigramBpe>, n_syms: int) -> bool {
    forall|i: int|
        0 <= i < q.len() ==> (#[trigger] q[i]).left < n_syms && q[i].right < n_syms
}

/// The initial chain: one symbol per codepoint, linked in order.
pub open spec fn init_symbols(n: int) -> Seq<LlmSymbol> {
    Seq::new(
        n as nat,
        |i: int|
            LlmSymbol {
                prev: if i == 0 {
                    NONE_IDX
                } else {
                    (i - 1) as usize
                },
                next: if i == n - 1 {
                    NONE_IDX
                } else {
                    (i + 1) as usize
                },
                start: i as usize,
                len: 1,
            },
    )
}

/// The merge candidate for the symbols at `li` and `ri`, when both links
/// are set and the pair's concatenation has a merge rank.
pub open spec fn maybe_bigram(
    vocab: TokenizerConfig,
    s: Seq<char>,
    syms: Seq<LlmSymbol>,
    li: usize,
    ri: usize,
) -> Seq<LlmBigramBpe> {
    if li == NONE_IDX || ri == NONE_IDX || li >= syms.len() || ri >= syms.len() {
        Seq::empty()
    } else {
        let ls = syms[li as int];
        let rs = syms[ri as int];
        if ls.start + ls.len <= s.len() && rs.start + rs.len <= s.len() && ls.len + rs.len
            <= usize::MAX {
            let rank = vocab.spec_find_bpe_rank(sym_text(s, ls), sym_text(s, rs));
            if rank < 0 {
                Seq::empty()
            } else {
                seq![
                    LlmBigramBpe {
                        left: li,
                        right: ri,
                        start: ls.start,
                        size: (ls.len + rs.len) as usize,
                        rank: rank as i32,
                    },
                ]
            }
        } else {
            Seq::empty()
        }
    }
}

/// The initial queue: the candidates of all adjacent pairs, in order.
pub open spec fn seed_queue(
    vocab: TokenizerConfig,
    s: Seq<char>,
    syms: Seq<LlmSymbol>,
    i: int,
) -> Seq<LlmBigramBpe>
    decreases syms.len() - i,
{
    if i < 1 || i >= syms.len() {
        Seq::empty()
    } else {
        maybe_bigram(vocab, s, syms, (i - 1) as usize, i as usize) + seed_queue(vocab, s, syms, i + 1)
    }
}

/// Strict priority: `a` is merged before `b` when its rank is lower, with
/// ties broken by the smaller left index.
pub open spec fn bpe_better(a: LlmBigramBpe, b: LlmBigramBpe) -> bool {
    a.rank < b.rank || (a.rank == b.rank && a.left < b.left)
}

/// Index of the best bigram among the first `n`: the first one that no
/// later one strictly beats.
pub open spec fn best_upto(q: Seq<LlmBigramBpe>, n: int) -> int
    decreases n,
{
    if n <= 1 {
        0
    } else {
        let r = best_upto(q, n - 1);
        if bpe_better(q[n - 1], q[r]) {
            n - 1
        } else {
            r
        }
    }
}

/// The best index lies in range and no entry strictly beats it.
pub proof fn lemma_best_upto(q: Seq<LlmBigramBpe>, n: int)
    requires
        1 <= n <= q.len(),
    ensures
        0 <= best_upto(q, n) < n,
        forall|i: int| 0 <= i < n ==> !bpe_better(q[i], q[best_upto(q, n)]),
    decreases n,
{
    if n > 1 {
        lemma_best_upto(q, n - 1);
        assert forall|i: int| 0 <= i < n implies !bpe_better(q[i], q[best_upto(q, n)]) by {
            let r = best_upto(q, n - 1);
            if bpe_better(q[n - 1], q[r]) {
                if bpe_better(q[i], q[n - 1]) {
                    assert(!bpe_better(q[i], q[r]));
                }
            }
        }
    }
}

/// Whether a popped bigram is still current: both endpoints alive, and
/// their texts still concatenating to the recorded span.
pub open spec fn bigram_live(s: Seq<char>, syms: Seq<LlmSymbol>, b: LlmBigramBpe) -> bool {
    &&& b.left < syms.len()
    &&& b.right < syms.len()
    &&& {
        let ls = syms[b.left as int];
        let rs = syms[b.right as int];
        &&& ls.len > 0
        &&& rs.len > 0
        &&& ls.start == b.start
        &&& ls.len + rs.len == b.size
        &&& ls.start + ls.len <= s.len()
        &&& rs.start + rs.len <= s.len()
        &&& b.start + b.size <= s.len()
        &&& sym_text(s, ls) + sym_text(s, rs) == s.subrange(b.start as int, b.start + b.size)
    }
}

/// Number of symbols still alive.
pub open spec fn live_count(syms: Seq<LlmSymbol>) -> int
    decreases syms.len(),
{
    if syms.len() == 0 {
        0
    } else {
        (if syms[0].len > 0 {
            1int
        } else {
            0int
        }) + live_count(syms.drop_first())
    }
}

/// The live count never goes negative.
pub proof fn lemma_live_count_nonneg(syms: Seq<LlmSymbol>)
    ensures
        live_count(syms) >= 0,
    decreases syms.len(),
{
    if syms.len() > 0 {
        lemma_live_count_nonneg(syms.drop_first());
    }
}

/// Updating one symbol changes the live count exactly by the liveness
/// difference of that entry.
pub proof fn lemma_live_count_update(syms: Seq<LlmSymbol>, i: int, v: LlmSymbol)
    requires
        0 <= i < syms.len(),
    ensures
        live_count(syms.update(i, v)) == live_count(syms) + (if v.len > 0 {
            1int
        } else {
            0int
        }) - (if syms[i].len > 0 {
            1int
        } else {
            0int
        }),
    decreases syms.len(),
{
    let up = syms.update(i, v);
    if i == 0 {
        assert(up.drop_first() =~= syms.drop_first());
    } else {
        assert(up.drop_first() =~= syms.drop_first().update(i - 1, v));
        lemma_live_count_update(syms.drop_first(), i - 1, v);
    }
}

/// The state after one merge: the symbol at `left` absorbs the combined
/// span, the one at `right` is tombstoned and spliced out.
pub open spec fn merge_state(syms: Seq<LlmSymbol>, left: usize, right: usize, size: usize) -> Seq<
    LlmSymbol,
> {
    let ls = syms[left as int];
    let rs = syms[right as int];
    let merged = LlmSymbol { prev: ls.prev, next: rs.next, start: ls.start, len: size };
    let dead = LlmSymbol { prev: rs.prev, next: rs.next, start: rs.start, len: 0 };
    let syms1 = syms.update(left as int, merged).update(right as int, dead);
    if rs.next != NONE_IDX && rs.next < syms.len() {
        let ns = syms1[rs.next as int];
        syms1.update(
            rs.next as int,
            LlmSymbol { prev: left, next: ns.next, start: ns.start, len: ns.len },
        )
    } else {
        syms1
    }
}

/// The symbols left when the merge loop has drained the queue: repeatedly
/// pop the best candidate, skip it when stale, otherwise merge and enqueue
/// the two new neighbor candidates.
pub open spec fn bpe_run(
    vocab: TokenizerConfig,
    s: Seq<char>,
    syms: Seq<LlmSymbol>,
    q: Seq<LlmBigramBpe>,
) -> Seq<LlmSymbol>
    decreases live_count(syms), q.len()
    via bpe_run_dec
{
    if q.len() == 0 {
        syms
    } else {
        let bi = best_upto(q, q.len() as int);
        if !(0 <= bi < q.len()) {
            syms
        } else {
            let b = q[bi];
            let q1 = q.remove(bi);
            if !bigram_live(s, syms, b) {
                bpe_run(vocab, s, syms, q1)
            } else {
                let syms2 = merge_state(syms, b.left, b.right, b.size);
                let merged = syms2[b.left as int];
                let q2 = q1 + maybe_bigram(vocab, s, syms2, merged.prev, b.left) + maybe_bigram(
                    vocab,
                    s,
                    syms2,
                    b.left,
                    merged.next,
                );
                bpe_run(vocab, s, syms2, q2)
            }
        }
    }
}

#[via_fn]
proof fn bpe_run_dec(
    vocab: TokenizerConfig,
    s: Seq<char>,
    syms: Seq<LlmSymbol>,
    q: Seq<LlmBigramBpe>,
) {
    lemma_live_count_nonneg(syms);
    if q.len() > 0 {
        let bi = best_upto(q, q.len() as int);
        if 0 <= bi < q.len() {
            let b = q[bi];
            if bigram_live(s, syms, b) {
                lemma_merge_live_count(syms, b.left, b.right, b.size);
                lemma_live_count_nonneg(merge_state(syms, b.left, b.right, b.size));
            }
        }
    }
}

/// Merging two live symbols reduces the live count by exactly one.
pub proof fn lemma_merge_live_count(syms: Seq<LlmSymbol>, left: usize, right: usize, size: usize)
    requires
        left < syms.len(),
        right < syms.len(),
        syms[left as int].len > 0,
        syms[right as int].len > 0,
        size > 0,
    ensures
        live_count(merge_state(syms, left, right, size)) == live_count(syms) - 1,
{
    let ls = syms[left as int];
    let rs = syms[right as int];
    let merged = LlmSymbol { prev: ls.prev, next: rs.next, start: ls.start, len: size };
    let dead = LlmSymbol { prev: rs.prev, next: rs.next, start: rs.start, len: 0 };
    let syms1 = syms.update(left as int, merged);
    lemma_live_count_update(syms, left as int, merged);
    let syms2 = syms1.update(right as int, dead);
    lemma_live_count_update(syms1, right as int, dead);
    if rs.next != NONE_IDX && rs.next < syms.len() {
        let ns = syms2[rs.next as int];
        let nv = LlmSymbol { prev: left, next: ns.next, start: ns.start, len: ns.len };
        lemma_live_count_update(syms2, rs.next as int, nv);
    }
}

/// First index at or after `i` whose symbol is alive (the length of the
/// sequence when none is).
pub open spec fn first_live(syms: Seq<LlmSymbol>, i: int) -> int
    decreases syms.len() - i,
{
    if i < 0 || i >= syms.len() {
        syms.len() as int
    } else if syms[i].len > 0 {
        i
    } else {
        first_live(syms, i + 1)
    }
}

/// The token ids emitted for a sequence of bytes under BPE byte fallback:
/// one id per byte whose mapped text is in the vocabulary, misses skipped.
pub open spec fn fallback_bytes(vocab: TokenizerConfig, bytes: Seq<u8>) -> Seq<u32>
    decreases bytes.len(),
{
    if bytes.len() == 0 {
        Seq::empty()
    } else {
        (if vocab.spec_has_text(spec_bpe_byte_text(bytes[0])) {
            seq![vocab.spec_id_of(spec_bpe_byte_text(bytes[0])) as u32]
        } else {
            Seq::<u32>::empty()
        }) + fallback_bytes(vocab, bytes.drop_first())
    }
}

/// The ids one surviving symbol contributes: its own id on a vocabulary
/// hit, otherwise byte fallback over its UTF-8 bytes.
pub open spec fn emit_symbol(vocab: TokenizerConfig, s: Seq<char>, sym: LlmSymbol) -> Seq<u32> {
    let t = sym_text(s, sym);
    if vocab.spec_has_text(t) {
        seq![vocab.spec_id_of(t) as u32]
    } else {
        fallback_bytes(vocab, vstd::utf8::encode_utf8(t))
    }
}

/// The ids of the chain walked from `i` along the next links, with at most
/// `fuel` steps.
pub open spec fn walk_emit(
    vocab: TokenizerConfig,
    s: Seq<char>,
    syms: Seq<LlmSymbol>,
    i: int,
    fuel: nat,
) -> Seq<u32>
    decreases fuel,
{
    if fuel == 0 || i < 0 || i >= syms.len() {
        Seq::empty()
    } else {
        emit_symbol(vocab, s, syms[i]) + walk_emit(
            vocab,
            s,
            syms,
            syms[i].next as int,
            (fuel - 1) as nat,
        )
    }
}

/// The ids the BPE session emits for one pretokenized word.
pub open spec fn spec_bpe_word(vocab: TokenizerConfig, w: Seq<char>) -> Seq<u32> {
    if vocab.ignore_merges && vocab.spec_has_text(w) {
        seq![vocab.spec_id_of(w) as u32]
    } else {
        let syms = init_symbols(w.len() as int);
        let q = seed_queue(vocab, w, syms, 1);
        let fin = bpe_run(vocab, w, syms, q);
        walk_emit(vocab, w, fin, first_live(fin, 0), fin.len())
    }
}

/// The ids the BPE session emits for a sequence of words.
pub open spec fn spec_bpe_words(vocab: TokenizerConfig, ws: Seq<Seq<char>>) -> Seq<u32>
    decreases ws.len(),
{
    if ws.len() == 0 {
        Seq::empty()
    } else {
        spec_bpe_word(vocab, ws[0]) + spec_bpe_words(vocab, ws.drop_first())
    }
}

/// The ids the BPE session emits for a raw text under the given patterns
/// (exact when every pattern has a custom scanner).
pub open spec fn spec_bpe_tokenize(
    vocab: TokenizerConfig,
    s: Seq<char>,
    exprs: Seq<Seq<char>>,
) -> Seq<u32> {
    spec_bpe_words(vocab, spec_unicode_split(s, exprs))
}

/// Every seeded candidate's indices are in range.
pub proof fn lemma_seed_queue_wf(
    vocab: TokenizerConfig,
    s: Seq<char>,
    syms: Seq<LlmSymbol>,
    i: int,
)
    ensures
        queue_wf(seed_queue(vocab, s, syms, i), syms.len() as int),
    decreases syms.len() - i,
{
    if i >= 1 && i < syms.len() {
        lemma_seed_queue_wf(vocab, s, syms, i + 1);
        let head = maybe_bigram(vocab, s, syms, (i - 1) as usize, i as usize);
        let tail = seed_queue(vocab, s, syms, i + 1);
        let whole = seed_queue(vocab, s, syms, i);
        assert forall|j: int| 0 <= j < whole.len() implies (#[trigger] whole[j]).left
            < syms.len() && whole[j].right < syms.len() by {
            if j < head.len() {
                assert(whole[j] == head[j]);
            } else {
                assert(whole[j] == tail[j - head.len()]);
            }
        }
    }
}

/// The initial chain over `n` codepoints.
pub(crate) fn exec_init_symbols(n: usize) -> (r: Vec<LlmSymbol>)
    ensures
        r@ == init_symbols(n as int),
        r@.len() == n,
{
    let mut r: Vec<LlmSymbol> = Vec::new();
    let mut i: usize = 0;
    while i < n
        invariant
            i <= n,
            r@.len() == i,
            forall|j: int| 0 <= j < i ==> r@[j] == init_symbols(n as int)[j],
        decreases n - i,
    {
        let prev: usize = if i == 0 {
            NONE_IDX
        } else {
            i - 1
        };
        let next: usize = if i == n - 1 {
            NONE_IDX
        } else {
            i + 1
        };
        r.push(LlmSymbol { prev, next, start: i, len: 1 });
        i = i + 1;
    }
    proof {
        assert(r@ =~= init_symbols(n as int));
    }
    r
}

/// Appends the merge candidate for the symbols at `li` and `ri`, when both
/// links are set and the pair has a merge rank.
fn exec_maybe_bigram(
    vocab: &TokenizerConfig,
    w: &Vec<char>,
    syms: &Vec<LlmSymbol>,
    li: usize,
    ri: usize,
    queue: &mut Vec<LlmBigramBpe>,
)
    requires
        vocab.well_formed(),
    ensures
        final(queue)@ == old(queue)@ + maybe_bigram(*vocab, w@, syms@, li, ri),
{
    let n = syms.len();
    let wn = w.len();
    if li == NONE_IDX || ri == NONE_IDX || li >= n || ri >= n {
        proof {
            assert(queue@ =~= old(queue)@ + maybe_bigram(*vocab, w@, syms@, li, ri));
        }
        return;
    }
    let ls = syms[li];
    let rs = syms[ri];
    if !(ls.start <= wn && ls.len <= wn - ls.start && rs.start <= wn && rs.len <= wn - rs.start
        && ls.len <= usize::MAX - rs.len) {
        proof {
            assert(queue@ =~= old(queue)@ + maybe_bigram(*vocab, w@, syms@, li, ri));
        }
        return;
    }
    let lt = chars_to_string(crate::fragment::copy_range(w, ls.start, ls.len).as_slice());
    let rt = chars_to_string(crate::fragment::copy_range(w, rs.start, rs.len).as_slice());
    let rank = vocab.find_bpe_rank(lt.as_str(), rt.as_str());
    if rank < 0 {
        proof {
            assert(queue@ =~= old(queue)@ + maybe_bigram(*vocab, w@, syms@, li, ri));
        }
        return;
    }
    let ghost ob = queue@;
    queue.push(
        LlmBigramBpe { left: li, right: ri, start: ls.start, size: ls.len + rs.len, rank },
    );
    proof {
        assert(queue@ =~= ob + maybe_bigram(*vocab, w@, syms@, li, ri));
    }
}

/// The initial queue of all adjacent-pair candidates.
fn exec_seed_queue(vocab: &TokenizerConfig, w: &Vec<char>, syms: &Vec<LlmSymbol>) -> (r: Vec<
    LlmBigramBpe,
>)
    requires
        vocab.well_formed(),
    ensures
        r@ == seed_queue(*vocab, w@, syms@, 1),
{
    let n = syms.len();
    let mut q: Vec<LlmBigramBpe> = Vec::new();
    let mut i: usize = 1;
    proof {
        if n < 1 {
            assert(seed_queue(*vocab, w@, syms@, 1) =~= Seq::<LlmBigramBpe>::empty());
        }
    }
    while i < n
        invariant
            1 <= i,
            i <= n || n <= 1,
            n == syms@.len(),
            vocab.well_formed(),
            seed_queue(*vocab, w@, syms@, 1) == q@ + seed_queue(*vocab, w@, syms@, i as int),
        decreases n - i,
    {
        exec_maybe_bigram(vocab, w, syms, i - 1, i, &mut q);
        proof {
            assert(seed_queue(*vocab, w@, syms@, i as int) == maybe_bigram(
                *vocab,
                w@,
                syms@,
                (i - 1) as usize,
                i as usize,
            ) + seed_queue(*vocab, w@, syms@, i + 1));
            assert(q@ + seed_queue(*vocab, w@, syms@, i + 1) =~= seed_queue(*vocab, w@, syms@, 1));
        }
        i = i + 1;
    }
    proof {
        assert(seed_queue(*vocab, w@, syms@, i as int) =~= Seq::<LlmBigramBpe>::empty());
        assert(q@ =~= seed_queue(*vocab, w@, syms@, 1));
    }
    q
}

/// Pops the best bigram: lowest rank, ties broken by the lowest left
/// index, the earliest such entry.
fn pop_best(queue: &mut Vec<LlmBigramBpe>) -> (b: LlmBigramBpe)
    requires
        old(queue)@.len() > 0,
    ensures
        b == old(queue)@[best_upto(old(queue)@, old(queue)@.len() as int)],
        final(queue)@ == old(queue)@.remove(best_upto(old(queue)@, old(queue)@.len() as int)),
{
    let n = queue.len();
    let mut best: usize = 0;
    let mut i: usize = 1;
    while i < n
        invariant
            1 <= i <= n,
            n == queue@.len(),
            queue@ == old(queue)@,
            best < i,
            best as int == best_upto(queue@, i as int),
        decreases n - i,
    {
        let cand = queue[i];
        let cur = queue[best];
        if cand.rank < cur.rank || (cand.rank == cur.rank && cand.left < cur.left) {
            best = i;
        }
        i = i + 1;
    }
    proof {
        lemma_best_upto(queue@, n as int);
    }
    queue.remove(best)
}

/// Whether the two character ranges of equal combined length concatenate
/// to the target range.
pub(crate) fn ranges_concat_eq(
    w: &Vec<char>,
    a_start: usize,
    a_len: usize,
    b_start: usize,
    b_len: usize,
    t_start: usize,
) -> (r: bool)
    requires
        a_start + a_len <= w@.len(),
        b_start + b_len <= w@.len(),
        t_start + a_len + b_len <= w@.len(),
    ensures
        r == (w@.subrange(a_start as int, a_start + a_len) + w@.subrange(
            b_start as int,
            b_start + b_len,
        ) == w@.subrange(t_start as int, t_start + a_len + b_len)),
{
    let ghost cat = w@.subrange(a_start as int, a_start + a_len) + w@.subrange(
        b_start as int,
        b_start + b_len,
    );
    let ghost tgt = w@.subrange(t_start as int, t_start + a_len + b_len);
    let wn = w.len();
    let mut j: usize = 0;
    let mut same = true;
    while j < a_len
        invariant
            j <= a_len,
            a_start + a_len <= wn,
            t_start + a_len + b_len <= wn,
            wn == w@.len(),
            cat == w@.subrange(a_start as int, a_start + a_len) + w@.subrange(
                b_start as int,
                b_start + b_len,
            ),
            tgt == w@.subrange(t_start as int, t_start + a_len + b_len),
            same == (forall|q: int| 0 <= q < j ==> cat[q] == tgt[q]),
        decreases a_len - j,
    {
        if w[a_start + j] != w[t_start + j] {
            proof {
                assert(cat[j as int] == w@[a_start + j]);
                assert(tgt[j as int] == w@[t_start + j]);
            }
            same = false;
        } else {
            proof {
                assert(cat[j as int] == w@[a_start + j]);
                assert(tgt[j as int] == w@[t_start + j]);
            }
        }
        j = j + 1;
    }
    let mut k: usize = 0;
    while k < b_len
        invariant
            k <= b_len,
            a_start + a_len <= wn,
            b_start + b_len <= wn,
            t_start + a_len + b_len <= wn,
            wn == w@.len(),
            cat == w@.subrange(a_start as int, a_start + a_len) + w@.subrange(
                b_start as int,
                b_start + b_len,
            ),
            tgt == w@.subrange(t_start as int, t_start + a_len + b_len),
            same == (forall|q: int| 0 <= q < a_len + k ==> cat[q] == tgt[q]),
        decreases b_len - k,
    {
        if w[b_start + k] != w[t_start + a_len + k] {
            proof {
                assert(cat[a_len + k] == w@[b_start + k]);
                assert(tgt[a_len + k] == w@[t_start + a_len + k]);
            }
            same = false;
        } else {
            proof {
                assert(cat[a_len + k] == w@[b_start + k]);
                assert(tgt[a_len + k] == w@[t_start + a_len + k]);
            }
        }
        k = k + 1;
    }
    proof {
        if same {
            assert(cat =~= tgt);
        } else {
            assert(cat != tgt);
        }
    }
    same
}

/// Whether the popped bigram is still current.
fn check_live(w: &Vec<char>, syms: &Vec<LlmSymbol>, b: LlmBigramBpe) -> (r: bool)
    ensures
        r == bigram_live(w@, syms@, b),
{
    let n = syms.len();
    let wn = w.len();
    if b.left >= n || b.right >= n {
        return false;
    }
    let ls = syms[b.left];
    let rs = syms[b.right];
    if ls.len == 0 || rs.len == 0 {
        return false;
    }
    if ls.start != b.start {
        return false;
    }
    if !(ls.len <= b.size && rs.len == b.size - ls.len) {
        return false;
    }
    if !(ls.start <= wn && ls.len <= wn - ls.start) {
        return false;
    }
    if !(rs.start <= wn && rs.len <= wn - rs.start) {
        return false;
    }
    if !(b.start <= wn && b.size <= wn - b.start) {
        return false;
    }
    ranges_concat_eq(w, ls.start, ls.len, rs.start, rs.len, b.start)
}

/// Runs the merge loop to completion: the symbols end as `bpe_run` says.
#[verifier::rlimit(100)]
fn bpe_merge_loop(
    vocab: &TokenizerConfig,
    w: &Vec<char>,
    syms: &mut Vec<LlmSymbol>,
    queue: Vec<LlmBigramBpe>,
)
    requires
        vocab.well_formed(),
        queue_wf(queue@, old(syms)@.len() as int),
        syms_wf(old(syms)@, w@.len() as int),
    ensures
        final(syms)@ == bpe_run(*vocab, w@, old(syms)@, queue@),
        syms_wf(final(syms)@, w@.len() as int),
        final(syms)@.len() == old(syms)@.len(),
{
    let mut q = queue;
    while q.len() > 0
        invariant
            vocab.well_formed(),
            queue_wf(q@, syms@.len() as int),
            syms_wf(syms@, w@.len() as int),
            syms@.len() == old(syms)@.len(),
            bpe_run(*vocab, w@, syms@, q@) == bpe_run(*vocab, w@, old(syms)@, queue@),
        decreases live_count(syms@), q@.len(),
    {
        let ghost syms0 = syms@;
        let ghost q0 = q@;
        proof {
            lemma_live_count_nonneg(syms@);
            lemma_best_upto(q@, q@.len() as int);
        }
        let b = pop_best(&mut q);
        if check_live(w, syms, b) {
            proof {
                lemma_merge_live_count(syms@, b.left, b.right, b.size);
                lemma_live_count_nonneg(merge_state(syms@, b.left, b.right, b.size));
            }
            let ls = syms[b.left];
            let rs = syms[b.right];
            let merged = LlmSymbol { prev: ls.prev, next: rs.next, start: ls.start, len: b.size };
            let dead = LlmSymbol { prev: rs.prev, next: rs.next, start: rs.start, len: 0 };
            syms.set(b.left, merged);
            syms.set(b.right, dead);
            if rs.next != NONE_IDX && rs.next < syms.len() {
                let ns = syms[rs.next];
                syms.set(
                    rs.next,
                    LlmSymbol { prev: b.left, next: ns.next, start: ns.start, len: ns.len },
                );
            }
            proof {
                assert(syms@ =~= merge_state(syms0, b.left, b.right, b.size));
            }
            let m = syms[b.left];
            exec_maybe_bigram(vocab, w, syms, m.prev, b.left, &mut q);
            exec_maybe_bigram(vocab, w, syms, b.left, m.next, &mut q);
            proof {
                let bi = best_upto(q0, q0.len() as int);
                let q1 = q0.remove(bi);
                let syms2 = merge_state(syms0, b.left, b.right, b.size);
                let mg = syms2[b.left as int];
                assert(q@ =~= q1 + maybe_bigram(*vocab, w@, syms2, mg.prev, b.left) + maybe_bigram(
                    *vocab,
                    w@,
                    syms2,
                    b.left,
                    mg.next,
                ));
                assert forall|i: int| 0 <= i < q@.len() implies (#[trigger] q@[i]).left
                    < syms@.len() && q@[i].right < syms@.len() by {
                    if i < q1.len() {
                        assert(q@[i] == q1[i]);
                    }
                }
            }
        }
    }
    proof {
        assert(q@.len() == 0);
    }
}

/// Finds the first live symbol.
pub(crate) fn exec_first_live(syms: &Vec<LlmSymbol>) -> (r: usize)
    ensures
        r as int == first_live(syms@, 0),
        r <= syms@.len(),
{
    let n = syms.len();
    let mut i: usize = 0;
    while i < n
        invariant
            i <= n,
            n == syms@.len(),
            first_live(syms@, 0) == first_live(syms@, i as int),
        decreases n - i,
    {
        if syms[i].len > 0 {
            return i;
        }
        i = i + 1;
    }
    i
}

/// Emits the ids of one symbol: its own id on a vocabulary hit, else one
/// id per byte of its UTF-8 bytes, misses skipped.
fn exec_emit_symbol(vocab: &TokenizerConfig, w: &Vec<char>, sym: LlmSymbol, output: &mut Vec<u32>)
    requires
        vocab.well_formed(),
        sym.start + sym.len <= w@.len(),
    ensures
        final(output)@ == old(output)@ + emit_symbol(*vocab, w@, sym),
{
    let piece = crate::fragment::copy_range(w, sym.start, sym.len);
    let t = chars_to_string(piece.as_slice());
    let id = vocab.text_to_token(t.as_str());
    if id != NULL {
        let ghost ob = output@;
        output.push(id);
        proof {
            assert(output@ =~= ob + emit_symbol(*vocab, w@, sym));
        }
        return;
    }
    let bytes = t.as_str().as_bytes_vec();
    proof {
        assert(bytes@ == vstd::utf8::encode_utf8(sym_text(w@, sym)));
    }
    let nb = bytes.len();
    let mut j: usize = 0;
    proof {
        assert(bytes@.subrange(0, nb as int) =~= bytes@);
    }
    while j < nb
        invariant
            j <= nb,
            nb == bytes@.len(),
            vocab.well_formed(),
            bytes@ == vstd::utf8::encode_utf8(sym_text(w@, sym)),
            !vocab.spec_has_text(sym_text(w@, sym)),
            old(output)@ + emit_symbol(*vocab, w@, sym) == output@ + fallback_bytes(
                *vocab,
                bytes@.subrange(j as int, nb as int),
            ),
        decreases nb - j,
    {
        let ghost rest = bytes@.subrange(j as int, nb as int);
        let byte = bytes[j];
        let bstr = unicode_byte_to_utf8(byte);
        proof {
            vstd::utf8::char_u32_cast(bstr@[0], crate::unicode::spec_byte_to_cpt(byte));
            assert(bstr@ =~= spec_bpe_byte_text(byte));
            assert(rest[0] == byte);
            assert(rest.drop_first() =~= bytes@.subrange(j + 1, nb as int));
        }
        let bid = vocab.text_to_token(bstr.as_str());
        if bid != NULL {
            let ghost ob = output@;
            output.push(bid);
            proof {
                assert(ob.push(bid) + fallback_bytes(*vocab, rest.drop_first()) =~= ob
                    + fallback_bytes(*vocab, rest));
            }
        } else {
            proof {
                assert(output@ + fallback_bytes(*vocab, rest.drop_first()) =~= output@
                    + fallback_bytes(*vocab, rest));
            }
        }
        j = j + 1;
    }
    proof {
        assert(bytes@.subrange(j as int, nb as int) =~= Seq::<u8>::empty());
        assert(fallback_bytes(*vocab, bytes@.subrange(j as int, nb as int)) =~= Seq::<u32>::empty());
        assert(output@ + Seq::<u32>::empty() =~= output@);
    }
}

/// Walks the chain from the first live symbol and emits each visited
/// symbol's ids.
fn exec_emit_final(vocab: &TokenizerConfig, w: &Vec<char>, syms: &Vec<LlmSymbol>, output: &mut Vec<
    u32,
>)
    requires
        vocab.well_formed(),
        syms_wf(syms@, w@.len() as int),
    ensures
        final(output)@ == old(output)@ + walk_emit(
            *vocab,
            w@,
            syms@,
            first_live(syms@, 0),
            syms@.len() as nat,
        ),
{
    let n = syms.len();
    let mut i = exec_first_live(syms);
    let mut fuel = n;
    while i < n && fuel > 0
        invariant
            n == syms@.len(),
            vocab.well_formed(),
            syms_wf(syms@, w@.len() as int),
            old(output)@ + walk_emit(*vocab, w@, syms@, first_live(syms@, 0), syms@.len() as nat)
                == output@ + walk_emit(*vocab, w@, syms@, i as int, fuel as nat),
        decreases fuel,
    {
        let sym = syms[i];
        exec_emit_symbol(vocab, w, sym, output);
        proof {
            assert(walk_emit(*vocab, w@, syms@, i as int, fuel as nat) == emit_symbol(
                *vocab,
                w@,
                sym,
            ) + walk_emit(*vocab, w@, syms@, sym.next as int, (fuel - 1) as nat));
            assert(output@ + walk_emit(*vocab, w@, syms@, sym.next as int, (fuel - 1) as nat)
                =~= old(output)@ + walk_emit(
                *vocab,
                w@,
                syms@,
                first_live(syms@, 0),
                syms@.len() as nat,
            ));
        }
        i = if sym.next == NONE_IDX {
            n
        } else {
            sym.next
        };
        proof {
            if sym.next == NONE_IDX {
                assert(walk_emit(*vocab, w@, syms@, sym.next as int, (fuel - 1) as nat)
                    =~= Seq::<u32>::empty());
                assert(walk_emit(*vocab, w@, syms@, i as int, (fuel - 1) as nat) =~= Seq::<
                    u32,
                >::empty());
            }
        }
        fuel = fuel - 1;
    }
    proof {
        assert(walk_emit(*vocab, w@, syms@, i as int, fuel as nat) =~= Seq::<u32>::empty());
        assert(output@ + Seq::<u32>::empty() =~= output@);
    }
}

/// The configuration of the BPE session: the pretokenization patterns.
pub struct LlmTokenizerBpe {
    pub regex_exprs: Vec<String>,
}

/// One byte-level BPE tokenizer session.
pub struct LlmTokenizerBpeSession {
    pub bpe: LlmTokenizerBpe,
}

impl LlmTokenizerBpeSession {
    /// A session over the given pretokenization patterns.
    pub fn new(bpe: LlmTokenizerBpe) -> (r: Self)
        ensures
            r.bpe.regex_exprs@ == bpe.regex_exprs@,
    {
        Self { bpe }
    }

    /// Emits the ids of one pretokenized word.
    fn tokenize_word(&self, vocab: &TokenizerConfig, w: &Vec<char>, output: &mut Vec<u32>)
        requires
            vocab.well_formed(),
        ensures
            final(output)@ == old(output)@ + spec_bpe_word(*vocab, w@),
    {
        if vocab.ignore_merges {
            let ws = chars_to_string(w.as_slice());
            let id = vocab.text_to_token(ws.as_str());
            if id != NULL {
                let ghost ob = output@;
                output.push(id);
                proof {
                    assert(output@ =~= ob + spec_bpe_word(*vocab, w@));
                }
                return;
            }
        }
        let syms = exec_init_symbols(w.len());
        let queue = exec_seed_queue(vocab, w, &syms);
        proof {
            lemma_seed_queue_wf(*vocab, w@, syms@, 1);
            assert(syms_wf(syms@, w@.len() as int));
        }
        let mut syms = syms;
        bpe_merge_loop(vocab, w, &mut syms, queue);
        exec_emit_final(vocab, w, &syms, output);
    }

    /// Pretokenizes the text and emits the ids of every word, appending to
    /// `output`. It succeeds exactly when every pattern is handled (a
    /// custom scanner, or a fallback pass the engine accepts); with the
    /// custom fast-path patterns the result is pinned exactly; on the
    /// error `output` is unchanged.
    pub fn tokenize(
        &self,
        vocab: &TokenizerConfig,
        text: &str,
        output: &mut Vec<u32>,
    ) -> (r: Result<(), TokenizerError>)
        requires
            vocab.well_formed(),
            text@.len() * 4 <= usize::MAX,
        ensures
            r is Ok <==> crate::pretokenizer::spec_split_lens_full(
                text@,
                views_of(self.bpe.regex_exprs@),
                0,
                seq![text@.len() as usize],
            ) is Some,
            all_custom(views_of(self.bpe.regex_exprs@)) ==> r is Ok,
            r is Ok && all_custom(views_of(self.bpe.regex_exprs@)) ==> final(output)@ == old(
                output,
            )@ + spec_bpe_tokenize(*vocab, text@, views_of(self.bpe.regex_exprs@)),
            r is Err ==> final(output)@ == old(output)@ && r->Err_0
                == TokenizerError::MalformedVocabulary,
    {
        let words = match unicode_regex_split(text, self.bpe.regex_exprs.as_slice()) {
            Ok(ws) => ws,
            Err(e) => {
                return Err(e);
            }
        };
        let ghost wviews = views_of(words@);
        let n = words.len();
        let mut k: usize = 0;
        proof {
            assert(wviews.subrange(0, n as int) =~= wviews);
        }
        while k < n
            invariant
                k <= n,
                n == words@.len(),
                vocab.well_formed(),
                wviews == views_of(words@),
                output@ + spec_bpe_words(*vocab, wviews.subrange(k as int, n as int)) == old(
                    output,
                )@ + spec_bpe_words(*vocab, wviews),
            decreases n - k,
        {
            let ghost rest = wviews.subrange(k as int, n as int);
            let wref = &words[k];
            let wchars = str_to_chars(wref.as_str());
            proof {
                assert(rest[0] == wchars@);
                assert(rest.drop_first() =~= wviews.subrange(k + 1, n as int));
            }
            self.tokenize_word(vocab, &wchars, output);
            proof {
                assert(output@ + spec_bpe_words(*vocab, wviews.subrange(k + 1, n as int)) =~= old(
                    output,
                )@ + spec_bpe_words(*vocab, wviews));
            }
            k = k + 1;
        }
        proof {
            assert(wviews.subrange(n as int, n as int) =~= Seq::<Seq<char>>::empty());
            assert(spec_bpe_words(*vocab, wviews.subrange(n as int, n as int)) =~= Seq::<
                u32,
            >::empty());
            assert(output@ + Seq::<u32>::empty() =~= output@);
        }
        Ok(())
    }

    /// Appends the beginning-of-sequence id when the vocabulary asks for
    /// one.
    pub fn append_bos(&self, vocab: &TokenizerConfig, output: &mut Vec<u32>)
        ensures
            final(output)@ == if vocab.add_bos {
                old(output)@.push(vocab.bos)
            } else {
                old(output)@
            },
    {
        if vocab.add_bos {
            output.push(vocab.bos);
        }
    }

    /// Appends the end-of-sequence id when the vocabulary asks for one.
    pub fn append_eos(&self, vocab: &TokenizerConfig, output: &mut Vec<u32>)
        ensures
            final(output)@ == if vocab.add_eos {
                old(output)@.push(vocab.eos)
            } else {
                old(output)@
            },
    {
        if vocab.add_eos {
            output.push(vocab.eos);
        }
    }
}

} // verus!
