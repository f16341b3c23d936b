//! The SentencePiece-style session: a symbol chain over the whole escaped
//! text, a score-ordered bigram queue with a size-based staleness check, a
//! reverse-merge table, and resegmentation with `<0xHH>` byte fallback.

use vstd::prelude::*;
use crate::vocab::{TokenizerConfig, TokenizerError, NULL};
use crate::bpe::{
    exec_first_live, exec_init_symbols, first_live, init_symbols, lemma_live_count_nonneg,
    lemma_merge_live_count, live_count, merge_state, sym_text, syms_wf, LlmSymbol, NONE_IDX,
};
use crate::unicode::{chars_to_string, str_to_chars};
use vstd::string::StrSliceExecFns;

verus! {

/// One queued merge candidate: the two symbol indices, the score of the
/// concatenated token, and the combined length at enqueue time.
#[derive(Clone, Copy, PartialEq, Eq, Structural)]
pub struct LlmBigramSpm {
    pub left: usize,
    pub right: usize,
    pub score: i64,
    pub size: usize,
}

/// One reverse-merge record: a concatenated text and the two symbol
/// indices it was built from.
pub struct RevMergeEntry {
    pub text: Vec<char>,
    pub left: usize,
    pub right: usize,
}

/// Strict priority: `a` merges before `b` when its score is higher, with
/// ties broken by the smaller left index.
pub open spec fn spm_better(a: LlmBigramSpm, b: LlmBigramSpm) -> bool {
    a.score > b.score || (a.score == b.score && a.left < b.left)
}

/// Index of the best bigram among the first `n`.
pub open spec fn spm_best_upto(q: Seq<LlmBigramSpm>, n: int) -> int
    decreases n,
{
    if n <= 1 {
        0
    } else {
        let r = spm_best_upto(q, n - 1);
        if spm_better(q[n - 1], q[r]) {
            n - 1
        } else {
            r
        }
    }
}

/// The best index lies in range and no entry strictly beats it.
pub proof fn lemma_spm_best_upto(q: Seq<LlmBigramSpm>, n: int)
    requires
        1 <= n <= q.len(),
    ensures
        0 <= spm_best_upto(q, n) < n,
        forall|i: int| 0 <= i < n ==> !spm_better(q[i], q[spm_best_upto(q, n)]),
    decreases n,
{
    if n > 1 {
        lemma_spm_best_upto(q, n - 1);
        assert forall|i: int| 0 <= i < n implies !spm_better(q[i], q[spm_best_upto(q, n)]) by {
            let r = spm_best_upto(q, n - 1);
            if spm_better(q[n - 1], q[r]) {
                if spm_better(q[i], q[n - 1]) {
                    assert(!spm_better(q[i], q[r]));
                }
            }
        }
    }
}

/// Whether a popped bigram is still current: both endpoints alive and
/// their lengths still summing to the recorded size, within the text.
pub open spec fn spm_live(s: Seq<char>, syms: Seq<LlmSymbol>, b: LlmBigramSpm) -> bool {
    &&& b.left < syms.len()
    &&& b.right < syms.len()
    &&& {
        let ls = syms[b.left as int];
        let rs = syms[b.right as int];
        &&& ls.len > 0
        &&& rs.len > 0
        &&& ls.len + rs.len == b.size
        &&& ls.start + b.size <= s.len()
        &&& rs.start + rs.len <= s.len()
    }
}

/// The merge candidate and reverse-merge record for the symbols at `li`
/// and `ri`, when both links are set and the concatenation is a
/// vocabulary token.
pub open spec fn spm_maybe_bigram(
    vocab: TokenizerConfig,
    s: Seq<char>,
    syms: Seq<LlmSymbol>,
    li: usize,
    ri: usize,
) -> (Seq<LlmBigramSpm>, Seq<(Seq<char>, usize, usize)>) {
    if li == NONE_IDX || ri == NONE_IDX || li >= syms.len() || ri >= syms.len() {
        (Seq::empty(), Seq::empty())
    } else {
        let ls = syms[li as int];
        let rs = syms[ri as int];
        if ls.start + ls.len <= s.len() && rs.start + rs.len <= s.len() && ls.len + rs.len
            <= usize::MAX {
            let text = sym_text(s, ls) + sym_text(s, rs);
            if vocab.spec_has_text(text) {
                let id = vocab.spec_id_of(text);
                let score = vocab.id_to_token@[id].score;
                (
                    seq![
                        LlmBigramSpm {
                            left: li,
                            right: ri,
                            score,
                            size: (ls.len + rs.len) as usize,
                        },
                    ],
                    seq![(text, li, ri)],
                )
            } else {
                (Seq::empty(), Seq::empty())
            }
        } else {
            (Seq::empty(), Seq::empty())
        }
    }
}

/// The initial queue and reverse-merge table over all adjacent pairs.
pub open spec fn spm_seed(vocab: TokenizerConfig, s: Seq<char>, syms: Seq<LlmSymbol>, i: int) -> (
    Seq<LlmBigramSpm>,
    Seq<(Seq<char>, usize, usize)>,
)
    decreases syms.len() - i,
{
    if i < 1 || i >= syms.len() {
        (Seq::empty(), Seq::empty())
    } else {
        let head = spm_maybe_bigram(vocab, s, syms, (i - 1) as usize, i as usize);
        let rest = spm_seed(vocab, s, syms, i + 1);
        (head.0 + rest.0, head.1 + rest.1)
    }
}

/// The symbols and reverse-merge table left when the merge loop has
/// drained the queue.
pub open spec fn spm_run(
    vocab: TokenizerConfig,
    s: Seq<char>,
    syms: Seq<LlmSymbol>,
    q: Seq<LlmBigramSpm>,
    rev: Seq<(Seq<char>, usize, usize)>,
) -> (Seq<LlmSymbol>, Seq<(Seq<char>, usize, usize)>)
    decreases live_count(syms), q.len()
    via spm_run_dec
{
    if q.len() == 0 {
        (syms, rev)
    } else {
        let bi = spm_best_upto(q, q.len() as int);
        if !(0 <= bi < q.len()) {
            (syms, rev)
        } else {
            let b = q[bi];
            let q1 = q.remove(bi);
            if !spm_live(s, syms, b) {
                spm_run(vocab, s, syms, q1, rev)
            } else {
                let syms2 = merge_state(syms, b.left, b.right, b.size);
                let m = syms2[b.left as int];
                let n1 = spm_maybe_bigram(vocab, s, syms2, m.prev, b.left);
                let n2 = spm_maybe_bigram(vocab, s, syms2, b.left, m.next);
                spm_run(vocab, s, syms2, q1 + n1.0 + n2.0, rev + n1.1 + n2.1)
            }
        }
    }
}

#[via_fn]
proof fn spm_run_dec(
    vocab: TokenizerConfig,
    s: Seq<char>,
    syms: Seq<LlmSymbol>,
    q: Seq<LlmBigramSpm>,
    rev: Seq<(Seq<char>, usize, usize)>,
) {
    lemma_live_count_nonneg(syms);
    if q.len() > 0 {
        let bi = spm_best_upto(q, q.len() as int);
        if 0 <= bi < q.len() {
            let b = q[bi];
            if spm_live(s, syms, b) {
                lemma_merge_live_count(syms, b.left, b.right, b.size);
                lemma_live_count_nonneg(merge_state(syms, b.left, b.right, b.size));
            }
        }
    }
}

/// The latest reverse-merge record for this text, if any.
pub open spec fn rev_lookup(rev: Seq<(Seq<char>, usize, usize)>, t: Seq<char>) -> Option<
    (usize, usize),
>
    decreases rev.len(),
{
    if rev.len() == 0 {
        Option::None
    } else if rev.last().0 == t {
        Option::Some((rev.last().1, rev.last().2))
    } else {
        rev_lookup(rev.drop_last(), t)
    }
}

/// The ids for a byte sequence under SPM byte fallback: one id per byte,
/// None as soon as one byte has no token.
pub open spec fn spm_bytes(vocab: TokenizerConfig, bytes: Seq<u8>) -> Option<Seq<u32>>
    decreases bytes.len(),
{
    if bytes.len() == 0 {
        Option::Some(Seq::empty())
    } else {
        match vocab.spec_byte_to_token(bytes[0]) {
            Result::Ok(id) => match spm_bytes(vocab, bytes.drop_first()) {
                Option::Some(rest) => Option::Some(seq![id] + rest),
                Option::None => Option::None,
            },
            Result::Err(_) => Option::None,
        }
    }
}

/// The ids one symbol contributes under resegmentation: its own id on a
/// vocabulary hit; the two recorded children on a reverse-merge hit;
/// otherwise byte fallback. The budget bounds the recursion depth.
pub open spec fn spec_resegment(
    vocab: TokenizerConfig,
    s: Seq<char>,
    syms: Seq<LlmSymbol>,
    rev: Seq<(Seq<char>, usize, usize)>,
    sym: LlmSymbol,
    fuel: nat,
) -> Option<Seq<u32>>
    decreases fuel,
{
    let t = sym_text(s, sym);
    if vocab.spec_has_text(t) {
        Option::Some(seq![vocab.spec_id_of(t) as u32])
    } else {
        match rev_lookup(rev, t) {
            Option::Some((li, ri)) => {
                if fuel > 0 && li < syms.len() && ri < syms.len() {
                    let a = spec_resegment(vocab, s, syms, rev, syms[li as int], (fuel - 1) as nat);
                    let b = spec_resegment(vocab, s, syms, rev, syms[ri as int], (fuel - 1) as nat);
                    match (a, b) {
                        (Option::Some(x), Option::Some(y)) => Option::Some(x + y),
                        _ => Option::None,
                    }
                } else {
                    spm_bytes(vocab, vstd::utf8::encode_utf8(t))
                }
            }
            Option::None => spm_bytes(vocab, vstd::utf8::encode_utf8(t)),
        }
    }
}

/// The ids of the chain walked from `i` under resegmentation, with at most
/// `fuel` steps.
pub open spec fn spm_walk(
    vocab: TokenizerConfig,
    s: Seq<char>,
    syms: Seq<LlmSymbol>,
    rev: Seq<(Seq<char>, usize, usize)>,
    i: int,
    fuel: nat,
    depth: nat,
) -> Option<Seq<u32>>
    decreases fuel,
{
    if fuel == 0 || i < 0 || i >= syms.len() {
        Option::Some(Seq::empty())
    } else {
        match spec_resegment(vocab, s, syms, rev, syms[i], depth) {
            Option::Some(head) => {
                match spm_walk(vocab, s, syms, rev, syms[i].next as int, (fuel - 1) as nat, depth) {
                    Option::Some(rest) => Option::Some(head + rest),
                    Option::None => Option::None,
                }
            }
            Option::None => Option::None,
        }
    }
}

/// The ids the SPM session emits for an escaped text: None means the
/// vocabulary is missing a byte token (MissingByteToken).
pub open spec fn spec_spm_tokenize(vocab: TokenizerConfig, s: Seq<char>) -> Option<Seq<u32>> {
    let syms = init_symbols(s.len() as int);
    let seeded = spm_seed(vocab, s, syms, 1);
    let run = spm_run(vocab, s, syms, seeded.0, seeded.1);
    spm_walk(
        vocab,
        s,
        run.0,
        run.1,
        first_live(run.0, 0),
        run.0.len(),
        (s.len() + 1) as nat,
    )
}

/// The abstract view of the reverse-merge table.
pub open spec fn rev_views(rev: Seq<RevMergeEntry>) -> Seq<(Seq<char>, usize, usize)> {
    rev.map(|i: int, e: RevMergeEntry| (e.text@, e.left, e.right))
}

/// Every queued bigram's symbol indices are in range.
pub open spec fn spm_queue_wf(q: Seq<LlmBigramSpm>, n_syms: int) -> bool {
    forall|i: int|
        0 <= i < q.len() ==> (#[trigger] q[i]).left < n_syms && q[i].right < n_syms
}

/// Every spm-seeded candidate's indices are in range.
pub proof fn lemma_spm_seed_wf(vocab: TokenizerConfig, s: Seq<char>, syms: Seq<LlmSymbol>, i: int)
    ensures
        spm_queue_wf(spm_seed(vocab, s, syms, i).0, syms.len() as int),
    decreases syms.len() - i,
{
    if i >= 1 && i < syms.len() {
        lemma_spm_seed_wf(vocab, s, syms, i + 1);
        let head = spm_maybe_bigram(vocab, s, syms, (i - 1) as usize, i as usize).0;
        let tail = spm_seed(vocab, s, syms, i + 1).0;
        let whole = spm_seed(vocab, s, syms, i).0;
        assert forall|j: int| 0 <= j < whole.len() implies (#[trigger] whole[j]).left < syms.len()
            && whole[j].right < syms.len() by {
            if j < head.len() {
                assert(whole[j] == head[j]);
            } else {
                assert(whole[j] == tail[j - head.len()]);
            }
        }
    }
}

/// Whether the entry text equals the given span of the word.
fn chars_eq_range(t: &Vec<char>, w: &Vec<char>, start: usize, len: usize) -> (r: bool)
    requires
        start + len <= w@.len(),
    ensures
        r == (t@ == w@.subrange(start as int, start + len)),
{
    let ghost tgt = w@.subrange(start as int, start + len);
    if t.len() != len {
        return false;
    }
    let wn = w.len();
    let mut j: usize = 0;
    let mut same = true;
    while j < len
        invariant
            j <= len,
            start + len <= wn,
            wn == w@.len(),
            t@.len() == len,
            tgt == w@.subrange(start as int, start + len),
            same == (forall|q: int| 0 <= q < j ==> t@[q] == tgt[q]),
        decreases len - j,
    {
        if t[j] != w[start + j] {
            proof {
                assert(tgt[j as int] == w@[start + j]);
            }
            same = false;
        } else {
            proof {
                assert(tgt[j as int] == w@[start + j]);
            }
        }
        j = j + 1;
    }
    proof {
        if same {
            assert(t@ =~= tgt);
        }
    }
    same
}

/// Appends the merge candidate and reverse-merge record for the symbols at
/// `li` and `ri`, when the pair's concatenation is a vocabulary token.
fn exec_spm_maybe_bigram(
    vocab: &TokenizerConfig,
    w: &Vec<char>,
    syms: &Vec<LlmSymbol>,
    li: usize,
    ri: usize,
    queue: &mut Vec<LlmBigramSpm>,
    rev: &mut Vec<RevMergeEntry>,
)
    requires
        vocab.well_formed(),
    ensures
        final(queue)@ == old(queue)@ + spm_maybe_bigram(*vocab, w@, syms@, li, ri).0,
        rev_views(final(rev)@) == rev_views(old(rev)@) + spm_maybe_bigram(
            *vocab,
            w@,
            syms@,
            li,
            ri,
        ).1,
{
    let n = syms.len();
    let wn = w.len();
    if li == NONE_IDX || ri == NONE_IDX || li >= n || ri >= n {
        proof {
            assert(queue@ =~= old(queue)@ + spm_maybe_bigram(*vocab, w@, syms@, li, ri).0);
            assert(rev_views(rev@) =~= rev_views(old(rev)@) + spm_maybe_bigram(
                *vocab,
                w@,
                syms@,
                li,
                ri,
            ).1);
        }
        return;
    }
    let ls = syms[li];
    let rs = syms[ri];
    if !(ls.start <= wn && ls.len <= wn - ls.start && rs.start <= wn && rs.len <= wn - rs.start
        && ls.len <= usize::MAX - rs.len) {
        proof {
            assert(queue@ =~= old(queue)@ + spm_maybe_bigram(*vocab, w@, syms@, li, ri).0);
            assert(rev_views(rev@) =~= rev_views(old(rev)@) + spm_maybe_bigram(
                *vocab,
                w@,
                syms@,
                li,
                ri,
            ).1);
        }
        return;
    }
    let mut cat = crate::fragment::copy_range(w, ls.start, ls.len);
    let mut rpart = crate::fragment::copy_range(w, rs.start, rs.len);
    cat.append(&mut rpart);
    proof {
        assert(cat@ =~= sym_text(w@, ls) + sym_text(w@, rs));
    }
    let cs = chars_to_string(cat.as_slice());
    let id = vocab.text_to_token(cs.as_str());
    if id == NULL {
        proof {
            assert(queue@ =~= old(queue)@ + spm_maybe_bigram(*vocab, w@, syms@, li, ri).0);
            assert(rev_views(rev@) =~= rev_views(old(rev)@) + spm_maybe_bigram(
                *vocab,
                w@,
                syms@,
                li,
                ri,
            ).1);
        }
        return;
    }
    let score = vocab.id_to_token[id as usize].score;
    let ghost oq = queue@;
    let ghost orv = rev@;
    queue.push(LlmBigramSpm { left: li, right: ri, score, size: ls.len + rs.len });
    rev.push(RevMergeEntry { text: cat, left: li, right: ri });
    proof {
        assert(queue@ =~= oq + spm_maybe_bigram(*vocab, w@, syms@, li, ri).0);
        assert(rev_views(rev@) =~= rev_views(orv) + spm_maybe_bigram(*vocab, w@, syms@, li, ri).1);
    }
}

/// Seeds the queue and reverse-merge table over all adjacent pairs.
fn exec_spm_seed(
    vocab: &TokenizerConfig,
    w: &Vec<char>,
    syms: &Vec<LlmSymbol>,
    queue: &mut Vec<LlmBigramSpm>,
    rev: &mut Vec<RevMergeEntry>,
)
    requires
        vocab.well_formed(),
        old(queue)@.len() == 0,
        old(rev)@.len() == 0,
    ensures
        final(queue)@ == spm_seed(*vocab, w@, syms@, 1).0,
        rev_views(final(rev)@) == spm_seed(*vocab, w@, syms@, 1).1,
{
    let n = syms.len();
    let mut i: usize = 1;
    proof {
        assert(rev_views(rev@) =~= Seq::<(Seq<char>, usize, usize)>::empty());
        if n < 1 {
            assert(spm_seed(*vocab, w@, syms@, 1).0 =~= Seq::<LlmBigramSpm>::empty());
            assert(spm_seed(*vocab, w@, syms@, 1).1 =~= Seq::<(Seq<char>, usize, usize)>::empty());
        }
    }
    while i < n
        invariant
            1 <= i,
            i <= n || n <= 1,
            n == syms@.len(),
            vocab.well_formed(),
            spm_seed(*vocab, w@, syms@, 1).0 == queue@ + spm_seed(*vocab, w@, syms@, i as int).0,
            spm_seed(*vocab, w@, syms@, 1).1 == rev_views(rev@) + spm_seed(
                *vocab,
                w@,
                syms@,
                i as int,
            ).1,
        decreases n - i,
    {
        exec_spm_maybe_bigram(vocab, w, syms, i - 1, i, queue, rev);
        proof {
            assert(queue@ + spm_seed(*vocab, w@, syms@, i + 1).0 =~= spm_seed(
                *vocab,
                w@,
                syms@,
                1,
            ).0);
            assert(rev_views(rev@) + spm_seed(*vocab, w@, syms@, i + 1).1 =~= spm_seed(
                *vocab,
                w@,
                syms@,
                1,
            ).1);
        }
        i = i + 1;
    }
    proof {
        assert(spm_seed(*vocab, w@, syms@, i as int).0 =~= Seq::<LlmBigramSpm>::empty());
        assert(spm_seed(*vocab, w@, syms@, i as int).1 =~= Seq::<(Seq<char>, usize, usize)>::empty());
        assert(queue@ =~= spm_seed(*vocab, w@, syms@, 1).0);
        assert(rev_views(rev@) =~= spm_seed(*vocab, w@, syms@, 1).1);
    }
}

/// Pops the best bigram: highest score, ties broken by the lowest left
/// index, the earliest such entry.
fn spm_pop_best(queue: &mut Vec<LlmBigramSpm>) -> (b: LlmBigramSpm)
    requires
        old(queue)@.len() > 0,
    ensures
        b == old(queue)@[spm_best_upto(old(queue)@, old(queue)@.len() as int)],
        final(queue)@ == old(queue)@.remove(
            spm_best_upto(old(queue)@, old(queue)@.len() as int),
        ),
{
    let n = queue.len();
    let mut best: usize = 0;
    let mut i: usize = 1;
    while i < n
        invariant
            1 <= i <= n,
            n == queue@.len(),
            queue@ == old(queue)@,
            best < i,
            best as int == spm_best_upto(queue@, i as int),
        decreases n - i,
    {
        let cand = queue[i];
        let cur = queue[best];
        if cand.score > cur.score || (cand.score == cur.score && cand.left < cur.left) {
            best = i;
        }
        i = i + 1;
    }
    proof {
        lemma_spm_best_upto(queue@, n as int);
    }
    queue.remove(best)
}

/// Whether the popped bigram is still current.
fn spm_check_live(w: &Vec<char>, syms: &Vec<LlmSymbol>, b: LlmBigramSpm) -> (r: bool)
    ensures
        r == spm_live(w@, syms@, b),
{
    let n = syms.len();
    let wn = w.len();
    if b.left >= n || b.right >= n {
        return false;
    }
    let ls = syms[b.left];
    let rs = syms[b.right];
    if ls.len == 0 || rs.len == 0 {
        return false;
    }
    if !(ls.len <= b.size && rs.len == b.size - ls.len) {
        return false;
    }
    if !(ls.start <= wn && b.size <= wn - ls.start) {
        return false;
    }
    if !(rs.start <= wn && rs.len <= wn - rs.start) {
        return false;
    }
    true
}

/// Runs the score-ordered merge loop to completion.
#[verifier::rlimit(100)]
fn spm_merge_loop(
    vocab: &TokenizerConfig,
    w: &Vec<char>,
    syms: &mut Vec<LlmSymbol>,
    queue: Vec<LlmBigramSpm>,
    rev: &mut Vec<RevMergeEntry>,
)
    requires
        vocab.well_formed(),
        spm_queue_wf(queue@, old(syms)@.len() as int),
        syms_wf(old(syms)@, w@.len() as int),
    ensures
        final(syms)@ == spm_run(*vocab, w@, old(syms)@, queue@, rev_views(old(rev)@)).0,
        rev_views(final(rev)@) == spm_run(*vocab, w@, old(syms)@, queue@, rev_views(old(rev)@)).1,
        syms_wf(final(syms)@, w@.len() as int),
        final(syms)@.len() == old(syms)@.len(),
{
    let mut q = queue;
    while q.len() > 0
        invariant
            vocab.well_formed(),
            spm_queue_wf(q@, syms@.len() as int),
            syms_wf(syms@, w@.len() as int),
            syms@.len() == old(syms)@.len(),
            spm_run(*vocab, w@, syms@, q@, rev_views(rev@)) == spm_run(
                *vocab,
                w@,
                old(syms)@,
                queue@,
                rev_views(old(rev)@),
            ),
        decreases live_count(syms@), q@.len(),
    {
        let ghost syms0 = syms@;
        let ghost q0 = q@;
        let ghost rev0 = rev@;
        proof {
            lemma_live_count_nonneg(syms@);
            lemma_spm_best_upto(q@, q@.len() as int);
        }
        let b = spm_pop_best(&mut q);
        if spm_check_live(w, syms, b) {
            proof {
                lemma_merge_live_count(syms@, b.left, b.right, b.size);
                lemma_live_count_nonneg(merge_state(syms@, b.left, b.right, b.size));
            }
            let ls = syms[b.left];
            let rs = syms[b.right];
            let merged = LlmSymbol { prev: ls.prev, next: rs.next, start: ls.start, len: b.size };
            let dead = LlmSymbol { prev: rs.prev, next: rs.next, start: rs.start, len: 0 };
            syms.set(b.left, merged);
            syms.set(b.right, dead);
            if rs.next != NONE_IDX && rs.next < syms.len() {
                let ns = syms[rs.next];
                syms.set(
                    rs.next,
                    LlmSymbol { prev: b.left, next: ns.next, start: ns.start, len: ns.len },
                );
            }
            proof {
                assert(syms@ =~= merge_state(syms0, b.left, b.right, b.size));
            }
            let m = syms[b.left];
            exec_spm_maybe_bigram(vocab, w, syms, m.prev, b.left, &mut q, rev);
            exec_spm_maybe_bigram(vocab, w, syms, b.left, m.next, &mut q, rev);
            proof {
                let bi = spm_best_upto(q0, q0.len() as int);
                let q1 = q0.remove(bi);
                let syms2 = merge_state(syms0, b.left, b.right, b.size);
                let mg = syms2[b.left as int];
                let n1 = spm_maybe_bigram(*vocab, w@, syms2, mg.prev, b.left);
                let n2 = spm_maybe_bigram(*vocab, w@, syms2, b.left, mg.next);
                assert(q@ =~= q1 + n1.0 + n2.0);
                assert(rev_views(rev@) =~= rev_views(rev0) + n1.1 + n2.1);
                assert forall|i: int| 0 <= i < q@.len() implies (#[trigger] q@[i]).left
                    < syms@.len() && q@[i].right < syms@.len() by {
                    if i < q1.len() {
                        assert(q@[i] == q1[i]);
                    }
                }
            }
        }
    }
}

/// Finds the latest reverse-merge record for the given span of the word.
fn exec_rev_lookup(rev: &Vec<RevMergeEntry>, w: &Vec<char>, start: usize, len: usize) -> (r:
    Option<(usize, usize)>)
    requires
        start + len <= w@.len(),
    ensures
        r == rev_lookup(rev_views(rev@), w@.subrange(start as int, start + len)),
{
    let ghost t = w@.subrange(start as int, start + len);
    let n = rev.len();
    let mut i: usize = n;
    proof {
        assert(rev_views(rev@).subrange(0, n as int) =~= rev_views(rev@));
    }
    while i > 0
        invariant
            i <= n,
            n == rev@.len(),
            start + len <= w@.len(),
            t == w@.subrange(start as int, start + len),
            rev_lookup(rev_views(rev@), t) == rev_lookup(
                rev_views(rev@).subrange(0, i as int),
                t,
            ),
        decreases i,
    {
        i = i - 1;
        let e = &rev[i];
        proof {
            let pre = rev_views(rev@).subrange(0, i + 1);
            assert(pre.last() == (rev@[i as int].text@, rev@[i as int].left, rev@[i as int].right));
            assert(pre.drop_last() =~= rev_views(rev@).subrange(0, i as int));
        }
        if chars_eq_range(&e.text, w, start, len) {
            return Some((e.left, e.right));
        }
    }
    proof {
        assert(rev_views(rev@).subrange(0, 0) =~= Seq::<(Seq<char>, usize, usize)>::empty());
    }
    None
}

/// Resegments one symbol, appending its ids; an error means a byte with no
/// token in the vocabulary.
fn exec_resegment(
    vocab: &TokenizerConfig,
    w: &Vec<char>,
    syms: &Vec<LlmSymbol>,
    rev: &Vec<RevMergeEntry>,
    sym: LlmSymbol,
    fuel: usize,
    out: &mut Vec<u32>,
) -> (r: Result<(), TokenizerError>)
    requires
        vocab.well_formed(),
        sym.start + sym.len <= w@.len(),
        syms_wf(syms@, w@.len() as int),
    ensures
        ({
            let spec = spec_resegment(*vocab, w@, syms@, rev_views(rev@), sym, fuel as nat);
            &&& (r is Ok <==> spec is Some)
            &&& (r is Ok ==> final(out)@ == old(out)@ + spec->0)
        }),
    decreases fuel,
{
    let ghost t = sym_text(w@, sym);
    let piece = crate::fragment::copy_range(w, sym.start, sym.len);
    let ts = chars_to_string(piece.as_slice());
    let id = vocab.text_to_token(ts.as_str());
    if id != NULL {
        let ghost ob = out@;
        out.push(id);
        proof {
            assert(out@ =~= ob + spec_resegment(
                *vocab,
                w@,
                syms@,
                rev_views(rev@),
                sym,
                fuel as nat,
            )->0);
        }
        return Ok(());
    }
    match exec_rev_lookup(rev, w, sym.start, sym.len) {
        Option::Some((li, ri)) => {
            if fuel > 0 && li < syms.len() && ri < syms.len() {
                let lsym = syms[li];
                let rsym = syms[ri];
                let ghost mid = out@;
                match exec_resegment(vocab, w, syms, rev, lsym, fuel - 1, out) {
                    Ok(()) => {}
                    Err(e) => {
                        return Err(e);
                    }
                }
                match exec_resegment(vocab, w, syms, rev, rsym, fuel - 1, out) {
                    Ok(()) => {}
                    Err(e) => {
                        return Err(e);
                    }
                }
                proof {
                    let spec = spec_resegment(
                        *vocab,
                        w@,
                        syms@,
                        rev_views(rev@),
                        sym,
                        fuel as nat,
                    );
                    assert(out@ =~= old(out)@ + spec->0);
                }
                Ok(())
            } else {
                spm_byte_fallback(vocab, w, sym, out)
            }
        }
        Option::None => spm_byte_fallback(vocab, w, sym, out),
    }
}

/// Emits one id per byte of the symbol's UTF-8 bytes; an error means a
/// byte with no token.
fn spm_byte_fallback(
    vocab: &TokenizerConfig,
    w: &Vec<char>,
    sym: LlmSymbol,
    out: &mut Vec<u32>,
) -> (r: Result<(), TokenizerError>)
    requires
        vocab.well_formed(),
        sym.start + sym.len <= w@.len(),
    ensures
        ({
            let spec = spm_bytes(*vocab, vstd::utf8::encode_utf8(sym_text(w@, sym)));
            &&& (r is Ok <==> spec is Some)
            &&& (r is Ok ==> final(out)@ == old(out)@ + spec->0)
        }),
{
    let piece = crate::fragment::copy_range(w, sym.start, sym.len);
    let ts = chars_to_string(piece.as_slice());
    let bytes = ts.as_str().as_bytes_vec();
    proof {
        assert(bytes@ == vstd::utf8::encode_utf8(sym_text(w@, sym)));
    }
    let nb = bytes.len();
    let mut j: usize = 0;
    proof {
        assert(bytes@.subrange(0, nb as int) =~= bytes@);
        assert(out@.subrange(0, old(out)@.len() as int) =~= old(out)@);
    }
    while j < nb
        invariant
            j <= nb,
            nb == bytes@.len(),
            vocab.well_formed(),
            bytes@ == vstd::utf8::encode_utf8(sym_text(w@, sym)),
            out@.len() >= old(out)@.len(),
            out@.subrange(0, old(out)@.len() as int) == old(out)@,
            spm_bytes(*vocab, bytes@) == (match spm_bytes(
                *vocab,
                bytes@.subrange(j as int, nb as int),
            ) {
                Option::Some(rest) => Option::Some(
                    out@.subrange(old(out)@.len() as int, out@.len() as int) + rest,
                ),
                Option::None => Option::<Seq<u32>>::None,
            }),
        decreases nb - j,
    {
        let ghost rest = bytes@.subrange(j as int, nb as int);
        let byte = bytes[j];
        proof {
            assert(rest[0] == byte);
            assert(rest.drop_first() =~= bytes@.subrange(j + 1, nb as int));
        }
        match vocab.byte_to_token(byte) {
            Ok(id) => {
                let ghost ob = out@;
                out.push(id);
                proof {
                    assert(out@.subrange(0, old(out)@.len() as int) =~= old(out)@);
                    if spm_bytes(*vocab, bytes@.subrange(j + 1, nb as int)) is Some {
                        let r2 = spm_bytes(*vocab, bytes@.subrange(j + 1, nb as int))->0;
                        assert(out@.subrange(old(out)@.len() as int, out@.len() as int) + r2 =~= ob
                            .subrange(old(out)@.len() as int, ob.len() as int) + (seq![id] + r2));
                    }
                }
            }
            Err(e) => {
                return Err(e);
            }
        }
        j = j + 1;
    }
    proof {
        assert(bytes@.subrange(j as int, nb as int) =~= Seq::<u8>::empty());
        assert(out@.subrange(old(out)@.len() as int, out@.len() as int) + Seq::<u32>::empty()
            =~= out@.subrange(old(out)@.len() as int, out@.len() as int));
        assert(out@ =~= old(out)@ + out@.subrange(old(out)@.len() as int, out@.len() as int));
    }
    Ok(())
}

/// One SentencePiece-style tokenizer session.
pub struct LlmTokenizerSpmSession {
}

impl LlmTokenizerSpmSession {
    /// A fresh session.
    pub fn new() -> (r: Self) {
        Self {  }
    }

    /// Tokenizes one escaped text fragment, appending the ids. An error
    /// means the vocabulary is missing a byte token, and then `output` is
    /// unchanged.
    pub fn tokenize(&self, vocab: &TokenizerConfig, text: &str, output: &mut Vec<u32>) -> (r:
        Result<(), TokenizerError>)
        requires
            vocab.well_formed(),
            text@.len() < usize::MAX,
        ensures
            ({
                let spec = spec_spm_tokenize(*vocab, text@);
                &&& (r is Ok <==> spec is Some)
                &&& (r is Ok ==> final(output)@ == old(output)@ + spec->0)
                &&& (r is Err ==> final(output)@ == old(output)@)
            }),
    {
        let w = str_to_chars(text);
        let mut syms = exec_init_symbols(w.len());
        proof {
            assert(syms_wf(syms@, w@.len() as int));
        }
        let mut queue: Vec<LlmBigramSpm> = Vec::new();
        let mut rev: Vec<RevMergeEntry> = Vec::new();
        exec_spm_seed(vocab, &w, &syms, &mut queue, &mut rev);
        proof {
            lemma_spm_seed_wf(*vocab, w@, syms@, 1);
        }
        spm_merge_loop(vocab, &w, &mut syms, queue, &mut rev);
        let ghost fin = syms@;
        let ghost grev = rev_views(rev@);
        let mut tmp: Vec<u32> = Vec::new();
        let n = syms.len();
        let depth = w.len() + 1;
        let mut i = exec_first_live(&syms);
        let mut fuel = n;
        while i < n && fuel > 0
            invariant
                n == syms@.len(),
                vocab.well_formed(),
                syms_wf(syms@, w@.len() as int),
                fin == syms@,
                grev == rev_views(rev@),
                w@ == text@,
                depth == w@.len() + 1,
                n == fin.len(),
                spec_spm_tokenize(*vocab, text@) == spm_walk(
                    *vocab,
                    w@,
                    fin,
                    grev,
                    first_live(fin, 0),
                    fin.len(),
                    depth as nat,
                ),
                spm_walk(*vocab, w@, fin, grev, first_live(fin, 0), fin.len(), depth as nat) == (
                match spm_walk(*vocab, w@, fin, grev, i as int, fuel as nat, depth as nat) {
                    Option::Some(rest) => Option::Some(tmp@ + rest),
                    Option::None => Option::<Seq<u32>>::None,
                }),
            decreases fuel,
        {
            let sym = syms[i];
            let ghost tmp0 = tmp@;
            let res = exec_resegment(vocab, &w, &syms, &rev, sym, depth, &mut tmp);
            proof {
                assert(spm_walk(*vocab, w@, fin, grev, i as int, fuel as nat, depth as nat) == (
                match spec_resegment(*vocab, w@, fin, grev, sym, depth as nat) {
                    Option::Some(head) => {
                        match spm_walk(
                            *vocab,
                            w@,
                            fin,
                            grev,
                            sym.next as int,
                            (fuel - 1) as nat,
                            depth as nat,
                        ) {
                            Option::Some(rest) => Option::Some(head + rest),
                            Option::None => Option::<Seq<u32>>::None,
                        }
                    }
                    Option::None => Option::<Seq<u32>>::None,
                }));
            }
            match res {
                Ok(()) => {}
                Err(e) => {
                    return Err(e);
                }
            }
            proof {
                let spec_head = spec_resegment(*vocab, w@, fin, grev, sym, depth as nat);
                let tail = spm_walk(
                    *vocab,
                    w@,
                    fin,
                    grev,
                    sym.next as int,
                    (fuel - 1) as nat,
                    depth as nat,
                );
                if spec_head is Some && tail is Some {
                    assert((tmp0 + spec_head->0) + tail->0 =~= tmp0 + (spec_head->0 + tail->0));
                }
            }
            i = if sym.next == NONE_IDX {
                n
            } else {
                sym.next
            };
            proof {
                if sym.next == NONE_IDX {
                    assert(spm_walk(
                        *vocab,
                        w@,
                        fin,
                        grev,
                        sym.next as int,
                        (fuel - 1) as nat,
                        depth as nat,
                    ) == Option::Some(Seq::<u32>::empty()));
                    assert(spm_walk(*vocab, w@, fin, grev, i as int, (fuel - 1) as nat, depth as nat)
                        == Option::Some(Seq::<u32>::empty()));
                }
            }
            fuel = fuel - 1;
        }
        proof {
            assert(spm_walk(*vocab, w@, fin, grev, i as int, fuel as nat, depth as nat)
                == Option::Some(Seq::<u32>::empty()));
            assert(tmp@ + Seq::<u32>::empty() =~= tmp@);
        }
        output.append(&mut tmp);
        Ok(())
    }
}

} // verus!
