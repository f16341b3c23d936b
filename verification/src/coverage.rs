//! Coverage of the merge sessions: either family's merge loop rearranges
//! the symbol chain but never loses or duplicates a codepoint, so the
//! emitted ids decompose piece by piece over a partition of the text —
//! unconditionally for the whole BPE pipeline, and for SPM fragments
//! whose surviving symbols are vocabulary hits — and detokenization
//! inverts the emission where the byte mapping leaves the text alone.

use vstd::prelude::*;
use crate::bpe::{
    bigram_live, bpe_run, best_upto, first_live, init_symbols, lemma_best_upto, maybe_bigram,
    merge_state, seed_queue, sym_text, syms_wf, LlmBigramBpe, LlmSymbol, NONE_IDX,
};
use crate::spm::LlmBigramSpm;
use crate::vocab::TokenizerConfig;

verus! {

/// A symbol that has not been merged away.
pub open spec fn live(syms: Seq<LlmSymbol>, i: int) -> bool {
    0 <= i < syms.len() && syms[i].len > 0
}

/// The chain invariant: live symbols hold disjoint spans in index order,
/// their next/prev links connect geometrically adjacent live spans, and a
/// live symbol starts the word.
pub open spec fn chain_ok(s: Seq<char>, syms: Seq<LlmSymbol>) -> bool {
    &&& syms.len() < NONE_IDX
    &&& syms_wf(syms, s.len() as int)
    &&& (forall|i: int|
        #[trigger] live(syms, i) ==> ((syms[i].next == NONE_IDX && syms[i].start + syms[i].len
            == s.len()) || (syms[i].next < syms.len() && live(syms, syms[i].next as int)
            && syms[syms[i].next as int].start == syms[i].start + syms[i].len
            && syms[syms[i].next as int].prev == i)))
    &&& (forall|i: int|
        #[trigger] live(syms, i) ==> ((syms[i].prev == NONE_IDX && syms[i].start == 0) || (
        syms[i].prev < syms.len() && live(syms, syms[i].prev as int)
            && syms[syms[i].prev as int].next == i)))
    &&& (forall|i: int, j: int|
        #![trigger live(syms, i), live(syms, j)]
        live(syms, i) && live(syms, j) && i < j ==> syms[i].start + syms[i].len <= syms[j].start)
    &&& (s.len() > 0 ==> exists|h: int| live(syms, h) && (#[trigger] syms[h]).start == 0)
}

/// The geometric record a queued candidate keeps: its stored span starts
/// at the left symbol's fixed start, the right symbol's fixed start cuts
/// it in two, and each endpoint's current length is zero or at least its
/// share of the span (lengths only grow).
pub open spec fn bigram_geom(s: Seq<char>, syms: Seq<LlmSymbol>, b: LlmBigramBpe) -> bool {
    &&& b.left < syms.len()
    &&& b.right < syms.len()
    &&& b.left != b.right
    &&& syms[b.left as int].start == b.start
    &&& b.start + b.size <= s.len()
    &&& b.start < syms[b.right as int].start < b.start + b.size
    &&& (syms[b.left as int].len == 0 || syms[b.left as int].len >= syms[b.right as int].start
        - b.start)
    &&& (syms[b.right as int].len == 0 || syms[b.right as int].len >= b.start + b.size
        - syms[b.right as int].start)
}

/// Every queued candidate keeps its geometric record.
pub open spec fn queue_geom(s: Seq<char>, syms: Seq<LlmSymbol>, q: Seq<LlmBigramBpe>) -> bool {
    forall|i: int| 0 <= i < q.len() ==> bigram_geom(s, syms, #[trigger] q[i])
}

/// A live candidate that passes the staleness check joins two symbols that
/// are still chain neighbors, cutting its span exactly.
pub proof fn lemma_live_bigram_adjacent(s: Seq<char>, syms: Seq<LlmSymbol>, b: LlmBigramBpe)
    requires
        chain_ok(s, syms),
        bigram_geom(s, syms, b),
        syms[b.left as int].len > 0,
        syms[b.right as int].len > 0,
        syms[b.left as int].len + syms[b.right as int].len == b.size,
    ensures
        syms[b.left as int].next == b.right,
        syms[b.right as int].start == b.start + syms[b.left as int].len,
        syms[b.left as int].len + syms[b.right as int].len == b.size,
{
    let l = b.left as int;
    let r = b.right as int;
    let ls = syms[l];
    let rs = syms[r];
    // both lengths meet their geometric lower bounds and sum to the size,
    // so both bounds are tight: the spans are adjacent
    assert(ls.len >= rs.start - b.start);
    assert(rs.len >= b.start + b.size - rs.start);
    assert(ls.len + rs.len == b.size);
    assert(ls.start + ls.len == rs.start);
    // the chain link of the left symbol reaches the live symbol at that
    // start, which can only be the right one
    assert(live(syms, l));
    assert(live(syms, r));
    if ls.next == NONE_IDX {
        assert(ls.start + ls.len == s.len());
        assert(rs.start + rs.len <= s.len());
        assert(false);
    }
    let k = ls.next as int;
    assert(live(syms, k) && syms[k].start == ls.start + ls.len);
    if k != r {
        if k < r {
            assert(syms[k].start + syms[k].len <= syms[r].start);
        } else {
            assert(syms[r].start + syms[r].len <= syms[k].start);
        }
        assert(false);
    }
}

/// Merging a live candidate preserves the chain invariant; starts stay
/// put, and every length either stays, grows to the merged span, or drops
/// to zero.
#[verifier::rlimit(100)]
pub proof fn lemma_merge_chain_ok(s: Seq<char>, syms: Seq<LlmSymbol>, b: LlmBigramBpe)
    requires
        chain_ok(s, syms),
        bigram_geom(s, syms, b),
        syms[b.left as int].len > 0,
        syms[b.right as int].len > 0,
        syms[b.left as int].len + syms[b.right as int].len == b.size,
    ensures
        ({
            let syms2 = merge_state(syms, b.left, b.right, b.size);
            &&& chain_ok(s, syms2)
            &&& syms2.len() == syms.len()
            &&& forall|i: int| 0 <= i < syms.len() ==> (#[trigger] syms2[i]).start == syms[i].start
            &&& forall|i: int|
                0 <= i < syms.len() ==> (#[trigger] syms2[i]).len == syms[i].len || syms2[i].len
                    == 0 || (i == b.left && syms2[i].len == b.size)
        }),
{
    lemma_live_bigram_adjacent(s, syms, b);
    let l = b.left as int;
    let r = b.right as int;
    let ls = syms[l];
    let rs = syms[r];
    let syms2 = merge_state(syms, b.left, b.right, b.size);
    // the only live symbol pointing at the right one is the left one, and
    // the only live symbol the right one points at keeps its start
    assert forall|i: int| #[trigger] live(syms2, i) implies ((syms2[i].next == NONE_IDX
        && syms2[i].start + syms2[i].len == s.len()) || (syms2[i].next < syms2.len() && live(
        syms2,
        syms2[i].next as int,
    ) && syms2[syms2[i].next as int].start == syms2[i].start + syms2[i].len
        && syms2[syms2[i].next as int].prev == i)) by {
        assert(live(syms, l));
        assert(live(syms, r));
        if i == l {
            if rs.next != NONE_IDX {
                let k = rs.next as int;
                assert(live(syms, k));
                assert(syms[k].start == rs.start + rs.len);
                assert(k != l && k != r);
                assert(live(syms2, k));
            }
        } else {
            assert(live(syms, i));
            if syms[i].next == r as usize {
                // a second live predecessor of the right symbol cannot exist
                assert(live(syms, syms[i].next as int));
                assert(syms[i].start + syms[i].len == rs.start);
                assert(ls.start + ls.len == rs.start);
                if i < l {
                    assert(syms[i].start + syms[i].len <= syms[l].start);
                } else {
                    assert(l < i);
                    assert(syms[l].start + syms[l].len <= syms[i].start);
                }
                assert(false);
            }
            if syms[i].next != NONE_IDX {
                assert(live(syms, syms[i].next as int));
            }
        }
    }
    assert forall|i: int| #[trigger] live(syms2, i) implies ((syms2[i].prev == NONE_IDX
        && syms2[i].start == 0) || (syms2[i].prev < syms2.len() && live(
        syms2,
        syms2[i].prev as int,
    ) && syms2[syms2[i].prev as int].next == i)) by {
        assert(live(syms, l));
        assert(live(syms, r));
        if i == l {
            if ls.prev != NONE_IDX {
                let p = ls.prev as int;
                assert(live(syms, p) && syms[p].next == l as usize);
                assert(syms[p].start + syms[p].len == ls.start);
                if p == r {
                    assert(rs.start + rs.len == ls.start);
                    assert(ls.start + ls.len == rs.start);
                    assert(false);
                }
                assert(live(syms2, p));
            }
        } else {
            assert(live(syms, i));
            let pi = syms[i].prev;
            if pi == r as usize {
                // the right symbol pointed at its next, now relinked to l
                assert(syms[r].next == i as usize);
                assert(syms2[i].prev == b.left);
                assert(live(syms2, l));
                assert(syms2[l].next == i as usize);
            } else if pi == l as usize {
                assert(syms[l].next == i as usize);
                assert(i == r);
                assert(false);
            } else {
                if pi != NONE_IDX {
                    assert(live(syms, pi as int));
                    assert(pi as int != r);
                }
            }
        }
    }
    assert forall|i: int, j: int|
        live(syms2, i) && live(syms2, j) && i < j implies syms2[i].start + syms2[i].len
        <= #[trigger] syms2[j].start || !(#[trigger] live(syms2, i)) by {
        assert(live(syms, l));
        assert(live(syms, r));
        assert(live(syms, i) || i == l);
        assert(live(syms, j) || j == l);
        if i == l {
            // the merged span ends where the right span ended
            assert(syms2[i].start + syms2[i].len == rs.start + rs.len);
            if j != r {
                if r < j {
                    assert(syms[r].start + syms[r].len <= syms[j].start);
                } else {
                    // no live symbol fits between two adjacent spans
                    assert(l < j < r);
                    assert(syms[l].start + syms[l].len <= syms[j].start);
                    assert(syms[j].start + syms[j].len <= syms[r].start);
                    assert(false);
                }
            }
        } else if j == l {
            assert(syms[i].start + syms[i].len <= syms[l].start);
        }
    }
    if s.len() > 0 {
        let h = choose|h: int| live(syms, h) && (#[trigger] syms[h]).start == 0;
        if h == r {
            assert(rs.start == 0);
            assert(ls.start + ls.len == rs.start);
            assert(false);
        }
        assert(live(syms2, h) && syms2[h].start == 0);
    }
}

/// Merging a live candidate keeps every queued candidate's geometric
/// record.
pub proof fn lemma_merge_queue_geom(
    s: Seq<char>,
    syms: Seq<LlmSymbol>,
    b: LlmBigramBpe,
    q: Seq<LlmBigramBpe>,
)
    requires
        chain_ok(s, syms),
        bigram_geom(s, syms, b),
        syms[b.left as int].len > 0,
        syms[b.right as int].len > 0,
        syms[b.left as int].len + syms[b.right as int].len == b.size,
        queue_geom(s, syms, q),
    ensures
        queue_geom(s, merge_state(syms, b.left, b.right, b.size), q),
{
    lemma_merge_chain_ok(s, syms, b);
    let syms2 = merge_state(syms, b.left, b.right, b.size);
    assert forall|i: int| 0 <= i < q.len() implies bigram_geom(s, syms2, #[trigger] q[i]) by {
        let c = q[i];
        assert(bigram_geom(s, syms, c));
        assert(syms2[c.left as int].start == syms[c.left as int].start);
        assert(syms2[c.right as int].start == syms[c.right as int].start);
        if syms2[c.left as int].len != 0 {
            if c.left == b.left {
                assert(syms2[c.left as int].len == b.size || syms2[c.left as int].len
                    == syms[c.left as int].len);
                assert(b.size >= syms[b.left as int].len);
            }
        }
        if syms2[c.right as int].len != 0 {
            if c.right == b.left {
                assert(b.size >= syms[b.left as int].len);
            }
        }
    }
}

/// A candidate the merge loop enqueues for two chain neighbors carries a
/// valid geometric record.
pub proof fn lemma_maybe_bigram_geom(
    vocab: TokenizerConfig,
    s: Seq<char>,
    syms: Seq<LlmSymbol>,
    li: usize,
    ri: usize,
)
    requires
        chain_ok(s, syms),
        li != NONE_IDX && ri != NONE_IDX && li < syms.len() && ri < syms.len() ==> (live(
            syms,
            li as int,
        ) && syms[li as int].next == ri && live(syms, ri as int)),
    ensures
        queue_geom(s, syms, maybe_bigram(vocab, s, syms, li, ri)),
{
    let mb = maybe_bigram(vocab, s, syms, li, ri);
    if mb.len() > 0 {
        let c = mb[0];
        assert(live(syms, li as int) && live(syms, ri as int));
        assert(syms[ri as int].start == syms[li as int].start + syms[li as int].len);
        if li == ri {
            assert(syms[li as int].len == 0);
        }
        assert(bigram_geom(s, syms, c));
        assert forall|i: int| 0 <= i < mb.len() implies bigram_geom(s, syms, #[trigger] mb[i]) by {
            assert(mb[i] == c);
        }
    }
}

/// The merge loop preserves the chain invariant all the way down.
pub proof fn lemma_bpe_run_chain(
    vocab: TokenizerConfig,
    s: Seq<char>,
    syms: Seq<LlmSymbol>,
    q: Seq<LlmBigramBpe>,
)
    requires
        chain_ok(s, syms),
        queue_geom(s, syms, q),
    ensures
        chain_ok(s, bpe_run(vocab, s, syms, q)),
        bpe_run(vocab, s, syms, q).len() == syms.len(),
    decreases crate::bpe::live_count(syms), q.len(),
{
    crate::bpe::lemma_live_count_nonneg(syms);
    if q.len() > 0 {
        let bi = best_upto(q, q.len() as int);
        lemma_best_upto(q, q.len() as int);
        let b = q[bi];
        let q1 = q.remove(bi);
        assert forall|i: int| 0 <= i < q1.len() implies bigram_geom(s, syms, #[trigger] q1[i]) by {
            if i < bi {
                assert(q1[i] == q[i]);
            } else {
                assert(q1[i] == q[i + 1]);
            }
        }
        if !bigram_live(s, syms, b) {
            lemma_bpe_run_chain(vocab, s, syms, q1);
        } else {
            lemma_live_bigram_adjacent(s, syms, b);
            lemma_merge_chain_ok(s, syms, b);
            crate::bpe::lemma_merge_live_count(syms, b.left, b.right, b.size);
            crate::bpe::lemma_live_count_nonneg(merge_state(syms, b.left, b.right, b.size));
            let syms2 = merge_state(syms, b.left, b.right, b.size);
            let m = syms2[b.left as int];
            lemma_merge_queue_geom(s, syms, b, q1);
            assert(live(syms2, b.left as int));
            assert(m.prev == NONE_IDX || (m.prev < syms2.len() && live(syms2, m.prev as int)
                && syms2[m.prev as int].next == b.left));
            assert(m.next == NONE_IDX || (m.next < syms2.len() && live(syms2, m.next as int)));
            lemma_maybe_bigram_geom(vocab, s, syms2, m.prev, b.left);
            lemma_maybe_bigram_geom(vocab, s, syms2, b.left, m.next);
            let n1 = maybe_bigram(vocab, s, syms2, m.prev, b.left);
            let n2 = maybe_bigram(vocab, s, syms2, b.left, m.next);
            let q2 = q1 + n1 + n2;
            assert forall|i: int| 0 <= i < q2.len() implies bigram_geom(s, syms2, #[trigger] q2[i])
                by {
                if i < q1.len() {
                    assert(q2[i] == q1[i]);
                } else if i < q1.len() + n1.len() {
                    assert(q2[i] == n1[i - q1.len()]);
                } else {
                    assert(q2[i] == n2[i - q1.len() - n1.len()]);
                }
            }
            lemma_bpe_run_chain(vocab, s, syms2, q2);
        }
    }
}

/// The texts of the symbols visited along the chain, concatenated.
pub open spec fn walk_texts(s: Seq<char>, syms: Seq<LlmSymbol>, i: int, fuel: nat) -> Seq<char>
    decreases fuel,
{
    if fuel == 0 || i < 0 || i >= syms.len() {
        Seq::empty()
    } else {
        sym_text(s, syms[i]) + walk_texts(s, syms, syms[i].next as int, (fuel - 1) as nat)
    }
}

/// Walking the chain from a live symbol spells the rest of the word.
pub proof fn lemma_walk_covers(s: Seq<char>, syms: Seq<LlmSymbol>, i: int, fuel: nat)
    requires
        chain_ok(s, syms),
        live(syms, i),
        fuel >= s.len() - syms[i].start,
    ensures
        walk_texts(s, syms, i, fuel) == s.subrange(syms[i].start as int, s.len() as int),
    decreases fuel,
{
    let sym = syms[i];
    assert(live(syms, i));
    if sym.next == NONE_IDX {
        assert(sym.start + sym.len == s.len());
        assert(NONE_IDX as int >= syms.len());
        assert(walk_texts(s, syms, sym.next as int, (fuel - 1) as nat) =~= Seq::<char>::empty());
        assert(walk_texts(s, syms, i, fuel) =~= s.subrange(sym.start as int, s.len() as int));
    } else {
        let k = sym.next as int;
        assert(live(syms, k) && syms[k].start == sym.start + sym.len);
        lemma_walk_covers(s, syms, k, (fuel - 1) as nat);
        assert(walk_texts(s, syms, i, fuel) =~= s.subrange(sym.start as int, s.len() as int));
    }
}

/// The initial chain and seeded queue satisfy the invariants.
pub proof fn lemma_init_chain_ok(vocab: TokenizerConfig, s: Seq<char>)
    requires
        s.len() < NONE_IDX,
    ensures
        chain_ok(s, init_symbols(s.len() as int)),
        queue_geom(s, init_symbols(s.len() as int), seed_queue(vocab, s, init_symbols(s.len() as int), 1)),
{
    let syms = init_symbols(s.len() as int);
    assert(syms_wf(syms, s.len() as int));
    if s.len() > 0 {
        assert(live(syms, 0) && syms[0].start == 0);
    }
    lemma_seed_geom(vocab, s, syms, 1);
}

/// Every seeded candidate carries a valid geometric record.
proof fn lemma_seed_geom(vocab: TokenizerConfig, s: Seq<char>, syms: Seq<LlmSymbol>, i: int)
    requires
        syms == init_symbols(s.len() as int),
        s.len() < NONE_IDX,
        i >= 1,
    ensures
        queue_geom(s, syms, seed_queue(vocab, s, syms, i)),
    decreases syms.len() - i,
{
    if i < syms.len() {
        lemma_seed_geom(vocab, s, syms, i + 1);
        let head = maybe_bigram(vocab, s, syms, (i - 1) as usize, i as usize);
        let tail = seed_queue(vocab, s, syms, i + 1);
        let whole = seed_queue(vocab, s, syms, i);
        if head.len() > 0 {
            assert(bigram_geom(s, syms, head[0]));
        }
        assert forall|j: int| 0 <= j < whole.len() implies bigram_geom(s, syms, #[trigger] whole[j])
            by {
            if j < head.len() {
                assert(whole[j] == head[0]);
            } else {
                assert(whole[j] == tail[j - head.len()]);
            }
        }
    }
}

/// Coverage of the BPE merge stage: whatever merges the loop performs, the
/// surviving chain spells the word exactly, codepoint for codepoint.
#[verifier::rlimit(100)]
pub proof fn lemma_bpe_run_coverage(vocab: TokenizerConfig, s: Seq<char>)
    requires
        1 <= s.len() < NONE_IDX,
    ensures
        ({
            let syms = init_symbols(s.len() as int);
            let fin = bpe_run(vocab, s, syms, seed_queue(vocab, s, syms, 1));
            walk_texts(s, fin, first_live(fin, 0), fin.len() as nat) == s
        }),
{
    let syms = init_symbols(s.len() as int);
    let q = seed_queue(vocab, s, syms, 1);
    lemma_init_chain_ok(vocab, s);
    lemma_bpe_run_chain(vocab, s, syms, q);
    let fin = bpe_run(vocab, s, syms, q);
    let h = choose|h: int| live(fin, h) && (#[trigger] fin[h]).start == 0;
    let fl = first_live(fin, 0);
    lemma_first_live_is_head(fin, 0, h);
    assert(live(fin, fl) && fin[fl as int].start == 0) by {
        if fl != h {
            assert(fl < h);
            assert(live(fin, fl));
            assert(fin[fl].start + fin[fl].len <= fin[h].start);
        }
    }
    lemma_walk_covers(s, fin, fl, fin.len() as nat);
    assert(s.subrange(0, s.len() as int) =~= s);
}

/// The texts of the symbols visited along the chain, as a list of pieces.
pub open spec fn walk_pieces(s: Seq<char>, syms: Seq<LlmSymbol>, i: int, fuel: nat) -> Seq<
    Seq<char>,
>
    decreases fuel,
{
    if fuel == 0 || i < 0 || i >= syms.len() {
        Seq::empty()
    } else {
        seq![sym_text(s, syms[i])] + walk_pieces(s, syms, syms[i].next as int, (fuel - 1) as nat)
    }
}

/// The pieces of a walk concatenate to its text.
pub proof fn lemma_walk_pieces_concat(s: Seq<char>, syms: Seq<LlmSymbol>, i: int, fuel: nat)
    ensures
        crate::pretokenizer::concat_chars(walk_pieces(s, syms, i, fuel)) == walk_texts(
            s,
            syms,
            i,
            fuel,
        ),
    decreases fuel,
{
    if fuel == 0 || i < 0 || i >= syms.len() {
        assert(crate::pretokenizer::concat_chars(walk_pieces(s, syms, i, fuel)) =~= walk_texts(
            s,
            syms,
            i,
            fuel,
        ));
    } else {
        lemma_walk_pieces_concat(s, syms, syms[i].next as int, (fuel - 1) as nat);
        let ps = walk_pieces(s, syms, i, fuel);
        assert(ps.drop_first() =~= walk_pieces(s, syms, syms[i].next as int, (fuel - 1) as nat));
        assert(crate::pretokenizer::concat_chars(ps) =~= walk_texts(s, syms, i, fuel));
    }
}

/// The ids one piece of text contributes: its own token where the
/// vocabulary has it, one id per UTF-8 byte (misses skipped) otherwise.
pub open spec fn spec_piece_ids(vocab: TokenizerConfig, p: Seq<char>) -> Seq<u32> {
    if vocab.spec_has_text(p) {
        seq![vocab.spec_id_of(p) as u32]
    } else {
        crate::bpe::fallback_bytes(vocab, vstd::utf8::encode_utf8(p))
    }
}

/// The ids a list of pieces contributes.
pub open spec fn emit_pieces(vocab: TokenizerConfig, ps: Seq<Seq<char>>) -> Seq<u32>
    decreases ps.len(),
{
    if ps.len() == 0 {
        Seq::empty()
    } else {
        spec_piece_ids(vocab, ps[0]) + emit_pieces(vocab, ps.drop_first())
    }
}

/// Emitted ids distribute over concatenation of piece lists.
pub proof fn lemma_emit_pieces_concat(vocab: TokenizerConfig, a: Seq<Seq<char>>, b: Seq<Seq<char>>)
    ensures
        emit_pieces(vocab, a + b) == emit_pieces(vocab, a) + emit_pieces(vocab, b),
    decreases a.len(),
{
    if a.len() == 0 {
        assert(a + b =~= b);
        assert(emit_pieces(vocab, a) + emit_pieces(vocab, b) =~= emit_pieces(vocab, b));
    } else {
        lemma_emit_pieces_concat(vocab, a.drop_first(), b);
        assert((a + b).drop_first() =~= a.drop_first() + b);
        assert((a + b)[0] == a[0]);
        assert(emit_pieces(vocab, a + b) =~= emit_pieces(vocab, a) + emit_pieces(vocab, b));
    }
}

/// The chain walk emits exactly the emission of its pieces.
pub proof fn lemma_walk_emit_pieces(
    vocab: TokenizerConfig,
    s: Seq<char>,
    syms: Seq<LlmSymbol>,
    i: int,
    fuel: nat,
)
    ensures
        crate::bpe::walk_emit(vocab, s, syms, i, fuel) == emit_pieces(
            vocab,
            walk_pieces(s, syms, i, fuel),
        ),
    decreases fuel,
{
    if fuel == 0 || i < 0 || i >= syms.len() {
        assert(crate::bpe::walk_emit(vocab, s, syms, i, fuel) =~= emit_pieces(
            vocab,
            walk_pieces(s, syms, i, fuel),
        ));
    } else {
        lemma_walk_emit_pieces(vocab, s, syms, syms[i].next as int, (fuel - 1) as nat);
        let ps = walk_pieces(s, syms, i, fuel);
        assert(ps.drop_first() =~= walk_pieces(s, syms, syms[i].next as int, (fuel - 1) as nat));
        assert(ps[0] == sym_text(s, syms[i]));
        assert(crate::bpe::walk_emit(vocab, s, syms, i, fuel) =~= emit_pieces(vocab, ps));
    }
}

/// Coverage of one BPE word: the emitted ids decompose piece by piece over
/// a partition of the word — each piece contributing its own token id on a
/// vocabulary hit and its bytes' mapping ids otherwise.
pub proof fn lemma_bpe_word_coverage(vocab: TokenizerConfig, w: Seq<char>)
    requires
        w.len() < NONE_IDX,
    ensures
        exists|pieces: Seq<Seq<char>>|
            #[trigger] crate::pretokenizer::concat_chars(pieces) == w
                && crate::bpe::spec_bpe_word(vocab, w) == emit_pieces(vocab, pieces),
{
    if vocab.ignore_merges && vocab.spec_has_text(w) {
        let pieces = seq![w];
        assert(pieces.drop_first() =~= Seq::<Seq<char>>::empty());
        assert(crate::pretokenizer::concat_chars(Seq::<Seq<char>>::empty()) =~= Seq::<
            char,
        >::empty());
        assert(emit_pieces(vocab, Seq::<Seq<char>>::empty()) =~= Seq::<u32>::empty());
        assert(crate::pretokenizer::concat_chars(pieces) =~= w);
        assert(emit_pieces(vocab, pieces) =~= seq![vocab.spec_id_of(w) as u32]);
        assert(crate::bpe::spec_bpe_word(vocab, w) == emit_pieces(vocab, pieces));
    } else if w.len() == 0 {
        let syms = init_symbols(0);
        let pieces = walk_pieces(w, bpe_run(vocab, w, syms, seed_queue(vocab, w, syms, 1)), 0, 0);
        lemma_walk_emit_pieces(
            vocab,
            w,
            bpe_run(vocab, w, syms, seed_queue(vocab, w, syms, 1)),
            first_live(bpe_run(vocab, w, syms, seed_queue(vocab, w, syms, 1)), 0),
            bpe_run(vocab, w, syms, seed_queue(vocab, w, syms, 1)).len(),
        );
        lemma_init_chain_ok(vocab, w);
        lemma_bpe_run_chain(vocab, w, syms, seed_queue(vocab, w, syms, 1));
        let fin = bpe_run(vocab, w, syms, seed_queue(vocab, w, syms, 1));
        assert(fin.len() == 0);
        assert(walk_pieces(w, fin, first_live(fin, 0), fin.len() as nat) =~= Seq::<
            Seq<char>,
        >::empty());
        let empty_pieces: Seq<Seq<char>> = Seq::empty();
        assert(crate::pretokenizer::concat_chars(empty_pieces) =~= w);
        assert(crate::bpe::spec_bpe_word(vocab, w) == emit_pieces(vocab, empty_pieces));
    } else {
        lemma_bpe_run_coverage(vocab, w);
        let syms = init_symbols(w.len() as int);
        let q = seed_queue(vocab, w, syms, 1);
        let fin = bpe_run(vocab, w, syms, q);
        let fl = first_live(fin, 0);
        let pieces = walk_pieces(w, fin, fl, fin.len() as nat);
        lemma_walk_pieces_concat(w, fin, fl, fin.len() as nat);
        lemma_walk_emit_pieces(vocab, w, fin, fl, fin.len() as nat);
        assert(crate::pretokenizer::concat_chars(pieces) == w);
        assert(crate::bpe::spec_bpe_word(vocab, w) == emit_pieces(vocab, pieces));
    }
}

/// Coverage of a word list: the emitted ids of all words decompose over a
/// partition of the words' concatenation.
pub proof fn lemma_bpe_words_coverage(vocab: TokenizerConfig, ws: Seq<Seq<char>>)
    requires
        forall|i: int| 0 <= i < ws.len() ==> (#[trigger] ws[i]).len() < NONE_IDX,
    ensures
        exists|pieces: Seq<Seq<char>>|
            #[trigger] crate::pretokenizer::concat_chars(pieces)
                == crate::pretokenizer::concat_chars(ws) && crate::bpe::spec_bpe_words(vocab, ws)
                == emit_pieces(vocab, pieces),
    decreases ws.len(),
{
    if ws.len() == 0 {
        let pieces: Seq<Seq<char>> = Seq::empty();
        assert(crate::pretokenizer::concat_chars(pieces) =~= crate::pretokenizer::concat_chars(
            ws,
        ));
        assert(crate::bpe::spec_bpe_words(vocab, ws) =~= emit_pieces(vocab, pieces));
    } else {
        lemma_bpe_word_coverage(vocab, ws[0]);
        let p0 = choose|p0: Seq<Seq<char>>|
            #[trigger] crate::pretokenizer::concat_chars(p0) == ws[0]
                && crate::bpe::spec_bpe_word(vocab, ws[0]) == emit_pieces(vocab, p0);
        lemma_bpe_words_coverage(vocab, ws.drop_first());
        let prest = choose|prest: Seq<Seq<char>>|
            #[trigger] crate::pretokenizer::concat_chars(prest)
                == crate::pretokenizer::concat_chars(ws.drop_first()) && crate::bpe::spec_bpe_words(
                vocab,
                ws.drop_first(),
            ) == emit_pieces(vocab, prest);
        let pieces = p0 + prest;
        crate::pretokenizer::lemma_concat_chars_concat(p0, prest);
        lemma_emit_pieces_concat(vocab, p0, prest);
        assert(crate::pretokenizer::concat_chars(pieces) == crate::pretokenizer::concat_chars(ws));
        assert(crate::bpe::spec_bpe_words(vocab, ws) == emit_pieces(vocab, pieces));
    }
}

/// Coverage of a fragment list under the BPE dispatch: the emitted ids
/// decompose over a partition of the fragments' payloads.
pub proof fn lemma_bpe_frags_coverage(vocab: TokenizerConfig, frags: Seq<crate::fragment::GFrag>)
    requires
        vocab.well_formed(),
        crate::laws::frags_tokens_ok(vocab, frags),
        forall|i: int|
            0 <= i < frags.len() ==> (#[trigger] frags[i]).text.len() < NONE_IDX,
    ensures
        exists|pieces: Seq<Seq<char>>|
            #[trigger] crate::pretokenizer::concat_chars(pieces) == crate::laws::payloads(
                vocab,
                frags,
            ) && crate::tokenizer::spec_bpe_frags(vocab, frags) == emit_pieces(vocab, pieces),
    decreases frags.len(),
{
    if frags.len() == 0 {
        let pieces: Seq<Seq<char>> = Seq::empty();
        assert(crate::pretokenizer::concat_chars(pieces) =~= crate::laws::payloads(vocab, frags));
        assert(crate::tokenizer::spec_bpe_frags(vocab, frags) =~= emit_pieces(vocab, pieces));
    } else {
        let f = frags[0];
        lemma_bpe_frags_coverage(vocab, frags.drop_first());
        let prest = choose|prest: Seq<Seq<char>>|
            #[trigger] crate::pretokenizer::concat_chars(prest) == crate::laws::payloads(
                vocab,
                frags.drop_first(),
            ) && crate::tokenizer::spec_bpe_frags(vocab, frags.drop_first()) == emit_pieces(
                vocab,
                prest,
            );
        if f.is_token {
            let t = vocab.token_text(f.token as int);
            let p0 = seq![t];
            assert(p0.drop_first() =~= Seq::<Seq<char>>::empty());
            assert(crate::pretokenizer::concat_chars(Seq::<Seq<char>>::empty()) =~= Seq::<
                char,
            >::empty());
            assert(emit_pieces(vocab, Seq::<Seq<char>>::empty()) =~= Seq::<u32>::empty());
            assert(crate::pretokenizer::concat_chars(p0) =~= t);
            // the token's text names it back uniquely
            assert(vocab.spec_has_text(t));
            let w = vocab.spec_id_of(t);
            assert(0 <= w < vocab.spec_n_tokens() && vocab.token_text(w) == t);
            assert(w == f.token as int);
            assert(emit_pieces(vocab, p0) =~= seq![f.token]);
            let pieces = p0 + prest;
            crate::pretokenizer::lemma_concat_chars_concat(p0, prest);
            lemma_emit_pieces_concat(vocab, p0, prest);
            assert(crate::pretokenizer::concat_chars(pieces) == crate::laws::payloads(
                vocab,
                frags,
            ));
            assert(crate::tokenizer::spec_bpe_frags(vocab, frags) == emit_pieces(vocab, pieces));
        } else {
            let pats = crate::tokenizer::default_bpe_patterns();
            assert(crate::pretokenizer::spec_custom_kind(pats[0]) is Some);
            assert(crate::pretokenizer::all_custom(pats));
            crate::pretokenizer::lemma_unicode_split_coverage(f.text, pats);
            let ws = crate::pretokenizer::spec_unicode_split(f.text, pats);
            assert forall|i: int| 0 <= i < ws.len() implies (#[trigger] ws[i]).len()
                < NONE_IDX by {
                assert(ws[i].len() <= f.text.len());
            }
            lemma_bpe_words_coverage(vocab, ws);
            let p0 = choose|p0: Seq<Seq<char>>|
                #[trigger] crate::pretokenizer::concat_chars(p0)
                    == crate::pretokenizer::concat_chars(ws) && crate::bpe::spec_bpe_words(
                    vocab,
                    ws,
                ) == emit_pieces(vocab, p0);
            let pieces = p0 + prest;
            crate::pretokenizer::lemma_concat_chars_concat(p0, prest);
            lemma_emit_pieces_concat(vocab, p0, prest);
            assert(crate::pretokenizer::concat_chars(pieces) == crate::laws::payloads(
                vocab,
                frags,
            ));
            assert(crate::tokenizer::spec_bpe_frags(vocab, frags) == emit_pieces(vocab, pieces));
        }
    }
}

/// Coverage of the whole BPE tokenizer: for every input, the output ids
/// decompose piece by piece over a partition of the input text — each
/// piece contributing its own token id on a vocabulary hit and its UTF-8
/// bytes' mapping ids otherwise — bracketed by the asked-for BOS/EOS.
pub proof fn lemma_tokenize_coverage(
    vocab: TokenizerConfig,
    s: Seq<char>,
    add_special: bool,
    parse_special: bool,
)
    requires
        vocab.well_formed(),
        vocab.vocab_type == crate::vocab::VocabType::Bpe,
        crate::laws::no_strip_attrs(vocab),
        s.len() < NONE_IDX,
    ensures
        ({
            let bos: Seq<u32> = if add_special && vocab.add_bos {
                seq![vocab.bos]
            } else {
                Seq::empty()
            };
            let eos: Seq<u32> = if add_special && vocab.add_eos {
                seq![vocab.eos]
            } else {
                Seq::empty()
            };
            exists|pieces: Seq<Seq<char>>|
                #[trigger] crate::pretokenizer::concat_chars(pieces) == s
                    && crate::tokenizer::spec_tokenize(vocab, s, add_special, parse_special)
                    == Result::<Seq<u32>, crate::vocab::TokenizerError>::Ok(
                    bos + emit_pieces(vocab, pieces) + eos,
                )
        }),
{
    let frags0 = crate::tokenizer::initial_frags(s);
    let frags = crate::fragment::st_partition_spec(vocab, frags0, 0, parse_special);
    crate::laws::lemma_partition_coverage(vocab, s, parse_special);
    crate::laws::lemma_st_partition_coverage(vocab, frags0, 0, parse_special);
    crate::fragment::lemma_st_partition_text_len(vocab, frags0, 0, parse_special, s.len() as int);
    assert forall|i: int| 0 <= i < frags.len() implies (#[trigger] frags[i]).text.len()
        < NONE_IDX by {}
    lemma_bpe_frags_coverage(vocab, frags);
}

/// The geometric record of an SPM candidate, anchored at its left symbol's
/// fixed start (starts never change, so the anchor is enqueue-stable).
pub open spec fn spm_as_geom(syms: Seq<LlmSymbol>, b: LlmBigramSpm) -> LlmBigramBpe {
    LlmBigramBpe {
        left: b.left,
        right: b.right,
        start: if b.left < syms.len() {
            syms[b.left as int].start
        } else {
            0
        },
        size: b.size,
        rank: 0,
    }
}

/// Every queued SPM candidate keeps its geometric record.
pub open spec fn spm_queue_geom(s: Seq<char>, syms: Seq<LlmSymbol>, q: Seq<LlmBigramSpm>) -> bool {
    forall|i: int| 0 <= i < q.len() ==> bigram_geom(s, syms, spm_as_geom(syms, #[trigger] q[i]))
}

/// Merging two live symbols keeps every queued SPM candidate's geometric
/// record.
pub proof fn lemma_spm_merge_queue_geom(
    s: Seq<char>,
    syms: Seq<LlmSymbol>,
    b: LlmBigramBpe,
    q: Seq<LlmBigramSpm>,
)
    requires
        chain_ok(s, syms),
        bigram_geom(s, syms, b),
        syms[b.left as int].len > 0,
        syms[b.right as int].len > 0,
        syms[b.left as int].len + syms[b.right as int].len == b.size,
        spm_queue_geom(s, syms, q),
    ensures
        spm_queue_geom(s, merge_state(syms, b.left, b.right, b.size), q),
{
    lemma_merge_chain_ok(s, syms, b);
    let syms2 = merge_state(syms, b.left, b.right, b.size);
    assert forall|i: int|
        0 <= i < q.len() implies bigram_geom(s, syms2, spm_as_geom(syms2, #[trigger] q[i])) by {
        let c = q[i];
        assert(bigram_geom(s, syms, spm_as_geom(syms, c)));
        assert(syms2[c.left as int].start == syms[c.left as int].start);
        assert(syms2[c.right as int].start == syms[c.right as int].start);
        assert(spm_as_geom(syms2, c) == spm_as_geom(syms, c));
        if syms2[c.left as int].len != 0 {
            if c.left == b.left {
                assert(b.size >= syms[b.left as int].len);
            }
        }
        if syms2[c.right as int].len != 0 {
            if c.right == b.left {
                assert(b.size >= syms[b.left as int].len);
            }
        }
    }
}

/// An SPM candidate the merge loop enqueues for two chain neighbors
/// carries a valid geometric record.
pub proof fn lemma_spm_maybe_geom(
    vocab: TokenizerConfig,
    s: Seq<char>,
    syms: Seq<LlmSymbol>,
    li: usize,
    ri: usize,
)
    requires
        chain_ok(s, syms),
        li != NONE_IDX && ri != NONE_IDX && li < syms.len() && ri < syms.len() ==> (live(
            syms,
            li as int,
        ) && syms[li as int].next == ri && live(syms, ri as int)),
    ensures
        spm_queue_geom(s, syms, crate::spm::spm_maybe_bigram(vocab, s, syms, li, ri).0),
{
    let mb = crate::spm::spm_maybe_bigram(vocab, s, syms, li, ri).0;
    if mb.len() > 0 {
        let c = mb[0];
        assert(live(syms, li as int) && live(syms, ri as int));
        assert(syms[ri as int].start == syms[li as int].start + syms[li as int].len);
        if li == ri {
            assert(syms[li as int].len == 0);
        }
        assert(bigram_geom(s, syms, spm_as_geom(syms, c)));
        assert forall|i: int|
            0 <= i < mb.len() implies bigram_geom(s, syms, spm_as_geom(syms, #[trigger] mb[i])) by {
            assert(mb[i] == c);
        }
    }
}

/// Every SPM-seeded candidate carries a valid geometric record.
proof fn lemma_spm_seed_geom(vocab: TokenizerConfig, s: Seq<char>, syms: Seq<LlmSymbol>, i: int)
    requires
        syms == init_symbols(s.len() as int),
        s.len() < NONE_IDX,
        i >= 1,
    ensures
        spm_queue_geom(s, syms, crate::spm::spm_seed(vocab, s, syms, i).0),
    decreases syms.len() - i,
{
    if i < syms.len() {
        lemma_spm_seed_geom(vocab, s, syms, i + 1);
        let head = crate::spm::spm_maybe_bigram(vocab, s, syms, (i - 1) as usize, i as usize).0;
        let tail = crate::spm::spm_seed(vocab, s, syms, i + 1).0;
        let whole = crate::spm::spm_seed(vocab, s, syms, i).0;
        if head.len() > 0 {
            assert(bigram_geom(s, syms, spm_as_geom(syms, head[0])));
        }
        assert forall|j: int|
            0 <= j < whole.len() implies bigram_geom(s, syms, spm_as_geom(syms, #[trigger] whole[j]))
            by {
            if j < head.len() {
                assert(whole[j] == head[0]);
            } else {
                assert(whole[j] == tail[j - head.len()]);
            }
        }
    }
}

/// The SPM merge loop preserves the chain invariant all the way down.
pub proof fn lemma_spm_run_chain(
    vocab: TokenizerConfig,
    s: Seq<char>,
    syms: Seq<LlmSymbol>,
    q: Seq<LlmBigramSpm>,
    rev: Seq<(Seq<char>, usize, usize)>,
)
    requires
        chain_ok(s, syms),
        spm_queue_geom(s, syms, q),
    ensures
        chain_ok(s, crate::spm::spm_run(vocab, s, syms, q, rev).0),
        crate::spm::spm_run(vocab, s, syms, q, rev).0.len() == syms.len(),
    decreases crate::bpe::live_count(syms), q.len(),
{
    crate::bpe::lemma_live_count_nonneg(syms);
    if q.len() > 0 {
        let bi = crate::spm::spm_best_upto(q, q.len() as int);
        crate::spm::lemma_spm_best_upto(q, q.len() as int);
        let b = q[bi];
        let q1 = q.remove(bi);
        assert forall|i: int|
            0 <= i < q1.len() implies bigram_geom(s, syms, spm_as_geom(syms, #[trigger] q1[i])) by {
            if i < bi {
                assert(q1[i] == q[i]);
            } else {
                assert(q1[i] == q[i + 1]);
            }
        }
        if !crate::spm::spm_live(s, syms, b) {
            lemma_spm_run_chain(vocab, s, syms, q1, rev);
        } else {
            let gb = spm_as_geom(syms, b);
            assert(bigram_geom(s, syms, gb));
            lemma_live_bigram_adjacent(s, syms, gb);
            lemma_merge_chain_ok(s, syms, gb);
            crate::bpe::lemma_merge_live_count(syms, b.left, b.right, b.size);
            crate::bpe::lemma_live_count_nonneg(merge_state(syms, b.left, b.right, b.size));
            let syms2 = merge_state(syms, b.left, b.right, b.size);
            let m = syms2[b.left as int];
            lemma_spm_merge_queue_geom(s, syms, gb, q1);
            assert(live(syms2, b.left as int));
            assert(m.prev == NONE_IDX || (m.prev < syms2.len() && live(syms2, m.prev as int)
                && syms2[m.prev as int].next == b.left));
            assert(m.next == NONE_IDX || (m.next < syms2.len() && live(syms2, m.next as int)));
            lemma_spm_maybe_geom(vocab, s, syms2, m.prev, b.left);
            lemma_spm_maybe_geom(vocab, s, syms2, b.left, m.next);
            let n1 = crate::spm::spm_maybe_bigram(vocab, s, syms2, m.prev, b.left);
            let n2 = crate::spm::spm_maybe_bigram(vocab, s, syms2, b.left, m.next);
            let q2 = q1 + n1.0 + n2.0;
            assert forall|i: int|
                0 <= i < q2.len() implies bigram_geom(s, syms2, spm_as_geom(syms2, #[trigger] q2[i]))
                by {
                if i < q1.len() {
                    assert(q2[i] == q1[i]);
                } else if i < q1.len() + n1.0.len() {
                    assert(q2[i] == n1.0[i - q1.len()]);
                } else {
                    assert(q2[i] == n2.0[i - q1.len() - n1.0.len()]);
                }
            }
            lemma_spm_run_chain(vocab, s, syms2, q2, rev + n1.1 + n2.1);
        }
    }
}

/// Coverage of the SPM merge stage: whatever merges the loop performs, the
/// symbols that survive it spell the escaped fragment text exactly,
/// codepoint for codepoint. Resegmentation then reads those symbols.
pub proof fn lemma_spm_run_coverage(vocab: TokenizerConfig, s: Seq<char>)
    requires
        1 <= s.len() < NONE_IDX,
    ensures
        ({
            let syms = init_symbols(s.len() as int);
            let seeded = crate::spm::spm_seed(vocab, s, syms, 1);
            let run = crate::spm::spm_run(vocab, s, syms, seeded.0, seeded.1);
            walk_texts(s, run.0, first_live(run.0, 0), run.0.len() as nat) == s
        }),
{
    let syms = init_symbols(s.len() as int);
    let seeded = crate::spm::spm_seed(vocab, s, syms, 1);
    lemma_init_chain_ok(vocab, s);
    lemma_spm_seed_geom(vocab, s, syms, 1);
    lemma_spm_run_chain(vocab, s, syms, seeded.0, seeded.1);
    let run = crate::spm::spm_run(vocab, s, syms, seeded.0, seeded.1);
    let fin = run.0;
    let h = choose|h: int| live(fin, h) && (#[trigger] fin[h]).start == 0;
    let fl = first_live(fin, 0);
    lemma_first_live_is_head(fin, 0, h);
    assert(live(fin, fl) && fin[fl as int].start == 0) by {
        if fl != h {
            assert(fl < h);
            assert(live(fin, fl));
            assert(fin[fl].start + fin[fl].len <= fin[h].start);
        }
    }
    lemma_walk_covers(s, fin, fl, fin.len() as nat);
    assert(s.subrange(0, s.len() as int) =~= s);
}

/// When every live symbol's text is a vocabulary token, resegmentation
/// takes the direct hit on every visited symbol, so the walk emits one id
/// per piece.
proof fn lemma_spm_walk_hits(
    vocab: TokenizerConfig,
    s: Seq<char>,
    syms: Seq<LlmSymbol>,
    rev: Seq<(Seq<char>, usize, usize)>,
    i: int,
    fuel: nat,
    depth: nat,
)
    requires
        chain_ok(s, syms),
        forall|j: int| #[trigger] live(syms, j) ==> vocab.spec_has_text(sym_text(s, syms[j])),
        i >= syms.len() || live(syms, i),
    ensures
        crate::spm::spm_walk(vocab, s, syms, rev, i, fuel, depth) == Option::Some(
            emit_pieces(vocab, walk_pieces(s, syms, i, fuel)),
        ),
    decreases fuel,
{
    if fuel == 0 || i < 0 || i >= syms.len() {
        assert(walk_pieces(s, syms, i, fuel) =~= Seq::<Seq<char>>::empty());
        assert(emit_pieces(vocab, walk_pieces(s, syms, i, fuel)) =~= Seq::<u32>::empty());
    } else {
        assert(live(syms, i));
        let t = sym_text(s, syms[i]);
        assert(vocab.spec_has_text(t));
        assert(crate::spm::spec_resegment(vocab, s, syms, rev, syms[i], depth) == Option::Some(
            seq![vocab.spec_id_of(t) as u32],
        ));
        let k = syms[i].next as int;
        if syms[i].next != NONE_IDX {
            assert(live(syms, k));
        } else {
            assert(k >= syms.len());
        }
        lemma_spm_walk_hits(vocab, s, syms, rev, k, (fuel - 1) as nat, depth);
        let ps = walk_pieces(s, syms, i, fuel);
        assert(ps.drop_first() =~= walk_pieces(s, syms, k, (fuel - 1) as nat));
        assert(ps[0] == t);
        assert(emit_pieces(vocab, ps) =~= seq![vocab.spec_id_of(t) as u32] + emit_pieces(
            vocab,
            walk_pieces(s, syms, k, (fuel - 1) as nat),
        ));
    }
}

/// Coverage of one SPM fragment under direct hits: when every symbol that
/// survives the merge loop is itself a vocabulary token, the session's
/// output decomposes piece by piece over a partition of the escaped text.
pub proof fn lemma_spm_tokenize_coverage(vocab: TokenizerConfig, s: Seq<char>)
    requires
        1 <= s.len() < NONE_IDX,
        ({
            let syms = init_symbols(s.len() as int);
            let seeded = crate::spm::spm_seed(vocab, s, syms, 1);
            let run = crate::spm::spm_run(vocab, s, syms, seeded.0, seeded.1);
            forall|j: int| #[trigger] live(run.0, j) ==> vocab.spec_has_text(sym_text(s, run.0[j]))
        }),
    ensures
        exists|pieces: Seq<Seq<char>>|
            #[trigger] crate::pretokenizer::concat_chars(pieces) == s
                && crate::spm::spec_spm_tokenize(vocab, s) == Option::Some(
                emit_pieces(vocab, pieces),
            ),
{
    let syms = init_symbols(s.len() as int);
    let seeded = crate::spm::spm_seed(vocab, s, syms, 1);
    lemma_init_chain_ok(vocab, s);
    lemma_spm_seed_geom(vocab, s, syms, 1);
    lemma_spm_run_chain(vocab, s, syms, seeded.0, seeded.1);
    lemma_spm_run_coverage(vocab, s);
    let run = crate::spm::spm_run(vocab, s, syms, seeded.0, seeded.1);
    let fin = run.0;
    let h = choose|h: int| live(fin, h) && (#[trigger] fin[h]).start == 0;
    let fl = first_live(fin, 0);
    lemma_first_live_is_head(fin, 0, h);
    assert(live(fin, fl)) by {
        if fl != h {
            assert(fl < h);
            assert(live(fin, fl));
        }
    }
    lemma_spm_walk_hits(vocab, s, fin, run.1, fl, fin.len() as nat, (s.len() + 1) as nat);
    let pieces = walk_pieces(s, fin, fl, fin.len() as nat);
    lemma_walk_pieces_concat(s, fin, fl, fin.len() as nat);
    assert(crate::pretokenizer::concat_chars(pieces) == s);
    assert(crate::spm::spec_spm_tokenize(vocab, s) == Option::Some(emit_pieces(vocab, pieces)));
}

/// A text with no codepoint in the byte mapping's control range, which the
/// family inverse maps character for character to itself.
pub open spec fn piece_plain(p: Seq<char>) -> bool {
    forall|j: int| 0 <= j < p.len() ==> !(256 <= (#[trigger] p[j]) as u32 <= 323)
}

/// Detokenization distributes over concatenated id groups.
proof fn lemma_detokenize_concat(vocab: TokenizerConfig, a: Seq<u32>, b: Seq<u32>)
    ensures
        crate::tokenizer::spec_detokenize(vocab, a + b) == crate::tokenizer::spec_detokenize(
            vocab,
            a,
        ) + crate::tokenizer::spec_detokenize(vocab, b),
    decreases a.len(),
{
    if a.len() == 0 {
        assert(a + b =~= b);
        assert(crate::tokenizer::spec_detokenize(vocab, a) + crate::tokenizer::spec_detokenize(
            vocab,
            b,
        ) =~= crate::tokenizer::spec_detokenize(vocab, b));
    } else {
        lemma_detokenize_concat(vocab, a.drop_first(), b);
        assert((a + b).drop_first() =~= a.drop_first() + b);
        assert((a + b)[0] == a[0]);
        assert(crate::tokenizer::spec_detokenize(vocab, a + b)
            =~= crate::tokenizer::spec_detokenize(vocab, a) + crate::tokenizer::spec_detokenize(
            vocab,
            b,
        ));
    }
}

/// The detokenize inverse, where it holds: for a BPE vocabulary, when
/// every piece of the decomposition is a vocabulary hit whose text stays
/// outside the byte mapping's control range, detokenizing the emitted ids
/// gives back the pieces' concatenation — with the coverage theorem, the
/// input text. A piece inside that range, or one resolved per byte to
/// non-ASCII characters, genuinely decodes differently, because this
/// pipeline looks tokens up on the raw text rather than a byte encoding
/// of it.
pub proof fn lemma_detokenize_inverts_hits(vocab: TokenizerConfig, pieces: Seq<Seq<char>>)
    requires
        vocab.well_formed(),
        vocab.vocab_type == crate::vocab::VocabType::Bpe,
        forall|i: int| 0 <= i < pieces.len() ==> vocab.spec_has_text(#[trigger] pieces[i]),
        forall|i: int| 0 <= i < pieces.len() ==> piece_plain(#[trigger] pieces[i]),
    ensures
        crate::tokenizer::spec_detokenize(vocab, emit_pieces(vocab, pieces))
            == crate::pretokenizer::concat_chars(pieces),
    decreases pieces.len(),
{
    if pieces.len() == 0 {
        assert(emit_pieces(vocab, pieces) =~= Seq::<u32>::empty());
        assert(crate::tokenizer::spec_detokenize(vocab, Seq::<u32>::empty()) =~= Seq::<
            char,
        >::empty());
        assert(crate::pretokenizer::concat_chars(pieces) =~= Seq::<char>::empty());
    } else {
        let p = pieces[0];
        assert(vocab.spec_has_text(p));
        let id = vocab.spec_id_of(p);
        assert(0 <= id < vocab.spec_n_tokens() && vocab.token_text(id) == p);
        let ids0 = seq![id as u32];
        assert(spec_piece_ids(vocab, p) == ids0);
        lemma_detokenize_inverts_hits(vocab, pieces.drop_first());
        lemma_detokenize_concat(vocab, ids0, emit_pieces(vocab, pieces.drop_first()));
        assert(emit_pieces(vocab, pieces) == ids0 + emit_pieces(vocab, pieces.drop_first()));
        // one hit id decodes to its own text, untouched by the inverse
        assert(ids0.drop_first() =~= Seq::<u32>::empty());
        assert(crate::tokenizer::spec_detokenize(vocab, Seq::<u32>::empty()) =~= Seq::<
            char,
        >::empty());
        assert(piece_plain(p));
        assert(crate::tokenizer::spec_detokenize(vocab, ids0) =~= p) by {
            assert(vocab.token_text(ids0[0] as int) == p);
            let mapped = p.map(|j: int, c: char| crate::tokenizer::spec_detokenize_char(vocab, c));
            assert forall|j: int| 0 <= j < p.len() implies mapped[j] == p[j] by {
                assert(!(256 <= p[j] as u32 <= 323));
            }
            assert(mapped =~= p);
            assert(crate::tokenizer::spec_detokenize(vocab, ids0) =~= mapped + Seq::<char>::empty());
        }
        assert(crate::pretokenizer::concat_chars(pieces) =~= p + crate::pretokenizer::concat_chars(
            pieces.drop_first(),
        ));
    }
}

/// The first live index is at most any live index.
proof fn lemma_first_live_is_head(syms: Seq<LlmSymbol>, i: int, h: int)
    requires
        0 <= i <= h,
        live(syms, h),
    ensures
        i <= first_live(syms, i) <= h,
        live(syms, first_live(syms, i)),
    decreases syms.len() - i,
{
    if i < syms.len() && syms[i].len == 0 {
        lemma_first_live_is_head(syms, i + 1, h);
    }
}

} // verus!
