//! Top-k candidate selection.
//!
//! Sampling draws one token from the top-k entries of a logit vector.
//! The selection of the k highest-scoring candidates is token-index
//! logic and lives here, over scores already mapped to integers in an
//! order-preserving way; the softmax over the selected candidates and the
//! random draw are floating-point work that stays with the application.
//! Ties are broken deterministically in favour of the lower vocabulary
//! index, and the whole selection is a pure function of its arguments,
//! so repeated calls on the same scores and `k` return the same
//! candidates.

use vstd::prelude::*;

verus! {

/// The strict total order the selection uses: `a` comes before `b` when
/// its score is higher, or on equal scores when its index is lower.
pub open spec fn precedes(scores: Seq<i64>, a: int, b: int) -> bool {
    scores[a] > scores[b] || (scores[a] == scores[b] && a < b)
}

/// Selects the `k` highest-scoring vocabulary indices (`k` clamped to the
/// vector length), ordered best first.  Every selected index strictly
/// precedes every unselected one in the selection order, so the result is
/// exactly the first `min(k, len)` indices of that order.
pub fn top_k_select(scores: &Vec<i64>, k: usize) -> (r: Vec<usize>)
    ensures
        r@.len() == (if k <= scores@.len() {
            k as int
        } else {
            scores@.len() as int
        }),
        forall|i: int| 0 <= i < r@.len() ==> (#[trigger] r@[i]) < scores@.len(),
        forall|i1: int, i2: int|
            #![trigger r@[i1], r@[i2]]
            0 <= i1 < i2 < r@.len() ==> precedes(scores@, r@[i1] as int, r@[i2] as int),
        forall|i: int, u: usize|
            #![trigger r@[i], r@.contains(u)]
            0 <= i < r@.len() && u < scores@.len() && !r@.contains(u) ==> precedes(
                scores@,
                r@[i] as int,
                u as int,
            ),
{
    let n = scores.len();
    let kk = if k <= n {
        k
    } else {
        n
    };
    let mut cands: Vec<usize> = Vec::new();
    let mut j: usize = 0;
    while j < n
        invariant
            j <= n,
            cands@.len() == j,
            forall|i: int| 0 <= i < j ==> (#[trigger] cands@[i]) == i,
        decreases n - j,
    {
        cands.push(j);
        j = j + 1;
    }
    proof {
        assert forall|u: usize| u < n implies #[trigger] cands@.contains(u) by {
            assert(cands@[u as int] == u);
        }
    }
    let mut out: Vec<usize> = Vec::new();
    while out.len() < kk
        invariant
            out@.len() <= kk,
            cands@.len() + out@.len() == n,
            forall|i: int| 0 <= i < out@.len() ==> (#[trigger] out@[i]) < n,
            forall|i: int| 0 <= i < cands@.len() ==> (#[trigger] cands@[i]) < n,
            forall|q1: int, q2: int|
                #![trigger cands@[q1], cands@[q2]]
                0 <= q1 < q2 < cands@.len() ==> cands@[q1] != cands@[q2],
            forall|u: usize|
                u < n ==> out@.contains(u) || #[trigger] cands@.contains(u),
            forall|i: int, q: int|
                #![trigger out@[i], cands@[q]]
                0 <= i < out@.len() && 0 <= q < cands@.len() ==> out@[i] != cands@[q],
            forall|i1: int, i2: int|
                #![trigger out@[i1], out@[i2]]
                0 <= i1 < i2 < out@.len() ==> precedes(scores@, out@[i1] as int, out@[i2] as int),
            forall|i: int, q: int|
                #![trigger out@[i], cands@[q]]
                0 <= i < out@.len() && 0 <= q < cands@.len() ==> precedes(
                    scores@,
                    out@[i] as int,
                    cands@[q] as int,
                ),
        decreases kk - out@.len(),
    {
        let mut best_pos: usize = 0;
        let mut t: usize = 1;
        while t < cands.len()
            invariant
                cands@.len() >= 1,
                best_pos < t <= cands@.len(),
                forall|q: int|
                    0 <= q < t && q != best_pos ==> precedes(
                        scores@,
                        cands@[best_pos as int] as int,
                        (#[trigger] cands@[q]) as int,
                    ),
            decreases cands@.len() - t,
        {
            let cj = cands[t];
            let cb = cands[best_pos];
            if scores[cj] > scores[cb] || (scores[cj] == scores[cb] && cj < cb) {
                best_pos = t;
            }
            t = t + 1;
        }
        let ghost old_out = out@;
        let ghost old_cands = cands@;
        let ghost p = best_pos as int;
        let b = cands.remove(best_pos);
        out.push(b);
        proof {
            assert forall|u: usize|
                u < n implies out@.contains(u) || #[trigger] cands@.contains(u) by {
                if old_out.contains(u) {
                    let i = choose|i: int| 0 <= i < old_out.len() && old_out[i] == u;
                    assert(out@[i] == u);
                } else {
                    assert(old_cands.contains(u));
                    let q = choose|q: int| 0 <= q < old_cands.len() && old_cands[q] == u;
                    if q == p {
                        assert(out@[out@.len() - 1] == u);
                    } else if q < p {
                        assert(cands@[q] == u);
                    } else {
                        assert(cands@[q - 1] == u);
                    }
                }
            }
            assert forall|i: int, q: int|
                #![trigger out@[i], cands@[q]]
                0 <= i < out@.len() && 0 <= q < cands@.len() implies out@[i] != cands@[q] by {
                assert(cands@[q] == if q < p {
                    old_cands[q]
                } else {
                    old_cands[q + 1]
                });
            }
            assert forall|i: int, q: int|
                #![trigger out@[i], cands@[q]]
                0 <= i < out@.len() && 0 <= q < cands@.len() implies precedes(
                scores@,
                out@[i] as int,
                cands@[q] as int,
            ) by {
                assert(cands@[q] == if q < p {
                    old_cands[q]
                } else {
                    old_cands[q + 1]
                });
            }
        }
    }
    proof {
        assert forall|i: int, u: usize|
            #![trigger out@[i], out@.contains(u)]
            0 <= i < out@.len() && u < scores@.len() && !out@.contains(u) implies precedes(
            scores@,
            out@[i] as int,
            u as int,
        ) by {
            assert(cands@.contains(u));
            let q = choose|q: int| 0 <= q < cands@.len() && cands@[q] == u;
            assert(precedes(scores@, out@[i] as int, cands@[q] as int));
        }
    }
    out
}

} // verus!
