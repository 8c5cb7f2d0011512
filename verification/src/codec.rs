//! The codec decode adapter's token layout.
//!
//! The audio codec decoder consumes the aligned tokens as one flat
//! row-major buffer with the logical shape
//! `1 x 1 x num_codebooks x aligned_length`.  Packing the undelayed grid
//! into that layout is decided here; running the codec model on it is
//! float work that stays with the application.

use vstd::prelude::*;

use crate::delay::DelayGrid;

verus! {

/// Packs the undelayed grid into the codec decoder's flat row-major
/// layout: entry `cb * aligned_length + t` holds codebook `cb`'s aligned
/// token for timestep `t`, with residual padding already mapped to the
/// silence token id 0.
pub fn pack_audio_codes(grid: &DelayGrid) -> (r: Vec<i64>)
    requires
        grid.wf(),
    ensures
        ({
            let aligned_len = grid.spec_max_length() - grid.spec_num_codebooks();
            &&& r@.len() == grid.spec_num_codebooks() * aligned_len
            &&& forall|cb: int, t: int|
                0 <= cb < grid.spec_num_codebooks() && 0 <= t < aligned_len
                    ==> #[trigger] r@[cb * aligned_len + t] == (if grid.token_at(cb, 1 + cb + t)
                    == grid.spec_pad_token() {
                    0i64
                } else {
                    grid.token_at(cb, 1 + cb + t)
                })
            &&& forall|i: int|
                0 <= i < r@.len() ==> #[trigger] r@[i] == (if grid.token_at(
                    i / aligned_len,
                    1 + i / aligned_len + i % aligned_len,
                ) == grid.spec_pad_token() {
                    0i64
                } else {
                    grid.token_at(i / aligned_len, 1 + i / aligned_len + i % aligned_len)
                })
        }),
{
    proof {
        grid.lemma_dimensions();
    }
    let aligned = grid.undelay();
    let ghost aligned_len = grid.spec_max_length() - grid.spec_num_codebooks();
    let mut r: Vec<i64> = Vec::new();
    let mut cb: usize = 0;
    while cb < aligned.len()
        invariant
            aligned@.len() == grid.spec_num_codebooks(),
            forall|c: int| 0 <= c < aligned@.len() ==> (#[trigger] aligned@[c])@.len() == aligned_len,
            cb <= aligned@.len(),
            r@.len() == cb * aligned_len,
            forall|c: int, t: int|
                0 <= c < cb && 0 <= t < aligned_len ==> #[trigger] r@[c * aligned_len + t]
                    == aligned@[c]@[t],
        decreases aligned@.len() - cb,
    {
        let ghost r0 = r@;
        let row = &aligned[cb];
        let mut t: usize = 0;
        while t < row.len()
            invariant
                row@ == aligned@[cb as int]@,
                t <= aligned_len,
                r@.len() == r0.len() + t,
                r@ =~= r0 + row@.take(t as int),
            decreases row@.len() - t,
        {
            r.push(row[t]);
            t = t + 1;
        }
        proof {
            assert(r@ =~= r0 + aligned@[cb as int]@);
            assert((cb + 1) * aligned_len == cb * aligned_len + aligned_len) by (nonlinear_arith);
            assert forall|c: int, u: int|
                0 <= c < cb + 1 && 0 <= u < aligned_len implies #[trigger] r@[c * aligned_len + u]
                == aligned@[c]@[u] by {
                assert(c * aligned_len + u < (c + 1) * aligned_len <= (cb + 1) * aligned_len)
                    by (nonlinear_arith)
                    requires
                        0 <= c < cb + 1,
                        0 <= u < aligned_len,
                ;
                assert(0 <= c * aligned_len) by (nonlinear_arith)
                    requires
                        0 <= c,
                        0 <= aligned_len,
                ;
                if c < cb {
                    assert(c * aligned_len + u < cb * aligned_len) by (nonlinear_arith)
                        requires
                            0 <= c < cb,
                            0 <= u < aligned_len,
                    ;
                    assert(r0[c * aligned_len + u] == aligned@[c]@[u]);
                } else {
                    assert(r@[cb * aligned_len + u] == aligned@[cb as int]@[u]);
                }
            }
        }
        cb = cb + 1;
    }
    proof {
        let c_total = grid.spec_num_codebooks() as int;
        assert forall|i: int| 0 <= i < r@.len() implies #[trigger] r@[i] == (if grid.token_at(
            i / aligned_len,
            1 + i / aligned_len + i % aligned_len,
        ) == grid.spec_pad_token() {
            0i64
        } else {
            grid.token_at(i / aligned_len, 1 + i / aligned_len + i % aligned_len)
        }) by {
            vstd::arithmetic::div_mod::lemma_fundamental_div_mod(i, aligned_len);
            vstd::arithmetic::div_mod::lemma_mod_bound(i, aligned_len);
            vstd::arithmetic::div_mod::lemma_div_pos_is_pos(i, aligned_len);
            let cbq = i / aligned_len;
            let tq = i % aligned_len;
            assert(aligned_len * cbq <= i);
            assert(cbq < c_total) by (nonlinear_arith)
                requires
                    aligned_len >= 1,
                    aligned_len * cbq <= i,
                    i < c_total * aligned_len,
            ;
            assert(r@[cbq * aligned_len + tq] == aligned@[cbq]@[tq]);
            assert(cbq * aligned_len + tq == i);
        }
    }
    r
}

/// The aligned sequence length the codec decoder receives per codebook:
/// `max_length - 1 - (num_codebooks - 1)`.
pub fn aligned_length(grid: &DelayGrid) -> (r: usize)
    requires
        grid.wf(),
    ensures
        r == grid.spec_max_length() - grid.spec_num_codebooks(),
{
    proof {
        grid.lemma_dimensions();
    }
    grid.max_length() - 1 - (grid.num_codebooks() - 1)
}

} // verus!
