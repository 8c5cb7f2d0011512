//! The delay-pattern token grid.
//!
//! The grid has `2 * num_codebooks` rows and `max_length` columns of token
//! ids.  Rows `0..num_codebooks` carry the conditional half of the
//! classifier-free-guidance batch, rows `num_codebooks..2*num_codebooks`
//! the unconditional half; the two halves always mirror each other, since
//! guidance affects logits only, never the chosen token.  Column 0 holds
//! the beginning-of-sequence token in every row.  Codebook `k` is delayed
//! by `k` steps: it is active (receives generated tokens) only at columns
//! `t > k`; a cell before its codebook's activation boundary keeps the
//! padding token, and the undelay stage maps any remaining padding to the
//! silence token id 0.

use vstd::prelude::*;

verus! {

/// The codebook a grid row belongs to: row `r` and row
/// `r + num_codebooks` carry the same codebook.
pub open spec fn codebook_of_row(row: int, num_codebooks: int) -> int {
    if row < num_codebooks {
        row
    } else {
        row - num_codebooks
    }
}

/// Whether codebook `codebook` generates a token at column `timestep`:
/// codebook `k` becomes active starting at column `k + 1`.
pub fn is_active(codebook: usize, timestep: usize) -> (r: bool)
    ensures
        r == (timestep > codebook),
{
    timestep > codebook
}

#[derive(Debug)]
pub struct DelayGrid {
    num_codebooks: usize,
    max_length: usize,
    pad_token: i64,
    bos_token: i64,
    /// Number of leading columns holding content: column 0 after
    /// initialization, then one more per generation step.  Cells are
    /// write-once because only column `filled` is ever written.
    filled: usize,
    rows: Vec<Vec<i64>>,
}

impl DelayGrid {
    pub closed spec fn spec_num_codebooks(&self) -> usize {
        self.num_codebooks
    }

    pub closed spec fn spec_max_length(&self) -> usize {
        self.max_length
    }

    pub closed spec fn spec_pad_token(&self) -> i64 {
        self.pad_token
    }

    pub closed spec fn spec_bos_token(&self) -> i64 {
        self.bos_token
    }

    pub closed spec fn spec_filled(&self) -> usize {
        self.filled
    }

    /// The token id held at `(row, t)`.
    pub closed spec fn token_at(&self, row: int, t: int) -> i64 {
        self.rows@[row]@[t]
    }

    /// Well-formedness: shape, the beginning-of-sequence column, the
    /// conditional/unconditional mirror, padding before each codebook's
    /// activation boundary, and padding in the not-yet-filled columns.
    pub closed spec fn wf(&self) -> bool {
        &&& 1 <= self.num_codebooks
        &&& self.num_codebooks < self.max_length
        &&& 2 * self.num_codebooks <= usize::MAX
        &&& 1 <= self.filled <= self.max_length
        &&& self.rows@.len() == 2 * self.num_codebooks
        &&& forall|r: int|
            0 <= r < self.rows@.len() ==> (#[trigger] self.rows@[r])@.len() == self.max_length
        &&& forall|r: int| 0 <= r < self.rows@.len() ==> (#[trigger] self.rows@[r])@[0] == self.bos_token
        &&& forall|r: int, t: int|
            0 <= r < self.num_codebooks && 0 <= t < self.max_length ==> #[trigger] self
                .token_at(r, t) == self.token_at(r + self.num_codebooks, t)
        &&& forall|r: int, t: int|
            0 <= r < self.rows@.len() && 1 <= t < self.filled && t
                <= codebook_of_row(r, self.num_codebooks as int) ==> #[trigger] self.token_at(r, t)
                == self.pad_token
        &&& forall|r: int, t: int|
            0 <= r < self.rows@.len() && self.filled <= t < self.max_length ==> #[trigger] self
                .token_at(r, t) == self.pad_token
    }

    pub fn num_codebooks(&self) -> (r: usize)
        ensures
            r == self.spec_num_codebooks(),
    {
        self.num_codebooks
    }

    pub fn max_length(&self) -> (r: usize)
        ensures
            r == self.spec_max_length(),
    {
        self.max_length
    }

    pub fn pad_token(&self) -> (r: i64)
        ensures
            r == self.spec_pad_token(),
    {
        self.pad_token
    }

    pub fn bos_token(&self) -> (r: i64)
        ensures
            r == self.spec_bos_token(),
    {
        self.bos_token
    }

    pub fn filled(&self) -> (r: usize)
        ensures
            r == self.spec_filled(),
    {
        self.filled
    }

    /// Allocates the grid filled with the padding token and sets column 0
    /// of every row to the beginning-of-sequence token.
    pub fn new(num_codebooks: usize, max_length: usize, pad_token: i64, bos_token: i64) -> (g:
        DelayGrid)
        requires
            1 <= num_codebooks,
            num_codebooks < max_length,
            2 * num_codebooks <= usize::MAX,
        ensures
            g.wf(),
            g.spec_num_codebooks() == num_codebooks,
            g.spec_max_length() == max_length,
            g.spec_pad_token() == pad_token,
            g.spec_bos_token() == bos_token,
            g.spec_filled() == 1,
            forall|r: int, t: int|
                0 <= r < 2 * num_codebooks && 0 <= t < max_length ==> #[trigger] g.token_at(r, t)
                    == (if t == 0 {
                    bos_token
                } else {
                    pad_token
                }),
    {
        let total_rows = 2 * num_codebooks;
        let mut rows: Vec<Vec<i64>> = Vec::new();
        while rows.len() < total_rows
            invariant
                rows@.len() <= total_rows,
                forall|r: int| 0 <= r < rows@.len() ==> (#[trigger] rows@[r])@.len() == max_length,
                forall|r: int, t: int|
                    0 <= r < rows@.len() && 0 <= t < max_length ==> #[trigger] rows@[r]@[t] == (
                    if t == 0 {
                        bos_token
                    } else {
                        pad_token
                    }),
            decreases total_rows - rows@.len(),
        {
            let mut row: Vec<i64> = Vec::new();
            row.push(bos_token);
            while row.len() < max_length
                invariant
                    1 <= row@.len() <= max_length,
                    row@[0] == bos_token,
                    forall|t: int| 1 <= t < row@.len() ==> row@[t] == pad_token,
                decreases max_length - row@.len(),
            {
                row.push(pad_token);
            }
            rows.push(row);
        }
        DelayGrid { num_codebooks, max_length, pad_token, bos_token, filled: 1, rows }
    }

    /// Writes one generation step's sampled tokens into the next unfilled
    /// column.  `sampled[k]` is the token chosen for codebook `k`; it is
    /// mirrored into both the conditional and the unconditional row of
    /// that codebook wherever the codebook is active at this column, and
    /// an inactive cell keeps the padding token.
    pub fn write_next_column(&mut self, sampled: &Vec<i64>)
        requires
            old(self).wf(),
            old(self).spec_filled() < old(self).spec_max_length(),
            sampled@.len() == old(self).spec_num_codebooks(),
        ensures
            final(self).wf(),
            final(self).spec_num_codebooks() == old(self).spec_num_codebooks(),
            final(self).spec_max_length() == old(self).spec_max_length(),
            final(self).spec_pad_token() == old(self).spec_pad_token(),
            final(self).spec_bos_token() == old(self).spec_bos_token(),
            final(self).spec_filled() == old(self).spec_filled() + 1,
            forall|r: int, t: int|
                0 <= r < 2 * old(self).spec_num_codebooks() && 0 <= t < old(self).spec_max_length()
                    && t != old(self).spec_filled() ==> #[trigger] final(self).token_at(r, t) == old(
                self).token_at(r, t),
            forall|r: int|
                0 <= r < 2 * old(self).spec_num_codebooks() ==> #[trigger] final(self).token_at(
                    r,
                    old(self).spec_filled() as int,
                ) == (if old(self).spec_filled() > codebook_of_row(
                    r,
                    old(self).spec_num_codebooks() as int,
                ) {
                    sampled@[codebook_of_row(r, old(self).spec_num_codebooks() as int)]
                } else {
                    old(self).spec_pad_token()
                }),
    {
        let pos = self.filled;
        let total_rows = 2 * self.num_codebooks;
        let ghost g0 = *self;
        let mut r: usize = 0;
        while r < total_rows
            invariant
                self.num_codebooks == g0.num_codebooks,
                self.max_length == g0.max_length,
                self.pad_token == g0.pad_token,
                self.bos_token == g0.bos_token,
                self.filled == g0.filled,
                r <= total_rows,
                self.rows@.len() == total_rows,
                forall|rr: int|
                    0 <= rr < total_rows ==> (#[trigger] self.rows@[rr])@.len() == g0.max_length,
                forall|rr: int, t: int|
                    0 <= rr < total_rows && 0 <= t < g0.max_length && !(rr < r && t == pos)
                        ==> #[trigger] self.rows@[rr]@[t] == g0.rows@[rr]@[t],
                forall|rr: int|
                    0 <= rr < r ==> #[trigger] self.rows@[rr]@[pos as int] == (if pos
                        > codebook_of_row(rr, g0.num_codebooks as int) {
                        sampled@[codebook_of_row(rr, g0.num_codebooks as int)]
                    } else {
                        g0.pad_token
                    }),
            decreases total_rows - r,
        {
            let cb = if r < self.num_codebooks {
                r
            } else {
                r - self.num_codebooks
            };
            if is_active(cb, pos) {
                self.rows[r][pos] = sampled[cb];
            } else {
                self.rows[r][pos] = self.pad_token;
            }
            r = r + 1;
        }
        self.filled = self.filled + 1;
        proof {
            let c = self.num_codebooks as int;
            assert forall|rr: int, t: int|
                0 <= rr < c && 0 <= t < self.max_length implies #[trigger] self.token_at(rr, t)
                == self.token_at(rr + c, t) by {
                if t == pos {
                    assert(codebook_of_row(rr, c) == rr);
                    assert(codebook_of_row(rr + c, c) == rr);
                } else {
                    assert(self.token_at(rr, t) == g0.token_at(rr, t));
                    assert(self.token_at(rr + c, t) == g0.token_at(rr + c, t));
                    assert(g0.token_at(rr, t) == g0.token_at(rr + c, t));
                }
            }
            assert forall|rr: int, t: int|
                0 <= rr < self.rows@.len() && 1 <= t < self.filled && t <= codebook_of_row(rr, c)
                implies #[trigger] self.token_at(rr, t) == self.pad_token by {
                if t != pos {
                    assert(self.token_at(rr, t) == g0.token_at(rr, t));
                    assert(g0.token_at(rr, t) == g0.pad_token);
                }
            }
            assert forall|rr: int, t: int|
                0 <= rr < self.rows@.len() && self.filled <= t < self.max_length
                implies #[trigger] self.token_at(rr, t) == self.pad_token by {
                assert(self.token_at(rr, t) == g0.token_at(rr, t));
                assert(g0.token_at(rr, t) == g0.pad_token);
            }
            assert forall|rr: int| 0 <= rr < self.rows@.len() implies (#[trigger] self.rows@[rr])@[0]
                == self.bos_token by {
                assert(self.rows@[rr]@[0] == g0.rows@[rr]@[0]);
            }
        }
    }

    /// The tokens of column `pos`, one entry per row; the column the
    /// decoder feeds back as the next step's input.
    pub fn column(&self, pos: usize) -> (col: Vec<i64>)
        requires
            self.wf(),
            pos < self.spec_max_length(),
        ensures
            col@.len() == 2 * self.spec_num_codebooks(),
            forall|r: int|
                0 <= r < 2 * self.spec_num_codebooks() ==> #[trigger] col@[r] == self.token_at(
                    r,
                    pos as int,
                ),
    {
        let total_rows = 2 * self.num_codebooks;
        let mut col: Vec<i64> = Vec::new();
        let mut r: usize = 0;
        while r < total_rows
            invariant
                self.wf(),
                pos < self.spec_max_length(),
                total_rows == 2 * self.spec_num_codebooks(),
                r <= total_rows,
                col@.len() == r,
                forall|rr: int| 0 <= rr < r ==> #[trigger] col@[rr] == self.token_at(rr, pos as int),
            decreases total_rows - r,
        {
            col.push(self.rows[r][pos]);
            r = r + 1;
        }
        col
    }

    /// Removes the per-codebook delay offsets: aligned timestep `t` of
    /// codebook `k` is read from grid column `1 + k + t` of the
    /// conditional row `k`, and any cell still holding the padding token
    /// is mapped to the silence token id 0.  The aligned length is
    /// `max_length - 1 - (num_codebooks - 1)`.
    pub fn undelay(&self) -> (aligned: Vec<Vec<i64>>)
        requires
            self.wf(),
        ensures
            aligned@.len() == self.spec_num_codebooks(),
            forall|cb: int|
                0 <= cb < self.spec_num_codebooks() ==> (#[trigger] aligned@[cb])@.len()
                    == self.spec_max_length() - self.spec_num_codebooks(),
            forall|cb: int, t: int|
                0 <= cb < self.spec_num_codebooks() && 0 <= t < self.spec_max_length()
                    - self.spec_num_codebooks() ==> #[trigger] aligned@[cb]@[t] == (if self
                    .token_at(cb, 1 + cb + t) == self.spec_pad_token() {
                    0i64
                } else {
                    self.token_at(cb, 1 + cb + t)
                }),
    {
        let aligned_len = self.max_length - 1 - (self.num_codebooks - 1);
        let mut aligned: Vec<Vec<i64>> = Vec::new();
        let mut cb: usize = 0;
        while cb < self.num_codebooks
            invariant
                self.wf(),
                aligned_len == self.spec_max_length() - self.spec_num_codebooks(),
                cb <= self.spec_num_codebooks(),
                aligned@.len() == cb,
                forall|c: int| 0 <= c < cb ==> (#[trigger] aligned@[c])@.len() == aligned_len,
                forall|c: int, t: int|
                    0 <= c < cb && 0 <= t < aligned_len ==> #[trigger] aligned@[c]@[t] == (
                    if self.token_at(c, 1 + c + t) == self.spec_pad_token() {
                        0i64
                    } else {
                        self.token_at(c, 1 + c + t)
                    }),
            decreases self.spec_num_codebooks() - cb,
        {
            let mut row: Vec<i64> = Vec::new();
            let mut t: usize = 0;
            while t < aligned_len
                invariant
                    self.wf(),
                    aligned_len == self.spec_max_length() - self.spec_num_codebooks(),
                    cb < self.spec_num_codebooks(),
                    t <= aligned_len,
                    row@.len() == t,
                    forall|u: int|
                        0 <= u < t ==> #[trigger] row@[u] == (if self.token_at(
                            cb as int,
                            1 + cb + u,
                        ) == self.spec_pad_token() {
                            0i64
                        } else {
                            self.token_at(cb as int, 1 + cb + u)
                        }),
                decreases aligned_len - t,
            {
                let src_col = 1 + cb + t;
                let val = self.rows[cb][src_col];
                if val == self.pad_token {
                    row.push(0);
                } else {
                    row.push(val);
                }
                t = t + 1;
            }
            aligned.push(row);
            cb = cb + 1;
        }
        aligned
    }

    /// The mirror law: the conditional and unconditional halves of a
    /// well-formed grid hold identical tokens in every column, because
    /// each sampled token is written to both rows of its codebook.
    pub proof fn lemma_mirror(&self)
        requires
            self.wf(),
        ensures
            forall|r: int, t: int|
                0 <= r < self.spec_num_codebooks() && 0 <= t < self.spec_max_length()
                    ==> #[trigger] self.token_at(r, t) == self.token_at(
                    r + self.spec_num_codebooks(),
                    t,
                ),
    {
    }

    /// The dimensions a well-formed grid is guaranteed: at least one
    /// codebook, and more columns than codebooks, so at least one
    /// generation step and a positive aligned length.
    pub proof fn lemma_dimensions(&self)
        requires
            self.wf(),
        ensures
            1 <= self.spec_num_codebooks() < self.spec_max_length(),
            2 * self.spec_num_codebooks() <= usize::MAX,
            1 <= self.spec_filled() <= self.spec_max_length(),
    {
    }

    /// The delay law: before its codebook's activation boundary
    /// (`t <= k`, except for the beginning-of-sequence column), a cell of
    /// a well-formed grid still holds the padding token.
    pub proof fn lemma_inactive_padding(&self)
        requires
            self.wf(),
        ensures
            forall|r: int, t: int|
                0 <= r < 2 * self.spec_num_codebooks() && 1 <= t < self.spec_max_length() && t
                    <= codebook_of_row(r, self.spec_num_codebooks() as int) ==> #[trigger] self
                    .token_at(r, t) == self.spec_pad_token(),
    {
    }

    /// The beginning-of-sequence law: column 0 of a well-formed grid
    /// holds the beginning-of-sequence token in every row.
    pub proof fn lemma_bos_column(&self)
        requires
            self.wf(),
        ensures
            forall|r: int|
                0 <= r < 2 * self.spec_num_codebooks() ==> #[trigger] self.token_at(r, 0)
                    == self.spec_bos_token(),
    {
    }
}

} // verus!
