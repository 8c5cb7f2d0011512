use poing::delay::{is_active, DelayGrid};

const PAD: i64 = 2048;
const BOS: i64 = 2048;

#[test]
fn activation_follows_delay() {
    for k in 0..8usize {
        for t in 0..16usize {
            assert_eq!(is_active(k, t), t > k);
        }
    }
}

#[test]
fn fresh_grid_has_bos_column_and_padding() {
    let grid = DelayGrid::new(4, 10, PAD, BOS);
    let col0 = grid.column(0);
    assert_eq!(col0.len(), 8);
    assert!(col0.iter().all(|&v| v == BOS));
    for t in 1..10usize {
        let col = grid.column(t);
        assert!(col.iter().all(|&v| v == PAD));
    }
    assert_eq!(grid.filled(), 1);
}

#[test]
fn written_column_mirrors_and_respects_activity() {
    let mut grid = DelayGrid::new(2, 10, PAD, BOS);
    grid.write_next_column(&vec![7, 9]);
    let col1 = grid.column(1);
    // codebook 0 is active at column 1, codebook 1 is not
    assert_eq!(col1, vec![7, PAD, 7, PAD]);
    grid.write_next_column(&vec![11, 13]);
    let col2 = grid.column(2);
    assert_eq!(col2, vec![11, 13, 11, 13]);
    assert_eq!(grid.filled(), 3);
}

#[test]
fn mirror_holds_for_every_column() {
    let mut grid = DelayGrid::new(3, 8, PAD, BOS);
    for step in 0..7i64 {
        grid.write_next_column(&vec![step * 10, step * 10 + 1, step * 10 + 2]);
    }
    for t in 0..8usize {
        let col = grid.column(t);
        for r in 0..3usize {
            assert_eq!(col[r], col[r + 3]);
        }
    }
}

#[test]
fn undelay_aligns_codebooks() {
    // Fill the grid so that cell (cb, 1 + cb + t) holds 100*cb + t, then
    // check that undelaying recovers exactly that value at (cb, t).
    let num_codebooks = 3usize;
    let max_length = 9usize;
    let mut grid = DelayGrid::new(num_codebooks, max_length, PAD, BOS);
    for pos in 1..max_length {
        let mut sampled: Vec<i64> = Vec::new();
        for cb in 0..num_codebooks {
            sampled.push(100 * cb as i64 + pos as i64 - 1 - cb as i64);
        }
        grid.write_next_column(&sampled);
    }
    let aligned = grid.undelay();
    let aligned_len = max_length - 1 - (num_codebooks - 1);
    assert_eq!(aligned.len(), num_codebooks);
    for cb in 0..num_codebooks {
        assert_eq!(aligned[cb].len(), aligned_len);
        for t in 0..aligned_len {
            assert_eq!(aligned[cb][t], 100 * cb as i64 + t as i64);
        }
    }
}

#[test]
fn undelay_maps_padding_to_silence() {
    // Only one column is written; everything after it is still padding
    // and must come out as the silence token 0.
    let mut grid = DelayGrid::new(1, 4, PAD, BOS);
    grid.write_next_column(&vec![42]);
    let aligned = grid.undelay();
    assert_eq!(aligned, vec![vec![42, 0, 0]]);
}
