use vstd::prelude::*;

use vstd::arithmetic::div_mod::{lemma_fundamental_div_mod, lemma_fundamental_div_mod_converse};
use crate::layout::ColorType;

verus! {

/// Position of the byte in column `col` of row `row`, in a buffer of rows of
/// `stride` bytes each.
pub open spec fn cell(stride: int, row: int, col: int) -> int {
    row * stride + col
}

/// Number of bytes in one row of pixels.
pub open spec fn row_stride(width: u32, layout: ColorType) -> nat {
    width as nat * layout.spec_bytes_per_pixel()
}

/// Where the byte at position `i` comes from when the rows are flipped: the same
/// column of the row that lies as far from the bottom as `i` lies from the top.
pub open spec fn mirror_index(i: int, stride: int, height: int) -> int {
    cell(stride, height - 1 - i / stride, i % stride)
}

/// The buffer with its rows in reverse order.
pub open spec fn flipped_rows(pixels: Seq<u8>, stride: nat, height: nat) -> Seq<u8> {
    Seq::new(pixels.len(), |i: int| pixels[mirror_index(i, stride as int, height as int)])
}

/// A cell of a buffer of `height` rows lies inside the buffer.
pub proof fn lemma_cell_in_bounds(stride: int, height: int, row: int, col: int)
    requires
        0 <= row < height,
        0 <= col < stride,
    ensures
        0 <= cell(stride, row, col) < height * stride,
        row * stride + stride <= height * stride,
        0 <= row * stride,
{
    assert(0 <= row * stride && (row + 1) * stride <= height * stride
        && (row + 1) * stride == row * stride + stride) by (nonlinear_arith)
        requires
            0 <= row < height,
            0 < stride,
    ;
}

/// Row and column of a position are its quotient and remainder by the stride.
pub proof fn lemma_cell_row_col(stride: int, row: int, col: int)
    requires
        0 <= col < stride,
    ensures
        cell(stride, row, col) / stride == row,
        cell(stride, row, col) % stride == col,
{
    lemma_fundamental_div_mod_converse(cell(stride, row, col), stride, row, col);
}

/// Every position below `height * stride` is a cell of one of the `height` rows.
pub proof fn lemma_index_is_cell(stride: int, height: int, i: int)
    requires
        0 < stride,
        0 <= i < height * stride,
    ensures
        i == cell(stride, i / stride, i % stride),
        0 <= i / stride < height,
        0 <= i % stride < stride,
{
    lemma_fundamental_div_mod(i, stride);
    let q = i / stride;
    let r = i % stride;
    assert(stride * q == q * stride) by (nonlinear_arith);
    assert(0 <= q < height) by (nonlinear_arith)
        requires
            0 < stride,
            0 <= r < stride,
            0 <= q * stride + r < height * stride,
    ;
}

/// Two cells at the same position are the same cell.
pub proof fn lemma_cell_injective(stride: int, row1: int, col1: int, row2: int, col2: int)
    requires
        0 <= col1 < stride,
        0 <= col2 < stride,
        cell(stride, row1, col1) == cell(stride, row2, col2),
    ensures
        row1 == row2,
        col1 == col2,
{
    lemma_cell_row_col(stride, row1, col1);
    lemma_cell_row_col(stride, row2, col2);
}

/// Flipping keeps the length, and puts in row `row` what was in row
/// `height - 1 - row`, column by column. With an odd height the middle row is
/// its own mirror image and stays as it is.
pub proof fn lemma_flipped_rows_cells(pixels: Seq<u8>, stride: nat, height: nat)
    requires
        pixels.len() == height * stride,
    ensures
        flipped_rows(pixels, stride, height).len() == pixels.len(),
        forall|row: int, col: int|
            0 <= row < height && 0 <= col < stride ==>
                #[trigger] flipped_rows(pixels, stride, height)[cell(stride as int, row, col)]
                    == pixels[cell(stride as int, height - 1 - row, col)],
        forall|col: int|
            height % 2 == 1 && 0 <= col < stride ==>
                #[trigger] flipped_rows(pixels, stride, height)[cell(stride as int, height as int / 2, col)]
                    == pixels[cell(stride as int, height as int / 2, col)],
{
    let s = stride as int;
    let h = height as int;
    let flipped = flipped_rows(pixels, stride, height);
    assert forall|row: int, col: int| 0 <= row < h && 0 <= col < s implies
        #[trigger] flipped[cell(s, row, col)] == pixels[cell(s, h - 1 - row, col)] by {
        lemma_cell_in_bounds(s, h, row, col);
        lemma_cell_row_col(s, row, col);
    }
}

/// Flipping twice gives back the buffer unchanged, whether the number of rows
/// is even or odd.
pub proof fn lemma_flip_twice_is_identity(pixels: Seq<u8>, stride: nat, height: nat)
    requires
        pixels.len() == height * stride,
    ensures
        flipped_rows(flipped_rows(pixels, stride, height), stride, height) == pixels,
{
    let s = stride as int;
    let h = height as int;
    let once = flipped_rows(pixels, stride, height);
    let twice = flipped_rows(once, stride, height);
    assert forall|i: int| 0 <= i < pixels.len() implies twice[i] == pixels[i] by {
        assert(s > 0) by (nonlinear_arith)
            requires
                0 <= i < h * s,
                0 <= s,
        ;
        lemma_index_is_cell(s, h, i);
        let row = i / s;
        let col = i % s;
        let j = mirror_index(i, s, h);
        lemma_cell_in_bounds(s, h, h - 1 - row, col);
        lemma_cell_row_col(s, h - 1 - row, col);
        assert(mirror_index(j, s, h) == cell(s, row, col));
    }
    assert(twice =~= pixels);
}

/// A buffer of fewer than two rows is its own mirror image.
pub proof fn lemma_flip_single_row(pixels: Seq<u8>, stride: nat, height: nat)
    requires
        pixels.len() == height * stride,
        height <= 1,
    ensures
        flipped_rows(pixels, stride, height) == pixels,
{
    let s = stride as int;
    let h = height as int;
    let once = flipped_rows(pixels, stride, height);
    assert forall|i: int| 0 <= i < pixels.len() implies once[i] == pixels[i] by {
        assert(s > 0 && h == 1) by (nonlinear_arith)
            requires
                0 <= i < h * s,
                0 <= s,
                0 <= h <= 1,
        ;
        lemma_index_is_cell(s, h, i);
    }
    assert(once =~= pixels);
}

/// Whether the byte in `row`, `col` has been exchanged with its mirror image
/// once the outermost `done` row pairs are exchanged, and of the next pair the
/// first `cols` columns.
spec fn exchanged(height: int, done: int, cols: int, row: int, col: int) -> bool {
    row < done || row >= height - done || ((row == done || row == height - 1 - done) && col < cols)
}

/// The state of the buffer while it is being flipped: exchanged bytes hold
/// what their mirror image held, the others what they held.
spec fn partly_flipped(
    now: Seq<u8>,
    before: Seq<u8>,
    stride: int,
    height: int,
    done: int,
    cols: int,
) -> bool {
    &&& now.len() == before.len()
    &&& forall|row: int, col: int|
        0 <= row < height && 0 <= col < stride ==>
            #[trigger] now[cell(stride, row, col)] == (if exchanged(height, done, cols, row, col) {
                before[cell(stride, height - 1 - row, col)]
            } else {
                before[cell(stride, row, col)]
            })
}

/// Exchanging one more byte pair of the current row pair moves the state on
/// by one column.
proof fn lemma_exchange_step(
    now: Seq<u8>,
    next: Seq<u8>,
    before: Seq<u8>,
    stride: int,
    height: int,
    done: int,
    cols: int,
)
    requires
        before.len() == height * stride,
        0 <= done,
        2 * done + 1 < height,
        0 <= cols < stride,
        partly_flipped(now, before, stride, height, done, cols),
        next == now.update(
            cell(stride, done, cols),
            now[cell(stride, height - 1 - done, cols)],
        ).update(cell(stride, height - 1 - done, cols), now[cell(stride, done, cols)]),
    ensures
        partly_flipped(next, before, stride, height, done, cols + 1),
{
    let top = cell(stride, done, cols);
    let bottom = cell(stride, height - 1 - done, cols);
    lemma_cell_in_bounds(stride, height, done, cols);
    lemma_cell_in_bounds(stride, height, height - 1 - done, cols);
    assert forall|row: int, col: int| 0 <= row < height && 0 <= col < stride implies
        #[trigger] next[cell(stride, row, col)] == (if exchanged(height, done, cols + 1, row, col) {
            before[cell(stride, height - 1 - row, col)]
        } else {
            before[cell(stride, row, col)]
        }) by {
        let here = cell(stride, row, col);
        lemma_cell_in_bounds(stride, height, row, col);
        if here == top {
            lemma_cell_injective(stride, row, col, done, cols);
        } else if here == bottom {
            lemma_cell_injective(stride, row, col, height - 1 - done, cols);
        } else {
            assert(next[here] == now[here]);
            assert(!(row == done && col == cols));
            assert(!(row == height - 1 - done && col == cols));
        }
    }
}

/// Once every row pair is exchanged the buffer is the flipped buffer.
proof fn lemma_exchange_done(now: Seq<u8>, before: Seq<u8>, stride: int, height: int)
    requires
        0 < stride,
        0 <= height,
        before.len() == height * stride,
        partly_flipped(now, before, stride, height, height / 2, 0),
    ensures
        now == flipped_rows(before, stride as nat, height as nat),
{
    let flipped = flipped_rows(before, stride as nat, height as nat);
    assert forall|i: int| 0 <= i < now.len() implies now[i] == flipped[i] by {
        lemma_index_is_cell(stride, height, i);
        let row = i / stride;
        let col = i % stride;
        assert(now[cell(stride, row, col)] == before[cell(stride, height - 1 - row, col)]);
    }
    assert(now =~= flipped);
}

/// Flips an image upside down, in place: row `r` and row `height - 1 - r`
/// change places, for every `r` below `height / 2`.
///
/// The rows are exchanged byte by byte, so no second buffer is allocated.
/// `data` holds `height` rows of `width` pixels of the given layout.
pub fn flip(width: u32, height: u32, layout: ColorType, data: &mut Vec<u8>)
    requires
        old(data)@.len() == width * height * layout.spec_bytes_per_pixel(),
    ensures
        final(data)@ == flipped_rows(old(data)@, row_stride(width, layout), height as nat),
        final(data)@.len() == old(data)@.len(),
{
    let ghost before = data@;
    assert(before.len() == data.len());
    let ghost s = row_stride(width, layout) as int;
    let ghost h = height as int;
    assert(before.len() == h * s) by (nonlinear_arith)
        requires
            before.len() == width * height * layout.spec_bytes_per_pixel(),
            s == width * layout.spec_bytes_per_pixel(),
            h == height,
    ;
    if height < 2 || width == 0 {
        proof {
            if height < 2 {
                lemma_flip_single_row(before, s as nat, h as nat);
            } else {
                assert(before.len() == 0) by (nonlinear_arith)
                    requires
                        before.len() == h * s,
                        s == 0 * layout.spec_bytes_per_pixel(),
                ;
                assert(data@ =~= flipped_rows(before, s as nat, h as nat));
            }
        }
        return;
    }
    let bytes_per_pixel: u8 = layout.bytes_per_pixel();
    assert(0 < s <= before.len()) by (nonlinear_arith)
        requires
            before.len() == h * s,
            s == width * bytes_per_pixel,
            h >= 2,
            width >= 1,
            bytes_per_pixel >= 1,
    ;
    let stride: usize = width as usize * bytes_per_pixel as usize;
    let rows: usize = height as usize;
    let mut done: usize = 0;
    while done < rows / 2
        invariant
            stride == s,
            rows == h,
            0 < s,
            data@.len() == before.len(),
            before.len() == h * s,
            before.len() <= usize::MAX,
            0 <= done <= rows / 2,
            partly_flipped(data@, before, s, h, done as int, 0),
        decreases rows / 2 - done,
    {
        proof {
            lemma_cell_in_bounds(s, h, done as int, 0);
            lemma_cell_in_bounds(s, h, h - 1 - done, 0);
        }
        let top: usize = done * stride;
        let bottom: usize = (rows - 1 - done) * stride;
        let mut col: usize = 0;
        while col < stride
            invariant
                stride == s,
                rows == h,
                0 < s,
                data@.len() == before.len(),
                before.len() == h * s,
                before.len() <= usize::MAX,
                0 <= done < rows / 2,
                0 <= col <= stride,
                top == done * stride,
                bottom == (rows - 1 - done) * stride,
                top + stride <= before.len(),
                bottom + stride <= before.len(),
                partly_flipped(data@, before, s, h, done as int, col as int),
            decreases stride - col,
        {
            let ghost now = data@;
            assert(top + col == cell(s, done as int, col as int));
            assert(bottom + col == cell(s, h - 1 - done, col as int));
            let upper: u8 = data[top + col];
            let lower: u8 = data[bottom + col];
            data[top + col] = lower;
            data[bottom + col] = upper;
            proof {
                lemma_exchange_step(now, data@, before, s, h, done as int, col as int);
            }
            col = col + 1;
        }
        proof {
            assert forall|row: int, c: int| 0 <= row < h && 0 <= c < s implies
                exchanged(h, done + 1, 0, row, c) == exchanged(h, done as int, s, row, c) by {}
            assert(partly_flipped(data@, before, s, h, done + 1, 0));
        }
        done = done + 1;
    }
    proof {
        lemma_exchange_done(data@, before, s, h);
    }
}

} // verus!
