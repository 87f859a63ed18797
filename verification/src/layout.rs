//! Arithmetic of plane layouts: subsampled extents, byte sizes and the
//! compaction of a strided plane.

use vstd::prelude::*;
use vstd::arithmetic::div_mod::lemma_fundamental_div_mod_converse;
use vstd::arithmetic::mul::lemma_mul_inequality;
use vstd::arithmetic::mul::lemma_mul_is_distributive_add_other_way;

verus! {

/// Number of chroma samples that cover `n` luma samples when every two luma
/// samples share one chroma sample: `n / 2` rounded up.
pub open spec fn ceil_half(n: int) -> int {
    (n + 1) / 2
}

/// `ceil_half(n)` is the one count `c` of pairs with `2c - 1 <= n <= 2c`: the
/// pairs cover all `n` samples and no pair is empty.
pub proof fn lemma_ceil_half_is_least_cover(n: int, c: int)
    requires
        n >= 0,
    ensures
        c == ceil_half(n) <==> 2 * c - 1 <= n <= 2 * c,
{
}

/// Halves `n`, rounding up, without leaving `u32`.
pub fn half_up(n: u32) -> (r: u32)
    ensures
        r == ceil_half(n as int),
        r <= n,
{
    n / 2 + n % 2
}

/// Offset of the sample at (`row`, `col`) in a plane whose rows start
/// `stride` samples apart.
pub open spec fn plane_offset(stride: int, row: int, col: int) -> int {
    row * stride + col
}

/// The samples of a `cols` × `rows` plane stored with row distance `stride`,
/// row after row with the padding left out.
pub open spec fn compact_plane(src: Seq<u8>, stride: int, cols: int, rows: int) -> Seq<u8> {
    Seq::new((cols * rows) as nat, |i: int| src[plane_offset(stride, i / cols, i % cols)])
}

/// Every second sample of each row of `compact_plane`, starting at `phase`:
/// one of the two components of an interleaved plane of `cols` pairs per row.
pub open spec fn deinterleaved_plane(
    src: Seq<u8>,
    stride: int,
    cols: int,
    rows: int,
    phase: int,
) -> Seq<u8> {
    Seq::new(
        (cols * rows) as nat,
        |i: int| src[plane_offset(stride, i / cols, 2 * (i % cols) + phase)],
    )
}

/// A sample inside a `cols` × `rows` window lies inside a plane that holds
/// `rows` rows of `stride >= cols` samples.
pub proof fn lemma_offset_in_plane(stride: int, cols: int, rows: int, row: int, col: int)
    requires
        0 <= col < cols <= stride,
        0 <= row < rows,
    ensures
        0 <= plane_offset(stride, row, col) < stride * rows,
{
    assert(row * stride >= 0) by (nonlinear_arith)
        requires
            row >= 0,
            stride >= 0,
    ;
    assert((row + 1) * stride <= rows * stride) by {
        lemma_mul_inequality(row + 1, rows, stride);
    }
    assert((row + 1) * stride == row * stride + stride) by {
        lemma_mul_is_distributive_add_other_way(stride, row, 1);
    }
    assert(rows * stride == stride * rows) by (nonlinear_arith);
}

/// The position `row * cols + col` of a compact plane belongs to row `row`
/// and column `col`.
pub proof fn lemma_compact_position(cols: int, row: int, col: int)
    requires
        0 <= col < cols,
        0 <= row,
    ensures
        (row * cols + col) / cols == row,
        (row * cols + col) % cols == col,
        row * cols + col >= 0,
{
    assert(row * cols == cols * row) by (nonlinear_arith);
    lemma_fundamental_div_mod_converse(row * cols + col, cols, row, col);
    assert(row * cols >= 0) by (nonlinear_arith)
        requires
            row >= 0,
            cols >= 0,
    ;
}

/// A compact plane holds at (`row`, `col`) what the strided plane holds
/// there.
pub proof fn lemma_compact_plane_sample(
    src: Seq<u8>,
    stride: int,
    cols: int,
    rows: int,
    row: int,
    col: int,
)
    requires
        0 <= row < rows,
        0 <= col < cols,
    ensures
        0 <= plane_offset(cols, row, col) < compact_plane(src, stride, cols, rows).len(),
        compact_plane(src, stride, cols, rows)[plane_offset(cols, row, col)] == src[plane_offset(
            stride,
            row,
            col,
        )],
{
    lemma_compact_position(cols, row, col);
    assert(row * cols + col < cols * rows) by (nonlinear_arith)
        requires
            0 <= row < rows,
            0 <= col < cols,
    ;
}

/// Planes that agree sample by sample have the same compact form.
pub proof fn lemma_compact_plane_agrees(
    a: Seq<u8>,
    stride_a: int,
    b: Seq<u8>,
    stride_b: int,
    cols: int,
    rows: int,
)
    requires
        0 <= cols,
        0 <= rows,
        forall|row: int, col: int|
            0 <= row < rows && 0 <= col < cols ==> a[#[trigger] plane_offset(stride_a, row, col)]
                == b[plane_offset(stride_b, row, col)],
    ensures
        compact_plane(a, stride_a, cols, rows) == compact_plane(b, stride_b, cols, rows),
{
    let ca = compact_plane(a, stride_a, cols, rows);
    let cb = compact_plane(b, stride_b, cols, rows);
    assert forall|i: int| 0 <= i < ca.len() implies ca[i] == cb[i] by {
        lemma_position_in_window(cols, rows, i);
        assert(a[plane_offset(stride_a, i / cols, i % cols)] == b[plane_offset(
            stride_b,
            i / cols,
            i % cols,
        )]);
    }
    assert(ca =~= cb);
}

/// Position `i` of a compact `cols` × `rows` plane lies in a row and a
/// column of the window.
pub proof fn lemma_position_in_window(cols: int, rows: int, i: int)
    requires
        0 <= cols,
        0 <= i < cols * rows,
    ensures
        0 <= i / cols < rows,
        0 <= i % cols < cols,
{
    assert(cols > 0) by (nonlinear_arith)
        requires
            0 <= cols,
            0 <= i < cols * rows,
    ;
    assert(0 <= i / cols < rows && 0 <= i % cols < cols) by (nonlinear_arith)
        requires
            0 <= i < cols * rows,
            cols > 0,
    ;
}

/// `stride * rows` as a `usize`, or `None` when the product does not fit.
pub fn plane_len(stride: u32, rows: u32) -> (r: Option<usize>)
    ensures
        r matches Some(n) ==> n == stride * rows,
        r is None <==> stride * rows > usize::MAX,
{
    assert(stride * rows <= 0xFFFF_FFFF * 0xFFFF_FFFF) by (nonlinear_arith)
        requires
            stride <= 0xFFFF_FFFF,
            rows <= 0xFFFF_FFFF,
    ;
    let wide: u64 = (stride as u64) * (rows as u64);
    if wide <= usize::MAX as u64 {
        Some(wide as usize)
    } else {
        None
    }
}

/// Whether a plane of `len` samples holds exactly `rows` rows of `stride`
/// samples.
pub fn plane_fits(len: usize, stride: u32, rows: u32) -> (r: bool)
    ensures
        r <==> len == stride * rows,
{
    match plane_len(stride, rows) {
        Some(n) => n == len,
        None => false,
    }
}

/// Copies the `cols` × `rows` window of a strided plane into a vector
/// without padding.
pub fn copy_plane(src: &[u8], stride: u32, cols: u32, rows: u32) -> (out: Vec<u8>)
    requires
        cols <= stride,
        src@.len() == stride * rows,
    ensures
        out@ == compact_plane(src@, stride as int, cols as int, rows as int),
{
    let total: usize = src.len();
    let mut out: Vec<u8> = Vec::new();
    let mut row: u32 = 0;
    while row < rows
        invariant
            row <= rows,
            cols <= stride,
            src@.len() == stride * rows,
            src@.len() == total,
            out@.len() == row * cols,
            forall|i: int|
                0 <= i < out@.len() ==> out@[i] == src@[plane_offset(
                    stride as int,
                    i / (cols as int),
                    i % (cols as int),
                )],
        decreases rows - row,
    {
        let mut col: u32 = 0;
        while col < cols
            invariant
                row < rows,
                col <= cols,
                cols <= stride,
                src@.len() == stride * rows,
                src@.len() == total,
                out@.len() == row * cols + col,
                forall|i: int|
                    0 <= i < out@.len() ==> out@[i] == src@[plane_offset(
                        stride as int,
                        i / (cols as int),
                        i % (cols as int),
                    )],
            decreases cols - col,
        {
            proof {
                lemma_offset_in_plane(
                    stride as int,
                    cols as int,
                    rows as int,
                    row as int,
                    col as int,
                );
                lemma_compact_position(cols as int, row as int, col as int);
            }
            let at: usize = (row as usize) * (stride as usize) + (col as usize);
            let sample: u8 = src[at];
            out.push(sample);
            col = col + 1;
        }
        proof {
            assert((row + 1) * cols == row * cols + cols) by (nonlinear_arith);
        }
        row = row + 1;
    }
    proof {
        assert(rows * cols == cols * rows) by (nonlinear_arith);
    }
    assert(out@ =~= compact_plane(src@, stride as int, cols as int, rows as int));
    out
}

/// Copies one component of an interleaved plane of `cols` sample pairs per
/// row: the first of each pair for `phase` 0, the second for `phase` 1.
pub fn copy_deinterleaved(src: &[u8], stride: u32, cols: u32, rows: u32, phase: u8) -> (out: Vec<
    u8,
>)
    requires
        2 * cols <= stride,
        phase <= 1,
        src@.len() == stride * rows,
    ensures
        out@ == deinterleaved_plane(
            src@,
            stride as int,
            cols as int,
            rows as int,
            phase as int,
        ),
{
    let total: usize = src.len();
    let mut out: Vec<u8> = Vec::new();
    let mut row: u32 = 0;
    while row < rows
        invariant
            row <= rows,
            2 * cols <= stride,
            phase <= 1,
            src@.len() == stride * rows,
            src@.len() == total,
            out@.len() == row * cols,
            forall|i: int|
                0 <= i < out@.len() ==> out@[i] == src@[plane_offset(
                    stride as int,
                    i / (cols as int),
                    2 * (i % (cols as int)) + phase,
                )],
        decreases rows - row,
    {
        let mut col: u32 = 0;
        while col < cols
            invariant
                row < rows,
                col <= cols,
                2 * cols <= stride,
                phase <= 1,
                src@.len() == stride * rows,
                src@.len() == total,
                out@.len() == row * cols + col,
                forall|i: int|
                    0 <= i < out@.len() ==> out@[i] == src@[plane_offset(
                        stride as int,
                        i / (cols as int),
                        2 * (i % (cols as int)) + phase,
                    )],
            decreases cols - col,
        {
            proof {
                lemma_offset_in_plane(
                    stride as int,
                    2 * cols,
                    rows as int,
                    row as int,
                    2 * col + phase,
                );
                lemma_compact_position(cols as int, row as int, col as int);
            }
            let at: usize = (row as usize) * (stride as usize) + 2 * (col as usize) + (
            phase as usize);
            let sample: u8 = src[at];
            out.push(sample);
            col = col + 1;
        }
        proof {
            assert((row + 1) * cols == row * cols + cols) by (nonlinear_arith);
        }
        row = row + 1;
    }
    proof {
        assert(rows * cols == cols * rows) by (nonlinear_arith);
    }
    assert(out@ =~= deinterleaved_plane(
        src@,
        stride as int,
        cols as int,
        rows as int,
        phase as int,
    ));
    out
}

} // verus!
