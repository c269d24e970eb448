//! How a grid lies in its buffer: where the rows of a region begin and end,
//! which elements a region covers, and what holds of the two.

use crate::bounds::Bounds2D;
use std::ops::Range;
use vstd::arithmetic::div_mod::{
    lemma_div_is_ordered, lemma_div_pos_is_pos, lemma_fundamental_div_mod,
    lemma_fundamental_div_mod_converse, lemma_mod_bound,
};
use vstd::prelude::*;

verus! {

/// The number of buffer elements in one full row of the grid.
pub open spec fn stride(grid_width: usize, chunk_size: usize) -> int {
    grid_width * chunk_size
}

/// The number of buffer elements in one row of the region.
pub open spec fn row_len(region: Bounds2D<usize>, chunk_size: usize) -> int {
    region.size.width * chunk_size
}

/// The buffer index where row `row` of the region begins.
pub open spec fn row_begin(
    region: Bounds2D<usize>,
    grid_width: usize,
    chunk_size: usize,
    row: int,
) -> int {
    region.position.x * chunk_size + region.position.y * stride(grid_width, chunk_size) + row
        * stride(grid_width, chunk_size)
}

/// The buffer index just past the end of row `row` of the region.
pub open spec fn row_end(
    region: Bounds2D<usize>,
    grid_width: usize,
    chunk_size: usize,
    row: int,
) -> int {
    row_begin(region, grid_width, chunk_size, row) + row_len(region, chunk_size)
}

/// The buffer index of the first element of the cell at `(x, y)`.
pub open spec fn cell_index(x: usize, y: usize, grid_width: usize, chunk_size: usize) -> int {
    x * chunk_size + y * stride(grid_width, chunk_size)
}

/// The buffer length `length` is an exact multiple of `width * chunk_size`,
/// with neither of the two zero.
pub open spec fn valid_layout(length: nat, width: usize, chunk_size: usize) -> bool {
    &&& width > 0
    &&& chunk_size > 0
    &&& length as int % stride(width, chunk_size) == 0
}

/// The cells hold at least one element each, the region is not empty and
/// stays within the columns of the grid, and the rows down to its last one
/// fit in a buffer that a machine can hold.
pub open spec fn addressable(region: Bounds2D<usize>, grid_width: usize, chunk_size: usize) -> bool {
    &&& chunk_size > 0
    &&& region.size.width * region.size.height > 0
    &&& region.position.x + region.size.width <= grid_width
    &&& (region.position.y + region.size.height) * stride(grid_width, chunk_size) <= usize::MAX
}

/// The element at buffer index `index` belongs to a cell of the region.
pub open spec fn covers(
    region: Bounds2D<usize>,
    grid_width: usize,
    chunk_size: usize,
    index: int,
) -> bool {
    let row = index / stride(grid_width, chunk_size);
    let column = index % stride(grid_width, chunk_size);
    &&& region.position.y <= row < region.position.y + region.size.height
    &&& region.position.x * chunk_size <= column < (region.position.x + region.size.width)
        * chunk_size
}

/// The elements of the first `rows` rows of the region, row after row.
pub open spec fn leading_rows<E>(
    cells: Seq<E>,
    region: Bounds2D<usize>,
    grid_width: usize,
    chunk_size: usize,
    rows: nat,
) -> Seq<E>
    decreases rows,
{
    if rows == 0 {
        Seq::empty()
    } else {
        leading_rows(cells, region, grid_width, chunk_size, (rows - 1) as nat) + cells.subrange(
            row_begin(region, grid_width, chunk_size, rows - 1),
            row_end(region, grid_width, chunk_size, rows - 1),
        )
    }
}

/// The elements of the region: its rows from the top down, each from left
/// to right, one after another.
pub open spec fn region_cells<E>(
    cells: Seq<E>,
    region: Bounds2D<usize>,
    grid_width: usize,
    chunk_size: usize,
) -> Seq<E> {
    leading_rows(cells, region, grid_width, chunk_size, region.size.height as nat)
}

/// Each row of the region holds the piece of `data` that belongs to it:
/// row `r` holds the `r`-th run of `row_len` elements.
pub open spec fn rows_hold<E>(
    cells: Seq<E>,
    region: Bounds2D<usize>,
    grid_width: usize,
    chunk_size: usize,
    data: Seq<E>,
) -> bool {
    forall|row: int|
        0 <= row < region.size.height ==> cells.subrange(
            #[trigger] row_begin(region, grid_width, chunk_size, row),
            row_end(region, grid_width, chunk_size, row),
        ) == data.subrange(
            row * row_len(region, chunk_size),
            row * row_len(region, chunk_size) + row_len(region, chunk_size),
        )
}

/// `after` is as long as `before` and differs from it at most where the
/// region covers the buffer.
pub open spec fn same_outside<E>(
    before: Seq<E>,
    after: Seq<E>,
    region: Bounds2D<usize>,
    grid_width: usize,
    chunk_size: usize,
) -> bool {
    &&& after.len() == before.len()
    &&& forall|i: int|
        0 <= i < before.len() && !covers(region, grid_width, chunk_size, i) ==> #[trigger] after[i]
            == before[i]
}

/// The ranges are well-formed runs of a buffer of `length` elements, and
/// each ends before the next begins.
pub open spec fn ordered_runs(rows: Seq<Range<usize>>, length: nat) -> bool {
    &&& forall|k: int| 0 <= k < rows.len() ==> (#[trigger] rows[k]).start <= rows[k].end <= length
    &&& forall|j: int, k: int|
        0 <= j < k < rows.len() ==> (#[trigger] rows[j]).end <= (#[trigger] rows[k]).start
}

/// Some range of `rows` holds `index`.
pub open spec fn in_runs(rows: Seq<Range<usize>>, index: int) -> bool {
    exists|k: int| 0 <= k < rows.len() && (#[trigger] rows[k]).start <= index < rows[k].end
}

/// Rows of a region lie in the buffer in order, each of the same length and
/// inside the grid row it belongs to.
pub proof fn lemma_row_layout(
    region: Bounds2D<usize>,
    grid_width: usize,
    chunk_size: usize,
    row: int,
)
    requires
        region.position.x + region.size.width <= grid_width,
        0 <= row,
    ensures
        0 <= row_begin(region, grid_width, chunk_size, row),
        0 <= region.position.x * chunk_size,
        0 <= region.position.y * stride(grid_width, chunk_size),
        0 <= row * stride(grid_width, chunk_size),
        region.position.x * chunk_size + row_len(region, chunk_size) <= stride(
            grid_width,
            chunk_size,
        ),
        row_end(region, grid_width, chunk_size, row) - row_begin(
            region,
            grid_width,
            chunk_size,
            row,
        ) == region.size.width * chunk_size,
        row_begin(region, grid_width, chunk_size, row) == region.position.x * chunk_size + (
        region.position.y + row) * stride(grid_width, chunk_size),
        row_end(region, grid_width, chunk_size, row) <= (region.position.y + row + 1) * stride(
            grid_width,
            chunk_size,
        ),
        row_end(region, grid_width, chunk_size, row) <= row_begin(
            region,
            grid_width,
            chunk_size,
            row + 1,
        ),
{
    let x = region.position.x as int;
    let y = region.position.y as int;
    let w = region.size.width as int;
    let g = grid_width as int;
    let c = chunk_size as int;
    let s = stride(grid_width, chunk_size);
    assert(0 <= x * c && 0 <= w * c && 0 <= s && 0 <= y * s && 0 <= row * s) by (nonlinear_arith)
        requires
            0 <= x,
            0 <= w,
            0 <= c,
            0 <= y,
            0 <= row,
            0 <= g,
            s == g * c,
    ;
    assert((y + row) * s == y * s + row * s && (y + row + 1) * s == y * s + row * s + s && (row
        + 1) * s == row * s + s) by (nonlinear_arith);
    assert(x * c + w * c <= s) by (nonlinear_arith)
        requires
            x + w <= g,
            0 <= c,
            s == g * c,
    ;
}

/// The rows of a region that stays within the columns of the grid are
/// pairwise disjoint: an earlier row ends before a later one begins.
pub proof fn lemma_rows_disjoint(
    region: Bounds2D<usize>,
    grid_width: usize,
    chunk_size: usize,
    earlier: int,
    later: int,
)
    requires
        region.position.x + region.size.width <= grid_width,
        0 <= earlier < later,
    ensures
        row_end(region, grid_width, chunk_size, earlier) <= row_begin(
            region,
            grid_width,
            chunk_size,
            later,
        ),
{
    let s = stride(grid_width, chunk_size);
    lemma_row_layout(region, grid_width, chunk_size, earlier);
    assert((earlier + 1) * s <= later * s) by (nonlinear_arith)
        requires
            earlier + 1 <= later,
            0 <= s,
    ;
    assert((earlier + 1) * s == earlier * s + s) by (nonlinear_arith);
}

/// The ranges that [`row_ranges`] gives for a region inside a buffer of
/// `length` elements are ordered, disjoint runs of that buffer.
pub proof fn lemma_runs_of_region(
    region: Bounds2D<usize>,
    grid_width: usize,
    chunk_size: usize,
    rows: Seq<Range<usize>>,
    length: nat,
)
    requires
        region.position.x + region.size.width <= grid_width,
        (region.position.y + region.size.height) * stride(grid_width, chunk_size) <= length,
        rows.len() == region.size.height,
        forall|row: int|
            0 <= row < region.size.height ==> {
                &&& (#[trigger] rows[row]).start == row_begin(region, grid_width, chunk_size, row)
                &&& rows[row].end == row_end(region, grid_width, chunk_size, row)
            },
    ensures
        ordered_runs(rows, length),
        forall|row: int|
            0 <= row < rows.len() ==> (#[trigger] rows[row]).end - rows[row].start == row_len(
                region,
                chunk_size,
            ),
{
    let s = stride(grid_width, chunk_size);
    assert forall|k: int| 0 <= k < rows.len() implies (#[trigger] rows[k]).start <= rows[k].end
        <= length && rows[k].end - rows[k].start == row_len(region, chunk_size) by {
        lemma_row_layout(region, grid_width, chunk_size, k);
        assert((region.position.y + k + 1) * s <= (region.position.y + region.size.height) * s)
            by (nonlinear_arith)
            requires
                k + 1 <= region.size.height,
                0 <= s,
        ;
        assert(0 <= region.size.width * chunk_size) by (nonlinear_arith);
    }
    assert forall|j: int, k: int| 0 <= j < k < rows.len() implies (#[trigger] rows[j]).end <= (
    #[trigger] rows[k]).start by {
        lemma_rows_disjoint(region, grid_width, chunk_size, j, k);
    }
}

/// Where the element at offset `column` of row `row` of a region lies in
/// the grid: in grid row `y + row`, at `x * chunk_size + column` within it.
pub proof fn lemma_cell_position(
    region: Bounds2D<usize>,
    grid_width: usize,
    chunk_size: usize,
    row: int,
    column: int,
)
    requires
        region.position.x + region.size.width <= grid_width,
        0 <= row,
        0 <= column < row_len(region, chunk_size),
    ensures
        stride(grid_width, chunk_size) > 0,
        (row_begin(region, grid_width, chunk_size, row) + column) / stride(grid_width, chunk_size)
            == region.position.y + row,
        (row_begin(region, grid_width, chunk_size, row) + column) % stride(grid_width, chunk_size)
            == region.position.x * chunk_size + column,
{
    let s = stride(grid_width, chunk_size);
    lemma_row_layout(region, grid_width, chunk_size, row);
    let rem = region.position.x * chunk_size + column;
    lemma_fundamental_div_mod_converse(
        row_begin(region, grid_width, chunk_size, row) + column,
        s,
        region.position.y + row,
        rem,
    );
}

/// A region covers exactly the elements of its rows: an index is covered
/// just when it lies in the run of one of the rows.
pub proof fn lemma_covers_rows(
    region: Bounds2D<usize>,
    grid_width: usize,
    chunk_size: usize,
    index: int,
)
    requires
        region.position.x + region.size.width <= grid_width,
        grid_width > 0,
        chunk_size > 0,
    ensures
        covers(region, grid_width, chunk_size, index) <==> exists|row: int|
            0 <= row < region.size.height && #[trigger] row_begin(
                region,
                grid_width,
                chunk_size,
                row,
            ) <= index < row_end(region, grid_width, chunk_size, row),
{
    let s = stride(grid_width, chunk_size);
    assert(s > 0) by (nonlinear_arith)
        requires
            grid_width > 0,
            chunk_size > 0,
            s == grid_width * chunk_size,
    ;
    assert((region.position.x + region.size.width) * chunk_size == region.position.x * chunk_size
        + region.size.width * chunk_size) by (nonlinear_arith);
    if covers(region, grid_width, chunk_size, index) {
        let row = index / s - region.position.y;
        lemma_fundamental_div_mod(index, s);
        lemma_row_layout(region, grid_width, chunk_size, row);
        assert(s * (index / s) == (region.position.y + row) * s) by (nonlinear_arith)
            requires
                index / s == region.position.y + row,
        ;
        assert(row_begin(region, grid_width, chunk_size, row) <= index < row_end(
            region,
            grid_width,
            chunk_size,
            row,
        ));
    }
    if exists|row: int|
        0 <= row < region.size.height && #[trigger] row_begin(region, grid_width, chunk_size, row)
            <= index < row_end(region, grid_width, chunk_size, row) {
        let row = choose|row: int|
            0 <= row < region.size.height && #[trigger] row_begin(
                region,
                grid_width,
                chunk_size,
                row,
            ) <= index < row_end(region, grid_width, chunk_size, row);
        lemma_cell_position(
            region,
            grid_width,
            chunk_size,
            row,
            index - row_begin(region, grid_width, chunk_size, row),
        );
    }
}

/// The first `rows` rows of a region hold `rows * row_len` elements.
pub proof fn lemma_leading_rows_len<E>(
    cells: Seq<E>,
    region: Bounds2D<usize>,
    grid_width: usize,
    chunk_size: usize,
    rows: nat,
)
    requires
        region.position.x + region.size.width <= grid_width,
        rows <= region.size.height,
        (region.position.y + region.size.height) * stride(grid_width, chunk_size) <= cells.len(),
    ensures
        leading_rows(cells, region, grid_width, chunk_size, rows).len() == rows * row_len(
            region,
            chunk_size,
        ),
    decreases rows,
{
    if rows == 0 {
        assert(rows * row_len(region, chunk_size) == 0) by (nonlinear_arith)
            requires
                rows == 0,
        ;
    } else {
        let s = stride(grid_width, chunk_size);
        lemma_leading_rows_len(cells, region, grid_width, chunk_size, (rows - 1) as nat);
        lemma_row_layout(region, grid_width, chunk_size, rows - 1);
        assert((region.position.y + (rows - 1) + 1) * s <= (region.position.y
            + region.size.height) * s) by (nonlinear_arith)
            requires
                rows <= region.size.height,
                0 <= s,
        ;
        assert(rows * row_len(region, chunk_size) == (rows - 1) * row_len(region, chunk_size)
            + row_len(region, chunk_size)) by (nonlinear_arith);
    }
}

/// Where each row of a region holds its piece of `data`, the first `rows`
/// rows together hold the first `rows * row_len` elements of `data`.
pub proof fn lemma_rows_are_data_prefix<E>(
    cells: Seq<E>,
    region: Bounds2D<usize>,
    grid_width: usize,
    chunk_size: usize,
    data: Seq<E>,
    rows: nat,
)
    requires
        rows_hold(cells, region, grid_width, chunk_size, data),
        rows <= region.size.height,
        data.len() >= region.size.height * row_len(region, chunk_size),
    ensures
        leading_rows(cells, region, grid_width, chunk_size, rows) == data.subrange(
            0,
            rows * row_len(region, chunk_size),
        ),
    decreases rows,
{
    let len = row_len(region, chunk_size);
    assert(0 <= len) by (nonlinear_arith)
        requires
            len == region.size.width * chunk_size,
    ;
    if rows == 0 {
        assert(0 * len == 0) by (nonlinear_arith);
        assert(data.subrange(0, 0) =~= Seq::<E>::empty());
    } else {
        lemma_rows_are_data_prefix(cells, region, grid_width, chunk_size, data, (rows - 1) as nat);
        assert(rows * len == (rows - 1) * len + len && 0 <= (rows - 1) * len) by (nonlinear_arith)
            requires
                rows >= 1,
                0 <= len,
        ;
        assert(rows * len <= region.size.height * len) by (nonlinear_arith)
            requires
                rows <= region.size.height,
                0 <= len,
        ;
        let row = rows - 1;
        assert(cells.subrange(
            row_begin(region, grid_width, chunk_size, row),
            row_end(region, grid_width, chunk_size, row),
        ) == data.subrange(row * len, row * len + len));
        assert(data.subrange(0, row * len) + data.subrange(row * len, row * len + len)
            =~= data.subrange(0, rows * len));
    }
}

/// Reading a region back after data of the region's shape was placed on it
/// gives that data, unchanged.
pub proof fn lemma_insert_then_slice<E>(
    cells: Seq<E>,
    region: Bounds2D<usize>,
    grid_width: usize,
    chunk_size: usize,
    data: Seq<E>,
)
    requires
        rows_hold(cells, region, grid_width, chunk_size, data),
        data.len() == region.size.height * row_len(region, chunk_size),
    ensures
        region_cells(cells, region, grid_width, chunk_size) == data,
{
    lemma_rows_are_data_prefix(
        cells,
        region,
        grid_width,
        chunk_size,
        data,
        region.size.height as nat,
    );
    assert(data.subrange(0, data.len() as int) =~= data);
}

/// Reading the same region twice from the same cells gives the same
/// elements both times.
pub proof fn lemma_slice_repeatable<E>(
    cells: Seq<E>,
    region: Bounds2D<usize>,
    grid_width: usize,
    chunk_size: usize,
    first: Seq<E>,
    second: Seq<E>,
)
    requires
        first == region_cells(cells, region, grid_width, chunk_size),
        second == region_cells(cells, region, grid_width, chunk_size),
    ensures
        first == second,
{
}

/// The first `rows` rows of the region that spans the whole width of the
/// grid, from its top, are the first `rows * stride` elements of the
/// buffer.
pub proof fn lemma_full_width_rows<E>(
    cells: Seq<E>,
    region: Bounds2D<usize>,
    grid_width: usize,
    chunk_size: usize,
    rows: nat,
)
    requires
        region.position.x == 0,
        region.position.y == 0,
        region.size.width == grid_width,
        rows * stride(grid_width, chunk_size) <= cells.len(),
    ensures
        leading_rows(cells, region, grid_width, chunk_size, rows) == cells.subrange(
            0,
            rows * stride(grid_width, chunk_size),
        ),
    decreases rows,
{
    let s = stride(grid_width, chunk_size);
    assert(0 <= s) by (nonlinear_arith)
        requires
            s == grid_width * chunk_size,
    ;
    if rows == 0 {
        assert(0 * s == 0) by (nonlinear_arith);
        assert(cells.subrange(0, 0) =~= Seq::<E>::empty());
    } else {
        let row = rows - 1;
        assert(rows * s == row * s + s && 0 <= row * s) by (nonlinear_arith)
            requires
                rows == row + 1,
                row >= 0,
                0 <= s,
        ;
        lemma_full_width_rows(cells, region, grid_width, chunk_size, row as nat);
        assert(row_begin(region, grid_width, chunk_size, row) == row * s) by (nonlinear_arith)
            requires
                region.position.x == 0,
                region.position.y == 0,
                row_begin(region, grid_width, chunk_size, row) == region.position.x * chunk_size
                    + region.position.y * s + row * s,
        ;
        assert(cells.subrange(0, row * s) + cells.subrange(row * s, row * s + s)
            =~= cells.subrange(0, rows * s));
    }
}

/// The region that spans the whole grid selects the whole buffer, with no
/// gaps: it covers every index, and its elements are the buffer itself.
pub proof fn lemma_whole_grid<E>(
    cells: Seq<E>,
    region: Bounds2D<usize>,
    grid_width: usize,
    chunk_size: usize,
)
    requires
        valid_layout(cells.len(), grid_width, chunk_size),
        region.position.x == 0,
        region.position.y == 0,
        region.size.width == grid_width,
        region.size.height == cells.len() as int / stride(grid_width, chunk_size),
    ensures
        region_cells(cells, region, grid_width, chunk_size) == cells,
        forall|i: int| 0 <= i < cells.len() ==> covers(region, grid_width, chunk_size, i),
{
    let s = stride(grid_width, chunk_size);
    let len = cells.len() as int;
    assert(s > 0) by (nonlinear_arith)
        requires
            grid_width > 0,
            chunk_size > 0,
            s == grid_width * chunk_size,
    ;
    lemma_fundamental_div_mod(len, s);
    assert(region.size.height * s == s * (len / s)) by (nonlinear_arith)
        requires
            region.size.height == len / s,
    ;
    lemma_full_width_rows(cells, region, grid_width, chunk_size, region.size.height as nat);
    assert(cells.subrange(0, len) =~= cells);
    assert forall|i: int| 0 <= i < cells.len() implies covers(
        region,
        grid_width,
        chunk_size,
        i,
    ) by {
        lemma_fundamental_div_mod(i, s);
        lemma_div_is_ordered(i, len, s);
        lemma_div_pos_is_pos(i, s);
        lemma_mod_bound(i, s);
        if i / s >= len / s {
            assert(s * (i / s) >= s * (len / s)) by (nonlinear_arith)
                requires
                    i / s >= len / s,
                    s > 0,
            ;
        }
        assert((region.position.x + region.size.width) * chunk_size == s) by (nonlinear_arith)
            requires
                region.position.x == 0,
                region.size.width == grid_width,
                s == grid_width * chunk_size,
        ;
        assert(region.position.x * chunk_size == 0) by (nonlinear_arith)
            requires
                region.position.x == 0,
        ;
    }
}

} // verus!
