//! A grid of fixed-width cells laid out row by row in one flat buffer.
//!
//! A region of the grid is a [`Bounds2D`] in cell coordinates. Each row of a
//! region is one contiguous run of the buffer; every operation here first
//! works out those runs and then reads or writes them.

use crate::bounds::{Bounds2D, IntoBounds2D};
use crate::layout::{
    addressable, cell_index, covers, in_runs, leading_rows, lemma_covers_rows,
    lemma_leading_rows_len, lemma_row_layout, lemma_runs_of_region, ordered_runs, region_cells,
    row_begin, row_end, row_len, rows_hold, same_outside, stride, valid_layout,
};
use crate::point::ToPoint2D;
use crate::size::Size2D;
use crate::storage::Interpretation2D;
use crate::vector::ToVector2D;
use std::ops::Range;
use vstd::arithmetic::div_mod::{lemma_div_denominator, lemma_fundamental_div_mod, lemma_small_mod};
use vstd::prelude::*;

verus! {

broadcast use vstd::function::group_function_axioms;

/// Why a grid operation was turned down.
#[derive(Debug, Clone, Copy, PartialEq, Eq, Structural)]
pub enum GridError {
    /// The buffer cannot be cut into rows of `width` cells of `chunk_size`
    /// elements each.
    Construction,
    /// The region is empty, or some of it lies outside the grid.
    RegionBounds,
    /// The data holds fewer complete rows than the region has. The first
    /// row left without data is the one with index `supplied_rows`.
    DataShape { expected_rows: usize, supplied_rows: usize },
}

/// Returns the buffer index of the first element of the cell at `point`:
/// `x * chunk_size + y * grid_width * chunk_size`.
///
/// Nothing is checked against a grid's size: a point outside the grid
/// gives an index outside its buffer.
pub fn index_at<P: ToPoint2D<usize>>(point: P, grid_width: usize, chunk_size: usize) -> (index:
    usize)
    requires
        cell_index(point.as_vector().x, point.as_vector().y, grid_width, chunk_size) <= usize::MAX,
    ensures
        index == cell_index(point.as_vector().x, point.as_vector().y, grid_width, chunk_size),
{
    let point = point.to_vector();
    let x: usize = point.x;
    let y: usize = point.y;
    assert(0 <= x * chunk_size && 0 <= y * (grid_width * chunk_size)) by (nonlinear_arith);
    let cell_x: usize = x * chunk_size;
    if y == 0 {
        assert(y * (grid_width * chunk_size) == 0) by (nonlinear_arith)
            requires
                y == 0,
        ;
        return cell_x;
    }
    assert(grid_width * chunk_size <= y * (grid_width * chunk_size)) by (nonlinear_arith)
        requires
            y >= 1,
            0 <= grid_width * chunk_size,
    ;
    let cell_y: usize = y * (grid_width * chunk_size);
    cell_x + cell_y
}

/// Returns the runs of the buffer that the rows of `bounds` occupy, from the
/// top row down: one half-open range per row.
///
/// A region that is not [`addressable`] is turned down.
pub fn row_ranges<B: IntoBounds2D<usize>>(bounds: B, grid_width: usize, chunk_size: usize) -> (rows:
    Result<Vec<Range<usize>>, GridError>)
    ensures
        rows is Ok <==> addressable(bounds.as_bounds(), grid_width, chunk_size),
        rows is Err ==> rows == Err::<Vec<Range<usize>>, GridError>(GridError::RegionBounds),
        rows is Ok ==> rows->Ok_0@.len() == bounds.as_bounds().size.height,
        rows is Ok ==> forall|row: int|
            0 <= row < bounds.as_bounds().size.height ==> {
                &&& (#[trigger] rows->Ok_0@[row]).start == row_begin(
                    bounds.as_bounds(),
                    grid_width,
                    chunk_size,
                    row,
                )
                &&& rows->Ok_0@[row].end == row_end(
                    bounds.as_bounds(),
                    grid_width,
                    chunk_size,
                    row,
                )
            },
{
    let bounds = bounds.to_bounds();
    let x: usize = bounds.position.x;
    let y: usize = bounds.position.y;
    let width: usize = bounds.size.width;
    let height: usize = bounds.size.height;
    proof {
        assert(width * height > 0 <==> width > 0 && height > 0) by (nonlinear_arith);
    }
    if chunk_size == 0 || width == 0 || height == 0 || x > grid_width || width > grid_width - x {
        return Err(GridError::RegionBounds);
    }
    let ghost s = stride(grid_width, chunk_size);
    proof {
        assert(s >= 1) by (nonlinear_arith)
            requires
                grid_width >= 1,
                chunk_size >= 1,
                s == grid_width * chunk_size,
        ;
        assert((y + height) * s >= s && (y + height) * s >= y + height) by (nonlinear_arith)
            requires
                y + height >= 1,
                s >= 1,
        ;
    }
    let full_width: usize = match grid_width.checked_mul(chunk_size) {
        Some(v) => v,
        None => {
            return Err(GridError::RegionBounds);
        },
    };
    let bottom: usize = match y.checked_add(height) {
        Some(v) => v,
        None => {
            return Err(GridError::RegionBounds);
        },
    };
    if bottom.checked_mul(full_width).is_none() {
        return Err(GridError::RegionBounds);
    }
    proof {
        lemma_row_layout(bounds, grid_width, chunk_size, 0);
        assert((y + 0 + 1) * s <= (y + height) * s) by (nonlinear_arith)
            requires
                1 <= height,
                0 <= s,
        ;
    }
    let cell_x: usize = x * chunk_size;
    let width: usize = width * chunk_size;
    let start_cell: usize = cell_x + y * full_width;
    let mut rows: Vec<Range<usize>> = Vec::new();
    let mut row: usize = 0;
    while row < height
        invariant
            0 <= row <= height,
            height == bounds.size.height,
            x + bounds.size.width <= grid_width,
            s == stride(grid_width, chunk_size),
            full_width == s,
            width == row_len(bounds, chunk_size),
            start_cell == row_begin(bounds, grid_width, chunk_size, 0),
            (y + height) * s <= usize::MAX,
            x == bounds.position.x,
            y == bounds.position.y,
            rows@.len() == row,
            forall|k: int|
                0 <= k < row ==> {
                    &&& (#[trigger] rows@[k]).start == row_begin(bounds, grid_width, chunk_size, k)
                    &&& rows@[k].end == row_end(bounds, grid_width, chunk_size, k)
                },
        decreases height - row,
    {
        proof {
            lemma_row_layout(bounds, grid_width, chunk_size, row as int);
            assert((y + row + 1) * s <= (y + height) * s) by (nonlinear_arith)
                requires
                    row + 1 <= height,
                    0 <= s,
            ;
            assert(0 <= row * s) by (nonlinear_arith)
                requires
                    0 <= s,
            ;
        }
        let cell_y: usize = row * full_width;
        let start: usize = start_cell + cell_y;
        let end: usize = start + width;
        rows.push(start..end);
        row += 1;
    }
    Ok(rows)
}

/// Copies the `run.len()` elements of `data` that begin at `from` over
/// `run`.
fn copy_run<E: Copy>(run: &mut [E], data: &[E], from: usize)
    requires
        from + old(run)@.len() <= data@.len(),
    ensures
        final(run)@.len() == old(run)@.len(),
        final(run)@ == data@.subrange(from as int, from + old(run)@.len()),
{
    let length: usize = run.len();
    assert(data@.len() == data.len());
    let mut i: usize = 0;
    while i < length
        invariant
            0 <= i <= length,
            length == run@.len(),
            length == old(run)@.len(),
            from + length <= data@.len() <= usize::MAX,
            forall|k: int| 0 <= k < i ==> run@[k] == data@[from + k],
        decreases length - i,
    {
        run[i] = data[from + i];
        i += 1;
    }
    assert(run@ =~= data@.subrange(from as int, from + length));
}

/// A 2D array, representing a grid with X and Y space.
///
/// The buffer holds the rows one after another; each row holds `width`
/// cells and each cell `chunk_size` elements.
#[derive(Clone)]
pub struct Grid2D<T> {
    arr: T,
    width: usize,
    chunk_size: usize,
}

impl<T: Interpretation2D> Grid2D<T> {
    /// The elements of the buffer, in order.
    pub closed spec fn cells(&self) -> Seq<T::Item> {
        self.arr.cells()
    }

    /// The number of cells in a row.
    pub closed spec fn columns(&self) -> usize {
        self.width
    }

    /// The number of buffer elements in a cell.
    pub closed spec fn chunk(&self) -> usize {
        self.chunk_size
    }

    /// The number of rows: `length / (width * chunk_size)`.
    pub open spec fn rows(&self) -> int {
        self.cells().len() as int / stride(self.columns(), self.chunk())
    }

    /// The buffer is an exact number of rows long.
    pub open spec fn wf(&self) -> bool {
        valid_layout(self.cells().len(), self.columns(), self.chunk())
    }

    /// The region is not empty and lies entirely within the grid.
    pub open spec fn contains(&self, region: Bounds2D<usize>) -> bool {
        &&& region.size.width * region.size.height > 0
        &&& region.position.x + region.size.width <= self.columns()
        &&& region.position.y + region.size.height <= self.rows()
    }

    /// Lays a grid of `width` columns, with `chunk_size` elements to the
    /// cell, over `arr`.
    ///
    /// The length of `arr` must be an exact multiple of
    /// `width * chunk_size`, and neither of the two may be zero.
    pub fn new(arr: T, width: usize, chunk_size: usize) -> (grid: Result<Grid2D<T>, GridError>)
        ensures
            grid is Ok <==> valid_layout(arr.cells().len(), width, chunk_size),
            grid is Err ==> grid->Err_0 == GridError::Construction,
            grid is Ok ==> {
                &&& grid->Ok_0.wf()
                &&& grid->Ok_0.cells() == arr.cells()
                &&& grid->Ok_0.columns() == width
                &&& grid->Ok_0.chunk() == chunk_size
            },
    {
        if width == 0 || chunk_size == 0 {
            return Err(GridError::Construction);
        }
        let arr_size: usize = arr.size();
        match width.checked_mul(chunk_size) {
            Some(full_width) => {
                assert(full_width > 0) by (nonlinear_arith)
                    requires
                        width > 0,
                        chunk_size > 0,
                        full_width == width * chunk_size,
                ;
                if arr_size % full_width != 0 {
                    return Err(GridError::Construction);
                }
            },
            None => {
                proof {
                    lemma_small_mod(arr_size as nat, stride(width, chunk_size) as nat);
                }
                if arr_size != 0 {
                    return Err(GridError::Construction);
                }
            },
        }
        Ok(Grid2D { chunk_size, width, arr })
    }

    /// Returns the size of the grid in cells: its width, and the height
    /// that the length of the buffer gives.
    pub fn size(&self) -> (size: Size2D<usize>)
        requires
            self.wf(),
        ensures
            size.width == self.columns(),
            size.height == self.rows(),
            size.height == self.cells().len() as int / (self.columns() * self.chunk()),
    {
        let width: usize = self.width;
        proof {
            lemma_div_denominator(
                self.arr.cells().len() as int,
                self.chunk_size as int,
                self.width as int,
            );
            assert(self.chunk_size * self.width == self.width * self.chunk_size)
                by (nonlinear_arith);
        }
        let height: usize = (self.arr.size() / self.chunk_size) / self.width;
        Size2D::new(width, height)
    }

    /// Returns the number of buffer elements in a cell.
    pub fn chunk_size(&self) -> (chunk_size: usize)
        ensures
            chunk_size == self.chunk(),
    {
        self.chunk_size
    }

    /// Returns the buffer index of the first element of the cell at
    /// `position`.
    ///
    /// The position is not held against the size of the grid.
    pub fn index<P: ToPoint2D<usize>>(&self, position: P) -> (index: usize)
        requires
            cell_index(
                position.as_vector().x,
                position.as_vector().y,
                self.columns(),
                self.chunk(),
            ) <= usize::MAX,
        ensures
            index == cell_index(
                position.as_vector().x,
                position.as_vector().y,
                self.columns(),
                self.chunk(),
            ),
    {
        index_at(position, self.width, self.chunk_size)
    }

    /// Returns the whole buffer.
    pub fn values(&self) -> (values: &[T::Item])
        ensures
            values@ == self.cells(),
    {
        self.arr.values()
    }

    /// Tells whether `region` is not empty and lies entirely within the grid.
    pub fn holds(&self, region: Bounds2D<usize>) -> (inside: bool)
        requires
            self.wf(),
        ensures
            inside == self.contains(region),
            inside ==> addressable(region, self.columns(), self.chunk()),
            inside ==> (region.position.y + region.size.height) * stride(
                self.columns(),
                self.chunk(),
            ) <= self.cells().len(),
    {
        let length: usize = self.arr.size();
        proof {
            lemma_div_denominator(length as int, self.chunk_size as int, self.width as int);
            assert(self.chunk_size * self.width == self.width * self.chunk_size)
                by (nonlinear_arith);
        }
        let rows: usize = (length / self.chunk_size) / self.width;
        let x: usize = region.position.x;
        let y: usize = region.position.y;
        let width: usize = region.size.width;
        let height: usize = region.size.height;
        proof {
            assert(width * height > 0 <==> width > 0 && height > 0) by (nonlinear_arith);
        }
        let inside = width > 0 && height > 0 && x <= self.width && width <= self.width - x && y
            <= rows && height <= rows - y;
        proof {
            if inside {
                let s = stride(self.columns(), self.chunk());
                let len = length as int;
                assert(s > 0) by (nonlinear_arith)
                    requires
                        self.columns() > 0,
                        self.chunk() > 0,
                        s == self.columns() * self.chunk(),
                ;
                lemma_fundamental_div_mod(len, s);
                assert((y + height) * s <= s * (len / s)) by (nonlinear_arith)
                    requires
                        y + height <= len / s,
                        0 <= s,
                ;
            }
        }
        inside
    }

    /// Hands each row of the region to `write`, from the top row down:
    /// the index of the row within the region, and the run of the buffer
    /// that holds the row.
    ///
    /// Nothing outside the region changes. A region that the grid does not
    /// contain is turned down, and the grid is left as it was.
    ///
    /// `write` has to accept every run of `width * chunk_size` elements
    /// with a row index below `height`, and to hand it back as long as it
    /// was; see [`Interpretation2D::write`].
    pub fn write<B: IntoBounds2D<usize>, W: FnMut(usize, &mut [T::Item])>(
        &mut self,
        bounds: B,
        write: W,
    ) -> (done: Result<(), GridError>)
        requires
            old(self).wf(),
            forall|row: usize, run: &mut [T::Item]|
                row < bounds.as_bounds().size.height && run@.len() == row_len(
                    bounds.as_bounds(),
                    old(self).chunk(),
                ) ==> #[trigger] call_requires(write, (row, run)),
            forall|row: usize, run: &mut [T::Item]|
                row < bounds.as_bounds().size.height && run@.len() == row_len(
                    bounds.as_bounds(),
                    old(self).chunk(),
                ) && #[trigger] call_ensures(write, (row, run), ()) ==> final(run)@.len()
                    == run@.len(),
        ensures
            done is Ok <==> old(self).contains(bounds.as_bounds()),
            done is Err ==> done->Err_0 == GridError::RegionBounds && final(self).cells() == old(
                self,
            ).cells(),
            final(self).wf(),
            final(self).columns() == old(self).columns(),
            final(self).chunk() == old(self).chunk(),
            done is Ok ==> same_outside(
                old(self).cells(),
                final(self).cells(),
                bounds.as_bounds(),
                old(self).columns(),
                old(self).chunk(),
            ),
            done is Ok ==> forall|row: int|
                #![trigger row_end(bounds.as_bounds(), old(self).columns(), old(self).chunk(), row)]
                0 <= row < bounds.as_bounds().size.height ==> row_end(
                    bounds.as_bounds(),
                    old(self).columns(),
                    old(self).chunk(),
                    row,
                ) <= final(self).cells().len() && exists|run: &mut [T::Item]|
                    #![trigger call_ensures(write, (row as usize, run), ())]
                    {
                        &&& call_ensures(write, (row as usize, run), ())
                        &&& run@ == old(self).cells().subrange(
                            row_begin(
                                bounds.as_bounds(),
                                old(self).columns(),
                                old(self).chunk(),
                                row,
                            ),
                            row_end(
                                bounds.as_bounds(),
                                old(self).columns(),
                                old(self).chunk(),
                                row,
                            ),
                        )
                        &&& final(run)@ == final(self).cells().subrange(
                            row_begin(
                                bounds.as_bounds(),
                                old(self).columns(),
                                old(self).chunk(),
                                row,
                            ),
                            row_end(
                                bounds.as_bounds(),
                                old(self).columns(),
                                old(self).chunk(),
                                row,
                            ),
                        )
                    },
    {
        let region = bounds.to_bounds();
        if !self.holds(region) {
            return Err(GridError::RegionBounds);
        }
        let rows = match row_ranges(region, self.width, self.chunk_size) {
            Ok(rows) => rows,
            Err(error) => {
                return Err(error);
            },
        };
        let ghost before = self.arr.cells();
        proof {
            lemma_runs_of_region(region, self.width, self.chunk_size, rows@, before.len());
        }
        self.arr.write(rows, write);
        proof {
            let after = self.arr.cells();
            assert forall|i: int|
                0 <= i < before.len() && !covers(
                    region,
                    self.width,
                    self.chunk_size,
                    i,
                ) implies #[trigger] after[i] == before[i] by {
                if in_runs(rows@, i) {
                    let k = choose|k: int|
                        0 <= k < rows@.len() && (#[trigger] rows@[k]).start <= i < rows@[k].end;
                    assert(row_begin(region, self.width, self.chunk_size, k) <= i < row_end(
                        region,
                        self.width,
                        self.chunk_size,
                        k,
                    ));
                    lemma_covers_rows(region, self.width, self.chunk_size, i);
                }
            }
            assert(same_outside(before, after, region, self.width, self.chunk_size));
            assert forall|row: int|
                #![trigger row_end(bounds.as_bounds(), old(self).columns(), old(self).chunk(), row)]
                0 <= row < bounds.as_bounds().size.height implies row_end(
                bounds.as_bounds(),
                old(self).columns(),
                old(self).chunk(),
                row,
            ) <= self.cells().len() && exists|run: &mut [T::Item]|
                #![trigger call_ensures(write, (row as usize, run), ())]
                {
                    &&& call_ensures(write, (row as usize, run), ())
                    &&& run@ == old(self).cells().subrange(
                        row_begin(bounds.as_bounds(), old(self).columns(), old(self).chunk(), row),
                        row_end(bounds.as_bounds(), old(self).columns(), old(self).chunk(), row),
                    )
                    &&& final(run)@ == self.cells().subrange(
                        row_begin(bounds.as_bounds(), old(self).columns(), old(self).chunk(), row),
                        row_end(bounds.as_bounds(), old(self).columns(), old(self).chunk(), row),
                    )
                } by {
                assert(rows@[row].start == row_begin(region, self.width, self.chunk_size, row));
                assert(rows@[row].end == row_end(region, self.width, self.chunk_size, row));
            }
        }
        Ok(())
    }

    /// Copies `data` onto the region, row by row: the first
    /// `width * chunk_size` elements go to the top row of the region, the
    /// next ones to the row below, and so on.
    ///
    /// Nothing outside the region changes. A region that the grid does not
    /// contain is turned down; so is `data` that ends before the last row
    /// of the region is filled. Either way the grid is left as it was.
    pub fn insert<B: IntoBounds2D<usize>>(&mut self, bounds: B, data: &[T::Item]) -> (done: Result<
        (),
        GridError,
    >) where T::Item: Copy
        requires
            old(self).wf(),
        ensures
            final(self).wf(),
            final(self).columns() == old(self).columns(),
            final(self).chunk() == old(self).chunk(),
            done is Err ==> final(self).cells() == old(self).cells(),
            !old(self).contains(bounds.as_bounds()) ==> done == Err::<(), GridError>(
                GridError::RegionBounds,
            ),
            old(self).contains(bounds.as_bounds()) && data@.len() < bounds.as_bounds().size.height
                * row_len(bounds.as_bounds(), old(self).chunk()) ==> done == Err::<(), GridError>(
                GridError::DataShape {
                    expected_rows: bounds.as_bounds().size.height,
                    supplied_rows: (data@.len() as int / row_len(
                        bounds.as_bounds(),
                        old(self).chunk(),
                    )) as usize,
                },
            ),
            old(self).contains(bounds.as_bounds()) && data@.len() >= bounds.as_bounds().size.height
                * row_len(bounds.as_bounds(), old(self).chunk()) ==> {
                &&& done is Ok
                &&& same_outside(
                    old(self).cells(),
                    final(self).cells(),
                    bounds.as_bounds(),
                    old(self).columns(),
                    old(self).chunk(),
                )
                &&& rows_hold(
                    final(self).cells(),
                    bounds.as_bounds(),
                    old(self).columns(),
                    old(self).chunk(),
                    data@,
                )
            },
    {
        let bounds = bounds.to_bounds();
        if !self.holds(bounds) {
            return Err(GridError::RegionBounds);
        }
        let height: usize = bounds.height();
        proof {
            assert(bounds.size.width > 0 && height > 0) by (nonlinear_arith)
                requires
                    bounds.size.width * height > 0,
                    bounds.size.width >= 0,
                    height >= 0,
            ;
            lemma_row_layout(bounds, self.width, self.chunk_size, 0);
            assert(stride(self.width, self.chunk_size) <= (bounds.position.y + height) * stride(
                self.width,
                self.chunk_size,
            )) by (nonlinear_arith)
                requires
                    bounds.position.y + height >= 1,
                    stride(self.width, self.chunk_size) >= 0,
            ;
            assert(bounds.size.width * self.chunk_size > 0) by (nonlinear_arith)
                requires
                    bounds.size.width > 0,
                    self.chunk_size > 0,
            ;
        }
        let line_length: usize = bounds.width() * self.chunk_size;
        let supplied: usize = data.len() / line_length;
        proof {
            lemma_fundamental_div_mod(data@.len() as int, line_length as int);
            if supplied < height {
                assert(line_length * (supplied + 1) <= line_length * height) by (nonlinear_arith)
                    requires
                        supplied + 1 <= height,
                        line_length >= 0,
                ;
                assert(line_length * (supplied + 1) == line_length * supplied + line_length)
                    by (nonlinear_arith);
            } else {
                assert(line_length * height <= line_length * supplied) by (nonlinear_arith)
                    requires
                        height <= supplied,
                        line_length >= 0,
                ;
            }
            assert(line_length * height == height * line_length) by (nonlinear_arith);
        }
        if supplied < height {
            return Err(GridError::DataShape { expected_rows: height, supplied_rows: supplied });
        }
        let ghost before = self.arr.cells();
        let ghost columns = self.width;
        let ghost chunk = self.chunk_size;
        let place = |row: usize, run: &mut [T::Item]|
            requires
                row < height,
                old(run)@.len() == line_length,
            ensures
                final(run)@.len() == line_length,
                final(run)@ == data@.subrange(row * line_length, row * line_length + line_length),
            {
                proof {
                    assert((row + 1) * line_length <= height * line_length) by (nonlinear_arith)
                        requires
                            row + 1 <= height,
                            line_length >= 0,
                    ;
                    assert((row + 1) * line_length == row * line_length + line_length)
                        by (nonlinear_arith);
                    assert(0 <= row * line_length) by (nonlinear_arith);
                }
                copy_run(run, data, row * line_length)
            };
        let done = self.write(bounds, place);
        proof {
            let after = self.arr.cells();
            assert forall|row: int| 0 <= row < bounds.size.height implies after.subrange(
                #[trigger] row_begin(bounds, columns, chunk, row),
                row_end(bounds, columns, chunk, row),
            ) == data@.subrange(
                row * row_len(bounds, chunk),
                row * row_len(bounds, chunk) + row_len(bounds, chunk),
            ) by {
                let run = choose|run: &mut [T::Item]|
                    #![trigger call_ensures(place, (row as usize, run), ())]
                    {
                        &&& call_ensures(place, (row as usize, run), ())
                        &&& run@ == before.subrange(
                            row_begin(bounds, columns, chunk, row),
                            row_end(bounds, columns, chunk, row),
                        )
                        &&& final(run)@ == after.subrange(
                            row_begin(bounds, columns, chunk, row),
                            row_end(bounds, columns, chunk, row),
                        )
                    };
                assert(call_ensures(place, (row as usize, run), ()));
            }
        }
        done
    }

    /// Returns the elements of the region: its rows from the top down, each
    /// from left to right, one after another.
    ///
    /// A region that the grid does not contain is turned down.
    pub fn slice<B: IntoBounds2D<usize>>(&self, bounds: B) -> (cells: Result<
        Vec<&T::Item>,
        GridError,
    >)
        requires
            self.wf(),
        ensures
            cells is Ok <==> self.contains(bounds.as_bounds()),
            cells is Err ==> cells->Err_0 == GridError::RegionBounds,
            cells is Ok ==> cells->Ok_0@.map_values(|e: &T::Item| *e) == region_cells(
                self.cells(),
                bounds.as_bounds(),
                self.columns(),
                self.chunk(),
            ),
            cells is Ok ==> cells->Ok_0@.len() == bounds.as_bounds().size.height * row_len(
                bounds.as_bounds(),
                self.chunk(),
            ),
    {
        let bounds = bounds.to_bounds();
        if !self.holds(bounds) {
            return Err(GridError::RegionBounds);
        }
        let rows = match row_ranges(bounds, self.width, self.chunk_size) {
            Ok(rows) => rows,
            Err(error) => {
                return Err(error);
            },
        };
        let values = self.arr.values();
        proof {
            lemma_runs_of_region(bounds, self.width, self.chunk_size, rows@, values@.len());
        }
        let mut mapped: Vec<&T::Item> = Vec::new();
        let mut row: usize = 0;
        while row < rows.len()
            invariant
                0 <= row <= rows@.len(),
                rows@.len() == bounds.size.height,
                values@ == self.arr.cells(),
                ordered_runs(rows@, values@.len()),
                forall|k: int|
                    0 <= k < rows@.len() ==> {
                        &&& (#[trigger] rows@[k]).start == row_begin(
                            bounds,
                            self.width,
                            self.chunk_size,
                            k,
                        )
                        &&& rows@[k].end == row_end(bounds, self.width, self.chunk_size, k)
                    },
                mapped@.map_values(|e: &T::Item| *e) == leading_rows(
                    values@,
                    bounds,
                    self.width,
                    self.chunk_size,
                    row as nat,
                ),
            decreases rows@.len() - row,
        {
            let start: usize = rows[row].start;
            let end: usize = rows[row].end;
            let ghost above = mapped@.map_values(|e: &T::Item| *e);
            let mut i: usize = start;
            while i < end
                invariant
                    start <= i <= end <= values@.len(),
                    mapped@.map_values(|e: &T::Item| *e) == above + values@.subrange(
                        start as int,
                        i as int,
                    ),
                decreases end - i,
            {
                let ghost held = mapped@.map_values(|e: &T::Item| *e);
                mapped.push(&values[i]);
                assert(mapped@.map_values(|e: &T::Item| *e) =~= held.push(values@[i as int]));
                assert(values@.subrange(start as int, i + 1) =~= values@.subrange(
                    start as int,
                    i as int,
                ).push(values@[i as int]));
                i += 1;
            }
            row += 1;
        }
        proof {
            lemma_leading_rows_len(
                values@,
                bounds,
                self.width,
                self.chunk_size,
                bounds.size.height as nat,
            );
        }
        Ok(mapped)
    }

    /// Returns copies of the elements of the region, in the order of
    /// [`slice`](Grid2D::slice). What is returned does not borrow from the
    /// grid.
    ///
    /// A region that the grid does not contain is turned down.
    pub fn portion<B: IntoBounds2D<usize>>(&self, bounds: B) -> (cells: Result<
        Vec<T::Item>,
        GridError,
    >) where T::Item: Copy
        requires
            self.wf(),
        ensures
            cells is Ok <==> self.contains(bounds.as_bounds()),
            cells is Err ==> cells->Err_0 == GridError::RegionBounds,
            cells is Ok ==> cells->Ok_0@ == region_cells(
                self.cells(),
                bounds.as_bounds(),
                self.columns(),
                self.chunk(),
            ),
            cells is Ok ==> cells->Ok_0@.len() == bounds.as_bounds().size.height * row_len(
                bounds.as_bounds(),
                self.chunk(),
            ),
    {
        let borrowed = match self.slice(bounds) {
            Ok(borrowed) => borrowed,
            Err(error) => {
                return Err(error);
            },
        };
        let mut copied: Vec<T::Item> = Vec::new();
        let mut i: usize = 0;
        while i < borrowed.len()
            invariant
                0 <= i <= borrowed@.len(),
                copied@ == borrowed@.map_values(|e: &T::Item| *e).subrange(0, i as int),
            decreases borrowed@.len() - i,
        {
            copied.push(*borrowed[i]);
            assert(copied@ =~= borrowed@.map_values(|e: &T::Item| *e).subrange(0, i + 1));
            i += 1;
        }
        assert(copied@ =~= borrowed@.map_values(|e: &T::Item| *e));
        Ok(copied)
    }
}

} // verus!
