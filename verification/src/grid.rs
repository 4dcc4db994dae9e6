//! Regular grids of cells laid over a rectangle.

use vstd::prelude::*;
use vstd::arithmetic::div_mod::{
    lemma_fundamental_div_mod, lemma_fundamental_div_mod_converse, lemma_mod_bound,
};
use vstd::arithmetic::mul::{lemma_mul_is_commutative, lemma_mul_is_distributive_add_other_way};
use crate::arith::div_toward_zero;
use crate::point::{Point, PointView};
use crate::rect::{Rect, RectView};

verus! {

/// Mathematical model of a [`Grid`].
pub struct GridView {
    pub rows: nat,
    pub cols: nat,
    pub spacing: int,
    pub area: RectView,
}

impl GridView {
    /// A grid can only be divided into cells if it has at least one row and
    /// one column.
    pub open spec fn well_formed(self) -> bool {
        self.rows > 0 && self.cols > 0
    }

    /// The grid of `rows` by `cols` cells over `area`, without spacing.
    pub open spec fn new(area: RectView, rows: nat, cols: nat) -> GridView {
        GridView { rows, cols, spacing: 0, area }
    }

    /// The horizontal distance from one column to the next: the width of the
    /// area divided by the number of columns, rounded toward zero.
    pub open spec fn cell_width(self) -> int
        recommends
            self.cols > 0,
    {
        div_toward_zero(self.area.width(), self.cols as int)
    }

    /// The height of the area divided by the number of rows, rounded toward
    /// zero.
    pub open spec fn cell_height(self) -> int
        recommends
            self.rows > 0,
    {
        div_toward_zero(self.area.height(), self.rows as int)
    }

    /// The cell in row `row` and column `col`, both counted from zero.
    ///
    /// Rows and columns are both stepped by [`cell_width`](Self::cell_width):
    /// the top edge of row `row` lies `row * cell_width` below the top of the
    /// area. The cell itself is `cell_width - spacing` wide and
    /// `cell_height - spacing` high.
    pub open spec fn row_col(self, row: int, col: int) -> RectView
        recommends
            self.well_formed(),
    {
        let x = col * self.cell_width();
        let y = row * self.cell_width();
        RectView {
            x0: self.area.x0 + x,
            y0: self.area.y0 + y,
            x1: self.area.x0 + x + (self.cell_width() - self.spacing),
            y1: self.area.y0 + y + (self.cell_height() - self.spacing),
        }
    }

    /// The cell with the linear index `index`: its row is `index / rows`, its
    /// column is `index % cols`.
    pub open spec fn cell(self, index: int) -> RectView
        recommends
            self.well_formed(),
    {
        self.row_col(index / (self.rows as int), index % (self.cols as int))
    }

    /// The part of the area that the columns and rows are laid out to fill:
    /// `cols` cell widths across and `rows` cell heights down from the
    /// top-left corner of the area.
    pub open spec fn covered(self) -> RectView
        recommends
            self.well_formed(),
    {
        RectView {
            x0: self.area.x0,
            y0: self.area.y0,
            x1: self.area.x0 + self.cols * self.cell_width(),
            y1: self.area.y0 + self.rows * self.cell_height(),
        }
    }

    /// Whether each row begins where the row above it ends. Rows are stepped
    /// by the cell width, so this holds of a single row and of square cells.
    pub open spec fn rows_abut(self) -> bool {
        self.rows == 1 || self.cell_width() == self.cell_height()
    }

    /// Whether the cells contain no point at all, because the area is
    /// narrower than the number of columns or lower than the number of rows.
    pub open spec fn cells_empty(self) -> bool {
        self.cell_width() <= 0 || self.cell_height() <= 0
    }

    /// Whether `p` lies in one of the `rows * cols` cells of the grid.
    pub open spec fn in_some_cell(self, p: PointView) -> bool {
        exists|row: int, col: int|
            0 <= row < self.rows && 0 <= col < self.cols && #[trigger] self.row_col(
                row,
                col,
            ).contains(p)
    }
}

/// A partition of `area` into `rows` by `cols` cells of equal size, each
/// shortened by `spacing` on its right and bottom edge.
///
/// A cell is as wide as the area's width divided by `cols` and as high as its
/// height divided by `rows`; both quotients are rounded toward zero, and the
/// pixels that the division leaves over at the right and at the bottom belong
/// to no cell.
///
/// The layout is regular for grids with as many rows as columns and with
/// square cells. For any other grid, mind that
/// - the distance from one row to the next is the cell *width*, so rows of
///   cells that are higher than wide overlap, and rows of cells that are
///   wider than high leave gaps;
/// - a linear index is split into the row `index / rows` and the column
///   `index % cols`, which counts the cells row by row only where `rows`
///   equals `cols`.
///
/// The area is divided by both counts, so cells can be computed only for a
/// grid with at least one row and one column.
#[derive(Copy, Clone, Debug)]
pub struct Grid {
    /// Number of rows (cells on the y-axis) in the grid.
    pub rows: usize,
    /// Number of columns (cells on the x-axis) in the grid.
    pub cols: usize,
    /// Padding between cells.
    pub spacing: i32,
    /// Total area covered by this grid.
    pub area: Rect,
}

impl View for Grid {
    type V = GridView;

    open spec fn view(&self) -> GridView {
        GridView {
            rows: self.rows as nat,
            cols: self.cols as nat,
            spacing: self.spacing as int,
            area: self.area@,
        }
    }
}

impl Grid {
    /// A grid of `rows` by `cols` cells over `area`, without spacing.
    ///
    /// The counts are stored as given; cells can be computed only if both are
    /// positive.
    pub fn new(area: Rect, rows: usize, cols: usize) -> (g: Grid)
        ensures
            g@ == GridView::new(area@, rows as nat, cols as nat),
    {
        Grid { rows, cols, spacing: 0, area }
    }

    /// A grid of `rows` by `cols` cells over a display `width` pixels wide
    /// and `height` pixels high.
    pub fn screen(width: i32, height: i32, rows: usize, cols: usize) -> (g: Grid)
        ensures
            g@ == GridView::new(
                RectView::screen(width as int, height as int),
                rows as nat,
                cols as nat,
            ),
    {
        Grid::new(Rect::screen(width, height), rows, cols)
    }

    /// The cell in row `row` and column `col`, both counted from zero.
    ///
    /// Its left edge lies `col` cell widths right of the area's left edge
    /// and its top edge `row` cell widths (not heights) below the area's top
    /// edge. Neither index is held against the number of rows or columns, so
    /// a cell beyond the last row or column can be asked for as well.
    ///
    /// The grid must have at least one row and one column, and the cell must
    /// fit `i32` coordinates.
    pub fn row_col(&self, row: usize, col: usize) -> (r: Rect)
        requires
            self@.well_formed(),
            self@.row_col(row as int, col as int).fits(),
        ensures
            r@ == self@.row_col(row as int, col as int),
    {
        let width: i128 = self.area.x1 as i128 - self.area.x0 as i128;
        let height: i128 = self.area.y1 as i128 - self.area.y0 as i128;
        let cell_width: i128 = width / (self.cols as i128);
        let cell_height: i128 = height / (self.rows as i128);
        let x: i128 = (col as i128) * cell_width;
        let y: i128 = (row as i128) * cell_width;
        let x0: i128 = self.area.x0 as i128 + x;
        let y0: i128 = self.area.y0 as i128 + y;
        let x1: i128 = x0 + (cell_width - self.spacing as i128);
        let y1: i128 = y0 + (cell_height - self.spacing as i128);
        Rect { x0: x0 as i32, y0: y0 as i32, x1: x1 as i32, y1: y1 as i32 }
    }

    /// The cell with the linear index `index`, which is the cell in row
    /// `index / rows` and column `index % cols`.
    ///
    /// The grid must have at least one row and one column, and the cell must
    /// fit `i32` coordinates.
    pub fn cell(&self, index: usize) -> (r: Rect)
        requires
            self@.well_formed(),
            self@.cell(index as int).fits(),
        ensures
            r@ == self@.cell(index as int),
    {
        self.row_col(index / self.rows, index % self.cols)
    }
}

/// In a grid with as many rows as columns, linear indices count the cells
/// row by row: the cell in row `row` and column `col` has the index
/// `row * cols + col`.
pub proof fn lemma_cell_of_square_grid(g: Grid, row: int, col: int)
    requires
        g@.well_formed(),
        g@.rows == g@.cols,
        0 <= row,
        0 <= col < g@.cols,
    ensures
        g@.cell(row * g@.cols + col) == g@.row_col(row, col),
{
    lemma_fundamental_div_mod_converse(row * g@.cols + col, g@.cols as int, row, col);
}

/// Without spacing the columns of a row lie side by side from the left edge
/// of the area: the first cell begins there, each cell ends where its right
/// neighbour begins, and the last cell ends `cols` cell widths further right.
pub proof fn lemma_columns_tile(g: Grid, row: int, col: int)
    requires
        g@.well_formed(),
        g.spacing == 0,
    ensures
        g@.row_col(row, 0).x0 == g@.area.x0,
        g@.row_col(row, col).x1 == g@.row_col(row, col + 1).x0,
        g@.row_col(row, col).width() == g@.cell_width(),
        g@.row_col(row, g@.cols - 1).x1 == g@.covered().x1,
        g@.covered().width() == g@.cols * g@.cell_width(),
{
    let w: int = g@.cell_width();
    lemma_mul_is_distributive_add_other_way(w, col, 1);
    lemma_mul_is_distributive_add_other_way(w, g@.cols - 1, 1);
}

/// Without spacing, and where the rows abut, the rows of a column lie one
/// below the other from the top edge of the area: the first cell begins
/// there, each cell ends where the cell below it begins, and the last cell
/// ends `rows` cell heights further down.
pub proof fn lemma_rows_tile(g: Grid, row: int, col: int)
    requires
        g@.well_formed(),
        g.spacing == 0,
        g@.rows_abut(),
    ensures
        g@.row_col(0, col).y0 == g@.area.y0,
        0 <= row < g@.rows - 1 ==> g@.row_col(row, col).y1 == g@.row_col(row + 1, col).y0,
        g@.row_col(row, col).height() == g@.cell_height(),
        g@.row_col(g@.rows - 1, col).y1 == g@.covered().y1,
        g@.covered().height() == g@.rows * g@.cell_height(),
{
    let w: int = g@.cell_width();
    let h: int = g@.cell_height();
    let rows: int = g@.rows as int;
    if rows == 1 {
        assert((rows - 1) * w == 0 && rows * h == h) by (nonlinear_arith)
            requires
                rows == 1,
        ;
    } else {
        lemma_mul_is_distributive_add_other_way(w, row, 1);
        lemma_mul_is_distributive_add_other_way(w, rows - 1, 1);
    }
}

/// Over an area that is not inverted, the part that the cells are laid out to
/// fill begins at the top-left corner of the area and stays inside it. What
/// it leaves out on the right is narrower than `cols` pixels, and what it
/// leaves out at the bottom is lower than `rows` pixels.
pub proof fn lemma_covered_leaves_remainder(g: Grid)
    requires
        g@.well_formed(),
        g@.area.well_formed(),
    ensures
        g@.covered().top_left() == g@.area.top_left(),
        0 <= g@.area.width() - g@.covered().width() <= g@.cols - 1,
        0 <= g@.area.height() - g@.covered().height() <= g@.rows - 1,
{
    lemma_fundamental_div_mod(g@.area.width(), g@.cols as int);
    lemma_mod_bound(g@.area.width(), g@.cols as int);
    lemma_fundamental_div_mod(g@.area.height(), g@.rows as int);
    lemma_mod_bound(g@.area.height(), g@.rows as int);
}

/// The index of the step of length `step` in which `d` lies, counted from
/// zero, for a distance `d` that is smaller than `count` steps.
proof fn lemma_step_index(d: int, step: int, count: int) -> (k: int)
    requires
        0 <= d < count * step,
        0 < count,
    ensures
        0 <= k < count,
        k * step <= d < k * step + step,
{
    assert(0 < step) by (nonlinear_arith)
        requires
            0 < count * step,
            0 < count,
    ;
    let k: int = d / step;
    lemma_fundamental_div_mod(d, step);
    lemma_mod_bound(d, step);
    lemma_mul_is_commutative(step, k);
    assert(0 <= k < count) by (nonlinear_arith)
        requires
            0 < step,
            0 <= d < count * step,
            k * step <= d < k * step + step,
    ;
    k
}

/// A distance inside step `k` of `count` steps of length `step` is smaller
/// than all the steps together and not negative.
proof fn lemma_step_within(d: int, step: int, count: int, k: int)
    requires
        0 <= k < count,
        k * step <= d < k * step + step,
    ensures
        0 <= d < count * step,
{
    assert(0 <= d < count * step) by (nonlinear_arith)
        requires
            0 <= k < count,
            k * step <= d < k * step + step,
    ;
}

/// Without spacing, and where the rows abut or the cells are empty, the cells
/// of the grid together make up the part that they are laid out to fill: a
/// point lies in one of the `rows * cols` cells exactly if it lies in that
/// part.
pub proof fn lemma_cells_cover(g: Grid, p: Point)
    requires
        g@.well_formed(),
        g.spacing == 0,
        g@.rows_abut() || g@.cells_empty(),
    ensures
        g@.in_some_cell(p@) <==> g@.covered().contains(p@),
{
    let v: GridView = g@;
    let w: int = v.cell_width();
    let h: int = v.cell_height();
    let rows: int = v.rows as int;
    let cols: int = v.cols as int;
    let dx: int = p@.x - v.area.x0;
    let dy: int = p@.y - v.area.y0;
    if v.covered().contains(p@) {
        let col: int = lemma_step_index(dx, w, cols);
        let row: int = lemma_step_index(dy, h, rows);
        if rows == 1 {
            assert(row * w == 0) by (nonlinear_arith)
                requires
                    row == 0,
            ;
            assert(row * h == 0) by (nonlinear_arith)
                requires
                    row == 0,
            ;
        }
        assert(v.row_col(row, col).contains(p@));
    }
    if v.in_some_cell(p@) {
        let (row, col): (int, int) = choose|row: int, col: int|
            0 <= row < v.rows && 0 <= col < v.cols && #[trigger] v.row_col(row, col).contains(p@);
        lemma_step_within(dx, w, cols, col);
        if rows == 1 {
            assert(row * w == 0 && rows * h == h) by (nonlinear_arith)
                requires
                    row == 0,
                    rows == 1,
            ;
        } else {
            lemma_step_within(dy, h, rows, row);
        }
    }
}

/// With spacing that is not negative, and where no row reaches below the top
/// of the next, no point lies in two cells of the grid.
pub proof fn lemma_cells_disjoint(g: Grid, p: Point, row1: int, col1: int, row2: int, col2: int)
    requires
        g@.well_formed(),
        g.spacing >= 0,
        g@.rows == 1 || g@.cell_height() - g.spacing <= g@.cell_width(),
        0 <= row1 < g@.rows,
        0 <= row2 < g@.rows,
        0 <= col1 < g@.cols,
        0 <= col2 < g@.cols,
        g@.row_col(row1, col1).contains(p@),
        g@.row_col(row2, col2).contains(p@),
    ensures
        row1 == row2,
        col1 == col2,
{
    let w: int = g@.cell_width();
    let dx: int = p@.x - g@.area.x0;
    let dy: int = p@.y - g@.area.y0;
    assert(col1 == col2) by (nonlinear_arith)
        requires
            col1 * w <= dx < col1 * w + w,
            col2 * w <= dx < col2 * w + w,
    ;
    if g@.rows != 1 {
        assert(row1 == row2) by (nonlinear_arith)
            requires
                row1 * w <= dy < row1 * w + w,
                row2 * w <= dy < row2 * w + w,
        ;
    }
}

} // verus!
