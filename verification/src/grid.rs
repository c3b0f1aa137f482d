//! The bounded rectangular grid of cells and Moore-neighborhood resolution.
//!
//! A grid fixes inclusive bounds `[0, width] x [0, height]` at construction
//! and maps every coordinate of that extent to exactly one cell state. Its
//! mathematical model (the view) is a [`Generation`]: the sequence of rows,
//! each row the sequence of that row's cell states.

use vstd::prelude::*;

use crate::cell::ImmigrationCellState;

verus! {

/// An integer 2-D position identifying a cell; equality is component-wise.
#[derive(Debug, Clone, Copy, PartialEq, Eq, Structural)]
pub struct Coordinate {
    pub x: usize,
    pub y: usize,
}

/// The complete grid state at one discrete simulation time step, as rows of
/// cell states indexed `[y][x]`.
pub type Generation = Seq<Seq<ImmigrationCellState>>;

/// A generation is well formed when it is a non-empty rectangle of well
/// formed cell states.
pub open spec fn gen_wf(g: Generation) -> bool {
    &&& g.len() >= 1
    &&& g[0].len() >= 1
    &&& forall|y: int| 0 <= y < g.len() ==> (#[trigger] g[y]).len() == g[0].len()
    &&& forall|y: int, x: int|
        0 <= y < g.len() && 0 <= x < g[0].len() ==> (#[trigger] g[y][x]).wf()
}

/// Every coordinate of a generation holds a dead cell.
pub open spec fn all_dead(g: Generation) -> bool {
    forall|y: int, x: int| 0 <= y < g.len() && 0 <= x < g[y].len() ==> (#[trigger] g[y][x]) is Dead
}

/// The generation a vector of rows stands for.
pub open spec fn rows_view(rows: Vec<Vec<ImmigrationCellState>>) -> Generation {
    rows@.map_values(|r: Vec<ImmigrationCellState>| r@)
}

/// The coordinate `(x, y)` as a one-element sequence if it lies within the
/// inclusive bounds `[0, w] x [0, h]`, the empty sequence otherwise.
pub open spec fn opt_coord(w: int, h: int, x: int, y: int) -> Seq<(int, int)> {
    if 0 <= x <= w && 0 <= y <= h {
        seq![(x, y)]
    } else {
        Seq::empty()
    }
}

/// The Moore neighborhood of `(x, y)` within the inclusive bounds
/// `[0, w] x [0, h]`: the up to 8 adjacent coordinates in row-major order,
/// clipped at the edges, with no wraparound.
pub open spec fn moore_neighbors(w: int, h: int, x: int, y: int) -> Seq<(int, int)> {
    opt_coord(w, h, x - 1, y - 1) + opt_coord(w, h, x, y - 1) + opt_coord(w, h, x + 1, y - 1)
        + opt_coord(w, h, x - 1, y) + opt_coord(w, h, x + 1, y) + opt_coord(w, h, x - 1, y + 1)
        + opt_coord(w, h, x, y + 1) + opt_coord(w, h, x + 1, y + 1)
}

/// Every coordinate a Moore neighborhood yields lies within the bounds it
/// was clipped to.
pub proof fn lemma_moore_neighbors_in_bounds(w: int, h: int, x: int, y: int)
    ensures
        forall|i: int|
            0 <= i < moore_neighbors(w, h, x, y).len() ==> {
                let c = #[trigger] moore_neighbors(w, h, x, y)[i];
                0 <= c.0 <= w && 0 <= c.1 <= h
            },
{
    assert forall|i: int| 0 <= i < moore_neighbors(w, h, x, y).len() implies {
        let c = #[trigger] moore_neighbors(w, h, x, y)[i];
        0 <= c.0 <= w && 0 <= c.1 <= h
    } by {
        let p1 = opt_coord(w, h, x - 1, y - 1);
        let p2 = p1 + opt_coord(w, h, x, y - 1);
        let p3 = p2 + opt_coord(w, h, x + 1, y - 1);
        let p4 = p3 + opt_coord(w, h, x - 1, y);
        let p5 = p4 + opt_coord(w, h, x + 1, y);
        let p6 = p5 + opt_coord(w, h, x - 1, y + 1);
        let p7 = p6 + opt_coord(w, h, x, y + 1);
        let p8 = p7 + opt_coord(w, h, x + 1, y + 1);
        assert(moore_neighbors(w, h, x, y) == p8);
    }
}

/// The view of a vector of coordinates as integer pairs.
pub open spec fn coords_view(v: Vec<Coordinate>) -> Seq<(int, int)> {
    v@.map_values(|c: Coordinate| (c.x as int, c.y as int))
}

/// A bounded rectangular grid mapping every coordinate of
/// `[0, width] x [0, height]` (inclusive) to one cell state.
pub struct Grid {
    width: usize,
    height: usize,
    cells: Vec<Vec<ImmigrationCellState>>,
}

impl View for Grid {
    type V = Generation;

    closed spec fn view(&self) -> Generation {
        rows_view(self.cells)
    }
}

impl Grid {
    /// The largest x coordinate of the grid; cells span `[0, width]`.
    pub closed spec fn spec_width(self) -> int {
        self.width as int
    }

    /// The largest y coordinate of the grid; cells span `[0, height]`.
    pub closed spec fn spec_height(self) -> int {
        self.height as int
    }

    /// A grid is well formed when its view is a well formed rectangle whose
    /// extent matches its bounds.
    pub open spec fn wf(self) -> bool {
        &&& gen_wf(self@)
        &&& self@.len() == self.spec_height() + 1
        &&& self@[0].len() == self.spec_width() + 1
        &&& self.spec_width() < usize::MAX
        &&& self.spec_height() < usize::MAX
    }

    /// Does `(x, y)` lie within this grid's bounds?
    pub open spec fn in_bounds(self, x: int, y: int) -> bool {
        0 <= x <= self.spec_width() && 0 <= y <= self.spec_height()
    }

    pub fn width(&self) -> (w: usize)
        ensures
            w == self.spec_width(),
    {
        self.width
    }

    pub fn height(&self) -> (h: usize)
        ensures
            h == self.spec_height(),
    {
        self.height
    }

    /// Build a grid from its rows, which must form a non-empty rectangle of
    /// well formed cells; row `y` holds the states of the cells `(0, y)` to
    /// `(width, y)`.
    pub fn from_rows(rows: Vec<Vec<ImmigrationCellState>>) -> (g: Grid)
        requires
            rows_view(rows).len() >= 1,
            rows_view(rows)[0].len() >= 1,
            forall|y: int|
                0 <= y < rows_view(rows).len() ==> (#[trigger] rows_view(rows)[y]).len()
                    == rows_view(rows)[0].len(),
            forall|y: int, x: int|
                0 <= y < rows_view(rows).len() && 0 <= x < rows_view(rows)[0].len()
                    ==> (#[trigger] rows_view(rows)[y][x]).wf(),
        ensures
            g.wf(),
            g.spec_height() == rows_view(rows).len() - 1,
            g.spec_width() == rows_view(rows)[0].len() - 1,
            g@ == rows_view(rows),
    {
        let height = rows.len() - 1;
        let width = rows[0].len() - 1;
        Grid { width, height, cells: rows }
    }

    /// Create a grid of the given bounds with every cell in the same state.
    pub fn new_filled(width: usize, height: usize, state: ImmigrationCellState) -> (g: Grid)
        requires
            width < usize::MAX,
            height < usize::MAX,
            state.wf(),
        ensures
            g.wf(),
            g.spec_width() == width,
            g.spec_height() == height,
            forall|y: int, x: int|
                0 <= y < g@.len() && 0 <= x < g@[y].len() ==> (#[trigger] g@[y][x]) == state,
    {
        let mut cells: Vec<Vec<ImmigrationCellState>> = Vec::new();
        let mut y: usize = 0;
        while y < height + 1
            invariant
                width < usize::MAX,
                height < usize::MAX,
                y <= height + 1,
                cells@.len() == y,
                forall|yy: int|
                    0 <= yy < y ==> (#[trigger] cells@[yy])@.len() == width + 1,
                forall|yy: int, x: int|
                    0 <= yy < y && 0 <= x < width + 1 ==> (#[trigger] cells@[yy]@[x]) == state,
            decreases height + 1 - y,
        {
            let mut row: Vec<ImmigrationCellState> = Vec::new();
            let mut x: usize = 0;
            while x < width + 1
                invariant
                    width < usize::MAX,
                    x <= width + 1,
                    row@.len() == x,
                    forall|xx: int| 0 <= xx < x ==> (#[trigger] row@[xx]) == state,
                decreases width + 1 - x,
            {
                row.push(state);
                x = x + 1;
            }
            cells.push(row);
            y = y + 1;
        }
        let g = Grid { width, height, cells };
        proof {
            assert(forall|yy: int|
                0 <= yy < g@.len() ==> (#[trigger] g@[yy]).len() == width + 1);
        }
        g
    }

    /// The state of the cell at an in-bounds coordinate.
    pub fn get(&self, coord: Coordinate) -> (s: ImmigrationCellState)
        requires
            self.wf(),
            self.in_bounds(coord.x as int, coord.y as int),
        ensures
            s == self@[coord.y as int][coord.x as int],
    {
        self.cells[coord.y][coord.x]
    }

    /// The Moore-adjacent coordinates of an in-bounds coordinate, clipped at
    /// the grid's edges: 8 in the interior, 5 on an edge, 3 at a corner.
    pub fn neighbors(&self, coord: Coordinate) -> (r: Vec<Coordinate>)
        requires
            self.wf(),
            self.in_bounds(coord.x as int, coord.y as int),
        ensures
            coords_view(r) == moore_neighbors(
                self.spec_width(),
                self.spec_height(),
                coord.x as int,
                coord.y as int,
            ),
            forall|i: int|
                0 <= i < r@.len() ==> self.in_bounds(
                    (#[trigger] r@[i]).x as int,
                    r@[i].y as int,
                ),
    {
        let x = coord.x;
        let y = coord.y;
        let w_max = self.width;
        let h_max = self.height;
        let ghost w = self.spec_width();
        let ghost h = self.spec_height();
        let ghost xi = x as int;
        let ghost yi = y as int;
        let ghost p1 = opt_coord(w, h, xi - 1, yi - 1);
        let ghost p2 = p1 + opt_coord(w, h, xi, yi - 1);
        let ghost p3 = p2 + opt_coord(w, h, xi + 1, yi - 1);
        let ghost p4 = p3 + opt_coord(w, h, xi - 1, yi);
        let ghost p5 = p4 + opt_coord(w, h, xi + 1, yi);
        let ghost p6 = p5 + opt_coord(w, h, xi - 1, yi + 1);
        let ghost p7 = p6 + opt_coord(w, h, xi, yi + 1);
        let ghost p8 = p7 + opt_coord(w, h, xi + 1, yi + 1);
        let mut r: Vec<Coordinate> = Vec::new();
        if x > 0 && y > 0 {
            r.push(Coordinate { x: x - 1, y: y - 1 });
        }
        proof {
            assert(coords_view(r) =~= p1);
        }
        if y > 0 {
            r.push(Coordinate { x, y: y - 1 });
        }
        proof {
            assert(coords_view(r) =~= p2);
        }
        if x < w_max && y > 0 {
            r.push(Coordinate { x: x + 1, y: y - 1 });
        }
        proof {
            assert(coords_view(r) =~= p3);
        }
        if x > 0 {
            r.push(Coordinate { x: x - 1, y });
        }
        proof {
            assert(coords_view(r) =~= p4);
        }
        if x < w_max {
            r.push(Coordinate { x: x + 1, y });
        }
        proof {
            assert(coords_view(r) =~= p5);
        }
        if x > 0 && y < h_max {
            r.push(Coordinate { x: x - 1, y: y + 1 });
        }
        proof {
            assert(coords_view(r) =~= p6);
        }
        if y < h_max {
            r.push(Coordinate { x, y: y + 1 });
        }
        proof {
            assert(coords_view(r) =~= p7);
        }
        if x < w_max && y < h_max {
            r.push(Coordinate { x: x + 1, y: y + 1 });
        }
        proof {
            assert(coords_view(r) =~= p8);
            assert(moore_neighbors(w, h, xi, yi) == p8);
        }
        r
    }

    /// Swap in a whole new generation atomically: after the call every `get`
    /// reflects the new states and none the old ones. The new rows must fill
    /// exactly this grid's extent with well formed cells.
    pub fn replace_all(&mut self, new_cells: Vec<Vec<ImmigrationCellState>>)
        requires
            old(self).wf(),
            rows_view(new_cells).len() == old(self)@.len(),
            forall|y: int|
                0 <= y < rows_view(new_cells).len() ==> (#[trigger] rows_view(new_cells)[y]).len()
                    == old(self)@[0].len(),
            forall|y: int, x: int|
                0 <= y < rows_view(new_cells).len() && 0 <= x < old(self)@[0].len()
                    ==> (#[trigger] rows_view(new_cells)[y][x]).wf(),
        ensures
            final(self).wf(),
            final(self).spec_width() == old(self).spec_width(),
            final(self).spec_height() == old(self).spec_height(),
            final(self)@ == rows_view(new_cells),
    {
        self.cells = new_cells;
    }
}

} // verus!
