//! The generation scheduler: advance a grid by one generation or by a batch
//! of generations.
//!
//! Every cell's next state is computed against the same immutable snapshot
//! of the current generation, never against another cell's just-computed
//! next state; the grid is then replaced wholesale, so no reader ever
//! observes a mixed generation.

use vstd::prelude::*;

use crate::cell::ImmigrationCellState;
use crate::grid::{
    all_dead, coords_view, gen_wf, moore_neighbors, rows_view, Coordinate, Generation, Grid,
    lemma_moore_neighbors_in_bounds,
};
use crate::rule::{lemma_alive_count_all_dead, next_state};

verus! {

/// The states of the Moore neighbors of `(x, y)` in a generation, in the
/// order their coordinates are resolved.
pub open spec fn neighbor_states(g: Generation, x: int, y: int) -> Seq<ImmigrationCellState> {
    moore_neighbors(g[0].len() - 1, g.len() - 1, x, y).map_values(|c: (int, int)| g[c.1][c.0])
}

/// The next state of the cell at `(x, y)`: the transition rule applied to
/// its current state and its neighbors' states, all read from the same
/// snapshot.
pub open spec fn step_cell(g: Generation, x: int, y: int) -> ImmigrationCellState {
    next_state(g[y][x], neighbor_states(g, x, y))
}

/// The generation that follows `g`: every cell stepped simultaneously
/// against the snapshot `g`.
pub open spec fn next_generation(g: Generation) -> Generation {
    Seq::new(g.len(), |y: int| Seq::new(g[0].len(), |x: int| step_cell(g, x, y)))
}

/// The generation reached from `g` after `n` single steps.
pub open spec fn after_steps(g: Generation, n: nat) -> Generation
    decreases n,
{
    if n == 0 {
        g
    } else {
        next_generation(after_steps(g, (n - 1) as nat))
    }
}

/// Stepping a well formed generation preserves well-formedness and the
/// extent: the cell count and bounds never grow or shrink.
pub proof fn lemma_next_generation_wf(g: Generation)
    requires
        gen_wf(g),
    ensures
        gen_wf(next_generation(g)),
        next_generation(g).len() == g.len(),
        next_generation(g)[0].len() == g[0].len(),
{
    assert forall|y: int, x: int|
        0 <= y < g.len() && 0 <= x < g[0].len() implies (#[trigger] next_generation(
        g,
    )[y][x]).wf() by {
        assert(next_generation(g)[y][x] == step_cell(g, x, y));
        assert(g[y][x].wf());
    }
}

/// The extent of a well formed generation is invariant across any number of
/// steps, and every reached generation is well formed.
pub proof fn lemma_extent_invariant(g: Generation, n: nat)
    requires
        gen_wf(g),
    ensures
        gen_wf(after_steps(g, n)),
        after_steps(g, n).len() == g.len(),
        after_steps(g, n)[0].len() == g[0].len(),
    decreases n,
{
    if n > 0 {
        lemma_extent_invariant(g, (n - 1) as nat);
        lemma_next_generation_wf(after_steps(g, (n - 1) as nat));
    }
}

/// Running zero steps leaves a generation unchanged.
pub proof fn lemma_zero_steps_identity(g: Generation)
    ensures
        after_steps(g, 0) == g,
{
}

/// In an all-dead generation every cell has only dead neighbors, so no cell
/// is born: stepping once changes nothing.
pub proof fn lemma_all_dead_step_identity(g: Generation)
    requires
        gen_wf(g),
        all_dead(g),
    ensures
        next_generation(g) == g,
{
    let w = g[0].len() - 1;
    let h = g.len() - 1;
    assert forall|y: int, x: int|
        0 <= y < g.len() && 0 <= x < g[0].len() implies (#[trigger] next_generation(g)[y][x])
        == g[y][x] by {
        let ns = neighbor_states(g, x, y);
        lemma_moore_neighbors_in_bounds(w, h, x, y);
        assert forall|i: int| 0 <= i < ns.len() implies (#[trigger] ns[i]) is Dead by {
            let c = moore_neighbors(w, h, x, y)[i];
            assert(ns[i] == g[c.1][c.0]);
        }
        lemma_alive_count_all_dead(ns);
        assert(g[y][x] is Dead);
    }
    assert forall|y: int| 0 <= y < g.len() implies (#[trigger] next_generation(g)[y])
        =~= g[y] by {}
    assert(next_generation(g) =~= g);
}

/// An all-dead generation is a fixed point: it stays all dead forever.
pub proof fn lemma_all_dead_fixed_point(g: Generation, n: nat)
    requires
        gen_wf(g),
        all_dead(g),
    ensures
        after_steps(g, n) == g,
    decreases n,
{
    if n > 0 {
        lemma_all_dead_fixed_point(g, (n - 1) as nat);
        lemma_all_dead_step_identity(g);
    }
}

/// Advance the grid by exactly one generation: read the whole current
/// generation as an immutable snapshot, compute every cell's next state
/// against that snapshot, then publish the new generation atomically.
pub fn step(grid: &mut Grid)
    requires
        old(grid).wf(),
    ensures
        final(grid).wf(),
        final(grid).spec_width() == old(grid).spec_width(),
        final(grid).spec_height() == old(grid).spec_height(),
        final(grid)@ == next_generation(old(grid)@),
{
    let ghost g0 = grid@;
    let width = grid.width();
    let height = grid.height();
    let mut new_cells: Vec<Vec<ImmigrationCellState>> = Vec::new();
    let mut y: usize = 0;
    while y < height + 1
        invariant
            grid.wf(),
            grid@ == g0,
            width == grid.spec_width(),
            height == grid.spec_height(),
            height < usize::MAX,
            width < usize::MAX,
            y <= height + 1,
            new_cells@.len() == y,
            forall|yy: int|
                0 <= yy < y ==> (#[trigger] new_cells@[yy])@ == next_generation(g0)[yy],
        decreases height + 1 - y,
    {
        let mut row: Vec<ImmigrationCellState> = Vec::new();
        let mut x: usize = 0;
        while x < width + 1
            invariant
                grid.wf(),
                grid@ == g0,
                width == grid.spec_width(),
                height == grid.spec_height(),
                height < usize::MAX,
                width < usize::MAX,
                y <= height,
                x <= width + 1,
                row@.len() == x,
                forall|xx: int| 0 <= xx < x ==> (#[trigger] row@[xx]) == step_cell(g0, xx, y as int),
            decreases width + 1 - x,
        {
            let coord = Coordinate { x, y };
            let nbrs = grid.neighbors(coord);
            let ghost mc = moore_neighbors(width as int, height as int, x as int, y as int);
            let mut states: Vec<ImmigrationCellState> = Vec::new();
            let mut k: usize = 0;
            while k < nbrs.len()
                invariant
                    grid.wf(),
                    grid@ == g0,
                    width == grid.spec_width(),
                    height == grid.spec_height(),
                    coords_view(nbrs) == mc,
                    forall|i: int|
                        0 <= i < nbrs@.len() ==> grid.in_bounds(
                            (#[trigger] nbrs@[i]).x as int,
                            nbrs@[i].y as int,
                        ),
                    k <= nbrs@.len(),
                    states@.len() == k,
                    forall|i: int|
                        0 <= i < k ==> (#[trigger] states@[i]) == g0[mc[i].1][mc[i].0],
                decreases nbrs@.len() - k,
            {
                states.push(grid.get(nbrs[k]));
                k = k + 1;
            }
            proof {
                assert(states@ =~= neighbor_states(g0, x as int, y as int));
            }
            let current = grid.get(coord);
            let next = current.new_cell_state(states.as_slice());
            row.push(next);
            x = x + 1;
        }
        proof {
            assert(row@ =~= next_generation(g0)[y as int]);
        }
        new_cells.push(row);
        y = y + 1;
    }
    proof {
        lemma_next_generation_wf(g0);
        assert(rows_view(new_cells) =~= next_generation(g0));
    }
    grid.replace_all(new_cells);
}

/// Advance the grid by a batch of `steps` generations. Batching only changes
/// how many single steps run per call, never the per-step semantics; with
/// `steps == 0` the grid is left unchanged.
pub fn step_many(grid: &mut Grid, steps: u32)
    requires
        old(grid).wf(),
    ensures
        final(grid).wf(),
        final(grid).spec_width() == old(grid).spec_width(),
        final(grid).spec_height() == old(grid).spec_height(),
        final(grid)@ == after_steps(old(grid)@, steps as nat),
{
    let ghost g0 = grid@;
    let mut i: u32 = 0;
    while i < steps
        invariant
            grid.wf(),
            grid.spec_width() == old(grid).spec_width(),
            grid.spec_height() == old(grid).spec_height(),
            i <= steps,
            grid@ == after_steps(g0, i as nat),
        decreases steps - i,
    {
        step(grid);
        i = i + 1;
    }
}

} // verus!
