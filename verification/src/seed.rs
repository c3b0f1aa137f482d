//! Random initial seeding of a grid.
//!
//! Each cell is decided independently: alive with a fixed probability given
//! as a ratio, dead otherwise, and an alive cell's strain is drawn uniformly
//! from `{1, 2, 3}`. The random draws come from the `rand` crate behind
//! trusted wrappers; everything proved here holds for every outcome of the
//! draws.

use rand::Rng;
use vstd::prelude::*;

use crate::cell::ImmigrationCellState;
use crate::grid::{all_dead, rows_view, Grid};

verus! {

#[verifier::external_type_specification]
#[verifier::external_body]
pub struct ExThreadRng(rand::rngs::ThreadRng);

/// Relies on rand::thread_rng: returns a handle to the calling thread's
/// lazily-initialized random number generator.
#[verifier::external_body]
fn fresh_rng() -> rand::rngs::ThreadRng {
    rand::thread_rng()
}

/// Relies on Rng::gen_ratio: the result is true with probability
/// `numerator / denominator`; it is guaranteed false when the numerator is
/// 0 and guaranteed true when the numerator equals the denominator. The
/// call panics when `denominator == 0` or `numerator > denominator`, so
/// those inputs are excluded.
#[verifier::external_body]
fn random_ratio(rng: &mut rand::rngs::ThreadRng, numerator: u32, denominator: u32) -> (b: bool)
    requires
        1 <= denominator,
        numerator <= denominator,
    ensures
        numerator == 0 ==> !b,
        numerator == denominator ==> b,
{
    rng.gen_ratio(numerator, denominator)
}

/// Relies on Rng::gen_range: the result lies in the given range, here the
/// inclusive range of the three strains.
#[verifier::external_body]
fn random_strain(rng: &mut rand::rngs::ThreadRng) -> (s: i8)
    ensures
        1 <= s <= 3,
{
    rng.gen_range(1..=3)
}

/// Seed a fresh grid over the inclusive bounds `[0, width] x [0, height]`:
/// every cell is independently alive with probability
/// `numerator / denominator`, dead otherwise, and an alive cell's strain is
/// drawn uniformly from `{1, 2, 3}`. With probability 0 the grid comes out
/// all dead; with probability 1 it comes out all alive.
pub fn seed_grid(width: usize, height: usize, numerator: u32, denominator: u32) -> (g: Grid)
    requires
        width < usize::MAX,
        height < usize::MAX,
        1 <= denominator,
        numerator <= denominator,
    ensures
        g.wf(),
        g.spec_width() == width,
        g.spec_height() == height,
        numerator == 0 ==> all_dead(g@),
        numerator == denominator ==> forall|y: int, x: int|
            0 <= y < g@.len() && 0 <= x < g@[y].len() ==> (#[trigger] g@[y][x]) is Alive,
{
    let mut rng = fresh_rng();
    let mut cells: Vec<Vec<ImmigrationCellState>> = Vec::new();
    let mut y: usize = 0;
    while y < height + 1
        invariant
            width < usize::MAX,
            height < usize::MAX,
            1 <= denominator,
            numerator <= denominator,
            y <= height + 1,
            cells@.len() == y,
            forall|yy: int| 0 <= yy < y ==> (#[trigger] cells@[yy])@.len() == width + 1,
            forall|yy: int, x: int|
                0 <= yy < y && 0 <= x < width + 1 ==> (#[trigger] cells@[yy]@[x]).wf(),
            numerator == 0 ==> forall|yy: int, x: int|
                0 <= yy < y && 0 <= x < width + 1 ==> (#[trigger] cells@[yy]@[x]) is Dead,
            numerator == denominator ==> forall|yy: int, x: int|
                0 <= yy < y && 0 <= x < width + 1 ==> (#[trigger] cells@[yy]@[x]) is Alive,
        decreases height + 1 - y,
    {
        let mut row: Vec<ImmigrationCellState> = Vec::new();
        let mut x: usize = 0;
        while x < width + 1
            invariant
                width < usize::MAX,
                1 <= denominator,
                numerator <= denominator,
                x <= width + 1,
                row@.len() == x,
                forall|xx: int| 0 <= xx < x ==> (#[trigger] row@[xx]).wf(),
                numerator == 0 ==> forall|xx: int|
                    0 <= xx < x ==> (#[trigger] row@[xx]) is Dead,
                numerator == denominator ==> forall|xx: int|
                    0 <= xx < x ==> (#[trigger] row@[xx]) is Alive,
            decreases width + 1 - x,
        {
            let state = if random_ratio(&mut rng, numerator, denominator) {
                ImmigrationCellState::Alive(random_strain(&mut rng))
            } else {
                ImmigrationCellState::Dead
            };
            row.push(state);
            x = x + 1;
        }
        cells.push(row);
        y = y + 1;
    }
    proof {
        assert(forall|yy: int|
            0 <= yy < rows_view(cells).len() ==> (#[trigger] rows_view(cells)[yy]).len() == width
                + 1);
    }
    let g = Grid::from_rows(cells);
    g
}

} // verus!
