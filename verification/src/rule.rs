//! The Immigration transition rule: a pure function from a cell's current
//! state and its neighbors' states to the cell's next state.

use vstd::prelude::*;

use crate::cell::ImmigrationCellState;

verus! {

/// How many of the given neighbor states are alive.
pub open spec fn alive_count(s: Seq<ImmigrationCellState>) -> int
    decreases s.len(),
{
    if s.len() == 0 {
        0
    } else {
        alive_count(s.drop_last()) + (if s.last() is Alive {
            1int
        } else {
            0int
        })
    }
}

/// How many of the given neighbor states are alive with exactly this strain.
pub open spec fn strain_count(s: Seq<ImmigrationCellState>, strain: i8) -> int
    decreases s.len(),
{
    if s.len() == 0 {
        0
    } else {
        strain_count(s.drop_last(), strain) + (if s.last() == ImmigrationCellState::Alive(strain) {
            1int
        } else {
            0int
        })
    }
}

/// The strain a newborn cell takes: the most frequent strain among the
/// neighbors, with ties broken deterministically toward the lowest strain.
pub open spec fn birth_strain(s: Seq<ImmigrationCellState>) -> i8 {
    let c1 = strain_count(s, 1);
    let c2 = strain_count(s, 2);
    let c3 = strain_count(s, 3);
    if c1 >= c2 && c1 >= c3 {
        1
    } else if c2 >= c3 {
        2
    } else {
        3
    }
}

/// The Immigration rule. An alive cell survives, keeping its strain, exactly
/// when 2 or 3 of its neighbors are alive; a dead cell is born exactly when 3
/// of its neighbors are alive, taking the majority strain among them.
pub open spec fn next_state(
    current: ImmigrationCellState,
    neighbors: Seq<ImmigrationCellState>,
) -> ImmigrationCellState {
    if current is Alive {
        if 2 <= alive_count(neighbors) <= 3 {
            current
        } else {
            ImmigrationCellState::Dead
        }
    } else {
        if alive_count(neighbors) == 3 {
            ImmigrationCellState::Alive(birth_strain(neighbors))
        } else {
            ImmigrationCellState::Dead
        }
    }
}

/// A sequence of only dead states has no alive members.
pub proof fn lemma_alive_count_all_dead(s: Seq<ImmigrationCellState>)
    requires
        forall|i: int| 0 <= i < s.len() ==> (#[trigger] s[i]) is Dead,
    ensures
        alive_count(s) == 0,
    decreases s.len(),
{
    if s.len() > 0 {
        lemma_alive_count_all_dead(s.drop_last());
    }
}

/// Among well formed states, being alive is being alive with strain 1, 2
/// or 3: the alive count is the sum of the three strain counts.
pub proof fn lemma_alive_count_is_strain_sum(s: Seq<ImmigrationCellState>)
    requires
        forall|i: int| 0 <= i < s.len() ==> (#[trigger] s[i]).wf(),
    ensures
        alive_count(s) == strain_count(s, 1) + strain_count(s, 2) + strain_count(s, 3),
    decreases s.len(),
{
    if s.len() > 0 {
        lemma_alive_count_is_strain_sum(s.drop_last());
    }
}

/// Isolation: a cell all of whose neighbors are dead is dead in the next
/// generation, whatever its current state.
pub proof fn lemma_isolation(current: ImmigrationCellState, neighbors: Seq<ImmigrationCellState>)
    requires
        forall|i: int| 0 <= i < neighbors.len() ==> (#[trigger] neighbors[i]) is Dead,
    ensures
        next_state(current, neighbors) == ImmigrationCellState::Dead,
{
    lemma_alive_count_all_dead(neighbors);
}

/// Survival: an alive cell with 2 or 3 alive neighbors keeps its exact
/// state, strain included.
pub proof fn lemma_survival(current: ImmigrationCellState, neighbors: Seq<ImmigrationCellState>)
    requires
        current is Alive,
        2 <= alive_count(neighbors) <= 3,
    ensures
        next_state(current, neighbors) == current,
{
}

/// Death: an alive cell whose alive-neighbor count is not 2 or 3 dies, by
/// isolation or overcrowding.
pub proof fn lemma_death(current: ImmigrationCellState, neighbors: Seq<ImmigrationCellState>)
    requires
        current is Alive,
        !(2 <= alive_count(neighbors) <= 3),
    ensures
        next_state(current, neighbors) == ImmigrationCellState::Dead,
{
}

/// Birth: a dead cell with exactly 3 alive, well formed neighbors is born
/// with the birth strain, which is a valid strain at least as frequent
/// among the neighbors as any other, and carried by at least one of them.
pub proof fn lemma_birth(current: ImmigrationCellState, neighbors: Seq<ImmigrationCellState>)
    requires
        current is Dead,
        alive_count(neighbors) == 3,
        forall|i: int| 0 <= i < neighbors.len() ==> (#[trigger] neighbors[i]).wf(),
    ensures
        next_state(current, neighbors) == ImmigrationCellState::Alive(birth_strain(neighbors)),
        1 <= birth_strain(neighbors) <= 3,
        forall|k: i8|
            1 <= k <= 3 ==> strain_count(neighbors, birth_strain(neighbors))
                >= #[trigger] strain_count(neighbors, k),
        strain_count(neighbors, birth_strain(neighbors)) >= 1,
{
    lemma_alive_count_is_strain_sum(neighbors);
}

/// No birth: a dead cell whose alive-neighbor count is not exactly 3 stays
/// dead.
pub proof fn lemma_no_birth(current: ImmigrationCellState, neighbors: Seq<ImmigrationCellState>)
    requires
        current is Dead,
        alive_count(neighbors) != 3,
    ensures
        next_state(current, neighbors) == ImmigrationCellState::Dead,
{
}

/// When one strain is strictly more frequent among the neighbors than every
/// other, a newborn cell takes exactly that strain.
pub proof fn lemma_birth_strict_majority(neighbors: Seq<ImmigrationCellState>, m: i8)
    requires
        1 <= m <= 3,
        forall|k: i8|
            1 <= k <= 3 && k != m ==> strain_count(neighbors, m) > #[trigger] strain_count(
                neighbors,
                k,
            ),
    ensures
        birth_strain(neighbors) == m,
{
    assert(strain_count(neighbors, m) > strain_count(neighbors, 1) || m == 1);
    assert(strain_count(neighbors, m) > strain_count(neighbors, 2) || m == 2);
    assert(strain_count(neighbors, m) > strain_count(neighbors, 3) || m == 3);
}

impl ImmigrationCellState {
    /// Compute this cell's next state from its neighbors' states.
    pub fn new_cell_state(&self, neighbor_cells: &[ImmigrationCellState]) -> (r: Self)
        ensures
            r == next_state(*self, neighbor_cells@),
    {
        let ghost ns = neighbor_cells@;
        let mut alive: usize = 0;
        let mut c1: usize = 0;
        let mut c2: usize = 0;
        let mut c3: usize = 0;
        let n = neighbor_cells.len();
        let mut i: usize = 0;
        while i < n
            invariant
                n == ns.len(),
                ns == neighbor_cells@,
                0 <= i <= n,
                alive <= i,
                c1 <= i,
                c2 <= i,
                c3 <= i,
                alive == alive_count(ns.take(i as int)),
                c1 == strain_count(ns.take(i as int), 1),
                c2 == strain_count(ns.take(i as int), 2),
                c3 == strain_count(ns.take(i as int), 3),
            decreases n - i,
        {
            proof {
                assert(ns.take(i + 1).drop_last() =~= ns.take(i as int));
                assert(ns.take(i + 1).last() == ns[i as int]);
            }
            match neighbor_cells[i] {
                ImmigrationCellState::Dead => {},
                ImmigrationCellState::Alive(s) => {
                    alive = alive + 1;
                    if s == 1 {
                        c1 = c1 + 1;
                    } else if s == 2 {
                        c2 = c2 + 1;
                    } else if s == 3 {
                        c3 = c3 + 1;
                    }
                },
            }
            i = i + 1;
        }
        proof {
            assert(ns.take(n as int) =~= ns);
        }
        if self.is_alive() {
            if 2 <= alive && alive <= 3 {
                *self
            } else {
                ImmigrationCellState::Dead
            }
        } else if alive == 3 {
            if c1 >= c2 && c1 >= c3 {
                ImmigrationCellState::Alive(1)
            } else if c2 >= c3 {
                ImmigrationCellState::Alive(2)
            } else {
                ImmigrationCellState::Alive(3)
            }
        } else {
            ImmigrationCellState::Dead
        }
    }
}

} // verus!
