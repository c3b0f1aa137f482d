//! A verified 2-D cellular-automaton engine.
//!
//! The engine keeps a bounded rectangular grid of cells, each either dead or
//! alive with an integer strain, and advances the grid through discrete
//! generations: every cell's next state is computed from the same immutable
//! snapshot of the current generation, then the whole grid is replaced at
//! once. The concrete transition rule is the "Immigration" variant of
//! Conway's Game of Life: survival with 2 or 3 alive Moore neighbors, birth
//! on exactly 3 with the newborn taking the majority strain of its parents.

pub mod cell;
pub mod engine;
pub mod grid;
pub mod rule;
pub mod seed;




