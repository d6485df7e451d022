//! A deterministic cellular automaton over a fixed rectangular grid.
//!
//! Each cell holds one of six states; every generation, each interior cell
//! is rewritten according to a first-match-wins rule cascade driven by the
//! census of its eight Moore neighbors. The border ring never changes under
//! a generation step, and the grid accumulates cause-of-death counters.

pub mod cell;
pub mod census;
pub mod rules;
pub mod world;
pub mod game;
