//! The simulation: one grid plus the requested interval between automatic
//! steps. The interval is inert configuration for an external scheduler;
//! the engine itself never reads it.

use vstd::prelude::*;
use crate::census::interior;
use crate::rules::{Cause, grid_deaths, next_of};
use crate::world::World;

verus! {

/// Requested interval between automatic steps, in milliseconds, when the
/// caller does not choose one.
pub const DEFAULT_SPEED: u64 = 20;

/// Default grid dimensions, sized for an interactive window.
pub const DEFAULT_WIDTH: usize = 108;

/// Default grid height, sized for an interactive window.
pub const DEFAULT_HEIGHT: usize = 72;

/// One grid and the scheduling interval layered over it.
pub struct Game {
    pub map: World,
    pub speed: u64,
}

impl Game {
    /// A game over a fresh all-Dead grid.
    pub fn new(speed: u64) -> (g: Game)
        ensures
            g.map.wf(),
            g.map.width() == DEFAULT_WIDTH,
            g.map.height() == DEFAULT_HEIGHT,
            forall|i: int, j: int|
                0 <= i < DEFAULT_WIDTH && 0 <= j < DEFAULT_HEIGHT ==> #[trigger] g.map.cells()[i][j]
                    == crate::cell::Cell::Dead,
            g.map.deaths_fire == 0,
            g.map.deaths_sick == 0,
            g.map.deaths_drown == 0,
            g.speed == speed,
    {
        Game { map: World::new(DEFAULT_WIDTH, DEFAULT_HEIGHT), speed }
    }

    /// A game over a fresh all-Dead grid at the default interval.
    pub fn default() -> (g: Game)
        ensures
            g.map.wf(),
            g.map.width() == DEFAULT_WIDTH,
            g.map.height() == DEFAULT_HEIGHT,
            forall|i: int, j: int|
                0 <= i < DEFAULT_WIDTH && 0 <= j < DEFAULT_HEIGHT ==> #[trigger] g.map.cells()[i][j]
                    == crate::cell::Cell::Dead,
            g.map.deaths_fire == 0,
            g.map.deaths_sick == 0,
            g.map.deaths_drown == 0,
            g.speed == DEFAULT_SPEED,
    {
        Game::new(DEFAULT_SPEED)
    }

    /// A game over a uniformly random grid at the default interval.
    pub fn random() -> (g: Game)
        ensures
            g.map.wf(),
            g.map.width() == DEFAULT_WIDTH,
            g.map.height() == DEFAULT_HEIGHT,
            g.map.deaths_fire == 0,
            g.map.deaths_sick == 0,
            g.map.deaths_drown == 0,
            g.speed == DEFAULT_SPEED,
    {
        Game { map: World::random(DEFAULT_WIDTH, DEFAULT_HEIGHT), speed: DEFAULT_SPEED }
    }

    /// Advance the owned grid by one generation.
    pub fn tick(&mut self)
        requires
            old(self).map.wf(),
            old(self).map.deaths_fire + (old(self).map.width() - 2) * (old(self).map.height() - 2)
                <= usize::MAX,
            old(self).map.deaths_sick + (old(self).map.width() - 2) * (old(self).map.height() - 2)
                <= usize::MAX,
            old(self).map.deaths_drown + (old(self).map.width() - 2) * (old(self).map.height() - 2)
                <= usize::MAX,
        ensures
            final(self).map.wf(),
            final(self).map.width() == old(self).map.width(),
            final(self).map.height() == old(self).map.height(),
            final(self).speed == old(self).speed,
            forall|x: int, y: int|
                0 <= x < old(self).map.width() && 0 <= y < old(self).map.height()
                    ==> #[trigger] final(self).map.cells()[x][y] == (if interior(
                    x,
                    y,
                    old(self).map.width(),
                    old(self).map.height(),
                ) {
                    next_of(old(self).map.cells(), x, y)
                } else {
                    old(self).map.cells()[x][y]
                }),
            final(self).map.deaths_fire == old(self).map.deaths_fire + grid_deaths(
                old(self).map.cells(),
                old(self).map.height(),
                Cause::Fire,
            ),
            final(self).map.deaths_sick == old(self).map.deaths_sick + grid_deaths(
                old(self).map.cells(),
                old(self).map.height(),
                Cause::Sickness,
            ),
            final(self).map.deaths_drown == old(self).map.deaths_drown + grid_deaths(
                old(self).map.cells(),
                old(self).map.height(),
                Cause::Drowning,
            ),
            final(self).map.deaths_fire >= old(self).map.deaths_fire,
            final(self).map.deaths_sick >= old(self).map.deaths_sick,
            final(self).map.deaths_drown >= old(self).map.deaths_drown,
    {
        self.map.step();
    }
}

} // verus!
