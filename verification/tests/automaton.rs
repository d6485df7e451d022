use zing::cell::Cell;
use zing::census::census_at;
use zing::world::World;

/// Cycle the cell at `(x, y)` until it holds `target`.
fn set_cell(w: &mut World, x: usize, y: usize, target: Cell) {
    for _ in 0..6 {
        if w.contents[x][y] == target {
            return;
        }
        w.cycle_cell(x, y);
    }
    assert_eq!(w.contents[x][y], target);
}

#[test]
fn scenario_dead_with_two_living_revives() {
    let mut w = World::new(5, 5);
    set_cell(&mut w, 0, 0, Cell::Living);
    set_cell(&mut w, 2, 2, Cell::Living);
    w.step();
    assert_eq!(w.contents[1][1], Cell::Living);
}

#[test]
fn scenario_sick_without_fluid_dies() {
    let mut w = World::new(5, 5);
    set_cell(&mut w, 2, 2, Cell::Sick);
    w.step();
    assert_eq!(w.contents[2][2], Cell::Dead);
    assert_eq!(w.deaths_sick, 1);
    assert_eq!(w.deaths_fire, 0);
    assert_eq!(w.deaths_drown, 0);
}

#[test]
fn scenario_living_with_three_fluid_stays() {
    let mut w = World::new(5, 5);
    set_cell(&mut w, 2, 2, Cell::Living);
    set_cell(&mut w, 1, 1, Cell::Fluid);
    set_cell(&mut w, 1, 2, Cell::Fluid);
    set_cell(&mut w, 1, 3, Cell::Fluid);
    // Other neighbor counts do not matter: add a burning neighbor too.
    set_cell(&mut w, 2, 1, Cell::Burning);
    w.step();
    assert_eq!(w.contents[2][2], Cell::Living);
}

#[test]
fn scenario_burning_without_fluid_dies() {
    let mut w = World::new(5, 5);
    set_cell(&mut w, 2, 2, Cell::Burning);
    w.step();
    assert_eq!(w.contents[2][2], Cell::Dead);
}

#[test]
fn scenario_cycle_six_times_returns() {
    let mut w = World::new(5, 5);
    for &(x, y) in &[(0usize, 0usize), (2, 2), (4, 4), (3, 0)] {
        let before = w.contents[x][y];
        for _ in 0..6 {
            w.cycle_cell(x, y);
        }
        assert_eq!(w.contents[x][y], before);
    }
    let mut c = Cell::Metal;
    for _ in 0..6 {
        c = c.cycle();
    }
    assert_eq!(c, Cell::Metal);
}

#[test]
fn census_counts_and_totality() {
    let mut w = World::new(5, 5);
    set_cell(&mut w, 1, 1, Cell::Living);
    set_cell(&mut w, 1, 2, Cell::Living);
    set_cell(&mut w, 1, 3, Cell::Sick);
    set_cell(&mut w, 2, 1, Cell::Fluid);
    set_cell(&mut w, 2, 3, Cell::Metal);
    set_cell(&mut w, 3, 1, Cell::Burning);
    // (3,2) and (3,3) stay Dead; (2,2) itself is not counted.
    set_cell(&mut w, 2, 2, Cell::Burning);
    let c = census_at(&w.contents, 2, 2, 5, 5);
    assert_eq!(c.living, 2);
    assert_eq!(c.sick, 1);
    assert_eq!(c.fluid, 1);
    assert_eq!(c.metal, 1);
    assert_eq!(c.burning, 1);
    assert_eq!(c.dead, 2);
    assert_eq!(
        c.living as u32
            + c.sick as u32
            + c.fluid as u32
            + c.metal as u32
            + c.burning as u32
            + c.dead as u32,
        8
    );
}

#[test]
fn border_never_changes_under_step() {
    let mut w = World::new(5, 5);
    // A border pattern that would transition if the rules touched it.
    set_cell(&mut w, 0, 0, Cell::Sick);
    set_cell(&mut w, 0, 2, Cell::Burning);
    set_cell(&mut w, 4, 4, Cell::Living);
    set_cell(&mut w, 2, 0, Cell::Fluid);
    set_cell(&mut w, 2, 4, Cell::Metal);
    // Interior activity beside the border.
    set_cell(&mut w, 1, 1, Cell::Burning);
    set_cell(&mut w, 2, 2, Cell::Living);
    let before: Vec<Vec<Cell>> = w.contents.clone();
    w.step();
    for x in 0..5 {
        for y in 0..5 {
            if x == 0 || x == 4 || y == 0 || y == 4 {
                assert_eq!(w.contents[x][y], before[x][y]);
            }
        }
    }
}

#[test]
fn identical_grids_step_identically() {
    let build = || {
        let mut w = World::new(6, 6);
        set_cell(&mut w, 1, 1, Cell::Living);
        set_cell(&mut w, 2, 2, Cell::Sick);
        set_cell(&mut w, 3, 3, Cell::Burning);
        set_cell(&mut w, 2, 3, Cell::Fluid);
        set_cell(&mut w, 4, 1, Cell::Metal);
        set_cell(&mut w, 0, 5, Cell::Fluid);
        w
    };
    let mut a = build();
    let mut b = build();
    a.step();
    b.step();
    assert_eq!(a.contents, b.contents);
    assert_eq!(a.deaths_fire, b.deaths_fire);
    assert_eq!(a.deaths_sick, b.deaths_sick);
    assert_eq!(a.deaths_drown, b.deaths_drown);
}

#[test]
fn unmatched_cell_keeps_its_state() {
    let mut w = World::new(5, 5);
    // Living cell with four Metal neighbors and four Dead ones: no Living
    // rule matches (dead < 5, living < 4, no sick, fluid or burning).
    set_cell(&mut w, 2, 2, Cell::Living);
    set_cell(&mut w, 1, 1, Cell::Metal);
    set_cell(&mut w, 1, 2, Cell::Metal);
    set_cell(&mut w, 1, 3, Cell::Metal);
    set_cell(&mut w, 2, 1, Cell::Metal);
    w.step();
    assert_eq!(w.contents[2][2], Cell::Living);
}

#[test]
fn death_counters_never_decrease() {
    let mut w = World::new(7, 7);
    set_cell(&mut w, 2, 2, Cell::Sick);
    set_cell(&mut w, 4, 4, Cell::Sick);
    set_cell(&mut w, 3, 3, Cell::Living);
    set_cell(&mut w, 1, 1, Cell::Fluid);
    let (mut f, mut s, mut d) = (w.deaths_fire, w.deaths_sick, w.deaths_drown);
    for _ in 0..4 {
        w.step();
        assert!(w.deaths_fire >= f);
        assert!(w.deaths_sick >= s);
        assert!(w.deaths_drown >= d);
        f = w.deaths_fire;
        s = w.deaths_sick;
        d = w.deaths_drown;
    }
}

#[test]
fn living_near_fire_burns_and_fire_counter_stays_zero() {
    // The cascade tests `burning >= 1 -> Burning` before `burning >= 3 ->
    // Dead by fire`, so the fire counter can never move.
    let mut w = World::new(5, 5);
    set_cell(&mut w, 2, 2, Cell::Living);
    set_cell(&mut w, 1, 1, Cell::Burning);
    set_cell(&mut w, 1, 2, Cell::Burning);
    set_cell(&mut w, 1, 3, Cell::Burning);
    set_cell(&mut w, 2, 1, Cell::Burning);
    w.step();
    assert_eq!(w.contents[2][2], Cell::Burning);
    assert_eq!(w.deaths_fire, 0);
}

#[test]
fn living_drowns_among_five_fluid() {
    let mut w = World::new(5, 5);
    set_cell(&mut w, 2, 2, Cell::Living);
    set_cell(&mut w, 1, 1, Cell::Fluid);
    set_cell(&mut w, 1, 2, Cell::Fluid);
    set_cell(&mut w, 1, 3, Cell::Fluid);
    set_cell(&mut w, 2, 1, Cell::Fluid);
    set_cell(&mut w, 2, 3, Cell::Fluid);
    w.step();
    assert_eq!(w.contents[2][2], Cell::Dead);
    assert_eq!(w.deaths_drown, 1);
}

#[test]
fn burning_with_some_fluid_revives() {
    let mut w = World::new(5, 5);
    set_cell(&mut w, 2, 2, Cell::Burning);
    set_cell(&mut w, 1, 1, Cell::Fluid);
    set_cell(&mut w, 1, 2, Cell::Fluid);
    w.step();
    assert_eq!(w.contents[2][2], Cell::Living);
}

#[test]
fn metal_beside_two_burning_melts() {
    let mut w = World::new(5, 5);
    set_cell(&mut w, 2, 2, Cell::Metal);
    set_cell(&mut w, 1, 1, Cell::Burning);
    set_cell(&mut w, 3, 3, Cell::Burning);
    w.step();
    assert_eq!(w.contents[2][2], Cell::Fluid);
}

#[test]
fn dead_with_four_fluid_four_burning_revives() {
    let mut w = World::new(5, 5);
    set_cell(&mut w, 2, 2, Cell::Dead);
    set_cell(&mut w, 1, 1, Cell::Fluid);
    set_cell(&mut w, 1, 2, Cell::Fluid);
    set_cell(&mut w, 1, 3, Cell::Fluid);
    set_cell(&mut w, 2, 1, Cell::Fluid);
    set_cell(&mut w, 2, 3, Cell::Burning);
    set_cell(&mut w, 3, 1, Cell::Burning);
    set_cell(&mut w, 3, 2, Cell::Burning);
    set_cell(&mut w, 3, 3, Cell::Burning);
    w.step();
    assert_eq!(w.contents[2][2], Cell::Living);
}

#[test]
fn new_world_is_all_dead() {
    let w = World::new(4, 3);
    assert_eq!(w.contents.len(), 4);
    for col in w.unwrap() {
        assert_eq!(col.len(), 3);
        for &c in col {
            assert_eq!(c, Cell::Dead);
        }
    }
    assert_eq!(w.deaths_fire, 0);
    assert_eq!(w.deaths_sick, 0);
    assert_eq!(w.deaths_drown, 0);
}

#[test]
fn random_world_has_given_dimensions() {
    let w = World::random(6, 4);
    assert_eq!(w.contents.len(), 6);
    for col in &w.contents {
        assert_eq!(col.len(), 4);
    }
    assert_eq!(w.deaths_fire, 0);
    assert_eq!(w.deaths_sick, 0);
    assert_eq!(w.deaths_drown, 0);
}

#[test]
fn out_of_range_cycle_is_ignored() {
    let mut w = World::new(5, 5);
    set_cell(&mut w, 2, 2, Cell::Fluid);
    let before = w.contents.clone();
    w.cycle_cell(5, 2);
    w.cycle_cell(2, 5);
    w.cycle_cell(100, 100);
    assert_eq!(w.contents, before);
}

#[test]
fn reseed_touches_only_the_block() {
    let mut w = World::new(7, 7);
    set_cell(&mut w, 0, 0, Cell::Metal);
    set_cell(&mut w, 6, 6, Cell::Burning);
    set_cell(&mut w, 3, 1, Cell::Sick);
    let before = w.contents.clone();
    w.reseed_area(3, 3);
    for x in 0..7usize {
        for y in 0..7usize {
            let dx = x.abs_diff(3);
            let dy = y.abs_diff(3);
            if dx > 1 || dy > 1 {
                assert_eq!(w.contents[x][y], before[x][y]);
            }
        }
    }
    assert_eq!(w.deaths_fire, 0);
    assert_eq!(w.deaths_sick, 0);
    assert_eq!(w.deaths_drown, 0);
}

#[test]
fn out_of_range_reseed_is_ignored() {
    let mut w = World::new(5, 5);
    set_cell(&mut w, 2, 2, Cell::Living);
    let before = w.contents.clone();
    w.reseed_area(100, 100);
    assert_eq!(w.contents, before);
}

#[test]
fn colors_are_fixed_per_state() {
    assert_eq!(Cell::Living.get_color(), (0xEF, 0xE9, 0xF4));
    assert_eq!(Cell::Sick.get_color(), (0x57, 0xA7, 0x73));
    assert_eq!(Cell::Fluid.get_color(), (0x08, 0xb2, 0xe3));
    assert_eq!(Cell::Metal.get_color(), (0x48, 0x4D, 0x6D));
    assert_eq!(Cell::Burning.get_color(), (0xEE, 0x63, 0x52));
    assert_eq!(Cell::Dead.get_color(), (0x44, 0x44, 0x44));
}

#[test]
fn random_cell_is_one_of_six() {
    for _ in 0..64 {
        let c = Cell::random();
        assert!(matches!(
            c,
            Cell::Living | Cell::Sick | Cell::Fluid | Cell::Metal | Cell::Burning | Cell::Dead
        ));
    }
}
