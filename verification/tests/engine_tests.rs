use hutton32_gpu::grid::Grid;
use hutton32_gpu::neighbor::pack_neighbor_key;
use hutton32_gpu::palette::{hutton32_colors, Rgb};
use hutton32_gpu::rule::{IdentityRule, ShiftRule};
use hutton32_gpu::scheduler::StepScheduler;
use hutton32_gpu::table::build;

fn grid_of_states(width: u32, height: u32, states: &[u8]) -> Grid {
    let colors = hutton32_colors();
    let pixels: Vec<Rgb> = states.iter().map(|&s| colors[s as usize]).collect();
    Grid::load(width, height, &pixels)
}

#[test]
fn building_twice_from_one_rule_is_bitwise_identical() {
    let t1 = build(&IdentityRule);
    let t2 = build(&IdentityRule);
    assert!(t1.same_entries(&t2));
}

#[test]
fn identity_table_returns_the_center_state() {
    let table = build(&IdentityRule);
    assert_eq!(table.entry(pack_neighbor_key(0, 0, 0, 0, 0)), 0);
    assert_eq!(table.entry(pack_neighbor_key(7, 1, 2, 3, 4)), 7);
    assert_eq!(table.entry(pack_neighbor_key(31, 31, 31, 31, 31)), 31);
}

#[test]
fn shift_table_returns_the_center_state_plus_one() {
    let table = build(&ShiftRule);
    assert_eq!(table.entry(pack_neighbor_key(0, 5, 6, 7, 8)), 1);
    assert_eq!(table.entry(pack_neighbor_key(30, 0, 0, 0, 0)), 31);
    assert_eq!(table.entry(pack_neighbor_key(31, 1, 2, 3, 4)), 0);
}

#[test]
fn zero_step_advance_changes_nothing() {
    let table = build(&ShiftRule);
    let mut grid = grid_of_states(2, 2, &[1, 2, 3, 4]);
    let mut sched = StepScheduler::new();
    let before = grid.cells().clone();
    sched.advance(&table, &mut grid, 0);
    assert_eq!(grid.cells(), &before);
    assert_eq!(grid.generation(), 0);
    assert_eq!(sched.steps_per_frame(), 1);
}

#[test]
fn identity_rule_leaves_seed_unchanged_over_five_steps() {
    let table = build(&IdentityRule);
    let mut grid = grid_of_states(3, 3, &[0, 1, 0, 0, 2, 0, 13, 0, 0]);
    let mut sched = StepScheduler::new();
    sched.advance(&table, &mut grid, 5);
    assert_eq!(grid.cells().as_slice(), &[0, 1, 0, 0, 2, 0, 13, 0, 0]);
    assert_eq!(grid.generation(), 5);
}

#[test]
fn out_of_range_step_count_is_rejected() {
    let table = build(&IdentityRule);
    let mut grid = grid_of_states(2, 1, &[3, 4]);
    let mut sched = StepScheduler::new();
    assert_eq!(sched.steps_per_frame(), 1);
    sched.advance(&table, &mut grid, 1000);
    assert_eq!(sched.steps_per_frame(), 1);
    assert_eq!(grid.cells().as_slice(), &[3, 4]);
    assert_eq!(grid.generation(), 0);
    sched.set_steps_per_frame(513);
    assert_eq!(sched.steps_per_frame(), 1);
    sched.set_steps_per_frame(0);
    assert_eq!(sched.steps_per_frame(), 1);
    sched.set_steps_per_frame(512);
    assert_eq!(sched.steps_per_frame(), 512);
}

#[test]
fn shift_rule_steps_every_cell_up_by_one() {
    let table = build(&ShiftRule);
    let mut grid = grid_of_states(2, 2, &[0, 1, 2, 31]);
    let mut sched = StepScheduler::new();
    sched.advance(&table, &mut grid, 1);
    assert_eq!(grid.cells().as_slice(), &[1, 2, 3, 0]);
    assert_eq!(grid.generation(), 1);
    sched.advance(&table, &mut grid, 2);
    assert_eq!(grid.cells().as_slice(), &[3, 4, 5, 2]);
    assert_eq!(grid.generation(), 3);
}

#[test]
fn reset_restores_the_seed_and_zeroes_the_generation() {
    let table = build(&ShiftRule);
    let mut grid = grid_of_states(2, 2, &[5, 6, 7, 8]);
    let mut sched = StepScheduler::new();
    sched.advance(&table, &mut grid, 3);
    assert_eq!(grid.cells().as_slice(), &[8, 9, 10, 11]);
    assert_eq!(grid.generation(), 3);
    grid.reset();
    assert_eq!(grid.cells().as_slice(), &[5, 6, 7, 8]);
    assert_eq!(grid.generation(), 0);
    assert_eq!(grid.width(), 2);
    assert_eq!(grid.height(), 2);
}

#[test]
fn scheduler_controls_drive_frames() {
    let table = build(&ShiftRule);
    let mut grid = grid_of_states(1, 1, &[0]);
    let mut sched = StepScheduler::new();

    // Suspended: a frame runs no passes.
    sched.advance_frame(&table, &mut grid);
    assert_eq!(grid.cells().as_slice(), &[0]);
    assert_eq!(grid.generation(), 0);

    // Single step: exactly one pass, then suspended again.
    sched.arm_single_step();
    sched.advance_frame(&table, &mut grid);
    assert_eq!(grid.cells().as_slice(), &[1]);
    assert_eq!(grid.generation(), 1);
    sched.advance_frame(&table, &mut grid);
    assert_eq!(grid.generation(), 1);

    // Running: the configured count per frame.
    sched.set_steps_per_frame(4);
    sched.toggle_running();
    sched.advance_frame(&table, &mut grid);
    assert_eq!(grid.generation(), 5);
    assert_eq!(grid.cells().as_slice(), &[5]);
    sched.toggle_running();
    sched.advance_frame(&table, &mut grid);
    assert_eq!(grid.generation(), 5);
}

#[test]
fn pattern_of_palette_colors_decodes_to_indices() {
    let colors = hutton32_colors();
    let pixels: Vec<Rgb> = (0..32u8).map(|s| colors[s as usize]).collect();
    let grid = Grid::load(8, 4, &pixels);
    for y in 0..4u32 {
        for x in 0..8u32 {
            assert_eq!(grid.cell(x, y) as u32, y * 8 + x);
        }
    }
}

#[test]
fn unmatched_color_decodes_to_background() {
    let colors = hutton32_colors();
    let pixels = vec![
        Rgb { r: 9, g: 9, b: 9 },
        colors[17],
        Rgb { r: 200, g: 201, b: 202 },
    ];
    let grid = Grid::load(3, 1, &pixels);
    assert_eq!(grid.cells().as_slice(), &[0, 17, 0]);
}

#[test]
fn neighbors_wrap_around_the_perimeter() {
    // A rule cannot see which neighbor a state came from, but a grid where
    // all four neighbors of one cell lie across an edge still steps: the
    // identity rule maps every neighborhood, wrapped or not, to its center.
    let table = build(&IdentityRule);
    let mut grid = grid_of_states(1, 1, &[7]);
    let mut sched = StepScheduler::new();
    sched.advance(&table, &mut grid, 1);
    assert_eq!(grid.cells().as_slice(), &[7]);
}
