use space_station::diffusion::{gather, relax, settle, settle_cell, sweep, Neighborhood, Relaxation};
use space_station::gas::{Gas, GasMixture};
use space_station::grid::{GasGrid, SolverSettings};
use space_station::lattice::Lattice;
use space_station::mask::WallMask;
use space_station::wall::WallGrid;

fn cell(oxygen: f64, temperature: f64) -> GasMixture<f64> {
    GasMixture::single_gas(Gas::Oxygen, oxygen, temperature)
}

fn settings(thermal_rate: f64, molar_rate: f64, t: u32, m: u32) -> SolverSettings<f64> {
    SolverSettings { thermal_rate, molar_rate, temperature_passes: t, molar_passes: m }
}

fn nothing() -> Neighborhood<f64> {
    Neighborhood { left: None, right: None, below: None, above: None }
}

#[test]
fn settle_divides_by_one_plus_the_open_sides() {
    assert_eq!(settle(6.0, &nothing(), 0.5), 6.0);
    let one_side = Neighborhood { left: Some(3.0), ..nothing() };
    assert_eq!(settle(6.0, &one_side, 0.5), 9.0 / 1.5);
    let all = Neighborhood { left: Some(1.0), right: Some(2.0), below: Some(3.0), above: Some(4.0) };
    assert_eq!(settle(6.0, &all, 0.5), 16.0 / 3.0);
    assert_eq!(all.open_count(), 4);
    assert_eq!(one_side.open_count(), 1);
    assert_eq!(nothing().open_count(), 0);
}

#[test]
fn a_cell_settles_its_temperature_from_its_neighbours() {
    let near = Neighborhood {
        left: Some(cell(0.0, 10.0)),
        right: None,
        below: Some(cell(0.0, 20.0)),
        above: None,
    };
    let out = settle_cell(Relaxation::Temperature, 0.5, &cell(7.0, 4.0), &cell(9.0, 100.0), &near);
    assert_eq!(out.temperature, (4.0 + 0.5 * 10.0 + 0.5 * 20.0) / (1.0 + 2.0 * 0.5));
    assert_eq!(out.amount_of(Gas::Oxygen), 9.0);
}

#[test]
fn a_cell_settles_its_amounts_weighted_by_temperature() {
    let near = Neighborhood {
        left: Some(cell(8.0, 3.0)),
        right: Some(cell(2.0, 5.0)),
        below: None,
        above: None,
    };
    let before = cell(4.0, 1.0);
    let now = cell(100.0, 2.0);
    let out = settle_cell(Relaxation::Amounts, 0.25, &before, &now, &near);
    let expected = (4.0 + 0.25 * 8.0 * 3.0 + 0.25 * 2.0 * 5.0) / (1.0 + 2.0 * (0.25 * 2.0));
    assert_eq!(out.amount_of(Gas::Oxygen), expected);
    assert_eq!(out.amount_of(Gas::Nitrogen), 0.0);
    assert_eq!(out.temperature, 2.0);
}

#[test]
fn one_sweep_sees_the_cells_settled_before() {
    let mut start: Lattice<GasMixture<f64>> = Lattice::new(2, 1, cell(0.0, 0.0));
    start.set(1, 0, cell(0.0, 10.0));
    let mut current = start.snapshot();
    let mask = WallMask::new(2, 1);
    sweep(Relaxation::Temperature, 1.0, &start, &mut current, &mask);
    assert_eq!(current.get(0, 0).temperature, 5.0);
    assert_eq!(current.get(1, 0).temperature, 7.5);
    relax(Relaxation::Temperature, 1.0, &start, &mut current, &mask, 2);
    let first = (0.0 + 7.5) / 2.0;
    let second = (10.0 + first) / 2.0;
    let third = (0.0 + second) / 2.0;
    let fourth = (10.0 + third) / 2.0;
    assert_eq!(current.get(0, 0).temperature, third);
    assert_eq!(current.get(1, 0).temperature, fourth);
}

#[test]
fn columns_are_swept_from_the_bottom_up() {
    let mut start: Lattice<GasMixture<f64>> = Lattice::new(1, 3, cell(0.0, 0.0));
    start.set(0, 2, cell(0.0, 8.0));
    let mut current = start.snapshot();
    let mask = WallMask::new(1, 3);
    sweep(Relaxation::Temperature, 1.0, &start, &mut current, &mask);
    assert_eq!(current.get(0, 0).temperature, 0.0);
    assert_eq!(current.get(0, 1).temperature, (0.0 + 0.0 + 8.0) / 3.0);
    assert_eq!(current.get(0, 2).temperature, (8.0 + 8.0 / 3.0) / 2.0);
}

#[test]
fn a_step_relaxes_temperature_then_amounts() {
    let mut grid = GasGrid::new(2, 1, 32.0, cell(0.0, 1.0)).unwrap();
    grid.set_cell(1, 0, cell(8.0, 1.0)).unwrap();
    grid.step(&settings(0.0, 1.0, 1, 1), 1.0);
    assert_eq!(grid.cell(0, 0).unwrap().amount_of(Gas::Oxygen), 4.0);
    assert_eq!(grid.cell(1, 0).unwrap().amount_of(Gas::Oxygen), 6.0);
    assert_eq!(grid.cell(0, 0).unwrap().temperature, 1.0);

    let mut grid = GasGrid::new(2, 1, 32.0, cell(0.0, 0.0)).unwrap();
    grid.set_cell(1, 0, cell(8.0, 10.0)).unwrap();
    grid.step(&settings(0.5, 1.0, 1, 1), 1.0);
    let cold = grid.cell(0, 0).unwrap();
    let warm = grid.cell(1, 0).unwrap();
    assert_eq!(cold.temperature, 5.0);
    assert_eq!(warm.temperature, 7.5);
    let first = (0.0 + 1.0 * 8.0 * 7.5) / (1.0 + 1.0 * (1.0 * 5.0));
    assert_eq!(cold.amount_of(Gas::Oxygen), first);
    assert_eq!(warm.amount_of(Gas::Oxygen), (8.0 + 1.0 * first * 5.0) / (1.0 + 1.0 * (1.0 * 7.5)));
}

#[test]
fn the_thermal_rate_counts_the_cells() {
    let mut grid = GasGrid::new(2, 2, 32.0, cell(0.0, 0.0)).unwrap();
    grid.set_cell(0, 0, cell(0.0, 12.0)).unwrap();
    grid.step(&settings(0.125, 0.0, 1, 0), 2.0);
    let a = 2.0 * 0.125 * 4.0;
    let first = 12.0 / (1.0 + 2.0 * a);
    assert_eq!(grid.cell(0, 0).unwrap().temperature, first);
    assert_eq!(grid.cell(0, 1).unwrap().temperature, (a * first) / (1.0 + 2.0 * a));
}

#[test]
fn no_pass_leaves_the_grid_as_it_is() {
    let mut grid = GasGrid::new(3, 3, 32.0, cell(1.0, 2.0)).unwrap();
    grid.set_cell(1, 1, cell(50.0, 400.0)).unwrap();
    grid.step(&settings(0.0006, 0.005, 0, 0), 0.016);
    assert_eq!(grid.cell(1, 1).unwrap().amount_of(Gas::Oxygen), 50.0);
    assert_eq!(grid.cell(1, 1).unwrap().temperature, 400.0);
    assert_eq!(grid.cell(0, 1).unwrap().amount_of(Gas::Oxygen), 1.0);
}

#[test]
fn an_isolated_cell_is_unchanged_by_diffusion() {
    let mut layout: WallGrid<u32> = WallGrid::new(5, 5);
    let mut handle = 0;
    for (x, y) in [(2, 1), (1, 2), (3, 2), (2, 3)] {
        layout.create_wall(x, y, handle);
        handle += 1;
    }
    let mut grid = GasGrid::new(5, 5, 32.0, cell(10.0, 100.0)).unwrap();
    grid.sync_walls(&layout).unwrap();
    grid.set_cell(2, 2, cell(123.456, 321.125)).unwrap();
    for _ in 0..5 {
        grid.step(&settings(0.0006, 0.005, 30, 50), 1.0 / 60.0);
    }
    let lone = grid.cell(2, 2).unwrap();
    assert_eq!(lone.amount_of(Gas::Oxygen), 123.456);
    assert_eq!(lone.temperature, 321.125);
    assert_eq!(lone.amount_of(Gas::Nitrogen), 0.0);
}

#[test]
fn a_single_cell_grid_is_unchanged_by_diffusion() {
    let mut grid = GasGrid::new(1, 1, 32.0, cell(77.0, 290.5)).unwrap();
    grid.step(&settings(0.0006, 0.005, 30, 50), 0.5);
    assert_eq!(grid.cell(0, 0).unwrap().amount_of(Gas::Oxygen), 77.0);
    assert_eq!(grid.cell(0, 0).unwrap().temperature, 290.5);
}

#[test]
fn nothing_crosses_a_wall() {
    let mut layout: WallGrid<u32> = WallGrid::new(3, 1);
    layout.create_wall(1, 0, 7);
    let mut grid = GasGrid::new(3, 1, 32.0, cell(0.0, 0.0)).unwrap();
    grid.sync_walls(&layout).unwrap();
    grid.set_cell(0, 0, cell(40.0, 300.0)).unwrap();
    grid.step(&settings(0.01, 0.01, 30, 50), 1.0);
    assert_eq!(grid.cell(0, 0).unwrap().amount_of(Gas::Oxygen), 40.0);
    assert_eq!(grid.cell(0, 0).unwrap().temperature, 300.0);
    assert_eq!(grid.cell(2, 0).unwrap().amount_of(Gas::Oxygen), 0.0);
    assert_eq!(grid.cell(2, 0).unwrap().temperature, 0.0);
}

#[test]
fn gather_leaves_out_walls_and_edges() {
    let mut field: Lattice<f64> = Lattice::new(3, 3, 0.0);
    for x in 0..3 {
        for y in 0..3 {
            field.set(x, y, (10 * x + y) as f64);
        }
    }
    let mut mask = WallMask::new(3, 3);
    mask.set_wall(1, 2, true);
    let near = gather(&field, &mask, 1, 1);
    assert_eq!(near.left, Some(1.0));
    assert_eq!(near.right, Some(21.0));
    assert_eq!(near.below, Some(10.0));
    assert_eq!(near.above, None);
    let corner = gather(&field, &mask, 0, 0);
    assert_eq!(corner.left, None);
    assert_eq!(corner.below, None);
    assert_eq!(corner.right, Some(10.0));
    assert_eq!(corner.above, Some(1.0));
    let far = gather(&field, &mask, 2, 2);
    assert_eq!(far.left, None);
    assert_eq!(far.right, None);
    assert_eq!(far.above, None);
    assert_eq!(far.below, Some(21.0));
}

#[test]
fn heat_is_conserved_within_tolerance() {
    let mut grid = GasGrid::new(6, 6, 32.0, cell(0.0, 280.0)).unwrap();
    grid.set_cell(2, 3, cell(0.0, 900.0)).unwrap();
    grid.set_cell(5, 0, cell(0.0, 20.0)).unwrap();
    let before: f64 = (0..6).flat_map(|x| (0..6).map(move |y| (x, y)))
        .map(|(x, y)| grid.cell(x, y).unwrap().temperature).sum();
    grid.step(&settings(0.0006, 0.005, 30, 0), 1.0 / 60.0);
    let after: f64 = (0..6).flat_map(|x| (0..6).map(move |y| (x, y)))
        .map(|(x, y)| grid.cell(x, y).unwrap().temperature).sum();
    assert!(((after - before) / before).abs() < 1e-9, "drift {}", (after - before) / before);
    assert!(grid.cell(2, 3).unwrap().temperature < 900.0);
    assert!(grid.cell(2, 2).unwrap().temperature > 280.0);
}

#[test]
fn moles_are_conserved_within_tolerance() {
    let mut grid = GasGrid::new(6, 6, 32.0, cell(80.0, 293.0)).unwrap();
    grid.set_cell(1, 4, cell(200.0, 293.0)).unwrap();
    grid.set_cell(4, 1, cell(0.0, 293.0)).unwrap();
    let before = grid.total_of(Gas::Oxygen);
    for _ in 0..10 {
        grid.step(&settings(0.0006, 0.005, 30, 50), 1.0 / 60.0);
    }
    let after = grid.total_of(Gas::Oxygen);
    assert!(((after - before) / before).abs() < 1e-6, "drift {}", (after - before) / before);
    assert!(grid.cell(1, 4).unwrap().amount_of(Gas::Oxygen) < 200.0);
    assert!(grid.cell(4, 1).unwrap().amount_of(Gas::Oxygen) > 0.0);
    assert_eq!(grid.total_of(Gas::Nitrogen), 0.0);
}

#[test]
fn what_a_wall_holds_reaches_no_other_cell() {
    let mut layout: WallGrid<u32> = WallGrid::new(4, 4);
    layout.create_wall(1, 2, 0);
    let mut one = GasGrid::new(4, 4, 32.0, cell(50.0, 300.0)).unwrap();
    one.sync_walls(&layout).unwrap();
    one.set_cell(0, 0, cell(200.0, 900.0)).unwrap();
    let mut other = GasGrid::new(4, 4, 32.0, cell(50.0, 300.0)).unwrap();
    other.sync_walls(&layout).unwrap();
    other.set_cell(0, 0, cell(200.0, 900.0)).unwrap();
    other.set_cell(1, 2, cell(1e6, -1e6)).unwrap();
    for _ in 0..3 {
        one.step(&settings(0.0006, 0.005, 30, 50), 0.25);
        other.step(&settings(0.0006, 0.005, 30, 50), 0.25);
    }
    for x in 0..4 {
        for y in 0..4 {
            if (x, y) != (1, 2) {
                assert_eq!(one.cell(x, y).unwrap().amount, other.cell(x, y).unwrap().amount);
                assert_eq!(
                    one.cell(x, y).unwrap().temperature,
                    other.cell(x, y).unwrap().temperature
                );
            }
        }
    }
    assert_ne!(
        one.cell(1, 2).unwrap().temperature,
        other.cell(1, 2).unwrap().temperature
    );
}

#[test]
fn open_cells_exchange_both_ways() {
    let mut field: Lattice<f64> = Lattice::new(2, 2, 0.0);
    field.set(0, 0, 1.0);
    field.set(1, 0, 2.0);
    field.set(0, 1, 3.0);
    let mask = WallMask::new(2, 2);
    assert_eq!(gather(&field, &mask, 0, 0).right, Some(2.0));
    assert_eq!(gather(&field, &mask, 1, 0).left, Some(1.0));
    assert_eq!(gather(&field, &mask, 0, 0).above, Some(3.0));
    assert_eq!(gather(&field, &mask, 0, 1).below, Some(1.0));
}
