use space_station::gas::{Gas, GasMixture, PressureModel};
use space_station::grid::{tile_along, tile_index, GasGrid, GridError};
use space_station::lattice::Lattice;
use space_station::tick::TickPhase;
use space_station::visual::{CellSignal, GasVisualizationSettings};

fn filled(oxygen: f64, temperature: f64) -> GasMixture<f64> {
    GasMixture::single_gas(Gas::Oxygen, oxygen, temperature)
}

#[test]
fn a_new_grid_is_filled_and_open() {
    let grid = GasGrid::new(50, 50, 32.0, filled(0.0, 2.7)).unwrap();
    assert_eq!(grid.width(), 50);
    assert_eq!(grid.height(), 50);
    assert_eq!(grid.tile_size(), 32.0);
    assert_eq!(grid.cell(49, 49).unwrap().temperature, 2.7);
    assert_eq!(grid.is_wall(0, 0), Ok(false));
    assert_eq!(grid.total_of(Gas::Oxygen), 0.0);
}

#[test]
fn a_grid_of_too_many_cells_is_refused() {
    assert!(matches!(
        GasGrid::new(1 << 16, 1 << 16, 1.0, filled(0.0, 0.0)),
        Err(GridError::TooManyCells)
    ));
    assert!(matches!(
        GasGrid::new(usize::MAX, usize::MAX, 1.0, filled(0.0, 0.0)),
        Err(GridError::TooManyCells)
    ));
    assert!(GasGrid::new(0, usize::MAX, 1.0, filled(0.0, 0.0)).is_ok());
}

#[test]
fn cells_outside_the_grid_are_refused() {
    let mut grid = GasGrid::new(3, 2, 32.0, filled(1.0, 1.0)).unwrap();
    assert!(grid.cell(2, 1).is_ok());
    assert!(matches!(grid.cell(3, 1), Err(GridError::CellOutOfBounds)));
    assert!(matches!(grid.cell(2, 2), Err(GridError::CellOutOfBounds)));
    assert_eq!(grid.is_wall(3, 0), Err(GridError::CellOutOfBounds));
    assert_eq!(grid.set_cell(0, 2, filled(9.0, 9.0)), Err(GridError::CellOutOfBounds));
    assert_eq!(grid.set_cell(0, 1, filled(9.0, 9.0)), Ok(()));
    assert_eq!(grid.cell(0, 1).unwrap().temperature, 9.0);
    assert_eq!(grid.total_of(Gas::Oxygen), 14.0);
}

#[test]
fn locate_takes_signed_coordinates() {
    let grid = GasGrid::new(3, 2, 32.0, filled(1.0, 1.0)).unwrap();
    assert_eq!(grid.locate(0, 0), Ok((0, 0)));
    assert_eq!(grid.locate(2, 1), Ok((2, 1)));
    assert_eq!(grid.locate(-1, 0), Err(GridError::CellOutOfBounds));
    assert_eq!(grid.locate(0, -1), Err(GridError::CellOutOfBounds));
    assert_eq!(grid.locate(3, 0), Err(GridError::CellOutOfBounds));
    assert_eq!(grid.locate(0, 2), Err(GridError::CellOutOfBounds));
    assert_eq!(grid.locate(i64::MIN, i64::MAX), Err(GridError::CellOutOfBounds));
}

#[test]
fn positions_are_counted_in_tiles() {
    let grid = GasGrid::new(50, 50, 32.0, filled(1.0, 1.0)).unwrap();
    let origin = (-800.0, -800.0);
    assert_eq!(grid.tile_of((0.0, 0.0), origin), (25.5, 25.5));
    assert_eq!(grid.tile_of((-800.0, -784.0), origin), (0.5, 1.0));
    assert_eq!(grid.tile_of((-816.0, -817.0), origin), (0.0, -0.03125));
    let (x, y) = grid.tile_of((15.9, -33.0), origin);
    assert_eq!(grid.locate(x.floor() as i64, y.floor() as i64), Ok((25, 24)));
    assert_eq!(grid.cell_at((15.9, -33.0), origin), Ok((25, 24)));
}

#[test]
fn a_position_lies_on_the_tile_around_it() {
    let grid = GasGrid::new(50, 40, 32.0, filled(1.0, 1.0)).unwrap();
    let origin = (-800.0, -800.0);
    assert_eq!(grid.cell_at((-800.0, -800.0), origin), Ok((0, 0)));
    assert_eq!(grid.cell_at((-816.0, -816.0), origin), Ok((0, 0)));
    assert_eq!(grid.cell_at((-784.1, -784.0), origin), Ok((0, 1)));
    assert_eq!(grid.cell_at((783.9, 463.9), origin), Ok((49, 39)));
    assert_eq!(grid.cell_at((784.0, 0.0), origin), Err(GridError::CellOutOfBounds));
    assert_eq!(grid.cell_at((0.0, 464.0), origin), Err(GridError::CellOutOfBounds));
    assert_eq!(grid.cell_at((-816.1, 0.0), origin), Err(GridError::CellOutOfBounds));
    assert_eq!(grid.cell_at((0.0, -1e9), origin), Err(GridError::CellOutOfBounds));
    assert_eq!(grid.cell_at((f64::NAN, 0.0), origin), Err(GridError::CellOutOfBounds));
    assert_eq!(grid.cell_at((f64::INFINITY, 0.0), origin), Err(GridError::CellOutOfBounds));
    let none = GasGrid::new(0, 40, 32.0, filled(1.0, 1.0)).unwrap();
    assert_eq!(none.cell_at((0.0, 0.0), (0.0, 0.0)), Err(GridError::CellOutOfBounds));
}

#[test]
fn a_coordinate_has_the_index_of_its_whole_part() {
    assert_eq!(tile_index(0.0, 50), Some(0));
    assert_eq!(tile_index(0.999, 50), Some(0));
    assert_eq!(tile_index(1.0, 50), Some(1));
    assert_eq!(tile_index(49.5, 50), Some(49));
    assert_eq!(tile_index(50.0, 50), None);
    assert_eq!(tile_index(-0.001, 50), None);
    assert_eq!(tile_index(3.0, 0), None);
    assert_eq!(tile_index(70000.5, 70001), Some(70000));
    assert_eq!(tile_index(25.5f32, 50), Some(25));
}

#[test]
fn total_adds_up_every_cell() {
    let mut grid = GasGrid::new(3, 3, 32.0, filled(1.5, 1.0)).unwrap();
    grid.set_cell(1, 1, GasMixture::single_gas(Gas::Nitrogen, 4.0, 1.0)).unwrap();
    assert_eq!(grid.total_of(Gas::Oxygen), 12.0);
    assert_eq!(grid.total_of(Gas::Nitrogen), 4.0);
    assert_eq!(grid.total_of(Gas::Hydrogen), 0.0);
}

#[test]
fn the_clamp_pass_covers_every_cell() {
    let mut grid = GasGrid::new(2, 2, 32.0, filled(250.0, -5.0)).unwrap();
    grid.set_cell(0, 1, filled(-3.0, 1e9)).unwrap();
    grid.set_cell(1, 1, filled(42.0, 300.0)).unwrap();
    grid.gas_clamp(0.0, 200.0);
    assert_eq!(grid.cell(0, 0).unwrap().amount_of(Gas::Oxygen), 200.0);
    assert_eq!(grid.cell(1, 0).unwrap().amount_of(Gas::Oxygen), 200.0);
    assert_eq!(grid.cell(0, 1).unwrap().amount_of(Gas::Oxygen), 0.0);
    assert_eq!(grid.cell(1, 1).unwrap().amount_of(Gas::Oxygen), 42.0);
    assert_eq!(grid.cell(0, 0).unwrap().temperature, -5.0);
    assert_eq!(grid.cell(0, 1).unwrap().temperature, 1e9);
    let once = grid.snapshot();
    grid.gas_clamp(0.0, 200.0);
    for x in 0..2 {
        for y in 0..2 {
            assert_eq!(grid.cell(x, y).unwrap().amount, once.get(x, y).amount);
        }
    }
}

#[test]
fn a_snapshot_does_not_follow_the_grid() {
    let mut grid = GasGrid::new(2, 1, 32.0, filled(1.0, 1.0)).unwrap();
    let before = grid.snapshot();
    grid.set_cell(1, 0, filled(2.0, 2.0)).unwrap();
    assert_eq!(before.get(1, 0).temperature, 1.0);
    assert_eq!(grid.snapshot().get(1, 0).temperature, 2.0);
}

#[test]
fn a_lattice_holds_what_is_put_in_it() {
    let mut lattice: Lattice<i32> = Lattice::new(3, 2, -1);
    assert_eq!(lattice.width(), 3);
    assert_eq!(lattice.height(), 2);
    lattice.set(2, 1, 7);
    lattice.set(0, 0, 3);
    assert_eq!(lattice.get(2, 1), 7);
    assert_eq!(lattice.get(0, 0), 3);
    assert_eq!(lattice.get(1, 1), -1);
    assert!(lattice.in_bounds(2, 1));
    assert!(!lattice.in_bounds(3, 1));
    assert!(!lattice.in_bounds(2, 2));
    assert!(!lattice.in_bounds(-1, 0));
    let copy = lattice.snapshot();
    lattice.set(2, 1, 8);
    assert_eq!(copy.get(2, 1), 7);
    let empty: Lattice<i32> = Lattice::new(0, 5, 0);
    assert_eq!(empty.width(), 0);
    assert_eq!(empty.height(), 5);
    assert!(!empty.in_bounds(0, 0));
}

#[test]
fn walls_are_shown_whatever_the_mode() {
    let model = PressureModel { gas_constant: 0.5, cell_volume: 4.0 };
    let mixture = GasMixture { amount: [0.0, 2.0, 6.0, 1.0, 0.0, 0.0, 0.0], temperature: 3.0 };
    for mode in [
        GasVisualizationSettings::Hidden,
        GasVisualizationSettings::Moles,
        GasVisualizationSettings::Pressure,
        GasVisualizationSettings::Temperature,
    ] {
        assert!(matches!(mode.signal(&mixture, true, &model), CellSignal::Blocked));
    }
}

#[test]
fn each_mode_shows_its_quantity() {
    let model = PressureModel { gas_constant: 0.5, cell_volume: 4.0 };
    let mixture = GasMixture { amount: [0.0, 2.0, 6.0, 1.0, 0.0, 0.0, 0.0], temperature: 3.0 };
    assert!(matches!(
        GasVisualizationSettings::Hidden.signal(&mixture, false, &model),
        CellSignal::Hidden
    ));
    match GasVisualizationSettings::Moles.signal(&mixture, false, &model) {
        CellSignal::Moles { oxygen, nitrogen, carbon_dioxide } => {
            assert_eq!((oxygen, nitrogen, carbon_dioxide), (2.0, 6.0, 1.0));
        }
        other => panic!("{:?}", other),
    }
    match GasVisualizationSettings::Pressure.signal(&mixture, false, &model) {
        CellSignal::Pressure { oxygen, nitrogen, carbon_dioxide } => {
            assert_eq!((oxygen, nitrogen, carbon_dioxide), (0.75, 2.25, 0.375));
        }
        other => panic!("{:?}", other),
    }
    match GasVisualizationSettings::Temperature.signal(&mixture, false, &model) {
        CellSignal::Temperature(t) => assert_eq!(t, 3.0),
        other => panic!("{:?}", other),
    }
}

#[test]
fn the_grid_signals_its_cells() {
    let model = PressureModel { gas_constant: 0.5, cell_volume: 4.0 };
    let mut layout: space_station::wall::WallGrid<u8> = space_station::wall::WallGrid::new(2, 1);
    layout.create_wall(1, 0, 0);
    let mut grid = GasGrid::new(2, 1, 32.0, filled(2.0, 3.0)).unwrap();
    grid.sync_walls(&layout).unwrap();
    assert!(matches!(
        grid.signal(1, 0, GasVisualizationSettings::Temperature, &model),
        Ok(CellSignal::Blocked)
    ));
    assert!(matches!(
        grid.signal(0, 0, GasVisualizationSettings::Temperature, &model),
        Ok(CellSignal::Temperature(t)) if t == 3.0
    ));
    assert!(matches!(
        grid.signal(2, 0, GasVisualizationSettings::Temperature, &model),
        Err(GridError::CellOutOfBounds)
    ));
}

#[test]
fn a_tick_runs_backward_through_the_same_phases() {
    let mut order = vec![TickPhase::Present];
    while let Some(before) = order[order.len() - 1].previous() {
        order.push(before);
    }
    assert_eq!(
        order,
        vec![
            TickPhase::Present,
            TickPhase::Clamp,
            TickPhase::Interact,
            TickPhase::Diffuse,
            TickPhase::SyncWalls,
        ]
    );
    assert_eq!(TickPhase::first().previous(), None);
}

#[test]
fn a_tick_runs_its_phases_in_order() {
    let mut order = vec![TickPhase::first()];
    while let Some(next) = order[order.len() - 1].next() {
        order.push(next);
    }
    assert_eq!(
        order,
        vec![
            TickPhase::SyncWalls,
            TickPhase::Diffuse,
            TickPhase::Interact,
            TickPhase::Clamp,
            TickPhase::Present,
        ]
    );
}

#[test]
fn a_coordinate_is_counted_from_the_edge_of_the_first_tile() {
    assert_eq!(tile_along(0.0, 0.0, 32.0), 0.5);
    assert_eq!(tile_along(-16.0, 0.0, 32.0), 0.0);
    assert_eq!(tile_along(15.0, 0.0, 32.0), 0.96875);
    assert_eq!(tile_along(16.0, 0.0, 32.0), 1.0);
    assert_eq!(tile_along(100.0, -700.0, 32.0), 25.5);
}

#[test]
fn signals_are_drawn_a_quarter_opaque() {
    let channels = |signal: CellSignal<f64>| {
        let color = signal.color();
        (color.red, color.green, color.blue, color.alpha)
    };
    assert_eq!(channels(CellSignal::Blocked), (0.1, 0.1, 0.1, 0.0));
    assert_eq!(channels(CellSignal::Hidden), (0.0, 0.0, 0.0, 0.0));
    assert_eq!(
        channels(CellSignal::Pressure { oxygen: 0.75, nitrogen: 3.0, carbon_dioxide: 0.25 }),
        (0.5, 1.0, 0.25, 0.25)
    );
    assert_eq!(
        channels(CellSignal::Pressure { oxygen: -1.0, nitrogen: 1.5, carbon_dioxide: 2.0 }),
        (0.0, 1.0, 1.0, 0.25)
    );
    assert_eq!(
        channels(CellSignal::Moles { oxygen: 78.0, nitrogen: 25.0, carbon_dioxide: 150.0 }),
        (0.2, 0.25, 1.0, 0.25)
    );
    assert_eq!(
        channels(CellSignal::Moles { oxygen: 74.0, nitrogen: 0.0, carbon_dioxide: 100.0 }),
        (0.0, 0.0, 1.0, 0.25)
    );
    assert_eq!(channels(CellSignal::Temperature(375.0)), (0.5, 0.0, 0.0, 0.25));
    assert_eq!(channels(CellSignal::Temperature(2.7)), (0.0, 0.0, 0.0, 0.25));
    assert_eq!(channels(CellSignal::Temperature(900.0)), (1.0, 0.0, 0.0, 0.25));
}

#[test]
fn the_grid_is_painted_cell_by_cell() {
    let model = PressureModel { gas_constant: 0.5, cell_volume: 4.0 };
    let mut layout: space_station::wall::WallGrid<u8> = space_station::wall::WallGrid::new(2, 2);
    layout.create_wall(1, 0, 0);
    let mut grid = GasGrid::new(2, 2, 32.0, filled(2.0, 375.0)).unwrap();
    grid.sync_walls(&layout).unwrap();
    grid.set_cell(0, 1, filled(78.0, 900.0)).unwrap();
    let channels = |colors: &Lattice<space_station::graphics::Color<f64>>, x, y| {
        let color = colors.get(x, y);
        (color.red, color.green, color.blue, color.alpha)
    };
    let heat = grid.paint(GasVisualizationSettings::Temperature, &model);
    assert_eq!((heat.width(), heat.height()), (2, 2));
    assert_eq!(channels(&heat, 0, 0), (0.5, 0.0, 0.0, 0.25));
    assert_eq!(channels(&heat, 0, 1), (1.0, 0.0, 0.0, 0.25));
    assert_eq!(channels(&heat, 1, 0), (0.1, 0.1, 0.1, 0.0));
    let moles = grid.paint(GasVisualizationSettings::Moles, &model);
    assert_eq!(channels(&moles, 0, 1), (0.2, 0.0, 0.0, 0.25));
    assert_eq!(channels(&moles, 1, 0), (0.1, 0.1, 0.1, 0.0));
    let hidden = grid.paint(GasVisualizationSettings::Hidden, &model);
    assert_eq!(channels(&hidden, 1, 1), (0.0, 0.0, 0.0, 0.0));
    assert_eq!(channels(&hidden, 1, 0), (0.1, 0.1, 0.1, 0.0));
}

#[test]
fn a_cell_is_heated_where_it_is() {
    let mut grid = GasGrid::new(3, 3, 32.0, filled(5.0, 2.5)).unwrap();
    assert_eq!(grid.heat_at(1, 2, 500.0, 0.25), Ok(()));
    assert_eq!(grid.cell(1, 2).unwrap().temperature, 127.5);
    assert_eq!(grid.cell(1, 2).unwrap().amount_of(Gas::Oxygen), 5.0);
    assert_eq!(grid.cell(2, 1).unwrap().temperature, 2.5);
    assert_eq!(grid.heat_at(3, 2, 500.0, 0.25), Err(GridError::CellOutOfBounds));
}

#[test]
fn whatever_is_done_to_the_cells_keeps_the_tiles() {
    let mut layout: space_station::wall::WallGrid<u8> = space_station::wall::WallGrid::new(3, 3);
    layout.create_wall(1, 1, 0);
    let mut grid = GasGrid::new(3, 3, 32.0, filled(250.0, 300.0)).unwrap();
    grid.sync_walls(&layout).unwrap();
    grid.set_cell(0, 0, filled(5.0, 900.0)).unwrap();
    grid.step(
        &space_station::grid::SolverSettings {
            thermal_rate: 0.0006,
            molar_rate: 0.005,
            temperature_passes: 3,
            molar_passes: 3,
        },
        0.016,
    );
    grid.breathe_at(0, 0, 1.0).unwrap();
    grid.heat_at(2, 2, 500.0, 0.1).unwrap();
    let breach = space_station::grid::Breach {
        x: 2,
        y: 0,
        gas: Gas::Oxygen,
        rate: 20.0,
        duration: 15.0,
    };
    grid.breach(&breach, 1.0, 0.5, 0.0, 200.0).unwrap();
    grid.gas_clamp(0.0, 200.0);
    assert_eq!(grid.tile_size(), 32.0);
    assert_eq!((grid.width(), grid.height()), (3, 3));
    assert_eq!(grid.is_wall(1, 1), Ok(true));
    let whole = GasGrid::new(2, 2, 7.0f32, GasMixture::single_gas(Gas::Oxygen, 300.0f32, 1.0))
        .unwrap();
    assert_eq!(whole.tile_size(), 7.0);
}
