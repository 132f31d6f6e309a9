use std::cell::Cell;

use space_station::grid::{GasGrid, GridError};
use space_station::gas::{Gas, GasMixture};
use space_station::mask::WallMask;
use space_station::wall::{room_outline, WallAppearance, WallConnection, WallGrid, WallLinks};

fn links(left: bool, right: bool, up: bool, down: bool) -> WallLinks {
    WallLinks { left, right, up, down }
}

fn look(connection: WallConnection, rotation_degrees: i16) -> WallAppearance {
    WallAppearance { connection, rotation_degrees }
}

#[test]
fn a_new_layout_has_no_walls() {
    let grid: WallGrid<u64> = WallGrid::new(4, 3);
    assert_eq!(grid.width(), 4);
    assert_eq!(grid.height(), 3);
    for x in 0..4 {
        for y in 0..3 {
            assert_eq!(grid.wall_at(x, y), None);
        }
    }
}

#[test]
fn create_wall_only_fills_free_tiles() {
    let mut grid: WallGrid<u64> = WallGrid::new(4, 3);
    assert_eq!(grid.create_wall(1, 2, 11), Some(11));
    assert_eq!(grid.wall_at(1, 2), Some(11));
    assert_eq!(grid.create_wall(1, 2, 12), None);
    assert_eq!(grid.wall_at(1, 2), Some(11));
    assert_eq!(grid.wall_at(2, 1), None);
}

#[test]
fn remove_wall_frees_the_tile() {
    let mut grid: WallGrid<u64> = WallGrid::new(4, 3);
    grid.create_wall(3, 0, 5);
    assert_eq!(grid.remove_wall(3, 0), Some(5));
    assert_eq!(grid.wall_at(3, 0), None);
    assert_eq!(grid.remove_wall(3, 0), None);
    assert_eq!(grid.create_wall(3, 0, 6), Some(6));
}

#[test]
fn a_room_is_outlined_rows_first() {
    let tiles = room_outline(20, 20, 3, 4);
    assert_eq!(
        tiles,
        vec![
            (20, 20),
            (20, 23),
            (21, 20),
            (21, 23),
            (22, 20),
            (22, 23),
            (20, 21),
            (22, 21),
            (20, 22),
            (22, 22),
        ]
    );
}

#[test]
fn a_flat_room_names_its_tiles_twice() {
    assert_eq!(room_outline(1, 3, 2, 1), vec![(1, 3), (1, 3), (2, 3), (2, 3)]);
    assert_eq!(room_outline(0, 0, 1, 1), vec![(0, 0), (0, 0)]);
    assert_eq!(room_outline(5, 5, 1, 3), vec![(5, 5), (5, 7), (5, 6), (5, 6)]);
}

#[test]
fn the_first_room_of_the_station() {
    let mut grid: WallGrid<usize> = WallGrid::new(50, 50);
    let mut created = 0;
    for (place, (x, y)) in room_outline(20, 20, 9, 9).into_iter().enumerate() {
        if grid.create_wall(x, y, place).is_some() {
            created += 1;
        }
    }
    assert_eq!(created, 32);
    for x in 0..50 {
        for y in 0..50 {
            let inside = (20..29).contains(&x) && (20..29).contains(&y);
            let border = inside && (x == 20 || x == 28 || y == 20 || y == 28);
            assert_eq!(grid.wall_at(x, y).is_some(), border);
        }
    }
}

#[test]
fn walls_are_drawn_to_join_their_neighbours() {
    assert_eq!(links(false, false, false, false).appearance(), look(WallConnection::Isolated, 0));
    assert_eq!(links(false, false, false, true).appearance(), look(WallConnection::One, -90));
    assert_eq!(links(false, false, true, false).appearance(), look(WallConnection::One, 90));
    assert_eq!(links(false, false, true, true).appearance(), look(WallConnection::Cross, 90));
    assert_eq!(links(false, true, false, false).appearance(), look(WallConnection::One, 0));
    assert_eq!(links(false, true, false, true).appearance(), look(WallConnection::Corner, 0));
    assert_eq!(links(false, true, true, false).appearance(), look(WallConnection::Corner, 90));
    assert_eq!(links(false, true, true, true).appearance(), look(WallConnection::T, 90));
    assert_eq!(links(true, false, false, false).appearance(), look(WallConnection::One, 180));
    assert_eq!(links(true, false, false, true).appearance(), look(WallConnection::Corner, -90));
    assert_eq!(links(true, false, true, false).appearance(), look(WallConnection::Corner, 180));
    assert_eq!(links(true, false, true, true).appearance(), look(WallConnection::T, -90));
    assert_eq!(links(true, true, false, false).appearance(), look(WallConnection::Cross, 0));
    assert_eq!(links(true, true, false, true).appearance(), look(WallConnection::T, 0));
    assert_eq!(links(true, true, true, false).appearance(), look(WallConnection::T, 180));
    assert_eq!(links(true, true, true, true).appearance(), look(WallConnection::All, 0));
    assert_eq!(WallConnection::default(), WallConnection::Isolated);
}

#[test]
fn links_look_at_the_four_neighbours() {
    let mut grid: WallGrid<u8> = WallGrid::new(3, 3);
    grid.create_wall(1, 1, 0);
    grid.create_wall(0, 1, 1);
    grid.create_wall(1, 2, 2);
    assert_eq!(grid.links(1, 1), links(true, false, true, false));
    assert_eq!(grid.links(0, 1), links(false, true, false, false));
    assert_eq!(grid.links(1, 2), links(false, false, false, true));
    assert_eq!(grid.links(2, 2), links(true, false, false, false));
    assert_eq!(grid.wall_update(1, 1), Some(look(WallConnection::Corner, 180)));
    assert_eq!(grid.wall_update(0, 1), Some(look(WallConnection::One, 0)));
    assert_eq!(grid.wall_update(1, 2), Some(look(WallConnection::One, -90)));
    assert_eq!(grid.wall_update(2, 2), None);
}

#[test]
fn the_mask_follows_the_layout() {
    let mut layout: WallGrid<u32> = WallGrid::new(3, 2);
    layout.create_wall(0, 1, 1);
    layout.create_wall(2, 0, 2);
    let mask = WallMask::sync(&layout);
    assert_eq!(mask.width(), 3);
    assert_eq!(mask.height(), 2);
    for x in 0..3 {
        for y in 0..2 {
            assert_eq!(mask.is_wall(x, y), (x, y) == (0, 1) || (x, y) == (2, 0));
        }
    }
}

#[test]
fn a_rebuilt_mask_forgets_removed_walls() {
    let mut layout: WallGrid<u32> = WallGrid::new(4, 4);
    layout.create_wall(1, 1, 1);
    layout.create_wall(2, 3, 2);
    let filler: GasMixture<f64> = GasMixture::single_gas(Gas::Oxygen, 1.0, 1.0);
    let mut grid = GasGrid::new(4, 4, 32.0, filler).unwrap();
    grid.sync_walls(&layout).unwrap();
    assert_eq!(grid.is_wall(1, 1), Ok(true));
    assert_eq!(grid.is_wall(2, 3), Ok(true));
    layout.remove_wall(1, 1);
    layout.create_wall(0, 0, 3);
    grid.sync_walls(&layout).unwrap();
    assert_eq!(grid.is_wall(1, 1), Ok(false));
    assert_eq!(grid.is_wall(2, 3), Ok(true));
    assert_eq!(grid.is_wall(0, 0), Ok(true));
    let mut walls = 0;
    for x in 0..4 {
        for y in 0..4 {
            if grid.wall_mask().is_wall(x, y) {
                walls += 1;
            }
        }
    }
    assert_eq!(walls, 2);
}

#[test]
fn a_layout_of_another_size_is_refused() {
    let layout: WallGrid<u32> = WallGrid::new(4, 5);
    let filler: GasMixture<f64> = GasMixture::single_gas(Gas::Oxygen, 1.0, 1.0);
    let mut grid = GasGrid::new(4, 4, 32.0, filler).unwrap();
    assert_eq!(grid.sync_walls(&layout), Err(GridError::SizeMismatch));
    assert_eq!(grid.is_wall(0, 0), Ok(false));
}

#[test]
fn set_wall_changes_one_tile() {
    let mut mask = WallMask::new(2, 2);
    mask.set_wall(1, 0, true);
    assert!(mask.is_wall(1, 0));
    assert!(!mask.is_wall(0, 0));
    assert!(!mask.is_wall(0, 1));
    assert!(!mask.is_wall(1, 1));
    mask.set_wall(1, 0, false);
    assert!(!mask.is_wall(1, 0));
}

#[test]
fn handles_lists_the_walls_column_by_column() {
    let mut grid: WallGrid<char> = WallGrid::new(3, 3);
    grid.create_wall(2, 0, 'e');
    grid.create_wall(0, 2, 'b');
    grid.create_wall(1, 1, 'c');
    grid.create_wall(0, 0, 'a');
    grid.create_wall(1, 2, 'd');
    assert_eq!(grid.handles(), vec!['a', 'b', 'c', 'd', 'e']);
    grid.remove_wall(1, 1);
    assert_eq!(grid.handles(), vec!['a', 'b', 'd', 'e']);
    let empty: WallGrid<char> = WallGrid::new(0, 0);
    assert_eq!(empty.handles(), vec![]);
}

#[test]
fn a_room_is_built_around_what_stands() {
    let mut grid: WallGrid<u32> = WallGrid::new(50, 50);
    grid.create_wall(20, 20, 1000);
    grid.create_wall(24, 24, 1001);
    grid.create_wall(28, 23, 1002);
    let next = Cell::new(0);
    let created = grid.create_room(20, 20, 9, 9, &|_, _| {
        next.set(next.get() + 1);
        next.get()
    });
    assert_eq!(created, (1..=30).collect::<Vec<u32>>());
    assert_eq!(grid.wall_at(20, 20), Some(1000));
    assert_eq!(grid.wall_at(24, 24), Some(1001));
    assert_eq!(grid.wall_at(28, 23), Some(1002));
    assert_eq!(grid.wall_at(20, 28), Some(1));
    assert_eq!(grid.wall_at(21, 20), Some(2));
    for x in 0..50 {
        for y in 0..50 {
            let inside = (20..29).contains(&x) && (20..29).contains(&y);
            let border = inside && (x == 20 || x == 28 || y == 20 || y == 28);
            assert_eq!(grid.wall_at(x, y).is_some(), border || (x, y) == (24, 24));
        }
    }
    assert_eq!(grid.handles().len(), 33);
    let again = grid.create_room(20, 20, 9, 9, &|_, _| 7);
    assert!(again.is_empty());
}

#[test]
fn a_room_hands_each_wall_its_tile() {
    let mut grid: WallGrid<(usize, usize)> = WallGrid::new(4, 3);
    let created = grid.create_room(1, 0, 3, 3, &|x, y| (x, y));
    assert_eq!(created, vec![(1, 0), (1, 2), (2, 0), (2, 2), (3, 0), (3, 2), (1, 1), (3, 1)]);
    assert_eq!(grid.wall_at(2, 1), None);
    assert_eq!(grid.wall_at(0, 1), None);
    assert_eq!(grid.wall_at(3, 1), Some((3, 1)));
}

#[test]
fn every_wall_is_drawn_to_join_its_neighbours() {
    let mut grid: WallGrid<char> = WallGrid::new(3, 3);
    grid.create_wall(1, 1, 'c');
    grid.create_wall(0, 1, 'a');
    grid.create_wall(1, 2, 'd');
    grid.create_wall(2, 0, 'e');
    assert_eq!(
        grid.wall_looks(),
        vec![
            ('a', look(WallConnection::One, 0)),
            ('c', look(WallConnection::Corner, 180)),
            ('d', look(WallConnection::One, -90)),
            ('e', look(WallConnection::Isolated, 0)),
        ]
    );
}

#[test]
fn the_mouse_builds_and_takes_away_walls() {
    let mut grid: WallGrid<u32> = WallGrid::new(3, 3);
    let spawn = |x: usize, y: usize| (10 * x + y) as u32;
    assert_eq!(grid.mouse_create_wall(1, 2, false, false, &spawn), (None, None));
    assert_eq!(grid.wall_at(1, 2), None);
    assert_eq!(grid.mouse_create_wall(1, 2, true, false, &spawn), (Some(12), None));
    assert_eq!(grid.wall_at(1, 2), Some(12));
    assert_eq!(grid.mouse_create_wall(1, 2, true, false, &|_, _| 99), (None, None));
    assert_eq!(grid.wall_at(1, 2), Some(12));
    assert_eq!(grid.mouse_create_wall(1, 2, false, true, &spawn), (None, Some(12)));
    assert_eq!(grid.wall_at(1, 2), None);
    assert_eq!(grid.mouse_create_wall(1, 2, false, true, &spawn), (None, None));
    assert_eq!(grid.mouse_create_wall(2, 0, true, true, &spawn), (Some(20), Some(20)));
    assert_eq!(grid.wall_at(2, 0), None);
    grid.create_wall(0, 0, 5);
    assert_eq!(grid.mouse_create_wall(0, 0, true, true, &spawn), (None, Some(5)));
    assert_eq!(grid.handles(), vec![]);
}
