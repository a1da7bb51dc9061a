use ascii_war::{Direction, GridError, GridPosition, Input, Selector, GRID_CELLS, GRID_X, GRID_Y};

#[test]
fn board_is_sixteen_by_sixteen() {
    assert_eq!(GRID_X, 16);
    assert_eq!(GRID_Y, 16);
    assert_eq!(GRID_CELLS, 256);
}

#[test]
fn index_is_row_major() {
    assert_eq!(GridPosition { x: 0, y: 0 }.as_index(), 0);
    assert_eq!(GridPosition { x: 1, y: 1 }.as_index(), 17);
    assert_eq!(GridPosition { x: 13, y: 13 }.as_index(), 221);
    assert_eq!(GridPosition { x: 15, y: 15 }.as_index(), 255);
    assert_eq!(GridPosition { x: 3, y: 2 }.as_index(), 35);
}

#[test]
fn index_of_a_far_coordinate_does_not_wrap() {
    assert_eq!(GridPosition { x: 65535, y: 65535 }.as_index(), 65535 + 65535 * 16);
    assert!(!GridPosition { x: 65535, y: 65535 }.is_valid());
}

#[test]
fn from_index_inverts_as_index_on_the_board() {
    for i in 0..GRID_CELLS {
        let p = GridPosition::from_index(i).unwrap();
        assert!(p.is_valid());
        assert_eq!(p.as_index(), i);
    }
    for y in 0..GRID_Y {
        for x in 0..GRID_X {
            let p = GridPosition { x, y };
            assert_eq!(GridPosition::from_index(p.as_index()), Ok(p));
        }
    }
}

#[test]
fn from_index_gives_column_and_row() {
    assert_eq!(GridPosition::from_index(35), Ok(GridPosition { x: 3, y: 2 }));
    assert_eq!(GridPosition::from_index(255), Ok(GridPosition { x: 15, y: 15 }));
}

#[test]
fn from_index_rejects_indices_off_the_board() {
    assert_eq!(GridPosition::from_index(256), Err(GridError::OutOfBounds));
    assert_eq!(GridPosition::from_index(usize::MAX), Err(GridError::OutOfBounds));
}

#[test]
fn is_valid_tells_cells_from_other_coordinates() {
    assert!(GridPosition { x: 0, y: 0 }.is_valid());
    assert!(GridPosition { x: 15, y: 15 }.is_valid());
    assert!(!GridPosition { x: 16, y: 0 }.is_valid());
    assert!(!GridPosition { x: 0, y: 16 }.is_valid());
}

#[test]
fn neighbour_steps_one_cell() {
    let p = GridPosition { x: 5, y: 7 };
    assert_eq!(p.neighbour(Direction::Up), Some(GridPosition { x: 5, y: 6 }));
    assert_eq!(p.neighbour(Direction::Down), Some(GridPosition { x: 5, y: 8 }));
    assert_eq!(p.neighbour(Direction::Left), Some(GridPosition { x: 4, y: 7 }));
    assert_eq!(p.neighbour(Direction::Right), Some(GridPosition { x: 6, y: 7 }));
}

#[test]
fn neighbour_is_none_past_every_edge() {
    assert_eq!(GridPosition { x: 4, y: 0 }.neighbour(Direction::Up), None);
    assert_eq!(GridPosition { x: 4, y: 15 }.neighbour(Direction::Down), None);
    assert_eq!(GridPosition { x: 0, y: 4 }.neighbour(Direction::Left), None);
    assert_eq!(GridPosition { x: 15, y: 4 }.neighbour(Direction::Right), None);
}

#[test]
fn neighbour_never_leaves_the_board() {
    let dirs = [Direction::Up, Direction::Down, Direction::Left, Direction::Right];
    for y in 0..GRID_Y {
        for x in 0..GRID_X {
            for d in dirs {
                if let Some(q) = (GridPosition { x, y }).neighbour(d) {
                    assert!(q.is_valid());
                }
            }
        }
    }
}

#[test]
fn neighbour_of_a_coordinate_off_the_board() {
    assert_eq!(GridPosition { x: 16, y: 3 }.neighbour(Direction::Left), Some(GridPosition { x: 15, y: 3 }));
    assert_eq!(GridPosition { x: 17, y: 3 }.neighbour(Direction::Left), None);
    assert_eq!(GridPosition { x: 3, y: 16 }.neighbour(Direction::Up), Some(GridPosition { x: 3, y: 15 }));
    assert_eq!(GridPosition { x: 65535, y: 3 }.neighbour(Direction::Right), None);
    assert_eq!(GridPosition { x: 3, y: 65535 }.neighbour(Direction::Down), None);
    assert_eq!(GridPosition { x: 16, y: 3 }.neighbour(Direction::Up), None);
}

#[test]
fn from_keycode_maps_the_four_arrows() {
    assert_eq!(Direction::from_keycode(Input::Up), Some(Direction::Up));
    assert_eq!(Direction::from_keycode(Input::Down), Some(Direction::Down));
    assert_eq!(Direction::from_keycode(Input::Left), Some(Direction::Left));
    assert_eq!(Direction::from_keycode(Input::Right), Some(Direction::Right));
}

#[test]
fn from_keycode_has_no_direction_for_other_keys() {
    assert_eq!(Direction::from_keycode(Input::Confirm), None);
    assert_eq!(Direction::from_keycode(Input::Unrecognized), None);
}

#[test]
fn selector_starts_on_the_cell() {
    let s = Selector::at(GridPosition { x: 2, y: 3 });
    assert_eq!(s, Selector { x: 2, y: 3 });
    assert_eq!(s.cell(), Some(GridPosition { x: 2, y: 3 }));
}

#[test]
fn selector_steps_one_cell() {
    let s = Selector { x: 2, y: 3 };
    assert_eq!(s.step(Direction::Up), Selector { x: 2, y: 2 });
    assert_eq!(s.step(Direction::Down), Selector { x: 2, y: 4 });
    assert_eq!(s.step(Direction::Left), Selector { x: 1, y: 3 });
    assert_eq!(s.step(Direction::Right), Selector { x: 3, y: 3 });
}

#[test]
fn selector_leaves_the_board_in_every_direction() {
    assert_eq!(Selector { x: 0, y: 0 }.step(Direction::Up), Selector { x: 0, y: -1 });
    assert_eq!(Selector { x: 0, y: 0 }.step(Direction::Left), Selector { x: -1, y: 0 });
    assert_eq!(Selector { x: 15, y: 15 }.step(Direction::Down), Selector { x: 15, y: 16 });
    assert_eq!(Selector { x: 15, y: 15 }.step(Direction::Right), Selector { x: 16, y: 15 });
    assert_eq!(Selector { x: 0, y: -1 }.cell(), None);
    assert_eq!(Selector { x: 16, y: 15 }.cell(), None);
    assert_eq!(Selector { x: -1, y: 0 }.cell(), None);
    assert_eq!(Selector { x: 15, y: 16 }.cell(), None);
}

#[test]
fn selector_stays_put_at_the_numeric_limits() {
    assert_eq!(Selector { x: i32::MAX, y: 0 }.step(Direction::Right), Selector { x: i32::MAX, y: 0 });
    assert_eq!(Selector { x: i32::MIN, y: 0 }.step(Direction::Left), Selector { x: i32::MIN, y: 0 });
    assert_eq!(Selector { x: 0, y: i32::MAX }.step(Direction::Down), Selector { x: 0, y: i32::MAX });
    assert_eq!(Selector { x: 0, y: i32::MIN }.step(Direction::Up), Selector { x: 0, y: i32::MIN });
}
