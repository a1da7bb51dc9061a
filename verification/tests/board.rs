use ascii_war::{
    Direction, GameState, GridError, GridPosition, Tile, TileMap, TileState, ARENA, GRID_CELLS,
    UNOCCUPIED,
};

fn at(x: u16, y: u16) -> GridPosition {
    GridPosition { x, y }
}

fn open_board() -> TileMap {
    TileMap::new(Tile::new(TileState::Empty))
}

/// The standard arena with character 0 on (1, 1) and character 1 on (13, 13).
fn manned_board() -> TileMap {
    *GameState::new().map()
}

fn tiles_of(m: &TileMap) -> Vec<Tile> {
    (0..GRID_CELLS).map(|i| m.tile_at(GridPosition::from_index(i).unwrap()).unwrap()).collect()
}

#[test]
fn new_board_repeats_the_tile() {
    let t = Tile { state: TileState::Trap, cooldown: 7, char_id: UNOCCUPIED };
    let m = TileMap::new(t);
    let all = tiles_of(&m);
    assert_eq!(all.len(), 256);
    assert!(all.iter().all(|x| *x == t));
}

#[test]
fn tiles_are_in_row_major_order() {
    let m = manned_board();
    assert_eq!(m.tiles().to_vec(), tiles_of(&m));
    assert_eq!(m.tiles()[17].occupant(), Some(0));
    assert_eq!(m.tiles()[221].occupant(), Some(1));
    assert_eq!(m.tiles()[5 + 16].state, TileState::Wall);
}

#[test]
fn tile_at_rejects_coordinates_off_the_board() {
    let m = open_board();
    assert_eq!(m.tile_at(at(16, 0)), Err(GridError::OutOfBounds));
    assert_eq!(m.tile_at(at(0, 16)), Err(GridError::OutOfBounds));
    assert_eq!(m.tile_at(at(65535, 65535)), Err(GridError::OutOfBounds));
    assert_eq!(m.tile_at(at(15, 15)), Ok(Tile::new(TileState::Empty)));
}

#[test]
fn from_codes_lays_out_the_arena() {
    let m = TileMap::from_codes(&ARENA);
    for i in 0..GRID_CELLS {
        let t = m.tile_at(GridPosition::from_index(i).unwrap()).unwrap();
        assert_eq!(t, Tile::new(TileState::from_code(ARENA[i])));
    }
    assert_eq!(m.tile_at(at(0, 0)).unwrap().state, TileState::Wall);
    assert_eq!(m.tile_at(at(1, 1)).unwrap().state, TileState::Empty);
    assert_eq!(m.tile_at(at(5, 1)).unwrap().state, TileState::Wall);
    assert_eq!(m.tile_at(at(13, 4)).unwrap().state, TileState::Trap);
    assert_eq!(m.tile_at(at(12, 5)).unwrap().state, TileState::Trap);
    assert_eq!(m.tile_at(at(10, 8)).unwrap().state, TileState::Trap);
    assert_eq!(m.tile_at(at(15, 15)).unwrap().state, TileState::Wall);
    assert!(m.is_vacant());
}

#[test]
fn arena_has_a_wall_all_round() {
    for k in 0..16usize {
        assert_eq!(ARENA[k], 1);
        assert_eq!(ARENA[240 + k], 1);
        assert_eq!(ARENA[k * 16], 1);
        assert_eq!(ARENA[k * 16 + 15], 1);
    }
    assert_eq!(ARENA.iter().filter(|c| **c == 2).count(), 6);
}

#[test]
fn is_vacant_sees_an_occupant() {
    assert!(open_board().is_vacant());
    assert!(!manned_board().is_vacant());
    assert!(!TileMap::new(Tile { state: TileState::Empty, cooldown: 0, char_id: 0 }).is_vacant());
}

#[test]
fn is_passable_follows_terrain_and_occupancy() {
    let m = manned_board();
    assert!(!m.is_passable(at(0, 0)));
    assert!(m.is_passable(at(2, 1)));
    assert!(m.is_passable(at(13, 4)));
    assert!(!m.is_passable(at(1, 1)));
    assert!(!m.is_passable(at(13, 13)));
}

#[test]
fn is_passable_is_false_off_the_board() {
    let m = open_board();
    assert!(!m.is_passable(at(16, 3)));
    assert!(!m.is_passable(at(3, 16)));
    assert!(m.is_passable(at(15, 15)));
}

#[test]
fn neighbour_gives_the_adjacent_tile() {
    let m = manned_board();
    assert_eq!(m.neighbour(at(1, 1), Direction::Up), Ok(Tile::new(TileState::Wall)));
    assert_eq!(m.neighbour(at(1, 1), Direction::Down), Ok(Tile::new(TileState::Empty)));
    assert_eq!(m.neighbour(at(12, 4), Direction::Right), Ok(Tile::new(TileState::Trap)));
    assert_eq!(
        m.neighbour(at(2, 1), Direction::Left),
        Ok(Tile { state: TileState::Empty, cooldown: 0, char_id: 0 })
    );
}

#[test]
fn neighbour_is_out_of_bounds_past_the_edge() {
    let m = open_board();
    assert_eq!(m.neighbour(at(3, 0), Direction::Up), Err(GridError::OutOfBounds));
    assert_eq!(m.neighbour(at(3, 15), Direction::Down), Err(GridError::OutOfBounds));
    assert_eq!(m.neighbour(at(0, 3), Direction::Left), Err(GridError::OutOfBounds));
    assert_eq!(m.neighbour(at(15, 3), Direction::Right), Err(GridError::OutOfBounds));
}

#[test]
fn is_available_needs_a_passable_neighbour() {
    let m = manned_board();
    assert!(!m.is_available(at(1, 1), Direction::Up));
    assert!(!m.is_available(at(1, 1), Direction::Left));
    assert!(m.is_available(at(1, 1), Direction::Down));
    assert!(m.is_available(at(1, 1), Direction::Right));
    assert!(!m.is_available(at(2, 1), Direction::Left));
    assert!(m.is_available(at(12, 4), Direction::Right));
    let open = open_board();
    assert!(!open.is_available(at(0, 0), Direction::Up));
    assert!(!open.is_available(at(0, 0), Direction::Left));
    assert!(!open.is_available(at(15, 15), Direction::Down));
    assert!(!open.is_available(at(15, 15), Direction::Right));
    assert!(open.is_available(at(0, 0), Direction::Right));
}

#[test]
fn move_occupant_vacates_and_takes() {
    let mut m = manned_board();
    let before = tiles_of(&m);
    assert_eq!(m.move_occupant(at(1, 1), at(1, 2), 0), Ok(()));
    let after = tiles_of(&m);
    for i in 0..GRID_CELLS {
        if i == 17 {
            assert_eq!(after[i], Tile { char_id: UNOCCUPIED, ..before[i] });
        } else if i == 33 {
            assert_eq!(after[i], Tile { char_id: 0, ..before[i] });
        } else {
            assert_eq!(after[i], before[i]);
        }
    }
    assert_eq!(m.tile_at(at(1, 2)).unwrap().occupant(), Some(0));
    assert_eq!(m.tile_at(at(1, 1)).unwrap().occupant(), None);
}

#[test]
fn move_occupant_need_not_be_to_a_neighbour() {
    let mut m = manned_board();
    assert_eq!(m.move_occupant(at(13, 13), at(2, 2), 1), Ok(()));
    assert_eq!(m.tile_at(at(2, 2)).unwrap().occupant(), Some(1));
    assert_eq!(m.tile_at(at(13, 13)).unwrap().occupant(), None);
}

#[test]
fn move_occupant_onto_a_trap_is_allowed() {
    let mut m = manned_board();
    assert_eq!(m.move_occupant(at(13, 13), at(13, 4), 1), Ok(()));
    assert_eq!(m.tile_at(at(13, 4)), Ok(Tile { state: TileState::Trap, cooldown: 0, char_id: 1 }));
}

#[test]
fn move_occupant_off_the_board_is_out_of_bounds() {
    let mut m = manned_board();
    let before = m;
    assert_eq!(m.move_occupant(at(1, 1), at(1, 16), 0), Err(GridError::OutOfBounds));
    assert_eq!(m.move_occupant(at(16, 1), at(1, 2), 0), Err(GridError::OutOfBounds));
    assert_eq!(m.move_occupant(at(16, 1), at(1, 16), 0), Err(GridError::OutOfBounds));
    assert_eq!(m, before);
}

#[test]
fn move_occupant_onto_a_wall_is_invalid() {
    let mut m = manned_board();
    let before = m;
    assert_eq!(m.move_occupant(at(1, 1), at(1, 0), 0), Err(GridError::InvalidMove));
    assert_eq!(m.move_occupant(at(1, 1), at(0, 1), 0), Err(GridError::InvalidMove));
    assert_eq!(m, before);
}

#[test]
fn move_occupant_onto_an_occupied_tile_is_invalid() {
    let mut m = manned_board();
    let before = m;
    assert_eq!(m.move_occupant(at(1, 1), at(13, 13), 0), Err(GridError::InvalidMove));
    assert_eq!(m.move_occupant(at(1, 1), at(1, 1), 0), Err(GridError::InvalidMove));
    assert_eq!(m, before);
}

#[test]
fn move_occupant_from_a_tile_held_by_another_is_invalid() {
    let mut m = manned_board();
    let before = m;
    assert_eq!(m.move_occupant(at(1, 1), at(1, 2), 1), Err(GridError::InvalidMove));
    assert_eq!(m.move_occupant(at(2, 2), at(2, 3), 0), Err(GridError::InvalidMove));
    assert_eq!(m.move_occupant(at(2, 2), at(2, 3), UNOCCUPIED), Err(GridError::InvalidMove));
    assert_eq!(m, before);
}

#[test]
fn set_terrain_changes_only_the_terrain() {
    let mut m = TileMap::new(Tile { state: TileState::Empty, cooldown: 9, char_id: UNOCCUPIED });
    let before = tiles_of(&m);
    assert_eq!(m.set_terrain(at(4, 2), TileState::Wall), Ok(()));
    assert_eq!(m.set_terrain(at(5, 2), TileState::Trap), Ok(()));
    let after = tiles_of(&m);
    for i in 0..GRID_CELLS {
        if i == 36 {
            assert_eq!(after[i], Tile { state: TileState::Wall, cooldown: 9, char_id: UNOCCUPIED });
        } else if i == 37 {
            assert_eq!(after[i], Tile { state: TileState::Trap, cooldown: 9, char_id: UNOCCUPIED });
        } else {
            assert_eq!(after[i], before[i]);
        }
    }
    assert_eq!(m.set_terrain(at(4, 2), TileState::Empty), Ok(()));
    assert_eq!(m.set_terrain(at(5, 2), TileState::Empty), Ok(()));
    assert_eq!(tiles_of(&m), before);
}

#[test]
fn set_terrain_off_the_board_is_out_of_bounds() {
    let mut m = open_board();
    let before = m;
    assert_eq!(m.set_terrain(at(16, 16), TileState::Wall), Err(GridError::OutOfBounds));
    assert_eq!(m.set_terrain(at(0, 16), TileState::Empty), Err(GridError::OutOfBounds));
    assert_eq!(m, before);
}

#[test]
fn set_terrain_cannot_wall_up_an_occupant() {
    let mut m = manned_board();
    let before = m;
    assert_eq!(m.set_terrain(at(1, 1), TileState::Wall), Err(GridError::InvalidMove));
    assert_eq!(m, before);
    assert_eq!(m.set_terrain(at(1, 1), TileState::Trap), Ok(()));
    assert_eq!(m.tile_at(at(1, 1)), Ok(Tile { state: TileState::Trap, cooldown: 0, char_id: 0 }));
}
