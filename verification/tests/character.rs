use ascii_war::{Character, Direction, GridPosition, Selector, Status};

fn hero() -> Character {
    Character::new(0, GridPosition { x: 4, y: 6 }, Direction::Down, 3, 5)
}

#[test]
fn new_character_is_alive_with_a_full_budget() {
    assert_eq!(
        hero(),
        Character {
            id: 0,
            pos: GridPosition { x: 4, y: 6 },
            mobi: 3,
            mp: 3,
            facing: Direction::Down,
            hp: 5,
            state: Status::Alive,
            selector: Selector { x: 4, y: 6 },
            selector_steps: 3,
        }
    );
}

#[test]
fn apply_move_turns_the_character() {
    let mut c = hero();
    for dir in [Direction::Up, Direction::Left, Direction::Right, Direction::Down] {
        assert!(c.apply_move(dir));
        assert_eq!(c, Character { facing: dir, ..hero() });
    }
}

#[test]
fn spend_movement_point_takes_one() {
    let mut c = hero();
    c.spend_movement_point();
    assert_eq!(c, Character { mp: 2, ..hero() });
    c.spend_movement_point();
    c.spend_movement_point();
    assert_eq!(c.mp, 0);
}

#[test]
fn spend_movement_point_stops_at_zero() {
    let mut c = Character { mp: 0, ..hero() };
    c.spend_movement_point();
    assert_eq!(c, Character { mp: 0, ..hero() });
}

#[test]
fn reset_movement_restores_the_mobility() {
    let mut c = Character { mp: 0, ..hero() };
    c.reset_movement();
    assert_eq!(c, hero());
    let mut d = Character { mobi: 7, mp: 2, ..hero() };
    d.reset_movement();
    assert_eq!(d.mp, 7);
}

#[test]
fn take_aim_puts_the_selector_on_the_character() {
    let mut c = Character {
        mp: 1,
        selector: Selector { x: -4, y: 99 },
        selector_steps: 0,
        ..hero()
    };
    c.take_aim();
    assert_eq!(c, hero());
}

#[test]
fn move_selector_moves_only_the_selector() {
    let mut c = hero();
    c.move_selector(Direction::Left);
    assert_eq!(c, Character { selector: Selector { x: 3, y: 6 }, ..hero() });
    c.move_selector(Direction::Up);
    assert_eq!(c, Character { selector: Selector { x: 3, y: 5 }, ..hero() });
}
