//! What holds of every match: theorems about the rules of play.

use vstd::prelude::*;
use crate::character::Status;
use crate::direction::{Direction, Input};
use crate::grid::{GridPosition, Selector, GRID_CELLS};
use crate::model::{Action, GameModel};
use crate::tile::{Tile, TileState, NB_CHAR};
use crate::tile_map::{move_allowed, passable_at};

verus! {

/// The budget check keeps a valid match valid.
pub proof fn lemma_checked_keeps_wf(s: GameModel)
    requires
        s.wf(),
    ensures
        s.checked().wf(),
        s.checked().tiles == s.tiles,
        !s.checked().exhausted(),
{
    let t = s.checked();
    if s.exhausted() {
        assert forall|i: int| 0 <= i < NB_CHAR implies #[trigger] t.seated(i) by {
            assert(s.seated(i));
        }
    }
}

/// Walking keeps a valid match valid, whether or not the step is taken.
pub proof fn lemma_walked_keeps_wf(s: GameModel, dir: Direction)
    requires
        s.wf(),
    ensures
        s.walked(dir).wf(),
{
    let t = s.walked(dir);
    let c = s.current();
    if s.can_walk(dir) {
        let to = c.pos.adjacent(dir)->0;
        assert(to.in_bounds());
        assert(c.id == s.active);
        assert forall|i: int| 0 <= i < NB_CHAR implies #[trigger] t.seated(i) by {
            assert(s.seated(i));
            let k = s.characters[i];
            if i != s.active && k.state == Status::Alive {
                assert(s.tiles[k.pos.index()].char_id == i);
                assert(t.characters[i] == k);
                assert(k.pos.index() != c.pos.index());
                assert(k.pos.index() != to.index());
            }
        }
        assert forall|j: int| 0 <= j < t.tiles.len() implies (#[trigger] t.tiles[j]).wf() by {
            assert(s.tiles[j].wf());
        }
    } else {
        assert forall|i: int| 0 <= i < NB_CHAR implies #[trigger] t.seated(i) by {
            assert(s.seated(i));
        }
    }
}

/// The response to an input keeps a valid match valid.
pub proof fn lemma_respond_keeps_wf(s: GameModel, input: Input)
    requires
        s.wf(),
    ensures
        s.respond(input).wf(),
{
    let t = s.respond(input);
    match input.direction() {
        Some(dir) => {
            if s.phase == Action::Move {
                lemma_walked_keeps_wf(s, dir);
            } else {
                assert forall|i: int| 0 <= i < NB_CHAR implies #[trigger] t.seated(i) by {
                    assert(s.seated(i));
                }
            }
        },
        None => {
            assert forall|i: int| 0 <= i < NB_CHAR implies #[trigger] t.seated(i) by {
                assert(s.seated(i));
            }
        },
    }
}

/// Handling one input keeps a valid match valid.
pub proof fn lemma_step_keeps_wf(s: GameModel, input: Input)
    requires
        s.wf(),
    ensures
        s.step(input).wf(),
{
    lemma_checked_keeps_wf(s);
    lemma_respond_keeps_wf(s.checked(), input);
}

/// Handling any sequence of inputs keeps a valid match valid.
pub proof fn lemma_run_keeps_wf(s: GameModel, inputs: Seq<Input>)
    requires
        s.wf(),
    ensures
        s.run(inputs).wf(),
    decreases inputs.len(),
{
    if inputs.len() > 0 {
        lemma_run_keeps_wf(s, inputs.drop_last());
        lemma_step_keeps_wf(s.run(inputs.drop_last()), inputs.last());
    }
}

/// In a valid match the tile under every living character
/// carries that character's id, and no other tile does.
pub proof fn lemma_occupancy(s: GameModel, i: int, j: int)
    requires
        s.wf(),
        0 <= i < NB_CHAR,
        s.characters[i].state == Status::Alive,
        0 <= j < GRID_CELLS,
    ensures
        s.characters[i].pos.in_bounds(),
        s.tiles[s.characters[i].pos.index()].char_id == s.characters[i].id,
        s.tiles[j].char_id == s.characters[i].id <==> j == s.characters[i].pos.index(),
{
    assert(s.seated(i));
}

/// After any sequence of inputs, the
/// tile under every living character carries that character's id, and no
/// other tile does.
pub proof fn lemma_occupancy_throughout(s: GameModel, inputs: Seq<Input>, i: int, j: int)
    requires
        s.wf(),
        0 <= i < NB_CHAR,
        s.run(inputs).characters[i].state == Status::Alive,
        0 <= j < GRID_CELLS,
    ensures
        s.run(inputs).characters[i].pos.in_bounds(),
        s.run(inputs).tiles[s.run(inputs).characters[i].pos.index()].char_id == i,
        s.run(inputs).tiles[j].char_id == i <==> j == s.run(inputs).characters[i].pos.index(),
{
    lemma_run_keeps_wf(s, inputs);
    lemma_occupancy(s.run(inputs), i, j);
}

/// Whatever the input, every character of a valid match stays on the
/// board.
pub proof fn lemma_characters_stay_on_board(s: GameModel, input: Input, i: int)
    requires
        s.wf(),
        0 <= i < NB_CHAR,
    ensures
        s.step(input).characters[i].pos.in_bounds(),
{
    lemma_step_keeps_wf(s, input);
}

/// A step off the edge of the board is refused, not wrapped. The
/// board and every position stay as they are; the active character only
/// turns towards the direction asked for.
pub proof fn lemma_edge_blocks(s: GameModel, input: Input, dir: Direction)
    requires
        s.wf(),
        s.phase == Action::Move,
        s.current().mp > 0,
        input.direction() == Some(dir),
        s.current().pos.adjacent(dir) is None,
    ensures
        s.step(input) == s.with_current(s.current().turned(dir)),
        s.step(input).tiles == s.tiles,
        s.step(input).current().pos == s.current().pos,
        s.step(input).current().mp == s.current().mp,
        s.step(input).current().facing == dir,
{
}

/// In whatever phase an input arrives, if it asks for a step off the
/// edge of the board, neither the board nor any position changes.
pub proof fn lemma_edge_never_crossed(s: GameModel, input: Input, dir: Direction, i: int)
    requires
        s.wf(),
        input.direction() == Some(dir),
        s.current().pos.adjacent(dir) is None,
        0 <= i < NB_CHAR,
    ensures
        s.step(input).tiles == s.tiles,
        s.step(input).characters[i].pos == s.characters[i].pos,
{
}

/// No occupant can be moved onto a wall.
pub proof fn lemma_wall_refuses_occupant(tiles: Seq<Tile>, from: GridPosition, to: GridPosition, id: usize)
    requires
        to.in_bounds(),
        tiles[to.index()].state == TileState::Wall,
    ensures
        !passable_at(tiles, to),
        !move_allowed(tiles, from, to, id),
{
}

/// A move whose target tile is a wall is refused. The board and the
/// position of the active character stay as they are, and no movement point
/// is spent; the character only turns towards the wall.
pub proof fn lemma_wall_blocks(s: GameModel, input: Input, dir: Direction, to: GridPosition)
    requires
        s.wf(),
        s.phase == Action::Move,
        s.current().mp > 0,
        input.direction() == Some(dir),
        s.current().pos.adjacent(dir) == Some(to),
        s.tiles[to.index()].state == TileState::Wall,
    ensures
        s.step(input) == s.with_current(s.current().turned(dir)),
        s.step(input).tiles == s.tiles,
        s.step(input).current().pos == s.current().pos,
        s.step(input).current().mp == s.current().mp,
        s.step(input).current().facing == dir,
{
}

/// In whatever phase an input arrives, if it asks for a step onto a
/// wall, neither the board nor any position changes.
pub proof fn lemma_wall_never_entered(s: GameModel, input: Input, dir: Direction, to: GridPosition, i: int)
    requires
        s.wf(),
        input.direction() == Some(dir),
        s.current().pos.adjacent(dir) == Some(to),
        s.tiles[to.index()].state == TileState::Wall,
        0 <= i < NB_CHAR,
    ensures
        s.step(input).tiles == s.tiles,
        s.step(input).characters[i].pos == s.characters[i].pos,
{
}

/// A step that is taken costs exactly one movement point, moves the
/// character to the neighbouring cell, and leaves the phase as it is.
pub proof fn lemma_accepted_move(s: GameModel, input: Input, dir: Direction)
    requires
        s.wf(),
        s.phase == Action::Move,
        s.current().mp > 0,
        input.direction() == Some(dir),
        s.can_walk(dir),
    ensures
        s.step(input).phase == Action::Move,
        s.step(input).active == s.active,
        s.step(input).current().mp == s.current().mp - 1,
        s.step(input).current().facing == dir,
        Some(s.step(input).current().pos) == s.current().pos.adjacent(dir),
{
}

/// Once the movement budget is used up, the next input, whatever it
/// is, meets the targeting phase, entered with the selector on the
/// character's own cell and the budget restored. An unrecognized input
/// leaves the match exactly there; a direction moves the selector one step
/// off the character's cell; `Confirm` ends the turn at once.
pub proof fn lemma_empty_budget_forces_attack(s: GameModel, input: Input)
    requires
        s.wf(),
        s.phase == Action::Move,
        s.current().mp == 0,
    ensures
        s.checked() == s.targeting(),
        s.targeting().phase == Action::Attack,
        s.targeting().current().selector == Selector::on(s.current().pos),
        s.targeting().current().pos == s.current().pos,
        s.targeting().current().mp == s.current().mobi,
        s.targeting().tiles == s.tiles,
        s.step(input) == s.targeting().respond(input),
        input == Input::Unrecognized ==> s.step(input) == s.targeting(),
        input == Input::Confirm ==> s.step(input) == s.targeting().turn_ended(),
        input.direction() matches Some(dir) ==> s.step(input).phase == Action::Attack && s.step(
            input,
        ).current().selector == Selector::on(s.current().pos).stepped(dir) && s.step(
            input,
        ).current().pos == s.current().pos,
{
}

/// Three steps taken on a budget of three use it up, one point a
/// step, and the input after them meets the targeting phase with the
/// selector on the cell the character has reached.
pub proof fn lemma_budget_of_three(s: GameModel, a: Input, b: Input, c: Input, next: Input)
    requires
        s.wf(),
        s.phase == Action::Move,
        s.current().mp == 3,
        a.direction() is Some,
        b.direction() is Some,
        c.direction() is Some,
        s.can_walk(a.direction()->0),
        s.step(a).can_walk(b.direction()->0),
        s.step(a).step(b).can_walk(c.direction()->0),
    ensures
        ({
            let s1 = s.step(a);
            let s2 = s1.step(b);
            let s3 = s2.step(c);
            &&& s1.current().mp == 2
            &&& s2.current().mp == 1
            &&& s3.current().mp == 0
            &&& s3.phase == Action::Move
            &&& s3.active == s.active
            &&& s3.step(next) == s3.targeting().respond(next)
            &&& s3.targeting().phase == Action::Attack
            &&& s3.targeting().current().selector == Selector::on(s3.current().pos)
            &&& s3.step(Input::Unrecognized) == s3.targeting()
        }),
{
    let s1 = s.step(a);
    lemma_step_keeps_wf(s, a);
    lemma_accepted_move(s, a, a.direction()->0);
    let s2 = s1.step(b);
    lemma_step_keeps_wf(s1, b);
    lemma_accepted_move(s1, b, b.direction()->0);
    let s3 = s2.step(c);
    lemma_step_keeps_wf(s2, c);
    lemma_accepted_move(s2, c, c.direction()->0);
    lemma_empty_budget_forces_attack(s3, next);
}

/// Confirming in the targeting phase ends the turn. Exactly one more
/// turn is counted, the other character becomes active, and the movement
/// phase begins; the board and the roster stay as they are. (At the numeric
/// limit of the counter the count stays put.)
pub proof fn lemma_turn_cycling(s: GameModel)
    requires
        s.wf(),
        s.phase == Action::Attack,
        s.turn < u32::MAX,
    ensures
        s.step(Input::Confirm).turn == s.turn + 1,
        s.step(Input::Confirm).active == 1 - s.active,
        s.step(Input::Confirm).active != s.active,
        s.step(Input::Confirm).phase == Action::Move,
        s.step(Input::Confirm).tiles == s.tiles,
        s.step(Input::Confirm).characters == s.characters,
{
}

/// The turn counter never runs backwards, and only the end of a turn
/// changes who is active.
pub proof fn lemma_turn_monotonic(s: GameModel, input: Input)
    requires
        s.wf(),
    ensures
        s.turn <= s.step(input).turn <= s.turn + 1,
        s.step(input).active != s.active ==> input == Input::Confirm && s.checked().phase
            == Action::Attack,
{
}

/// An unrecognized input changes nothing beyond the budget
/// check, and on a match with budget left it changes nothing at all.
pub proof fn lemma_unrecognized_is_idle(s: GameModel)
    requires
        s.wf(),
    ensures
        s.step(Input::Unrecognized) == s.checked(),
        !s.exhausted() ==> s.step(Input::Unrecognized) == s,
{
}

/// Confirming in the movement phase begins the targeting phase with
/// the selector on the character's own cell and the budget restored; the
/// turn goes on.
pub proof fn lemma_confirm_begins_targeting(s: GameModel)
    requires
        s.wf(),
        s.phase == Action::Move,
        s.current().mp > 0,
    ensures
        s.step(Input::Confirm) == s.targeting(),
        s.step(Input::Confirm).phase == Action::Attack,
        s.step(Input::Confirm).current().selector == Selector::on(s.current().pos),
        s.step(Input::Confirm).current().mp == s.current().mobi,
        s.step(Input::Confirm).turn == s.turn,
        s.step(Input::Confirm).active == s.active,
        s.step(Input::Confirm).tiles == s.tiles,
{
}

/// Play never changes the terrain or the cooldown of a tile, only
/// who stands on it.
pub proof fn lemma_terrain_is_fixed(s: GameModel, input: Input, j: int)
    requires
        s.wf(),
        0 <= j < GRID_CELLS,
    ensures
        s.step(input).tiles[j].state == s.tiles[j].state,
        s.step(input).tiles[j].cooldown == s.tiles[j].cooldown,
{
}

/// Play never changes the id, the mobility, the hit points or the
/// status of a character, and it never touches the character that is not
/// active.
pub proof fn lemma_roster_is_stable(s: GameModel, input: Input, i: int)
    requires
        s.wf(),
        0 <= i < NB_CHAR,
    ensures
        s.step(input).characters[i].id == s.characters[i].id,
        s.step(input).characters[i].mobi == s.characters[i].mobi,
        s.step(input).characters[i].hp == s.characters[i].hp,
        s.step(input).characters[i].state == s.characters[i].state,
        i != s.active ==> s.step(input).characters[i] == s.characters[i],
{
}

/// A directional input in the movement phase always turns the active
/// character towards the direction asked for, whether or not the step is
/// taken.
pub proof fn lemma_facing_follows_attempt(s: GameModel, input: Input, dir: Direction)
    requires
        s.wf(),
        s.phase == Action::Move,
        s.current().mp > 0,
        input.direction() == Some(dir),
    ensures
        s.step(input).current().facing == dir,
{
}

/// In the targeting phase a directional input moves the selector
/// and nothing else; no bound of the board stops it.
pub proof fn lemma_selector_roams(s: GameModel, input: Input, dir: Direction)
    requires
        s.wf(),
        s.phase == Action::Attack,
        input.direction() == Some(dir),
    ensures
        s.step(input) == s.with_current(s.current().retargeted(dir)),
        s.step(input).current().selector == s.current().selector.stepped(dir),
        s.step(input).current().mp == s.current().mp,
        s.step(input).tiles == s.tiles,
{
}

} // verus!
