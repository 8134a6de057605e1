//! The snake: a head, the tail pieces that follow it, and the timers that pace it.
//!
//! The head and the tail pieces are kept in two ordered collections, as the host engine
//! keeps its entities. The tail is ordered by age: the oldest piece, which follows the
//! head directly, comes first. While the game runs there is exactly one head.

use vstd::prelude::*;
use crate::collision::{collide, overlaps};
use crate::events::Events;
use crate::food::{EatCollisionEvent, Food};
use crate::timer::{Timer, TimerView, NANOS_PER_MILLI};
use crate::utilities::{at_edge, doubled_reach, in_field, on_grid, Position, Size, Window};
use crate::DeathCollisionEvent;

verus! {

/// The colour of the head.
pub const SNAKE_COLOR: (u32, u32, u32) = (204, 76, 32);

/// The colour of the tail.
pub const TAIL_COLOR: (u32, u32, u32) = (136, 50, 21);

/// The side of the square that every body unit of the snake occupies.
pub const SNAKE_HEAD_SIZE: u32 = 50;

/// The time between two steps of a fresh snake, in milliseconds.
pub const INITIAL_MOVEMENT_SPEED: u32 = 500;

/// By how many milliseconds a meal shortens the time between two steps.
pub const MOVEMENT_SPEED_STEP: u32 = 50;

/// The shortest time between two steps, in milliseconds, that meals lead to.
pub const FASTEST_MOVEMENT_SPEED: u32 = 100;

/// The period of the game timer, in milliseconds.
pub const GAME_TIMER_PERIOD: u32 = 100;

/// The way a body unit faces, which is the way it moves at the next step.
#[derive(Clone, Copy, Debug, PartialEq, Eq, Structural)]
pub enum Direction {
    Up,
    Down,
    Left,
    Right,
}

/// The head of the snake.
#[derive(Clone, Copy, Debug, PartialEq, Eq, Structural)]
pub struct SnakeHead {
    pub direction: Direction,
    pub position: Position,
    pub size: Size,
}

/// One piece of the tail.
#[derive(Clone, Copy, Debug, PartialEq, Eq, Structural)]
pub struct Tail {
    pub direction: Direction,
    pub position: Position,
    pub size: Size,
}

/// The timer whose pause freezes the snake.
pub struct GameTimer(pub Timer);

/// The timer that runs out when the snake is due to take a step.
pub struct MovementTimer(pub Timer);

/// The time between two steps, in milliseconds.
#[derive(Clone, Copy, Debug, PartialEq, Eq, Structural)]
pub struct MovementSpeed(pub u32);

/// Whether the systems that are paced by a timer run in this frame.
#[derive(Clone, Copy, Debug, PartialEq, Eq, Structural)]
pub enum ShouldRun {
    Yes,
    No,
}

/// The keys that the game reads, as they are in one frame.
#[derive(Clone, Copy, Debug, PartialEq, Eq, Structural)]
pub struct KeyboardInput {
    /// The arrow keys: whether each is held down.
    pub left: bool,
    pub right: bool,
    pub down: bool,
    pub up: bool,
    /// Whether the space bar went down in this frame.
    pub space: bool,
}

/// The place one cell ahead of `position` for a unit of size `size` that faces
/// `direction`: its own width or height further that way. Where a coordinate would leave
/// the range of `i64` the place is not defined; see `can_step_ahead`.
pub open spec fn one_ahead(position: Position, direction: Direction, size: Size) -> Position {
    match direction {
        Direction::Up => Position { x: position.x, y: (position.y + size.height) as i64 },
        Direction::Down => Position { x: position.x, y: (position.y - size.height) as i64 },
        Direction::Left => Position { x: (position.x - size.width) as i64, y: position.y },
        Direction::Right => Position { x: (position.x + size.width) as i64, y: position.y },
    }
}

/// The place one cell behind `position`, against `direction`; see `can_step_behind`.
pub open spec fn one_behind(position: Position, direction: Direction, size: Size) -> Position {
    match direction {
        Direction::Up => Position { x: position.x, y: (position.y - size.height) as i64 },
        Direction::Down => Position { x: position.x, y: (position.y + size.height) as i64 },
        Direction::Left => Position { x: (position.x + size.width) as i64, y: position.y },
        Direction::Right => Position { x: (position.x - size.width) as i64, y: position.y },
    }
}

/// Whether the place one cell ahead has coordinates in the range of `i64`.
pub open spec fn can_step_ahead(position: Position, direction: Direction, size: Size) -> bool {
    match direction {
        Direction::Up => position.y + size.height <= i64::MAX,
        Direction::Down => position.y - size.height >= i64::MIN,
        Direction::Left => position.x - size.width >= i64::MIN,
        Direction::Right => position.x + size.width <= i64::MAX,
    }
}

/// Whether the place one cell behind has coordinates in the range of `i64`.
pub open spec fn can_step_behind(position: Position, direction: Direction, size: Size) -> bool {
    match direction {
        Direction::Up => position.y - size.height >= i64::MIN,
        Direction::Down => position.y + size.height <= i64::MAX,
        Direction::Left => position.x + size.width <= i64::MAX,
        Direction::Right => position.x - size.width >= i64::MIN,
    }
}

/// Computes the place one cell ahead.
pub fn step_ahead(position: Position, direction: Direction, size: Size) -> (next: Position)
    requires
        can_step_ahead(position, direction, size),
    ensures
        next == one_ahead(position, direction, size),
{
    match direction {
        Direction::Up => Position { x: position.x, y: position.y + size.height as i64 },
        Direction::Down => Position { x: position.x, y: position.y - size.height as i64 },
        Direction::Left => Position { x: position.x - size.width as i64, y: position.y },
        Direction::Right => Position { x: position.x + size.width as i64, y: position.y },
    }
}

/// Computes the place one cell behind.
pub fn step_behind(position: Position, direction: Direction, size: Size) -> (previous: Position)
    requires
        can_step_behind(position, direction, size),
    ensures
        previous == one_behind(position, direction, size),
{
    match direction {
        Direction::Up => Position { x: position.x, y: position.y - size.height as i64 },
        Direction::Down => Position { x: position.x, y: position.y + size.height as i64 },
        Direction::Left => Position { x: position.x + size.width as i64, y: position.y },
        Direction::Right => Position { x: position.x - size.width as i64, y: position.y },
    }
}

/// A step ahead and a step behind cancel.
pub proof fn lemma_behind_then_ahead(position: Position, direction: Direction, size: Size)
    requires
        can_step_behind(position, direction, size),
    ensures
        can_step_ahead(one_behind(position, direction, size), direction, size),
        one_ahead(one_behind(position, direction, size), direction, size) == position,
{
}

// ---------------------------------------------------------------------------------------
// Growth
// ---------------------------------------------------------------------------------------

/// The tail piece that growth adds to a snake with the head `heads[0]` and the tail
/// `tails`: one cell behind the last piece of the tail, or behind the head where there is
/// no tail yet, and facing as that unit faces. The cell is measured by the size of the
/// unit it is attached to; the new piece itself has the common size.
pub open spec fn new_tail(heads: Seq<SnakeHead>, tails: Seq<Tail>) -> Tail {
    if tails.len() > 0 {
        let last = tails.last();
        Tail {
            direction: last.direction,
            position: one_behind(last.position, last.direction, last.size),
            size: Size { width: SNAKE_HEAD_SIZE, height: SNAKE_HEAD_SIZE },
        }
    } else {
        let head = heads[0];
        Tail {
            direction: head.direction,
            position: one_behind(head.position, head.direction, head.size),
            size: Size { width: SNAKE_HEAD_SIZE, height: SNAKE_HEAD_SIZE },
        }
    }
}

/// The tail after growth. Where there is neither a head nor a tail, nothing grows.
pub open spec fn grown(heads: Seq<SnakeHead>, tails: Seq<Tail>) -> Seq<Tail> {
    if heads.len() + tails.len() == 0 {
        tails
    } else {
        tails.push(new_tail(heads, tails))
    }
}

/// What growth needs: a snake with anything to attach a piece to has exactly one head,
/// and the place of the new piece has coordinates in the range of `i64`.
pub open spec fn can_grow(heads: Seq<SnakeHead>, tails: Seq<Tail>) -> bool {
    heads.len() + tails.len() > 0 ==> {
        &&& heads.len() == 1
        &&& if tails.len() > 0 {
            can_step_behind(tails.last().position, tails.last().direction, tails.last().size)
        } else {
            can_step_behind(heads[0].position, heads[0].direction, heads[0].size)
        }
    }
}

/// The signal and the tail after a run of `grow`: the signal is read, and the snake has
/// grown if there was one.
pub open spec fn after_grow(
    signal: Option<EatCollisionEvent>,
    heads: Seq<SnakeHead>,
    tails: Seq<Tail>,
) -> (Option<EatCollisionEvent>, Seq<Tail>) {
    (
        None,
        if signal is Some {
            grown(heads, tails)
        } else {
            tails
        },
    )
}

/// The signal and the tail after `runs` runs of `grow` in a row, with no meal between
/// them.
pub open spec fn after_grows(
    signal: Option<EatCollisionEvent>,
    heads: Seq<SnakeHead>,
    tails: Seq<Tail>,
    runs: nat,
) -> (Option<EatCollisionEvent>, Seq<Tail>)
    decreases runs,
{
    if runs == 0 {
        (signal, tails)
    } else {
        let (left, grown_tails) = after_grows(signal, heads, tails, (runs - 1) as nat);
        after_grow(left, heads, grown_tails)
    }
}

/// A meal lets the snake grow by exactly one piece, however long the signal stays
/// around: the first run of `grow` adds the piece behind the pieces that were there and
/// reads the signal, and any number of further runs adds nothing.
pub proof fn lemma_grows_once_per_meal(
    signal: Option<EatCollisionEvent>,
    heads: Seq<SnakeHead>,
    tails: Seq<Tail>,
    runs: nat,
)
    requires
        runs >= 1,
    ensures
        after_grows(signal, heads, tails, runs) == after_grow(signal, heads, tails),
        signal is Some && heads.len() + tails.len() > 0 ==> {
            &&& after_grow(signal, heads, tails).1.len() == tails.len() + 1
            &&& after_grow(signal, heads, tails).1.drop_last() == tails
        },
        signal is None || heads.len() + tails.len() == 0 ==> after_grow(signal, heads, tails).1
            == tails,
    decreases runs,
{
    if runs > 1 {
        lemma_grows_once_per_meal(signal, heads, tails, (runs - 1) as nat);
    } else {
        assert(after_grows(signal, heads, tails, 0) == (signal, tails));
    }
    if signal is Some && heads.len() + tails.len() > 0 {
        assert(grown(heads, tails).drop_last() =~= tails);
    }
}

/// Lets the snake grow by one piece if food was eaten since the last call, and marks
/// the signal as read. However often the signal was raised, one piece is added.
pub fn grow(
    eat_collision_event: &mut Events<EatCollisionEvent>,
    heads: &Vec<SnakeHead>,
    tails: &mut Vec<Tail>,
)
    requires
        old(eat_collision_event)@ is Some ==> can_grow(heads@, old(tails)@),
    ensures
        (final(eat_collision_event)@, final(tails)@) == after_grow(
            old(eat_collision_event)@,
            heads@,
            old(tails)@,
        ),
{
    if !eat_collision_event.is_empty() {
        eat_collision_event.clear();
        let tail_count = tails.len();
        if tail_count > 0 {
            let last = tails[tail_count - 1];
            let position = step_behind(last.position, last.direction, last.size);
            tails.push(
                Tail { direction: last.direction, position, size: Size::square(SNAKE_HEAD_SIZE) },
            );
        } else if heads.len() > 0 {
            let head = heads[0];
            let position = step_behind(head.position, head.direction, head.size);
            tails.push(
                Tail { direction: head.direction, position, size: Size::square(SNAKE_HEAD_SIZE) },
            );
        }
    }
}

// ---------------------------------------------------------------------------------------
// Movement
// ---------------------------------------------------------------------------------------

/// The head after one step: one cell ahead, facing as before.
pub open spec fn moved_head(head: SnakeHead) -> SnakeHead {
    SnakeHead { position: one_ahead(head.position, head.direction, head.size), ..head }
}

/// The tail after one step behind a head that faced `leader` when the step began. Each
/// piece goes one cell ahead in the direction it faced, and then faces as the unit in
/// front of it faced when the step began.
pub open spec fn moved_tails(leader: Direction, tails: Seq<Tail>) -> Seq<Tail> {
    Seq::new(
        tails.len(),
        |i: int|
            Tail {
                direction: if i == 0 {
                    leader
                } else {
                    tails[i - 1].direction
                },
                position: one_ahead(tails[i].position, tails[i].direction, tails[i].size),
                size: tails[i].size,
            },
    )
}

/// Whether a step keeps every coordinate of the snake in the range of `i64`.
pub open spec fn can_move(head: SnakeHead, tails: Seq<Tail>) -> bool {
    &&& can_step_ahead(head.position, head.direction, head.size)
    &&& forall|i: int|
        #![trigger tails[i]]
        0 <= i < tails.len() ==> can_step_ahead(tails[i].position, tails[i].direction, tails[i].size)
}

/// Takes one step with the whole snake, unless the game is paused or there is not
/// exactly one head.
pub fn move_snake(timer: &GameTimer, heads: &mut Vec<SnakeHead>, tails: &mut Vec<Tail>)
    requires
        !timer.0@.paused && old(heads)@.len() == 1 ==> can_move(old(heads)@[0], old(tails)@),
    ensures
        !timer.0@.paused && old(heads)@.len() == 1 ==> {
            &&& final(heads)@ == seq![moved_head(old(heads)@[0])]
            &&& final(tails)@ == moved_tails(old(heads)@[0].direction, old(tails)@)
        },
        timer.0@.paused || old(heads)@.len() != 1 ==> {
            &&& final(heads)@ == old(heads)@
            &&& final(tails)@ == old(tails)@
        },
{
    if timer.0.paused() {
        return ;
    }
    if heads.len() != 1 {
        return ;
    }
    let head = heads[0];
    let ghost before = tails@;
    heads.set(
        0,
        SnakeHead {
            direction: head.direction,
            position: step_ahead(head.position, head.direction, head.size),
            size: head.size,
        },
    );
    let mut last_direction = head.direction;
    let count = tails.len();
    let mut i: usize = 0;
    while i < count
        invariant
            i <= count,
            count == before.len(),
            tails@.len() == count,
            can_move(head, before),
            last_direction == (if i == 0 {
                head.direction
            } else {
                before[i - 1].direction
            }),
            forall|j: int| 0 <= j < i ==> tails@[j] == moved_tails(head.direction, before)[j],
            forall|j: int| i <= j < count ==> tails@[j] == before[j],
        decreases count - i,
    {
        let tail = tails[i];
        assert(tail == before[i as int]);
        tails.set(
            i,
            Tail {
                direction: last_direction,
                position: step_ahead(tail.position, tail.direction, tail.size),
                size: tail.size,
            },
        );
        last_direction = tail.direction;
        i += 1;
    }
    assert(heads@ =~= seq![moved_head(head)]);
    assert(tails@ =~= moved_tails(head.direction, before));
}

/// The snake after the first `count` of a run of steps, before each of which the head is
/// turned: `turns[k]` is the way it faces at step `k`.
pub open spec fn after_steps(head: SnakeHead, tails: Seq<Tail>, turns: Seq<Direction>, count: nat) -> (
    SnakeHead,
    Seq<Tail>,
)
    decreases count,
{
    if count == 0 {
        (head, tails)
    } else {
        let (before_head, before_tails) = after_steps(head, tails, turns, (count - 1) as nat);
        let turned = SnakeHead { direction: turns[count - 1], ..before_head };
        (moved_head(turned), moved_tails(turned.direction, before_tails))
    }
}

/// The way in which unit `unit` of the snake goes at step `step` of a run of steps. Unit
/// 0 is the head, which goes the way it was turned to; unit `i + 1` is piece `i` of the
/// tail, which goes the way it faces when the step begins.
pub open spec fn heading_at(
    head: SnakeHead,
    tails: Seq<Tail>,
    turns: Seq<Direction>,
    step: nat,
    unit: int,
) -> Direction {
    if unit == 0 {
        turns[step as int]
    } else {
        after_steps(head, tails, turns, step).1[unit - 1].direction
    }
}

/// A run of steps keeps the number of tail pieces.
pub proof fn lemma_steps_keep_length(
    head: SnakeHead,
    tails: Seq<Tail>,
    turns: Seq<Direction>,
    count: nat,
)
    ensures
        after_steps(head, tails, turns, count).1.len() == tails.len(),
    decreases count,
{
    if count > 0 {
        lemma_steps_keep_length(head, tails, turns, (count - 1) as nat);
    }
}

/// Directions travel down the snake by one unit per step: in every run of steps, each
/// piece of the tail goes at a step the way in which the unit in front of it went at the
/// step before.
pub proof fn lemma_direction_follows_predecessor(
    head: SnakeHead,
    tails: Seq<Tail>,
    turns: Seq<Direction>,
    step: nat,
    unit: int,
)
    requires
        1 <= step < turns.len(),
        1 <= unit <= tails.len(),
    ensures
        heading_at(head, tails, turns, step, unit) == heading_at(
            head,
            tails,
            turns,
            (step - 1) as nat,
            unit - 1,
        ),
{
    lemma_steps_keep_length(head, tails, turns, (step - 1) as nat);
}

/// Whether every unit of the snake has the common size.
pub open spec fn uniform(head: SnakeHead, tails: Seq<Tail>) -> bool {
    &&& head.size == (Size { width: SNAKE_HEAD_SIZE, height: SNAKE_HEAD_SIZE })
    &&& forall|i: int|
        #![trigger tails[i]]
        0 <= i < tails.len() ==> tails[i].size == (Size {
            width: SNAKE_HEAD_SIZE,
            height: SNAKE_HEAD_SIZE,
        })
}

/// The place of the unit in front of piece `i` of the tail.
pub open spec fn place_in_front(head: SnakeHead, tails: Seq<Tail>, i: int) -> Position {
    if i == 0 {
        head.position
    } else {
        tails[i - 1].position
    }
}

/// Whether the snake is in one piece: each piece of the tail is one cell behind the unit
/// in front of it, and faces it.
pub open spec fn connected(head: SnakeHead, tails: Seq<Tail>) -> bool {
    forall|i: int|
        #![trigger tails[i]]
        0 <= i < tails.len() ==> {
            &&& can_step_ahead(tails[i].position, tails[i].direction, tails[i].size)
            &&& one_ahead(tails[i].position, tails[i].direction, tails[i].size) == place_in_front(
                head,
                tails,
                i,
            )
        }
}

/// A snake of units of the common size that is in one piece is still so after it has
/// grown.
pub proof fn lemma_growth_keeps_connected(head: SnakeHead, tails: Seq<Tail>)
    requires
        uniform(head, tails),
        connected(head, tails),
        can_grow(seq![head], tails),
    ensures
        uniform(head, grown(seq![head], tails)),
        connected(head, grown(seq![head], tails)),
{
    let heads = seq![head];
    let longer = grown(heads, tails);
    let added = new_tail(heads, tails);
    assert(longer == tails.push(added));
    assert forall|i: int| 0 <= i < longer.len() implies {
        &&& #[trigger] longer[i].size == (Size { width: SNAKE_HEAD_SIZE, height: SNAKE_HEAD_SIZE })
        &&& can_step_ahead(longer[i].position, longer[i].direction, longer[i].size)
        &&& one_ahead(longer[i].position, longer[i].direction, longer[i].size) == place_in_front(
            head,
            longer,
            i,
        )
    } by {
        if i < tails.len() {
            assert(longer[i] == tails[i]);
            if i > 0 {
                assert(longer[i - 1] == tails[i - 1]);
            }
        } else {
            assert(longer[i] == added);
            if tails.len() > 0 {
                let last = tails.last();
                assert(last == tails[tails.len() - 1]);
                assert(longer[i - 1] == last);
                lemma_behind_then_ahead(last.position, last.direction, last.size);
            } else {
                lemma_behind_then_ahead(head.position, head.direction, head.size);
            }
        }
    }
}

/// A snake of units of the common size that is in one piece is still so after a step.
pub proof fn lemma_step_keeps_connected(head: SnakeHead, tails: Seq<Tail>)
    requires
        uniform(head, tails),
        connected(head, tails),
        can_move(head, tails),
    ensures
        uniform(moved_head(head), moved_tails(head.direction, tails)),
        connected(moved_head(head), moved_tails(head.direction, tails)),
{
    let ahead = moved_head(head);
    let behind = moved_tails(head.direction, tails);
    assert forall|i: int| 0 <= i < behind.len() implies {
        &&& #[trigger] behind[i].size == (Size { width: SNAKE_HEAD_SIZE, height: SNAKE_HEAD_SIZE })
        &&& can_step_ahead(behind[i].position, behind[i].direction, behind[i].size)
        &&& one_ahead(behind[i].position, behind[i].direction, behind[i].size) == place_in_front(
            ahead,
            behind,
            i,
        )
    } by {
        assert(tails[i].size == (Size { width: SNAKE_HEAD_SIZE, height: SNAKE_HEAD_SIZE }));
        if i > 0 {
            assert(tails[i - 1].size == (Size { width: SNAKE_HEAD_SIZE, height: SNAKE_HEAD_SIZE }));
            assert(behind[i - 1].position == one_ahead(
                tails[i - 1].position,
                tails[i - 1].direction,
                tails[i - 1].size,
            ));
        }
    }
}

/// Whether every unit of the snake lies on the grid of the cells.
pub open spec fn aligned(head: SnakeHead, tails: Seq<Tail>) -> bool {
    &&& on_grid(head.position, SNAKE_HEAD_SIZE)
    &&& forall|i: int|
        #![trigger tails[i]]
        0 <= i < tails.len() ==> on_grid(tails[i].position, SNAKE_HEAD_SIZE)
}

/// A step of a cell from a place on the grid leads to a place on the grid.
pub proof fn lemma_cell_steps_stay_on_grid(position: Position, direction: Direction)
    requires
        on_grid(position, SNAKE_HEAD_SIZE),
    ensures
        can_step_ahead(position, direction, Size { width: SNAKE_HEAD_SIZE, height: SNAKE_HEAD_SIZE })
            ==> on_grid(
            one_ahead(position, direction, Size { width: SNAKE_HEAD_SIZE, height: SNAKE_HEAD_SIZE }),
            SNAKE_HEAD_SIZE,
        ),
        can_step_behind(
            position,
            direction,
            Size { width: SNAKE_HEAD_SIZE, height: SNAKE_HEAD_SIZE },
        ) ==> on_grid(
            one_behind(position, direction, Size { width: SNAKE_HEAD_SIZE, height: SNAKE_HEAD_SIZE }),
            SNAKE_HEAD_SIZE,
        ),
{
}

/// A snake of units of the common size that lies on the grid still does so after it has
/// grown, and after a step.
pub proof fn lemma_snake_stays_on_grid(head: SnakeHead, tails: Seq<Tail>)
    requires
        uniform(head, tails),
        aligned(head, tails),
    ensures
        can_grow(seq![head], tails) ==> aligned(head, grown(seq![head], tails)),
        can_move(head, tails) ==> aligned(moved_head(head), moved_tails(head.direction, tails)),
{
    if can_grow(seq![head], tails) {
        let longer = grown(seq![head], tails);
        assert forall|i: int| 0 <= i < longer.len() implies on_grid(
            #[trigger] longer[i].position,
            SNAKE_HEAD_SIZE,
        ) by {
            if i < tails.len() {
                assert(longer[i] == tails[i]);
            } else if tails.len() > 0 {
                let last = tails.last();
                assert(last == tails[tails.len() - 1]);
                lemma_cell_steps_stay_on_grid(last.position, last.direction);
            } else {
                lemma_cell_steps_stay_on_grid(head.position, head.direction);
            }
        }
    }
    if can_move(head, tails) {
        lemma_cell_steps_stay_on_grid(head.position, head.direction);
        let behind = moved_tails(head.direction, tails);
        assert forall|i: int| 0 <= i < behind.len() implies on_grid(
            #[trigger] behind[i].position,
            SNAKE_HEAD_SIZE,
        ) by {
            assert(tails[i].size == (Size { width: SNAKE_HEAD_SIZE, height: SNAKE_HEAD_SIZE }));
            lemma_cell_steps_stay_on_grid(tails[i].position, tails[i].direction);
        }
    }
}

// ---------------------------------------------------------------------------------------
// Timers
// ---------------------------------------------------------------------------------------

/// Tells whether the snake is due to take a step: the movement timer ran out during
/// the last tick.
pub fn get_movement_speed(movement_timer: &MovementTimer) -> (run: ShouldRun)
    ensures
        run == (if movement_timer.0@.just_finished {
            ShouldRun::Yes
        } else {
            ShouldRun::No
        }),
{
    if movement_timer.0.just_finished() {
        ShouldRun::Yes
    } else {
        ShouldRun::No
    }
}

/// Lets `delta` nanoseconds pass on both timers.
pub fn tick_timers(delta: u64, game_timer: &mut GameTimer, movement_timer: &mut MovementTimer)
    ensures
        final(game_timer).0@ == old(game_timer).0@.ticked(delta as nat),
        final(movement_timer).0@ == old(movement_timer).0@.ticked(delta as nat),
{
    game_timer.0.tick(delta);
    movement_timer.0.tick(delta);
}

/// Pauses the game when the space bar goes down, and lets it run again when it goes down
/// the next time.
pub fn pause_game(timer: &mut GameTimer, keyboard_input: &KeyboardInput)
    ensures
        final(timer).0@ == (TimerView {
            paused: old(timer).0@.paused != keyboard_input.space,
            ..old(timer).0@
        }),
{
    if keyboard_input.space {
        if timer.0.paused() {
            timer.0.unpause();
        } else {
            timer.0.pause();
        }
    }
}

// ---------------------------------------------------------------------------------------
// The head
// ---------------------------------------------------------------------------------------

/// The head that a game starts with: at the centre of the window, facing down.
pub open spec fn fresh_head() -> SnakeHead {
    SnakeHead {
        direction: Direction::Down,
        position: Position { x: 0, y: 0 },
        size: Size { width: SNAKE_HEAD_SIZE, height: SNAKE_HEAD_SIZE },
    }
}

/// Adds a fresh head.
pub fn spawn_snake(heads: &mut Vec<SnakeHead>)
    ensures
        final(heads)@ == old(heads)@.push(fresh_head()),
{
    heads.push(
        SnakeHead {
            direction: Direction::Down,
            position: Position::origin(),
            size: Size::square(SNAKE_HEAD_SIZE),
        },
    );
}

/// The direction that the keys ask for, or `current` where no arrow key is held down.
/// Of several arrow keys that are held down, up goes before down, down before right and
/// right before left.
pub open spec fn steered(keyboard_input: KeyboardInput, current: Direction) -> Direction {
    if keyboard_input.up {
        Direction::Up
    } else if keyboard_input.down {
        Direction::Down
    } else if keyboard_input.right {
        Direction::Right
    } else if keyboard_input.left {
        Direction::Left
    } else {
        current
    }
}

/// Turns the head as the arrow keys ask, if there is exactly one head. The head stays
/// where it is: the turn shows at the next step. Nothing keeps the head from turning
/// back onto its own tail.
pub fn change_snake_direction(keyboard_input: &KeyboardInput, heads: &mut Vec<SnakeHead>)
    ensures
        old(heads)@.len() == 1 ==> final(heads)@ == seq![
            SnakeHead {
                direction: steered(*keyboard_input, old(heads)@[0].direction),
                ..old(heads)@[0]
            },
        ],
        old(heads)@.len() != 1 ==> final(heads)@ == old(heads)@,
{
    if heads.len() == 1 {
        let mut snake = heads[0];
        if keyboard_input.left {
            snake.direction = Direction::Left;
        }
        if keyboard_input.right {
            snake.direction = Direction::Right;
        }
        if keyboard_input.down {
            snake.direction = Direction::Down;
        }
        if keyboard_input.up {
            snake.direction = Direction::Up;
        }
        heads.set(0, snake);
        assert(heads@ =~= seq![
            SnakeHead {
                direction: steered(*keyboard_input, old(heads)@[0].direction),
                ..old(heads)@[0]
            },
        ]);
    }
}

// ---------------------------------------------------------------------------------------
// Speed
// ---------------------------------------------------------------------------------------

/// The time between two steps after a meal, in milliseconds: shorter by the step, but
/// not shorter than the fastest. A time that is at the fastest or below it stays as it
/// is.
pub open spec fn sped_up(speed: u32) -> u32 {
    if speed > FASTEST_MOVEMENT_SPEED + MOVEMENT_SPEED_STEP {
        (speed - MOVEMENT_SPEED_STEP) as u32
    } else if speed > FASTEST_MOVEMENT_SPEED {
        FASTEST_MOVEMENT_SPEED
    } else {
        speed
    }
}

/// A meal never lengthens the time between two steps, and from the fastest time on it
/// leaves the larger of the fastest time and the time less the step: the time changes
/// exactly where it was longer than the fastest.
pub proof fn lemma_sped_up_is_floored(speed: u32)
    ensures
        sped_up(speed) <= speed,
        speed >= FASTEST_MOVEMENT_SPEED ==> sped_up(speed) >= FASTEST_MOVEMENT_SPEED,
        speed >= FASTEST_MOVEMENT_SPEED ==> sped_up(speed) == (if speed - MOVEMENT_SPEED_STEP
            >= FASTEST_MOVEMENT_SPEED {
            speed - MOVEMENT_SPEED_STEP
        } else {
            FASTEST_MOVEMENT_SPEED as int
        }),
        sped_up(speed) != speed <==> speed > FASTEST_MOVEMENT_SPEED,
{
}

/// Shortens the time between two steps if food was eaten since the last call, and marks
/// the signal as read. However often the signal was raised, the time is shortened once.
/// Where the time changes, the movement timer starts anew with it.
pub fn eat_and_speed_up(
    eat_collision_event: &mut Events<EatCollisionEvent>,
    movement_timer: &mut MovementTimer,
    movement_speed: &mut MovementSpeed,
)
    ensures
        final(eat_collision_event)@ is None,
        old(eat_collision_event)@ is Some ==> final(movement_speed).0 == sped_up(
            old(movement_speed).0,
        ),
        old(eat_collision_event)@ is Some && old(movement_speed).0 > FASTEST_MOVEMENT_SPEED
            ==> final(movement_timer).0@ == TimerView::started(
            (sped_up(old(movement_speed).0) * NANOS_PER_MILLI) as nat,
        ),
        old(eat_collision_event)@ is None ==> final(movement_speed).0 == old(movement_speed).0,
        old(eat_collision_event)@ is None || old(movement_speed).0 <= FASTEST_MOVEMENT_SPEED
            ==> final(movement_timer).0@ == old(movement_timer).0@,
{
    if !eat_collision_event.is_empty() {
        eat_collision_event.clear();
        if movement_speed.0 > FASTEST_MOVEMENT_SPEED {
            if movement_speed.0 > FASTEST_MOVEMENT_SPEED + MOVEMENT_SPEED_STEP {
                movement_speed.0 = movement_speed.0 - MOVEMENT_SPEED_STEP;
            } else {
                movement_speed.0 = FASTEST_MOVEMENT_SPEED;
            }
            movement_timer.0 = Timer::from_millis(movement_speed.0);
        }
    }
}

// ---------------------------------------------------------------------------------------
// The edge of the field
// ---------------------------------------------------------------------------------------

/// The whole number nearest to `value` whose double is between `-doubled_limit` and
/// `doubled_limit`.
pub open spec fn clamped(value: int, doubled_limit: int) -> int {
    if 2 * value < -doubled_limit {
        -(doubled_limit / 2)
    } else if 2 * value > doubled_limit {
        doubled_limit / 2
    } else {
        value
    }
}

/// The head, moved back into the field along each axis on which it had left it.
pub open spec fn bounded_head(window: Window, head: SnakeHead) -> SnakeHead {
    SnakeHead {
        position: Position {
            x: clamped(head.position.x as int, doubled_reach(window.width, head.size.width)) as i64,
            y: clamped(
                head.position.y as int,
                doubled_reach(window.height, head.size.height),
            ) as i64,
        },
        ..head
    }
}

/// Every head, moved back into the field.
pub open spec fn bounded_heads(window: Window, heads: Seq<SnakeHead>) -> Seq<SnakeHead> {
    Seq::new(heads.len(), |i: int| bounded_head(window, heads[i]))
}

/// Whether some head touches the edge of the field or reaches over it.
pub open spec fn some_head_at_edge(window: Window, heads: Seq<SnakeHead>) -> bool {
    exists|i: int|
        #![trigger heads[i]]
        0 <= i < heads.len() && at_edge(window, heads[i].position, heads[i].size)
}

/// Whether every head is no larger than the window.
pub open spec fn heads_fit(window: Window, heads: Seq<SnakeHead>) -> bool {
    forall|i: int|
        #![trigger heads[i]]
        0 <= i < heads.len() ==> heads[i].size.width <= window.width && heads[i].size.height
            <= window.height
}

fn clamp(value: i64, doubled_limit: i64) -> (kept: i64)
    requires
        0 <= doubled_limit <= u32::MAX,
    ensures
        kept == clamped(value as int, doubled_limit as int),
        -doubled_limit <= 2 * kept <= doubled_limit,
{
    let limit: i64 = doubled_limit / 2;
    if value < -limit {
        -limit
    } else if value > limit {
        limit
    } else {
        value
    }
}

fn beyond(value: i64, doubled_limit: i64) -> (outside: bool)
    requires
        0 <= doubled_limit <= u32::MAX,
    ensures
        outside == (2 * value <= -doubled_limit || 2 * value >= doubled_limit),
{
    let doubled: i128 = 2 * (value as i128);
    doubled <= -(doubled_limit as i128) || doubled >= doubled_limit as i128
}

/// Keeps every head in the field, and raises the signal of death if one had reached the
/// edge.
pub fn bound(
    window: &Window,
    heads: &mut Vec<SnakeHead>,
    collision_events: &mut Events<DeathCollisionEvent>,
)
    requires
        heads_fit(*window, old(heads)@),
    ensures
        final(heads)@ == bounded_heads(*window, old(heads)@),
        forall|i: int|
            #![trigger final(heads)@[i]]
            0 <= i < final(heads)@.len() ==> in_field(
                *window,
                final(heads)@[i].position,
                final(heads)@[i].size,
            ),
        some_head_at_edge(*window, old(heads)@) ==> final(collision_events)@ == Some(
            DeathCollisionEvent,
        ),
        !some_head_at_edge(*window, old(heads)@) ==> *final(collision_events) == *old(
            collision_events,
        ),
{
    let ghost before = heads@;
    let count = heads.len();
    let mut i: usize = 0;
    while i < count
        invariant
            i <= count,
            count == before.len(),
            heads@.len() == count,
            heads_fit(*window, before),
            forall|j: int| 0 <= j < i ==> heads@[j] == bounded_head(*window, before[j]),
            forall|j: int|
                #![trigger heads@[j]]
                0 <= j < i ==> in_field(*window, heads@[j].position, heads@[j].size),
            forall|j: int| i <= j < count ==> heads@[j] == before[j],
            (exists|j: int|
                #![trigger before[j]]
                0 <= j < i && at_edge(*window, before[j].position, before[j].size))
                ==> collision_events@ == Some(DeathCollisionEvent),
            !(exists|j: int|
                #![trigger before[j]]
                0 <= j < i && at_edge(*window, before[j].position, before[j].size))
                ==> *collision_events == *old(collision_events),
        decreases count - i,
    {
        let head = heads[i];
        assert(head == before[i as int]);
        let reach_x: i64 = window.width as i64 - head.size.width as i64;
        let reach_y: i64 = window.height as i64 - head.size.height as i64;
        let hit = beyond(head.position.x, reach_x) || beyond(head.position.y, reach_y);
        assert(hit == at_edge(*window, before[i as int].position, before[i as int].size));
        heads.set(
            i,
            SnakeHead {
                direction: head.direction,
                position: Position {
                    x: clamp(head.position.x, reach_x),
                    y: clamp(head.position.y, reach_y),
                },
                size: head.size,
            },
        );
        if hit {
            collision_events.send(DeathCollisionEvent);
        }
        i += 1;
    }
    assert(heads@ =~= bounded_heads(*window, before));
}

// ---------------------------------------------------------------------------------------
// The snake's own tail
// ---------------------------------------------------------------------------------------

/// Whether a head touches some piece of the tail.
pub open spec fn touches_tail(head: SnakeHead, tails: Seq<Tail>) -> bool {
    exists|t: int|
        #![trigger tails[t]]
        0 <= t < tails.len() && overlaps(head.position, head.size, tails[t].position, tails[t].size)
}

/// Whether some head touches some piece of the tail.
pub open spec fn runs_into_self(heads: Seq<SnakeHead>, tails: Seq<Tail>) -> bool {
    exists|h: int| #![trigger heads[h]] 0 <= h < heads.len() && touches_tail(heads[h], tails)
}

fn head_touches_tail(head: &SnakeHead, tails: &Vec<Tail>) -> (touches: bool)
    ensures
        touches == touches_tail(*head, tails@),
{
    let count = tails.len();
    let mut t: usize = 0;
    while t < count
        invariant
            t <= count,
            count == tails@.len(),
            forall|u: int|
                #![trigger tails@[u]]
                0 <= u < t ==> !overlaps(
                    head.position,
                    head.size,
                    tails@[u].position,
                    tails@[u].size,
                ),
        decreases count - t,
    {
        let tail = tails[t];
        if collide(head.position, head.size, tail.position, tail.size) {
            return true;
        }
        t += 1;
    }
    false
}

/// Raises the signal of death if a head touches a piece of the tail.
pub fn check_run_into_self_collision(
    collision_events: &mut Events<DeathCollisionEvent>,
    heads: &Vec<SnakeHead>,
    tails: &Vec<Tail>,
)
    ensures
        runs_into_self(heads@, tails@) ==> final(collision_events)@ == Some(DeathCollisionEvent),
        !runs_into_self(heads@, tails@) ==> *final(collision_events) == *old(collision_events),
{
    let count = heads.len();
    let mut h: usize = 0;
    while h < count
        invariant
            h <= count,
            count == heads@.len(),
            (exists|g: int| #![trigger heads@[g]] 0 <= g < h && touches_tail(heads@[g], tails@))
                ==> collision_events@ == Some(DeathCollisionEvent),
            !(exists|g: int| #![trigger heads@[g]] 0 <= g < h && touches_tail(heads@[g], tails@))
                ==> *collision_events == *old(collision_events),
        decreases count - h,
    {
        if head_touches_tail(&heads[h], tails) {
            collision_events.send(DeathCollisionEvent);
        }
        h += 1;
    }
}

// ---------------------------------------------------------------------------------------
// Death
// ---------------------------------------------------------------------------------------

/// Starts the game anew if the snake has died since the last call, and marks the signal
/// as read: the head, the tail and the food are removed, the time between two steps and
/// the movement timer are as at the start, and there is a fresh head.
pub fn reset_snake(
    collision_events: &mut Events<DeathCollisionEvent>,
    heads: &mut Vec<SnakeHead>,
    tails: &mut Vec<Tail>,
    foods: &mut Vec<Food>,
    movement_timer: &mut MovementTimer,
    movement_speed: &mut MovementSpeed,
)
    ensures
        final(collision_events)@ is None,
        old(collision_events)@ is Some ==> {
            &&& final(heads)@ == seq![fresh_head()]
            &&& final(tails)@ == Seq::<Tail>::empty()
            &&& final(foods)@ == Seq::<Food>::empty()
            &&& final(movement_speed).0 == INITIAL_MOVEMENT_SPEED
            &&& final(movement_timer).0@ == TimerView::started(
                (INITIAL_MOVEMENT_SPEED * NANOS_PER_MILLI) as nat,
            )
        },
        old(collision_events)@ is None ==> {
            &&& final(heads)@ == old(heads)@
            &&& final(tails)@ == old(tails)@
            &&& final(foods)@ == old(foods)@
            &&& final(movement_speed).0 == old(movement_speed).0
            &&& final(movement_timer).0@ == old(movement_timer).0@
        },
{
    if !collision_events.is_empty() {
        collision_events.clear();
        heads.clear();
        tails.clear();
        foods.clear();
        movement_speed.0 = INITIAL_MOVEMENT_SPEED;
        movement_timer.0 = Timer::from_millis(movement_speed.0);
        spawn_snake(heads);
        assert(heads@ =~= seq![fresh_head()]);
    }
}

} // verus!
