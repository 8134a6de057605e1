//! The food: where it appears, and when it is eaten.

use vstd::prelude::*;
use crate::collision::{collide, overlaps};
use crate::events::Events;
use crate::snake::SnakeHead;
use crate::utilities::{in_field, on_grid, Position, Size, Window};

verus! {

/// The colour of the food.
pub const FOOD_COLOR: (u32, u32, u32) = (69, 167, 129);

/// The side of the square that the food occupies, which is also the spacing of the grid
/// that food is placed on.
pub const FOOD_SIZE: u32 = 50;

/// The food on the field.
#[derive(Clone, Copy, Debug, PartialEq, Eq, Structural)]
pub struct Food {
    pub position: Position,
    pub size: Size,
}

/// The signal that the head has touched the food.
#[derive(Clone, Copy, Debug, PartialEq, Eq, Structural)]
pub struct EatCollisionEvent;

/// The signal that the head has touched the food, once for each of the three systems
/// that react to it: the one that lets the snake grow, the one that speeds it up and the
/// one that removes the food.
pub struct EatCollisionEvents {
    pub growth: Events<EatCollisionEvent>,
    pub speed: Events<EatCollisionEvent>,
    pub food: Events<EatCollisionEvent>,
}

impl EatCollisionEvents {
    /// Nothing to read for any listener.
    pub fn new() -> (events: Self)
        ensures
            events.growth@ is None,
            events.speed@ is None,
            events.food@ is None,
    {
        EatCollisionEvents { growth: Events::new(), speed: Events::new(), food: Events::new() }
    }

    /// Raises the signal for every listener.
    pub fn send_default(&mut self)
        ensures
            final(self).growth@ == Some(EatCollisionEvent),
            final(self).speed@ == Some(EatCollisionEvent),
            final(self).food@ == Some(EatCollisionEvent),
    {
        self.growth.send(EatCollisionEvent);
        self.speed.send(EatCollisionEvent);
        self.food.send(EatCollisionEvent);
    }
}

/// Why the one head that a system works on could not be picked.
#[derive(Clone, Copy, Debug, PartialEq, Eq, Structural)]
pub enum QuerySingleError {
    /// There is no head.
    NoEntities,
    /// There is more than one head.
    MultipleEntities,
}

impl QuerySingleError {
    /// The line that reports the error to the player.
    pub fn message(&self) -> (text: &'static str)
        ensures
            *self == QuerySingleError::NoEntities ==> text@ == "Error: There is no player!"@,
            *self == QuerySingleError::MultipleEntities ==> text@
                == "Error: There is more than one player!"@,
    {
        match self {
            QuerySingleError::NoEntities => "Error: There is no player!",
            QuerySingleError::MultipleEntities => "Error: There is more than one player!",
        }
    }
}

// ---------------------------------------------------------------------------------------
// Placement
// ---------------------------------------------------------------------------------------

/// The multiple of `cell` that is nearest to the half of `doubled`. Where the half lies
/// in the middle between two multiples, the one farther from zero is taken.
pub open spec fn snapped(doubled: int, cell: int) -> int {
    if doubled >= 0 {
        cell * ((doubled + cell) / (2 * cell))
    } else {
        -(cell * ((cell - doubled) / (2 * cell)))
    }
}

/// `snapped` gives a multiple of the cell that is at most half a cell away from the
/// value, and that is the one farther from zero where two multiples are as near.
pub proof fn lemma_snapped_is_nearest(doubled: int, cell: int)
    requires
        cell > 0,
    ensures
        snapped(doubled, cell) % cell == 0,
        doubled >= 0 ==> -cell < 2 * snapped(doubled, cell) - doubled <= cell,
        doubled < 0 ==> -cell <= 2 * snapped(doubled, cell) - doubled < cell,
        doubled >= 0 ==> snapped(doubled, cell) >= 0,
        doubled < 0 ==> snapped(doubled, cell) <= 0,
{
    let magnitude = if doubled >= 0 {
        doubled
    } else {
        -doubled
    };
    let total = magnitude + cell;
    let q = total / (2 * cell);
    vstd::arithmetic::div_mod::lemma_fundamental_div_mod(total, 2 * cell);
    vstd::arithmetic::div_mod::lemma_mod_bound(total, 2 * cell);
    vstd::arithmetic::div_mod::lemma_div_pos_is_pos(total, 2 * cell);
    vstd::arithmetic::mul::lemma_mul_is_associative(2, cell, q);
    assert(0 <= q);
    assert(2 * (cell * q) <= total < 2 * (cell * q) + 2 * cell);
    assert(cell * q >= 0) by (nonlinear_arith)
        requires
            cell > 0,
            q >= 0,
    ;
    vstd::arithmetic::mul::lemma_mul_is_commutative(cell, q);
    vstd::arithmetic::div_mod::lemma_mod_multiples_basic(q, cell);
    vstd::arithmetic::mul::lemma_mul_unary_negation(q, cell);
    vstd::arithmetic::div_mod::lemma_mod_multiples_basic(-q, cell);
}

/// Snaps the half of `doubled` to the grid of spacing `cell`: the result is the multiple
/// of `cell` nearest to it, and of two that are as near the one farther from zero.
pub fn snap_to_grid(doubled: i64, cell: u32) -> (snapped_to: i64)
    requires
        cell > 0,
    ensures
        snapped_to == snapped(doubled as int, cell as int),
        (snapped_to as int) % (cell as int) == 0,
        doubled >= 0 ==> -cell < 2 * snapped_to - doubled <= cell,
        doubled < 0 ==> -cell <= 2 * snapped_to - doubled < cell,
{
    proof {
        lemma_snapped_is_nearest(doubled as int, cell as int);
    }
    let spacing: i128 = cell as i128;
    let magnitude: i128 = if doubled >= 0 {
        doubled as i128
    } else {
        -(doubled as i128)
    };
    let q: i128 = (magnitude + spacing) / (2 * spacing);
    assert(0 <= q && 2 * (spacing * q) <= magnitude + spacing) by (nonlinear_arith)
        requires
            spacing > 0,
            magnitude >= 0,
            q == (magnitude + spacing) / (2 * spacing),
    ;
    let multiple: i128 = spacing * q;
    if doubled >= 0 {
        multiple as i64
    } else {
        (-multiple) as i64
    }
}

/// The food that is placed for the draw (`doubled_x`, `doubled_y`), which is made in
/// half units: the half of the draw, snapped to the grid.
pub open spec fn placed_food(doubled_x: int, doubled_y: int) -> Food {
    Food {
        position: Position {
            x: snapped(doubled_x, FOOD_SIZE as int) as i64,
            y: snapped(doubled_y, FOOD_SIZE as int) as i64,
        },
        size: Size { width: FOOD_SIZE, height: FOOD_SIZE },
    }
}

/// Places the food for a draw.
pub fn place_food(doubled_x: i64, doubled_y: i64) -> (food: Food)
    ensures
        food == placed_food(doubled_x as int, doubled_y as int),
{
    Food {
        position: Position {
            x: snap_to_grid(doubled_x, FOOD_SIZE),
            y: snap_to_grid(doubled_y, FOOD_SIZE),
        },
        size: Size::square(FOOD_SIZE),
    }
}

/// The bound of the draw along an axis on which the window measures `extent`: draws
/// are made, in half units, from `-draw_bound(extent)` up to, but not including,
/// `draw_bound(extent)`. In whole units that is half the window less one cell.
pub open spec fn draw_bound(extent: u32) -> int {
    extent - 2 * FOOD_SIZE
}

/// Draws a whole number from `low` up to, but not including, `high`, by
/// `rand::Rng::gen_range` on the generator that `rand::thread_rng` returns. This is
/// believed, not proved. The number is left open but for the range it lies in, and two
/// draws from one range may differ. `gen_range` panics where the range is empty, which
/// the precondition excludes; `thread_rng` panics where the system gives it no seed.
#[verifier::external_body]
fn random_in_range(low: i64, high: i64) -> (drawn: i64)
    requires
        low < high,
    ensures
        low <= drawn < high,
{
    rand::Rng::gen_range(&mut rand::thread_rng(), low, high)
}

/// Food that is placed for a draw within the bounds of a window lies on the grid and in
/// the field.
pub proof fn lemma_placed_food_in_field(window: Window, doubled_x: int, doubled_y: int)
    requires
        -draw_bound(window.width) <= doubled_x < draw_bound(window.width),
        -draw_bound(window.height) <= doubled_y < draw_bound(window.height),
    ensures
        on_grid(placed_food(doubled_x, doubled_y).position, FOOD_SIZE),
        in_field(
            window,
            placed_food(doubled_x, doubled_y).position,
            placed_food(doubled_x, doubled_y).size,
        ),
{
    lemma_snapped_is_nearest(doubled_x, FOOD_SIZE as int);
    lemma_snapped_is_nearest(doubled_y, FOOD_SIZE as int);
}

/// Puts food on the field where there is none: one food, at a random place on the grid
/// in the field.
pub fn spawn_food(window: &Window, foods: &mut Vec<Food>)
    requires
        old(foods)@.len() == 0 ==> window.width > 2 * FOOD_SIZE && window.height > 2 * FOOD_SIZE,
    ensures
        old(foods)@.len() > 0 ==> final(foods)@ == old(foods)@,
        old(foods)@.len() == 0 ==> exists|doubled_x: int, doubled_y: int|
            {
                &&& -draw_bound(window.width) <= doubled_x < draw_bound(window.width)
                &&& -draw_bound(window.height) <= doubled_y < draw_bound(window.height)
                &&& final(foods)@ == seq![#[trigger] placed_food(doubled_x, doubled_y)]
            },
        old(foods)@.len() == 0 ==> {
            &&& final(foods)@.len() == 1
            &&& on_grid(final(foods)@[0].position, FOOD_SIZE)
            &&& in_field(*window, final(foods)@[0].position, final(foods)@[0].size)
        },
{
    if foods.len() != 0 {
        return ;
    }
    let bound_x: i64 = window.width as i64 - 2 * (FOOD_SIZE as i64);
    let bound_y: i64 = window.height as i64 - 2 * (FOOD_SIZE as i64);
    let doubled_x = random_in_range(-bound_x, bound_x);
    let doubled_y = random_in_range(-bound_y, bound_y);
    foods.push(place_food(doubled_x, doubled_y));
    proof {
        lemma_placed_food_in_field(*window, doubled_x as int, doubled_y as int);
    }
    assert(foods@ =~= seq![placed_food(doubled_x as int, doubled_y as int)]);
}

// ---------------------------------------------------------------------------------------
// Consumption
// ---------------------------------------------------------------------------------------

/// Whether the one head touches the food that was added last.
pub open spec fn eats(heads: Seq<SnakeHead>, foods: Seq<Food>) -> bool {
    &&& heads.len() == 1
    &&& foods.len() > 0
    &&& overlaps(heads[0].position, heads[0].size, foods.last().position, foods.last().size)
}

/// What the search for a meal finds: whether the one head touches the food, or why
/// there is no one head to speak of.
pub open spec fn detected(heads: Seq<SnakeHead>, foods: Seq<Food>) -> Result<
    bool,
    QuerySingleError,
> {
    if heads.len() == 0 {
        Err(QuerySingleError::NoEntities)
    } else if heads.len() > 1 {
        Err(QuerySingleError::MultipleEntities)
    } else {
        Ok(eats(heads, foods))
    }
}

/// Raises the signal for every listener if the head touches the food, and tells whether
/// it did. That there is no head, or more than one, is an error, and nothing is raised.
pub fn detect_eat_collision(
    heads: &Vec<SnakeHead>,
    foods: &Vec<Food>,
    eat_collision_event: &mut EatCollisionEvents,
) -> (found: Result<bool, QuerySingleError>)
    ensures
        found == detected(heads@, foods@),
        eats(heads@, foods@) ==> {
            &&& final(eat_collision_event).growth@ == Some(EatCollisionEvent)
            &&& final(eat_collision_event).speed@ == Some(EatCollisionEvent)
            &&& final(eat_collision_event).food@ == Some(EatCollisionEvent)
        },
        !eats(heads@, foods@) ==> *final(eat_collision_event) == *old(eat_collision_event),
{
    if heads.len() == 0 {
        return Err(QuerySingleError::NoEntities);
    }
    if heads.len() > 1 {
        return Err(QuerySingleError::MultipleEntities);
    }
    let head = heads[0];
    let count = foods.len();
    if count > 0 {
        let food = foods[count - 1];
        if collide(head.position, head.size, food.position, food.size) {
            eat_collision_event.send_default();
            return Ok(true);
        }
    }
    Ok(false)
}

/// Removes all food if the head has touched it since the last call, and marks the signal
/// as read.
pub fn watch_for_eat(eat_collision_event: &mut Events<EatCollisionEvent>, foods: &mut Vec<Food>)
    ensures
        final(eat_collision_event)@ is None,
        old(eat_collision_event)@ is Some ==> final(foods)@ == Seq::<Food>::empty(),
        old(eat_collision_event)@ is None ==> final(foods)@ == old(foods)@,
{
    if !eat_collision_event.is_empty() {
        eat_collision_event.clear();
        foods.clear();
    }
}

} // verus!
