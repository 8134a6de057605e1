//! The whole game: every entity, timer and signal, and the order in which the systems
//! work on them in a frame.

use vstd::prelude::*;
use crate::events::Events;
use crate::food::{
    detect_eat_collision, detected, draw_bound, eats, lemma_placed_food_in_field, placed_food,
    spawn_food, watch_for_eat, EatCollisionEvent, EatCollisionEvents, Food, QuerySingleError,
    FOOD_SIZE,
};
use crate::snake::{
    aligned, bound, bounded_heads, can_grow, can_move, can_step_ahead, change_snake_direction,
    check_run_into_self_collision, connected, eat_and_speed_up, fresh_head, get_movement_speed,
    grow, grown, heads_fit, lemma_growth_keeps_connected, lemma_snake_stays_on_grid,
    lemma_step_keeps_connected, move_snake, moved_head, moved_tails, pause_game, reset_snake,
    runs_into_self, some_head_at_edge, spawn_snake, sped_up, steered, tick_timers, uniform,
    GameTimer, KeyboardInput, MovementSpeed, MovementTimer, ShouldRun, SnakeHead, Tail,
    FASTEST_MOVEMENT_SPEED, GAME_TIMER_PERIOD, INITIAL_MOVEMENT_SPEED, MOVEMENT_SPEED_STEP,
};
use crate::timer::{Timer, TimerView, NANOS_PER_MILLI};
use crate::utilities::{at_edge, on_grid, Position, Size, Window};
use crate::DeathCollisionEvent;

verus! {

/// How far from the origin a coordinate may lie for a frame to be computed: within this
/// limit no step of a frame leaves the range of `i64`.
pub const COORDINATE_LIMIT: i64 = 0x4000_0000_0000_0000;

/// The state of the game between two frames.
pub struct World {
    pub heads: Vec<SnakeHead>,
    pub tails: Vec<Tail>,
    pub foods: Vec<Food>,
    pub game_timer: GameTimer,
    pub movement_timer: MovementTimer,
    pub movement_speed: MovementSpeed,
    pub eat_collision_events: EatCollisionEvents,
    pub death_collision_events: Events<DeathCollisionEvent>,
}

/// The state of the game as plain values.
pub struct WorldView {
    pub heads: Seq<SnakeHead>,
    pub tails: Seq<Tail>,
    pub foods: Seq<Food>,
    pub game_timer: TimerView,
    pub movement_timer: TimerView,
    /// The time between two steps, in milliseconds.
    pub movement_speed: u32,
    /// The meal that the snake has not grown by yet.
    pub growth_event: Option<EatCollisionEvent>,
    /// The meal that the snake has not sped up by yet.
    pub speed_event: Option<EatCollisionEvent>,
    /// The meal whose food is still on the field.
    pub food_event: Option<EatCollisionEvent>,
    /// The death that the game has not been started anew for yet.
    pub death_event: Option<DeathCollisionEvent>,
}

impl View for World {
    type V = WorldView;

    open spec fn view(&self) -> WorldView {
        WorldView {
            heads: self.heads@,
            tails: self.tails@,
            foods: self.foods@,
            game_timer: self.game_timer.0@,
            movement_timer: self.movement_timer.0@,
            movement_speed: self.movement_speed.0,
            growth_event: self.eat_collision_events.growth@,
            speed_event: self.eat_collision_events.speed@,
            food_event: self.eat_collision_events.food@,
            death_event: self.death_collision_events@,
        }
    }
}

/// Whether both coordinates are within the limit.
pub open spec fn within_limit(position: Position) -> bool {
    &&& -COORDINATE_LIMIT <= position.x <= COORDINATE_LIMIT
    &&& -COORDINATE_LIMIT <= position.y <= COORDINATE_LIMIT
}

fn position_within_limit(position: Position) -> (within: bool)
    ensures
        within == within_limit(position),
{
    -COORDINATE_LIMIT <= position.x && position.x <= COORDINATE_LIMIT && -COORDINATE_LIMIT
        <= position.y && position.y <= COORDINATE_LIMIT
}

impl WorldView {
    /// The game as it starts: one fresh head, no tail, no food, nothing signalled, the
    /// timers running.
    pub open spec fn initial() -> WorldView {
        WorldView {
            heads: seq![fresh_head()],
            tails: Seq::empty(),
            foods: Seq::empty(),
            game_timer: TimerView::started((GAME_TIMER_PERIOD * NANOS_PER_MILLI) as nat),
            movement_timer: TimerView::started((INITIAL_MOVEMENT_SPEED * NANOS_PER_MILLI) as nat),
            movement_speed: INITIAL_MOVEMENT_SPEED,
            growth_event: None,
            speed_event: None,
            food_event: None,
            death_event: None,
        }
    }

    /// Whether the frame for the given keys and time can be computed in a window: where
    /// food has to be placed the window is wider and higher than two cells, no head is
    /// larger than the window, a snake that grows has exactly one head, and neither the
    /// place of the piece it grows by nor a place that its step leads to has a
    /// coordinate outside the range of `i64`.
    pub open spec fn updatable(
        self,
        window: Window,
        keyboard_input: KeyboardInput,
        delta: nat,
    ) -> bool {
        let ticked = self.after_input(keyboard_input).after_tick(delta);
        let fed = ticked.after_meal();
        &&& self.foods.len() == 0 ==> window.width > 2 * FOOD_SIZE && window.height > 2 * FOOD_SIZE
        &&& heads_fit(window, self.heads)
        &&& ticked.growth_event is Some ==> can_grow(ticked.heads, ticked.tails)
        &&& fed.steps() ==> can_move(fed.heads[0], fed.tails)
    }

    /// Whether every frame can be computed in a window, whatever the keys and the time:
    /// as for one frame, but with every unit of the snake within the limit of the
    /// coordinates.
    pub open spec fn within_limits(self, window: Window) -> bool {
        &&& self.foods.len() == 0 ==> window.width > 2 * FOOD_SIZE && window.height > 2 * FOOD_SIZE
        &&& heads_fit(window, self.heads)
        &&& self.growth_event is Some && self.heads.len() + self.tails.len() > 0
            ==> self.heads.len() == 1
        &&& forall|i: int|
            #![trigger self.heads[i]]
            0 <= i < self.heads.len() ==> within_limit(self.heads[i].position)
        &&& forall|i: int|
            #![trigger self.tails[i]]
            0 <= i < self.tails.len() ==> within_limit(self.tails[i].position)
    }

    /// What holds of the game from its start on, between any two frames: there is exactly
    /// one head and at most one food, which has the size of a cell; every unit of the snake
    /// has the common size, and the snake is in one piece; the snake and the food lie on
    /// the same grid; the time between two steps is the initial one less a number of
    /// steps, never below the fastest, and it is the period of the movement timer.
    pub open spec fn sound(self) -> bool {
        &&& self.heads.len() == 1
        &&& self.foods.len() <= 1
        &&& forall|i: int|
            #![trigger self.foods[i]]
            0 <= i < self.foods.len() ==> {
                &&& self.foods[i].size == (Size { width: FOOD_SIZE, height: FOOD_SIZE })
                &&& on_grid(self.foods[i].position, FOOD_SIZE)
            }
        &&& uniform(self.heads[0], self.tails)
        &&& connected(self.heads[0], self.tails)
        &&& aligned(self.heads[0], self.tails)
        &&& FASTEST_MOVEMENT_SPEED <= self.movement_speed <= INITIAL_MOVEMENT_SPEED
        &&& (INITIAL_MOVEMENT_SPEED - self.movement_speed) % (MOVEMENT_SPEED_STEP as int) == 0
        &&& self.movement_timer.duration == self.movement_speed * NANOS_PER_MILLI
    }

    /// First the keys are read: the head turns, and the space bar pauses the game or
    /// lets it run again.
    pub open spec fn after_input(self, keyboard_input: KeyboardInput) -> WorldView {
        WorldView {
            heads: if self.heads.len() == 1 {
                seq![
                    SnakeHead {
                        direction: steered(keyboard_input, self.heads[0].direction),
                        ..self.heads[0]
                    },
                ]
            } else {
                self.heads
            },
            game_timer: TimerView {
                paused: self.game_timer.paused != keyboard_input.space,
                ..self.game_timer
            },
            ..self
        }
    }

    /// Then `delta` nanoseconds pass on the timers.
    pub open spec fn after_tick(self, delta: nat) -> WorldView {
        WorldView {
            game_timer: self.game_timer.ticked(delta),
            movement_timer: self.movement_timer.ticked(delta),
            ..self
        }
    }

    /// Then `food` is put on a field without food.
    pub open spec fn after_spawn(self, food: Food) -> WorldView {
        WorldView {
            foods: if self.foods.len() == 0 {
                seq![food]
            } else {
                self.foods
            },
            ..self
        }
    }

    /// Then the snake grows and speeds up, if it has eaten in the frame before.
    pub open spec fn after_meal(self) -> WorldView {
        WorldView {
            tails: if self.growth_event is Some {
                grown(self.heads, self.tails)
            } else {
                self.tails
            },
            movement_speed: if self.speed_event is Some {
                sped_up(self.movement_speed)
            } else {
                self.movement_speed
            },
            movement_timer: if self.speed_event is Some && self.movement_speed
                > FASTEST_MOVEMENT_SPEED {
                TimerView::started((sped_up(self.movement_speed) * NANOS_PER_MILLI) as nat)
            } else {
                self.movement_timer
            },
            growth_event: None,
            speed_event: None,
            ..self
        }
    }

    /// Whether the snake takes a step in this frame: the movement timer has run out, the
    /// game is not paused, and there is exactly one head.
    pub open spec fn steps(self) -> bool {
        self.movement_timer.just_finished && !self.game_timer.paused && self.heads.len() == 1
    }

    /// Then the snake takes its step, if it is due.
    pub open spec fn after_step(self) -> WorldView {
        if self.steps() {
            WorldView {
                heads: seq![moved_head(self.heads[0])],
                tails: moved_tails(self.heads[0].direction, self.tails),
                ..self
            }
        } else {
            self
        }
    }

    /// Then the head is kept in the field, and death is signalled if it had reached the
    /// edge or touches the tail.
    pub open spec fn after_bounds(self, window: Window) -> WorldView {
        WorldView {
            heads: bounded_heads(window, self.heads),
            death_event: if some_head_at_edge(window, self.heads) || runs_into_self(
                bounded_heads(window, self.heads),
                self.tails,
            ) {
                Some(DeathCollisionEvent)
            } else {
                self.death_event
            },
            ..self
        }
    }

    /// Then a meal is signalled to every listener, if the head touches the food.
    pub open spec fn after_detection(self) -> WorldView {
        if eats(self.heads, self.foods) {
            WorldView {
                growth_event: Some(EatCollisionEvent),
                speed_event: Some(EatCollisionEvent),
                food_event: Some(EatCollisionEvent),
                ..self
            }
        } else {
            self
        }
    }

    /// At last the food of a meal is removed, and after a death the game starts anew.
    pub open spec fn after_cleanup(self) -> WorldView {
        let eaten = WorldView {
            foods: if self.food_event is Some {
                Seq::empty()
            } else {
                self.foods
            },
            food_event: None,
            ..self
        };
        if eaten.death_event is Some {
            WorldView {
                heads: seq![fresh_head()],
                tails: Seq::empty(),
                foods: Seq::empty(),
                movement_speed: INITIAL_MOVEMENT_SPEED,
                movement_timer: TimerView::started(
                    (INITIAL_MOVEMENT_SPEED * NANOS_PER_MILLI) as nat,
                ),
                death_event: None,
                ..eaten
            }
        } else {
            eaten
        }
    }

    /// The game at the point of a frame where the head is looked at for a meal.
    pub open spec fn before_detection(
        self,
        window: Window,
        keyboard_input: KeyboardInput,
        delta: nat,
        food: Food,
    ) -> WorldView {
        self.after_input(keyboard_input).after_tick(delta).after_spawn(
            food,
        ).after_meal().after_step().after_bounds(window)
    }

    /// The game after a frame in which `delta` nanoseconds have passed, and in which
    /// `food` is what is put on the field if there is none.
    pub open spec fn updated(
        self,
        window: Window,
        keyboard_input: KeyboardInput,
        delta: nat,
        food: Food,
    ) -> WorldView {
        self.before_detection(
            window,
            keyboard_input,
            delta,
            food,
        ).after_detection().after_cleanup()
    }
}

/// Within the limit of the coordinates a frame can be computed whatever the keys and the
/// time that has passed.
pub proof fn lemma_within_limits_updatable(
    world: WorldView,
    window: Window,
    keyboard_input: KeyboardInput,
    delta: nat,
)
    requires
        world.within_limits(window),
    ensures
        world.updatable(window, keyboard_input, delta),
{
    let ticked = world.after_input(keyboard_input).after_tick(delta);
    let fed = ticked.after_meal();
    assert(ticked.tails == world.tails);
    if ticked.growth_event is Some && ticked.heads.len() + ticked.tails.len() > 0 {
        assert(within_limit(world.heads[0].position));
        if world.tails.len() > 0 {
            assert(world.tails.last() == world.tails[world.tails.len() - 1]);
        }
    }
    if fed.steps() {
        assert(within_limit(world.heads[0].position));
        assert forall|i: int| 0 <= i < fed.tails.len() implies can_step_ahead(
            #[trigger] fed.tails[i].position,
            fed.tails[i].direction,
            fed.tails[i].size,
        ) by {
            if i < world.tails.len() {
                assert(fed.tails[i] == world.tails[i]);
            } else if world.tails.len() > 0 {
                assert(world.tails.last() == world.tails[world.tails.len() - 1]);
            }
        }
    }
}

/// The game is sound as it starts, and its frames can be computed in every window that is
/// wider and higher than two cells.
pub proof fn lemma_initial_sound(window: Window)
    requires
        window.width > 2 * FOOD_SIZE,
        window.height > 2 * FOOD_SIZE,
    ensures
        WorldView::initial().sound(),
        WorldView::initial().within_limits(window),
{
}

/// The snake of a sound game is still sound after the meal and the step of a frame, if
/// they are due.
proof fn lemma_meal_and_step_keep_sound(world: WorldView)
    requires
        world.sound(),
        world.growth_event is Some ==> can_grow(world.heads, world.tails),
        world.after_meal().steps() ==> can_move(
            world.after_meal().heads[0],
            world.after_meal().tails,
        ),
    ensures
        world.after_meal().sound(),
        world.after_meal().after_step().sound(),
{
    let head = world.heads[0];
    assert(world.heads =~= seq![head]);
    let fed = world.after_meal();
    if world.growth_event is Some {
        lemma_growth_keeps_connected(head, world.tails);
        lemma_snake_stays_on_grid(head, world.tails);
    }
    assert(fed.sound());
    if fed.steps() {
        lemma_step_keeps_connected(head, fed.tails);
        lemma_snake_stays_on_grid(head, fed.tails);
    }
}

/// A sound game is still sound after the end of a frame: where the head was moved back
/// into the field or touches the tail the game starts anew, and else the snake is as it
/// was.
proof fn lemma_bounds_and_cleanup_keep_sound(world: WorldView, window: Window)
    requires
        world.sound(),
    ensures
        world.after_bounds(window).after_detection().after_cleanup().sound(),
{
    let seen = world.after_bounds(window);
    if some_head_at_edge(window, world.heads) {
        assert(seen.death_event is Some);
    } else {
        assert(!at_edge(window, world.heads[0].position, world.heads[0].size));
        assert(seen.heads[0] == world.heads[0]);
    }
}

/// A frame keeps the game sound, whatever the keys, the time that has passed and the place
/// that was drawn for the food. In particular there is never more than one food, and never
/// another number of heads than one.
pub proof fn lemma_update_keeps_sound(
    world: WorldView,
    window: Window,
    keyboard_input: KeyboardInput,
    delta: nat,
    doubled_x: int,
    doubled_y: int,
)
    requires
        world.sound(),
        world.updatable(window, keyboard_input, delta),
        world.foods.len() == 0 ==> {
            &&& -draw_bound(window.width) <= doubled_x < draw_bound(window.width)
            &&& -draw_bound(window.height) <= doubled_y < draw_bound(window.height)
        },
    ensures
        world.updated(
            window,
            keyboard_input,
            delta,
            placed_food(doubled_x, doubled_y),
        ).sound(),
{
    let food = placed_food(doubled_x, doubled_y);
    if world.foods.len() == 0 {
        lemma_placed_food_in_field(window, doubled_x, doubled_y);
    }
    let spawned = world.after_input(keyboard_input).after_tick(delta).after_spawn(food);
    assert(spawned.sound()) by {
        assert(uniform(spawned.heads[0], spawned.tails));
        assert(connected(spawned.heads[0], spawned.tails));
        assert(aligned(spawned.heads[0], spawned.tails));
    }
    lemma_meal_and_step_keep_sound(spawned);
    lemma_bounds_and_cleanup_keep_sound(spawned.after_meal().after_step(), window);
}

impl World {
    /// The game as it starts.
    pub fn new() -> (world: World)
        ensures
            world@ == WorldView::initial(),
            world@.sound(),
    {
        let mut heads: Vec<SnakeHead> = Vec::new();
        spawn_snake(&mut heads);
        let world = World {
            heads,
            tails: Vec::new(),
            foods: Vec::new(),
            game_timer: GameTimer(Timer::from_millis(GAME_TIMER_PERIOD)),
            movement_timer: MovementTimer(Timer::from_millis(INITIAL_MOVEMENT_SPEED)),
            movement_speed: MovementSpeed(INITIAL_MOVEMENT_SPEED),
            eat_collision_events: EatCollisionEvents::new(),
            death_collision_events: Events::new(),
        };
        assert(world.heads@ =~= seq![fresh_head()]);
        world
    }

    /// Tells whether the next frame can be computed in a window whatever the keys and the
    /// time: whether the game is within the limits.
    pub fn can_update(&self, window: &Window) -> (yes: bool)
        ensures
            yes == self@.within_limits(*window),
            yes ==> forall|keyboard_input: KeyboardInput, delta: nat| #[trigger]
                self@.updatable(*window, keyboard_input, delta),
    {
        proof {
            if self@.within_limits(*window) {
                assert forall|keyboard_input: KeyboardInput, delta: nat| #[trigger]
                    self@.updatable(*window, keyboard_input, delta) by {
                    lemma_within_limits_updatable(self@, *window, keyboard_input, delta);
                }
            }
        }
        if self.foods.len() == 0 && !(window.width > 2 * FOOD_SIZE && window.height > 2
            * FOOD_SIZE) {
            return false;
        }
        if !self.eat_collision_events.growth.is_empty() && (self.heads.len() > 0
            || self.tails.len() > 0) && self.heads.len() != 1 {
            return false;
        }
        let head_count = self.heads.len();
        let mut h: usize = 0;
        while h < head_count
            invariant
                h <= head_count,
                head_count == self.heads@.len(),
                heads_fit(*window, self.heads@.take(h as int)),
                forall|i: int|
                    #![trigger self.heads@[i]]
                    0 <= i < h ==> within_limit(self.heads@[i].position),
            decreases head_count - h,
        {
            let head = self.heads[h];
            if head.size.width > window.width || head.size.height > window.height
                || !position_within_limit(head.position) {
                return false;
            }
            assert(self.heads@.take(h + 1) =~= self.heads@.take(h as int).push(head));
            h += 1;
        }
        assert(self.heads@.take(head_count as int) =~= self.heads@);
        let tail_count = self.tails.len();
        let mut t: usize = 0;
        while t < tail_count
            invariant
                t <= tail_count,
                tail_count == self.tails@.len(),
                forall|i: int|
                    #![trigger self.tails@[i]]
                    0 <= i < t ==> within_limit(self.tails@[i].position),
            decreases tail_count - t,
        {
            if !position_within_limit(self.tails[t].position) {
                return false;
            }
            t += 1;
        }
        true
    }

    /// Computes one frame: the systems run in their order on the state of the game. The
    /// result tells whether the head was found to touch the food, or why there was no one
    /// head to look at. Where food is put on the field, its place is drawn at random.
    pub fn update(&mut self, window: &Window, keyboard_input: &KeyboardInput, delta: u64) -> (found:
        Result<bool, QuerySingleError>)
        requires
            old(self)@.updatable(*window, *keyboard_input, delta as nat),
        ensures
            exists|doubled_x: int, doubled_y: int|
                {
                    let food = #[trigger] placed_food(doubled_x, doubled_y);
                    &&& old(self)@.foods.len() == 0 ==> {
                        &&& -draw_bound(window.width) <= doubled_x < draw_bound(window.width)
                        &&& -draw_bound(window.height) <= doubled_y < draw_bound(window.height)
                    }
                    &&& final(self)@ == old(self)@.updated(
                        *window,
                        *keyboard_input,
                        delta as nat,
                        food,
                    )
                    &&& found == ({
                        let seen = old(self)@.before_detection(
                            *window,
                            *keyboard_input,
                            delta as nat,
                            food,
                        );
                        detected(seen.heads, seen.foods)
                    })
                },
            old(self)@.sound() ==> final(self)@.sound(),
    {
        change_snake_direction(keyboard_input, &mut self.heads);
        pause_game(&mut self.game_timer, keyboard_input);
        tick_timers(delta, &mut self.game_timer, &mut self.movement_timer);
        let ghost ticked = self@;
        assert(ticked == old(self)@.after_input(*keyboard_input).after_tick(delta as nat));
        spawn_food(window, &mut self.foods);
        let ghost draw: (int, int) = if ticked.foods.len() == 0 {
            choose|doubled_x: int, doubled_y: int|
                {
                    &&& -draw_bound(window.width) <= doubled_x < draw_bound(window.width)
                    &&& -draw_bound(window.height) <= doubled_y < draw_bound(window.height)
                    &&& self.foods@ == seq![#[trigger] placed_food(doubled_x, doubled_y)]
                }
        } else {
            (0, 0)
        };
        let ghost food = placed_food(draw.0, draw.1);
        assert(self@ == ticked.after_spawn(food));
        grow(&mut self.eat_collision_events.growth, &self.heads, &mut self.tails);
        eat_and_speed_up(
            &mut self.eat_collision_events.speed,
            &mut self.movement_timer,
            &mut self.movement_speed,
        );
        let ghost fed = self@;
        assert(fed == ticked.after_spawn(food).after_meal());
        match get_movement_speed(&self.movement_timer) {
            ShouldRun::Yes => {
                move_snake(&self.game_timer, &mut self.heads, &mut self.tails);
            },
            ShouldRun::No => {},
        }
        let ghost stepped = self@;
        assert(stepped == fed.after_step());
        bound(window, &mut self.heads, &mut self.death_collision_events);
        check_run_into_self_collision(&mut self.death_collision_events, &self.heads, &self.tails);
        let ghost seen = self@;
        assert(seen == stepped.after_bounds(*window));
        let found = detect_eat_collision(&self.heads, &self.foods, &mut self.eat_collision_events);
        assert(self@ == seen.after_detection());
        watch_for_eat(&mut self.eat_collision_events.food, &mut self.foods);
        reset_snake(
            &mut self.death_collision_events,
            &mut self.heads,
            &mut self.tails,
            &mut self.foods,
            &mut self.movement_timer,
            &mut self.movement_speed,
        );
        assert(self@ == seen.after_detection().after_cleanup());
        proof {
            if old(self)@.sound() {
                lemma_update_keeps_sound(
                    old(self)@,
                    *window,
                    *keyboard_input,
                    delta as nat,
                    draw.0,
                    draw.1,
                );
            }
        }
        found
    }
}

} // verus!
