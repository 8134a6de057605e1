use snake::events::Events;
use snake::food::{EatCollisionEvent, Food};
use snake::snake::{
    bound, change_snake_direction, check_run_into_self_collision, eat_and_speed_up,
    get_movement_speed, grow, move_snake, pause_game, reset_snake, spawn_snake, step_ahead,
    step_behind, tick_timers, Direction, GameTimer, KeyboardInput, MovementSpeed, MovementTimer,
    ShouldRun, SnakeHead, Tail, FASTEST_MOVEMENT_SPEED, INITIAL_MOVEMENT_SPEED,
    MOVEMENT_SPEED_STEP, SNAKE_HEAD_SIZE,
};
use snake::timer::Timer;
use snake::utilities::{Position, Size, Window, RGB};
use snake::DeathCollisionEvent;

fn no_keys() -> KeyboardInput {
    KeyboardInput { left: false, right: false, down: false, up: false, space: false }
}

fn cell() -> Size {
    Size::square(50)
}

fn head_at(x: i64, y: i64, direction: Direction) -> SnakeHead {
    SnakeHead { direction, position: Position { x, y }, size: cell() }
}

fn tail_at(x: i64, y: i64, direction: Direction) -> Tail {
    Tail { direction, position: Position { x, y }, size: cell() }
}

fn running() -> GameTimer {
    GameTimer(Timer::from_millis(100))
}

fn window() -> Window {
    Window { width: 1000, height: 900 }
}

#[test]
fn square_has_equal_sides() {
    let size = Size::square(50);
    assert_eq!(size.width, 50);
    assert_eq!(size.height, 50);
    assert_eq!(Size::square(0), Size { width: 0, height: 0 });
}

#[test]
fn fresh_snake_is_one_head_at_the_origin_facing_down() {
    let mut heads = Vec::new();
    spawn_snake(&mut heads);
    assert_eq!(heads, vec![head_at(0, 0, Direction::Down)]);
    assert_eq!(heads[0].size, Size::square(SNAKE_HEAD_SIZE));
}

#[test]
fn head_facing_down_moves_one_cell_down_on_a_tick() {
    let mut heads = vec![head_at(0, 0, Direction::Down)];
    let mut tails: Vec<Tail> = Vec::new();
    move_snake(&running(), &mut heads, &mut tails);
    assert_eq!(heads, vec![head_at(0, -50, Direction::Down)]);
    assert!(tails.is_empty());
}

#[test]
fn each_direction_moves_by_the_units_own_size() {
    let size = Size { width: 30, height: 20 };
    let at = Position { x: 7, y: -3 };
    assert_eq!(step_ahead(at, Direction::Up, size), Position { x: 7, y: 17 });
    assert_eq!(step_ahead(at, Direction::Down, size), Position { x: 7, y: -23 });
    assert_eq!(step_ahead(at, Direction::Left, size), Position { x: -23, y: -3 });
    assert_eq!(step_ahead(at, Direction::Right, size), Position { x: 37, y: -3 });
    assert_eq!(step_behind(at, Direction::Up, size), Position { x: 7, y: -23 });
    assert_eq!(step_behind(at, Direction::Down, size), Position { x: 7, y: 17 });
    assert_eq!(step_behind(at, Direction::Left, size), Position { x: 37, y: -3 });
    assert_eq!(step_behind(at, Direction::Right, size), Position { x: -23, y: -3 });
}

#[test]
fn steps_reach_the_ends_of_the_coordinate_range() {
    let size = Size::square(1);
    let top = Position { x: 0, y: i64::MAX - 1 };
    assert_eq!(step_ahead(top, Direction::Up, size), Position { x: 0, y: i64::MAX });
    let left = Position { x: i64::MIN + 1, y: 0 };
    assert_eq!(step_ahead(left, Direction::Left, size), Position { x: i64::MIN, y: 0 });
}

#[test]
fn tail_takes_over_the_direction_of_the_unit_in_front() {
    let mut heads = vec![head_at(0, 0, Direction::Right)];
    let mut tails = vec![
        tail_at(0, 50, Direction::Down),
        tail_at(-50, 50, Direction::Right),
        tail_at(-50, 0, Direction::Up),
    ];
    move_snake(&running(), &mut heads, &mut tails);
    assert_eq!(heads, vec![head_at(50, 0, Direction::Right)]);
    assert_eq!(
        tails,
        vec![
            tail_at(0, 0, Direction::Right),
            tail_at(0, 50, Direction::Down),
            tail_at(-50, 50, Direction::Right),
        ]
    );
}

#[test]
fn directions_travel_down_the_tail_one_unit_per_tick() {
    let turns = [
        Direction::Right,
        Direction::Up,
        Direction::Up,
        Direction::Left,
        Direction::Down,
        Direction::Right,
    ];
    let mut heads = vec![head_at(0, 0, Direction::Down)];
    let mut tails = vec![
        tail_at(0, 50, Direction::Down),
        tail_at(0, 100, Direction::Down),
        tail_at(0, 150, Direction::Down),
    ];
    // went[t][u]: the way unit u went at tick t, the head being unit 0.
    let mut went: Vec<Vec<Direction>> = Vec::new();
    for turn in turns {
        heads[0].direction = turn;
        let mut now = vec![turn];
        for tail in &tails {
            now.push(tail.direction);
        }
        went.push(now);
        move_snake(&running(), &mut heads, &mut tails);
    }
    for t in 1..went.len() {
        for u in 1..=tails.len() {
            assert_eq!(went[t][u], went[t - 1][u - 1]);
        }
    }
    assert_eq!(heads[0].position, Position { x: 50, y: 50 });
    assert_eq!(tails[0].position, Position { x: 0, y: 50 });
    assert_eq!(tails[1].position, Position { x: 0, y: 100 });
    assert_eq!(tails[2].position, Position { x: 50, y: 100 });
}

#[test]
fn paused_game_does_not_move() {
    let mut timer = running();
    timer.0.pause();
    let mut heads = vec![head_at(0, 0, Direction::Down)];
    let mut tails = vec![tail_at(0, 50, Direction::Down)];
    move_snake(&timer, &mut heads, &mut tails);
    assert_eq!(heads, vec![head_at(0, 0, Direction::Down)]);
    assert_eq!(tails, vec![tail_at(0, 50, Direction::Down)]);
}

#[test]
fn nothing_moves_without_exactly_one_head() {
    let mut heads: Vec<SnakeHead> = Vec::new();
    let mut tails = vec![tail_at(0, 50, Direction::Down)];
    move_snake(&running(), &mut heads, &mut tails);
    assert!(heads.is_empty());
    assert_eq!(tails, vec![tail_at(0, 50, Direction::Down)]);

    let mut heads = vec![head_at(0, 0, Direction::Down), head_at(100, 0, Direction::Up)];
    move_snake(&running(), &mut heads, &mut tails);
    assert_eq!(heads, vec![head_at(0, 0, Direction::Down), head_at(100, 0, Direction::Up)]);
    assert_eq!(tails, vec![tail_at(0, 50, Direction::Down)]);
}

#[test]
fn first_growth_puts_a_piece_behind_the_head() {
    for (direction, x, y) in [
        (Direction::Up, 0, -50),
        (Direction::Down, 0, 50),
        (Direction::Left, 50, 0),
        (Direction::Right, -50, 0),
    ] {
        let heads = vec![head_at(0, 0, direction)];
        let mut tails: Vec<Tail> = Vec::new();
        let mut eaten = Events::new();
        eaten.send(EatCollisionEvent);
        grow(&mut eaten, &heads, &mut tails);
        assert_eq!(tails, vec![tail_at(x, y, direction)]);
        assert!(eaten.is_empty());
    }
}

#[test]
fn later_growth_puts_a_piece_behind_the_last_piece() {
    let heads = vec![head_at(0, 0, Direction::Up)];
    let mut tails = vec![tail_at(0, -50, Direction::Up), tail_at(-50, -50, Direction::Right)];
    let mut eaten = Events::new();
    eaten.send(EatCollisionEvent);
    grow(&mut eaten, &heads, &mut tails);
    assert_eq!(
        tails,
        vec![
            tail_at(0, -50, Direction::Up),
            tail_at(-50, -50, Direction::Right),
            tail_at(-100, -50, Direction::Right),
        ]
    );
}

#[test]
fn growth_measures_the_cell_by_the_unit_it_attaches_to() {
    let heads = vec![SnakeHead {
        direction: Direction::Left,
        position: Position { x: 10, y: 10 },
        size: Size { width: 30, height: 20 },
    }];
    let mut tails: Vec<Tail> = Vec::new();
    let mut eaten = Events::new();
    eaten.send(EatCollisionEvent);
    grow(&mut eaten, &heads, &mut tails);
    assert_eq!(
        tails,
        vec![Tail {
            direction: Direction::Left,
            position: Position { x: 40, y: 10 },
            size: Size::square(50),
        }]
    );
}

#[test]
fn one_meal_gives_one_piece_however_often_it_is_signalled_or_looked_for() {
    let heads = vec![head_at(0, 0, Direction::Down)];
    let mut tails: Vec<Tail> = Vec::new();
    let mut eaten = Events::new();
    eaten.send(EatCollisionEvent);
    eaten.send(EatCollisionEvent);
    eaten.send(EatCollisionEvent);
    grow(&mut eaten, &heads, &mut tails);
    assert_eq!(tails.len(), 1);
    for _ in 0..5 {
        grow(&mut eaten, &heads, &mut tails);
    }
    assert_eq!(tails, vec![tail_at(0, 50, Direction::Down)]);
    eaten.send(EatCollisionEvent);
    grow(&mut eaten, &heads, &mut tails);
    assert_eq!(tails, vec![tail_at(0, 50, Direction::Down), tail_at(0, 100, Direction::Down)]);
}

#[test]
fn nothing_grows_without_a_meal_or_without_a_snake() {
    let heads = vec![head_at(0, 0, Direction::Down)];
    let mut tails: Vec<Tail> = Vec::new();
    let mut eaten: Events<EatCollisionEvent> = Events::new();
    grow(&mut eaten, &heads, &mut tails);
    assert!(tails.is_empty());

    let nobody: Vec<SnakeHead> = Vec::new();
    eaten.send(EatCollisionEvent);
    grow(&mut eaten, &nobody, &mut tails);
    assert!(tails.is_empty());
    assert!(eaten.is_empty());
}

#[test]
fn arrow_keys_turn_the_head_where_it_stands() {
    let mut heads = vec![head_at(100, -50, Direction::Down)];
    change_snake_direction(&KeyboardInput { left: true, ..no_keys() }, &mut heads);
    assert_eq!(heads, vec![head_at(100, -50, Direction::Left)]);
    change_snake_direction(&KeyboardInput { right: true, ..no_keys() }, &mut heads);
    assert_eq!(heads, vec![head_at(100, -50, Direction::Right)]);
    change_snake_direction(&KeyboardInput { up: true, ..no_keys() }, &mut heads);
    assert_eq!(heads, vec![head_at(100, -50, Direction::Up)]);
    change_snake_direction(&KeyboardInput { down: true, ..no_keys() }, &mut heads);
    assert_eq!(heads, vec![head_at(100, -50, Direction::Down)]);
    change_snake_direction(&no_keys(), &mut heads);
    assert_eq!(heads, vec![head_at(100, -50, Direction::Down)]);
    change_snake_direction(&KeyboardInput { space: true, ..no_keys() }, &mut heads);
    assert_eq!(heads, vec![head_at(100, -50, Direction::Down)]);
}

#[test]
fn of_several_arrow_keys_up_wins_then_down_then_right() {
    let all = KeyboardInput { left: true, right: true, down: true, up: true, space: false };
    let mut heads = vec![head_at(0, 0, Direction::Left)];
    change_snake_direction(&all, &mut heads);
    assert_eq!(heads[0].direction, Direction::Up);
    change_snake_direction(&KeyboardInput { up: false, ..all }, &mut heads);
    assert_eq!(heads[0].direction, Direction::Down);
    change_snake_direction(&KeyboardInput { up: false, down: false, ..all }, &mut heads);
    assert_eq!(heads[0].direction, Direction::Right);
}

#[test]
fn keys_turn_nothing_without_exactly_one_head() {
    let mut heads = vec![head_at(0, 0, Direction::Down), head_at(100, 0, Direction::Down)];
    change_snake_direction(&KeyboardInput { up: true, ..no_keys() }, &mut heads);
    assert_eq!(heads, vec![head_at(0, 0, Direction::Down), head_at(100, 0, Direction::Down)]);
    let mut nobody: Vec<SnakeHead> = Vec::new();
    change_snake_direction(&KeyboardInput { up: true, ..no_keys() }, &mut nobody);
    assert!(nobody.is_empty());
}

#[test]
fn head_may_turn_back_onto_its_own_tail() {
    let mut heads = vec![head_at(0, 0, Direction::Down)];
    let mut tails = vec![tail_at(0, 50, Direction::Down), tail_at(0, 100, Direction::Down)];
    change_snake_direction(&KeyboardInput { up: true, ..no_keys() }, &mut heads);
    move_snake(&running(), &mut heads, &mut tails);
    assert_eq!(heads, vec![head_at(0, 50, Direction::Up)]);
    assert_eq!(tails, vec![tail_at(0, 0, Direction::Up), tail_at(0, 50, Direction::Down)]);
    let mut died = Events::new();
    check_run_into_self_collision(&mut died, &heads, &tails);
    assert!(!died.is_empty());
}

#[test]
fn head_that_turns_back_changes_places_with_a_single_tail_piece() {
    let mut heads = vec![head_at(0, 0, Direction::Down)];
    let mut tails = vec![tail_at(0, 50, Direction::Down)];
    change_snake_direction(&KeyboardInput { up: true, ..no_keys() }, &mut heads);
    move_snake(&running(), &mut heads, &mut tails);
    assert_eq!(heads, vec![head_at(0, 50, Direction::Up)]);
    assert_eq!(tails, vec![tail_at(0, 0, Direction::Up)]);
    let mut died: Events<DeathCollisionEvent> = Events::new();
    check_run_into_self_collision(&mut died, &heads, &tails);
    assert!(died.is_empty());
}

#[test]
fn space_bar_pauses_and_lets_run_again() {
    let mut timer = running();
    assert!(!timer.0.paused());
    pause_game(&mut timer, &no_keys());
    assert!(!timer.0.paused());
    pause_game(&mut timer, &KeyboardInput { space: true, ..no_keys() });
    assert!(timer.0.paused());
    pause_game(&mut timer, &KeyboardInput { up: true, ..no_keys() });
    assert!(timer.0.paused());
    pause_game(&mut timer, &KeyboardInput { space: true, ..no_keys() });
    assert!(!timer.0.paused());
}

#[test]
fn meal_shortens_the_time_between_steps_by_fifty_milliseconds() {
    let mut eaten = Events::new();
    let mut timer = MovementTimer(Timer::from_millis(500));
    let mut speed = MovementSpeed(500);
    timer.0.tick(123);
    eaten.send(EatCollisionEvent);
    eat_and_speed_up(&mut eaten, &mut timer, &mut speed);
    assert_eq!(speed, MovementSpeed(450));
    assert_eq!(timer.0.duration(), 450_000_000);
    assert_eq!(timer.0.elapsed(), 0);
    assert!(eaten.is_empty());
    eat_and_speed_up(&mut eaten, &mut timer, &mut speed);
    assert_eq!(speed, MovementSpeed(450));
}

#[test]
fn time_between_steps_stops_at_a_tenth_of_a_second() {
    let mut eaten = Events::new();
    let mut timer = MovementTimer(Timer::from_millis(INITIAL_MOVEMENT_SPEED));
    let mut speed = MovementSpeed(INITIAL_MOVEMENT_SPEED);
    let mut seen = Vec::new();
    for _ in 0..12 {
        eaten.send(EatCollisionEvent);
        eat_and_speed_up(&mut eaten, &mut timer, &mut speed);
        seen.push(speed.0);
    }
    assert_eq!(seen, vec![450, 400, 350, 300, 250, 200, 150, 100, 100, 100, 100, 100]);
    assert_eq!(timer.0.duration(), 100_000_000);
    assert_eq!(FASTEST_MOVEMENT_SPEED, 100);
    assert_eq!(MOVEMENT_SPEED_STEP, 50);
}

#[test]
fn time_between_steps_is_never_shortened_below_a_tenth_of_a_second() {
    for (before, after) in [
        (120, 100),
        (101, 100),
        (149, 100),
        (150, 100),
        (151, 101),
        (200, 150),
        (u32::MAX, u32::MAX - 50),
    ] {
        let mut eaten = Events::new();
        let mut timer = MovementTimer(Timer::from_millis(before));
        let mut speed = MovementSpeed(before);
        timer.0.tick(7);
        eaten.send(EatCollisionEvent);
        eaten.send(EatCollisionEvent);
        eat_and_speed_up(&mut eaten, &mut timer, &mut speed);
        assert_eq!(speed, MovementSpeed(after));
        assert_eq!(timer.0.duration(), after as u64 * 1_000_000);
        assert_eq!(timer.0.elapsed(), 0);
        assert!(eaten.is_empty());
    }
}

#[test]
fn time_from_a_hundred_and_twenty_milliseconds_goes_to_a_hundred_and_stays() {
    let mut eaten = Events::new();
    let mut timer = MovementTimer(Timer::from_millis(120));
    let mut speed = MovementSpeed(120);
    eaten.send(EatCollisionEvent);
    eat_and_speed_up(&mut eaten, &mut timer, &mut speed);
    assert_eq!(speed, MovementSpeed(100));
    assert_eq!(timer.0.duration(), 100_000_000);
    timer.0.tick(30_000_000);
    eaten.send(EatCollisionEvent);
    eat_and_speed_up(&mut eaten, &mut timer, &mut speed);
    assert_eq!(speed, MovementSpeed(100));
    assert_eq!(timer.0.duration(), 100_000_000);
    assert_eq!(timer.0.elapsed(), 30_000_000);
}

#[test]
fn time_at_or_below_the_fastest_is_left_as_it_is() {
    for before in [100, 99, 50, 1] {
        let mut eaten = Events::new();
        let mut timer = MovementTimer(Timer::from_millis(before));
        let mut speed = MovementSpeed(before);
        timer.0.tick(7);
        eaten.send(EatCollisionEvent);
        eat_and_speed_up(&mut eaten, &mut timer, &mut speed);
        assert_eq!(speed, MovementSpeed(before));
        assert_eq!(timer.0.duration(), before as u64 * 1_000_000);
        assert_eq!(timer.0.elapsed(), 7);
        assert!(eaten.is_empty());
    }
}

#[test]
fn timer_at_the_fastest_speed_is_left_running() {
    let mut eaten = Events::new();
    let mut timer = MovementTimer(Timer::from_millis(100));
    let mut speed = MovementSpeed(100);
    timer.0.tick(60_000_000);
    eaten.send(EatCollisionEvent);
    eat_and_speed_up(&mut eaten, &mut timer, &mut speed);
    assert_eq!(speed.0, 100);
    assert_eq!(timer.0.elapsed(), 60_000_000);
    assert!(eaten.is_empty());
}

#[test]
fn movement_is_due_when_the_timer_has_run_out() {
    let mut game = running();
    let mut movement = MovementTimer(Timer::from_millis(500));
    assert_eq!(get_movement_speed(&movement), ShouldRun::No);
    tick_timers(499_999_999, &mut game, &mut movement);
    assert_eq!(get_movement_speed(&movement), ShouldRun::No);
    tick_timers(1, &mut game, &mut movement);
    assert_eq!(get_movement_speed(&movement), ShouldRun::Yes);
    assert_eq!(movement.0.elapsed(), 0);
    assert_eq!(game.0.elapsed(), 0);
    tick_timers(1, &mut game, &mut movement);
    assert_eq!(get_movement_speed(&movement), ShouldRun::No);
}

#[test]
fn head_inside_the_field_is_left_alone() {
    for (x, y) in [(0, 0), (450, 400), (-450, -400), (474, 424), (-474, -424)] {
        let mut heads = vec![head_at(x, y, Direction::Up)];
        let mut died = Events::new();
        bound(&window(), &mut heads, &mut died);
        assert_eq!(heads, vec![head_at(x, y, Direction::Up)]);
        assert!(died.is_empty());
    }
}

#[test]
fn head_at_the_edge_dies_where_it_is() {
    for (x, y) in [(475, 0), (-475, 0), (0, 425), (0, -425), (475, -425)] {
        let mut heads = vec![head_at(x, y, Direction::Up)];
        let mut died = Events::new();
        bound(&window(), &mut heads, &mut died);
        assert_eq!(heads, vec![head_at(x, y, Direction::Up)]);
        assert!(!died.is_empty());
    }
}

#[test]
fn head_beyond_the_edge_is_put_back_and_dies() {
    for (x, y, back_x, back_y) in [
        (500, 0, 475, 0),
        (-500, 50, -475, 50),
        (100, 450, 100, 425),
        (-100, -450, -100, -425),
        (5000, -7000, 475, -425),
        (i64::MAX, i64::MIN, 475, -425),
    ] {
        let mut heads = vec![head_at(x, y, Direction::Left)];
        let mut died = Events::new();
        bound(&window(), &mut heads, &mut died);
        assert_eq!(heads, vec![head_at(back_x, back_y, Direction::Left)]);
        assert!(!died.is_empty());
    }
}

#[test]
fn bounded_head_lies_in_the_field_of_every_window() {
    for (width, height) in [(1000u32, 900u32), (1001, 901), (50, 50), (51, 60), (u32::MAX, 50)] {
        for (x, y) in [(0i64, 0i64), (1, -1), (600, 600), (-1, 26), (i64::MIN, i64::MAX)] {
            let win = Window { width, height };
            let mut heads = vec![head_at(x, y, Direction::Down)];
            let mut died = Events::new();
            bound(&win, &mut heads, &mut died);
            let at = heads[0].position;
            let reach_x = (width - 50) as i64;
            let reach_y = (height - 50) as i64;
            assert!(-reach_x <= 2 * at.x && 2 * at.x <= reach_x);
            assert!(-reach_y <= 2 * at.y && 2 * at.y <= reach_y);
        }
    }
}

#[test]
fn window_of_odd_width_has_its_edge_between_two_units() {
    let win = Window { width: 1001, height: 901 };
    let mut heads = vec![head_at(475, 425, Direction::Down)];
    let mut died = Events::new();
    bound(&win, &mut heads, &mut died);
    assert_eq!(heads, vec![head_at(475, 425, Direction::Down)]);
    assert!(died.is_empty());

    let mut heads = vec![head_at(476, 0, Direction::Down)];
    bound(&win, &mut heads, &mut died);
    assert_eq!(heads, vec![head_at(475, 0, Direction::Down)]);
    assert!(!died.is_empty());
}

#[test]
fn death_stays_signalled_until_it_is_read() {
    let mut died = Events::new();
    let mut heads = vec![head_at(500, 0, Direction::Right)];
    bound(&window(), &mut heads, &mut died);
    assert!(!died.is_empty());
    let mut heads = vec![head_at(0, 0, Direction::Right)];
    bound(&window(), &mut heads, &mut died);
    assert!(!died.is_empty());
}

#[test]
fn head_on_a_tail_piece_dies() {
    let heads = vec![head_at(0, 0, Direction::Up)];
    let tails = vec![tail_at(0, -50, Direction::Up), tail_at(50, -50, Direction::Left), tail_at(0, 0, Direction::Up)];
    let mut died = Events::new();
    check_run_into_self_collision(&mut died, &heads, &tails);
    assert!(!died.is_empty());
}

#[test]
fn head_beside_its_tail_lives() {
    let heads = vec![head_at(0, 0, Direction::Up)];
    let tails = vec![
        tail_at(0, -50, Direction::Up),
        tail_at(50, -50, Direction::Left),
        tail_at(50, 0, Direction::Down),
        tail_at(50, 50, Direction::Down),
    ];
    let mut died: Events<DeathCollisionEvent> = Events::new();
    check_run_into_self_collision(&mut died, &heads, &tails);
    assert!(died.is_empty());
    let nothing: Vec<Tail> = Vec::new();
    check_run_into_self_collision(&mut died, &heads, &nothing);
    assert!(died.is_empty());
}

#[test]
fn head_that_half_covers_a_tail_piece_dies() {
    let heads = vec![head_at(0, 0, Direction::Up)];
    let tails = vec![tail_at(49, 49, Direction::Up)];
    let mut died = Events::new();
    check_run_into_self_collision(&mut died, &heads, &tails);
    assert!(!died.is_empty());
}

#[test]
fn death_starts_the_game_anew() {
    let mut died = Events::new();
    let mut heads = vec![head_at(500, 0, Direction::Right)];
    let mut tails = vec![tail_at(450, 0, Direction::Right), tail_at(400, 0, Direction::Right)];
    let mut foods = vec![Food { position: Position { x: 100, y: 100 }, size: cell() }];
    let mut timer = MovementTimer(Timer::from_millis(300));
    let mut speed = MovementSpeed(300);
    timer.0.tick(100_000_000);
    bound(&window(), &mut heads, &mut died);
    assert!(!died.is_empty());
    reset_snake(&mut died, &mut heads, &mut tails, &mut foods, &mut timer, &mut speed);
    assert_eq!(heads, vec![head_at(0, 0, Direction::Down)]);
    assert!(tails.is_empty());
    assert!(foods.is_empty());
    assert_eq!(speed, MovementSpeed(INITIAL_MOVEMENT_SPEED));
    assert_eq!(timer.0.duration(), 500_000_000);
    assert_eq!(timer.0.elapsed(), 0);
    assert!(!timer.0.just_finished());
    assert!(died.is_empty());
}

#[test]
fn several_deaths_in_a_frame_start_the_game_anew_once() {
    let mut died = Events::new();
    let mut heads = vec![head_at(500, 0, Direction::Right)];
    let mut tails = vec![tail_at(475, 0, Direction::Right), tail_at(470, 0, Direction::Right)];
    let mut foods: Vec<Food> = Vec::new();
    let mut timer = MovementTimer(Timer::from_millis(300));
    let mut speed = MovementSpeed(300);
    bound(&window(), &mut heads, &mut died);
    check_run_into_self_collision(&mut died, &heads, &tails);
    reset_snake(&mut died, &mut heads, &mut tails, &mut foods, &mut timer, &mut speed);
    assert_eq!(heads.len(), 1);
    heads[0].direction = Direction::Left;
    speed = MovementSpeed(450);
    reset_snake(&mut died, &mut heads, &mut tails, &mut foods, &mut timer, &mut speed);
    assert_eq!(heads, vec![head_at(0, 0, Direction::Left)]);
    assert_eq!(speed, MovementSpeed(450));
}

#[test]
fn nothing_is_reset_while_the_snake_lives() {
    let mut died: Events<DeathCollisionEvent> = Events::new();
    let mut heads = vec![head_at(100, 0, Direction::Right)];
    let mut tails = vec![tail_at(50, 0, Direction::Right)];
    let mut foods = vec![Food { position: Position { x: 100, y: 100 }, size: cell() }];
    let mut timer = MovementTimer(Timer::from_millis(300));
    let mut speed = MovementSpeed(300);
    timer.0.tick(100_000_000);
    reset_snake(&mut died, &mut heads, &mut tails, &mut foods, &mut timer, &mut speed);
    assert_eq!(heads, vec![head_at(100, 0, Direction::Right)]);
    assert_eq!(tails, vec![tail_at(50, 0, Direction::Right)]);
    assert_eq!(foods.len(), 1);
    assert_eq!(speed, MovementSpeed(300));
    assert_eq!(timer.0.duration(), 300_000_000);
    assert_eq!(timer.0.elapsed(), 100_000_000);
}

#[test]
fn colours_keep_their_channels() {
    assert_eq!(RGB::new((204, 76, 32)), RGB { r: 204, g: 76, b: 32 });
    assert_eq!(RGB::new(snake::snake::SNAKE_COLOR), RGB { r: 204, g: 76, b: 32 });
    assert_eq!(RGB::new(snake::snake::TAIL_COLOR), RGB { r: 136, g: 50, b: 21 });
    assert_eq!(RGB::new(snake::food::FOOD_COLOR), RGB { r: 69, g: 167, b: 129 });
    assert_eq!(RGB::new((0, 255, 1000)), RGB { r: 0, g: 255, b: 1000 });
}
