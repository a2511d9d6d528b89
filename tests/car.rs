use driving_game_core::car::{Car, CarState, PhysicsConstants, TerminationCondition};
use driving_game_core::car_progress::CarProgress;
use driving_game_core::coordinates::{Boundary, Vec2d};
use driving_game_core::default_tracks::make_track;
use driving_game_core::input::{Accelerator, Direction, KeyInput};
use driving_game_core::track::{ParallelRectSection, Track};

const M: i64 = 1_000_000;
const DT: i64 = 4_167;

fn racing_car(velocity: i64) -> Car {
    let mut car = Car::new(Vec2d::new(0, 0), "test");
    car.state = CarState::Racing;
    car.velocity = velocity;
    car
}

fn accelerate() -> Option<KeyInput> {
    Some(KeyInput::new(Some(Accelerator::Accelerate), None))
}

#[test]
fn state_names() {
    assert_eq!(CarState::StartLine.to_string(), "StartLine");
    assert_eq!(CarState::Finished.to_string(), "Finished");
    assert_eq!(CarState::Racing.to_string(), "Racing");
    assert_eq!(CarState::Crashed.to_string(), "Crashed");
    assert_eq!(CarState::TimedOut.to_string(), "TimedOut");
    assert_eq!(CarState::default(), CarState::StartLine);
}

#[test]
fn default_physics_constants() {
    let p = PhysicsConstants::default();
    assert_eq!(p.forward_acceleration_mss, 20 * M);
    assert_eq!(p.braking_acceleration_mss, 4 * M);
    assert_eq!(p.reverse_acceleration_mss, M / 2);
    assert_eq!(p.max_forward_speed_ms, 50 * M);
    assert_eq!(p.max_reverse_speed_ms, 10 * M);
    assert_eq!(p.turn_rate_rs, 1_600_000);
}

#[test]
fn new_car_waits_at_start() {
    let car = Car::new(Vec2d::new(3, 4), "blue");
    assert_eq!(car.pos, Vec2d::new(3, 4));
    assert_eq!(car.previous_pos, Vec2d::new(3, 4));
    assert_eq!(car.velocity, 0);
    assert_eq!(car.direction_radians, 0);
    assert_eq!(car.state, CarState::StartLine);
    assert_eq!(car.label, "blue");
}

#[test]
fn reset_returns_to_start_from_any_state() {
    for state in [CarState::Racing, CarState::Finished, CarState::Crashed, CarState::TimedOut] {
        let mut car = racing_car(7 * M);
        car.pos = Vec2d::new(9, 9);
        car.direction_radians = 123;
        car.state = state;
        car.reset(Vec2d::new(1, 2));
        assert_eq!(car.pos, Vec2d::new(1, 2));
        assert_eq!(car.previous_pos, Vec2d::new(1, 2));
        assert_eq!(car.velocity, 0);
        assert_eq!(car.direction_radians, 0);
        assert_eq!(car.state, CarState::StartLine);
        assert_eq!(car.label, "test");
    }
}

#[test]
fn start_line_car_waits_for_input() {
    let consts = PhysicsConstants::default();
    let mut car = Car::new(Vec2d::new(0, 0), "idle");
    assert_eq!(car.update_position(&consts, DT, None), None);
    assert_eq!(car.state, CarState::StartLine);
    assert_eq!(car.update_position(&consts, DT, Some(KeyInput::default())), None);
    assert_eq!(car.state, CarState::StartLine);
    assert_eq!(car.pos, Vec2d::new(0, 0));
}

#[test]
fn first_tick_of_acceleration() {
    let consts = PhysicsConstants::default();
    let mut car = Car::new(Vec2d::new(0, 0), "go");
    let change = car.update_position(&consts, DT, accelerate());
    assert_eq!(car.state, CarState::Racing);
    assert_eq!(car.velocity, 83_340);
    // the displacement would pass the top speed, so the acceleration term is dropped
    assert_eq!(change, Some((0, 347, 0)));
    assert_eq!(car.pos, Vec2d::new(0, 347));
    assert_eq!(car.previous_pos, Vec2d::new(0, 0));
}

#[test]
fn coasting_keeps_speed_and_heading() {
    let consts = PhysicsConstants::default();
    let mut car = racing_car(10 * M);
    let change = car.update_position(&consts, DT, None);
    assert_eq!(car.velocity, 10 * M);
    assert_eq!(car.direction_radians, 0);
    assert_eq!(change, Some((0, 41_670, 0)));
    let change = car.update_position(&consts, DT, Some(KeyInput::default()));
    assert_eq!(car.velocity, 10 * M);
    assert_eq!(change, Some((0, 41_670, 0)));
    assert_eq!(car.pos, Vec2d::new(0, 83_340));
    assert_eq!(car.previous_pos, Vec2d::new(0, 41_670));
}

#[test]
fn steering_right_turns_clockwise() {
    let consts = PhysicsConstants::default();
    let mut car = racing_car(10 * M);
    let change = car.update_position(&consts, DT, Some(KeyInput::new(None, Some(Direction::Right))));
    assert_eq!(car.direction_radians, 6_667);
    // the returned heading change has its sign flipped
    assert_eq!(change, Some((282, 41_669, -6_667)));
}

#[test]
fn braking_while_moving_forward() {
    let consts = PhysicsConstants::default();
    let mut car = racing_car(10 * M);
    let input = Some(KeyInput::new(Some(Accelerator::Brake), Some(Direction::Left)));
    let change = car.update_position(&consts, DT, input);
    assert_eq!(car.velocity, 9_983_332);
    assert_eq!(car.direction_radians, -6_667);
    assert_eq!(change, Some((-56, 8_263, 6_667)));
}

#[test]
fn braking_at_rest_reverses() {
    let consts = PhysicsConstants::default();
    let mut car = racing_car(0);
    let change = car.update_position(&consts, DT, Some(KeyInput::new(Some(Accelerator::Brake), None)));
    assert_eq!(car.velocity, -2_083);
    assert_eq!(change, Some((0, -528, 0)));
}

#[test]
fn velocity_components() {
    let mut car = racing_car(10 * M);
    assert_eq!(car.x_velocity(), 0);
    assert_eq!(car.y_velocity(), 10 * M);
    car.direction_radians = 1_570_796;
    assert_eq!(car.x_velocity(), 10 * M);
}

#[test]
fn finished_crashed_and_timed_out_are_final() {
    let consts = PhysicsConstants::default();
    let track = make_track();
    for state in [CarState::Finished, CarState::Crashed, CarState::TimedOut] {
        let mut car = racing_car(5 * M);
        car.pos = Vec2d::new(0, 400 * M);
        car.state = state;
        let mut progress = CarProgress { ticks: 3, start_time: 0, end_time: Some(10), state };
        for tick in 0..5 {
            assert_eq!(car.update_position(&consts, DT, accelerate()), None);
            car.update_state(&track, &mut progress, 20 + tick);
            assert_eq!(car.state, state);
            assert_eq!(car.pos, Vec2d::new(0, 400 * M));
            assert_eq!(progress, CarProgress { ticks: 3, start_time: 0, end_time: Some(10), state });
        }
    }
}

#[test]
fn state_check_order() {
    let track = make_track();
    // off the track
    let mut car = racing_car(0);
    car.pos = Vec2d::new(60 * M, 0);
    let mut progress = CarProgress::new(0);
    car.update_state(&track, &mut progress, 100);
    assert_eq!(car.state, CarState::Crashed);
    assert_eq!(progress.end_time, Some(100));
    assert_eq!(progress.state, CarState::Crashed);
    assert_eq!(progress.ticks, 0);
    // past the finish, but still on the track
    let mut car = racing_car(0);
    car.pos = Vec2d::new(0, 360 * M);
    let mut progress = CarProgress::new(0);
    car.update_state(&track, &mut progress, 200);
    assert_eq!(car.state, CarState::Finished);
    assert_eq!(progress.end_time, Some(200));
    // past the finish and over time: finishing wins
    let mut progress = CarProgress::new(0);
    let mut car = racing_car(0);
    car.pos = Vec2d::new(0, 360 * M);
    car.update_state(&track, &mut progress, 31 * M);
    assert_eq!(car.state, CarState::Finished);
    // over time
    let mut car = racing_car(0);
    let mut progress = CarProgress::new(M);
    car.update_state(&track, &mut progress, 31 * M + 1);
    assert_eq!(car.state, CarState::TimedOut);
    assert_eq!(progress.end_time, Some(31 * M + 1));
    assert_eq!(progress.state, CarState::TimedOut);
    // still racing
    let mut car = racing_car(0);
    let mut progress = CarProgress::new(M);
    car.update_state(&track, &mut progress, 31 * M);
    assert_eq!(car.state, CarState::Racing);
    assert_eq!(progress.ticks, 1);
    assert_eq!(progress.end_time, None);
    assert_eq!(progress.state, CarState::Racing);
}

#[test]
fn tick_count_termination() {
    let track = Track {
        start: Vec2d::new(0, 0),
        finish_line: Boundary::horizontal(350 * M, true),
        sections: vec![ParallelRectSection { left_x: -M, right_x: M, top_y: 400 * M, bottom_y: -M }],
        termination_condition: TerminationCondition::Ticks(2),
    };
    let mut car = racing_car(0);
    let mut progress = CarProgress::new(0);
    for t in 0..3 {
        car.update_state(&track, &mut progress, t);
        assert_eq!(car.state, CarState::Racing);
    }
    assert_eq!(progress.ticks, 3);
    car.update_state(&track, &mut progress, 3);
    assert_eq!(car.state, CarState::TimedOut);
    assert_eq!(progress.ticks, 3);
}

#[test]
fn start_line_car_is_not_checked() {
    let track = make_track();
    let mut car = Car::new(Vec2d::new(500 * M, 0), "outside");
    let mut progress = CarProgress::new(0);
    car.update_state(&track, &mut progress, 40 * M);
    assert_eq!(car.state, CarState::StartLine);
    assert_eq!(progress, CarProgress::new(0));
}

#[test]
fn progress_starts_empty() {
    let p = CarProgress::new(42);
    assert_eq!(p.ticks, 0);
    assert_eq!(p.start_time, 42);
    assert_eq!(p.end_time, None);
    assert_eq!(p.state, CarState::StartLine);
}
