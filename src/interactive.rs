//! The decisions of a single-player game driven one frame at a time from the
//! keyboard. The host polls the keys and the clock, and draws the result.
use vstd::prelude::*;
use crate::car::{heading_change, Car, CarState, PhysicsConstants, MAX_TICK};
use crate::car_progress::CarProgress;
use crate::input::{Accelerator, Direction, KeyInput};
use crate::track::Track;

verus! {

/// The intent of the four arrow keys, or `None` where they ask for nothing.
pub open spec fn pressed_intent(up: bool, down: bool, left: bool, right: bool) -> Option<KeyInput> {
    let k = KeyInput {
        acceleration: if up == down {
            None
        } else if up {
            Some(Accelerator::Accelerate)
        } else {
            Some(Accelerator::Brake)
        },
        direction: if left == right {
            None
        } else if left {
            Some(Direction::Left)
        } else {
            Some(Direction::Right)
        },
    };
    if k.empty() {
        None
    } else {
        Some(k)
    }
}

/// One frame of driving at `now` microseconds, lasting `delta_time_s`: a car
/// on the start line starts racing, without moving yet, once a key asks for
/// something, and its race clock starts; a racing car moves under the keys.
/// Returns the move, as `Car::update_position` does, or `None`.
pub fn move_car(
    car: &mut Car,
    progress: &mut CarProgress,
    consts: &PhysicsConstants,
    delta_time_s: i64,
    now: i64,
    up: bool,
    down: bool,
    left: bool,
    right: bool,
) -> (r: Option<(i64, i64, i64)>)
    requires
        old(car).within_limits(),
        consts.valid(),
        0 < delta_time_s <= MAX_TICK,
    ensures
        ({
            let input = pressed_intent(up, down, left, right);
            let dt = delta_time_s as int;
            if old(car).state == CarState::StartLine && input is Some {
                &&& *final(car) == (Car { state: CarState::Racing, ..*old(car) })
                &&& *final(progress) == (CarProgress { start_time: now, ..*old(progress) })
                &&& r is None
            } else if old(car).state == CarState::Racing {
                &&& *final(car) == old(car).moved(*consts, dt, input)
                &&& *final(progress) == *old(progress)
                &&& r == Some(
                    (
                        old(car).step_dx(*consts, dt, input) as i64,
                        old(car).step_dy(*consts, dt, input) as i64,
                        -heading_change(*consts, dt, input) as i64,
                    ),
                )
            } else {
                &&& *final(car) == *old(car)
                &&& *final(progress) == *old(progress)
                &&& r is None
            }
        }),
{
    let acc = Accelerator::from_up_down(up, down);
    let dir = Direction::from_left_right(left, right);
    let key_input = if acc.is_some() || dir.is_some() {
        Some(KeyInput::new(acc, dir))
    } else {
        None
    };
    assert(key_input == pressed_intent(up, down, left, right));
    match car.state {
        CarState::StartLine => {
            if key_input.is_some() {
                car.state = CarState::Racing;
                progress.start_time = now;
            }
            None
        },
        CarState::Racing => car.update_position(consts, delta_time_s, key_input),
        _ => None,
    }
}

/// Puts the car back at the track's start and clears its bookkeeping.
pub fn reset_car(car: &mut Car, progress: &mut CarProgress, track: &Track)
    ensures
        final(car).pos == track.start,
        final(car).previous_pos == track.start,
        final(car).velocity == 0,
        final(car).direction_radians == 0,
        final(car).state == CarState::StartLine,
        final(car).label == old(car).label,
        *final(progress) == (CarProgress {
            ticks: 0,
            start_time: 0,
            end_time: None,
            state: CarState::StartLine,
        }),
{
    car.reset(track.start);
    *progress = CarProgress::new(0);
}

} // verus!
