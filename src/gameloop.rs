//! Runs a heat: every car against one track, in lock-step, until none races.
use vstd::prelude::*;
use crate::car::{
    accel_for, heading_change, lemma_step_bounds, racing_outcome, turn_for, Car, CarState,
    PhysicsConstants, MAX_STEP, MAX_TICK,
};
use crate::car_progress::CarProgress;
use crate::coordinates::Vec2d;
use crate::fixed_point::{lemma_tdiv_bound, SCALE};
use crate::input::{InputProvider, KeyInput};
use crate::track::{Track, TrackSection};

verus! {

/// One 240th of a second, to the nearest microsecond.
pub const TIME_PER_TICK: i64 = 4_167;

/// Longest race the driver simulates, in microseconds (a little over a day).
pub const MAX_RACE_TIME: i64 = 100_000_000_000;

/// Largest coordinate magnitude of a track section, in micrometres.
pub const TRACK_BOUND: i64 = 100_000_000_000_000;

/// Largest speed and heading magnitude a car may start a heat with.
pub const START_BOUND: i64 = 1_000_000_000_000;

/// The constants every heat is run with.
pub open spec fn default_physics() -> PhysicsConstants {
    PhysicsConstants {
        forward_acceleration_mss: 20_000_000,
        braking_acceleration_mss: 4_000_000,
        reverse_acceleration_mss: 500_000,
        max_forward_speed_ms: 50_000_000,
        max_reverse_speed_ms: 10_000_000,
        turn_rate_rs: 1_600_000,
    }
}

/// The car is still in the race: on the start line or racing.
pub open spec fn active(car: Car) -> bool {
    car.state == CarState::Racing || car.state == CarState::StartLine
}

pub open spec fn any_active(cars: Seq<Car>) -> bool {
    exists|j: int| 0 <= j < cars.len() && active(#[trigger] cars[j])
}

/// Bookkeeping of every car when the heat begins.
pub open spec fn starting_progress(n: nat) -> Seq<CarProgress> {
    Seq::new(
        n,
        |j: int| CarProgress { ticks: 0, start_time: 0, end_time: None, state: CarState::StartLine },
    )
}

/// One car's tick at `time`: it moves under `input`, then its state is checked.
pub open spec fn car_tick(
    car: Car,
    progress: CarProgress,
    input: KeyInput,
    track: Track,
    dt: int,
    time: int,
) -> (Car, CarProgress) {
    car.moved(default_physics(), dt, Some(input)).checked(track, progress, time)
}

/// Every car's tick at `time`.
pub open spec fn race_tick(
    cars: Seq<Car>,
    progress: Seq<CarProgress>,
    inputs: Seq<KeyInput>,
    track: Track,
    dt: int,
    time: int,
) -> (Seq<Car>, Seq<CarProgress>) {
    (
        Seq::new(cars.len(), |j: int| car_tick(cars[j], progress[j], inputs[j], track, dt, time).0),
        Seq::new(cars.len(), |j: int| car_tick(cars[j], progress[j], inputs[j], track, dt, time).1),
    )
}

/// The cars and their bookkeeping after `n` lock-step ticks, the `k`-th of
/// them at time `k * dt` under the intents `inputs(k)`, counted from zero.
pub open spec fn race_after(
    cars: Seq<Car>,
    progress: Seq<CarProgress>,
    inputs: spec_fn(nat) -> Seq<KeyInput>,
    track: Track,
    dt: int,
    n: nat,
) -> (Seq<Car>, Seq<CarProgress>)
    decreases n,
{
    if n == 0 {
        (cars, progress)
    } else {
        let prev = race_after(cars, progress, inputs, track, dt, (n - 1) as nat);
        race_tick(prev.0, prev.1, inputs((n - 1) as nat), track, dt, (n - 1) * dt)
    }
}

/// What each source hands out, tick by tick.
pub open spec fn intents_of<P: InputProvider>(inputs: Seq<P>) -> spec_fn(nat) -> Seq<KeyInput> {
    |k: nat| inputs.map_values(|p: P| p.intent(k))
}

/// A heat of `cars` after `n` ticks, from the bookkeeping of a heat that begins.
pub open spec fn heat(
    cars: Seq<Car>,
    inputs: spec_fn(nat) -> Seq<KeyInput>,
    track: Track,
    dt: int,
    n: nat,
) -> (Seq<Car>, Seq<CarProgress>) {
    race_after(cars, starting_progress(cars.len()), inputs, track, dt, n)
}

/// No tick leaves the `j`-th car anything but as it is: it has left the
/// race, or it waits on the start line and nothing is ever asked of it.
pub open spec fn parked(car: Car, inputs: spec_fn(nat) -> Seq<KeyInput>, j: int) -> bool {
    car.state.is_terminal() || (car.state == CarState::StartLine && forall|k: nat|
        (#[trigger] inputs(k))[j].empty())
}

/// A car that has finished, crashed or timed out is never moved again, and
/// neither its state nor its bookkeeping change, however many ticks follow.
/// Likewise a car on the start line that is given no input never starts
/// racing, is never checked against the track and never counts a tick.
pub proof fn lemma_parked_car_stays(
    cars: Seq<Car>,
    progress: Seq<CarProgress>,
    inputs: spec_fn(nat) -> Seq<KeyInput>,
    track: Track,
    dt: int,
    n: nat,
    j: int,
)
    requires
        0 <= j < cars.len(),
        parked(cars[j], inputs, j),
    ensures
        race_after(cars, progress, inputs, track, dt, n).0.len() == cars.len(),
        race_after(cars, progress, inputs, track, dt, n).0[j] == cars[j],
        race_after(cars, progress, inputs, track, dt, n).1[j] == progress[j],
    decreases n,
{
    if n > 0 {
        lemma_parked_car_stays(cars, progress, inputs, track, dt, (n - 1) as nat, j);
        assert(inputs((n - 1) as nat)[j].empty() || cars[j].state.is_terminal());
    }
}

/// Every section of the track lies within `TRACK_BOUND` of the origin.
pub open spec fn track_bounded(track: Track) -> bool {
    forall|i: int|
        0 <= i < track.sections@.len() ==> {
            let s = #[trigger] track.sections@[i];
            &&& -TRACK_BOUND <= s.left_x <= TRACK_BOUND
            &&& -TRACK_BOUND <= s.right_x <= TRACK_BOUND
            &&& -TRACK_BOUND <= s.top_y <= TRACK_BOUND
            &&& -TRACK_BOUND <= s.bottom_y <= TRACK_BOUND
        }
}

/// A car may start a heat: on the track's scale, with modest speed and heading.
pub open spec fn ready(car: Car) -> bool {
    &&& -TRACK_BOUND <= car.pos.x <= TRACK_BOUND
    &&& -TRACK_BOUND <= car.pos.y <= TRACK_BOUND
    &&& -START_BOUND <= car.velocity <= START_BOUND
    &&& -START_BOUND <= car.direction_radians <= START_BOUND
}

/// Bounds that hold of a car and its bookkeeping after `k` ticks, `time` microseconds in.
spec fn fits(car: Car, progress: CarProgress, k: int, time: int) -> bool {
    &&& active(car) ==> -TRACK_BOUND <= car.pos.x <= TRACK_BOUND && -TRACK_BOUND <= car.pos.y
        <= TRACK_BOUND
    &&& -(TRACK_BOUND + MAX_STEP) <= car.pos.x <= TRACK_BOUND + MAX_STEP
    &&& -(TRACK_BOUND + MAX_STEP) <= car.pos.y <= TRACK_BOUND + MAX_STEP
    &&& -(START_BOUND + 20 * time) <= car.velocity <= START_BOUND + 20 * time
    &&& -(START_BOUND + 2 * time) <= car.direction_radians <= START_BOUND + 2 * time
    &&& 0 <= progress.ticks <= k
    &&& progress.start_time == 0
}

proof fn lemma_inside_track_is_bounded(track: Track, p: Vec2d)
    requires
        track_bounded(track),
        track.contains(p),
    ensures
        -TRACK_BOUND <= p.x <= TRACK_BOUND,
        -TRACK_BOUND <= p.y <= TRACK_BOUND,
{
    let i = choose|i: int| 0 <= i < track.sections@.len() && #[trigger] track.sections@[i].contains(p);
    let s = track.sections@[i];
    assert(s.contains(p));
}

proof fn lemma_tick_fits(
    car: Car,
    progress: CarProgress,
    input: KeyInput,
    track: Track,
    dt: int,
    k: int,
    time: int,
)
    requires
        fits(car, progress, k, time),
        track_bounded(track),
        0 < dt <= MAX_TICK,
        0 <= k,
        0 <= time,
        time + dt <= MAX_RACE_TIME,
    ensures
        car.within_limits(),
        fits(
            car_tick(car, progress, input, track, dt, time).0,
            car_tick(car, progress, input, track, dt, time).1,
            k + 1,
            time + dt,
        ),
{
    let consts = default_physics();
    let some = Some(input);
    lemma_step_bounds(car, consts, dt, some);
    let a = accel_for(consts, car.velocity as int, some);
    assert(-20_000_000 * dt <= a * dt <= 20_000_000 * dt) by (nonlinear_arith)
        requires
            -20_000_000 <= a <= 20_000_000,
            0 < dt,
    ;
    lemma_tdiv_bound(a * dt, SCALE as int, 20_000_000 * dt);
    vstd::arithmetic::div_mod::lemma_div_by_multiple(20 * dt, SCALE as int);
    assert(20_000_000 * dt == (20 * dt) * SCALE);
    let t = turn_for(consts, some);
    assert(-1_600_000 * dt <= dt * t <= 1_600_000 * dt) by (nonlinear_arith)
        requires
            -1_600_000 <= t <= 1_600_000,
            0 < dt,
    ;
    lemma_tdiv_bound(dt * t, SCALE as int, 2_000_000 * dt);
    vstd::arithmetic::div_mod::lemma_div_by_multiple(2 * dt, SCALE as int);
    assert(2_000_000 * dt == (2 * dt) * SCALE);
    assert(-(2 * dt) <= heading_change(consts, dt, some) <= 2 * dt);
    let moved = car.moved(consts, dt, some);
    let next = moved.checked(track, progress, time);
    if moved.state == CarState::Racing {
        let state = racing_outcome(track, progress, moved.pos, time);
        if state == CarState::Racing {
            lemma_inside_track_is_bounded(track, moved.pos);
        }
    }
}

/// Runs every car against `track`, each with its own input source, one tick of
/// `time_per_tick_s` microseconds at a time, all cars in lock-step, until no car
/// is on the start line or racing, or `max_ticks` ticks have followed the first.
/// On tick `k`, counted from zero, each source is asked for its intent of tick `k`.
/// Returns each car's bookkeeping, in the order of `cars`.
#[verifier::rlimit(50)]
pub fn run_until<P: InputProvider>(
    cars: &mut Vec<Car>,
    inputs: &Vec<P>,
    track: &Track,
    time_per_tick_s: i64,
    max_ticks: u64,
) -> (r: Vec<CarProgress>)
    requires
        old(cars)@.len() == inputs@.len(),
        0 < time_per_tick_s <= MAX_TICK,
        (max_ticks + 1) * time_per_tick_s <= MAX_RACE_TIME,
        track_bounded(*track),
        forall|j: int| 0 <= j < old(cars)@.len() ==> ready(#[trigger] old(cars)@[j]),
    ensures
        exists|n: nat|
            {
                &&& 1 <= n <= max_ticks + 1
                &&& #[trigger] heat(
                    old(cars)@,
                    intents_of(inputs@),
                    *track,
                    time_per_tick_s as int,
                    n,
                ) == (final(cars)@, r@)
                &&& n == max_ticks + 1 || !any_active(final(cars)@)
                &&& forall|m: nat|
                    1 <= m < n ==> any_active(
                        #[trigger] heat(
                            old(cars)@,
                            intents_of(inputs@),
                            *track,
                            time_per_tick_s as int,
                            m,
                        ).0,
                    )
            },
{
    let ghost init_cars = cars@;
    let ghost intents = intents_of(inputs@);
    let ghost dt = time_per_tick_s as int;
    let n = cars.len();
    let mut progress: Vec<CarProgress> = Vec::new();
    let mut j: usize = 0;
    while j < n
        invariant
            j <= n,
            n == cars@.len(),
            progress@ == starting_progress(j as nat),
        decreases n - j,
    {
        progress.push(CarProgress::new(0));
        j += 1;
        assert(progress@ =~= starting_progress(j as nat));
    }
    let physics = PhysicsConstants::default();
    assert(physics == default_physics());
    assert(max_ticks + 1 <= MAX_RACE_TIME) by (nonlinear_arith)
        requires
            (max_ticks + 1) * time_per_tick_s <= MAX_RACE_TIME,
            time_per_tick_s >= 1,
    ;
    let mut ticks: u64 = 0;
    let mut time: i64 = 0;
    let mut running = true;
    while running
        invariant
            n == cars@.len(),
            n == inputs@.len(),
            n == init_cars.len(),
            intents == intents_of(inputs@),
            dt == time_per_tick_s,
            physics == default_physics(),
            0 < time_per_tick_s <= MAX_TICK,
            (max_ticks + 1) * time_per_tick_s <= MAX_RACE_TIME,
            max_ticks + 1 <= MAX_RACE_TIME,
            track_bounded(*track),
            ticks <= max_ticks + 1,
            time == ticks * dt,
            running ==> ticks <= max_ticks,
            (cars@, progress@) == heat(init_cars, intents, *track, dt, ticks as nat),
            forall|m: nat|
                1 <= m < ticks ==> any_active(#[trigger] heat(init_cars, intents, *track, dt, m).0),
            !running ==> 1 <= ticks && (ticks == max_ticks + 1 || !any_active(cars@)),
            running && 1 <= ticks ==> any_active(cars@),
            forall|i: int| 0 <= i < n ==> fits(#[trigger] cars@[i], progress@[i], ticks as int, time as int),
        decreases max_ticks + 1 - ticks,
    {
        assert((ticks + 1) * dt <= (max_ticks + 1) * dt && (ticks + 1) * dt == ticks * dt + dt)
            by (nonlinear_arith)
            requires
                ticks <= max_ticks,
                dt > 0,
        ;
        let ghost before_cars = cars@;
        let ghost before_progress = progress@;
        let ghost tick_intents = intents(ticks as nat);
        let mut still_racing = false;
        let mut i: usize = 0;
        while i < n
            invariant
                n == cars@.len(),
                n == progress@.len(),
                n == inputs@.len(),
                n == before_cars.len(),
                n == before_progress.len(),
                tick_intents == inputs@.map_values(|p: P| p.intent(ticks as nat)),
                dt == time_per_tick_s,
                physics == default_physics(),
                0 < time_per_tick_s <= MAX_TICK,
                track_bounded(*track),
                0 <= time,
                time + dt <= MAX_RACE_TIME,
                ticks <= max_ticks,
                max_ticks + 1 <= MAX_RACE_TIME,
                i <= n,
                forall|j: int|
                    0 <= j < i ==> (#[trigger] cars@[j], progress@[j]) == car_tick(
                        before_cars[j],
                        before_progress[j],
                        tick_intents[j],
                        *track,
                        dt,
                        time as int,
                    ),
                forall|j: int| i <= j < n ==> #[trigger] cars@[j] == before_cars[j],
                forall|j: int| i <= j < n ==> #[trigger] progress@[j] == before_progress[j],
                forall|j: int|
                    0 <= j < n ==> fits(#[trigger] before_cars[j], before_progress[j], ticks as int, time as int),
                forall|j: int|
                    0 <= j < i ==> fits(
                        #[trigger] cars@[j],
                        progress@[j],
                        ticks + 1,
                        time + dt,
                    ),
                still_racing == exists|j: int| 0 <= j < i && active(#[trigger] cars@[j]),
            decreases n - i,
        {
            let ghost start_cars = cars@;
            let ghost was_racing = still_racing;
            let mut car = Car::new(Vec2d::new(0, 0), "");
            cars.set_and_swap(i, &mut car);
            let mut car_progress = progress[i];
            let key_input = Some(inputs[i].get_input(ticks));
            proof {
                lemma_tick_fits(
                    before_cars[i as int],
                    before_progress[i as int],
                    tick_intents[i as int],
                    *track,
                    dt,
                    ticks as int,
                    time as int,
                );
            }
            let _change = car.update_position(&physics, time_per_tick_s, key_input);
            car.update_state(track, &mut car_progress, time);
            still_racing = still_racing || (car.state == CarState::Racing || car.state
                == CarState::StartLine);
            let ghost updated = car;
            cars.set_and_swap(i, &mut car);
            proof {
                assert(cars@ == start_cars.update(i as int, updated));
                assert(still_racing == (was_racing || active(updated)));
                if was_racing {
                    let w = choose|w: int| 0 <= w < i && active(#[trigger] start_cars[w]);
                    assert(cars@[w] == start_cars[w]);
                    assert(active(cars@[w]));
                } else if active(updated) {
                    assert(active(cars@[i as int]));
                } else {
                    assert forall|j: int| 0 <= j < i + 1 implies !active(#[trigger] cars@[j]) by {
                        if j < i {
                            assert(cars@[j] == start_cars[j]);
                        }
                    }
                }
            }
            progress.set(i, car_progress);
            i += 1;
        }
        proof {
            let next = race_tick(before_cars, before_progress, tick_intents, *track, dt, time as int);
            assert(cars@ =~= next.0);
            assert forall|j: int| 0 <= j < n implies progress@[j] == next.1[j] by {
                assert((cars@[j], progress@[j]) == car_tick(
                    before_cars[j],
                    before_progress[j],
                    tick_intents[j],
                    *track,
                    dt,
                    time as int,
                ));
            }
            assert(progress@ =~= next.1);
        }
        ticks += 1;
        time += time_per_tick_s;
        if !still_racing || ticks > max_ticks {
            running = false;
        }
    }
    assert(heat(init_cars, intents, *track, dt, ticks as nat) == (cars@, progress@));
    progress
}

} // verus!
