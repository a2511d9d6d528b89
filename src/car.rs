//! The car: its kinematic state, the integration of one tick of motion and the
//! race state machine.
use vstd::prelude::*;
use crate::car_progress::CarProgress;
use crate::coordinates::Vec2d;
use crate::fixed_point::{
    cos_micro, cos_spec, lemma_cos_bounds, lemma_sin_bounds, lemma_tdiv_bound, sin_micro, sin_spec,
    tdiv, SCALE,
};
use crate::input::{Accelerator, Direction, KeyInput};
use crate::track::Track;

verus! {

/// Largest coordinate magnitude a car may stand at, in micrometres.
pub const MAX_COORD: i64 = 1_000_000_000_000_000;

/// Largest speed magnitude of a car, in micrometres per second.
pub const MAX_SPEED: i64 = 10_000_000_000_000;

/// Largest heading magnitude of a car, in microradians.
pub const MAX_HEADING: i64 = 1_000_000_000_000_000;

/// Largest value of a physics constant, in micro-units.
pub const MAX_RATE: i64 = 10_000_000_000;

/// Longest tick, in microseconds.
pub const MAX_TICK: i64 = 10_000_000;

/// Bound on how far a car within limits moves, on each axis, in one tick.
pub const MAX_STEP: i64 = 700_000_000_000_000;

/// Bound on how much one tick changes a car's speed or heading.
pub const MAX_NUDGE: i64 = 100_000_000_000;

#[derive(Copy, Clone, Debug, PartialEq, Eq, Structural)]
pub enum CarState {
    StartLine,
    Finished,
    Racing,
    Crashed,
    TimedOut,
}

impl Default for CarState {
    fn default() -> (r: CarState)
        ensures
            r == CarState::StartLine,
    {
        CarState::StartLine
    }
}

impl CarState {
    /// A state with no way out but a reset.
    pub open spec fn is_terminal(self) -> bool {
        self == CarState::Finished || self == CarState::Crashed || self == CarState::TimedOut
    }

    pub open spec fn name(self) -> Seq<char> {
        match self {
            CarState::StartLine => "StartLine"@,
            CarState::Finished => "Finished"@,
            CarState::Racing => "Racing"@,
            CarState::Crashed => "Crashed"@,
            CarState::TimedOut => "TimedOut"@,
        }
    }

    pub fn to_string(&self) -> (r: String)
        ensures
            r@ == self.name(),
    {
        match self {
            CarState::StartLine => "StartLine".to_owned(),
            CarState::Finished => "Finished".to_owned(),
            CarState::Racing => "Racing".to_owned(),
            CarState::Crashed => "Crashed".to_owned(),
            CarState::TimedOut => "TimedOut".to_owned(),
        }
    }
}

/// When a race that has gone on too long ends.
#[derive(Copy, Clone, Debug, PartialEq, Eq, Structural)]
pub enum TerminationCondition {
    /// After more than this many ticks of racing.
    Ticks(u64),
    /// After more than this many whole seconds of racing.
    Seconds(u32),
    /// After more than this many microseconds of racing.
    Microseconds(u64),
}

impl TerminationCondition {
    /// `elapsed` is in microseconds.
    pub open spec fn expired(self, ticks: int, elapsed: int) -> bool {
        match self {
            TerminationCondition::Ticks(max_ticks) => max_ticks < ticks,
            TerminationCondition::Seconds(max_s) => max_s * SCALE < elapsed,
            TerminationCondition::Microseconds(max_us) => max_us < elapsed,
        }
    }

    /// `time` is the racing time in microseconds.
    pub fn is_timed_out(&self, ticks: u64, time: i64) -> (r: bool)
        ensures
            r == self.expired(ticks as int, time as int),
    {
        match self {
            TerminationCondition::Ticks(max_ticks) => *max_ticks < ticks,
            TerminationCondition::Seconds(max_s) => (*max_s as i64) * SCALE < time,
            TerminationCondition::Microseconds(max_us) => (*max_us as i128) < (time as i128),
        }
    }
}

/// How the car responds to its driver, in micro-units: accelerations in
/// micrometres per second squared, speeds in micrometres per second and the
/// turn rate in microradians per second.
#[derive(Copy, Clone, Debug, PartialEq, Eq, Structural)]
pub struct PhysicsConstants {
    pub forward_acceleration_mss: i64,
    pub braking_acceleration_mss: i64,
    pub reverse_acceleration_mss: i64,
    pub max_forward_speed_ms: i64,
    pub max_reverse_speed_ms: i64,
    pub turn_rate_rs: i64,
}

impl Default for PhysicsConstants {
    fn default() -> (r: PhysicsConstants)
        ensures
            r.forward_acceleration_mss == 20_000_000,
            r.braking_acceleration_mss == 4_000_000,
            r.reverse_acceleration_mss == 500_000,
            r.max_forward_speed_ms == 50_000_000,
            r.max_reverse_speed_ms == 10_000_000,
            r.turn_rate_rs == 1_600_000,
    {
        PhysicsConstants {
            forward_acceleration_mss: 20_000_000,
            braking_acceleration_mss: 4_000_000,
            reverse_acceleration_mss: 500_000,
            max_forward_speed_ms: 50_000_000,
            max_reverse_speed_ms: 10_000_000,
            // roughly a quarter turn in one second
            turn_rate_rs: 1_600_000,
        }
    }
}

impl PhysicsConstants {
    /// Every constant lies in `[0, MAX_RATE]`.
    pub open spec fn valid(self) -> bool {
        0 <= self.forward_acceleration_mss <= MAX_RATE && 0 <= self.braking_acceleration_mss
            <= MAX_RATE && 0 <= self.reverse_acceleration_mss <= MAX_RATE && 0
            <= self.max_forward_speed_ms <= MAX_RATE && 0 <= self.max_reverse_speed_ms
            <= MAX_RATE && 0 <= self.turn_rate_rs <= MAX_RATE
    }
}

/// A car: where it is and was, which way it points (microradians from `+y`,
/// positive toward `+x`), its speed along that heading and its race state.
#[derive(Clone, Debug)]
pub struct Car {
    pub pos: Vec2d,
    pub previous_pos: Vec2d,
    pub direction_radians: i64,
    pub velocity: i64,
    pub state: CarState,
    pub label: String,
}

/// Longitudinal acceleration that the input asks of a car moving at `velocity`.
pub open spec fn accel_for(consts: PhysicsConstants, velocity: int, input: Option<KeyInput>) -> int {
    match input {
        None => 0,
        Some(k) => match k.acceleration {
            None => 0,
            Some(Accelerator::Accelerate) => consts.forward_acceleration_mss as int,
            Some(Accelerator::Brake) => if velocity > 0 {
                -consts.braking_acceleration_mss
            } else {
                -consts.reverse_acceleration_mss
            },
        },
    }
}

/// Turn rate that the input asks for: negative to the left.
pub open spec fn turn_for(consts: PhysicsConstants, input: Option<KeyInput>) -> int {
    match input {
        None => 0,
        Some(k) => match k.direction {
            None => 0,
            Some(Direction::Left) => -consts.turn_rate_rs,
            Some(Direction::Right) => consts.turn_rate_rs as int,
        },
    }
}

/// Distance covered along the heading during a tick of `dt` microseconds, at
/// the updated `velocity` under acceleration `accel`: `velocity · dt` plus an
/// acceleration term of half `dt · accel²`, which counts as negative unless
/// `accel > 0`. Where the sum would pass the top speed, the acceleration term
/// is dropped rather than the distance clamped.
pub open spec fn displacement(consts: PhysicsConstants, dt: int, velocity: int, accel: int) -> int {
    let sign: int = if accel > 0 {
        1
    } else {
        -1
    };
    let cruise = tdiv(velocity * dt, SCALE as int);
    let raw = cruise + sign * ((dt * accel * accel) / (2 * SCALE * SCALE));
    if raw > (consts.max_forward_speed_ms * dt) / (SCALE as int) {
        cruise
    } else {
        raw
    }
}

/// Heading change that the input asks for during a tick of `dt` microseconds.
pub open spec fn heading_change(consts: PhysicsConstants, dt: int, input: Option<KeyInput>) -> int {
    tdiv(dt * turn_for(consts, input), SCALE as int)
}

/// The state that a racing car at `pos` ends the tick in, at `now` microseconds:
/// off the track it crashes; past the finish it has finished; over time it has
/// timed out; else it races on.
pub open spec fn racing_outcome(track: Track, progress: CarProgress, pos: Vec2d, now: int) -> CarState {
    if !track.contains(pos) {
        CarState::Crashed
    } else if track.finished_at(pos) {
        CarState::Finished
    } else if track.termination_condition.expired(
        progress.ticks as int,
        now - progress.start_time,
    ) {
        CarState::TimedOut
    } else {
        CarState::Racing
    }
}

/// How a racing car's bookkeeping changes when the tick ends in `state`.
pub open spec fn progress_after(progress: CarProgress, state: CarState, now: int) -> CarProgress {
    if state == CarState::Racing {
        CarProgress { ticks: (progress.ticks + 1) as u64, state, ..progress }
    } else {
        CarProgress { end_time: Some(now as i64), state, ..progress }
    }
}

/// With no input, a racing car keeps its speed and heading, and still
/// coasts the distance its speed covers in the tick along that heading.
pub proof fn lemma_coasting_keeps_speed_and_heading(
    car: Car,
    consts: PhysicsConstants,
    dt: int,
    input: Option<KeyInput>,
)
    requires
        car.state == CarState::Racing,
        0 < dt,
        input is None || input->0.empty(),
    ensures
        car.moves(input),
        car.next_velocity(consts, dt, input) == car.velocity,
        car.next_heading(consts, dt, input) == car.direction_radians,
        car.tick_displacement(consts, dt, input) == tdiv(car.velocity * dt, SCALE as int),
        car.step_dx(consts, dt, input) == tdiv(
            tdiv(car.velocity * dt, SCALE as int) * sin_spec(car.direction_radians as int),
            SCALE as int,
        ),
        car.step_dy(consts, dt, input) == tdiv(
            tdiv(car.velocity * dt, SCALE as int) * cos_spec(car.direction_radians as int),
            SCALE as int,
        ),
{
    assert(accel_for(consts, car.velocity as int, input) == 0);
    assert(turn_for(consts, input) == 0);
    assert(dt * 0 == 0) by (nonlinear_arith);
    assert(0 * dt == 0) by (nonlinear_arith);
    assert((dt * 0 * 0) / (2 * SCALE * SCALE) == 0) by (nonlinear_arith);
}

/// A tick, motion then state check, leaves a car that has finished, crashed
/// or timed out exactly as it is, with its bookkeeping, whatever the input,
/// track and time; so does it a car on the start line that is given no input,
/// which is never checked against the track and never counts a tick.
pub proof fn lemma_tick_leaves_parked_car(
    car: Car,
    progress: CarProgress,
    consts: PhysicsConstants,
    dt: int,
    input: Option<KeyInput>,
    track: Track,
    now: int,
)
    requires
        car.state.is_terminal() || (car.state == CarState::StartLine && (input is None
            || input->0.empty())),
    ensures
        car.moved(consts, dt, input) == car,
        car.moved(consts, dt, input).checked(track, progress, now) == (car, progress),
{
}

/// How far one tick can take a car that is within limits.
pub proof fn lemma_step_bounds(car: Car, consts: PhysicsConstants, dt: int, input: Option<KeyInput>)
    requires
        car.within_limits(),
        consts.valid(),
        0 < dt <= MAX_TICK,
    ensures
        -MAX_NUDGE <= car.next_velocity(consts, dt, input) - car.velocity <= MAX_NUDGE,
        -MAX_NUDGE <= heading_change(consts, dt, input) <= MAX_NUDGE,
        -MAX_STEP < car.tick_displacement(consts, dt, input) < MAX_STEP,
        -MAX_STEP < car.step_dx(consts, dt, input) < MAX_STEP,
        -MAX_STEP < car.step_dy(consts, dt, input) < MAX_STEP,
        -101_000_000_000_000 <= tdiv(car.next_velocity(consts, dt, input) * dt, SCALE as int)
            <= 101_000_000_000_000,
        0 <= (dt * accel_for(consts, car.velocity as int, input) * accel_for(
            consts,
            car.velocity as int,
            input,
        )) / (2 * SCALE * SCALE) <= 500_000_000_000_000,
{
    let a = accel_for(consts, car.velocity as int, input);
    let t = turn_for(consts, input);
    let big: int = MAX_RATE * MAX_TICK;
    assert(-big <= a * dt <= big) by (nonlinear_arith)
        requires
            -MAX_RATE <= a <= MAX_RATE,
            0 < dt <= MAX_TICK,
            big == MAX_RATE * MAX_TICK,
    ;
    lemma_tdiv_bound(a * dt, SCALE as int, big);
    assert(-big <= dt * t <= big) by (nonlinear_arith)
        requires
            -MAX_RATE <= t <= MAX_RATE,
            0 < dt <= MAX_TICK,
            big == MAX_RATE * MAX_TICK,
    ;
    lemma_tdiv_bound(dt * t, SCALE as int, big);
    let v = car.next_velocity(consts, dt, input);
    let vb: int = (MAX_SPEED + MAX_NUDGE) * MAX_TICK;
    assert(-vb <= v * dt <= vb) by (nonlinear_arith)
        requires
            -(MAX_SPEED + MAX_NUDGE) <= v <= MAX_SPEED + MAX_NUDGE,
            0 < dt <= MAX_TICK,
            vb == (MAX_SPEED + MAX_NUDGE) * MAX_TICK,
    ;
    lemma_tdiv_bound(v * dt, SCALE as int, vb);
    let ab: int = MAX_TICK * MAX_RATE * MAX_RATE;
    assert(0 <= dt * a * a <= ab) by (nonlinear_arith)
        requires
            -MAX_RATE <= a <= MAX_RATE,
            0 < dt <= MAX_TICK,
            ab == MAX_TICK * MAX_RATE * MAX_RATE,
    ;
    vstd::arithmetic::div_mod::lemma_div_is_ordered(dt * a * a, ab, 2 * SCALE * SCALE);
    vstd::arithmetic::div_mod::lemma_div_is_ordered(0, dt * a * a, 2 * SCALE * SCALE);
    assert(ab == 1_000_000_000_000_000_000_000_000_000);
    let two_ss: int = 2 * SCALE * SCALE;
    assert(two_ss == 2_000_000_000_000);
    assert(ab == 500_000_000_000_000 * two_ss);
    vstd::arithmetic::div_mod::lemma_div_by_multiple(500_000_000_000_000, two_ss);
    assert(vb == 101_000_000_000_000 * SCALE);
    vstd::arithmetic::div_mod::lemma_div_by_multiple(101_000_000_000_000, SCALE as int);
    let q = (dt * a * a) / (2 * SCALE * SCALE);
    assert(0 <= q <= 500_000_000_000_000);
    assert(vb / (SCALE as int) == 101_000_000_000_000);
    let cruise = tdiv(v * dt, SCALE as int);
    assert(-101_000_000_000_000 <= cruise <= 101_000_000_000_000);
    let d = car.tick_displacement(consts, dt, input);
    let sign: int = if a > 0 {
        1
    } else {
        -1
    };
    assert(sign * q == q || sign * q == -q) by (nonlinear_arith)
        requires
            sign == 1 || sign == -1,
    ;
    let raw = cruise + sign * q;
    assert(-MAX_STEP < raw < MAX_STEP);
    assert(d == raw || d == cruise);
    assert(-MAX_STEP < d < MAX_STEP);
    let h = car.next_heading(consts, dt, input);
    lemma_sin_bounds(h);
    lemma_cos_bounds(h);
    let sb: int = MAX_STEP * SCALE;
    let s = sin_spec(h);
    let c = cos_spec(h);
    assert(-sb < d * s < sb || d * s == 0) by (nonlinear_arith)
        requires
            -MAX_STEP < d < MAX_STEP,
            -SCALE <= s <= SCALE,
            sb == MAX_STEP * SCALE,
    ;
    assert(-sb < d * c < sb || d * c == 0) by (nonlinear_arith)
        requires
            -MAX_STEP < d < MAX_STEP,
            -SCALE <= c <= SCALE,
            sb == MAX_STEP * SCALE,
    ;
    lemma_tdiv_bound(d * s, SCALE as int, sb - 1);
    lemma_tdiv_bound(d * c, SCALE as int, sb - 1);
}

impl Car {
    /// The tick moves the car: it is racing, or it waits on the start line and
    /// the driver asks for something.
    pub open spec fn moves(&self, input: Option<KeyInput>) -> bool {
        self.state == CarState::Racing || (self.state == CarState::StartLine && input is Some
            && !input->0.empty())
    }

    pub open spec fn next_velocity(&self, consts: PhysicsConstants, dt: int, input: Option<KeyInput>) -> int {
        self.velocity + tdiv(accel_for(consts, self.velocity as int, input) * dt, SCALE as int)
    }

    pub open spec fn next_heading(&self, consts: PhysicsConstants, dt: int, input: Option<KeyInput>) -> int {
        self.direction_radians + heading_change(consts, dt, input)
    }

    /// The car after one tick of motion.
    pub open spec fn moved(self, consts: PhysicsConstants, dt: int, input: Option<KeyInput>) -> Car {
        if self.moves(input) {
            Car {
                pos: Vec2d {
                    x: (self.pos.x + self.step_dx(consts, dt, input)) as i64,
                    y: (self.pos.y + self.step_dy(consts, dt, input)) as i64,
                },
                previous_pos: self.pos,
                direction_radians: self.next_heading(consts, dt, input) as i64,
                velocity: self.next_velocity(consts, dt, input) as i64,
                state: CarState::Racing,
                label: self.label,
            }
        } else {
            self
        }
    }

    /// The car and its bookkeeping after its race state is checked at `now`.
    pub open spec fn checked(self, track: Track, progress: CarProgress, now: int) -> (Car, CarProgress) {
        if self.state == CarState::Racing {
            let state = racing_outcome(track, progress, self.pos, now);
            (Car { state, ..self }, progress_after(progress, state, now))
        } else {
            (self, progress)
        }
    }

    /// Distance covered along the updated heading.
    pub open spec fn tick_displacement(&self, consts: PhysicsConstants, dt: int, input: Option<KeyInput>) -> int {
        displacement(
            consts,
            dt,
            self.next_velocity(consts, dt, input),
            accel_for(consts, self.velocity as int, input),
        )
    }

    pub open spec fn step_dx(&self, consts: PhysicsConstants, dt: int, input: Option<KeyInput>) -> int {
        tdiv(
            self.tick_displacement(consts, dt, input) * sin_spec(self.next_heading(consts, dt, input)),
            SCALE as int,
        )
    }

    pub open spec fn step_dy(&self, consts: PhysicsConstants, dt: int, input: Option<KeyInput>) -> int {
        tdiv(
            self.tick_displacement(consts, dt, input) * cos_spec(self.next_heading(consts, dt, input)),
            SCALE as int,
        )
    }

    /// The car's coordinates, speed and heading lie within the model's range.
    pub open spec fn within_limits(&self) -> bool {
        -MAX_COORD <= self.pos.x <= MAX_COORD && -MAX_COORD <= self.pos.y <= MAX_COORD
            && -MAX_SPEED <= self.velocity <= MAX_SPEED && -MAX_HEADING <= self.direction_radians
            <= MAX_HEADING
    }

    pub fn new(pos: Vec2d, label: &str) -> (r: Car)
        ensures
            r.pos == pos,
            r.previous_pos == pos,
            r.direction_radians == 0,
            r.velocity == 0,
            r.state == CarState::StartLine,
            r.label@ == label@,
    {
        Car {
            pos,
            previous_pos: pos,
            direction_radians: 0,
            velocity: 0,
            state: CarState::StartLine,
            label: label.to_owned(),
        }
    }

    /// Puts the car back on the start line at rest, pointing up.
    pub fn reset(&mut self, start_line: Vec2d)
        ensures
            final(self).pos == start_line,
            final(self).previous_pos == start_line,
            final(self).velocity == 0,
            final(self).direction_radians == 0,
            final(self).state == CarState::StartLine,
            final(self).label == old(self).label,
    {
        self.pos = start_line;
        self.previous_pos = start_line;
        self.velocity = 0;
        self.direction_radians = 0;
        self.state = CarState::StartLine;
    }

    /// Component of the velocity along `x`, in micrometres per second.
    pub fn x_velocity(&self) -> (r: i64)
        requires
            self.within_limits(),
        ensures
            r == tdiv(self.velocity * sin_spec(self.direction_radians as int), SCALE as int),
    {
        let s = sin_micro(self.direction_radians);
        let v = self.velocity as i128;
        assert(-MAX_SPEED * SCALE <= v * (s as i128) <= MAX_SPEED * SCALE) by (nonlinear_arith)
            requires
                -MAX_SPEED <= v <= MAX_SPEED,
                -SCALE <= s <= SCALE,
        ;
        (v * (s as i128) / (SCALE as i128)) as i64
    }

    /// Component of the velocity along `y`, in micrometres per second.
    pub fn y_velocity(&self) -> (r: i64)
        requires
            self.within_limits(),
        ensures
            r == tdiv(self.velocity * cos_spec(self.direction_radians as int), SCALE as int),
    {
        let c = cos_micro(self.direction_radians);
        let v = self.velocity as i128;
        assert(-MAX_SPEED * SCALE <= v * (c as i128) <= MAX_SPEED * SCALE) by (nonlinear_arith)
            requires
                -MAX_SPEED <= v <= MAX_SPEED,
                -SCALE <= c <= SCALE,
        ;
        (v * (c as i128) / (SCALE as i128)) as i64
    }

    /// Integrates one tick of `delta_time_s` microseconds. A car on the start
    /// line starts racing once the driver asks for something; a racing car
    /// accelerates, turns, then moves along its new heading. Returns the move
    /// and the heading change with its sign flipped, or `None` where the car
    /// does not move.
    pub fn update_position(
        &mut self,
        consts: &PhysicsConstants,
        delta_time_s: i64,
        key_input: Option<KeyInput>,
    ) -> (r: Option<(i64, i64, i64)>)
        requires
            old(self).within_limits(),
            consts.valid(),
            0 < delta_time_s <= MAX_TICK,
        ensures
            old(self).moves(key_input) ==> {
                let dt = delta_time_s as int;
                &&& final(self).state == CarState::Racing
                &&& final(self).velocity == old(self).next_velocity(*consts, dt, key_input)
                &&& final(self).direction_radians == old(self).next_heading(*consts, dt, key_input)
                &&& final(self).previous_pos == old(self).pos
                &&& final(self).pos.x == old(self).pos.x + old(self).step_dx(*consts, dt, key_input)
                &&& final(self).pos.y == old(self).pos.y + old(self).step_dy(*consts, dt, key_input)
                &&& final(self).label == old(self).label
                &&& r == Some(
                    (
                        old(self).step_dx(*consts, dt, key_input) as i64,
                        old(self).step_dy(*consts, dt, key_input) as i64,
                        -heading_change(*consts, dt, key_input) as i64,
                    ),
                )
            },
            !old(self).moves(key_input) ==> *final(self) == *old(self) && r is None,
            *final(self) == old(self).moved(*consts, delta_time_s as int, key_input),
    {
        proof {
            lemma_step_bounds(*old(self), *consts, delta_time_s as int, key_input);
        }
        let starts = match key_input {
            Some(k) => !k.is_empty(),
            None => false,
        };
        if starts && self.state == CarState::StartLine {
            self.state = CarState::Racing;
        }
        if self.state == CarState::Racing {
            let accel: i64 = match key_input {
                None => 0,
                Some(k) => match k.acceleration {
                    None => 0,
                    Some(Accelerator::Accelerate) => consts.forward_acceleration_mss,
                    Some(Accelerator::Brake) => {
                        if self.velocity > 0 {
                            -consts.braking_acceleration_mss
                        } else {
                            -consts.reverse_acceleration_mss
                        }
                    },
                },
            };
            let ghost a = accel_for(*consts, old(self).velocity as int, key_input);
            assert(accel == a);
            let scale = SCALE as i128;
            let dt = delta_time_s as i128;
            let a_wide = accel as i128;
            assert(-MAX_RATE * MAX_TICK <= a_wide * dt <= MAX_RATE * MAX_TICK) by (nonlinear_arith)
                requires
                    -MAX_RATE <= a_wide <= MAX_RATE,
                    0 < dt <= MAX_TICK,
            ;
            assert(dt * a_wide == a_wide * dt) by (nonlinear_arith);
            self.velocity = self.velocity + (a_wide * dt / scale) as i64;
            let v = self.velocity as i128;
            assert(-(MAX_SPEED + MAX_NUDGE) * MAX_TICK <= v * dt <= (MAX_SPEED + MAX_NUDGE)
                * MAX_TICK) by (nonlinear_arith)
                requires
                    -(MAX_SPEED + MAX_NUDGE) <= v <= MAX_SPEED + MAX_NUDGE,
                    0 < dt <= MAX_TICK,
            ;
            assert(0 <= dt * a_wide * a_wide <= MAX_TICK * MAX_RATE * MAX_RATE) by (nonlinear_arith)
                requires
                    -MAX_RATE <= a_wide <= MAX_RATE,
                    0 < dt <= MAX_TICK,
            ;
            // the acceleration term counts as braking unless the car accelerates
            let sign: i128 = if accel > 0 {
                1
            } else {
                -1
            };
            let cruise: i128 = v * dt / scale;
            let boost: i128 = dt * a_wide * a_wide / (2 * scale * scale);
            assert(-500_000_000_000_000 <= sign * boost <= 500_000_000_000_000) by (nonlinear_arith)
                requires
                    sign == 1 || sign == -1,
                    0 <= boost <= 500_000_000_000_000,
            ;
            let pos_change: i128 = cruise + sign * boost;
            assert(0 <= (consts.max_forward_speed_ms as i128) * dt <= MAX_RATE * MAX_TICK)
                by (nonlinear_arith)
                requires
                    0 <= consts.max_forward_speed_ms <= MAX_RATE,
                    0 < dt <= MAX_TICK,
            ;
            let capped_pos_change: i128 = if pos_change > (consts.max_forward_speed_ms as i128)
                * dt / scale {
                cruise
            } else {
                pos_change
            };
            assert(capped_pos_change == old(self).tick_displacement(
                *consts,
                delta_time_s as int,
                key_input,
            ));
            let direction_change: i64 = match key_input {
                None => 0,
                Some(k) => match k.direction {
                    None => 0,
                    Some(Direction::Left) => -consts.turn_rate_rs,
                    Some(Direction::Right) => consts.turn_rate_rs,
                },
            };
            let turn = direction_change as i128;
            assert(-MAX_RATE * MAX_TICK <= dt * turn <= MAX_RATE * MAX_TICK) by (nonlinear_arith)
                requires
                    -MAX_RATE <= turn <= MAX_RATE,
                    0 < dt <= MAX_TICK,
            ;
            let theta_change = (dt * turn / scale) as i64;
            self.direction_radians = self.direction_radians + theta_change;
            let s = sin_micro(self.direction_radians) as i128;
            let c = cos_micro(self.direction_radians) as i128;
            assert(-MAX_STEP * SCALE <= capped_pos_change * s <= MAX_STEP * SCALE) by (nonlinear_arith)
                requires
                    -MAX_STEP < capped_pos_change < MAX_STEP,
                    -SCALE <= s <= SCALE,
            ;
            assert(-MAX_STEP * SCALE <= capped_pos_change * c <= MAX_STEP * SCALE) by (nonlinear_arith)
                requires
                    -MAX_STEP < capped_pos_change < MAX_STEP,
                    -SCALE <= c <= SCALE,
            ;
            let x_change = (capped_pos_change * s / scale) as i64;
            let y_change = (capped_pos_change * c / scale) as i64;
            self.previous_pos = self.pos;
            self.pos.x = self.pos.x + x_change;
            self.pos.y = self.pos.y + y_change;
            Some((x_change, y_change, -theta_change))
        } else {
            None
        }
    }

    /// Checks where a racing car stands at `game_time_s` microseconds and
    /// moves it on in the race: off the track, past the finish, over time, or
    /// racing on for one more tick. Cars in any other state are left alone.
    pub fn update_state(&mut self, track: &Track, game_state: &mut CarProgress, game_time_s: i64)
        requires
            old(game_state).ticks < u64::MAX,
            i64::MIN <= game_time_s - old(game_state).start_time <= i64::MAX,
        ensures
            old(self).state == CarState::Racing ==> {
                let state = racing_outcome(*track, *old(game_state), old(self).pos, game_time_s as int);
                &&& final(self).state == state
                &&& final(self).pos == old(self).pos
                &&& final(self).previous_pos == old(self).previous_pos
                &&& final(self).direction_radians == old(self).direction_radians
                &&& final(self).velocity == old(self).velocity
                &&& final(self).label == old(self).label
                &&& *final(game_state) == progress_after(*old(game_state), state, game_time_s as int)
            },
            old(self).state != CarState::Racing ==> *final(self) == *old(self) && *final(game_state)
                == *old(game_state),
            (*final(self), *final(game_state)) == old(self).checked(
                *track,
                *old(game_state),
                game_time_s as int,
            ),
    {
        match self.state {
            CarState::Racing => {
                if track.is_within_track(&self.pos) {
                    if track.is_finished(&self.pos) {
                        game_state.end_time = Some(game_time_s);
                        self.state = CarState::Finished;
                    } else if track.termination_condition.is_timed_out(
                        game_state.ticks,
                        game_time_s - game_state.start_time,
                    ) {
                        self.state = CarState::TimedOut;
                        game_state.end_time = Some(game_time_s);
                    } else {
                        game_state.ticks += 1;
                        self.state = CarState::Racing;
                    }
                } else {
                    game_state.end_time = Some(game_time_s);
                    self.state = CarState::Crashed;
                }
                game_state.state = self.state;
            },
            _ => {},
        }
    }
}

} // verus!
