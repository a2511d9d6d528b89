//! Per-tick driver intent, built from the four pressed-key booleans.
use vstd::prelude::*;

verus! {

/// Longitudinal intent.
#[derive(Debug, Copy, Clone, PartialEq, Eq, Structural)]
pub enum Accelerator {
    Accelerate,
    Brake,
}

impl Accelerator {
    /// Up accelerates, down brakes; both or neither give no intent.
    pub fn from_up_down(up_pressed: bool, down_pressed: bool) -> (r: Option<Accelerator>)
        ensures
            r == (if up_pressed == down_pressed {
                None
            } else if up_pressed {
                Some(Accelerator::Accelerate)
            } else {
                Some(Accelerator::Brake)
            }),
    {
        if up_pressed && down_pressed {
            None
        } else if up_pressed {
            Some(Accelerator::Accelerate)
        } else if down_pressed {
            Some(Accelerator::Brake)
        } else {
            None
        }
    }
}

/// Steering intent.
#[derive(Debug, Copy, Clone, PartialEq, Eq, Structural)]
pub enum Direction {
    Left,
    Right,
}

impl Direction {
    /// Left steers left, right steers right; both or neither give no intent.
    pub fn from_left_right(left_pressed: bool, right_pressed: bool) -> (r: Option<Direction>)
        ensures
            r == (if left_pressed == right_pressed {
                None
            } else if left_pressed {
                Some(Direction::Left)
            } else {
                Some(Direction::Right)
            }),
    {
        if left_pressed && right_pressed {
            None
        } else if left_pressed {
            Some(Direction::Left)
        } else if right_pressed {
            Some(Direction::Right)
        } else {
            None
        }
    }
}

/// What the driver asks of the car during one tick.
#[derive(Debug, Copy, Clone, PartialEq, Eq, Structural)]
pub struct KeyInput {
    pub acceleration: Option<Accelerator>,
    pub direction: Option<Direction>,
}

impl Default for KeyInput {
    fn default() -> (r: KeyInput)
        ensures
            r.acceleration is None,
            r.direction is None,
    {
        KeyInput { acceleration: None, direction: None }
    }
}

impl KeyInput {
    pub fn new(acceleration: Option<Accelerator>, direction: Option<Direction>) -> (r: KeyInput)
        ensures
            r.acceleration == acceleration,
            r.direction == direction,
    {
        KeyInput { acceleration, direction }
    }

    /// No intent on either axis.
    pub open spec fn empty(&self) -> bool {
        self.acceleration is None && self.direction is None
    }

    pub fn is_empty(&self) -> (r: bool)
        ensures
            r == self.empty(),
    {
        self.acceleration.is_none() && self.direction.is_none()
    }

    /// Builds the intent from the four pressed-key booleans.
    pub fn from_directions(up: bool, down: bool, left: bool, right: bool) -> (r: KeyInput)
        ensures
            r.acceleration == (if up == down {
                None
            } else if up {
                Some(Accelerator::Accelerate)
            } else {
                Some(Accelerator::Brake)
            }),
            r.direction == (if left == right {
                None
            } else if left {
                Some(Direction::Left)
            } else {
                Some(Direction::Right)
            }),
    {
        KeyInput::new(Accelerator::from_up_down(up, down), Direction::from_left_right(left, right))
    }
}

/// A source of one intent per car per tick.
pub trait InputProvider {
    /// The intent this source hands out on tick `tick`, counted from zero.
    spec fn intent(&self, tick: nat) -> KeyInput;

    fn get_input(&self, tick: u64) -> (r: KeyInput)
        ensures
            r == self.intent(tick as nat),
    ;
}

/// A source that hands out the same intent on every tick.
#[derive(Debug, Copy, Clone)]
pub struct SingleInput {
    pub input: KeyInput,
}

impl From<KeyInput> for SingleInput {
    fn from(value: KeyInput) -> (r: SingleInput) {
        SingleInput { input: value }
    }
}

impl vstd::std_specs::convert::FromSpecImpl<KeyInput> for SingleInput {
    open spec fn obeys_from_spec() -> bool {
        true
    }

    open spec fn from_spec(v: KeyInput) -> SingleInput {
        SingleInput { input: v }
    }
}

impl InputProvider for SingleInput {
    open spec fn intent(&self, tick: nat) -> KeyInput {
        self.input
    }

    fn get_input(&self, tick: u64) -> (r: KeyInput) {
        self.input
    }
}

/// A source that replays a recorded intent per tick, and asks for nothing
/// once the recording has run out.
#[derive(Debug, Clone)]
pub struct ReplayInput {
    pub inputs: Vec<KeyInput>,
}

impl InputProvider for ReplayInput {
    open spec fn intent(&self, tick: nat) -> KeyInput {
        if tick < self.inputs@.len() {
            self.inputs@[tick as int]
        } else {
            KeyInput { acceleration: None, direction: None }
        }
    }

    fn get_input(&self, tick: u64) -> (r: KeyInput) {
        if tick < self.inputs.len() as u64 {
            self.inputs[tick as usize]
        } else {
            KeyInput { acceleration: None, direction: None }
        }
    }
}

} // verus!
