//! Directional controls, the vectors they add up to, and what a gamepad
//! contributes.

use vstd::prelude::*;

verus! {

/// One of the four directional controls.
#[derive(Debug, Clone, Copy, PartialEq, Eq, Hash, Structural)]
pub enum GameControl {
    Up,
    Down,
    Left,
    Right,
}

/// Press states of the four directional controls of one device, as sampled
/// for one tick.
#[derive(Debug, Clone, Copy, PartialEq, Eq, Hash, Structural)]
pub struct PressedControls {
    pub up: bool,
    pub down: bool,
    pub left: bool,
    pub right: bool,
}

/// A vector on the integer grid. The vectors that this crate produces have
/// both coordinates in `-1..=1`.
#[derive(Debug, Clone, Copy, PartialEq, Eq, Hash, Structural)]
pub struct Axes {
    pub x: i8,
    pub y: i8,
}

/// What the resolver reads of an analog stick. The reading itself stays with
/// the caller; these are the two comparisons that decide how it is used.
#[derive(Debug, Clone, Copy, PartialEq, Eq, Hash, Structural)]
pub struct StickReading {
    /// The length of the reading exceeds the dead zone.
    pub beyond_dead_zone: bool,
    /// The squared length of the reading exceeds the threshold.
    pub beyond_threshold: bool,
}

/// One tick's sample of the active gamepad.
#[derive(Debug, Clone, Copy, PartialEq, Eq, Hash, Structural)]
pub struct GamepadSample {
    /// The directional buttons.
    pub buttons: PressedControls,
    /// The analog stick.
    pub stick: StickReading,
}

/// The vector that a gamepad contributes in one tick.
#[derive(Debug, Clone, Copy, PartialEq, Eq, Hash, Structural)]
pub enum GamepadMovement {
    /// The analog stick's reading, which the caller holds.
    Stick {
        /// Whether the squared length of the reading exceeds the threshold.
        beyond_threshold: bool,
    },
    /// The sum of the held directional buttons.
    Buttons(Axes),
}

/// The squared length that a gamepad vector has to exceed to count as input
/// is `THRESHOLD_NUMERATOR / THRESHOLD_DENOMINATOR`, one tenth.
pub const THRESHOLD_NUMERATOR: i32 = 1;

/// See [`THRESHOLD_NUMERATOR`].
pub const THRESHOLD_DENOMINATOR: i32 = 10;

/// The length that an analog reading has to exceed to be used at all is
/// `DEAD_ZONE_NUMERATOR / DEAD_ZONE_DENOMINATOR`, one tenth.
pub const DEAD_ZONE_NUMERATOR: i32 = 1;

/// See [`DEAD_ZONE_NUMERATOR`].
pub const DEAD_ZONE_DENOMINATOR: i32 = 10;

impl GameControl {
    /// Whether this control is held in `input`.
    pub open spec fn held_in(self, input: PressedControls) -> bool {
        match self {
            GameControl::Up => input.up,
            GameControl::Down => input.down,
            GameControl::Left => input.left,
            GameControl::Right => input.right,
        }
    }

    /// Reads the press state of this control from `input`.
    pub fn pressed(&self, input: &PressedControls) -> (held: bool)
        ensures
            held == self.held_in(*input),
    {
        match self {
            GameControl::Up => input.up,
            GameControl::Down => input.down,
            GameControl::Left => input.left,
            GameControl::Right => input.right,
        }
    }
}

/// What one control adds along its direction: 1 while held, else 0.
pub open spec fn movement(control: GameControl, input: PressedControls) -> int {
    if control.held_in(input) {
        1
    } else {
        0
    }
}

/// The vector that the held controls add up to: right minus left, up minus
/// down.
pub open spec fn held_vector(input: PressedControls) -> (int, int) {
    (
        movement(GameControl::Right, input) - movement(GameControl::Left, input),
        movement(GameControl::Up, input) - movement(GameControl::Down, input),
    )
}

impl Axes {
    /// The vector with the given coordinates.
    pub open spec fn at(pair: (int, int)) -> Axes {
        Axes { x: pair.0 as i8, y: pair.1 as i8 }
    }

    /// The coordinates as mathematical integers.
    pub open spec fn pair(self) -> (int, int) {
        (self.x as int, self.y as int)
    }

    /// Both coordinates lie in `-1..=1`.
    pub open spec fn in_unit_square(self) -> bool {
        -1 <= self.x <= 1 && -1 <= self.y <= 1
    }

    /// The squared length of the vector.
    pub open spec fn length_squared(self) -> int {
        self.x * self.x + self.y * self.y
    }

    /// Whether this is the zero vector.
    pub fn is_zero(&self) -> (zero: bool)
        ensures
            zero == (self.pair() == (0int, 0int)),
    {
        self.x == 0 && self.y == 0
    }
}

/// What `control` adds along its direction in `input`: 1 while held, else 0.
pub fn get_movement(control: GameControl, input: &PressedControls) -> (amount: i8)
    ensures
        amount == movement(control, *input),
{
    if control.pressed(input) {
        1
    } else {
        0
    }
}

/// Adds up the held controls of one device: right minus left, up minus down.
/// Opposing controls cancel on their axis.
pub fn get_direction(input: &PressedControls) -> (held: Axes)
    ensures
        held.pair() == held_vector(*input),
        held == Axes::at(held_vector(*input)),
        held.in_unit_square(),
        input.left == input.right ==> held.x == 0,
        input.up == input.down ==> held.y == 0,
{
    Axes {
        x: get_movement(GameControl::Right, input) - get_movement(GameControl::Left, input),
        y: get_movement(GameControl::Up, input) - get_movement(GameControl::Down, input),
    }
}

/// The vector of a gamepad: the stick's reading while it is beyond the dead
/// zone, else the sum of the held directional buttons. Without a gamepad the
/// vector is zero.
pub open spec fn gamepad_vector(gamepad: Option<GamepadSample>) -> GamepadMovement {
    match gamepad {
        None => GamepadMovement::Buttons(Axes { x: 0, y: 0 }),
        Some(pad) => if pad.stick.beyond_dead_zone {
            GamepadMovement::Stick { beyond_threshold: pad.stick.beyond_threshold }
        } else {
            GamepadMovement::Buttons(Axes::at(held_vector(pad.buttons)))
        },
    }
}

/// The vector of the active gamepad, if there is one: the stick's reading
/// while it is beyond the dead zone, else the sum of the held directional
/// buttons. A missing gamepad counts as neutral input.
pub fn get_gamepad_movement(gamepad: &Option<GamepadSample>) -> (vector: GamepadMovement)
    ensures
        vector == gamepad_vector(*gamepad),
        gamepad is None ==> vector == GamepadMovement::Buttons(Axes { x: 0, y: 0 }),
        vector is Buttons ==> vector->Buttons_0.in_unit_square(),
{
    match gamepad {
        None => GamepadMovement::Buttons(Axes { x: 0, y: 0 }),
        Some(pad) => {
            if pad.stick.beyond_dead_zone {
                GamepadMovement::Stick { beyond_threshold: pad.stick.beyond_threshold }
            } else {
                GamepadMovement::Buttons(get_direction(&pad.buttons))
            }
        },
    }
}

impl GamepadMovement {
    /// Whether the squared length of the vector exceeds the threshold. For
    /// the button sum this is exact integer arithmetic; for the stick it is
    /// what the sample reported.
    pub open spec fn engaged(self) -> bool {
        match self {
            GamepadMovement::Stick { beyond_threshold } => beyond_threshold,
            GamepadMovement::Buttons(held) => THRESHOLD_DENOMINATOR * held.length_squared()
                > THRESHOLD_NUMERATOR,
        }
    }

    /// Tests the squared length of the vector against the threshold.
    pub fn exceeds_threshold(&self) -> (over: bool)
        ensures
            over == self.engaged(),
            self is Buttons ==> over == (self->Buttons_0.pair() != (0int, 0int)),
    {
        match self {
            GamepadMovement::Stick { beyond_threshold } => *beyond_threshold,
            GamepadMovement::Buttons(held) => {
                let x: i32 = held.x as i32;
                let y: i32 = held.y as i32;
                proof {
                    lemma_square_bounds(x as int);
                    lemma_square_bounds(y as int);
                }
                let length_squared: i32 = x * x + y * y;
                THRESHOLD_DENOMINATOR * length_squared > THRESHOLD_NUMERATOR
            },
        }
    }
}

/// The square of a coordinate is zero for zero and at least one otherwise,
/// and it stays small.
proof fn lemma_square_bounds(c: int)
    requires
        -128 <= c <= 127,
    ensures
        0 <= c * c <= 128 * 128,
        c * c >= 1 <==> c != 0,
{
    assert(0 <= c * c <= 128 * 128) by (nonlinear_arith)
        requires
            -128 <= c <= 127,
    ;
    assert(c * c >= 1 <==> c != 0) by (nonlinear_arith);
}

/// A vector of the unit square that is not zero has squared length 1 along
/// an axis and 2 on a diagonal: scaling it to unit length divides by 1 or by
/// the square root of 2, and never by zero.
pub proof fn lemma_length_of_held_vector(held: Axes)
    requires
        held.in_unit_square(),
        held.pair() != (0int, 0int),
    ensures
        held.length_squared() == 1 || held.length_squared() == 2,
        held.length_squared() == 1 <==> held.x == 0 || held.y == 0,
{
    let x: int = held.x as int;
    let y: int = held.y as int;
    assert(x * x == 1 <==> x != 0) by (nonlinear_arith)
        requires
            -1 <= x <= 1,
    ;
    assert(y * y == 1 <==> y != 0) by (nonlinear_arith)
        requires
            -1 <= y <= 1,
    ;
    lemma_square_bounds(x);
    lemma_square_bounds(y);
}

/// A sum of directional buttons exceeds the threshold exactly if it is not
/// the zero vector.
pub proof fn lemma_buttons_engaged(held: Axes)
    ensures
        GamepadMovement::Buttons(held).engaged() <==> held.pair() != (0int, 0int),
{
    lemma_square_bounds(held.x as int);
    lemma_square_bounds(held.y as int);
}

} // verus!
