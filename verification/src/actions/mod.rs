//! Movement intent: which input vector drives the player this tick.
//!
//! The resolver works on press states and on two comparisons of the analog
//! stick's reading. It names the vector that wins; turning that vector into
//! one of unit length is left to the caller, who holds the analog reading.

pub mod game_control;

use crate::actions::game_control::{
    gamepad_vector, get_direction, get_gamepad_movement, held_vector, lemma_buttons_engaged, Axes,
    GamepadMovement, GamepadSample, PressedControls,
};
use vstd::prelude::*;

verus! {

/// Everything the resolver reads in one tick.
#[derive(Debug, Clone, Copy, PartialEq, Eq, Hash, Structural)]
pub struct RawInputSample {
    /// The directional keys of the keyboard.
    pub keyboard: PressedControls,
    /// The active gamepad, if one is connected.
    pub gamepad: Option<GamepadSample>,
}

/// The vector whose direction the player moves in. The movement intent is
/// this vector scaled to unit length.
#[derive(Debug, Clone, Copy, PartialEq, Eq, Hash, Structural)]
pub enum Heading {
    /// The sum of the held directional keys.
    Keyboard(Axes),
    /// The analog stick's reading, which the caller holds.
    GamepadStick,
    /// The sum of the held directional buttons of the gamepad.
    GamepadButtons(Axes),
}

/// The latest movement intent, for the systems that move the player.
#[derive(Debug, Clone, Copy, PartialEq, Eq, Hash, Structural)]
pub struct Actions {
    /// `None` while there is no input. A heading that is present is never
    /// the zero vector.
    pub player_movement: Option<Heading>,
}

impl Heading {
    /// The heading along a gamepad's vector.
    pub open spec fn of_gamepad(vector: GamepadMovement) -> Heading {
        match vector {
            GamepadMovement::Stick { .. } => Heading::GamepadStick,
            GamepadMovement::Buttons(held) => Heading::GamepadButtons(held),
        }
    }

    /// The heading along a gamepad's vector.
    pub fn from_gamepad(vector: GamepadMovement) -> (heading: Heading)
        ensures
            heading == Heading::of_gamepad(vector),
    {
        match vector {
            GamepadMovement::Stick { .. } => Heading::GamepadStick,
            GamepadMovement::Buttons(held) => Heading::GamepadButtons(held),
        }
    }

    /// A heading built from press states lies in the unit square and is not
    /// zero, so it can be scaled to unit length.
    pub open spec fn wf(self) -> bool {
        match self {
            Heading::Keyboard(held) | Heading::GamepadButtons(held) => {
                &&& held.in_unit_square()
                &&& held.pair() != (0int, 0int)
            },
            Heading::GamepadStick => true,
        }
    }
}

impl Actions {
    /// The heading, where there is one, is well formed.
    pub open spec fn wf(self) -> bool {
        self.player_movement matches Some(heading) ==> heading.wf()
    }
}

impl Default for Actions {
    /// No input yet.
    fn default() -> (actions: Self)
        ensures
            actions.player_movement is None,
            actions.wf(),
    {
        Actions { player_movement: None }
    }
}

/// The heading that a sample resolves to. The keyboard wins whenever its
/// vector is not zero. Else the gamepad's vector is taken if its squared
/// length exceeds the threshold. Else there is none.
pub open spec fn resolved(sample: RawInputSample) -> Option<Heading> {
    let keys = held_vector(sample.keyboard);
    let gamepad = gamepad_vector(sample.gamepad);
    if keys != (0int, 0int) {
        Some(Heading::Keyboard(Axes::at(keys)))
    } else if gamepad.engaged() {
        Some(Heading::of_gamepad(gamepad))
    } else {
        None
    }
}

/// There is a heading exactly if the keyboard's vector is not zero or the
/// gamepad's vector exceeds the threshold, and a heading that is there is
/// well formed.
pub proof fn lemma_resolved_heading(sample: RawInputSample)
    ensures
        resolved(sample) is Some <==> held_vector(sample.keyboard) != (0int, 0int)
            || gamepad_vector(sample.gamepad).engaged(),
        resolved(sample) matches Some(heading) ==> heading.wf(),
{
    if let GamepadMovement::Buttons(held) = gamepad_vector(sample.gamepad) {
        lemma_buttons_engaged(held);
    }
}

/// Resolves one tick's sample and publishes the result in `actions`.
pub fn set_movement_actions(actions: &mut Actions, sample: &RawInputSample)
    ensures
        final(actions).player_movement == resolved(*sample),
        final(actions).wf(),
        held_vector(sample.keyboard) != (0int, 0int) ==> {
            &&& final(actions).player_movement matches Some(Heading::Keyboard(held))
            &&& held.pair() == held_vector(sample.keyboard)
        },
        held_vector(sample.keyboard) == (0int, 0int) && !gamepad_vector(sample.gamepad).engaged()
            ==> final(actions).player_movement is None,
        held_vector(sample.keyboard) == (0int, 0int) && gamepad_vector(sample.gamepad).engaged()
            ==> final(actions).player_movement == Some(
            Heading::of_gamepad(gamepad_vector(sample.gamepad)),
        ),
{
    let gamepad_movement = get_gamepad_movement(&sample.gamepad);
    let keyboard_movement = get_direction(&sample.keyboard);

    if !keyboard_movement.is_zero() {
        actions.player_movement = Some(Heading::Keyboard(keyboard_movement));
    } else if gamepad_movement.exceeds_threshold() {
        actions.player_movement = Some(Heading::from_gamepad(gamepad_movement));
    } else {
        actions.player_movement = None;
    }
}

} // verus!
