//! Gesture events and the keyboard-simulation translation.
//!
//! Producers (hardware pollers or the keyboard simulator) run on their
//! own threads and funnel normalised [`GestureEvent`]s into one channel;
//! consumers never learn where an event came from.  The translation
//! from raw simulated key input to gesture events is pure and lives
//! here; the threads and channels around it do not.

use vstd::prelude::*;

verus! {

/// A high-level gesture emitted by a recogniser.
#[derive(Clone, Debug, PartialEq)]
pub enum GestureEvent {
    /// Advance the left (duration) stream by `steps` digits; `velocity`
    /// is the normalised pull speed in percent (0-100).
    PullLeft { steps: usize, velocity: u8 },
    /// Advance the right (pitch) stream.
    PullRight { steps: usize, velocity: u8 },
    /// One hand crossed over the other: swap the two sides.
    Twist,
    /// Both hands brought together: begin playback.
    Clap,
    /// Hands separated after a clap: stop playback.
    Unclap,
    /// Scissors gesture: snapshot the visible window.  An empty name
    /// asks the consumer to collect one interactively.
    Scissors { name: String },
    /// Quit the application.
    Quit,
}

/// Raw input from the simulation window.
#[derive(Clone, Debug)]
pub enum SimInput {
    KeyDown(SimKey),
    KeyUp(SimKey),
    /// A snippet name typed by the user after a scissors key press.
    SnippetName(String),
}

/// Simulated key codes.
#[derive(Clone, Copy, Debug, PartialEq, Eq, Structural)]
pub enum SimKey {
    PullLeft,
    PullRight,
    PullLeftFast,
    PullRightFast,
    Twist,
    Clap,
    Unclap,
    Scissors,
    Quit,
}

/// The gesture a raw simulation input stands for: slow pulls advance
/// one digit, fast pulls five; a scissors press asks for a snip with
/// the name still to be collected; key releases mean nothing.
pub open spec fn sim_event_spec(input: SimInput) -> Option<GestureEvent> {
    match input {
        SimInput::KeyDown(SimKey::PullLeft) => Some(
            GestureEvent::PullLeft { steps: 1, velocity: 30 },
        ),
        SimInput::KeyDown(SimKey::PullLeftFast) => Some(
            GestureEvent::PullLeft { steps: 5, velocity: 90 },
        ),
        SimInput::KeyDown(SimKey::PullRight) => Some(
            GestureEvent::PullRight { steps: 1, velocity: 30 },
        ),
        SimInput::KeyDown(SimKey::PullRightFast) => Some(
            GestureEvent::PullRight { steps: 5, velocity: 90 },
        ),
        SimInput::KeyDown(SimKey::Twist) => Some(GestureEvent::Twist),
        SimInput::KeyDown(SimKey::Clap) => Some(GestureEvent::Clap),
        SimInput::KeyDown(SimKey::Unclap) => Some(GestureEvent::Unclap),
        SimInput::KeyDown(SimKey::Quit) => Some(GestureEvent::Quit),
        SimInput::SnippetName(name) => Some(GestureEvent::Scissors { name: name }),
        _ => None,
    }
}

/// Translate one raw simulation input into the gesture it stands for.
/// A scissors key press becomes a snip request with an empty name,
/// which the consumer resolves interactively.
pub fn translate_sim_input(input: SimInput) -> (r: Option<GestureEvent>)
    ensures
        !(input is KeyDown && input->KeyDown_0 == SimKey::Scissors) ==> r == sim_event_spec(input),
        input is KeyDown && input->KeyDown_0 == SimKey::Scissors ==> (r matches Some(
            GestureEvent::Scissors { name },
        ) && name@ == Seq::<char>::empty()),
{
    match input {
        SimInput::KeyDown(SimKey::PullLeft) => Some(
            GestureEvent::PullLeft { steps: 1, velocity: 30 },
        ),
        SimInput::KeyDown(SimKey::PullLeftFast) => Some(
            GestureEvent::PullLeft { steps: 5, velocity: 90 },
        ),
        SimInput::KeyDown(SimKey::PullRight) => Some(
            GestureEvent::PullRight { steps: 1, velocity: 30 },
        ),
        SimInput::KeyDown(SimKey::PullRightFast) => Some(
            GestureEvent::PullRight { steps: 5, velocity: 90 },
        ),
        SimInput::KeyDown(SimKey::Twist) => Some(GestureEvent::Twist),
        SimInput::KeyDown(SimKey::Clap) => Some(GestureEvent::Clap),
        SimInput::KeyDown(SimKey::Unclap) => Some(GestureEvent::Unclap),
        SimInput::KeyDown(SimKey::Scissors) => Some(GestureEvent::Scissors { name: String::new() }),
        SimInput::KeyDown(SimKey::Quit) => Some(GestureEvent::Quit),
        SimInput::SnippetName(name) => Some(GestureEvent::Scissors { name }),
        SimInput::KeyUp(_) => None,
    }
}

} // verus!
