//! Dual transcendental digit streams driving a gesture-controlled MIDI
//! performance.
//!
//! The crate is organised around three layers:
//!
//! * digit generation for six mathematical constants in any base from 2
//!   to 36 (`digits`), wrapped in independently positioned cursors and a
//!   two-sided stream with snapshotting (`stream`);
//! * note mapping and standard MIDI file serialisation (`midi`), plus the
//!   real-time playback decision engine (`player`);
//! * the orchestrator state machines for the on-screen ribbons, gestures
//!   and animations (`ribbon`, `gesture`, `app`).
//!
//! Gesture recognisers are event producers outside the library: the
//! keyboard simulation in the surrounding binary is one such producer,
//! and a hardware hand tracker can stand in its place by emitting the
//! same [`GestureEvent`]s; no device handling lives here.
//!
//! Digit sources replay from the start and are cut off at the replay
//! bound [`MAX_DIGITS`] (one hundred thousand digits): every stream
//! operation's contract states what happens at the bound — a graceful
//! `None` or a shortened result, never a panic.

use vstd::prelude::*;

mod app;
mod digits;
mod fixedpoint;
mod gesture;
mod glyphs;
mod gm;
mod midi;
mod player;
mod ribbon;
mod stream;

pub use app::{side_label, AppConfig, AppState, PlayState, DEFAULT_RIBBON_CAPACITY};
pub use digits::{digit_char, Constant, MAX_DIGITS};
pub use gesture::{translate_sim_input, GestureEvent, SimInput, SimKey};
pub use glyphs::char_glyph;
pub use gm::{gm_name, GeneralMidi};
pub use midi::{
    multi_track_bytes, write_vlq, DurationMap, MidiComposer, MidiTrack, Note, PitchMap, Scale,
};
pub use player::{gap_ms, ticks_to_ms, NoteEvent, Player, PlayerCommand, PlayerEffect};
pub use ribbon::{
    digit_color, Patch, RibbonState, ScissorAnimation, SnippetTray, StitchPhase, TrayEntry,
};
pub use stream::{Cursor, DualStream, SnippetEntry, SpigotConfig, StreamError};

verus! {

} // verus!
