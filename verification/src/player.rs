//! Real-time playback decisions.
//!
//! The playback loop runs on its own thread and owns a private
//! [`DualStream`].  Everything it decides — how a command changes the
//! playback state, which side effect the command demands, and what the
//! next note is — lives here as a verified state machine; the thread
//! around it only performs the effects (MIDI port writes and sleeps)
//! and shuttles commands and note events over channels.

use vstd::prelude::*;

use crate::digits::{digit_model, modeled, MAX_DIGITS};
use crate::midi::{note_for_spec, ticks_for_spec, DurationMap, PitchMap};
use crate::stream::DualStream;

verus! {

/// Ticks per quarter note used by live playback.
pub const PLAYER_TPQ: u32 = 480;

/// A command sent to the playback loop.
#[derive(Clone, Copy, Debug, PartialEq, Eq, Structural)]
pub enum PlayerCommand {
    /// Begin streaming notes.
    Play,
    /// Stop after the current note.
    Stop,
    /// Change instrument (MIDI program 0-127).
    SetInstrument(u8),
    /// Change tempo (beats per minute).
    SetTempo(u32),
    /// Terminate the loop.
    Quit,
}

/// The side effect a command demands from the loop around the engine.
#[derive(Clone, Copy, Debug, PartialEq, Eq, Structural)]
pub enum PlayerEffect {
    /// Nothing to do.
    Nothing,
    /// Re-send a program change for the given instrument.
    ProgramChange(u8),
    /// Leave the playback loop.
    Terminate,
}

/// Emitted once per generated note so the display can highlight the
/// patch being played.  Loss of a note event is tolerated.
#[derive(Clone, Copy, Debug, PartialEq, Eq, Structural)]
pub struct NoteEvent {
    pub pitch: u8,
    /// Duration in ticks.
    pub duration: u32,
    pub velocity: u8,
    /// Stream positions at the time of play.
    pub left_pos: usize,
    pub right_pos: usize,
}

/// The milliseconds a note lasts plus the gap that follows it: five
/// percent of the duration, and at least five milliseconds.
pub open spec fn gap_ms_spec(ms: int) -> int {
    if ms / 20 > 5 {
        ms / 20
    } else {
        5
    }
}

/// The gap slept after a note of `ms` milliseconds.
pub fn gap_ms(ms: u64) -> (r: u64)
    ensures
        r == gap_ms_spec(ms as int),
{
    let g = ms / 20;
    if g > 5 {
        g
    } else {
        5
    }
}

/// The fields a playback command never touches: the stream, the note
/// mappings, the velocity and the channel.
pub open spec fn same_mappings(a: Player, b: Player) -> bool {
    &&& a.stream_spec() == b.stream_spec()
    &&& a.pitch_map_spec() == b.pitch_map_spec()
    &&& a.duration_map_spec() == b.duration_map_spec()
    &&& a.velocity_spec() == b.velocity_spec()
    &&& a.channel_spec() == b.channel_spec()
}

/// The playback engine: a private stream, the note mappings, and the
/// playback state.
pub struct Player {
    stream: DualStream,
    pitch_map: PitchMap,
    duration_map: DurationMap,
    instrument: u8,
    tempo_bpm: u32,
    velocity: u8,
    channel: u8,
    playing: bool,
    done: bool,
}

impl Player {
    /// The private stream.
    pub closed spec fn stream_spec(self) -> DualStream {
        self.stream
    }

    /// The configured pitch map.
    pub closed spec fn pitch_map_spec(self) -> PitchMap {
        self.pitch_map
    }

    /// The configured duration map.
    pub closed spec fn duration_map_spec(self) -> DurationMap {
        self.duration_map
    }

    /// The current instrument program.
    pub closed spec fn instrument_spec(self) -> u8 {
        self.instrument
    }

    /// The current tempo.
    pub closed spec fn tempo_spec(self) -> u32 {
        self.tempo_bpm
    }

    /// The configured velocity.
    pub closed spec fn velocity_spec(self) -> u8 {
        self.velocity
    }

    /// The configured channel.
    pub closed spec fn channel_spec(self) -> u8 {
        self.channel
    }

    /// True while notes are streaming.
    pub closed spec fn playing_spec(self) -> bool {
        self.playing
    }

    /// True once a quit command was applied.
    pub closed spec fn done_spec(self) -> bool {
        self.done
    }

    /// A valid engine: a valid stream and a scale to resolve pitches.
    pub closed spec fn wf(self) -> bool {
        &&& self.stream.wf()
        &&& self.pitch_map.scale.intervals@.len() > 0
    }

    /// A stopped engine over its own private stream.
    pub fn new(
        stream: DualStream,
        pitch_map: PitchMap,
        duration_map: DurationMap,
        instrument: u8,
        tempo_bpm: u32,
        velocity: u8,
        channel: u8,
    ) -> (r: Player)
        requires
            stream.wf(),
            pitch_map.scale.intervals@.len() > 0,
        ensures
            r.wf(),
            r.stream_spec() == stream,
            r.pitch_map_spec() == pitch_map,
            r.duration_map_spec() == duration_map,
            r.instrument_spec() == instrument,
            r.tempo_spec() == tempo_bpm,
            r.velocity_spec() == velocity,
            r.channel_spec() == channel,
            !r.playing_spec(),
            !r.done_spec(),
    {
        Player {
            stream,
            pitch_map,
            duration_map,
            instrument,
            tempo_bpm,
            velocity,
            channel,
            playing: false,
            done: false,
        }
    }

    /// Begin streaming notes.
    pub fn play(&mut self)
        requires
            old(self).wf(),
        ensures
            final(self).wf(),
            same_mappings(*old(self), *final(self)),
            final(self).instrument_spec() == old(self).instrument_spec(),
            final(self).tempo_spec() == old(self).tempo_spec(),
            final(self).done_spec() == old(self).done_spec(),
            final(self).playing_spec(),
    {
        self.playing = true;
    }

    /// Stop after the current note.
    pub fn stop(&mut self)
        requires
            old(self).wf(),
        ensures
            final(self).wf(),
            same_mappings(*old(self), *final(self)),
            final(self).instrument_spec() == old(self).instrument_spec(),
            final(self).tempo_spec() == old(self).tempo_spec(),
            final(self).done_spec() == old(self).done_spec(),
            !final(self).playing_spec(),
    {
        self.playing = false;
    }

    /// Mark the engine terminated.
    pub fn quit(&mut self)
        requires
            old(self).wf(),
        ensures
            final(self).wf(),
            same_mappings(*old(self), *final(self)),
            final(self).instrument_spec() == old(self).instrument_spec(),
            final(self).tempo_spec() == old(self).tempo_spec(),
            final(self).playing_spec() == old(self).playing_spec(),
            final(self).done_spec(),
    {
        self.done = true;
    }

    /// Change the instrument program.
    pub fn set_instrument(&mut self, program: u8)
        requires
            old(self).wf(),
        ensures
            final(self).wf(),
            same_mappings(*old(self), *final(self)),
            final(self).instrument_spec() == program,
            final(self).tempo_spec() == old(self).tempo_spec(),
            final(self).playing_spec() == old(self).playing_spec(),
            final(self).done_spec() == old(self).done_spec(),
    {
        self.instrument = program;
    }

    /// Change the tempo.
    pub fn set_tempo(&mut self, bpm: u32)
        requires
            old(self).wf(),
        ensures
            final(self).wf(),
            same_mappings(*old(self), *final(self)),
            final(self).instrument_spec() == old(self).instrument_spec(),
            final(self).tempo_spec() == bpm,
            final(self).playing_spec() == old(self).playing_spec(),
            final(self).done_spec() == old(self).done_spec(),
    {
        self.tempo_bpm = bpm;
    }

    /// True while notes are streaming.
    pub fn is_playing(&self) -> (r: bool)
        ensures
            r == self.playing_spec(),
    {
        self.playing
    }

    /// True once a quit command was applied.
    pub fn is_done(&self) -> (r: bool)
        ensures
            r == self.done_spec(),
    {
        self.done
    }

    /// Apply one command and report the side effect the loop owes:
    /// `Play` resumes streaming and re-sends the program change, `Stop`
    /// pauses, `SetInstrument` updates and re-sends the program change,
    /// `SetTempo` updates the tempo, and `Quit` terminates the loop.
    pub fn apply_command(&mut self, cmd: PlayerCommand) -> (eff: PlayerEffect)
        requires
            old(self).wf(),
        ensures
            final(self).wf(),
            same_mappings(*old(self), *final(self)),
            match cmd {
                PlayerCommand::Play => final(self).playing_spec() && final(self).instrument_spec()
                    == old(self).instrument_spec() && final(self).tempo_spec() == old(
                    self,
                ).tempo_spec() && final(self).done_spec() == old(self).done_spec() && eff
                    == PlayerEffect::ProgramChange(old(self).instrument_spec()),
                PlayerCommand::Stop => !final(self).playing_spec() && final(self).instrument_spec()
                    == old(self).instrument_spec() && final(self).tempo_spec() == old(
                    self,
                ).tempo_spec() && final(self).done_spec() == old(self).done_spec() && eff
                    == PlayerEffect::Nothing,
                PlayerCommand::SetInstrument(p) => final(self).instrument_spec() == p && final(self).tempo_spec() == old(self).tempo_spec() && final(self).playing_spec() == old(
                    self,
                ).playing_spec() && final(self).done_spec() == old(self).done_spec() && eff
                    == PlayerEffect::ProgramChange(p),
                PlayerCommand::SetTempo(b) => final(self).tempo_spec() == b && final(self).instrument_spec() == old(self).instrument_spec() && final(self).playing_spec()
                    == old(self).playing_spec() && final(self).done_spec() == old(self).done_spec()
                    && eff == PlayerEffect::Nothing,
                PlayerCommand::Quit => final(self).done_spec() && final(self).instrument_spec()
                    == old(self).instrument_spec() && final(self).tempo_spec() == old(
                    self,
                ).tempo_spec() && final(self).playing_spec() == old(self).playing_spec() && eff
                    == PlayerEffect::Terminate,
            },
    {
        match cmd {
            PlayerCommand::Play => {
                self.play();
                PlayerEffect::ProgramChange(self.instrument)
            },
            PlayerCommand::Stop => {
                self.stop();
                PlayerEffect::Nothing
            },
            PlayerCommand::SetInstrument(p) => {
                self.set_instrument(p);
                PlayerEffect::ProgramChange(p)
            },
            PlayerCommand::SetTempo(b) => {
                self.set_tempo(b);
                PlayerEffect::Nothing
            },
            PlayerCommand::Quit => {
                self.quit();
                PlayerEffect::Terminate
            },
        }
    }

    /// Produce the next note while playing: pull a digit pair from the
    /// private stream, resolve it, and return the note event together
    /// with its wall-clock duration in milliseconds.  The left digit of
    /// the consumed pair selects the duration and the right digit the
    /// pitch, exactly through the configured maps, and both stream
    /// positions advance by one.  While stopped nothing is produced; an
    /// exhausted stream stops playback gracefully instead.
    pub fn next_note(&mut self) -> (r: Option<(NoteEvent, u64)>)
        requires
            old(self).wf(),
        ensures
            final(self).wf(),
            final(self).pitch_map_spec() == old(self).pitch_map_spec(),
            final(self).duration_map_spec() == old(self).duration_map_spec(),
            final(self).instrument_spec() == old(self).instrument_spec(),
            final(self).tempo_spec() == old(self).tempo_spec(),
            final(self).velocity_spec() == old(self).velocity_spec(),
            final(self).channel_spec() == old(self).channel_spec(),
            final(self).done_spec() == old(self).done_spec(),
            final(self).stream_spec().left_spec().cfg_spec() == old(
                self,
            ).stream_spec().left_spec().cfg_spec(),
            final(self).stream_spec().right_spec().cfg_spec() == old(
                self,
            ).stream_spec().right_spec().cfg_spec(),
            final(self).stream_spec().snippets_spec() == old(self).stream_spec().snippets_spec(),
            !old(self).playing_spec() ==> r is None && *final(self) == *old(self),
            old(self).playing_spec() && old(self).stream_spec().left_spec().pos_spec()
                < MAX_DIGITS && old(self).stream_spec().right_spec().pos_spec() < MAX_DIGITS
                ==> {
                &&& r is Some
                &&& final(self).playing_spec()
                &&& final(self).stream_spec().left_spec().pos_spec() == old(
                    self,
                ).stream_spec().left_spec().pos_spec() + 1
                &&& final(self).stream_spec().right_spec().pos_spec() == old(
                    self,
                ).stream_spec().right_spec().pos_spec() + 1
                &&& final(self).stream_spec().left_spec().digits_spec().len() > old(
                    self,
                ).stream_spec().left_spec().pos_spec()
                &&& final(self).stream_spec().right_spec().digits_spec().len() > old(
                    self,
                ).stream_spec().right_spec().pos_spec()
                &&& {
                    let (ev, ms) = r.unwrap();
                    let l = final(self).stream_spec().left_spec().digits_spec()[old(
                        self,
                    ).stream_spec().left_spec().pos_spec() as int];
                    let d = final(self).stream_spec().right_spec().digits_spec()[old(
                        self,
                    ).stream_spec().right_spec().pos_spec() as int];
                    &&& ev.duration == ticks_for_spec(old(self).duration_map_spec(), l)
                    &&& ev.pitch == note_for_spec(old(self).pitch_map_spec(), d)
                    &&& modeled(old(self).stream_spec().left_spec().cfg_spec().constant)
                        ==> l == digit_model(
                        old(self).stream_spec().left_spec().cfg_spec().constant,
                        old(self).stream_spec().left_spec().cfg_spec().base,
                        old(self).stream_spec().left_spec().pos_spec(),
                    )
                    &&& modeled(old(self).stream_spec().right_spec().cfg_spec().constant)
                        ==> d == digit_model(
                        old(self).stream_spec().right_spec().cfg_spec().constant,
                        old(self).stream_spec().right_spec().cfg_spec().base,
                        old(self).stream_spec().right_spec().pos_spec(),
                    )
                    &&& ev.velocity == old(self).velocity_spec()
                    &&& ev.pitch <= 127
                    &&& ev.left_pos == final(self).stream_spec().left_spec().pos_spec()
                    &&& ev.right_pos == final(self).stream_spec().right_spec().pos_spec()
                    &&& ms == crate::player::ticks_to_ms_spec(
                        ev.duration,
                        PLAYER_TPQ,
                        old(self).tempo_spec(),
                    )
                    &&& ms >= 50
                }
            },
            old(self).playing_spec() && !(old(self).stream_spec().left_spec().pos_spec()
                < MAX_DIGITS && old(self).stream_spec().right_spec().pos_spec() < MAX_DIGITS)
                ==> r is None && !final(self).playing_spec() && final(self).stream_spec().left_spec() == old(self).stream_spec().left_spec() && final(self).stream_spec().right_spec() == old(self).stream_spec().right_spec(),
            old(self).playing_spec() && r is None ==> !final(self).playing_spec(),
    {
        if !self.playing {
            return None;
        }
        proof {
            crate::stream::lemma_wf_sides(self.stream);
        }
        match self.stream.zip_next() {
            Some((l, rr)) => {
                let pitch = self.pitch_map.note_for(rr);
                let ticks = self.duration_map.ticks_for(l);
                let ms = ticks_to_ms(ticks, PLAYER_TPQ, self.tempo_bpm);
                let ev = NoteEvent {
                    pitch,
                    duration: ticks,
                    velocity: self.velocity,
                    left_pos: self.stream.left_pos(),
                    right_pos: self.stream.right_pos(),
                };
                Some((ev, ms))
            },
            None => {
                self.playing = false;
                None
            },
        }
    }
}

/// The number of milliseconds a note of `ticks` ticks lasts at `bpm`
/// beats per minute with `tpq` ticks per quarter note, floored at 50 ms.
/// A zero `bpm` or `tpq` is treated as 1.
pub open spec fn ticks_to_ms_spec(ticks: u32, tpq: u32, bpm: u32) -> int {
    let beat = 60000int / (if bpm == 0 { 1int } else { bpm as int });
    let ms = ticks * beat / (if tpq == 0 { 1int } else { tpq as int });
    if ms < 50 { 50 } else { ms }
}

/// Convert a duration in MIDI ticks to wall-clock milliseconds.
pub fn ticks_to_ms(ticks: u32, tpq: u32, bpm: u32) -> (ms: u64)
    ensures
        ms == ticks_to_ms_spec(ticks, tpq, bpm),
{
    let b: u64 = if bpm >= 1 { bpm as u64 } else { 1 };
    let q: u64 = if tpq >= 1 { tpq as u64 } else { 1 };
    let beat: u64 = 60000 / b;
    assert(beat <= 60000) by (nonlinear_arith)
        requires
            b >= 1,
            beat == 60000u64 as int / b as int,
    ;
    assert((ticks as u64) * beat <= 60000u64 * (u32::MAX as u64)) by (nonlinear_arith)
        requires
            ticks as u64 <= u32::MAX as u64,
            beat <= 60000,
    ;
    let ms: u64 = (ticks as u64) * beat / q;
    if ms < 50 { 50 } else { ms }
}

} // verus!
