//! Note mapping and standard MIDI file serialisation.
//!
//! The left digit of a pair selects a duration through a [`DurationMap`]
//! and the right digit selects a pitch through a [`PitchMap`].  A
//! [`MidiTrack`] serialises to a byte-exact standard MIDI file; the byte
//! layout is stated as spec functions and the builders are proved to
//! produce exactly those bytes.

use vstd::prelude::*;

use crate::digits::modeled;
use crate::gm::GeneralMidi;
use crate::stream::{zip_model, DualStream};
use vstd::string::StringSliceAdditionalSpecFns;

verus! {

// ───────────────────────────────────────────────────────────────────────
// Scale
// ───────────────────────────────────────────────────────────────────────

/// A pitch collection used by [`PitchMap`]: semitone offsets from the
/// root, e.g. `[0, 2, 4, 5, 7, 9, 11]` for major.
#[derive(Clone, Debug)]
pub struct Scale {
    pub intervals: Vec<u8>,
    pub name: &'static str,
}

impl Scale {
    /// All 12 chromatic semitones.
    pub fn chromatic() -> (r: Scale)
        ensures
            r.intervals@ =~= seq![0u8, 1, 2, 3, 4, 5, 6, 7, 8, 9, 10, 11],
            r.name@ == "Chromatic"@,
    {
        Scale { intervals: vec![0, 1, 2, 3, 4, 5, 6, 7, 8, 9, 10, 11], name: "Chromatic" }
    }

    /// Major scale (Ionian).
    pub fn major() -> (r: Scale)
        ensures
            r.intervals@ =~= seq![0u8, 2, 4, 5, 7, 9, 11],
            r.name@ == "Major"@,
    {
        Scale { intervals: vec![0, 2, 4, 5, 7, 9, 11], name: "Major" }
    }

    /// Natural minor (Aeolian).
    pub fn minor() -> (r: Scale)
        ensures
            r.intervals@ =~= seq![0u8, 2, 3, 5, 7, 8, 10],
            r.name@ == "Minor"@,
    {
        Scale { intervals: vec![0, 2, 3, 5, 7, 8, 10], name: "Minor" }
    }

    /// Pentatonic major.
    pub fn pentatonic_major() -> (r: Scale)
        ensures
            r.intervals@ =~= seq![0u8, 2, 4, 7, 9],
            r.name@ == "Pentatonic Major"@,
    {
        Scale { intervals: vec![0, 2, 4, 7, 9], name: "Pentatonic Major" }
    }

    /// Pentatonic minor.
    pub fn pentatonic_minor() -> (r: Scale)
        ensures
            r.intervals@ =~= seq![0u8, 3, 5, 7, 10],
            r.name@ == "Pentatonic Minor"@,
    {
        Scale { intervals: vec![0, 3, 5, 7, 10], name: "Pentatonic Minor" }
    }

    /// Dorian mode.
    pub fn dorian() -> (r: Scale)
        ensures
            r.intervals@ =~= seq![0u8, 2, 3, 5, 7, 9, 10],
            r.name@ == "Dorian"@,
    {
        Scale { intervals: vec![0, 2, 3, 5, 7, 9, 10], name: "Dorian" }
    }

    /// Phrygian mode.
    pub fn phrygian() -> (r: Scale)
        ensures
            r.intervals@ =~= seq![0u8, 1, 3, 5, 7, 8, 10],
            r.name@ == "Phrygian"@,
    {
        Scale { intervals: vec![0, 1, 3, 5, 7, 8, 10], name: "Phrygian" }
    }

    /// Lydian mode.
    pub fn lydian() -> (r: Scale)
        ensures
            r.intervals@ =~= seq![0u8, 2, 4, 6, 7, 9, 11],
            r.name@ == "Lydian"@,
    {
        Scale { intervals: vec![0, 2, 4, 6, 7, 9, 11], name: "Lydian" }
    }

    /// Mixolydian mode.
    pub fn mixolydian() -> (r: Scale)
        ensures
            r.intervals@ =~= seq![0u8, 2, 4, 5, 7, 9, 10],
            r.name@ == "Mixolydian"@,
    {
        Scale { intervals: vec![0, 2, 4, 5, 7, 9, 10], name: "Mixolydian" }
    }

    /// Whole-tone scale.
    pub fn whole_tone() -> (r: Scale)
        ensures
            r.intervals@ =~= seq![0u8, 2, 4, 6, 8, 10],
            r.name@ == "Whole Tone"@,
    {
        Scale { intervals: vec![0, 2, 4, 6, 8, 10], name: "Whole Tone" }
    }

    /// Diminished (octatonic) scale.
    pub fn diminished() -> (r: Scale)
        ensures
            r.intervals@ =~= seq![0u8, 2, 3, 5, 6, 8, 9, 11],
            r.name@ == "Diminished"@,
    {
        Scale { intervals: vec![0, 2, 3, 5, 6, 8, 9, 11], name: "Diminished" }
    }

    /// Custom scale from a list of semitone offsets.
    pub fn custom(intervals: Vec<u8>) -> (r: Scale)
        ensures
            r.intervals@ == intervals@,
            r.name@ == "Custom"@,
    {
        Scale { intervals, name: "Custom" }
    }

    /// Number of pitches in the scale.
    pub fn len(&self) -> (r: usize)
        ensures
            r == self.intervals@.len(),
    {
        self.intervals.len()
    }

    /// True when the scale has no pitches.
    pub fn is_empty(&self) -> (r: bool)
        ensures
            r == (self.intervals@.len() == 0),
    {
        self.intervals.is_empty()
    }
}

// ───────────────────────────────────────────────────────────────────────
// PitchMap
// ───────────────────────────────────────────────────────────────────────

/// Maps a digit value to a MIDI note number by indexing into a scale,
/// wrapping across octaves from a configurable root note, clamped to
/// 0-127.
#[derive(Clone, Debug)]
pub struct PitchMap {
    /// MIDI note number for digit 0.
    pub root: u8,
    /// Scale used for mapping.
    pub scale: Scale,
}

/// The note a pitch map resolves digit `d` to: the digit indexes into
/// the scale, wrapping into higher octaves, from the root, clamped at
/// 127.
pub open spec fn note_for_spec(pm: PitchMap, d: u8) -> u8
    recommends
        pm.scale.intervals@.len() > 0,
{
    let n = pm.scale.intervals@.len() as int;
    let octave = d as int / n;
    let degree = d as int % n;
    let note = pm.root + octave * 12 + pm.scale.intervals@[degree];
    if note > 127 {
        127
    } else {
        note as u8
    }
}

impl PitchMap {
    /// Map onto a chromatic scale from `root`.
    pub fn chromatic(root: u8) -> (r: PitchMap)
        ensures
            r.root == root,
            r.scale.intervals@ =~= seq![0u8, 1, 2, 3, 4, 5, 6, 7, 8, 9, 10, 11],
            r.scale.name@ == "Chromatic"@,
    {
        PitchMap { root, scale: Scale::chromatic() }
    }

    /// Map onto a major scale from `root`.
    pub fn major(root: u8) -> (r: PitchMap)
        ensures
            r.root == root,
            r.scale.intervals@ =~= seq![0u8, 2, 4, 5, 7, 9, 11],
            r.scale.name@ == "Major"@,
    {
        PitchMap { root, scale: Scale::major() }
    }

    /// Map onto a natural minor scale from `root`.
    pub fn minor(root: u8) -> (r: PitchMap)
        ensures
            r.root == root,
            r.scale.intervals@ =~= seq![0u8, 2, 3, 5, 7, 8, 10],
            r.scale.name@ == "Minor"@,
    {
        PitchMap { root, scale: Scale::minor() }
    }

    /// Map onto a pentatonic major scale from `root`.
    pub fn pentatonic_major(root: u8) -> (r: PitchMap)
        ensures
            r.root == root,
            r.scale.intervals@ =~= seq![0u8, 2, 4, 7, 9],
            r.scale.name@ == "Pentatonic Major"@,
    {
        PitchMap { root, scale: Scale::pentatonic_major() }
    }

    /// Map onto a pentatonic minor scale from `root`.
    pub fn pentatonic_minor(root: u8) -> (r: PitchMap)
        ensures
            r.root == root,
            r.scale.intervals@ =~= seq![0u8, 3, 5, 7, 10],
            r.scale.name@ == "Pentatonic Minor"@,
    {
        PitchMap { root, scale: Scale::pentatonic_minor() }
    }

    /// Map onto a custom scale from `root`.
    pub fn custom(root: u8, scale: Scale) -> (r: PitchMap)
        ensures
            r.root == root,
            r.scale.intervals@ == scale.intervals@,
            r.scale.name@ == scale.name@,
    {
        PitchMap { root, scale }
    }

    /// Map onto a Dorian mode scale from `root`.
    pub fn dorian(root: u8) -> (r: PitchMap)
        ensures
            r.root == root,
            r.scale.intervals@ =~= seq![0u8, 2, 3, 5, 7, 9, 10],
            r.scale.name@ == "Dorian"@,
    {
        PitchMap { root, scale: Scale::dorian() }
    }

    /// Map onto a Phrygian mode scale from `root`.
    pub fn phrygian(root: u8) -> (r: PitchMap)
        ensures
            r.root == root,
            r.scale.intervals@ =~= seq![0u8, 1, 3, 5, 7, 8, 10],
            r.scale.name@ == "Phrygian"@,
    {
        PitchMap { root, scale: Scale::phrygian() }
    }

    /// Map onto a whole-tone scale from `root`.
    pub fn whole_tone(root: u8) -> (r: PitchMap)
        ensures
            r.root == root,
            r.scale.intervals@ =~= seq![0u8, 2, 4, 6, 8, 10],
            r.scale.name@ == "Whole Tone"@,
    {
        PitchMap { root, scale: Scale::whole_tone() }
    }

    /// Resolve digit `d` to a MIDI note number; the scale must not be
    /// empty.
    pub fn note_for(&self, d: u8) -> (r: u8)
        requires
            self.scale.intervals@.len() > 0,
        ensures
            r == note_for_spec(*self, d),
            r <= 127,
    {
        let n = self.scale.intervals.len();
        let octave = (d as usize) / n;
        let degree = (d as usize) % n;
        let semitone = self.scale.intervals[degree] as usize;
        let note = self.root as usize + octave * 12 + semitone;
        proof {
            assert(octave * 12 <= 255 * 12) by (nonlinear_arith)
                requires
                    0 <= octave <= 255,
            ;
        }
        if note > 127 {
            127
        } else {
            note as u8
        }
    }
}

// ───────────────────────────────────────────────────────────────────────
// DurationMap
// ───────────────────────────────────────────────────────────────────────

/// Maps a digit value to a note duration in MIDI ticks through a lookup
/// table, wrapping when the digit exceeds the table.
#[derive(Clone, Debug)]
pub struct DurationMap {
    /// Ticks per entry, indexed by digit value.
    pub table: Vec<u32>,
    /// Human-readable description.
    pub name: &'static str,
}

/// The duration a map resolves digit `d` to: the table entry at
/// `d % len`, or 120 ticks for an empty table.
pub open spec fn ticks_for_spec(dm: DurationMap, d: u8) -> u32 {
    if dm.table@.len() == 0 {
        120
    } else {
        dm.table@[d as int % dm.table@.len() as int]
    }
}

impl DurationMap {
    /// Musical note values: the table steps from a 32nd note up through
    /// the whole note (32nd, 16th, dotted 16th, 8th, dotted 8th,
    /// quarter, dotted quarter, half, dotted half, whole), so a larger
    /// digit always means a strictly longer note.
    ///
    /// `ticks_per_quarter` is the MIDI resolution (commonly 480).
    pub fn musical(ticks_per_quarter: u32) -> (r: DurationMap)
        requires
            ticks_per_quarter <= 0x0FFF_FFFF,
        ensures
            r.table@ =~= seq![
                (ticks_per_quarter / 8) as u32,
                (ticks_per_quarter / 4) as u32,
                (ticks_per_quarter * 3 / 8) as u32,
                (ticks_per_quarter / 2) as u32,
                (ticks_per_quarter * 3 / 4) as u32,
                ticks_per_quarter,
                (ticks_per_quarter * 3 / 2) as u32,
                (ticks_per_quarter * 2) as u32,
                (ticks_per_quarter * 3) as u32,
                (ticks_per_quarter * 4) as u32,
            ],
            r.name@ == "Musical"@,
    {
        let q = ticks_per_quarter;
        let table = vec![
            q / 8,
            q / 4,
            q * 3 / 8,
            q / 2,
            q * 3 / 4,
            q,
            q * 3 / 2,
            q * 2,
            q * 3,
            q * 4,
        ];
        DurationMap { table, name: "Musical" }
    }

    /// Linear: digit `d` maps to `(d + 1) * unit_ticks`.
    pub fn linear(unit_ticks: u32, base: u8) -> (r: DurationMap)
        requires
            unit_ticks <= 0x00FF_FFFF,
        ensures
            r.table@.len() == base,
            forall|i: int| 0 <= i < base ==> r.table@[i] == (i + 1) * unit_ticks,
            r.name@ == "Linear"@,
    {
        let mut table: Vec<u32> = Vec::new();
        let mut d: u32 = 0;
        while d < base as u32
            invariant
                d <= base as u32,
                table@.len() == d,
                unit_ticks <= 0x00FF_FFFF,
                forall|i: int| 0 <= i < d ==> table@[i] == (i + 1) * unit_ticks,
            decreases base as u32 - d,
        {
            proof {
                assert((d + 1) * unit_ticks <= 256 * 0x00FF_FFFF) by (nonlinear_arith)
                    requires
                        d < 256,
                        unit_ticks <= 0x00FF_FFFF,
                ;
            }
            table.push((d + 1) * unit_ticks);
            d += 1;
        }
        DurationMap { table, name: "Linear" }
    }

    /// Exponential: digit `d` maps to `unit_ticks * 2^min(d, 16)`; the
    /// table's largest entry must fit in 32 bits.
    pub fn exponential(unit_ticks: u32, base: u8) -> (r: DurationMap)
        requires
            base == 0 || unit_ticks * (1u32 << (if base - 1 < 16 {
                (base - 1) as u32
            } else {
                16u32
            })) <= u32::MAX,
        ensures
            r.table@.len() == base,
            forall|i: int|
                0 <= i < base ==> r.table@[i] == unit_ticks * (1u32 << (if i < 16 {
                    i
                } else {
                    16
                }) as u32),
            r.name@ == "Exponential"@,
    {
        let mut table: Vec<u32> = Vec::new();
        let mut d: u32 = 0;
        while d < base as u32
            invariant
                d <= base as u32,
                table@.len() == d,
                base == 0 || unit_ticks * (1u32 << (if base - 1 < 16 {
                    (base - 1) as u32
                } else {
                    16u32
                })) <= u32::MAX,
                forall|i: int|
                    0 <= i < d ==> table@[i] == unit_ticks * (1u32 << (if i < 16 {
                        i
                    } else {
                        16
                    }) as u32),
            decreases base as u32 - d,
        {
            let shift: u32 = if d < 16 {
                d
            } else {
                16
            };
            let power: u32 = 1u32 << shift;
            proof {
                let maxshift: u32 = if base < 17 {
                    (base - 1) as u32
                } else {
                    16u32
                };
                assert(shift <= maxshift);
                assert((1u32 << shift) <= (1u32 << maxshift)) by (bit_vector)
                    requires
                        shift <= maxshift,
                        maxshift <= 16u32,
                ;
                assert(unit_ticks * power <= unit_ticks * (1u32 << maxshift)) by (nonlinear_arith)
                    requires
                        power <= (1u32 << maxshift),
                ;
            }
            table.push(unit_ticks * power);
            d += 1;
        }
        DurationMap { table, name: "Exponential" }
    }

    /// Fixed: every digit maps to `ticks`.
    pub fn fixed(ticks: u32, base: u8) -> (r: DurationMap)
        ensures
            r.table@.len() == base,
            forall|i: int| 0 <= i < base ==> r.table@[i] == ticks,
            r.name@ == "Fixed"@,
    {
        let mut table: Vec<u32> = Vec::new();
        let mut d: usize = 0;
        while d < base as usize
            invariant
                d <= base as usize,
                table@.len() == d,
                forall|i: int| 0 <= i < d ==> table@[i] == ticks,
            decreases base as usize - d,
        {
            table.push(ticks);
            d += 1;
        }
        DurationMap { table, name: "Fixed" }
    }

    /// Custom lookup table; `table[d]` is the duration for digit `d`.
    pub fn custom(table: Vec<u32>) -> (r: DurationMap)
        ensures
            r.table@ == table@,
            r.name@ == "Custom"@,
    {
        DurationMap { table, name: "Custom" }
    }

    /// Ticks for digit `d`; wraps when `d` exceeds the table, and falls
    /// back to 120 ticks on an empty table.
    pub fn ticks_for(&self, d: u8) -> (r: u32)
        ensures
            r == ticks_for_spec(*self, d),
    {
        if self.table.len() == 0 {
            return 120;
        }
        self.table[(d as usize) % self.table.len()]
    }
}

// ───────────────────────────────────────────────────────────────────────
// Note
// ───────────────────────────────────────────────────────────────────────

/// A single resolved note: pitch, duration in ticks, and velocity.
#[derive(Clone, Copy, Debug, PartialEq, Eq, Structural)]
pub struct Note {
    /// MIDI note number (0-127).
    pub pitch: u8,
    /// Duration in MIDI ticks.
    pub duration: u32,
    /// MIDI velocity (0-127).
    pub velocity: u8,
}

/// The note a digit pair resolves to: the left digit picks the
/// duration, the right digit picks the pitch.
pub open spec fn note_of(pm: PitchMap, dm: DurationMap, velocity: u8, pair: (u8, u8)) -> Note {
    Note {
        pitch: note_for_spec(pm, pair.1),
        duration: ticks_for_spec(dm, pair.0),
        velocity,
    }
}

/// The notes a filter mask keeps, in order: pair `i` contributes its
/// note exactly when `acc[i]` holds.
pub open spec fn filtered_notes(
    pm: PitchMap,
    dm: DurationMap,
    velocity: u8,
    pairs: Seq<(u8, u8)>,
    acc: Seq<bool>,
) -> Seq<Note>
    recommends
        acc.len() >= pairs.len(),
    decreases pairs.len(),
{
    if pairs.len() == 0 {
        Seq::empty()
    } else {
        let rest = filtered_notes(pm, dm, velocity, pairs.drop_last(), acc);
        if acc.len() >= pairs.len() && acc[pairs.len() - 1] {
            rest.push(note_of(pm, dm, velocity, pairs.last()))
        } else {
            rest
        }
    }
}

/// Extending the mask beyond the pairs it covers changes nothing.
proof fn lemma_filtered_notes_extend(
    pm: PitchMap,
    dm: DurationMap,
    velocity: u8,
    pairs: Seq<(u8, u8)>,
    acc: Seq<bool>,
    b: bool,
)
    requires
        acc.len() >= pairs.len(),
    ensures
        filtered_notes(pm, dm, velocity, pairs, acc.push(b)) == filtered_notes(
            pm,
            dm,
            velocity,
            pairs,
            acc,
        ),
    decreases pairs.len(),
{
    if pairs.len() > 0 {
        lemma_filtered_notes_extend(pm, dm, velocity, pairs.drop_last(), acc, b);
        assert(acc.push(b)[pairs.len() - 1] == acc[pairs.len() - 1]);
    }
}

// ───────────────────────────────────────────────────────────────────────
// Byte layout of a standard MIDI file
// ───────────────────────────────────────────────────────────────────────

/// A 16-bit value in big-endian byte order.
pub open spec fn be16(x: nat) -> Seq<u8> {
    seq![((x / 0x100) % 0x100) as u8, (x % 0x100) as u8]
}

/// A 24-bit value in big-endian byte order.
pub open spec fn be24(x: nat) -> Seq<u8> {
    seq![((x / 0x1_0000) % 0x100) as u8, ((x / 0x100) % 0x100) as u8, (x % 0x100) as u8]
}

/// A 32-bit value in big-endian byte order.
pub open spec fn be32(x: nat) -> Seq<u8> {
    seq![
        ((x / 0x100_0000) % 0x100) as u8,
        ((x / 0x1_0000) % 0x100) as u8,
        ((x / 0x100) % 0x100) as u8,
        (x % 0x100) as u8,
    ]
}

/// The leading bytes of a variable-length quantity: 7 value bits per
/// byte, high bit set, most significant first.
pub open spec fn vlq_high(v: nat) -> Seq<u8>
    decreases v,
{
    if v == 0 {
        Seq::empty()
    } else {
        vlq_high(v / 128) + seq![((v % 128) + 128) as u8]
    }
}

/// A variable-length quantity: 7 bits per byte in big-endian
/// significance order, high bit set on all but the last byte.
pub open spec fn vlq_bytes(v: nat) -> Seq<u8> {
    vlq_high(v / 128) + seq![(v % 128) as u8]
}

/// The tempo meta-event at delta time 0: microseconds per beat as a
/// 24-bit big-endian value.
pub open spec fn tempo_event(bpm: nat) -> Seq<u8>
    recommends
        bpm >= 1,
{
    seq![0u8, 0xFF, 0x51, 0x03] + be24(60_000_000 as nat / bpm)
}

/// The track-name meta-event at delta time 0.
pub open spec fn name_event(nb: Seq<u8>) -> Seq<u8> {
    seq![0u8, 0xFF, 0x03] + vlq_bytes(nb.len()) + nb
}

/// The program-change event at delta time 0.
pub open spec fn program_event(channel: u8, program: u8) -> Seq<u8> {
    seq![0u8, (0xC0 + (channel % 16)) as u8, program]
}

/// One note: note-on at delta 0, note-off after the note's duration.
pub open spec fn note_event(n: Note, channel: u8) -> Seq<u8> {
    seq![0u8, (0x90 + (channel % 16)) as u8, n.pitch, n.velocity] + vlq_bytes(n.duration as nat)
        + seq![(0x80 + (channel % 16)) as u8, n.pitch, 0u8]
}

/// All note events of a track, in order.
pub open spec fn notes_events(notes: Seq<Note>, channel: u8) -> Seq<u8>
    decreases notes.len(),
{
    if notes.len() == 0 {
        Seq::empty()
    } else {
        notes_events(notes.drop_last(), channel) + note_event(notes.last(), channel)
    }
}

/// The end-of-track meta-event.
pub open spec fn eot_event() -> Seq<u8> {
    seq![0u8, 0xFF, 0x2F, 0x00]
}

/// The payload of a track chunk: tempo, track name, program change,
/// the notes, and end of track.
pub open spec fn track_chunk_spec(t: MidiTrack) -> Seq<u8> {
    tempo_event(t.tempo_bpm as nat) + name_event(vstd::utf8::encode_utf8(t.description@))
        + program_event(t.channel, t.instrument) + notes_events(t.notes@, t.channel) + eot_event()
}

/// The header chunk: `MThd`, length 6, format, track count, and ticks
/// per quarter note.
pub open spec fn header_spec(format: nat, ntracks: nat, tpq: nat) -> Seq<u8> {
    seq![0x4Du8, 0x54, 0x68, 0x64] + be32(6) + be16(format) + be16(ntracks) + be16(tpq)
}

/// A whole single-track (type 0) MIDI file.
pub open spec fn midi_file_spec(t: MidiTrack) -> Seq<u8> {
    header_spec(0, 1, t.ticks_per_quarter as nat) + seq![0x4Du8, 0x54, 0x72, 0x6B] + be32(
        track_chunk_spec(t).len() as nat,
    ) + track_chunk_spec(t)
}

/// `128^k`.
pub open spec fn pow128(k: nat) -> nat
    decreases k,
{
    if k == 0 {
        1
    } else {
        128 * pow128((k - 1) as nat)
    }
}

/// A UTF-8 encoding takes at most four bytes per character.
proof fn lemma_encode_utf8_len(chars: Seq<char>)
    ensures
        vstd::utf8::encode_utf8(chars).len() <= 4 * chars.len(),
    decreases chars.len(),
{
    if chars.len() > 0 {
        lemma_encode_utf8_len(chars.drop_first());
        assert(vstd::utf8::encode_scalar(chars[0] as u32).len() <= 4);
    }
}

proof fn lemma_vlq_high_len(v: nat, k: nat)
    requires
        v < pow128(k),
    ensures
        vlq_high(v).len() <= k,
    decreases k,
{
    if v > 0 {
        if k == 0 {
            assert(pow128(0) == 1);
        } else {
            assert(v / 128 < pow128((k - 1) as nat)) by (nonlinear_arith)
                requires
                    v < 128 * pow128((k - 1) as nat),
            ;
            lemma_vlq_high_len(v / 128, (k - 1) as nat);
        }
    }
}

/// A variable-length quantity of a 32-bit value is at most 5 bytes.
proof fn lemma_vlq_bytes_len(v: nat)
    requires
        v < 0x1_0000_0000,
    ensures
        vlq_bytes(v).len() <= 5,
{
    assert(pow128(0) == 1);
    assert(pow128(1) == 128);
    assert(pow128(2) == 0x4000);
    assert(pow128(3) == 0x20_0000);
    assert(pow128(4) == 0x1000_0000);
    assert(v / 128 < 0x1000_0000);
    lemma_vlq_high_len(v / 128, 4);
}

proof fn lemma_notes_events_len(notes: Seq<Note>, channel: u8)
    ensures
        notes_events(notes, channel).len() <= notes.len() * 16,
    decreases notes.len(),
{
    if notes.len() > 0 {
        lemma_notes_events_len(notes.drop_last(), channel);
        lemma_vlq_bytes_len(notes.last().duration as nat);
    }
}

/// Append a variable-length quantity's leading (high-bit) bytes.
fn push_vlq_high(buf: &mut Vec<u8>, v: u32)
    ensures
        final(buf)@ == old(buf)@ + vlq_high(v as nat),
    decreases v,
{
    if v > 0 {
        push_vlq_high(buf, v / 128);
        buf.push((v % 128 + 128) as u8);
        proof {
            assert((v as nat) / 128 == (v / 128) as nat);
            assert(buf@ =~= old(buf)@ + vlq_high(v as nat));
        }
    } else {
        proof {
            assert(buf@ =~= old(buf)@ + vlq_high(0));
        }
    }
}

/// Append a value as a MIDI variable-length quantity.
pub fn write_vlq(buf: &mut Vec<u8>, value: u32)
    ensures
        final(buf)@ == old(buf)@ + vlq_bytes(value as nat),
{
    push_vlq_high(buf, value / 128);
    buf.push((value % 128) as u8);
    proof {
        assert((value as nat) / 128 == (value / 128) as nat);
        assert(buf@ =~= old(buf)@ + vlq_bytes(value as nat));
    }
}

// ───────────────────────────────────────────────────────────────────────
// MidiTrack
// ───────────────────────────────────────────────────────────────────────

/// A resolved sequence of notes ready for MIDI serialisation.
pub struct MidiTrack {
    pub notes: Vec<Note>,
    pub ticks_per_quarter: u16,
    pub tempo_bpm: u32,
    pub instrument: u8,
    pub channel: u8,
    /// Source description embedded as the track name.
    pub description: String,
}

impl MidiTrack {
    /// Fits the MIDI format: a positive tempo, and a note count and
    /// track name short enough for the 32-bit chunk length.
    pub open spec fn wf(self) -> bool {
        &&& 1 <= self.tempo_bpm
        &&& self.notes@.len() <= 0x0010_0000
        &&& self.description@.len() <= 0x4000
    }

    /// The track chunk payload, exactly as [`track_chunk_spec`] lays it
    /// out.
    pub fn build_track_chunk(&self) -> (r: Vec<u8>)
        requires
            self.wf(),
        ensures
            r@ == track_chunk_spec(*self),
            r@.len() <= 0x0110_0000,
    {
        let mut t: Vec<u8> = Vec::new();

        // Tempo meta-event.
        let micros: u32 = 60_000_000 / self.tempo_bpm;
        t.push(0x00);
        t.push(0xFF);
        t.push(0x51);
        t.push(0x03);
        t.push(((micros / 0x1_0000) % 0x100) as u8);
        t.push(((micros / 0x100) % 0x100) as u8);
        t.push((micros % 0x100) as u8);
        proof {
            assert(t@ =~= tempo_event(self.tempo_bpm as nat));
        }

        // Track-name meta-event.
        proof {
            lemma_encode_utf8_len(self.description@);
        }
        let name = self.description.as_str().as_bytes();
        t.push(0x00);
        t.push(0xFF);
        t.push(0x03);
        write_vlq(&mut t, slice_len(name) as u32);
        extend_bytes(&mut t, name);
        proof {
            assert(t@ =~= tempo_event(self.tempo_bpm as nat) + name_event(
                vstd::utf8::encode_utf8(self.description@),
            ));
        }
        let ghost prefix2 = t@;

        // Program change.
        t.push(0x00);
        t.push(0xC0 + self.channel % 16);
        t.push(self.instrument);
        proof {
            assert(t@ =~= prefix2 + program_event(self.channel, self.instrument));
        }
        let ghost prefix3 = t@;

        // Note events.
        let n = self.notes.len();
        let mut i: usize = 0;
        while i < n
            invariant
                i <= n,
                n == self.notes@.len(),
                t@ == prefix3 + notes_events(self.notes@.take(i as int), self.channel),
            decreases n - i,
        {
            let ghost before = t@;
            let note = self.notes[i];
            t.push(0x00);
            t.push(0x90 + self.channel % 16);
            t.push(note.pitch);
            t.push(note.velocity);
            write_vlq(&mut t, note.duration);
            t.push(0x80 + self.channel % 16);
            t.push(note.pitch);
            t.push(0x00);
            i += 1;
            proof {
                assert(t@ =~= before + note_event(note, self.channel));
                assert(self.notes@.take(i as int).drop_last() =~= self.notes@.take(i - 1));
                assert(self.notes@.take(i as int).last() == self.notes@[i - 1]);
                assert(t@ =~= prefix3 + notes_events(self.notes@.take(i as int), self.channel));
            }
        }
        proof {
            assert(self.notes@.take(n as int) =~= self.notes@);
        }

        // End of track.
        t.push(0x00);
        t.push(0xFF);
        t.push(0x2F);
        t.push(0x00);
        proof {
            assert(t@ =~= track_chunk_spec(*self));
            lemma_notes_events_len(self.notes@, self.channel);
            lemma_encode_utf8_len(self.description@);
            lemma_vlq_bytes_len(vstd::utf8::encode_utf8(self.description@).len() as nat);
        }
        t
    }

    /// Serialise to the bytes of a complete type-0 MIDI file.
    pub fn to_bytes(&self) -> (r: Vec<u8>)
        requires
            self.wf(),
        ensures
            r@ == midi_file_spec(*self),
    {
        let track = self.build_track_chunk();
        let tlen: u32 = track.len() as u32;

        let mut out: Vec<u8> = Vec::new();
        out.push(0x4D);
        out.push(0x54);
        out.push(0x68);
        out.push(0x64);
        out.push(0x00);
        out.push(0x00);
        out.push(0x00);
        out.push(0x06);
        out.push(0x00);
        out.push(0x00);
        out.push(0x00);
        out.push(0x01);
        out.push((self.ticks_per_quarter / 0x100) as u8);
        out.push((self.ticks_per_quarter % 0x100) as u8);
        proof {
            assert(out@ =~= header_spec(0, 1, self.ticks_per_quarter as nat));
        }
        let ghost hdr = out@;
        out.push(0x4D);
        out.push(0x54);
        out.push(0x72);
        out.push(0x6B);
        out.push(((tlen / 0x100_0000) % 0x100) as u8);
        out.push(((tlen / 0x1_0000) % 0x100) as u8);
        out.push(((tlen / 0x100) % 0x100) as u8);
        out.push((tlen % 0x100) as u8);
        let ghost mid = out@;
        let mut tr = track;
        out.append(&mut tr);
        proof {
            assert(mid =~= hdr + seq![0x4Du8, 0x54, 0x72, 0x6B] + be32(
                track_chunk_spec(*self).len() as nat,
            ));
            assert(out@ =~= midi_file_spec(*self));
        }
        out
    }
}

/// The length of a byte slice.
fn slice_len(s: &[u8]) -> (r: usize)
    ensures
        r == s@.len(),
{
    s.len()
}

/// Append a byte slice to a buffer.
fn extend_bytes(buf: &mut Vec<u8>, s: &[u8])
    ensures
        final(buf)@ == old(buf)@ + s@,
{
    buf.extend_from_slice(s);
    proof {
        assert(buf@ =~= old(buf)@ + s@);
    }
}

// ───────────────────────────────────────────────────────────────────────
// Multi-track serialisation
// ───────────────────────────────────────────────────────────────────────

/// The track chunks of a type-1 file, in order: `MTrk`, chunk length,
/// chunk payload, for each track.
pub open spec fn tracks_chunks(tracks: Seq<MidiTrack>) -> Seq<u8>
    decreases tracks.len(),
{
    if tracks.len() == 0 {
        Seq::empty()
    } else {
        tracks_chunks(tracks.drop_last()) + seq![0x4Du8, 0x54, 0x72, 0x6B] + be32(
            track_chunk_spec(tracks.last()).len() as nat,
        ) + track_chunk_spec(tracks.last())
    }
}

/// Serialise several tracks to the bytes of a type-1 MIDI file sharing
/// the first track's resolution; an empty track list gives no bytes.
pub fn multi_track_bytes(tracks: &[MidiTrack]) -> (r: Vec<u8>)
    requires
        forall|i: int| 0 <= i < tracks@.len() ==> (#[trigger] tracks@[i]).wf(),
        tracks@.len() <= 0xFFFF,
    ensures
        tracks@.len() == 0 ==> r@ == Seq::<u8>::empty(),
        tracks@.len() > 0 ==> r@ == header_spec(
            1,
            tracks@.len() as nat,
            tracks@[0].ticks_per_quarter as nat,
        ) + tracks_chunks(tracks@),
{
    let n = tracks.len();
    if n == 0 {
        let r: Vec<u8> = Vec::new();
        proof {
            assert(r@ =~= Seq::<u8>::empty());
        }
        return r;
    }
    let tpq = tracks[0].ticks_per_quarter;
    let mut out: Vec<u8> = Vec::new();
    out.push(0x4D);
    out.push(0x54);
    out.push(0x68);
    out.push(0x64);
    out.push(0x00);
    out.push(0x00);
    out.push(0x00);
    out.push(0x06);
    out.push(0x00);
    out.push(0x01);
    out.push((n / 0x100) as u8);
    out.push((n % 0x100) as u8);
    out.push((tpq / 0x100) as u8);
    out.push((tpq % 0x100) as u8);
    proof {
        assert(out@ =~= header_spec(1, n as nat, tpq as nat));
    }
    let ghost hdr = out@;
    let mut i: usize = 0;
    while i < n
        invariant
            i <= n,
            n == tracks@.len(),
            forall|j: int| 0 <= j < tracks@.len() ==> (#[trigger] tracks@[j]).wf(),
            out@ == hdr + tracks_chunks(tracks@.take(i as int)),
        decreases n - i,
    {
        let ghost before = out@;
        let chunk = tracks[i].build_track_chunk();
        let clen: u32 = chunk.len() as u32;
        out.push(0x4D);
        out.push(0x54);
        out.push(0x72);
        out.push(0x6B);
        out.push(((clen / 0x100_0000) % 0x100) as u8);
        out.push(((clen / 0x1_0000) % 0x100) as u8);
        out.push(((clen / 0x100) % 0x100) as u8);
        out.push((clen % 0x100) as u8);
        let mut ch = chunk;
        out.append(&mut ch);
        i += 1;
        proof {
            assert(tracks@.take(i as int).drop_last() =~= tracks@.take(i - 1));
            assert(tracks@.take(i as int).last() == tracks@[i - 1]);
            assert(out@ =~= before + seq![0x4Du8, 0x54, 0x72, 0x6B] + be32(
                track_chunk_spec(tracks@[i - 1]).len() as nat,
            ) + track_chunk_spec(tracks@[i - 1]));
            assert(out@ =~= hdr + tracks_chunks(tracks@.take(i as int)));
        }
    }
    proof {
        assert(tracks@.take(n as int) =~= tracks@);
    }
    out
}

// ───────────────────────────────────────────────────────────────────────
// MidiComposer
// ───────────────────────────────────────────────────────────────────────

/// Two composers agree on the stream they will consume.
pub open spec fn same_stream(a: MidiComposer, b: MidiComposer) -> bool {
    a.stream_spec() == b.stream_spec()
}

/// Two composers agree on every builder setting: tempo, instrument,
/// both maps, velocity, channel, resolution and description.  Builder
/// steps state through this which settings they leave untouched.
pub open spec fn same_settings(a: MidiComposer, b: MidiComposer) -> bool {
    &&& a.tempo_spec() == b.tempo_spec()
    &&& a.instrument_spec() == b.instrument_spec()
    &&& a.pitch_map_spec() == b.pitch_map_spec()
    &&& a.duration_map_spec() == b.duration_map_spec()
    &&& a.velocity_spec() == b.velocity_spec()
    &&& a.channel_spec() == b.channel_spec()
    &&& a.tpq_spec() == b.tpq_spec()
    &&& a.description_spec() == b.description_spec()
}

/// Builder that consumes a [`DualStream`] zip to produce a
/// [`MidiTrack`]: the left digit of each pair selects the duration, the
/// right digit the pitch.
pub struct MidiComposer {
    stream: DualStream,
    tempo_bpm: u32,
    instrument: u8,
    pitch_map: PitchMap,
    duration_map: DurationMap,
    velocity: u8,
    channel: u8,
    tpq: u16,
    description: String,
}

impl MidiComposer {
    /// The stream the composer will consume.
    pub closed spec fn stream_spec(self) -> DualStream {
        self.stream
    }

    /// The configured tempo.
    pub closed spec fn tempo_spec(self) -> u32 {
        self.tempo_bpm
    }

    /// The configured instrument program.
    pub closed spec fn instrument_spec(self) -> u8 {
        self.instrument
    }

    /// The configured pitch map.
    pub closed spec fn pitch_map_spec(self) -> PitchMap {
        self.pitch_map
    }

    /// The configured duration map.
    pub closed spec fn duration_map_spec(self) -> DurationMap {
        self.duration_map
    }

    /// The configured velocity.
    pub closed spec fn velocity_spec(self) -> u8 {
        self.velocity
    }

    /// The configured channel.
    pub closed spec fn channel_spec(self) -> u8 {
        self.channel
    }

    /// The configured MIDI resolution.
    pub closed spec fn tpq_spec(self) -> u16 {
        self.tpq
    }

    /// The configured track description.
    pub closed spec fn description_spec(self) -> Seq<char> {
        self.description@
    }

    /// A composer whose settings can always be resolved into a valid
    /// track.
    pub closed spec fn wf(self) -> bool {
        &&& self.stream.wf()
        &&& 1 <= self.tempo_bpm <= 300
        &&& self.pitch_map.scale.intervals@.len() > 0
        &&& self.tpq >= 1
        &&& self.velocity <= 127
        &&& self.channel <= 15
        &&& self.instrument <= 127
        &&& self.description@.len() <= 0x4000
    }

    /// A composer over `stream` with the defaults: 120 beats per
    /// minute, program 0, C major from middle C, musical durations at
    /// 480 ticks per quarter, velocity 100, channel 0.
    pub fn new(stream: DualStream) -> (r: MidiComposer)
        requires
            stream.wf(),
        ensures
            r.wf(),
            r.stream_spec() == stream,
            r.tempo_spec() == 120,
            r.instrument_spec() == 0,
            r.velocity_spec() == 100,
            r.channel_spec() == 0,
            r.tpq_spec() == 480,
            r.pitch_map_spec().root == 60,
            r.pitch_map_spec().scale.intervals@ =~= seq![0u8, 2, 4, 5, 7, 9, 11],
            r.duration_map_spec().table@ =~= seq![
                60u32,
                120,
                180,
                240,
                360,
                480,
                720,
                960,
                1440,
                1920,
            ],
            r.description_spec() == "spigot_midi"@,
    {
        let label = "spigot_midi";
        proof {
            reveal_strlit("spigot_midi");
        }
        let description = bounded_owned(label);
        MidiComposer {
            stream,
            tempo_bpm: 120,
            instrument: 0,
            pitch_map: PitchMap::major(60),
            duration_map: DurationMap::musical(480),
            velocity: 100,
            channel: 0,
            tpq: 480,
            description,
        }
    }

    /// Set the tempo; it must be 1-300 beats per minute.
    pub fn tempo(self, bpm: u32) -> (r: MidiComposer)
        requires
            self.wf(),
            1 <= bpm <= 300,
        ensures
            r.wf(),
            same_stream(self, r),
            r.tempo_spec() == bpm,
            r.instrument_spec() == self.instrument_spec(),
            r.pitch_map_spec() == self.pitch_map_spec(),
            r.duration_map_spec() == self.duration_map_spec(),
            r.velocity_spec() == self.velocity_spec(),
            r.channel_spec() == self.channel_spec(),
            r.tpq_spec() == self.tpq_spec(),
            r.description_spec() == self.description_spec(),
    {
        MidiComposer { tempo_bpm: bpm, ..self }
    }

    /// Set the instrument from the General MIDI list.
    pub fn instrument(self, gm: GeneralMidi) -> (r: MidiComposer)
        requires
            self.wf(),
        ensures
            r.wf(),
            same_stream(self, r),
            r.tempo_spec() == self.tempo_spec(),
            r.instrument_spec() == crate::gm::gm_program(gm),
            r.pitch_map_spec() == self.pitch_map_spec(),
            r.duration_map_spec() == self.duration_map_spec(),
            r.velocity_spec() == self.velocity_spec(),
            r.channel_spec() == self.channel_spec(),
            r.tpq_spec() == self.tpq_spec(),
            r.description_spec() == self.description_spec(),
    {
        MidiComposer { instrument: gm.program(), ..self }
    }

    /// Set the instrument by raw program number, clamped to 0-127.
    pub fn instrument_raw(self, program: u8) -> (r: MidiComposer)
        requires
            self.wf(),
        ensures
            r.wf(),
            same_stream(self, r),
            r.tempo_spec() == self.tempo_spec(),
            r.instrument_spec() == (if program <= 127 {
                program
            } else {
                127
            }),
            r.pitch_map_spec() == self.pitch_map_spec(),
            r.duration_map_spec() == self.duration_map_spec(),
            r.velocity_spec() == self.velocity_spec(),
            r.channel_spec() == self.channel_spec(),
            r.tpq_spec() == self.tpq_spec(),
            r.description_spec() == self.description_spec(),
    {
        let p = if program > 127 {
            127
        } else {
            program
        };
        MidiComposer { instrument: p, ..self }
    }

    /// Set the pitch mapping; the scale must not be empty.
    pub fn pitch_map(self, pm: PitchMap) -> (r: MidiComposer)
        requires
            self.wf(),
            pm.scale.intervals@.len() > 0,
        ensures
            r.wf(),
            same_stream(self, r),
            r.tempo_spec() == self.tempo_spec(),
            r.instrument_spec() == self.instrument_spec(),
            r.pitch_map_spec() == pm,
            r.duration_map_spec() == self.duration_map_spec(),
            r.velocity_spec() == self.velocity_spec(),
            r.channel_spec() == self.channel_spec(),
            r.tpq_spec() == self.tpq_spec(),
            r.description_spec() == self.description_spec(),
    {
        MidiComposer { pitch_map: pm, ..self }
    }

    /// Set the duration mapping.
    pub fn duration_map(self, dm: DurationMap) -> (r: MidiComposer)
        requires
            self.wf(),
        ensures
            r.wf(),
            same_stream(self, r),
            r.tempo_spec() == self.tempo_spec(),
            r.instrument_spec() == self.instrument_spec(),
            r.pitch_map_spec() == self.pitch_map_spec(),
            r.duration_map_spec() == dm,
            r.velocity_spec() == self.velocity_spec(),
            r.channel_spec() == self.channel_spec(),
            r.tpq_spec() == self.tpq_spec(),
            r.description_spec() == self.description_spec(),
    {
        MidiComposer { duration_map: dm, ..self }
    }

    /// Set the MIDI resolution in ticks per quarter note; it must be
    /// positive.
    pub fn ticks_per_quarter(self, tpq: u16) -> (r: MidiComposer)
        requires
            self.wf(),
            tpq >= 1,
        ensures
            r.wf(),
            same_stream(self, r),
            r.tempo_spec() == self.tempo_spec(),
            r.instrument_spec() == self.instrument_spec(),
            r.pitch_map_spec() == self.pitch_map_spec(),
            r.duration_map_spec() == self.duration_map_spec(),
            r.velocity_spec() == self.velocity_spec(),
            r.channel_spec() == self.channel_spec(),
            r.tpq_spec() == tpq,
            r.description_spec() == self.description_spec(),
    {
        MidiComposer { tpq, ..self }
    }

    /// Set the note velocity, clamped to 0-127.
    pub fn velocity(self, v: u8) -> (r: MidiComposer)
        requires
            self.wf(),
        ensures
            r.wf(),
            same_stream(self, r),
            r.tempo_spec() == self.tempo_spec(),
            r.instrument_spec() == self.instrument_spec(),
            r.pitch_map_spec() == self.pitch_map_spec(),
            r.duration_map_spec() == self.duration_map_spec(),
            r.velocity_spec() == (if v <= 127 {
                v
            } else {
                127
            }),
            r.channel_spec() == self.channel_spec(),
            r.tpq_spec() == self.tpq_spec(),
            r.description_spec() == self.description_spec(),
    {
        let vv = if v > 127 {
            127
        } else {
            v
        };
        MidiComposer { velocity: vv, ..self }
    }

    /// Set the MIDI channel, wrapped to 0-15.
    pub fn channel(self, ch: u8) -> (r: MidiComposer)
        requires
            self.wf(),
        ensures
            r.wf(),
            same_stream(self, r),
            r.tempo_spec() == self.tempo_spec(),
            r.instrument_spec() == self.instrument_spec(),
            r.pitch_map_spec() == self.pitch_map_spec(),
            r.duration_map_spec() == self.duration_map_spec(),
            r.velocity_spec() == self.velocity_spec(),
            r.channel_spec() == (ch % 16) as u8,
            r.tpq_spec() == self.tpq_spec(),
            r.description_spec() == self.description_spec(),
    {
        MidiComposer { channel: ch % 16, ..self }
    }

    /// Set the descriptive label embedded as the MIDI track name.  A
    /// label longer than the format can frame is ignored.
    pub fn description(self, s: &str) -> (r: MidiComposer)
        requires
            self.wf(),
        ensures
            r.wf(),
            same_stream(self, r),
            r.tempo_spec() == self.tempo_spec(),
            r.instrument_spec() == self.instrument_spec(),
            r.pitch_map_spec() == self.pitch_map_spec(),
            r.duration_map_spec() == self.duration_map_spec(),
            r.velocity_spec() == self.velocity_spec(),
            r.channel_spec() == self.channel_spec(),
            r.tpq_spec() == self.tpq_spec(),
            r.description_spec() == (if s@.len() <= 0x4000 {
                s@
            } else {
                self.description_spec()
            }),
    {
        if s.unicode_len() <= 0x4000 {
            MidiComposer { description: s.to_owned(), ..self }
        } else {
            self
        }
    }

    /// Advance the left (duration) cursor by `n` digits before
    /// composing.  Only the left position moves; every builder setting,
    /// the right side and the snippet store stay as they are.
    pub fn drop_left(self, n: usize) -> (r: MidiComposer)
        requires
            self.wf(),
        ensures
            r.wf(),
            same_settings(self, r),
            r.stream_spec().left_spec().cfg_spec() == self.stream_spec().left_spec().cfg_spec(),
            r.stream_spec().left_spec().digits_spec() == self.stream_spec().left_spec().digits_spec(),
            r.stream_spec().right_spec() == self.stream_spec().right_spec(),
            r.stream_spec().snippets_spec() == self.stream_spec().snippets_spec(),
            self.stream_spec().left_spec().pos_spec() + n <= usize::MAX ==> r.stream_spec(
            ).left_spec().pos_spec() == self.stream_spec().left_spec().pos_spec() + n,
            self.stream_spec().left_spec().pos_spec() + n > usize::MAX ==> r.stream_spec(
            ).left_spec().pos_spec() == usize::MAX,
    {
        let mut c = self;
        proof {
            crate::stream::lemma_wf_sides(c.stream);
        }
        c.stream.left().drop(n);
        proof {
            crate::stream::lemma_wf_rebuild(self.stream_spec(), c.stream);
        }
        c
    }

    /// Advance the right (pitch) cursor by `n` digits before composing.
    /// Only the right position moves; every builder setting, the left
    /// side and the snippet store stay as they are.
    pub fn drop_right(self, n: usize) -> (r: MidiComposer)
        requires
            self.wf(),
        ensures
            r.wf(),
            same_settings(self, r),
            r.stream_spec().right_spec().cfg_spec() == self.stream_spec().right_spec().cfg_spec(),
            r.stream_spec().right_spec().digits_spec() == self.stream_spec().right_spec().digits_spec(),
            r.stream_spec().left_spec() == self.stream_spec().left_spec(),
            r.stream_spec().snippets_spec() == self.stream_spec().snippets_spec(),
            self.stream_spec().right_spec().pos_spec() + n <= usize::MAX ==> r.stream_spec(
            ).right_spec().pos_spec() == self.stream_spec().right_spec().pos_spec() + n,
            self.stream_spec().right_spec().pos_spec() + n > usize::MAX ==> r.stream_spec(
            ).right_spec().pos_spec() == usize::MAX,
    {
        let mut c = self;
        proof {
            crate::stream::lemma_wf_sides(c.stream);
        }
        c.stream.right().drop(n);
        proof {
            crate::stream::lemma_wf_rebuild(self.stream_spec(), c.stream);
        }
        c
    }

    /// Swap the duration and pitch streams as whole units, leaving
    /// every builder setting untouched, so twisting twice composes
    /// exactly as never twisting.
    pub fn twist(self) -> (r: MidiComposer)
        requires
            self.wf(),
        ensures
            r.wf(),
            same_settings(self, r),
            r.stream_spec() == self.stream_spec().twisted(),
            r.stream_spec().left_spec() == self.stream_spec().right_spec(),
            r.stream_spec().right_spec() == self.stream_spec().left_spec(),
            r.stream_spec().snippets_spec() == self.stream_spec().snippets_spec(),
    {
        let mut c = self;
        c.stream.twist();
        c
    }

    /// Consume `n` pairs from the zip stream and resolve them into a
    /// track: each pair gives one note, the left digit its duration and
    /// the right digit its pitch.  Zero notes are rejected.
    pub fn compose(self, n: usize) -> (r: Result<MidiTrack, String>)
        requires
            self.wf(),
        ensures
            n == 0 <==> r is Err,
            r is Ok ==> {
                let t = r.unwrap();
                &&& t.wf()
                &&& t.ticks_per_quarter == self.tpq_spec()
                &&& t.tempo_bpm == self.tempo_spec()
                &&& t.instrument == self.instrument_spec()
                &&& t.channel == self.channel_spec()
                &&& t.description@ == self.description_spec()
                &&& t.notes@.len() <= n
                &&& self.stream_spec().left_spec().pos_spec() + n
                    <= crate::digits::MAX_DIGITS && self.stream_spec().right_spec().pos_spec()
                    + n <= crate::digits::MAX_DIGITS ==> t.notes@.len() == n
                &&& forall|i: int|
                    0 <= i < t.notes@.len() ==> (#[trigger] t.notes@[i]).velocity
                        == self.velocity_spec() && t.notes@[i].pitch <= 127
                &&& modeled(self.stream_spec().left_spec().cfg_spec().constant) && modeled(
                    self.stream_spec().right_spec().cfg_spec().constant,
                ) ==> forall|i: int|
                    0 <= i < t.notes@.len() ==> (#[trigger] t.notes@[i]) == note_of(
                        self.pitch_map_spec(),
                        self.duration_map_spec(),
                        self.velocity_spec(),
                        zip_model(
                            self.stream_spec().left_spec().cfg_spec(),
                            self.stream_spec().right_spec().cfg_spec(),
                            self.stream_spec().left_spec().pos_spec(),
                            self.stream_spec().right_spec().pos_spec(),
                            t.notes@.len() as nat,
                        )[i],
                    )
            },
    {
        if n == 0 {
            return Err(error_text_zero_notes());
        }
        let mut c = self;
        let pairs = c.stream.zip_take(n);
        let m = pairs.len();
        let mut notes: Vec<Note> = Vec::new();
        let mut i: usize = 0;
        while i < m
            invariant
                i <= m,
                m == pairs@.len(),
                m <= crate::digits::MAX_DIGITS,
                notes@.len() == i,
                c.pitch_map == self.pitch_map_spec(),
                c.duration_map == self.duration_map_spec(),
                c.velocity == self.velocity_spec(),
                self.wf(),
                forall|j: int|
                    0 <= j < i ==> (#[trigger] notes@[j]) == note_of(
                        self.pitch_map_spec(),
                        self.duration_map_spec(),
                        self.velocity_spec(),
                        pairs@[j],
                    ),
            decreases m - i,
        {
            let (l, rr) = (pairs[i].0, pairs[i].1);
            let note = Note {
                pitch: c.pitch_map.note_for(rr),
                duration: c.duration_map.ticks_for(l),
                velocity: c.velocity,
            };
            notes.push(note);
            i += 1;
        }
        Ok(
            MidiTrack {
                notes,
                ticks_per_quarter: c.tpq,
                tempo_bpm: c.tempo_bpm,
                instrument: c.instrument,
                channel: c.channel,
                description: c.description,
            },
        )
    }

    /// Like [`MidiComposer::compose`] but apply a filter to the zip
    /// stream first: only pairs accepted by `pred` contribute notes.
    /// Exactly `n` pairs are consumed from the stream regardless; a
    /// request for zero pairs, or a filter that rejects every pair, is
    /// an error.  The result is exactly the filtered note sequence of
    /// the consumed pairs: some acceptance mask agreed by `pred` keeps
    /// precisely the pairs whose notes appear, in order, and an error
    /// comes if and only if nothing was kept.
    pub fn compose_filtered<P: Fn(u8, u8) -> bool>(self, n: usize, pred: P) -> (r: Result<
        MidiTrack,
        String,
    >)
        requires
            self.wf(),
            forall|l: u8, d: u8| #[trigger] pred.requires((l, d)),
        ensures
            n == 0 ==> r is Err,
            r is Ok ==> {
                let t = r.unwrap();
                &&& t.wf()
                &&& t.ticks_per_quarter == self.tpq_spec()
                &&& t.tempo_bpm == self.tempo_spec()
                &&& t.instrument == self.instrument_spec()
                &&& t.channel == self.channel_spec()
                &&& t.description@ == self.description_spec()
                &&& 1 <= t.notes@.len() <= n
                &&& forall|i: int|
                    0 <= i < t.notes@.len() ==> (#[trigger] t.notes@[i]).velocity
                        == self.velocity_spec() && t.notes@[i].pitch <= 127
            },
            n > 0 ==> exists|pairs: Seq<(u8, u8)>, acc: Seq<bool>|
                #![trigger filtered_notes(self.pitch_map_spec(), self.duration_map_spec(), self.velocity_spec(), pairs, acc)]
                {
                    &&& acc.len() == pairs.len()
                    &&& pairs.len() <= n
                    &&& self.stream_spec().left_spec().pos_spec() + n <= crate::digits::MAX_DIGITS
                        && self.stream_spec().right_spec().pos_spec() + n
                        <= crate::digits::MAX_DIGITS ==> pairs.len() == n
                    &&& forall|i: int|
                        0 <= i < pairs.len() ==> pred.ensures(
                            ((#[trigger] pairs[i]).0, pairs[i].1),
                            acc[i],
                        )
                    &&& modeled(self.stream_spec().left_spec().cfg_spec().constant) && modeled(
                        self.stream_spec().right_spec().cfg_spec().constant,
                    ) ==> pairs == zip_model(
                        self.stream_spec().left_spec().cfg_spec(),
                        self.stream_spec().right_spec().cfg_spec(),
                        self.stream_spec().left_spec().pos_spec(),
                        self.stream_spec().right_spec().pos_spec(),
                        pairs.len() as nat,
                    )
                    &&& (r is Err <==> forall|i: int| 0 <= i < acc.len() ==> !(#[trigger] acc[i]))
                    &&& r is Ok ==> r.unwrap().notes@ == filtered_notes(
                        self.pitch_map_spec(),
                        self.duration_map_spec(),
                        self.velocity_spec(),
                        pairs,
                        acc,
                    )
                },
    {
        if n == 0 {
            return Err(error_text_zero_notes());
        }
        let mut c = self;
        let pairs = c.stream.zip_take(n);
        let m = pairs.len();
        let ghost gpairs = pairs@;
        let ghost mut acc: Seq<bool> = Seq::empty();
        let mut notes: Vec<Note> = Vec::new();
        let mut i: usize = 0;
        while i < m
            invariant
                i <= m,
                m == pairs@.len(),
                gpairs == pairs@,
                m <= crate::digits::MAX_DIGITS,
                acc.len() == i,
                notes@.len() <= i,
                c.pitch_map == self.pitch_map_spec(),
                c.duration_map == self.duration_map_spec(),
                c.velocity == self.velocity_spec(),
                self.wf(),
                forall|l: u8, d: u8| #[trigger] pred.requires((l, d)),
                forall|j: int|
                    0 <= j < i ==> pred.ensures(((#[trigger] gpairs[j]).0, gpairs[j].1), acc[j]),
                notes@ == filtered_notes(
                    self.pitch_map_spec(),
                    self.duration_map_spec(),
                    self.velocity_spec(),
                    gpairs.take(i as int),
                    acc,
                ),
                (exists|j: int| 0 <= j < i && acc[j]) <==> notes@.len() > 0,
                forall|j: int|
                    0 <= j < notes@.len() ==> (#[trigger] notes@[j]).velocity
                        == self.velocity_spec() && notes@[j].pitch <= 127,
            decreases m - i,
        {
            let (l, rr) = (pairs[i].0, pairs[i].1);
            let keep = pred(l, rr);
            let ghost oldacc = acc;
            proof {
                acc = acc.push(keep);
                lemma_filtered_notes_extend(
                    self.pitch_map_spec(),
                    self.duration_map_spec(),
                    self.velocity_spec(),
                    gpairs.take(i as int),
                    oldacc,
                    keep,
                );
            }
            if keep {
                let note = Note {
                    pitch: c.pitch_map.note_for(rr),
                    duration: c.duration_map.ticks_for(l),
                    velocity: c.velocity,
                };
                notes.push(note);
            }
            i += 1;
            proof {
                assert(gpairs.take(i as int).drop_last() =~= gpairs.take(i - 1));
                assert(gpairs.take(i as int).last() == gpairs[i - 1]);
                assert(acc[i - 1] == keep);
                assert(forall|j: int| 0 <= j < i - 1 ==> acc[j] == oldacc[j]);
                if keep {
                    assert(0 <= i - 1 < i && acc[i - 1]);
                    assert(exists|j: int| 0 <= j < i && acc[j]);
                } else {
                    if notes@.len() > 0 {
                        let j0 = choose|j: int| 0 <= j < i - 1 && oldacc[j];
                        assert(0 <= j0 < i && acc[j0]);
                        assert(exists|j: int| 0 <= j < i && acc[j]);
                    }
                    assert forall|j: int| 0 <= j < i && #[trigger] acc[j] implies notes@.len()
                        > 0 by {
                        assert(j < i - 1 && oldacc[j]);
                    }
                }
            }
        }
        proof {
            assert(gpairs.take(m as int) =~= gpairs);
            assert(notes@ == filtered_notes(
                self.pitch_map_spec(),
                self.duration_map_spec(),
                self.velocity_spec(),
                gpairs,
                acc,
            ));
        }
        if notes.len() == 0 {
            proof {
                assert(forall|j: int| 0 <= j < acc.len() ==> !(#[trigger] acc[j]));
            }
            return Err(error_text_all_filtered());
        }
        Ok(
            MidiTrack {
                notes,
                ticks_per_quarter: c.tpq,
                tempo_bpm: c.tempo_bpm,
                instrument: c.instrument,
                channel: c.channel,
                description: c.description,
            },
        )
    }
}

/// The error for a composition of zero notes.
fn error_text_zero_notes() -> String {
    bounded_owned("n must be > 0")
}

/// The error for a filter that rejected every pair.
fn error_text_all_filtered() -> String {
    bounded_owned("filter rejected all notes")
}

/// Own a string short enough to fit a MIDI name event.
fn bounded_owned(s: &str) -> (r: String)
    ensures
        r@.len() <= 0x4000,
        s@.len() <= 0x4000 ==> r@ == s@,
{
    if s.unicode_len() <= 0x4000 {
        s.to_owned()
    } else {
        String::new()
    }
}

} // verus!
