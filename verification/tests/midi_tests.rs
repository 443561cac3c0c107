use leap_spigot::multi_track_bytes;
use leap_spigot::write_vlq;
use leap_spigot::Constant;
use leap_spigot::DualStream;
use leap_spigot::DurationMap;
use leap_spigot::GeneralMidi;
use leap_spigot::MidiComposer;
use leap_spigot::MidiTrack;
use leap_spigot::Note;
use leap_spigot::PitchMap;
use leap_spigot::Scale;

// ── VLQ encoding ─────────────────────────────────────────────────────

#[test]
fn vlq_single_byte() {
    let mut b = Vec::new();
    write_vlq(&mut b, 0x40);
    assert_eq!(b, [0x40]);
}

#[test]
fn vlq_two_bytes() {
    let mut b = Vec::new();
    write_vlq(&mut b, 128);
    assert_eq!(b, [0x81, 0x00]);
}

#[test]
fn vlq_three_bytes() {
    let mut b = Vec::new();
    write_vlq(&mut b, 0x3FFF);
    assert_eq!(b, [0xFF, 0x7F]);
}

#[test]
fn vlq_five_bytes_max() {
    let mut b = Vec::new();
    write_vlq(&mut b, u32::MAX);
    assert_eq!(b, [0x8F, 0xFF, 0xFF, 0xFF, 0x7F]);
}

// ── PitchMap ─────────────────────────────────────────────────────────

#[test]
fn pitch_map_major_root() {
    let pm = PitchMap::major(60);
    assert_eq!(pm.note_for(0), 60);
    assert_eq!(pm.note_for(1), 62);
    assert_eq!(pm.note_for(2), 64);
    assert_eq!(pm.note_for(6), 71);
}

#[test]
fn pitch_map_major_octave_wrap() {
    let pm = PitchMap::major(60);
    assert_eq!(pm.note_for(7), 72);
}

#[test]
fn pitch_map_pentatonic() {
    let pm = PitchMap::pentatonic_major(60);
    assert_eq!(pm.note_for(0), 60);
    assert_eq!(pm.note_for(1), 62);
    assert_eq!(pm.note_for(4), 69);
    assert_eq!(pm.note_for(5), 72);
}

#[test]
fn pitch_map_clamp_at_127() {
    let pm = PitchMap::chromatic(120);
    assert_eq!(pm.note_for(9), 127);
}

// ── DurationMap ──────────────────────────────────────────────────────

#[test]
fn duration_map_musical_quarter() {
    let dm = DurationMap::musical(480);
    // digit 5 = quarter note = 480 ticks
    assert_eq!(dm.ticks_for(5), 480);
}

#[test]
fn duration_map_linear() {
    let dm = DurationMap::linear(120, 10);
    assert_eq!(dm.ticks_for(0), 120);
    assert_eq!(dm.ticks_for(9), 1200);
}

#[test]
fn duration_map_fixed() {
    let dm = DurationMap::fixed(240, 10);
    for d in 0..10 {
        assert_eq!(dm.ticks_for(d), 240);
    }
}

#[test]
fn duration_map_wraps() {
    let dm = DurationMap::custom(vec![100, 200, 300]);
    assert_eq!(dm.ticks_for(3), 100);
    assert_eq!(dm.ticks_for(4), 200);
}

#[test]
fn duration_map_empty_falls_back() {
    let dm = DurationMap::custom(vec![]);
    assert_eq!(dm.ticks_for(0), 120);
    assert_eq!(dm.ticks_for(7), 120);
}

#[test]
fn duration_map_exponential_doubles() {
    let dm = DurationMap::exponential(30, 10);
    assert_eq!(dm.ticks_for(0), 30);
    assert_eq!(dm.ticks_for(1), 60);
    assert_eq!(dm.ticks_for(2), 120);
    assert_eq!(dm.ticks_for(9), 30 * 512);
}

#[test]
fn default_description_embedded() {
    let ds = DualStream::new(Constant::Pi, Constant::E);
    let track = MidiComposer::new(ds).compose(1).unwrap();
    assert_eq!(track.description, "spigot_midi");
}

// ── GeneralMidi ──────────────────────────────────────────────────────

#[test]
fn gm_program_numbers() {
    assert_eq!(GeneralMidi::AcousticGrandPiano.program(), 0);
    assert_eq!(GeneralMidi::Vibraphone.program(), 11);
    assert_eq!(GeneralMidi::Flute.program(), 73);
    assert_eq!(GeneralMidi::Gunshot.program(), 127);
}

// ── compose ──────────────────────────────────────────────────────────

#[test]
fn compose_note_count() {
    let ds = DualStream::new(Constant::Pi, Constant::E);
    let track = MidiComposer::new(ds).compose(16).unwrap();
    assert_eq!(track.notes.len(), 16);
}

#[test]
fn compose_first_note() {
    // pi starts with digit 3 (duration), e with digit 2 (pitch):
    // musical(480) maps digit 3 to the 8th note (240 ticks) and
    // major(60) maps digit 2 to E4 (note 64).
    let ds = DualStream::new(Constant::Pi, Constant::E);
    let track = MidiComposer::new(ds)
        .pitch_map(PitchMap::major(60))
        .duration_map(DurationMap::musical(480))
        .compose(1)
        .unwrap();
    assert_eq!(track.notes[0].pitch, 64);
    assert_eq!(track.notes[0].duration, 240);
}

#[test]
fn compose_zero_notes_is_error() {
    let ds = DualStream::new(Constant::Pi, Constant::E);
    assert!(MidiComposer::new(ds).compose(0).is_err());
}

#[test]
fn compose_filtered_all_rejected_is_error() {
    let ds = DualStream::new(Constant::Pi, Constant::E);
    let r = MidiComposer::new(ds).compose_filtered(10, |_, _| false);
    assert!(r.is_err());
}

// ── MIDI file structure ──────────────────────────────────────────────

#[test]
fn midi_bytes_header() {
    let ds = DualStream::new(Constant::Pi, Constant::E);
    let track = MidiComposer::new(ds).compose(4).unwrap();
    let bytes = track.to_bytes();
    assert_eq!(&bytes[0..4], b"MThd");
    assert_eq!(bytes[8], 0);
    assert_eq!(bytes[9], 0);
    assert_eq!(bytes[10], 0);
    assert_eq!(bytes[11], 1);
}

#[test]
fn midi_bytes_has_mtrk() {
    let ds = DualStream::new(Constant::Pi, Constant::E);
    let bytes = MidiComposer::new(ds).compose(4).unwrap().to_bytes();
    assert_eq!(&bytes[14..18], b"MTrk");
}

#[test]
fn midi_bytes_ends_with_eot() {
    let ds = DualStream::new(Constant::Pi, Constant::E);
    let bytes = MidiComposer::new(ds).compose(4).unwrap().to_bytes();
    let n = bytes.len();
    assert_eq!(&bytes[n - 3..], &[0xFF, 0x2F, 0x00]);
}

#[test]
fn track_bytes_exact() {
    // One C4 quarter note at 120 BPM on channel 0, program 5.
    let track = MidiTrack {
        notes: vec![Note { pitch: 60, duration: 480, velocity: 100 }],
        ticks_per_quarter: 480,
        tempo_bpm: 120,
        instrument: 5,
        channel: 0,
        description: String::from("ab"),
    };
    let bytes = track.to_bytes();
    let expected: Vec<u8> = vec![
        // MThd, length 6, format 0, one track, 480 ticks per quarter.
        0x4D, 0x54, 0x68, 0x64, 0, 0, 0, 6, 0, 0, 0, 1, 0x01, 0xE0,
        // MTrk and chunk length.
        0x4D, 0x54, 0x72, 0x6B, 0, 0, 0, 29,
        // Tempo: 500000 us per beat.
        0x00, 0xFF, 0x51, 0x03, 0x07, 0xA1, 0x20,
        // Track name "ab".
        0x00, 0xFF, 0x03, 0x02, 0x61, 0x62,
        // Program change.
        0x00, 0xC0, 0x05,
        // Note on, note off after 480 ticks (VLQ 83 60).
        0x00, 0x90, 0x3C, 0x64, 0x83, 0x60, 0x80, 0x3C, 0x00,
        // End of track.
        0x00, 0xFF, 0x2F, 0x00,
    ];
    assert_eq!(bytes, expected);
}

// ── velocity and instrument propagate ────────────────────────────────

#[test]
fn velocity_propagates() {
    let ds = DualStream::new(Constant::Pi, Constant::E);
    let track = MidiComposer::new(ds).velocity(64).compose(4).unwrap();
    for n in &track.notes {
        assert_eq!(n.velocity, 64);
    }
}

#[test]
fn instrument_stored() {
    let ds = DualStream::new(Constant::Pi, Constant::E);
    let track = MidiComposer::new(ds).instrument(GeneralMidi::Vibraphone).compose(4).unwrap();
    assert_eq!(track.instrument, 11);
}

// ── drop shifts the streams ──────────────────────────────────────────

#[test]
fn drop_right_shifts_pitch() {
    let ds1 = DualStream::new(Constant::Pi, Constant::E);
    let t1 = MidiComposer::new(ds1).pitch_map(PitchMap::chromatic(0)).compose(1).unwrap();

    let ds2 = DualStream::new(Constant::Pi, Constant::E);
    let t2 = MidiComposer::new(ds2)
        .drop_right(1)
        .pitch_map(PitchMap::chromatic(0))
        .compose(1)
        .unwrap();

    assert_ne!(t1.notes[0].pitch, t2.notes[0].pitch);
}

// ── compose_filtered ─────────────────────────────────────────────────

#[test]
fn compose_filtered_count() {
    let ds = DualStream::new(Constant::Pi, Constant::E);
    let track = MidiComposer::new(ds).compose_filtered(20, |l, _| l % 2 != 0).unwrap();
    assert!(!track.notes.is_empty());
    assert!(track.notes.len() <= 20);
}

// ── multi-track ──────────────────────────────────────────────────────

#[test]
fn multi_track_format1_header() {
    let t1 = MidiComposer::new(DualStream::new(Constant::Pi, Constant::E)).compose(4).unwrap();
    let t2 = MidiComposer::new(DualStream::new(Constant::Ln2, Constant::E)).compose(4).unwrap();
    let bytes = multi_track_bytes(&[t1, t2]);
    assert_eq!(&bytes[0..4], b"MThd");
    assert_eq!(bytes[8], 0);
    assert_eq!(bytes[9], 1);
    assert_eq!(bytes[10], 0);
    assert_eq!(bytes[11], 2);
}

#[test]
fn multi_track_empty_gives_no_bytes() {
    let bytes = multi_track_bytes(&[]);
    assert!(bytes.is_empty());
}

#[test]
fn scale_helpers() {
    assert_eq!(Scale::major().len(), 7);
    assert!(!Scale::major().is_empty());
    assert!(Scale::custom(vec![]).is_empty());
    assert_eq!(Scale::chromatic().len(), 12);
    assert_eq!(Scale::diminished().len(), 8);
    assert_eq!(Scale::lydian().len(), 7);
    assert_eq!(Scale::mixolydian().len(), 7);
    assert_eq!(Scale::minor().len(), 7);
    assert_eq!(Scale::pentatonic_minor().len(), 5);
    assert_eq!(Scale::dorian().len(), 7);
    assert_eq!(Scale::phrygian().len(), 7);
    assert_eq!(Scale::whole_tone().len(), 6);
}

#[test]
fn composer_builder_settings() {
    let ds = DualStream::new(Constant::Champernowne, Constant::ThueMorse);
    let track = MidiComposer::new(ds)
        .tempo(90)
        .instrument_raw(200)
        .velocity(255)
        .channel(18)
        .ticks_per_quarter(96)
        .description("duet")
        .compose(3)
        .unwrap();
    assert_eq!(track.tempo_bpm, 90);
    assert_eq!(track.instrument, 127);
    assert_eq!(track.notes[0].velocity, 127);
    assert_eq!(track.channel, 2);
    assert_eq!(track.ticks_per_quarter, 96);
    assert_eq!(track.description, "duet");
}

#[test]
fn gm_name_table() {
    assert_eq!(leap_spigot::gm_name(0), "Acoustic Grand Piano");
    assert_eq!(leap_spigot::gm_name(11), "Vibraphone");
    assert_eq!(leap_spigot::gm_name(73), "Flute");
    assert_eq!(leap_spigot::gm_name(127), "-");
}
