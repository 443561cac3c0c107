//! General MIDI instrument numbers (program 0-127).

use vstd::prelude::*;

verus! {

/// General MIDI instruments, in program-number order starting at 0.
///
/// Use [`GeneralMidi::program`] to get the raw program number.
#[derive(Clone, Copy, Debug, PartialEq, Eq, Structural)]
pub enum GeneralMidi {
    AcousticGrandPiano,
    BrightAcousticPiano,
    ElectricGrandPiano,
    HonkyTonkPiano,
    ElectricPiano1,
    ElectricPiano2,
    Harpsichord,
    Clavinet,
    Celesta,
    Glockenspiel,
    MusicBox,
    Vibraphone,
    Marimba,
    Xylophone,
    TubularBells,
    Dulcimer,
    DrawbarOrgan,
    PercussiveOrgan,
    RockOrgan,
    ChurchOrgan,
    ReedOrgan,
    Accordion,
    Harmonica,
    TangoAccordion,
    AcousticGuitarNylon,
    AcousticGuitarSteel,
    ElectricGuitarJazz,
    ElectricGuitarClean,
    ElectricGuitarMuted,
    OverdrivenGuitar,
    DistortionGuitar,
    GuitarHarmonics,
    AcousticBass,
    ElectricBassFinger,
    ElectricBassPick,
    FretlessBass,
    SlapBass1,
    SlapBass2,
    SynthBass1,
    SynthBass2,
    Violin,
    Viola,
    Cello,
    Contrabass,
    TremoloStrings,
    PizzicatoStrings,
    OrchestralHarp,
    Timpani,
    StringEnsemble1,
    StringEnsemble2,
    SynthStrings1,
    SynthStrings2,
    ChoirAahs,
    VoiceOohs,
    SynthVoice,
    OrchestraHit,
    Trumpet,
    Trombone,
    Tuba,
    MutedTrumpet,
    FrenchHorn,
    BrassSection,
    SynthBrass1,
    SynthBrass2,
    SopranoSax,
    AltoSax,
    TenorSax,
    BaritoneSax,
    Oboe,
    EnglishHorn,
    Bassoon,
    Clarinet,
    Piccolo,
    Flute,
    Recorder,
    PanFlute,
    BlownBottle,
    Shakuhachi,
    Whistle,
    Ocarina,
    Lead1Square,
    Lead2Sawtooth,
    Lead3Calliope,
    Lead4Chiff,
    Lead5Charang,
    Lead6Voice,
    Lead7Fifths,
    Lead8BassLead,
    Pad1NewAge,
    Pad2Warm,
    Pad3Polysynth,
    Pad4Choir,
    Pad5Bowed,
    Pad6Metallic,
    Pad7Halo,
    Pad8Sweep,
    Fx1Rain,
    Fx2Soundtrack,
    Fx3Crystal,
    Fx4Atmosphere,
    Fx5Brightness,
    Fx6Goblins,
    Fx7Echoes,
    Fx8Scifi,
    Sitar,
    Banjo,
    Shamisen,
    Koto,
    Kalimba,
    BagPipe,
    Fiddle,
    Shanai,
    TinkleBell,
    Agogo,
    SteelDrums,
    Woodblock,
    TaikoDrum,
    MelodicTom,
    SynthDrum,
    ReverseCymbal,
    GuitarFretNoise,
    BreathNoise,
    Seashore,
    BirdTweet,
    TelephoneRing,
    Helicopter,
    Applause,
    Gunshot,
}

impl GeneralMidi {
    /// Raw MIDI program number (0-127), following the General MIDI
    /// ordering of the variants.
    pub fn program(self) -> (r: u8)
        ensures
            r == gm_program(self),
            r <= 127,
    {
        match self {
            GeneralMidi::AcousticGrandPiano => 0,
            GeneralMidi::BrightAcousticPiano => 1,
            GeneralMidi::ElectricGrandPiano => 2,
            GeneralMidi::HonkyTonkPiano => 3,
            GeneralMidi::ElectricPiano1 => 4,
            GeneralMidi::ElectricPiano2 => 5,
            GeneralMidi::Harpsichord => 6,
            GeneralMidi::Clavinet => 7,
            GeneralMidi::Celesta => 8,
            GeneralMidi::Glockenspiel => 9,
            GeneralMidi::MusicBox => 10,
            GeneralMidi::Vibraphone => 11,
            GeneralMidi::Marimba => 12,
            GeneralMidi::Xylophone => 13,
            GeneralMidi::TubularBells => 14,
            GeneralMidi::Dulcimer => 15,
            GeneralMidi::DrawbarOrgan => 16,
            GeneralMidi::PercussiveOrgan => 17,
            GeneralMidi::RockOrgan => 18,
            GeneralMidi::ChurchOrgan => 19,
            GeneralMidi::ReedOrgan => 20,
            GeneralMidi::Accordion => 21,
            GeneralMidi::Harmonica => 22,
            GeneralMidi::TangoAccordion => 23,
            GeneralMidi::AcousticGuitarNylon => 24,
            GeneralMidi::AcousticGuitarSteel => 25,
            GeneralMidi::ElectricGuitarJazz => 26,
            GeneralMidi::ElectricGuitarClean => 27,
            GeneralMidi::ElectricGuitarMuted => 28,
            GeneralMidi::OverdrivenGuitar => 29,
            GeneralMidi::DistortionGuitar => 30,
            GeneralMidi::GuitarHarmonics => 31,
            GeneralMidi::AcousticBass => 32,
            GeneralMidi::ElectricBassFinger => 33,
            GeneralMidi::ElectricBassPick => 34,
            GeneralMidi::FretlessBass => 35,
            GeneralMidi::SlapBass1 => 36,
            GeneralMidi::SlapBass2 => 37,
            GeneralMidi::SynthBass1 => 38,
            GeneralMidi::SynthBass2 => 39,
            GeneralMidi::Violin => 40,
            GeneralMidi::Viola => 41,
            GeneralMidi::Cello => 42,
            GeneralMidi::Contrabass => 43,
            GeneralMidi::TremoloStrings => 44,
            GeneralMidi::PizzicatoStrings => 45,
            GeneralMidi::OrchestralHarp => 46,
            GeneralMidi::Timpani => 47,
            GeneralMidi::StringEnsemble1 => 48,
            GeneralMidi::StringEnsemble2 => 49,
            GeneralMidi::SynthStrings1 => 50,
            GeneralMidi::SynthStrings2 => 51,
            GeneralMidi::ChoirAahs => 52,
            GeneralMidi::VoiceOohs => 53,
            GeneralMidi::SynthVoice => 54,
            GeneralMidi::OrchestraHit => 55,
            GeneralMidi::Trumpet => 56,
            GeneralMidi::Trombone => 57,
            GeneralMidi::Tuba => 58,
            GeneralMidi::MutedTrumpet => 59,
            GeneralMidi::FrenchHorn => 60,
            GeneralMidi::BrassSection => 61,
            GeneralMidi::SynthBrass1 => 62,
            GeneralMidi::SynthBrass2 => 63,
            GeneralMidi::SopranoSax => 64,
            GeneralMidi::AltoSax => 65,
            GeneralMidi::TenorSax => 66,
            GeneralMidi::BaritoneSax => 67,
            GeneralMidi::Oboe => 68,
            GeneralMidi::EnglishHorn => 69,
            GeneralMidi::Bassoon => 70,
            GeneralMidi::Clarinet => 71,
            GeneralMidi::Piccolo => 72,
            GeneralMidi::Flute => 73,
            GeneralMidi::Recorder => 74,
            GeneralMidi::PanFlute => 75,
            GeneralMidi::BlownBottle => 76,
            GeneralMidi::Shakuhachi => 77,
            GeneralMidi::Whistle => 78,
            GeneralMidi::Ocarina => 79,
            GeneralMidi::Lead1Square => 80,
            GeneralMidi::Lead2Sawtooth => 81,
            GeneralMidi::Lead3Calliope => 82,
            GeneralMidi::Lead4Chiff => 83,
            GeneralMidi::Lead5Charang => 84,
            GeneralMidi::Lead6Voice => 85,
            GeneralMidi::Lead7Fifths => 86,
            GeneralMidi::Lead8BassLead => 87,
            GeneralMidi::Pad1NewAge => 88,
            GeneralMidi::Pad2Warm => 89,
            GeneralMidi::Pad3Polysynth => 90,
            GeneralMidi::Pad4Choir => 91,
            GeneralMidi::Pad5Bowed => 92,
            GeneralMidi::Pad6Metallic => 93,
            GeneralMidi::Pad7Halo => 94,
            GeneralMidi::Pad8Sweep => 95,
            GeneralMidi::Fx1Rain => 96,
            GeneralMidi::Fx2Soundtrack => 97,
            GeneralMidi::Fx3Crystal => 98,
            GeneralMidi::Fx4Atmosphere => 99,
            GeneralMidi::Fx5Brightness => 100,
            GeneralMidi::Fx6Goblins => 101,
            GeneralMidi::Fx7Echoes => 102,
            GeneralMidi::Fx8Scifi => 103,
            GeneralMidi::Sitar => 104,
            GeneralMidi::Banjo => 105,
            GeneralMidi::Shamisen => 106,
            GeneralMidi::Koto => 107,
            GeneralMidi::Kalimba => 108,
            GeneralMidi::BagPipe => 109,
            GeneralMidi::Fiddle => 110,
            GeneralMidi::Shanai => 111,
            GeneralMidi::TinkleBell => 112,
            GeneralMidi::Agogo => 113,
            GeneralMidi::SteelDrums => 114,
            GeneralMidi::Woodblock => 115,
            GeneralMidi::TaikoDrum => 116,
            GeneralMidi::MelodicTom => 117,
            GeneralMidi::SynthDrum => 118,
            GeneralMidi::ReverseCymbal => 119,
            GeneralMidi::GuitarFretNoise => 120,
            GeneralMidi::BreathNoise => 121,
            GeneralMidi::Seashore => 122,
            GeneralMidi::BirdTweet => 123,
            GeneralMidi::TelephoneRing => 124,
            GeneralMidi::Helicopter => 125,
            GeneralMidi::Applause => 126,
            GeneralMidi::Gunshot => 127,
        }
    }

    /// Human-readable name: the instrument's own name for the commonly
    /// picked variants, a generic label for the rest.
    pub fn name(self) -> (r: &'static str)
        ensures
            r@ == gm_display_name(self),
    {
        match self {
            GeneralMidi::AcousticGrandPiano => "Acoustic Grand Piano",
            GeneralMidi::BrightAcousticPiano => "Bright Acoustic Piano",
            GeneralMidi::ElectricGrandPiano => "Electric Grand Piano",
            GeneralMidi::HonkyTonkPiano => "Honky-Tonk Piano",
            GeneralMidi::ElectricPiano1 => "Electric Piano 1",
            GeneralMidi::ElectricPiano2 => "Electric Piano 2",
            GeneralMidi::Harpsichord => "Harpsichord",
            GeneralMidi::Clavinet => "Clavinet",
            GeneralMidi::Celesta => "Celesta",
            GeneralMidi::Glockenspiel => "Glockenspiel",
            GeneralMidi::MusicBox => "Music Box",
            GeneralMidi::Vibraphone => "Vibraphone",
            GeneralMidi::Marimba => "Marimba",
            GeneralMidi::Xylophone => "Xylophone",
            GeneralMidi::TubularBells => "Tubular Bells",
            GeneralMidi::Dulcimer => "Dulcimer",
            GeneralMidi::AcousticGuitarNylon => "Acoustic Guitar (nylon)",
            GeneralMidi::AcousticGuitarSteel => "Acoustic Guitar (steel)",
            GeneralMidi::ElectricGuitarJazz => "Electric Guitar (jazz)",
            GeneralMidi::OverdrivenGuitar => "Overdriven Guitar",
            GeneralMidi::DistortionGuitar => "Distortion Guitar",
            GeneralMidi::AcousticBass => "Acoustic Bass",
            GeneralMidi::ElectricBassFinger => "Electric Bass (finger)",
            GeneralMidi::SynthBass1 => "Synth Bass 1",
            GeneralMidi::Violin => "Violin",
            GeneralMidi::Viola => "Viola",
            GeneralMidi::Cello => "Cello",
            GeneralMidi::Trumpet => "Trumpet",
            GeneralMidi::Trombone => "Trombone",
            GeneralMidi::FrenchHorn => "French Horn",
            GeneralMidi::AltoSax => "Alto Sax",
            GeneralMidi::TenorSax => "Tenor Sax",
            GeneralMidi::Oboe => "Oboe",
            GeneralMidi::Clarinet => "Clarinet",
            GeneralMidi::Flute => "Flute",
            GeneralMidi::Lead1Square => "Lead 1 (Square)",
            GeneralMidi::Lead2Sawtooth => "Lead 2 (Sawtooth)",
            GeneralMidi::Pad1NewAge => "Pad 1 (New Age)",
            GeneralMidi::Pad2Warm => "Pad 2 (Warm)",
            GeneralMidi::Pad4Choir => "Pad 4 (Choir)",
            GeneralMidi::Sitar => "Sitar",
            GeneralMidi::Kalimba => "Kalimba",
            GeneralMidi::SteelDrums => "Steel Drums",
            _ => "General MIDI Instrument",
        }
    }
}

/// The display name [`GeneralMidi::name`] returns for each variant.
pub open spec fn gm_display_name(gm: GeneralMidi) -> Seq<char> {
    match gm {
        GeneralMidi::AcousticGrandPiano => "Acoustic Grand Piano"@,
        GeneralMidi::BrightAcousticPiano => "Bright Acoustic Piano"@,
        GeneralMidi::ElectricGrandPiano => "Electric Grand Piano"@,
        GeneralMidi::HonkyTonkPiano => "Honky-Tonk Piano"@,
        GeneralMidi::ElectricPiano1 => "Electric Piano 1"@,
        GeneralMidi::ElectricPiano2 => "Electric Piano 2"@,
        GeneralMidi::Harpsichord => "Harpsichord"@,
        GeneralMidi::Clavinet => "Clavinet"@,
        GeneralMidi::Celesta => "Celesta"@,
        GeneralMidi::Glockenspiel => "Glockenspiel"@,
        GeneralMidi::MusicBox => "Music Box"@,
        GeneralMidi::Vibraphone => "Vibraphone"@,
        GeneralMidi::Marimba => "Marimba"@,
        GeneralMidi::Xylophone => "Xylophone"@,
        GeneralMidi::TubularBells => "Tubular Bells"@,
        GeneralMidi::Dulcimer => "Dulcimer"@,
        GeneralMidi::AcousticGuitarNylon => "Acoustic Guitar (nylon)"@,
        GeneralMidi::AcousticGuitarSteel => "Acoustic Guitar (steel)"@,
        GeneralMidi::ElectricGuitarJazz => "Electric Guitar (jazz)"@,
        GeneralMidi::OverdrivenGuitar => "Overdriven Guitar"@,
        GeneralMidi::DistortionGuitar => "Distortion Guitar"@,
        GeneralMidi::AcousticBass => "Acoustic Bass"@,
        GeneralMidi::ElectricBassFinger => "Electric Bass (finger)"@,
        GeneralMidi::SynthBass1 => "Synth Bass 1"@,
        GeneralMidi::Violin => "Violin"@,
        GeneralMidi::Viola => "Viola"@,
        GeneralMidi::Cello => "Cello"@,
        GeneralMidi::Trumpet => "Trumpet"@,
        GeneralMidi::Trombone => "Trombone"@,
        GeneralMidi::FrenchHorn => "French Horn"@,
        GeneralMidi::AltoSax => "Alto Sax"@,
        GeneralMidi::TenorSax => "Tenor Sax"@,
        GeneralMidi::Oboe => "Oboe"@,
        GeneralMidi::Clarinet => "Clarinet"@,
        GeneralMidi::Flute => "Flute"@,
        GeneralMidi::Lead1Square => "Lead 1 (Square)"@,
        GeneralMidi::Lead2Sawtooth => "Lead 2 (Sawtooth)"@,
        GeneralMidi::Pad1NewAge => "Pad 1 (New Age)"@,
        GeneralMidi::Pad2Warm => "Pad 2 (Warm)"@,
        GeneralMidi::Pad4Choir => "Pad 4 (Choir)"@,
        GeneralMidi::Sitar => "Sitar"@,
        GeneralMidi::Kalimba => "Kalimba"@,
        GeneralMidi::SteelDrums => "Steel Drums"@,
        _ => "General MIDI Instrument"@,
    }
}

/// The program number of each General MIDI instrument.
pub open spec fn gm_program(gm: GeneralMidi) -> u8 {
    match gm {
        GeneralMidi::AcousticGrandPiano => 0,
        GeneralMidi::BrightAcousticPiano => 1,
        GeneralMidi::ElectricGrandPiano => 2,
        GeneralMidi::HonkyTonkPiano => 3,
        GeneralMidi::ElectricPiano1 => 4,
        GeneralMidi::ElectricPiano2 => 5,
        GeneralMidi::Harpsichord => 6,
        GeneralMidi::Clavinet => 7,
        GeneralMidi::Celesta => 8,
        GeneralMidi::Glockenspiel => 9,
        GeneralMidi::MusicBox => 10,
        GeneralMidi::Vibraphone => 11,
        GeneralMidi::Marimba => 12,
        GeneralMidi::Xylophone => 13,
        GeneralMidi::TubularBells => 14,
        GeneralMidi::Dulcimer => 15,
        GeneralMidi::DrawbarOrgan => 16,
        GeneralMidi::PercussiveOrgan => 17,
        GeneralMidi::RockOrgan => 18,
        GeneralMidi::ChurchOrgan => 19,
        GeneralMidi::ReedOrgan => 20,
        GeneralMidi::Accordion => 21,
        GeneralMidi::Harmonica => 22,
        GeneralMidi::TangoAccordion => 23,
        GeneralMidi::AcousticGuitarNylon => 24,
        GeneralMidi::AcousticGuitarSteel => 25,
        GeneralMidi::ElectricGuitarJazz => 26,
        GeneralMidi::ElectricGuitarClean => 27,
        GeneralMidi::ElectricGuitarMuted => 28,
        GeneralMidi::OverdrivenGuitar => 29,
        GeneralMidi::DistortionGuitar => 30,
        GeneralMidi::GuitarHarmonics => 31,
        GeneralMidi::AcousticBass => 32,
        GeneralMidi::ElectricBassFinger => 33,
        GeneralMidi::ElectricBassPick => 34,
        GeneralMidi::FretlessBass => 35,
        GeneralMidi::SlapBass1 => 36,
        GeneralMidi::SlapBass2 => 37,
        GeneralMidi::SynthBass1 => 38,
        GeneralMidi::SynthBass2 => 39,
        GeneralMidi::Violin => 40,
        GeneralMidi::Viola => 41,
        GeneralMidi::Cello => 42,
        GeneralMidi::Contrabass => 43,
        GeneralMidi::TremoloStrings => 44,
        GeneralMidi::PizzicatoStrings => 45,
        GeneralMidi::OrchestralHarp => 46,
        GeneralMidi::Timpani => 47,
        GeneralMidi::StringEnsemble1 => 48,
        GeneralMidi::StringEnsemble2 => 49,
        GeneralMidi::SynthStrings1 => 50,
        GeneralMidi::SynthStrings2 => 51,
        GeneralMidi::ChoirAahs => 52,
        GeneralMidi::VoiceOohs => 53,
        GeneralMidi::SynthVoice => 54,
        GeneralMidi::OrchestraHit => 55,
        GeneralMidi::Trumpet => 56,
        GeneralMidi::Trombone => 57,
        GeneralMidi::Tuba => 58,
        GeneralMidi::MutedTrumpet => 59,
        GeneralMidi::FrenchHorn => 60,
        GeneralMidi::BrassSection => 61,
        GeneralMidi::SynthBrass1 => 62,
        GeneralMidi::SynthBrass2 => 63,
        GeneralMidi::SopranoSax => 64,
        GeneralMidi::AltoSax => 65,
        GeneralMidi::TenorSax => 66,
        GeneralMidi::BaritoneSax => 67,
        GeneralMidi::Oboe => 68,
        GeneralMidi::EnglishHorn => 69,
        GeneralMidi::Bassoon => 70,
        GeneralMidi::Clarinet => 71,
        GeneralMidi::Piccolo => 72,
        GeneralMidi::Flute => 73,
        GeneralMidi::Recorder => 74,
        GeneralMidi::PanFlute => 75,
        GeneralMidi::BlownBottle => 76,
        GeneralMidi::Shakuhachi => 77,
        GeneralMidi::Whistle => 78,
        GeneralMidi::Ocarina => 79,
        GeneralMidi::Lead1Square => 80,
        GeneralMidi::Lead2Sawtooth => 81,
        GeneralMidi::Lead3Calliope => 82,
        GeneralMidi::Lead4Chiff => 83,
        GeneralMidi::Lead5Charang => 84,
        GeneralMidi::Lead6Voice => 85,
        GeneralMidi::Lead7Fifths => 86,
        GeneralMidi::Lead8BassLead => 87,
        GeneralMidi::Pad1NewAge => 88,
        GeneralMidi::Pad2Warm => 89,
        GeneralMidi::Pad3Polysynth => 90,
        GeneralMidi::Pad4Choir => 91,
        GeneralMidi::Pad5Bowed => 92,
        GeneralMidi::Pad6Metallic => 93,
        GeneralMidi::Pad7Halo => 94,
        GeneralMidi::Pad8Sweep => 95,
        GeneralMidi::Fx1Rain => 96,
        GeneralMidi::Fx2Soundtrack => 97,
        GeneralMidi::Fx3Crystal => 98,
        GeneralMidi::Fx4Atmosphere => 99,
        GeneralMidi::Fx5Brightness => 100,
        GeneralMidi::Fx6Goblins => 101,
        GeneralMidi::Fx7Echoes => 102,
        GeneralMidi::Fx8Scifi => 103,
        GeneralMidi::Sitar => 104,
        GeneralMidi::Banjo => 105,
        GeneralMidi::Shamisen => 106,
        GeneralMidi::Koto => 107,
        GeneralMidi::Kalimba => 108,
        GeneralMidi::BagPipe => 109,
        GeneralMidi::Fiddle => 110,
        GeneralMidi::Shanai => 111,
        GeneralMidi::TinkleBell => 112,
        GeneralMidi::Agogo => 113,
        GeneralMidi::SteelDrums => 114,
        GeneralMidi::Woodblock => 115,
        GeneralMidi::TaikoDrum => 116,
        GeneralMidi::MelodicTom => 117,
        GeneralMidi::SynthDrum => 118,
        GeneralMidi::ReverseCymbal => 119,
        GeneralMidi::GuitarFretNoise => 120,
        GeneralMidi::BreathNoise => 121,
        GeneralMidi::Seashore => 122,
        GeneralMidi::BirdTweet => 123,
        GeneralMidi::TelephoneRing => 124,
        GeneralMidi::Helicopter => 125,
        GeneralMidi::Applause => 126,
        GeneralMidi::Gunshot => 127,
    }
}

/// The display name of a raw program number, for the instrument
/// pickers; programs without a listed name show as a dash.
pub fn gm_name(program: u8) -> (r: &'static str) {
    match program {
        0 => "Acoustic Grand Piano",
        1 => "Bright Acoustic Piano",
        2 => "Electric Grand Piano",
        3 => "Honky-Tonk Piano",
        4 => "Electric Piano 1",
        5 => "Electric Piano 2",
        6 => "Harpsichord",
        7 => "Clavinet",
        8 => "Celesta",
        9 => "Glockenspiel",
        10 => "Music Box",
        11 => "Vibraphone",
        12 => "Marimba",
        13 => "Xylophone",
        14 => "Tubular Bells",
        15 => "Dulcimer",
        40 => "Violin",
        41 => "Viola",
        42 => "Cello",
        43 => "Contrabass",
        44 => "Tremolo Strings",
        45 => "Pizzicato Strings",
        46 => "Orchestral Harp",
        47 => "Timpani",
        56 => "Trumpet",
        57 => "Trombone",
        58 => "Tuba",
        59 => "Muted Trumpet",
        60 => "French Horn",
        61 => "Brass Section",
        62 => "Synth Brass 1",
        63 => "Synth Brass 2",
        64 => "Soprano Sax",
        65 => "Alto Sax",
        66 => "Tenor Sax",
        67 => "Baritone Sax",
        68 => "Oboe",
        69 => "English Horn",
        70 => "Bassoon",
        71 => "Clarinet",
        72 => "Piccolo",
        73 => "Flute",
        74 => "Recorder",
        75 => "Pan Flute",
        76 => "Blown Bottle",
        77 => "Shakuhachi",
        78 => "Whistle",
        79 => "Ocarina",
        80 => "Lead 1 (Square)",
        81 => "Lead 2 (Sawtooth)",
        82 => "Lead 3 (Calliope)",
        83 => "Lead 4 (Chiff)",
        84 => "Lead 5 (Charang)",
        85 => "Lead 6 (Voice)",
        86 => "Lead 7 (Fifths)",
        87 => "Lead 8 (Bass+Lead)",
        88 => "Pad 1 (New Age)",
        89 => "Pad 2 (Warm)",
        90 => "Pad 3 (Polysynth)",
        91 => "Pad 4 (Choir)",
        92 => "Pad 5 (Bowed)",
        93 => "Pad 6 (Metallic)",
        94 => "Pad 7 (Halo)",
        95 => "Pad 8 (Sweep)",
        _ => "-",
    }
}

} // verus!
