use leap_spigot::char_glyph;
use leap_spigot::digit_color;
use leap_spigot::ticks_to_ms;
use leap_spigot::translate_sim_input;
use leap_spigot::AppConfig;
use leap_spigot::AppState;
use leap_spigot::Constant;
use leap_spigot::DurationMap;
use leap_spigot::DualStream;
use leap_spigot::GestureEvent;
use leap_spigot::NoteEvent;
use leap_spigot::PitchMap;
use leap_spigot::PlayState;
use leap_spigot::Player;
use leap_spigot::PlayerCommand;
use leap_spigot::PlayerEffect;
use leap_spigot::RibbonState;
use leap_spigot::ScissorAnimation;
use leap_spigot::SimInput;
use leap_spigot::SimKey;
use leap_spigot::SnippetTray;
use leap_spigot::StitchPhase;

fn make_app() -> AppState {
    AppState::new(AppConfig::default())
}

// ── player pacing ────────────────────────────────────────────────────

#[test]
fn ticks_to_ms_quarter_at_120bpm() {
    assert_eq!(ticks_to_ms(480, 480, 120), 500);
}

#[test]
fn ticks_to_ms_eighth_at_120bpm() {
    assert_eq!(ticks_to_ms(240, 480, 120), 250);
}

#[test]
fn ticks_to_ms_min_floor() {
    assert_eq!(ticks_to_ms(1, 480, 120), 50);
}

// ── digit colors ─────────────────────────────────────────────────────

#[test]
fn digit_color_distinct() {
    let c0 = digit_color(0, 10);
    let c5 = digit_color(5, 10);
    assert_ne!(c0, c5);
}

#[test]
fn digit_color_alpha_opaque() {
    for d in 0..10 {
        let c = digit_color(d, 10);
        assert_eq!(c >> 24, 0xFF, "digit {} color should be opaque", d);
    }
}

// ── ribbons ──────────────────────────────────────────────────────────

#[test]
fn ribbon_capacity() {
    let mut r = RibbonState::new(5, 10, "test");
    for i in 0..8usize {
        r.push((i % 10) as u8, i);
    }
    assert_eq!(r.patches.len(), 5);
    assert_eq!(r.patches.last().unwrap().digit, 7);
}

#[test]
fn ribbon_scroll_friction() {
    let mut r = RibbonState::new(10, 10, "test");
    r.kick(100);
    assert!(r.scroll_vel_milli > 0);
    for _ in 0..100 {
        r.tick(40_000);
    }
    assert_eq!(r.scroll_vel_milli, 0);
}

#[test]
fn stitch_phase_stitching_completes() {
    let mut p = StitchPhase::Stitching { progress: 0 };
    let mut done = false;
    for _ in 0..100 {
        if p.tick() {
            done = true;
            break;
        }
    }
    assert!(done);
    assert_eq!(p, StitchPhase::Stitched);
}

#[test]
fn tray_max_entries() {
    let mut tray = SnippetTray::default();
    for i in 0..10 {
        tray.deposit(&format!("s{}", i), vec![]);
    }
    assert!(tray.entries.len() <= 8);
}

#[test]
fn tray_drops_oldest_first() {
    let mut tray = SnippetTray::default();
    for i in 0..10 {
        tray.deposit(&format!("s{}", i), vec![]);
    }
    assert_eq!(tray.entries.len(), 8);
    assert_eq!(tray.entries[0].name, "s2");
    assert_eq!(tray.entries[7].name, "s9");
}

#[test]
fn ribbon_push_drops_oldest_first() {
    let mut r = RibbonState::new(3, 10, "test");
    for i in 0..5usize {
        r.push(i as u8, i);
    }
    let digits: Vec<u8> = r.patches.iter().map(|p| p.digit).collect();
    assert_eq!(digits, vec![2, 3, 4]);
    assert_eq!(r.patches[0].position, 2);
}

#[test]
fn scissor_animation_completes_within_bound() {
    let mut a = ScissorAnimation::new(0, 5);
    assert!(!a.done());
    for _ in 0..25 {
        a.tick();
    }
    assert!(a.done());
}

#[test]
fn glyph_zero_shape() {
    assert_eq!(char_glyph('0'), [0b111, 0b101, 0b101, 0b101, 0b111]);
    assert_eq!(char_glyph(' '), [0, 0, 0, 0, 0]);
}

// ── gestures on the orchestrator ─────────────────────────────────────

#[test]
fn pull_left_advances_ribbon() {
    let mut app = make_app();
    let before = app.dual().left_pos();
    app.handle_gesture(GestureEvent::PullLeft { steps: 3, velocity: 50 });
    assert_eq!(app.dual().left_pos(), before + 3);
}

#[test]
fn pull_pushes_digits_and_kicks_scroll() {
    let mut app = make_app();
    let before = app.dual().left_pos();
    app.handle_gesture(GestureEvent::PullLeft { steps: 3, velocity: 50 });
    let rib = app.left_ribbon();
    let newest = rib.patches.last().unwrap();
    assert_eq!(newest.position, before + 3);
    assert_eq!(rib.scroll_vel_milli, 50 * 120);
}

#[test]
fn pull_right_does_not_move_left() {
    let mut app = make_app();
    let lbefore = app.dual().left_pos();
    app.handle_gesture(GestureEvent::PullRight { steps: 5, velocity: 50 });
    assert_eq!(app.dual().left_pos(), lbefore);
    assert_eq!(app.dual().right_pos(), 5);
}

#[test]
fn twist_swaps_labels() {
    let mut app = make_app();
    let ll_before = app.left_ribbon().label.clone();
    let rl_before = app.right_ribbon().label.clone();
    app.handle_gesture(GestureEvent::Twist);
    assert_ne!(app.left_ribbon().label, ll_before);
    assert_eq!(app.left_ribbon().label, rl_before);
}

#[test]
fn clap_starts_playing() {
    let mut app = make_app();
    assert_eq!(app.play_state(), PlayState::Stopped);
    let cmd = app.handle_gesture(GestureEvent::Clap);
    assert_eq!(app.play_state(), PlayState::Playing);
    assert_eq!(cmd, Some(PlayerCommand::Play));
}

#[test]
fn second_clap_is_noop() {
    let mut app = make_app();
    app.handle_gesture(GestureEvent::Clap);
    let cmd = app.handle_gesture(GestureEvent::Clap);
    assert_eq!(app.play_state(), PlayState::Playing);
    assert_eq!(cmd, None);
}

#[test]
fn unclap_stops_playing() {
    let mut app = make_app();
    app.handle_gesture(GestureEvent::Clap);
    let cmd = app.handle_gesture(GestureEvent::Unclap);
    assert_eq!(app.play_state(), PlayState::Stopped);
    assert_eq!(cmd, Some(PlayerCommand::Stop));
}

#[test]
fn clap_unclap_stitch_phases() {
    let mut app = make_app();
    app.handle_gesture(GestureEvent::Clap);
    assert!(matches!(app.stitch(), StitchPhase::Stitching { .. }));
    app.handle_gesture(GestureEvent::Unclap);
    assert!(matches!(app.stitch(), StitchPhase::Unstitching { .. }));
}

#[test]
fn unstitching_reaches_unstitched() {
    let mut app = make_app();
    app.handle_gesture(GestureEvent::Clap);
    app.handle_gesture(GestureEvent::Unclap);
    for _ in 0..100 {
        app.tick(&vec![]);
    }
    assert_eq!(*app.stitch(), StitchPhase::Unstitched);
}

#[test]
fn snip_deposits_to_tray() {
    let mut app = make_app();
    app.handle_gesture(GestureEvent::PullLeft { steps: 10, velocity: 50 });
    app.handle_gesture(GestureEvent::PullRight { steps: 10, velocity: 50 });
    app.do_snip("test_snip");
    assert_eq!(app.tray().entries.len(), 1);
    assert_eq!(app.tray().entries[0].name, "test_snip");
}

#[test]
fn snip_stored_in_dual() {
    let mut app = make_app();
    app.handle_gesture(GestureEvent::PullLeft { steps: 5, velocity: 50 });
    app.do_snip("my_snip");
    assert!(app.dual().get_snippet("my_snip").is_some());
}

#[test]
fn scissor_animation_triggered_by_snip() {
    let mut app = make_app();
    app.handle_gesture(GestureEvent::PullLeft { steps: 5, velocity: 50 });
    app.do_snip("anim_test");
    assert!(app.scissor_anim().is_some());
}

#[test]
fn tick_advances_stitch_animation() {
    let mut app = make_app();
    app.handle_gesture(GestureEvent::Clap);
    assert!(matches!(app.stitch(), StitchPhase::Stitching { .. }));
    for _ in 0..100 {
        app.tick(&vec![]);
    }
    assert_eq!(*app.stitch(), StitchPhase::Stitched);
}

#[test]
fn tick_highlights_latest_note() {
    let mut app = make_app();
    let note = NoteEvent { pitch: 60, duration: 480, velocity: 100, left_pos: 3, right_pos: 3 };
    app.tick(&vec![note]);
    // The prefilled ribbon records positions 0.., so some patch at or
    // past position 2 must be highlighted.
    let i = app.note_highlight().unwrap();
    assert!(app.left_ribbon().patches[i].position + 1 >= 3);
}

// ── the player engine ────────────────────────────────────────────────

#[test]
fn player_commands_change_state() {
    let ds = DualStream::new(Constant::Pi, Constant::E);
    let mut p = Player::new(ds, PitchMap::major(60), DurationMap::musical(480), 7, 120, 100, 0);
    assert!(!p.is_playing());
    assert_eq!(p.apply_command(PlayerCommand::Play), PlayerEffect::ProgramChange(7));
    assert!(p.is_playing());
    assert_eq!(p.apply_command(PlayerCommand::SetInstrument(11)), PlayerEffect::ProgramChange(11));
    assert_eq!(p.apply_command(PlayerCommand::SetTempo(90)), PlayerEffect::Nothing);
    assert_eq!(p.apply_command(PlayerCommand::Stop), PlayerEffect::Nothing);
    assert!(!p.is_playing());
    assert_eq!(p.apply_command(PlayerCommand::Quit), PlayerEffect::Terminate);
    assert!(p.is_done());
}

#[test]
fn player_produces_notes_only_while_playing() {
    let ds = DualStream::new(Constant::Pi, Constant::E);
    let mut p = Player::new(ds, PitchMap::major(60), DurationMap::musical(480), 0, 120, 100, 0);
    assert!(p.next_note().is_none());
    p.apply_command(PlayerCommand::Play);
    let (ev, ms) = p.next_note().unwrap();
    // pi digit 3 -> 8th note (240 ticks), e digit 2 -> E4.
    assert_eq!(ev.pitch, 64);
    assert_eq!(ev.duration, 240);
    assert_eq!(ms, 250);
    assert_eq!(ev.left_pos, 1);
    assert_eq!(ev.right_pos, 1);
}

#[test]
fn player_notes_match_composition() {
    // The playback engine consumes exactly the pairs a composer over an
    // equal configuration consumes, so the notes agree one for one.
    let pm = PitchMap::major(60);
    let dm = DurationMap::musical(480);
    let ds1 = DualStream::new(Constant::Pi, Constant::E);
    let mut p = Player::new(ds1, pm.clone(), dm.clone(), 0, 120, 100, 0);
    p.apply_command(PlayerCommand::Play);
    let mut played = Vec::new();
    for _ in 0..6 {
        let (ev, _ms) = p.next_note().unwrap();
        played.push((ev.pitch, ev.duration, ev.velocity));
    }
    let ds2 = DualStream::new(Constant::Pi, Constant::E);
    let track = leap_spigot::MidiComposer::new(ds2).pitch_map(pm).duration_map(dm).compose(6).unwrap();
    let composed: Vec<(u8, u32, u8)> =
        track.notes.iter().map(|n| (n.pitch, n.duration, n.velocity)).collect();
    assert_eq!(played, composed);
}

#[test]
fn stop_mid_note_does_not_retract_note() {
    // Stopping between note-on and note-off leaves the in-flight note
    // to complete; only the next note is suppressed.
    let ds = DualStream::new(Constant::Pi, Constant::E);
    let mut p = Player::new(ds, PitchMap::major(60), DurationMap::musical(480), 0, 120, 100, 0);
    p.apply_command(PlayerCommand::Play);
    let produced = p.next_note();
    assert!(produced.is_some());
    p.apply_command(PlayerCommand::Stop);
    assert!(produced.is_some());
    assert!(p.next_note().is_none());
}

// ── gesture translation ──────────────────────────────────────────────

#[test]
fn sim_keys_translate_to_gestures() {
    assert_eq!(
        translate_sim_input(SimInput::KeyDown(SimKey::PullLeft)),
        Some(GestureEvent::PullLeft { steps: 1, velocity: 30 })
    );
    assert_eq!(
        translate_sim_input(SimInput::KeyDown(SimKey::PullRightFast)),
        Some(GestureEvent::PullRight { steps: 5, velocity: 90 })
    );
    assert_eq!(translate_sim_input(SimInput::KeyDown(SimKey::Twist)), Some(GestureEvent::Twist));
    assert_eq!(translate_sim_input(SimInput::KeyDown(SimKey::Clap)), Some(GestureEvent::Clap));
    assert_eq!(translate_sim_input(SimInput::KeyUp(SimKey::Clap)), None);
    assert_eq!(
        translate_sim_input(SimInput::SnippetName("cut".to_string())),
        Some(GestureEvent::Scissors { name: "cut".to_string() })
    );
    assert_eq!(translate_sim_input(SimInput::KeyDown(SimKey::Quit)), Some(GestureEvent::Quit));
}
