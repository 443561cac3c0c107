//! The application orchestrator: the single owner of the live stream,
//! the two ribbons, the snippet tray and the animation state machines.
//!
//! Gesture events arrive in order and mutate this state; the commands
//! the playback loop owes (play or stop) are returned to the caller,
//! which forwards them over the player's channel.  Once per frame the
//! caller hands in the note events it drained and calls [`AppState::tick`].

use vstd::prelude::*;

use crate::digits::{digit_model, modeled, Constant, MAX_DIGITS};
use crate::gesture::GestureEvent;
use crate::midi::{DurationMap, PitchMap};
use crate::player::{NoteEvent, PlayerCommand};
use crate::ribbon::{
    decayed_velocity, kicked_velocity, scissor_step, slide_step, stitch_tick_spec,
    window_len_after, Patch, RibbonState, ScissorAnimation, SnippetTray, StitchPhase,
};
use crate::stream::{snip_entry_ok, store_has, DualStream, SpigotConfig};
use vstd::string::StringExecFns;

verus! {

/// Whether playback is underway.
#[derive(Clone, Copy, Debug, PartialEq, Eq, Structural)]
pub enum PlayState {
    Stopped,
    Playing,
}

/// The number of patches kept in each ribbon's visible buffer by
/// default: enough to fill the default window width.
pub const DEFAULT_RIBBON_CAPACITY: usize = 27;

/// Configuration for the full application.
pub struct AppConfig {
    pub left_config: SpigotConfig,
    pub right_config: SpigotConfig,
    pub pitch_map: PitchMap,
    pub duration_map: DurationMap,
    pub instrument: u8,
    pub tempo_bpm: u32,
    pub velocity: u8,
    pub channel: u8,
    /// Number of patches kept in each ribbon's visible buffer.
    pub ribbon_capacity: usize,
}

impl Default for AppConfig {
    /// Pi against e, both base 10, C major piano at 120 beats per
    /// minute.
    fn default() -> (r: AppConfig)
        ensures
            r.left_config == (SpigotConfig { constant: Constant::Pi, base: 10 }),
            r.right_config == (SpigotConfig { constant: Constant::E, base: 10 }),
            r.instrument == 0,
            r.tempo_bpm == 120,
            r.velocity == 100,
            r.channel == 0,
            r.ribbon_capacity == DEFAULT_RIBBON_CAPACITY,
            r.pitch_map.root == 60,
            r.pitch_map.scale.intervals@ =~= seq![0u8, 2, 4, 5, 7, 9, 11],
            r.pitch_map.scale.intervals@.len() > 0,
            r.duration_map.table@ =~= seq![
                60u32,
                120,
                180,
                240,
                360,
                480,
                720,
                960,
                1440,
                1920,
            ],
    {
        AppConfig {
            left_config: SpigotConfig { constant: Constant::Pi, base: 10 },
            right_config: SpigotConfig { constant: Constant::E, base: 10 },
            pitch_map: PitchMap::major(60),
            duration_map: DurationMap::musical(480),
            instrument: 0,
            tempo_bpm: 120,
            velocity: 100,
            channel: 0,
            ribbon_capacity: DEFAULT_RIBBON_CAPACITY,
        }
    }
}

/// The decimal numeral for a base in 2..=36.
pub open spec fn base_numeral(base: u8) -> Seq<char> {
    match base {
        2 => "2"@,
        3 => "3"@,
        4 => "4"@,
        5 => "5"@,
        6 => "6"@,
        7 => "7"@,
        8 => "8"@,
        9 => "9"@,
        10 => "10"@,
        11 => "11"@,
        12 => "12"@,
        13 => "13"@,
        14 => "14"@,
        15 => "15"@,
        16 => "16"@,
        17 => "17"@,
        18 => "18"@,
        19 => "19"@,
        20 => "20"@,
        21 => "21"@,
        22 => "22"@,
        23 => "23"@,
        24 => "24"@,
        25 => "25"@,
        26 => "26"@,
        27 => "27"@,
        28 => "28"@,
        29 => "29"@,
        30 => "30"@,
        31 => "31"@,
        32 => "32"@,
        33 => "33"@,
        34 => "34"@,
        35 => "35"@,
        _ => "36"@,
    }
}

/// The numeral for a base in 2..=36.
fn base_str(base: u8) -> (r: &'static str)
    requires
        2 <= base <= 36,
    ensures
        r@ == base_numeral(base),
{
    match base {
        2 => "2",
        3 => "3",
        4 => "4",
        5 => "5",
        6 => "6",
        7 => "7",
        8 => "8",
        9 => "9",
        10 => "10",
        11 => "11",
        12 => "12",
        13 => "13",
        14 => "14",
        15 => "15",
        16 => "16",
        17 => "17",
        18 => "18",
        19 => "19",
        20 => "20",
        21 => "21",
        22 => "22",
        23 => "23",
        24 => "24",
        25 => "25",
        26 => "26",
        27 => "27",
        28 => "28",
        29 => "29",
        30 => "30",
        31 => "31",
        32 => "32",
        33 => "33",
        34 => "34",
        35 => "35",
        _ => "36",
    }
}

/// The display label of one side: the constant's name and its base.
pub fn side_label(cfg: SpigotConfig) -> (r: String)
    requires
        cfg.wf(),
    ensures
        r@ == crate::digits::constant_name(cfg.constant) + " base "@ + base_numeral(cfg.base),
{
    let mut s = cfg.constant.name().to_owned();
    s.append(" base ");
    s.append(base_str(cfg.base));
    s
}

/// The start of the visible trailing window that a snip captures: the
/// last `visible` positions before `pos`, clipped at the origin.
pub open spec fn snip_window_from(pos: nat, visible: nat) -> nat {
    if visible > pos {
        0
    } else {
        (pos - visible) as nat
    }
}

/// The orchestrator state.
pub struct AppState {
    dual: DualStream,
    left_ribbon: RibbonState,
    right_ribbon: RibbonState,
    play_state: PlayState,
    stitch: StitchPhase,
    tray: SnippetTray,
    scissor_anim: Option<ScissorAnimation>,
    note_highlight: Option<usize>,
    instrument: u8,
    tempo_bpm: u32,
}

impl AppState {
    /// The live stream.
    pub closed spec fn dual_spec(self) -> DualStream {
        self.dual
    }

    /// The left ribbon.
    pub closed spec fn left_ribbon_spec(self) -> RibbonState {
        self.left_ribbon
    }

    /// The right ribbon.
    pub closed spec fn right_ribbon_spec(self) -> RibbonState {
        self.right_ribbon
    }

    /// The playback state.
    pub closed spec fn play_state_spec(self) -> PlayState {
        self.play_state
    }

    /// The stitch animation state.
    pub closed spec fn stitch_spec(self) -> StitchPhase {
        self.stitch
    }

    /// The tray entries.
    pub closed spec fn tray_spec(self) -> SnippetTray {
        self.tray
    }

    /// The scissor animation, while one runs.
    pub closed spec fn scissor_spec(self) -> Option<ScissorAnimation> {
        self.scissor_anim
    }

    /// The highlighted left-ribbon patch, if any.
    pub closed spec fn highlight_spec(self) -> Option<usize> {
        self.note_highlight
    }

    /// A valid orchestrator owns a valid stream.
    pub closed spec fn wf(self) -> bool {
        self.dual.wf()
    }

    /// Build the orchestrator: a live stream over the two
    /// configurations, and ribbons pre-filled with the first digits so
    /// that the display is not empty on launch.
    pub fn new(cfg: AppConfig) -> (r: AppState)
        requires
            cfg.left_config.wf(),
            cfg.right_config.wf(),
            cfg.ribbon_capacity <= MAX_DIGITS,
        ensures
            r.wf(),
            r.dual_spec().left_spec().cfg_spec() == cfg.left_config,
            r.dual_spec().right_spec().cfg_spec() == cfg.right_config,
            r.dual_spec().left_spec().pos_spec() == 0,
            r.dual_spec().right_spec().pos_spec() == 0,
            r.dual_spec().snippets_spec().len() == 0,
            r.play_state_spec() == PlayState::Stopped,
            r.stitch_spec() == StitchPhase::Unstitched,
            r.tray_spec().entries@.len() == 0,
            r.scissor_spec() is None,
            r.highlight_spec() is None,
            r.left_ribbon_spec().patches@.len() == cfg.ribbon_capacity,
            r.right_ribbon_spec().patches@.len() == cfg.ribbon_capacity,
            r.left_ribbon_spec().capacity == cfg.ribbon_capacity,
            r.right_ribbon_spec().capacity == cfg.ribbon_capacity,
            r.left_ribbon_spec().base == cfg.left_config.base,
            r.right_ribbon_spec().base == cfg.right_config.base,
            forall|i: int|
                0 <= i < cfg.ribbon_capacity ==> (#[trigger] r.left_ribbon_spec().patches@[i]).position == i && r.left_ribbon_spec().patches@[i].digit < cfg.left_config.base
                    && r.right_ribbon_spec().patches@[i].position == i
                    && r.right_ribbon_spec().patches@[i].digit < cfg.right_config.base,
            modeled(cfg.left_config.constant) ==> forall|i: int|
                0 <= i < cfg.ribbon_capacity ==> (#[trigger] r.left_ribbon_spec().patches@[i]).digit == digit_model(
                    cfg.left_config.constant,
                    cfg.left_config.base,
                    i as nat,
                ),
            modeled(cfg.right_config.constant) ==> forall|i: int|
                0 <= i < cfg.ribbon_capacity ==> (#[trigger] r.right_ribbon_spec().patches@[i]).digit == digit_model(
                    cfg.right_config.constant,
                    cfg.right_config.base,
                    i as nat,
                ),
    {
        let left_label = side_label(cfg.left_config);
        let right_label = side_label(cfg.right_config);
        let dual = DualStream::from_configs(cfg.left_config, cfg.right_config);
        let mut left_ribbon = RibbonState::new(
            cfg.ribbon_capacity,
            cfg.left_config.base,
            left_label.as_str(),
        );
        let mut right_ribbon = RibbonState::new(
            cfg.ribbon_capacity,
            cfg.right_config.base,
            right_label.as_str(),
        );

        // Pre-fill the ribbons from an independent stream so the live
        // cursors still start at position 0.
        let mut pre = DualStream::from_configs(cfg.left_config, cfg.right_config);
        let mut i: usize = 0;
        while i < cfg.ribbon_capacity
            invariant
                i <= cfg.ribbon_capacity,
                cfg.ribbon_capacity <= MAX_DIGITS,
                pre.wf(),
                pre.left_spec().cfg_spec() == cfg.left_config,
                pre.right_spec().cfg_spec() == cfg.right_config,
                pre.left_spec().pos_spec() == i,
                pre.right_spec().pos_spec() == i,
                left_ribbon.patches@.len() == i,
                right_ribbon.patches@.len() == i,
                left_ribbon.capacity == cfg.ribbon_capacity,
                right_ribbon.capacity == cfg.ribbon_capacity,
                left_ribbon.base == cfg.left_config.base,
                right_ribbon.base == cfg.right_config.base,
                forall|j: int|
                    0 <= j < i ==> (#[trigger] left_ribbon.patches@[j]).position == j
                        && left_ribbon.patches@[j].digit < cfg.left_config.base
                        && right_ribbon.patches@[j].position == j
                        && right_ribbon.patches@[j].digit < cfg.right_config.base,
                modeled(cfg.left_config.constant) ==> forall|j: int|
                    0 <= j < i ==> (#[trigger] left_ribbon.patches@[j]).digit == digit_model(
                        cfg.left_config.constant,
                        cfg.left_config.base,
                        j as nat,
                    ),
                modeled(cfg.right_config.constant) ==> forall|j: int|
                    0 <= j < i ==> (#[trigger] right_ribbon.patches@[j]).digit == digit_model(
                        cfg.right_config.constant,
                        cfg.right_config.base,
                        j as nat,
                    ),
            decreases cfg.ribbon_capacity - i,
        {
            match pre.zip_next() {
                Some((l, rr)) => {
                    left_ribbon.push(l, i);
                    right_ribbon.push(rr, i);
                    i += 1;
                },
                None => {
                    proof {
                        assert(false);
                    }
                },
            }
        }

        AppState {
            dual,
            left_ribbon,
            right_ribbon,
            play_state: PlayState::Stopped,
            stitch: StitchPhase::Unstitched,
            tray: SnippetTray::default(),
            scissor_anim: None,
            note_highlight: None,
            instrument: cfg.instrument,
            tempo_bpm: cfg.tempo_bpm,
        }
    }

    /// Apply one gesture event and return the command, if any, that the
    /// caller owes the playback loop: a clap while stopped starts
    /// playing and stitching; an unclap while playing stops and starts
    /// unstitching; repeated claps or unclaps do nothing; a twist
    /// exchanges the two sides and their ribbons whole; pulls advance
    /// one side only; scissors snapshot the visible trailing window.
    pub fn handle_gesture(&mut self, event: GestureEvent) -> (r: Option<PlayerCommand>)
        requires
            old(self).wf(),
        ensures
            final(self).wf(),
            event == GestureEvent::Clap && old(self).play_state_spec() == PlayState::Stopped ==> {
                &&& final(self).play_state_spec() == PlayState::Playing
                &&& final(self).stitch_spec() == (StitchPhase::Stitching { progress: 0u8 })
                &&& r == Some(PlayerCommand::Play)
                &&& final(self).dual_spec() == old(self).dual_spec()
                &&& final(self).left_ribbon_spec() == old(self).left_ribbon_spec()
                &&& final(self).right_ribbon_spec() == old(self).right_ribbon_spec()
                &&& final(self).tray_spec() == old(self).tray_spec()
                &&& final(self).scissor_spec() == old(self).scissor_spec()
                &&& final(self).highlight_spec() == old(self).highlight_spec()
            },
            event == GestureEvent::Clap && old(self).play_state_spec() == PlayState::Playing
                ==> *final(self) == *old(self) && r is None,
            event == GestureEvent::Unclap && old(self).play_state_spec() == PlayState::Playing
                ==> {
                &&& final(self).play_state_spec() == PlayState::Stopped
                &&& final(self).stitch_spec() == (StitchPhase::Unstitching { progress: 0u8 })
                &&& r == Some(PlayerCommand::Stop)
                &&& final(self).dual_spec() == old(self).dual_spec()
                &&& final(self).left_ribbon_spec() == old(self).left_ribbon_spec()
                &&& final(self).right_ribbon_spec() == old(self).right_ribbon_spec()
                &&& final(self).tray_spec() == old(self).tray_spec()
                &&& final(self).scissor_spec() == old(self).scissor_spec()
                &&& final(self).highlight_spec() == old(self).highlight_spec()
            },
            event == GestureEvent::Unclap && old(self).play_state_spec() == PlayState::Stopped
                ==> *final(self) == *old(self) && r is None,
            event == GestureEvent::Twist ==> {
                &&& final(self).dual_spec() == old(self).dual_spec().twisted()
                &&& final(self).left_ribbon_spec() == old(self).right_ribbon_spec()
                &&& final(self).right_ribbon_spec() == old(self).left_ribbon_spec()
                &&& final(self).play_state_spec() == old(self).play_state_spec()
                &&& final(self).stitch_spec() == old(self).stitch_spec()
                &&& final(self).tray_spec() == old(self).tray_spec()
                &&& final(self).scissor_spec() == old(self).scissor_spec()
                &&& final(self).highlight_spec() == old(self).highlight_spec()
                &&& r is None
            },
            event matches GestureEvent::PullLeft { steps, velocity } ==> {
                &&& final(self).dual_spec().right_spec() == old(self).dual_spec().right_spec()
                &&& final(self).dual_spec().left_spec().cfg_spec() == old(self).dual_spec().left_spec().cfg_spec()
                &&& final(self).dual_spec().snippets_spec() == old(self).dual_spec().snippets_spec()
                &&& old(self).dual_spec().left_spec().pos_spec() + steps <= MAX_DIGITS ==> final(self).dual_spec().left_spec().pos_spec() == old(self).dual_spec().left_spec().pos_spec()
                    + steps
                &&& final(self).play_state_spec() == old(self).play_state_spec()
                &&& final(self).stitch_spec() == old(self).stitch_spec()
                &&& final(self).tray_spec() == old(self).tray_spec()
                &&& final(self).scissor_spec() == old(self).scissor_spec()
                &&& final(self).highlight_spec() == old(self).highlight_spec()
                &&& final(self).right_ribbon_spec() == old(self).right_ribbon_spec()
                &&& final(self).left_ribbon_spec().capacity == old(self).left_ribbon_spec().capacity
                &&& final(self).left_ribbon_spec().base == old(self).left_ribbon_spec().base
                &&& final(self).left_ribbon_spec().label == old(self).left_ribbon_spec().label
                &&& final(self).left_ribbon_spec().scroll_vel_milli == kicked_velocity(velocity)
                &&& old(self).dual_spec().left_spec().pos_spec() + steps <= MAX_DIGITS ==> {
                    let fp = final(self).left_ribbon_spec().patches@;
                    let op = old(self).left_ribbon_spec().patches@;
                    let lp0 = old(self).dual_spec().left_spec().pos_spec();
                    let dig = final(self).dual_spec().left_spec().digits_spec();
                    &&& fp.len() == window_len_after(
                        op.len(),
                        old(self).left_ribbon_spec().capacity as nat,
                        steps as nat,
                    )
                    &&& steps > 0 ==> dig.len() >= lp0 + steps
                    &&& forall|i: int|
                        fp.len() - steps <= i < fp.len() && 0 <= i ==> (#[trigger] fp[i]).position
                            == lp0 + steps - fp.len() + 1 + i && fp[i].digit == dig[lp0 + steps
                            - fp.len() + i]
                    &&& forall|i: int|
                        0 <= i < fp.len() - steps ==> #[trigger] fp[i] == op[op.len() - fp.len()
                            + steps + i]
                }
                &&& r is None
            },
            event matches GestureEvent::PullRight { steps, velocity } ==> {
                &&& final(self).dual_spec().left_spec() == old(self).dual_spec().left_spec()
                &&& final(self).dual_spec().right_spec().cfg_spec() == old(self).dual_spec().right_spec().cfg_spec()
                &&& final(self).dual_spec().snippets_spec() == old(self).dual_spec().snippets_spec()
                &&& old(self).dual_spec().right_spec().pos_spec() + steps <= MAX_DIGITS ==> final(self).dual_spec().right_spec().pos_spec() == old(self).dual_spec().right_spec().pos_spec() + steps
                &&& final(self).play_state_spec() == old(self).play_state_spec()
                &&& final(self).stitch_spec() == old(self).stitch_spec()
                &&& final(self).tray_spec() == old(self).tray_spec()
                &&& final(self).scissor_spec() == old(self).scissor_spec()
                &&& final(self).highlight_spec() == old(self).highlight_spec()
                &&& final(self).left_ribbon_spec() == old(self).left_ribbon_spec()
                &&& final(self).right_ribbon_spec().capacity == old(self).right_ribbon_spec().capacity
                &&& final(self).right_ribbon_spec().base == old(self).right_ribbon_spec().base
                &&& final(self).right_ribbon_spec().label == old(self).right_ribbon_spec().label
                &&& final(self).right_ribbon_spec().scroll_vel_milli == kicked_velocity(velocity)
                &&& old(self).dual_spec().right_spec().pos_spec() + steps <= MAX_DIGITS ==> {
                    let fp = final(self).right_ribbon_spec().patches@;
                    let op = old(self).right_ribbon_spec().patches@;
                    let rp0 = old(self).dual_spec().right_spec().pos_spec();
                    let dig = final(self).dual_spec().right_spec().digits_spec();
                    &&& fp.len() == window_len_after(
                        op.len(),
                        old(self).right_ribbon_spec().capacity as nat,
                        steps as nat,
                    )
                    &&& steps > 0 ==> dig.len() >= rp0 + steps
                    &&& forall|i: int|
                        fp.len() - steps <= i < fp.len() && 0 <= i ==> (#[trigger] fp[i]).position
                            == rp0 + steps - fp.len() + 1 + i && fp[i].digit == dig[rp0 + steps
                            - fp.len() + i]
                    &&& forall|i: int|
                        0 <= i < fp.len() - steps ==> #[trigger] fp[i] == op[op.len() - fp.len()
                            + steps + i]
                }
                &&& r is None
            },
            event matches GestureEvent::Scissors { name } ==> {
                &&& final(self).dual_spec().left_spec() == old(self).dual_spec().left_spec()
                &&& final(self).dual_spec().right_spec() == old(self).dual_spec().right_spec()
                &&& store_has(final(self).dual_spec().snippets_spec(), name@)
                &&& final(self).tray_spec().entries@.len() == if old(self).tray_spec().entries@.len() < crate::ribbon::TRAY_CAP {
                    old(self).tray_spec().entries@.len() as int + 1
                } else {
                    old(self).tray_spec().entries@.len() as int
                }
                &&& final(self).tray_spec().entries@.last().name@ == name@
                &&& final(self).scissor_spec() matches Some(a) && a.progress == 0
                &&& final(self).play_state_spec() == old(self).play_state_spec()
                &&& final(self).stitch_spec() == old(self).stitch_spec()
                &&& final(self).left_ribbon_spec() == old(self).left_ribbon_spec()
                &&& final(self).right_ribbon_spec() == old(self).right_ribbon_spec()
                &&& final(self).highlight_spec() == old(self).highlight_spec()
                &&& r is None
            },
            event == GestureEvent::Quit ==> *final(self) == *old(self) && r is None,
    {
        match event {
            GestureEvent::PullLeft { steps, velocity } => {
                let mut k: usize = 0;
                while k < steps
                    invariant
                        k <= steps,
                        self.wf(),
                        self.dual.right_spec() == old(self).dual_spec().right_spec(),
                        self.dual.left_spec().cfg_spec() == old(self).dual_spec().left_spec().cfg_spec(),
                        self.dual.snippets_spec() == old(self).dual_spec().snippets_spec(),
                        old(self).dual_spec().left_spec().pos_spec() + steps <= MAX_DIGITS
                            ==> self.dual.left_spec().pos_spec() == old(self).dual_spec().left_spec().pos_spec() + k,
                        self.play_state == old(self).play_state_spec(),
                        self.stitch == old(self).stitch_spec(),
                        self.tray == old(self).tray_spec(),
                        self.scissor_anim == old(self).scissor_spec(),
                        self.note_highlight == old(self).highlight_spec(),
                        self.instrument == old(self).instrument,
                        self.tempo_bpm == old(self).tempo_bpm,
                        self.right_ribbon == old(self).right_ribbon_spec(),
                        self.left_ribbon.capacity == old(self).left_ribbon_spec().capacity,
                        self.left_ribbon.base == old(self).left_ribbon_spec().base,
                        self.left_ribbon.label == old(self).left_ribbon_spec().label,
                        old(self).dual_spec().left_spec().pos_spec() + steps <= MAX_DIGITS ==> {
                            let cp = self.left_ribbon.patches@;
                            let op = old(self).left_ribbon_spec().patches@;
                            let lp0 = old(self).dual_spec().left_spec().pos_spec();
                            let dig = self.dual.left_spec().digits_spec();
                            &&& cp.len() == window_len_after(
                                op.len(),
                                old(self).left_ribbon_spec().capacity as nat,
                                k as nat,
                            )
                            &&& op.len() <= cp.len() <= op.len() + k
                            &&& k > 0 ==> dig.len() >= lp0 + k
                            &&& forall|i: int|
                                cp.len() - k <= i < cp.len() && 0 <= i ==> (
                                #[trigger] cp[i]).position == lp0 + k - cp.len() + 1 + i
                                    && cp[i].digit == dig[lp0 + k - cp.len() + i]
                            &&& forall|i: int|
                                0 <= i < cp.len() - k ==> #[trigger] cp[i] == op[op.len()
                                    - cp.len() + k + i]
                        },
                    decreases steps - k,
                {
                    proof {
                        crate::stream::lemma_wf_sides(self.dual);
                    }
                    let ghost pre_dual = self.dual;
                    let d = self.dual.left().next();
                    proof {
                        crate::stream::lemma_wf_rebuild(pre_dual, self.dual);
                    }
                    match d {
                        Some(digit) => {
                            let pos = self.dual.left_pos();
                            let ghost pre_rib = self.left_ribbon;
                            self.left_ribbon.push(digit, pos);
                            proof {
                                if old(self).dual_spec().left_spec().pos_spec() + steps
                                    <= MAX_DIGITS {
                                    let lp0 = old(self).dual_spec().left_spec().pos_spec();
                                    let op = old(self).left_ribbon_spec().patches@;
                                    let cap = old(self).left_ribbon_spec().capacity as nat;
                                    let prev = pre_rib.patches@;
                                    let cp = self.left_ribbon.patches@;
                                    let predig = pre_dual.left_spec().digits_spec();
                                    let dig = self.dual.left_spec().digits_spec();
                                    assert(dig.subrange(0, predig.len() as int) == predig);
                                    assert forall|t: int| 0 <= t < predig.len() implies dig[t]
                                        == predig[t] by {
                                        assert(dig[t] == dig.subrange(0, predig.len() as int)[t]);
                                    }
                                    crate::ribbon::lemma_window_len_snoc(op.len(), cap, k as nat);
                                    let newp = (Patch {
                                        digit,
                                        color: crate::ribbon::digit_color_spec(
                                            digit,
                                            pre_rib.base,
                                        ),
                                        position: pos,
                                    });
                                    if prev.len() >= pre_rib.capacity && prev.len() > 0 {
                                        assert(cp == prev.subrange(1, prev.len() as int).push(
                                            newp,
                                        ));
                                        assert(cp.len() == prev.len());
                                        assert forall|i: int| 0 <= i < cp.len() - 1 implies cp[i]
                                            == prev[i + 1] by {
                                            assert(cp[i] == prev.subrange(1, prev.len() as int)[i]);
                                        }
                                    } else {
                                        assert(cp == prev.push(newp));
                                    }
                                    assert forall|i: int|
                                        cp.len() - (k + 1) <= i < cp.len() && 0 <= i implies (
                                    #[trigger] cp[i]).position == lp0 + (k + 1) - cp.len() + 1 + i
                                        && cp[i].digit == dig[lp0 + (k + 1) - cp.len() + i] by {
                                        if i == cp.len() - 1 {
                                            assert(cp[i] == newp);
                                        } else {
                                            if prev.len() >= pre_rib.capacity && prev.len() > 0 {
                                                assert(cp[i] == prev[i + 1]);
                                            } else {
                                                assert(cp[i] == prev[i]);
                                            }
                                        }
                                    }
                                    assert forall|i: int|
                                        0 <= i < cp.len() - (k + 1) implies #[trigger] cp[i]
                                        == op[op.len() - cp.len() + (k + 1) + i] by {
                                        if prev.len() >= pre_rib.capacity && prev.len() > 0 {
                                            assert(cp[i] == prev[i + 1]);
                                        } else {
                                            assert(cp[i] == prev[i]);
                                        }
                                    }
                                }
                            }
                        },
                        None => {},
                    }
                    k += 1;
                }
                self.left_ribbon.kick(velocity);
                None
            },
            GestureEvent::PullRight { steps, velocity } => {
                let mut k: usize = 0;
                while k < steps
                    invariant
                        k <= steps,
                        self.wf(),
                        self.dual.left_spec() == old(self).dual_spec().left_spec(),
                        self.dual.right_spec().cfg_spec() == old(self).dual_spec().right_spec().cfg_spec(),
                        self.dual.snippets_spec() == old(self).dual_spec().snippets_spec(),
                        old(self).dual_spec().right_spec().pos_spec() + steps <= MAX_DIGITS
                            ==> self.dual.right_spec().pos_spec() == old(self).dual_spec().right_spec().pos_spec() + k,
                        self.play_state == old(self).play_state_spec(),
                        self.stitch == old(self).stitch_spec(),
                        self.tray == old(self).tray_spec(),
                        self.scissor_anim == old(self).scissor_spec(),
                        self.note_highlight == old(self).highlight_spec(),
                        self.instrument == old(self).instrument,
                        self.tempo_bpm == old(self).tempo_bpm,
                        self.left_ribbon == old(self).left_ribbon_spec(),
                        self.right_ribbon.capacity == old(self).right_ribbon_spec().capacity,
                        self.right_ribbon.base == old(self).right_ribbon_spec().base,
                        self.right_ribbon.label == old(self).right_ribbon_spec().label,
                        old(self).dual_spec().right_spec().pos_spec() + steps <= MAX_DIGITS ==> {
                            let cp = self.right_ribbon.patches@;
                            let op = old(self).right_ribbon_spec().patches@;
                            let rp0 = old(self).dual_spec().right_spec().pos_spec();
                            let dig = self.dual.right_spec().digits_spec();
                            &&& cp.len() == window_len_after(
                                op.len(),
                                old(self).right_ribbon_spec().capacity as nat,
                                k as nat,
                            )
                            &&& op.len() <= cp.len() <= op.len() + k
                            &&& k > 0 ==> dig.len() >= rp0 + k
                            &&& forall|i: int|
                                cp.len() - k <= i < cp.len() && 0 <= i ==> (
                                #[trigger] cp[i]).position == rp0 + k - cp.len() + 1 + i
                                    && cp[i].digit == dig[rp0 + k - cp.len() + i]
                            &&& forall|i: int|
                                0 <= i < cp.len() - k ==> #[trigger] cp[i] == op[op.len()
                                    - cp.len() + k + i]
                        },
                    decreases steps - k,
                {
                    proof {
                        crate::stream::lemma_wf_sides(self.dual);
                    }
                    let ghost pre_dual = self.dual;
                    let d = self.dual.right().next();
                    proof {
                        crate::stream::lemma_wf_rebuild(pre_dual, self.dual);
                    }
                    match d {
                        Some(digit) => {
                            let pos = self.dual.right_pos();
                            let ghost pre_rib = self.right_ribbon;
                            self.right_ribbon.push(digit, pos);
                            proof {
                                if old(self).dual_spec().right_spec().pos_spec() + steps
                                    <= MAX_DIGITS {
                                    let rp0 = old(self).dual_spec().right_spec().pos_spec();
                                    let op = old(self).right_ribbon_spec().patches@;
                                    let cap = old(self).right_ribbon_spec().capacity as nat;
                                    let prev = pre_rib.patches@;
                                    let cp = self.right_ribbon.patches@;
                                    let predig = pre_dual.right_spec().digits_spec();
                                    let dig = self.dual.right_spec().digits_spec();
                                    assert(dig.subrange(0, predig.len() as int) == predig);
                                    assert forall|t: int| 0 <= t < predig.len() implies dig[t]
                                        == predig[t] by {
                                        assert(dig[t] == dig.subrange(0, predig.len() as int)[t]);
                                    }
                                    crate::ribbon::lemma_window_len_snoc(op.len(), cap, k as nat);
                                    let newp = (Patch {
                                        digit,
                                        color: crate::ribbon::digit_color_spec(
                                            digit,
                                            pre_rib.base,
                                        ),
                                        position: pos,
                                    });
                                    if prev.len() >= pre_rib.capacity && prev.len() > 0 {
                                        assert(cp == prev.subrange(1, prev.len() as int).push(
                                            newp,
                                        ));
                                        assert(cp.len() == prev.len());
                                        assert forall|i: int| 0 <= i < cp.len() - 1 implies cp[i]
                                            == prev[i + 1] by {
                                            assert(cp[i] == prev.subrange(1, prev.len() as int)[i]);
                                        }
                                    } else {
                                        assert(cp == prev.push(newp));
                                    }
                                    assert forall|i: int|
                                        cp.len() - (k + 1) <= i < cp.len() && 0 <= i implies (
                                    #[trigger] cp[i]).position == rp0 + (k + 1) - cp.len() + 1 + i
                                        && cp[i].digit == dig[rp0 + (k + 1) - cp.len() + i] by {
                                        if i == cp.len() - 1 {
                                            assert(cp[i] == newp);
                                        } else {
                                            if prev.len() >= pre_rib.capacity && prev.len() > 0 {
                                                assert(cp[i] == prev[i + 1]);
                                            } else {
                                                assert(cp[i] == prev[i]);
                                            }
                                        }
                                    }
                                    assert forall|i: int|
                                        0 <= i < cp.len() - (k + 1) implies #[trigger] cp[i]
                                        == op[op.len() - cp.len() + (k + 1) + i] by {
                                        if prev.len() >= pre_rib.capacity && prev.len() > 0 {
                                            assert(cp[i] == prev[i + 1]);
                                        } else {
                                            assert(cp[i] == prev[i]);
                                        }
                                    }
                                }
                            }
                        },
                        None => {},
                    }
                    k += 1;
                }
                self.right_ribbon.kick(velocity);
                None
            },
            GestureEvent::Twist => {
                self.dual.twist();
                core::mem::swap(&mut self.left_ribbon, &mut self.right_ribbon);
                None
            },
            GestureEvent::Clap => {
                if self.play_state == PlayState::Stopped {
                    self.play_state = PlayState::Playing;
                    self.stitch = StitchPhase::Stitching { progress: 0 };
                    Some(PlayerCommand::Play)
                } else {
                    None
                }
            },
            GestureEvent::Unclap => {
                if self.play_state == PlayState::Playing {
                    self.play_state = PlayState::Stopped;
                    self.stitch = StitchPhase::Unstitching { progress: 0 };
                    Some(PlayerCommand::Stop)
                } else {
                    None
                }
            },
            GestureEvent::Scissors { name } => {
                self.do_snip(name.as_str());
                None
            },
            GestureEvent::Quit => None,
        }
    }

    /// Snapshot the visible trailing window `[left_pos - visible,
    /// left_pos)`: store it in the stream's snippet store and the
    /// display tray, and start a scissor sweep over the snipped range.
    /// The live cursors are never touched.
    pub fn do_snip(&mut self, name: &str)
        requires
            old(self).wf(),
        ensures
            final(self).wf(),
            final(self).dual_spec().left_spec() == old(self).dual_spec().left_spec(),
            final(self).dual_spec().right_spec() == old(self).dual_spec().right_spec(),
            store_has(final(self).dual_spec().snippets_spec(), name@),
            final(self).tray_spec().entries@.len() == if old(self).tray_spec().entries@.len()
                < crate::ribbon::TRAY_CAP {
                old(self).tray_spec().entries@.len() as int + 1
            } else {
                old(self).tray_spec().entries@.len() as int
            },
            final(self).tray_spec().entries@.last().name@ == name@,
            final(self).scissor_spec() matches Some(a) && a.progress == 0,
            final(self).play_state_spec() == old(self).play_state_spec(),
            final(self).stitch_spec() == old(self).stitch_spec(),
            final(self).highlight_spec() == old(self).highlight_spec(),
            final(self).left_ribbon_spec() == old(self).left_ribbon_spec(),
            final(self).right_ribbon_spec() == old(self).right_ribbon_spec(),
            forall|j: int|
                0 <= j < final(self).dual_spec().snippets_spec().len() && (#[trigger] final(self).dual_spec().snippets_spec()[j]).name@ == name@ ==> snip_entry_ok(
                    final(self).dual_spec().snippets_spec()[j],
                    old(self).dual_spec().left_spec().cfg_spec(),
                    old(self).dual_spec().right_spec().cfg_spec(),
                    name@,
                    snip_window_from(
                        old(self).dual_spec().left_spec().pos_spec(),
                        old(self).left_ribbon_spec().patches@.len(),
                    ),
                    old(self).dual_spec().left_spec().pos_spec(),
                ),
    {
        let lp = self.dual.left_pos();
        let visible = self.left_ribbon.patches.len();
        let from = if visible > lp {
            0
        } else {
            lp - visible
        };
        let to = lp;
        let _ = self.dual.snip(name, from, to);

        // Pair the visible patches for the tray.
        let k = if self.left_ribbon.patches.len() < self.right_ribbon.patches.len() {
            self.left_ribbon.patches.len()
        } else {
            self.right_ribbon.patches.len()
        };
        let mut pairs: Vec<(Patch, Patch)> = Vec::new();
        let mut i: usize = 0;
        while i < k
            invariant
                i <= k,
                pairs@.len() == i,
                k <= self.left_ribbon.patches@.len(),
                k <= self.right_ribbon.patches@.len(),
            decreases k - i,
        {
            pairs.push((self.left_ribbon.patches[i], self.right_ribbon.patches[i]));
            i += 1;
        }
        self.tray.deposit(name, pairs);

        let count = to - from;
        let span = if count < self.left_ribbon.capacity {
            count
        } else {
            self.left_ribbon.capacity
        };
        self.scissor_anim = Some(ScissorAnimation::new(0, span));
    }

    /// One display frame: advance the ribbons' scroll, the stitch and
    /// scissor animations and the tray slide-ins, then point the note
    /// highlight at the nearest visible patch at or past the most
    /// recent note's left position.
    pub fn tick(&mut self, notes: &Vec<NoteEvent>)
        requires
            old(self).wf(),
        ensures
            final(self).wf(),
            final(self).dual_spec() == old(self).dual_spec(),
            final(self).play_state_spec() == old(self).play_state_spec(),
            final(self).stitch_spec() == stitch_tick_spec(old(self).stitch_spec()).0,
            final(self).left_ribbon_spec().patches == old(self).left_ribbon_spec().patches,
            final(self).left_ribbon_spec().capacity == old(self).left_ribbon_spec().capacity,
            final(self).left_ribbon_spec().base == old(self).left_ribbon_spec().base,
            final(self).left_ribbon_spec().label == old(self).left_ribbon_spec().label,
            final(self).left_ribbon_spec().scroll_vel_milli == decayed_velocity(
                old(self).left_ribbon_spec().scroll_vel_milli as int,
            ),
            final(self).left_ribbon_spec().scroll_px_milli < 48_000,
            final(self).right_ribbon_spec().patches == old(self).right_ribbon_spec().patches,
            final(self).right_ribbon_spec().capacity == old(self).right_ribbon_spec().capacity,
            final(self).right_ribbon_spec().base == old(self).right_ribbon_spec().base,
            final(self).right_ribbon_spec().label == old(self).right_ribbon_spec().label,
            final(self).right_ribbon_spec().scroll_vel_milli == decayed_velocity(
                old(self).right_ribbon_spec().scroll_vel_milli as int,
            ),
            final(self).right_ribbon_spec().scroll_px_milli < 48_000,
            final(self).tray_spec().entries@.len() == old(self).tray_spec().entries@.len(),
            forall|i: int|
                0 <= i < old(self).tray_spec().entries@.len() ==> {
                    &&& (#[trigger] final(self).tray_spec().entries@[i]).name == old(
                        self,
                    ).tray_spec().entries@[i].name
                    &&& final(self).tray_spec().entries@[i].patches == old(
                        self,
                    ).tray_spec().entries@[i].patches
                    &&& final(self).tray_spec().entries@[i].slide_in == slide_step(
                        old(self).tray_spec().entries@[i].slide_in,
                    )
                },
            final(self).scissor_spec() == match old(self).scissor_spec() {
                None => None::<ScissorAnimation>,
                Some(a) => if scissor_step(a.progress) >= 100 {
                    None::<ScissorAnimation>
                } else {
                    Some(ScissorAnimation { progress: scissor_step(a.progress), ..a })
                },
            },
            notes@.len() == 0 ==> final(self).highlight_spec() == old(self).highlight_spec(),
            notes@.len() > 0 ==> {
                let target = notes@.last().left_pos;
                match final(self).highlight_spec() {
                    Some(i) => {
                        &&& i < final(self).left_ribbon_spec().patches@.len()
                        &&& final(self).left_ribbon_spec().patches@[i as int].position + 1
                            >= target
                        &&& forall|j: int|
                            0 <= j < i ==> (#[trigger] final(self).left_ribbon_spec().patches@[j]).position + 1 < target
                    },
                    None => forall|j: int|
                        0 <= j < final(self).left_ribbon_spec().patches@.len() ==> (
                        #[trigger] final(self).left_ribbon_spec().patches@[j]).position + 1
                            < target,
                }
            },
    {
        self.left_ribbon.tick(48_000);
        self.right_ribbon.tick(48_000);
        let _ = self.stitch.tick();

        let done = match &mut self.scissor_anim {
            Some(sc) => {
                sc.tick();
                sc.done()
            },
            None => false,
        };
        if done {
            self.scissor_anim = None;
        }

        self.tray.tick();

        let n = notes.len();
        if n > 0 {
            let last = notes[n - 1];
            let target = last.left_pos;
            let m = self.left_ribbon.patches.len();
            let mut found: Option<usize> = None;
            let mut j: usize = 0;
            while j < m && found.is_none()
                invariant
                    j <= m,
                    m == self.left_ribbon.patches@.len(),
                    forall|q: int|
                        0 <= q < j ==> (#[trigger] self.left_ribbon.patches@[q]).position + 1
                            < target,
                    found matches Some(i) ==> j < m && i == j
                        && self.left_ribbon.patches@[j as int].position + 1 >= target,
                decreases m - j, (if found is None { 1int } else { 0int }),
            {
                if self.left_ribbon.patches[j].position >= target || self.left_ribbon.patches[j].position
                    + 1 == target {
                    found = Some(j);
                } else {
                    j += 1;
                }
            }
            self.note_highlight = found;
        }
    }

    /// The live stream, for inspection.
    pub fn dual(&self) -> (r: &DualStream)
        ensures
            r == self.dual_spec(),
    {
        &self.dual
    }

    /// The left ribbon.
    pub fn left_ribbon(&self) -> (r: &RibbonState)
        ensures
            r == self.left_ribbon_spec(),
    {
        &self.left_ribbon
    }

    /// The right ribbon.
    pub fn right_ribbon(&self) -> (r: &RibbonState)
        ensures
            r == self.right_ribbon_spec(),
    {
        &self.right_ribbon
    }

    /// The current playback state.
    pub fn play_state(&self) -> (r: PlayState)
        ensures
            r == self.play_state_spec(),
    {
        self.play_state
    }

    /// The stitch animation state.
    pub fn stitch(&self) -> (r: &StitchPhase)
        ensures
            r == self.stitch_spec(),
    {
        &self.stitch
    }

    /// The snippet tray.
    pub fn tray(&self) -> (r: &SnippetTray)
        ensures
            r == self.tray_spec(),
    {
        &self.tray
    }

    /// The scissor animation, while one runs.
    pub fn scissor_anim(&self) -> (r: &Option<ScissorAnimation>)
        ensures
            r == self.scissor_spec(),
    {
        &self.scissor_anim
    }

    /// The highlighted left-ribbon patch, if any.
    pub fn note_highlight(&self) -> (r: Option<usize>)
        ensures
            r == self.highlight_spec(),
    {
        self.note_highlight
    }

    /// True while playback is underway.
    pub fn is_playing(&self) -> (r: bool)
        ensures
            r == (self.play_state_spec() == PlayState::Playing),
    {
        self.play_state == PlayState::Playing
    }
}

} // verus!
