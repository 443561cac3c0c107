//! Ribbon display state: colored digit patches, the stitch and scissor
//! animations, and the snippet tray.
//!
//! All animation progress is a counter in 0..=100, advanced by a fixed
//! per-tick increment; the cosmetic scroll offsets are kept in
//! thousandths of a pixel so that the friction decay stays in integer
//! arithmetic.

use vstd::prelude::*;

verus! {

/// The packed opaque ARGB pixel for a hue (0..360) at fixed saturation
/// 0.82 and value 0.92, in the integer arithmetic of the conversion:
/// v = 235, s = 209 out of 255, p = v * (1 - s).
pub open spec fn hsv_to_argb_spec(hue: u32) -> u32
    recommends
        hue < 360,
{
    let f = (hue % 60) as int;
    let p = 42int;
    let q = 235 * (15300 - 209 * f) / 15300;
    let t = 235 * (15300 - 209 * (60 - f)) / 15300;
    let hi = hue as int / 60;
    let rgb: (int, int, int) = if hi == 0 {
        (235int, t, p)
    } else if hi == 1 {
        (q, 235int, p)
    } else if hi == 2 {
        (p, 235int, t)
    } else if hi == 3 {
        (p, q, 235int)
    } else if hi == 4 {
        (t, p, 235int)
    } else {
        (235int, p, q)
    };
    (0xFF00_0000 + rgb.0 * 0x1_0000 + rgb.1 * 0x100 + rgb.2) as u32
}

/// The color a digit patch is drawn in: the digit's share of the color
/// wheel, converted from HSV at fixed saturation and brightness.
pub open spec fn digit_color_spec(d: u8, base: u8) -> u32 {
    let b = if base >= 1 {
        base as int
    } else {
        1int
    };
    hsv_to_argb_spec(((d as int * 360 / b) % 360) as u32)
}

/// Map a digit to an opaque ARGB color: hues spaced evenly around the
/// color wheel so adjacent digits stay distinct, at fixed saturation
/// and brightness.
pub fn digit_color(d: u8, base: u8) -> (c: u32)
    ensures
        c == digit_color_spec(d, base),
        c / 0x100_0000 == 0xFF,
{
    let b: u32 = if base >= 1 {
        base as u32
    } else {
        1
    };
    let hue: u32 = (d as u32) * 360 / b;
    let hue = hue % 360;
    hsv_to_argb(hue)
}

/// Convert a hue (0..360) at fixed saturation 0.82 and value 0.92 to a
/// packed opaque ARGB pixel.
fn hsv_to_argb(hue: u32) -> (c: u32)
    requires
        hue < 360,
    ensures
        c == hsv_to_argb_spec(hue),
        c / 0x100_0000 == 0xFF,
{
    // v = 235 (0.92 * 255), s = 209 (0.82 * 255), p = v * (1 - s).
    let f: u32 = hue % 60;
    let p: u32 = 42;
    let q: u32 = 235 * (15300 - 209 * f) / 15300;
    let t: u32 = 235 * (15300 - 209 * (60 - f)) / 15300;
    let hi: u32 = hue / 60;
    let (r, g, b): (u32, u32, u32) = if hi == 0 {
        (235, t, p)
    } else if hi == 1 {
        (q, 235, p)
    } else if hi == 2 {
        (p, 235, t)
    } else if hi == 3 {
        (p, q, 235)
    } else if hi == 4 {
        (t, p, 235)
    } else {
        (235, p, q)
    };
    proof {
        assert(235 * (15300 - 209 * f) / 15300 <= 255) by (nonlinear_arith)
            requires
                f < 60,
        ;
        assert(235 * (15300 - 209 * (60 - f)) / 15300 <= 255) by (nonlinear_arith)
            requires
                f < 60,
        ;
    }
    0xFF00_0000 + r * 0x1_0000 + g * 0x100 + b
}

/// A single digit patch on the ribbon.
#[derive(Clone, Copy, Debug, PartialEq, Eq, Structural)]
pub struct Patch {
    pub digit: u8,
    pub color: u32,
    /// Stream position (0-based digit index in the source).
    pub position: usize,
}

/// The visible window of one stream: the most recent `capacity` digits,
/// newest on the right, with a decaying scroll offset.
pub struct RibbonState {
    pub patches: Vec<Patch>,
    pub capacity: usize,
    pub base: u8,
    /// Sub-pixel scroll offset, in thousandths of a pixel.
    pub scroll_px_milli: u32,
    /// Scroll velocity, in thousandths of a pixel per frame.
    pub scroll_vel_milli: u32,
    /// Label for display.
    pub label: String,
}

impl RibbonState {
    /// An empty ribbon of the given capacity.
    pub fn new(capacity: usize, base: u8, label: &str) -> (r: RibbonState)
        ensures
            r.patches@.len() == 0,
            r.capacity == capacity,
            r.base == base,
            r.label@ == label@,
            r.scroll_px_milli == 0,
            r.scroll_vel_milli == 0,
    {
        RibbonState {
            patches: Vec::new(),
            capacity,
            base,
            scroll_px_milli: 0,
            scroll_vel_milli: 0,
            label: label.to_owned(),
        }
    }

    /// Push a new digit onto the right end; the oldest patch falls off
    /// the left once the ribbon is full, every other patch shifting one
    /// place toward the start.
    pub fn push(&mut self, digit: u8, position: usize)
        ensures
            final(self).capacity == old(self).capacity,
            final(self).base == old(self).base,
            final(self).label == old(self).label,
            final(self).scroll_px_milli == old(self).scroll_px_milli,
            final(self).scroll_vel_milli == old(self).scroll_vel_milli,
            final(self).patches@.len() == if old(self).patches@.len() >= old(self).capacity
                && old(self).patches@.len() > 0 {
                old(self).patches@.len() as int
            } else {
                old(self).patches@.len() as int + 1
            },
            final(self).patches@.last() == (Patch {
                digit,
                color: digit_color_spec(digit, old(self).base),
                position,
            }),
            final(self).patches@.last().digit == digit,
            final(self).patches@.last().position == position,
            old(self).patches@.len() >= old(self).capacity && old(self).patches@.len() > 0
                ==> final(self).patches@ == old(self).patches@.subrange(
                1,
                old(self).patches@.len() as int,
            ).push(
                Patch { digit, color: digit_color_spec(digit, old(self).base), position },
            ),
            !(old(self).patches@.len() >= old(self).capacity && old(self).patches@.len() > 0)
                ==> final(self).patches@ == old(self).patches@.push(
                Patch { digit, color: digit_color_spec(digit, old(self).base), position },
            ),
    {
        if self.patches.len() >= self.capacity && self.patches.len() > 0 {
            self.patches.remove(0);
            proof {
                assert(self.patches@ =~= old(self).patches@.subrange(
                    1,
                    old(self).patches@.len() as int,
                ));
            }
        }
        let color = digit_color(digit, self.base);
        self.patches.push(Patch { digit, color, position });
    }

    /// Advance the scroll animation one frame: move by the current
    /// velocity, wrap whole patches, and decay the velocity by friction
    /// until it snaps to zero.
    pub fn tick(&mut self, patch_width_milli: u32)
        requires
            patch_width_milli >= 1,
        ensures
            final(self).patches == old(self).patches,
            final(self).capacity == old(self).capacity,
            final(self).base == old(self).base,
            final(self).label == old(self).label,
            final(self).scroll_px_milli < patch_width_milli,
            final(self).scroll_vel_milli == decayed_velocity(old(self).scroll_vel_milli as int),
    {
        let vel64: u64 = (self.scroll_px_milli as u64) + (self.scroll_vel_milli as u64);
        let wrapped: u64 = vel64 % (patch_width_milli as u64);
        self.scroll_px_milli = wrapped as u32;
        let ghost v0: int = self.scroll_vel_milli as int;
        let slowed = self.scroll_vel_milli / 256 * 225 + self.scroll_vel_milli % 256 * 225 / 256;
        self.scroll_vel_milli = if slowed < 100 {
            0
        } else {
            slowed
        };
        proof {
            assert(slowed == v0 / 256 * 225 + v0 % 256 * 225 / 256);
        }
    }

    /// Kick the scroll velocity from a pull gesture; `velocity_pct` is
    /// the normalised pull speed in percent (0-100).
    pub fn kick(&mut self, velocity_pct: u8)
        ensures
            final(self).patches == old(self).patches,
            final(self).capacity == old(self).capacity,
            final(self).base == old(self).base,
            final(self).label == old(self).label,
            final(self).scroll_px_milli == old(self).scroll_px_milli,
            final(self).scroll_vel_milli == kicked_velocity(velocity_pct),
            velocity_pct > 0 ==> final(self).scroll_vel_milli > 0,
    {
        let v: u32 = (velocity_pct as u32) * 120;
        self.scroll_vel_milli = if v > 18000 {
            18000
        } else {
            v
        };
    }
}

/// The patch count after one push: it grows by one until the capacity
/// is reached and then stays.
pub open spec fn pushed_len(len: nat, cap: nat) -> nat {
    if len >= cap && len > 0 {
        len
    } else {
        len + 1
    }
}

/// The patch count after `k` pushes onto a window of `len` patches with
/// capacity `cap`.
pub open spec fn window_len_after(len: nat, cap: nat, k: nat) -> nat
    decreases k,
{
    if k == 0 {
        len
    } else {
        window_len_after(pushed_len(len, cap), cap, (k - 1) as nat)
    }
}

/// Unfolding a push sequence from its last push: `k + 1` pushes are `k`
/// pushes followed by one.
pub proof fn lemma_window_len_snoc(len: nat, cap: nat, k: nat)
    ensures
        window_len_after(len, cap, k + 1) == pushed_len(window_len_after(len, cap, k), cap),
    decreases k,
{
    assert(window_len_after(len, cap, k + 1) == window_len_after(
        pushed_len(len, cap),
        cap,
        k,
    ));
    if k == 0 {
        assert(window_len_after(pushed_len(len, cap), cap, 0) == pushed_len(len, cap));
    } else {
        lemma_window_len_snoc(pushed_len(len, cap), cap, (k - 1) as nat);
        assert(window_len_after(len, cap, k) == window_len_after(
            pushed_len(len, cap),
            cap,
            (k - 1) as nat,
        ));
    }
}

/// One frame of friction: the velocity shrinks to 225/256 of itself and
/// snaps to zero below a tenth of a pixel.
pub open spec fn decayed_velocity(v: int) -> int {
    let s = v / 256 * 225 + v % 256 * 225 / 256;
    if s < 100 {
        0
    } else {
        s
    }
}

/// The velocity a pull of `velocity_pct` percent kicks the ribbon to:
/// twelve pixels per frame at full speed, capped at eighteen.
pub open spec fn kicked_velocity(velocity_pct: u8) -> u32 {
    if velocity_pct * 120 > 18000 {
        18000
    } else {
        (velocity_pct * 120) as u32
    }
}

// ───────────────────────────────────────────────────────────────────────
// StitchPhase
// ───────────────────────────────────────────────────────────────────────

/// The animated connection between the two ribbons while playing.
/// Progress counts in percent and advances five points per tick.
#[derive(Clone, Copy, Debug, PartialEq, Eq, Structural)]
pub enum StitchPhase {
    /// Ribbons are separate.
    Unstitched,
    /// Ribbons are animating toward each other.
    Stitching { progress: u8 },
    /// Ribbons fully stitched: playback underway.
    Stitched,
    /// Ribbons separating.
    Unstitching { progress: u8 },
}

/// One animation step: progress advances by five points; reaching the
/// end commits the terminal state and reports completion.
pub open spec fn stitch_tick_spec(s: StitchPhase) -> (StitchPhase, bool) {
    match s {
        StitchPhase::Stitching { progress } => if progress >= 95 {
            (StitchPhase::Stitched, true)
        } else {
            (StitchPhase::Stitching { progress: (progress + 5) as u8 }, false)
        },
        StitchPhase::Unstitching { progress } => if progress >= 95 {
            (StitchPhase::Unstitched, true)
        } else {
            (StitchPhase::Unstitching { progress: (progress + 5) as u8 }, false)
        },
        _ => (s, false),
    }
}

/// The state after `k` animation steps.
pub open spec fn stitch_run(s: StitchPhase, k: nat) -> StitchPhase
    decreases k,
{
    if k == 0 {
        s
    } else {
        stitch_run(stitch_tick_spec(s).0, (k - 1) as nat)
    }
}

impl StitchPhase {
    /// True while the ribbons are joined or joining.
    pub fn is_stitched(&self) -> (r: bool)
        ensures
            r == (*self is Stitched || *self is Stitching),
    {
        match self {
            StitchPhase::Stitched => true,
            StitchPhase::Stitching { .. } => true,
            _ => false,
        }
    }

    /// Advance one frame; returns true when a transition completes.
    pub fn tick(&mut self) -> (r: bool)
        ensures
            (*final(self), r) == stitch_tick_spec(*old(self)),
    {
        match *self {
            StitchPhase::Stitching { progress } => {
                if progress >= 95 {
                    *self = StitchPhase::Stitched;
                    true
                } else {
                    *self = StitchPhase::Stitching { progress: progress + 5 };
                    false
                }
            },
            StitchPhase::Unstitching { progress } => {
                if progress >= 95 {
                    *self = StitchPhase::Unstitched;
                    true
                } else {
                    *self = StitchPhase::Unstitching { progress: progress + 5 };
                    false
                }
            },
            _ => false,
        }
    }
}

/// A terminal stitch state never moves again.
pub proof fn lemma_stitch_terminal_stays(s: StitchPhase, k: nat)
    requires
        s == StitchPhase::Stitched || s == StitchPhase::Unstitched,
    ensures
        stitch_run(s, k) == s,
    decreases k,
{
    if k > 0 {
        lemma_stitch_terminal_stays(s, (k - 1) as nat);
    }
}

/// Stitching completes: from any progress, enough ticks always reach
/// the stitched state.
pub proof fn lemma_stitching_completes(p: u8, k: nat)
    requires
        p + 5 * (k - 1) >= 95,
        k >= 1,
    ensures
        stitch_run(StitchPhase::Stitching { progress: p }, k) == StitchPhase::Stitched,
    decreases k,
{
    if p >= 95 {
        lemma_stitch_terminal_stays(StitchPhase::Stitched, (k - 1) as nat);
    } else {
        lemma_stitching_completes((p + 5) as u8, (k - 1) as nat);
    }
}

/// Unstitching completes: from any progress, enough ticks always reach
/// the unstitched state.
pub proof fn lemma_unstitching_completes(p: u8, k: nat)
    requires
        p + 5 * (k - 1) >= 95,
        k >= 1,
    ensures
        stitch_run(StitchPhase::Unstitching { progress: p }, k) == StitchPhase::Unstitched,
    decreases k,
{
    if p >= 95 {
        lemma_stitch_terminal_stays(StitchPhase::Unstitched, (k - 1) as nat);
    } else {
        lemma_unstitching_completes((p + 5) as u8, (k - 1) as nat);
    }
}

// ───────────────────────────────────────────────────────────────────────
// SnippetTray
// ───────────────────────────────────────────────────────────────────────

/// A snippet deposited into the on-screen tray.
pub struct TrayEntry {
    pub name: String,
    /// Pairs of (left patch, right patch).
    pub patches: Vec<(Patch, Patch)>,
    /// Slide-in animation progress, 0-100, eight points per tick.
    pub slide_in: u8,
}

/// The on-screen snippet tray: first-in first-out, at most eight
/// entries.
pub struct SnippetTray {
    pub entries: Vec<TrayEntry>,
}

/// The largest number of tray entries kept.
pub const TRAY_CAP: usize = 8;

impl Default for SnippetTray {
    /// An empty tray.
    fn default() -> (r: SnippetTray)
        ensures
            r.entries@.len() == 0,
    {
        SnippetTray { entries: Vec::new() }
    }
}

impl SnippetTray {
    /// Deposit one snippet at the end of the tray; the oldest entry
    /// falls out once more than eight are held, every other entry
    /// shifting one place toward the front.
    pub fn deposit(&mut self, name: &str, pairs: Vec<(Patch, Patch)>)
        ensures
            final(self).entries@.len() == if old(self).entries@.len() < TRAY_CAP {
                old(self).entries@.len() as int + 1
            } else {
                old(self).entries@.len() as int
            },
            final(self).entries@.last().name@ == name@,
            final(self).entries@.last().patches@ == pairs@,
            final(self).entries@.last().slide_in == 0,
            old(self).entries@.len() < TRAY_CAP ==> forall|i: int|
                0 <= i < old(self).entries@.len() ==> final(self).entries@[i] == old(
                    self,
                ).entries@[i],
            old(self).entries@.len() >= TRAY_CAP ==> forall|i: int|
                0 <= i < final(self).entries@.len() - 1 ==> final(self).entries@[i] == old(
                    self,
                ).entries@[i + 1],
    {
        let entry = TrayEntry { name: name.to_owned(), patches: pairs, slide_in: 0 };
        let ghost ge = entry;
        self.entries.push(entry);
        let ghost mid = self.entries@;
        if self.entries.len() > TRAY_CAP {
            self.entries.remove(0);
        }
        proof {
            if old(self).entries@.len() >= TRAY_CAP {
                assert(mid == old(self).entries@.push(ge));
                assert(self.entries@ =~= old(self).entries@.subrange(
                    1,
                    old(self).entries@.len() as int,
                ).push(ge));
                assert(self.entries@.last().name@ == name@);
            }
        }
    }

    /// Advance every entry's slide-in animation one frame.
    pub fn tick(&mut self)
        ensures
            final(self).entries@.len() == old(self).entries@.len(),
            forall|i: int|
                0 <= i < old(self).entries@.len() ==> {
                    &&& (#[trigger] final(self).entries@[i]).name == old(self).entries@[i].name
                    &&& final(self).entries@[i].patches == old(self).entries@[i].patches
                    &&& final(self).entries@[i].slide_in == slide_step(
                        old(self).entries@[i].slide_in,
                    )
                },
    {
        let n = self.entries.len();
        let mut i: usize = 0;
        while i < n
            invariant
                i <= n,
                n == self.entries@.len(),
                self.entries@.len() == old(self).entries@.len(),
                forall|j: int|
                    i <= j < n ==> (#[trigger] self.entries@[j]) == old(self).entries@[j],
                forall|j: int|
                    0 <= j < i ==> {
                        &&& (#[trigger] self.entries@[j]).name == old(self).entries@[j].name
                        &&& self.entries@[j].patches == old(self).entries@[j].patches
                        &&& self.entries@[j].slide_in == slide_step(old(self).entries@[j].slide_in)
                    },
            decreases n - i,
        {
            let s = self.entries[i].slide_in;
            let ns = if s >= 92 {
                100
            } else {
                s + 8
            };
            self.entries[i].slide_in = ns;
            i += 1;
        }
    }
}

/// One frame of tray slide-in: eight points per tick, capped at 100.
pub open spec fn slide_step(s: u8) -> u8 {
    if s >= 92 {
        100
    } else {
        (s + 8) as u8
    }
}

// ───────────────────────────────────────────────────────────────────────
// ScissorAnimation
// ───────────────────────────────────────────────────────────────────────

/// The gold highlight sweep drawn over a snipped ribbon section.
/// Progress counts in percent and advances four points per tick.
#[derive(Clone, Copy, Debug, PartialEq, Eq, Structural)]
pub struct ScissorAnimation {
    /// Progress 0-100.
    pub progress: u8,
    /// The patch range being snipped.
    pub start_patch: usize,
    pub count: usize,
}

/// One animation step: four points, capped at 100.
pub open spec fn scissor_step(p: u8) -> u8 {
    if p >= 96 {
        100
    } else {
        (p + 4) as u8
    }
}

/// The progress after `k` steps.
pub open spec fn scissor_run(p: u8, k: nat) -> u8
    decreases k,
{
    if k == 0 {
        p
    } else {
        scissor_run(scissor_step(p), (k - 1) as nat)
    }
}

impl ScissorAnimation {
    /// A fresh sweep over `count` patches starting at `start_patch`.
    pub fn new(start_patch: usize, count: usize) -> (r: ScissorAnimation)
        ensures
            r == (ScissorAnimation { progress: 0u8, start_patch, count }),
    {
        ScissorAnimation { progress: 0, start_patch, count }
    }

    /// Advance one frame.
    pub fn tick(&mut self)
        ensures
            final(self).progress == scissor_step(old(self).progress),
            final(self).start_patch == old(self).start_patch,
            final(self).count == old(self).count,
    {
        self.progress = if self.progress >= 96 {
            100
        } else {
            self.progress + 4
        };
    }

    /// True once the sweep has finished.
    pub fn done(&self) -> (r: bool)
        ensures
            r == (self.progress >= 100),
    {
        self.progress >= 100
    }
}

/// The scissor sweep finishes within a bounded number of ticks: from
/// any progress, twenty-five steps always reach completion.
pub proof fn lemma_scissor_completes(p: u8, k: nat)
    requires
        p <= 100,
        p + 4 * k >= 100,
    ensures
        scissor_run(p, k) == 100,
    decreases k,
{
    if k > 0 {
        lemma_scissor_completes(scissor_step(p), (k - 1) as nat);
    }
}

} // verus!
