//! Controls drawn onto the video: which of them are shown, what they react
//! to, and what they say.
//!
//! Layout is a set of small clusters anchored to the corners of the picture:
//! status top-left, close top-right, audio bottom-left, view controls
//! bottom-right.

pub mod laws;

use vstd::prelude::*;
use vstd::string::*;

use crate::connection::{self, ConnectionStage};
use crate::text_ops::{self, decimal_string, join};

verus! {

/// How long the controls stay up after the last mouse movement.
pub const HIDE_AFTER_NS: u64 = 1_000_000_000;

/// How long the controls take to dissolve, at the end of that time.
pub const FADE_NS: u64 = 200_000_000;

#[derive(Debug, Clone, Copy, PartialEq, Eq, Hash, Structural)]
pub enum Control {
    Mute,
    AudioGap,
    VolumeTrack,
    Fullscreen,
    Close,
    Stats,
}

#[derive(Debug)]
pub struct OverlayState {
    /// Encoded frame size.
    pub video: (u32, u32),
    /// Size of the frame with square pixels; the overlay is composited into
    /// this space.
    pub display: Option<(u32, u32)>,
    pub muted: bool,
    pub volume_dragging: bool,
    pub fullscreen: bool,
    pub viewers: Option<usize>,
    pub host: Option<String>,
    /// Frames per second as a fraction.
    pub fps: Option<(i32, i32)>,
    /// The bitrate in megabits per second, rounded.
    pub bitrate_mbps: Option<u32>,
    /// The status is shown even while the controls are hidden.
    pub persistent_live: bool,
    /// When the controls were shown last.
    pub shown_at: Option<u64>,
    pub hot: Option<Control>,
    pub close_requested: bool,
    pub fullscreen_requested: bool,
    /// Hold the controls open instead of hiding them.
    pub pinned: bool,
}

/// The controls were shown less than the hiding time ago.
pub open spec fn recently_shown(state: OverlayState, now_ns: u64) -> bool {
    state.shown_at matches Some(at) && now_ns - at < HIDE_AFTER_NS
}

pub open spec fn controls_visible(state: OverlayState, now_ns: u64) -> bool {
    state.pinned || state.volume_dragging || recently_shown(state, now_ns)
}

/// How much of the controls is left, in parts of the fading time.
pub open spec fn remaining_fade(state: OverlayState, now_ns: u64) -> int {
    if state.pinned || state.volume_dragging {
        FADE_NS as int
    } else if !recently_shown(state, now_ns) {
        0
    } else if now_ns - state.shown_at->0 < HIDE_AFTER_NS - FADE_NS {
        FADE_NS as int
    } else {
        HIDE_AFTER_NS - (now_ns - state.shown_at->0)
    }
}

/// A control whose slider stays open.
pub open spec fn audio_control(hot: Option<Control>) -> bool {
    hot == Some(Control::Mute) || hot == Some(Control::AudioGap) || hot == Some(
        Control::VolumeTrack,
    )
}

/// What is hovered after the pointer moved onto `next`. The corridor beside
/// the closed audio control counts only while leaving an audio control, so it
/// cannot be entered from elsewhere.
pub open spec fn hover_after(previous: Option<Control>, next: Option<Control>) -> Option<Control> {
    if next == Some(Control::AudioGap) && !audio_control(previous) {
        None
    } else {
        next
    }
}

/// The size of the frame in display space.
pub open spec fn shown_size(state: OverlayState) -> (u32, u32) {
    match state.display {
        Some(size) => size,
        None => (0, 0),
    }
}

/// Frames per second, rounded half up, where there is a positive rate.
pub open spec fn rounded_fps(fps: Option<(i32, i32)>) -> Option<int> {
    match fps {
        Some((numer, denom)) => if numer > 0 && denom > 0 {
            Some((2 * numer + denom) / (2 * denom))
        } else {
            None
        },
        None => None,
    }
}

pub open spec fn size_name(video: (u32, u32)) -> Seq<char> {
    if video.1 == 2160 {
        "4K"@
    } else if video.1 == 1440 {
        "1440p"@
    } else if video.1 == 1080 {
        "1080p"@
    } else if video.1 == 720 {
        "720p"@
    } else {
        text_ops::decimal(video.0 as nat) + "x"@ + text_ops::decimal(video.1 as nat)
    }
}

/// The stage of a connection that has not shown a frame yet.
pub open spec fn unfinished(stage: Option<ConnectionStage>) -> Option<ConnectionStage> {
    match stage {
        Some(stage) => if stage is Connected {
            None
        } else {
            Some(stage)
        },
        None => None,
    }
}

/// A short description of what is being received: the connection's stage
/// until there is a picture, then its size and rate.
pub open spec fn quality_text(state: OverlayState, stage: Option<ConnectionStage>) -> Seq<char> {
    match unfinished(stage) {
        Some(stage) => connection::title_text(stage),
        None => if state.video.0 == 0 || state.video.1 == 0 {
            "connecting"@
        } else {
            match rounded_fps(state.fps) {
                Some(fps) => size_name(state.video) + text_ops::decimal(fps as nat),
                None => size_name(state.video),
            }
        },
    }
}

pub open spec fn bitrate_part(state: OverlayState) -> Seq<Seq<char>> {
    match state.bitrate_mbps {
        Some(mbps) => seq![text_ops::decimal(mbps as nat) + " Mbps"@],
        None => Seq::empty(),
    }
}

pub open spec fn host_part(state: OverlayState) -> Seq<Seq<char>> {
    match state.host {
        Some(host) => seq![host@],
        None => Seq::empty(),
    }
}

pub open spec fn viewers_part(state: OverlayState) -> Seq<Seq<char>> {
    match state.viewers {
        Some(n) => seq![text_ops::decimal(n as nat) + " watching"@],
        None => Seq::empty(),
    }
}

pub open spec fn detail_parts(state: OverlayState) -> Seq<Seq<char>> {
    bitrate_part(state) + host_part(state) + viewers_part(state)
}

/// What is said beside the short description.
pub open spec fn detail_line(state: OverlayState, stage: Option<ConnectionStage>) -> Option<
    Seq<char>,
> {
    match unfinished(stage) {
        Some(stage) => Some(connection::detail_text(stage)),
        None => if detail_parts(state).len() == 0 {
            None
        } else {
            Some(text_ops::joined(detail_parts(state), "  \u{00b7}  "@))
        },
    }
}

/// The state after the controls were shown.
pub open spec fn woken(state: OverlayState, now_ns: u64) -> OverlayState {
    OverlayState { shown_at: Some(now_ns), ..state }
}

/// The state after the pointer moved onto `next`.
pub open spec fn pointed(state: OverlayState, next: Option<Control>, now_ns: u64) -> OverlayState {
    OverlayState { hot: hover_after(state.hot, next), ..woken(state, now_ns) }
}

/// The state after the pointer moved while the slider may be dragged.
pub open spec fn dragged(state: OverlayState, has_track: bool, now_ns: u64) -> OverlayState {
    if state.volume_dragging && has_track {
        OverlayState { muted: false, ..woken(state, now_ns) }
    } else {
        state
    }
}

/// The state after the slider was let go.
pub open spec fn let_go(state: OverlayState) -> OverlayState {
    OverlayState { volume_dragging: false, ..state }
}

impl OverlayState {
    /// A new overlay is hidden until the pointer moves or the first size of
    /// the source is known.
    pub fn new(starts_muted: bool, persistent_live: bool) -> (state: OverlayState)
        ensures
            state == (OverlayState {
                video: (0, 0),
                display: None,
                muted: starts_muted,
                volume_dragging: false,
                fullscreen: false,
                viewers: None,
                host: None,
                fps: None,
                bitrate_mbps: None,
                persistent_live,
                shown_at: None,
                hot: None,
                close_requested: false,
                fullscreen_requested: false,
                pinned: false,
            }),
            forall|now_ns: u64| !#[trigger] controls_visible(state, now_ns),
    {
        OverlayState {
            video: (0, 0),
            display: None,
            muted: starts_muted,
            volume_dragging: false,
            fullscreen: false,
            viewers: None,
            host: None,
            fps: None,
            bitrate_mbps: None,
            persistent_live,
            shown_at: None,
            hot: None,
            close_requested: false,
            fullscreen_requested: false,
            pinned: false,
        }
    }

    pub fn visible(&self, now_ns: u64) -> (yes: bool)
        ensures
            yes == controls_visible(*self, now_ns),
    {
        let recent = match self.shown_at {
            Some(at) => now_ns.saturating_sub(at) < HIDE_AFTER_NS,
            None => false,
        };
        self.pinned || self.volume_dragging || recent
    }

    /// How much of the controls is left, in parts of the fading time.
    pub fn opacity(&self, now_ns: u64) -> (left: u64)
        ensures
            left == remaining_fade(*self, now_ns),
            left <= FADE_NS,
    {
        if self.pinned || self.volume_dragging {
            return FADE_NS;
        }
        let elapsed: u64 = match self.shown_at {
            Some(at) => now_ns.saturating_sub(at),
            None => return 0,
        };
        if elapsed >= HIDE_AFTER_NS {
            return 0;
        }
        if elapsed < HIDE_AFTER_NS - FADE_NS {
            FADE_NS
        } else {
            HIDE_AFTER_NS - elapsed
        }
    }

    pub fn wake(&mut self, now_ns: u64)
        ensures
            *final(self) == (OverlayState { shown_at: Some(now_ns), ..*old(self) }),
            *final(self) == woken(*old(self), now_ns),
    {
        self.shown_at = Some(now_ns);
    }

    /// Whether the cursor is over something clickable, which decides if a
    /// click should press it or drag the window. The status reacts to the
    /// pointer but not to a click.
    pub fn hovered(&self) -> (yes: bool)
        ensures
            yes == (self.hot is Some && self.hot != Some(Control::Stats)),
    {
        match self.hot {
            None => false,
            Some(Control::Stats) => false,
            _ => true,
        }
    }

    /// Takes the control under the pointer. Returns true if a redraw is
    /// warranted.
    pub fn on_mouse_move(&mut self, next: Option<Control>, now_ns: u64) -> (redraw: bool)
        ensures
            *final(self) == (OverlayState {
                shown_at: Some(now_ns),
                hot: hover_after(old(self).hot, next),
                ..*old(self)
            }),
            redraw == (final(self).hot != old(self).hot),
            *final(self) == pointed(*old(self), next, now_ns),
    {
        self.wake(now_ns);
        let previous = self.hot;
        let hot = match (previous, next) {
            (Some(Control::Mute), Some(Control::AudioGap)) => Some(Control::AudioGap),
            (Some(Control::AudioGap), Some(Control::AudioGap)) => Some(Control::AudioGap),
            (Some(Control::VolumeTrack), Some(Control::AudioGap)) => Some(Control::AudioGap),
            (_, Some(Control::AudioGap)) => None,
            (_, next) => next,
        };
        self.hot = hot;
        previous != hot
    }

    /// Takes a click on a control. Returns true if it sets the volume from
    /// the pointer's place on the track.
    pub fn on_click(&mut self, hit: Option<Control>, now_ns: u64) -> (sets_volume: bool)
        ensures
            *final(self) == clicked(*old(self), hit, now_ns),
            sets_volume == (hit == Some(Control::VolumeTrack)),
    {
        self.wake(now_ns);
        match hit {
            Some(Control::Mute) => {
                self.muted = !self.muted;
            },
            Some(Control::Close) => {
                self.close_requested = true;
            },
            Some(Control::Fullscreen) => {
                self.fullscreen_requested = true;
            },
            Some(Control::VolumeTrack) => {
                self.muted = false;
                self.volume_dragging = true;
                return true;
            },
            _ => {},
        }
        false
    }

    /// Whether the audio cluster should show its slider.
    pub fn audio_open(&self) -> (yes: bool)
        ensures
            yes == (self.volume_dragging || audio_control(self.hot)),
    {
        let over = match self.hot {
            Some(Control::Mute) => true,
            Some(Control::AudioGap) => true,
            Some(Control::VolumeTrack) => true,
            _ => false,
        };
        self.volume_dragging || over
    }

    pub fn volume_dragging(&self) -> (yes: bool)
        ensures
            yes == self.volume_dragging,
    {
        self.volume_dragging
    }

    /// Continues a slider drag even after the pointer leaves its visual
    /// bounds. `moved` says whether the pointer's place gives another volume.
    /// Returns whether anything changed.
    pub fn drag_volume(&mut self, has_track: bool, moved: bool, now_ns: u64) -> (changed: bool)
        ensures
            changed == (old(self).volume_dragging && has_track && (moved || old(self).muted)),
            *final(self) == if old(self).volume_dragging && has_track {
                OverlayState { muted: false, shown_at: Some(now_ns), ..*old(self) }
            } else {
                *old(self)
            },
            *final(self) == dragged(*old(self), has_track, now_ns),
    {
        if !self.volume_dragging || !has_track {
            return false;
        }
        let changed = moved || self.muted;
        self.muted = false;
        self.wake(now_ns);
        changed
    }

    pub fn end_volume_drag(&mut self) -> (was_dragging: bool)
        ensures
            was_dragging == old(self).volume_dragging,
            *final(self) == (OverlayState { volume_dragging: false, ..*old(self) }),
            *final(self) == let_go(*old(self)),
    {
        let was_dragging = self.volume_dragging;
        self.volume_dragging = false;
        was_dragging
    }

    /// A short description of what is being received.
    pub fn quality_label(&self, stage: Option<ConnectionStage>) -> (label: String)
        ensures
            label@ == quality_text(*self, stage),
    {
        if let Some(stage) = stage {
            if !stage.is_connected() {
                return stage.copy().title.to_owned();
            }
        }
        let (w, h) = self.video;
        if w == 0 || h == 0 {
            return "connecting".to_owned();
        }
        let mut name = if h == 2160 {
            "4K".to_owned()
        } else if h == 1440 {
            "1440p".to_owned()
        } else if h == 1080 {
            "1080p".to_owned()
        } else if h == 720 {
            "720p".to_owned()
        } else {
            let mut size = decimal_string(w as u128);
            size.append("x");
            size.append(decimal_string(h as u128).as_str());
            size
        };
        if let Some((numer, denom)) = self.fps {
            if numer > 0 && denom > 0 {
                let fps: i64 = (2 * numer as i64 + denom as i64) / (2 * denom as i64);
                name.append(decimal_string(fps as u128).as_str());
            }
        }
        name
    }

    /// What is said beside the short description.
    pub fn detail_label(&self, stage: Option<ConnectionStage>) -> (label: Option<String>)
        ensures
            match detail_line(*self, stage) {
                Some(text) => label matches Some(out) && out@ == text,
                None => label is None,
            },
    {
        if let Some(stage) = stage {
            if !stage.is_connected() {
                return Some(stage.copy().detail.to_owned());
            }
        }
        let mut parts: Vec<String> = Vec::new();
        proof {
            assert(text_ops::texts(parts@) =~= Seq::empty());
        }
        if let Some(mbps) = self.bitrate_mbps {
            let mut text = decimal_string(mbps as u128);
            text.append(" Mbps");
            parts.push(text);
        }
        proof {
            assert(text_ops::texts(parts@) =~= bitrate_part(*self));
        }
        let ghost first = text_ops::texts(parts@);
        if let Some(host) = &self.host {
            parts.push(host.as_str().to_owned());
        }
        proof {
            assert(text_ops::texts(parts@) =~= first + host_part(*self));
        }
        let ghost second = text_ops::texts(parts@);
        if let Some(n) = self.viewers {
            let mut text = decimal_string(n as u128);
            text.append(" watching");
            parts.push(text);
        }
        proof {
            assert(text_ops::texts(parts@) =~= second + viewers_part(*self));
            assert(parts@.len() == detail_parts(*self).len());
        }
        if parts.len() == 0 {
            None
        } else {
            Some(join(&parts, "  \u{00b7}  "))
        }
    }

    pub fn display_size(&self) -> (size: (u32, u32))
        ensures
            size == shown_size(*self),
    {
        match self.display {
            Some(size) => size,
            None => (0, 0),
        }
    }
}

/// The state after a click on a control.
pub open spec fn clicked(state: OverlayState, hit: Option<Control>, now_ns: u64) -> OverlayState {
    let woken = OverlayState { shown_at: Some(now_ns), ..state };
    match hit {
        Some(Control::Mute) => OverlayState { muted: !state.muted, ..woken },
        Some(Control::Close) => OverlayState { close_requested: true, ..woken },
        Some(Control::Fullscreen) => OverlayState { fullscreen_requested: true, ..woken },
        Some(Control::VolumeTrack) => OverlayState {
            muted: false,
            volume_dragging: true,
            ..woken
        },
        _ => woken,
    }
}

/// Clicking the speaker twice leaves the sound as it was.
pub proof fn mute_twice_is_no_change(state: OverlayState, first_ns: u64, second_ns: u64)
    ensures
        clicked(
            clicked(state, Some(Control::Mute), first_ns),
            Some(Control::Mute),
            second_ns,
        ) == (OverlayState { shown_at: Some(second_ns), ..state }),
{
}

/// The slider opens from the speaker and stays open on the way across the
/// corridor to the track, but moving onto the corridor from anywhere else
/// opens nothing.
pub proof fn corridor_leads_from_the_speaker_only(previous: Option<Control>)
    ensures
        audio_control(hover_after(previous, Some(Control::Mute))),
        audio_control(hover_after(Some(Control::Mute), Some(Control::AudioGap))),
        audio_control(hover_after(Some(Control::AudioGap), Some(Control::VolumeTrack))),
        !audio_control(previous) ==> hover_after(previous, Some(Control::AudioGap)) is None,
{
}

/// Controls have faded away exactly when they are hidden.
pub proof fn fade_ends_when_hidden(state: OverlayState, now_ns: u64)
    ensures
        controls_visible(state, now_ns) <==> remaining_fade(state, now_ns) > 0,
        0 <= remaining_fade(state, now_ns) <= FADE_NS,
{
}

/// Controls that are woken are visible until the hiding time has passed.
pub proof fn woken_controls_are_visible(state: OverlayState, woken_ns: u64, now_ns: u64)
    requires
        woken_ns <= now_ns < woken_ns + HIDE_AFTER_NS,
    ensures
        controls_visible(OverlayState { shown_at: Some(woken_ns), ..state }, now_ns),
{
}

/// The frame size in display space for a ratio of displayed width to height.
/// Of the two source dimensions the one is kept that the video sink keeps: the
/// width where the ratio fits it and does not fit the height, and the height
/// otherwise.
pub open spec fn fitted_size(video: (u32, u32), num: u32, den: u32) -> (int, int) {
    let w = video.0 as int;
    let h = video.1 as int;
    if h % (den as int) != 0 && w % (num as int) == 0 {
        (w, w * den / (num as int))
    } else {
        (h * num / (den as int), h)
    }
}

/// The size of a frame with square pixels. There is none for an empty frame,
/// for a pixel shape or ratio that is not positive, and where a dimension
/// becomes zero or too large.
pub open spec fn display_size_of(
    video: (u32, u32),
    par: (i32, i32),
    ratio: Option<(i32, i32)>,
) -> Option<(u32, u32)> {
    if video.0 == 0 || video.1 == 0 || par.0 <= 0 || par.1 <= 0 {
        None
    } else {
        match ratio {
            Some((num, den)) => if num <= 0 || den <= 0 {
                None
            } else {
                let size = fitted_size(video, num as u32, den as u32);
                if 0 < size.0 <= i32::MAX && 0 < size.1 <= i32::MAX {
                    Some((size.0 as u32, size.1 as u32))
                } else {
                    None
                }
            },
            None => None,
        }
    }
}

/// The size of a frame with square pixels; `ratio` is the displayed width to
/// height, in lowest terms, where it can be computed.
pub fn display_size(video: (u32, u32), par: (i32, i32), ratio: Option<(i32, i32)>) -> (size: Option<
    (u32, u32),
>)
    ensures
        size == display_size_of(video, par, ratio),
{
    let (w, h) = video;
    if w == 0 || h == 0 || par.0 <= 0 || par.1 <= 0 {
        return None;
    }
    let (num, den) = match ratio {
        Some(ratio) => ratio,
        None => return None,
    };
    if num <= 0 || den <= 0 {
        return None;
    }
    let num: u32 = num as u32;
    let den: u32 = den as u32;
    proof {
        assert(0 <= w * den <= 0xffff_ffff * 0xffff_ffff) by (nonlinear_arith)
            requires
                0 <= w <= 0xffff_ffff,
                0 <= den <= 0xffff_ffff,
        ;
        assert(0 <= h * num <= 0xffff_ffff * 0xffff_ffff) by (nonlinear_arith)
            requires
                0 <= h <= 0xffff_ffff,
                0 <= num <= 0xffff_ffff,
        ;
    }
    let size: (u64, u64) = if h % den != 0 && w % num == 0 {
        (w as u64, w as u64 * den as u64 / num as u64)
    } else {
        (h as u64 * num as u64 / den as u64, h as u64)
    };
    if size.0 == 0 || size.1 == 0 || size.0 > 0x7fff_ffff || size.1 > 0x7fff_ffff {
        return None;
    }
    Some((size.0 as u32, size.1 as u32))
}

/// A frame of square pixels keeps its size.
pub proof fn square_pixels_keep_the_size(w: u32, h: u32, k: u32)
    requires
        0 < w <= i32::MAX,
        0 < h <= i32::MAX,
        k > 0,
        w % k == 0,
        h % k == 0,
    ensures
        display_size_of((w, h), (1, 1), Some(((w / k) as i32, (h / k) as i32))) == Some((w, h)),
{
    let num = (w / k) as int;
    let den = (h / k) as int;
    assert(w == num * k && h == den * k) by {
        vstd::arithmetic::div_mod::lemma_fundamental_div_mod(w as int, k as int);
        vstd::arithmetic::div_mod::lemma_fundamental_div_mod(h as int, k as int);
        assert(k * num == num * k) by (nonlinear_arith);
        assert(k * den == den * k) by (nonlinear_arith);
    }
    assert(num > 0) by (nonlinear_arith)
        requires
            w == num * k,
            w > 0,
            k > 0,
    ;
    assert(den > 0) by (nonlinear_arith)
        requires
            h == den * k,
            h > 0,
            k > 0,
    ;
    assert(h as int % den == 0) by {
        assert(h as int == den * k);
        vstd::arithmetic::div_mod::lemma_mod_multiples_basic(k as int, den);
        assert(k * den == den * k) by (nonlinear_arith);
    }
    assert(h * num / den == w) by {
        assert(h * num == w * den) by (nonlinear_arith)
            requires
                w == num * k,
                h == den * k,
        ;
        vstd::arithmetic::div_mod::lemma_div_multiples_vanish(w as int, den);
        assert(den * w == w * den) by (nonlinear_arith);
    }
    assert(num <= w) by (nonlinear_arith)
        requires
            w == num * k,
            k >= 1,
            num > 0,
    ;
    assert(den <= h) by (nonlinear_arith)
        requires
            h == den * k,
            k >= 1,
            den > 0,
    ;
}

/// What new caps say about the source.
#[derive(Debug, Clone, Copy)]
pub struct SourceCaps {
    pub width: i32,
    pub height: i32,
    pub framerate: Option<(i32, i32)>,
    pub pixel_aspect_ratio: Option<(i32, i32)>,
    /// Displayed width to height, in lowest terms.
    pub display_ratio: Option<(i32, i32)>,
}

pub open spec fn not_negative(n: i32) -> u32 {
    if n > 0 {
        n as u32
    } else {
        0
    }
}

/// The state after new caps. A rate that the caps do not give is kept; the
/// first known size of the source shows the controls.
pub open spec fn with_caps(state: OverlayState, caps: SourceCaps, now_ns: u64) -> OverlayState {
    let video = (not_negative(caps.width), not_negative(caps.height));
    let par = match caps.pixel_aspect_ratio {
        Some(par) => par,
        None => (1i32, 1i32),
    };
    let sized = OverlayState {
        video,
        display: display_size_of(video, par, caps.display_ratio),
        fps: match caps.framerate {
            Some((numer, denom)) => if denom != 0 {
                Some((numer, denom))
            } else {
                state.fps
            },
            None => state.fps,
        },
        ..state
    };
    if shown_size(sized) != (0u32, 0u32) && shown_size(state) == (0u32, 0u32) {
        OverlayState { shown_at: Some(now_ns), ..sized }
    } else {
        sized
    }
}

/// The size that the window has to follow, where there is a new one.
pub open spec fn size_to_follow(before: OverlayState, after: OverlayState) -> Option<(u32, u32)> {
    if shown_size(after) != (0u32, 0u32) && shown_size(after) != shown_size(before) {
        Some(shown_size(after))
    } else {
        None
    }
}

/// Takes new caps of the source. Returns the size that the window has to
/// follow, where there is a new one.
pub fn attach(state: &mut OverlayState, caps: &SourceCaps, now_ns: u64) -> (source_changed: Option<
    (u32, u32),
>)
    ensures
        *final(state) == with_caps(*old(state), *caps, now_ns),
        source_changed == size_to_follow(*old(state), *final(state)),
        source_changed == if shown_size(*final(state)) != (0u32, 0u32) && shown_size(*final(state))
            != shown_size(*old(state)) {
            Some(shown_size(*final(state)))
        } else {
            None
        },
{
    let previous = state.display_size();
    let width: u32 = if caps.width > 0 {
        caps.width as u32
    } else {
        0
    };
    let height: u32 = if caps.height > 0 {
        caps.height as u32
    } else {
        0
    };
    state.video = (width, height);
    let par = match caps.pixel_aspect_ratio {
        Some(par) => par,
        None => (1i32, 1i32),
    };
    state.display = display_size((width, height), par, caps.display_ratio);
    if let Some((numer, denom)) = caps.framerate {
        if denom != 0 {
            state.fps = Some((numer, denom));
        }
    }
    let size = state.display_size();
    let known = size.0 != 0 || size.1 != 0;
    let changed = size.0 != previous.0 || size.1 != previous.1;
    if known && changed {
        if previous.0 == 0 && previous.1 == 0 {
            state.wake(now_ns);
        }
        return Some(size);
    }
    None
}

/// Whether the status says more than its mark.
pub fn status_expanded(hovered: bool) -> (yes: bool)
    ensures
        yes == hovered,
{
    hovered
}

/// The speaker that matches what you would hear. Muted and turned to zero are
/// different acts, so they look different.
#[derive(Debug, Clone, Copy, PartialEq, Eq, Structural)]
pub enum SpeakerIcon {
    Slash,
    Silent,
    Low,
    High,
}

/// `silent` is a level of zero, `quiet` one below the middle.
pub fn speaker_icon(muted: bool, silent: bool, quiet: bool) -> (icon: SpeakerIcon)
    ensures
        icon == if muted {
            SpeakerIcon::Slash
        } else if silent {
            SpeakerIcon::Silent
        } else if quiet {
            SpeakerIcon::Low
        } else {
            SpeakerIcon::High
        },
{
    if muted {
        SpeakerIcon::Slash
    } else if silent {
        SpeakerIcon::Silent
    } else if quiet {
        SpeakerIcon::Low
    } else {
        SpeakerIcon::High
    }
}

/// What drawing depends on besides the texts. The three comparisons of widths
/// are made in the units of the layout.
#[derive(Debug, Clone, Copy, PartialEq, Eq, Structural)]
pub struct RenderFacts {
    pub has_picture: bool,
    pub visible: bool,
    pub persistent_live: bool,
    pub audio_open: bool,
    /// There is room for a slider that can be used.
    pub slider_fits: bool,
    /// The corridor beside the speaker has a width.
    pub gap_has_width: bool,
    /// An open slider would cover the fullscreen button.
    pub slider_covers_fullscreen: bool,
}

/// The clusters that are drawn.
#[derive(Debug, Clone, Copy, PartialEq, Eq, Structural)]
pub struct RenderPlan {
    pub close: bool,
    pub audio: bool,
    pub slider: bool,
    pub gap: bool,
    pub fullscreen: bool,
    /// Regions of the last drawing stay, except the status.
    pub keep_regions: bool,
}

#[derive(Debug, Clone, Copy, PartialEq, Eq, Structural)]
pub enum RenderOutcome {
    /// There is no picture yet: nothing is drawn and nothing can be hit.
    Empty,
    /// The last drawing still holds.
    Cached,
    /// The controls are hidden: nothing is drawn, and what can be hit stays.
    Hidden,
    Draw(RenderPlan),
}

pub open spec fn plan_of(facts: RenderFacts) -> RenderPlan {
    RenderPlan {
        close: facts.visible,
        audio: facts.visible,
        slider: facts.visible && facts.audio_open && facts.slider_fits,
        gap: facts.visible && facts.gap_has_width,
        fullscreen: facts.visible && !(facts.audio_open && facts.slider_covers_fullscreen),
        keep_regions: !facts.visible && facts.persistent_live,
    }
}

/// What is drawn.
pub open spec fn outcome_of(facts: RenderFacts, cache_holds: bool) -> RenderOutcome {
    if !facts.has_picture {
        RenderOutcome::Empty
    } else if cache_holds {
        RenderOutcome::Cached
    } else if !facts.visible && !facts.persistent_live {
        RenderOutcome::Hidden
    } else {
        RenderOutcome::Draw(plan_of(facts))
    }
}

/// The controls of a list, in order, where `yes`.
pub open spec fn where_shown(yes: bool, control: Control) -> Seq<Control> {
    if yes {
        seq![control]
    } else {
        Seq::empty()
    }
}

/// The list without the status.
pub open spec fn without_stats(hits: Seq<Control>) -> Seq<Control>
    decreases hits.len(),
{
    if hits.len() == 0 {
        Seq::empty()
    } else if hits.last() == Control::Stats {
        without_stats(hits.drop_last())
    } else {
        without_stats(hits.drop_last()).push(hits.last())
    }
}

/// The controls that can be hit after a drawing, in the order in which they
/// are tried.
pub open spec fn plan_hits(plan: RenderPlan, before: Seq<Control>) -> Seq<Control> {
    seq![Control::Stats] + where_shown(plan.close, Control::Close) + where_shown(
        plan.audio,
        Control::Mute,
    ) + where_shown(plan.slider, Control::VolumeTrack) + where_shown(
        plan.gap,
        Control::AudioGap,
    ) + where_shown(plan.fullscreen, Control::Fullscreen) + if plan.keep_regions {
        without_stats(before)
    } else {
        Seq::empty()
    }
}

/// The controls that can be hit after a frame.
pub open spec fn hits_after(outcome: RenderOutcome, before: Seq<Control>) -> Seq<Control> {
    match outcome {
        RenderOutcome::Empty => Seq::empty(),
        RenderOutcome::Cached => before,
        RenderOutcome::Hidden => before,
        RenderOutcome::Draw(plan) => plan_hits(plan, before),
    }
}

/// Decides what a frame shows, and what can be hit from then on.
pub fn render(hits: &mut Vec<Control>, facts: &RenderFacts, cache_holds: bool) -> (outcome:
    RenderOutcome)
    ensures
        outcome == outcome_of(*facts, cache_holds),
        final(hits)@ == hits_after(outcome, old(hits)@),
{
    if !facts.has_picture {
        *hits = Vec::new();
        return RenderOutcome::Empty;
    }
    if cache_holds {
        return RenderOutcome::Cached;
    }
    if !facts.visible && !facts.persistent_live {
        return RenderOutcome::Hidden;
    }
    let plan = RenderPlan {
        close: facts.visible,
        audio: facts.visible,
        slider: facts.visible && facts.audio_open && facts.slider_fits,
        gap: facts.visible && facts.gap_has_width,
        fullscreen: facts.visible && !(facts.audio_open && facts.slider_covers_fullscreen),
        keep_regions: !facts.visible && facts.persistent_live,
    };
    let ghost before = hits@;
    let mut next: Vec<Control> = Vec::new();
    next.push(Control::Stats);
    if plan.close {
        next.push(Control::Close);
    }
    if plan.audio {
        next.push(Control::Mute);
    }
    if plan.slider {
        next.push(Control::VolumeTrack);
    }
    if plan.gap {
        next.push(Control::AudioGap);
    }
    if plan.fullscreen {
        next.push(Control::Fullscreen);
    }
    let ghost drawn = next@;
    proof {
        assert(drawn =~= seq![Control::Stats] + where_shown(plan.close, Control::Close)
            + where_shown(plan.audio, Control::Mute) + where_shown(
            plan.slider,
            Control::VolumeTrack,
        ) + where_shown(plan.gap, Control::AudioGap) + where_shown(
            plan.fullscreen,
            Control::Fullscreen,
        ));
    }
    if plan.keep_regions {
        let mut i: usize = 0;
        proof {
            assert(before.take(0) =~= Seq::empty());
            assert(next@ =~= drawn + without_stats(before.take(0)));
        }
        while i < hits.len()
            invariant
                i <= hits@.len(),
                hits@ == before,
                next@ == drawn + without_stats(before.take(i as int)),
            decreases hits@.len() - i,
        {
            let control = hits[i];
            proof {
                assert(before.take(i + 1).drop_last() =~= before.take(i as int));
            }
            let ghost so_far = next@;
            if control != Control::Stats {
                next.push(control);
                proof {
                    assert(next@ =~= drawn + without_stats(before.take(i + 1)));
                }
            }
            i += 1;
        }
        proof {
            assert(before.take(before.len() as int) =~= before);
        }
    } else {
        proof {
            assert(next@ =~= plan_hits(plan, before));
        }
    }
    *hits = next;
    RenderOutcome::Draw(plan)
}

proof fn lemma_without_stats_keeps(hits: Seq<Control>, control: Control)
    requires
        control != Control::Stats,
        hits.contains(control),
    ensures
        without_stats(hits).contains(control),
    decreases hits.len(),
{
    let i = choose|i: int| 0 <= i < hits.len() && hits[i] == control;
    if i == hits.len() - 1 {
        assert(without_stats(hits).last() == control);
    } else {
        assert(hits.drop_last()[i] == control);
        lemma_without_stats_keeps(hits.drop_last(), control);
        let k = choose|k: int|
            0 <= k < without_stats(hits.drop_last()).len() && without_stats(hits.drop_last())[k]
                == control;
        assert(without_stats(hits)[k] == control);
    }
}

/// Controls that have faded keep their regions: whatever could be hit before,
/// other than the status, can be hit after a frame without visible controls.
pub proof fn faded_controls_keep_their_regions(
    facts: RenderFacts,
    cache_holds: bool,
    before: Seq<Control>,
    control: Control,
)
    requires
        facts.has_picture,
        !facts.visible,
        control != Control::Stats,
        before.contains(control),
    ensures
        hits_after(outcome_of(facts, cache_holds), before).contains(control),
{
    if !cache_holds && facts.persistent_live {
        lemma_without_stats_keeps(before, control);
        let kept = without_stats(before);
        let k = choose|k: int| 0 <= k < kept.len() && kept[k] == control;
        let all = hits_after(outcome_of(facts, cache_holds), before);
        assert(all.len() == 1 + kept.len());
        assert(all[1 + k] == control);
    }
}

/// Visible controls can be hit: closing and muting always, and going
/// fullscreen unless the slider lies over that button.
pub proof fn visible_controls_can_be_hit(facts: RenderFacts, before: Seq<Control>)
    requires
        facts.has_picture,
        facts.visible,
    ensures
        hits_after(outcome_of(facts, false), before).contains(Control::Close),
        hits_after(outcome_of(facts, false), before).contains(Control::Mute),
        !(facts.audio_open && facts.slider_covers_fullscreen) ==> hits_after(
            outcome_of(facts, false),
            before,
        ).contains(Control::Fullscreen),
{
    let all = hits_after(outcome_of(facts, false), before);
    assert(all[1] == Control::Close);
    assert(all[2] == Control::Mute);
    if !(facts.audio_open && facts.slider_covers_fullscreen) {
        assert(all[all.len() - 1] == Control::Fullscreen);
    }
}

/// What the status says.
#[derive(Debug)]
pub struct StatusText {
    pub quality: String,
    pub detail: Option<String>,
}

/// The detail of an expanded status before its width is looked at.
pub open spec fn full_detail(
    persistent_live: bool,
    expanded: bool,
    received: Seq<char>,
    detail: Option<Seq<char>>,
) -> Option<Seq<char>> {
    if !expanded {
        None
    } else if persistent_live {
        match detail {
            Some(detail) => Some(received + "  \u{00b7}  "@ + detail),
            None => Some(received),
        }
    } else {
        detail
    }
}

pub open spec fn some_text(text: Option<String>) -> Option<Seq<char>> {
    match text {
        Some(text) => Some(text@),
        None => None,
    }
}

/// A detail with this text was found not to fit.
pub open spec fn too_wide<F: Fn(&Option<String>) -> bool>(
    fits: F,
    text: Option<Seq<char>>,
) -> bool {
    exists|detail: Option<String>|
        some_text(detail) == text && #[trigger] call_ensures(fits, (&detail,), false)
}

/// The status keeps as much of its detail as fits: all of it, or for a live
/// monitor what is received, or nothing.
pub open spec fn detail_kept<F: Fn(&Option<String>) -> bool>(
    fits: F,
    persistent_live: bool,
    expanded: bool,
    received: Seq<char>,
    detail: Option<Seq<char>>,
    kept: Option<String>,
) -> bool {
    let full = full_detail(persistent_live, expanded, received, detail);
    if !expanded {
        kept is None
    } else {
        ||| some_text(kept) == full && call_ensures(fits, (&kept,), true)
        ||| persistent_live && some_text(kept) == Some(received) && call_ensures(
            fits,
            (&kept,),
            true,
        ) && too_wide(fits, full)
        ||| kept is None && too_wide(fits, full) && (persistent_live ==> too_wide(
            fits,
            Some(received),
        ))
    }
}

/// What the status says: a live monitor says so and shows what it receives
/// when expanded; a viewer says what it receives. `fits` tells whether a
/// detail leaves the status inside its room.
pub fn status_text<F: Fn(&Option<String>) -> bool>(
    persistent_live: bool,
    expanded: bool,
    received: &str,
    detail: &Option<String>,
    fits: F,
) -> (status: StatusText)
    requires
        expanded ==> forall|tried: Option<String>|
            some_text(tried) == full_detail(persistent_live, expanded, received@, some_text(*detail))
                ==> #[trigger] call_requires(fits, (&tried,)),
        expanded && persistent_live && too_wide(
            fits,
            full_detail(persistent_live, expanded, received@, some_text(*detail)),
        ) ==> forall|tried: Option<String>|
            some_text(tried) == Some(received@) ==> #[trigger] call_requires(fits, (&tried,)),
    ensures
        status.quality@ == if persistent_live {
            "LIVE"@
        } else {
            received@
        },
        detail_kept(fits, persistent_live, expanded, received@, some_text(*detail), status.detail),
{
    let quality = if persistent_live {
        "LIVE".to_owned()
    } else {
        received.to_owned()
    };
    if !expanded {
        return StatusText { quality, detail: None };
    }
    let full: Option<String> = if persistent_live {
        match detail {
            Some(detail) => {
                let mut text = received.to_owned();
                text.append("  \u{00b7}  ");
                text.append(detail.as_str());
                Some(text)
            },
            None => Some(received.to_owned()),
        }
    } else {
        match detail {
            Some(detail) => Some(detail.as_str().to_owned()),
            None => None,
        }
    };
    let ghost wanted = full_detail(persistent_live, expanded, received@, some_text(*detail));
    proof {
        assert(some_text(full) == wanted);
    }
    if fits(&full) {
        return StatusText { quality, detail: full };
    }
    proof {
        assert(too_wide(fits, wanted));
    }
    if persistent_live {
        let short: Option<String> = Some(received.to_owned());
        if fits(&short) {
            return StatusText { quality, detail: short };
        }
        proof {
            assert(too_wide(fits, some_text(short)));
        }
    }
    StatusText { quality, detail: None }
}

/// What a drawing depends on. Numbers that are not whole come rounded down to
/// the steps in which they are told apart.
#[derive(Debug, PartialEq, Eq, Hash)]
pub struct OverlaySignature {
    pub display: (u32, u32),
    pub client: (u32, u32),
    pub dpi_bits: u32,
    pub visible: bool,
    pub opacity_step: u32,
    pub volume_percent: u32,
    pub muted: bool,
    pub volume_dragging: bool,
    pub fullscreen: bool,
    pub persistent_live: bool,
    pub hot: Option<Control>,
    pub quality: String,
    pub detail: Option<String>,
    /// The breath of the live dot, while it is on screen.
    pub pulse_step: Option<u32>,
}

/// Measures of the window and of the drawing, in the steps in which they are
/// told apart.
#[derive(Debug, Clone, Copy, PartialEq, Eq, Structural)]
pub struct DrawMeasures {
    pub client_width: u32,
    pub client_height: u32,
    pub dpi_bits: u32,
    pub opacity_step: u32,
    pub volume_percent: u32,
    pub pulse_step: u32,
}

/// The breath of the live dot counts while the dot is on screen.
pub open spec fn pulse_that_counts(state: OverlayState, measures: DrawMeasures, now_ns: u64) ->
    Option<u32> {
    if controls_visible(state, now_ns) || state.persistent_live {
        Some(measures.pulse_step)
    } else {
        None
    }
}

impl OverlayState {
    /// Identifies a drawing. Any change here forces a redraw.
    pub fn signature(
        &self,
        stage: Option<ConnectionStage>,
        measures: &DrawMeasures,
        now_ns: u64,
    ) -> (signature: OverlaySignature)
        ensures
            signature.display == shown_size(*self),
            signature.client == (measures.client_width, measures.client_height),
            signature.dpi_bits == measures.dpi_bits,
            signature.visible == controls_visible(*self, now_ns),
            signature.opacity_step == measures.opacity_step,
            signature.volume_percent == measures.volume_percent,
            signature.muted == self.muted,
            signature.volume_dragging == self.volume_dragging,
            signature.fullscreen == self.fullscreen,
            signature.persistent_live == self.persistent_live,
            signature.hot == self.hot,
            signature.quality@ == quality_text(*self, stage),
            some_text(signature.detail) == detail_line(*self, stage),
            signature.pulse_step == pulse_that_counts(*self, *measures, now_ns),
    {
        let visible = self.visible(now_ns);
        OverlaySignature {
            display: self.display_size(),
            client: (measures.client_width, measures.client_height),
            dpi_bits: measures.dpi_bits,
            visible,
            opacity_step: measures.opacity_step,
            volume_percent: measures.volume_percent,
            muted: self.muted,
            volume_dragging: self.volume_dragging,
            fullscreen: self.fullscreen,
            persistent_live: self.persistent_live,
            hot: self.hot,
            quality: self.quality_label(stage),
            detail: self.detail_label(stage),
            pulse_step: if visible || self.persistent_live {
                Some(measures.pulse_step)
            } else {
                None
            },
        }
    }
}

} // verus!
