//! What the controls on the picture show and do.

use vstd::prelude::*;
use vstd::string::*;

use super::{
    Control, DrawMeasures, OverlaySignature, OverlayState, RenderFacts, SourceCaps,
    SpeakerIcon, StatusText,
};
use crate::connection::{self, ConnectionStage};
use crate::overlay;
use crate::text_ops;

verus! {

/// Controls that were shown stay for one second, and longer only while they are
/// pinned or the slider is dragged; without ever being shown they are hidden.
pub proof fn controls_stay_for_a_second(state: OverlayState, shown: u64, now: u64)
    requires
        shown <= now,
    ensures
        ({
            let free = OverlayState { pinned: false, volume_dragging: false, ..state };
            let seen = OverlayState { shown_at: Some(shown), ..free };
            &&& overlay::controls_visible(seen, now) <==> now - shown < 1_000_000_000
            &&& !overlay::controls_visible(OverlayState { shown_at: None, ..free }, now)
            &&& overlay::controls_visible(OverlayState { pinned: true, ..state }, now)
            &&& overlay::controls_visible(OverlayState { volume_dragging: true, ..state }, now)
        }),
{
}

/// Controls are whole for eight tenths of their second, and then lose as much
/// as time passes.
pub proof fn controls_fade_at_the_end(state: OverlayState, shown: u64, now: u64)
    requires
        shown <= now,
        !state.pinned,
        !state.volume_dragging,
        state.shown_at == Some(shown),
    ensures
        now - shown <= 800_000_000 ==> overlay::remaining_fade(state, now) == 200_000_000,
        800_000_000 <= now - shown <= 1_000_000_000 ==> overlay::remaining_fade(state, now) + (now
            - shown) == 1_000_000_000,
        now - shown >= 1_000_000_000 ==> overlay::remaining_fade(state, now) == 0,
{
}

/// A click on a control does what that control is for, and nothing else but to
/// show the controls again.
pub proof fn click_does_one_thing(state: OverlayState, hit: Option<Control>, now: u64)
    ensures
        ({
            let after = overlay::clicked(state, hit, now);
            &&& after.shown_at == Some(now)
            &&& hit == Some(Control::Close) ==> after.close_requested
            &&& hit != Some(Control::Close) ==> after.close_requested == state.close_requested
            &&& hit == Some(Control::Fullscreen) ==> after.fullscreen_requested
            &&& hit != Some(Control::Fullscreen) ==> after.fullscreen_requested
                == state.fullscreen_requested
            &&& hit == Some(Control::Mute) ==> after.muted == !state.muted
            &&& hit == Some(Control::VolumeTrack) ==> !after.muted && after.volume_dragging
            &&& hit != Some(Control::Mute) && hit != Some(Control::VolumeTrack) ==> after.muted
                == state.muted
            &&& hit != Some(Control::VolumeTrack) ==> after.volume_dragging
                == state.volume_dragging
            &&& after.hot == state.hot && after.video == state.video && after.display
                == state.display
            &&& after.fullscreen == state.fullscreen && after.pinned == state.pinned
            &&& after.viewers == state.viewers && after.host == state.host && after.fps == state.fps
            &&& after.bitrate_mbps == state.bitrate_mbps && after.persistent_live
                == state.persistent_live
        }),
{
}

/// The pointer shows the controls wherever it moves, and what lies under it is
/// what it points at.
pub proof fn pointer_shows_and_points(state: OverlayState, control: Control, now: u64)
    ensures
        overlay::pointed(state, None, now).hot is None,
        overlay::pointed(state, None, now).shown_at == Some(now),
        control !is AudioGap ==> overlay::pointed(state, Some(control), now).hot == Some(control),
        overlay::pointed(state, Some(control), now) == (OverlayState {
            hot: overlay::pointed(state, Some(control), now).hot,
            shown_at: Some(now),
            ..state
        }),
        state.hot == Some(Control::Mute) || state.hot == Some(Control::AudioGap) || state.hot
            == Some(Control::VolumeTrack) ==> overlay::pointed(
            state,
            Some(Control::AudioGap),
            now,
        ).hot == Some(Control::AudioGap),
        state.hot is None || state.hot == Some(Control::Close) || state.hot == Some(
            Control::Fullscreen,
        ) || state.hot == Some(Control::Stats) ==> overlay::pointed(
            state,
            Some(Control::AudioGap),
            now,
        ).hot is None,
{
}

/// A drag begins with a click on the track, makes the sound heard as long as
/// there is a track, and ends where the slider is let go; nothing else changes.
pub proof fn drag_makes_the_sound_heard(state: OverlayState, now: u64, later: u64)
    ensures
        ({
            let begun = overlay::clicked(state, Some(Control::VolumeTrack), now);
            &&& overlay::dragged(begun, true, later) == (OverlayState {
                shown_at: Some(later),
                ..begun
            })
            &&& overlay::dragged(OverlayState { muted: true, ..begun }, true, later).muted == false
            &&& !overlay::let_go(begun).volume_dragging
            &&& overlay::let_go(begun) == (OverlayState { volume_dragging: false, ..begun })
        }),
        overlay::dragged(state, false, now) == state,
        !state.volume_dragging ==> overlay::dragged(state, true, now) == state,
{
}

/// Only what can be clicked counts as hovered: everything but the status.
pub proof fn status_is_not_clickable(state: OverlayState, yes: bool, open: bool)
    requires
        call_ensures(OverlayState::hovered, (&state,), yes),
        call_ensures(OverlayState::audio_open, (&state,), open),
    ensures
        state.hot is None ==> !yes,
        state.hot matches Some(control) ==> (yes <==> control !is Stats),
        state.volume_dragging ==> open,
        !state.volume_dragging ==> (open <==> state.hot == Some(Control::Mute) || state.hot == Some(
            Control::AudioGap,
        ) || state.hot == Some(Control::VolumeTrack)),
{
}

/// Until the first picture the viewer reads what the connection does; after
/// that, the size of the picture.
pub proof fn label_follows_the_connection(state: OverlayState, stage: ConnectionStage)
    ensures
        stage !is Connected ==> overlay::quality_text(state, Some(stage)) == connection::title_text(
            stage,
        ) && overlay::detail_line(state, Some(stage)) == Some(connection::detail_text(stage)),
        overlay::quality_text(state, Some(ConnectionStage::Connected)) == overlay::quality_text(
            state,
            None,
        ),
        overlay::detail_line(state, Some(ConnectionStage::Connected)) == overlay::detail_line(
            state,
            None,
        ),
        state.video.0 == 0 || state.video.1 == 0 ==> overlay::quality_text(state, None)
            == "connecting"@,
{
}

/// The usual heights go by their names, all others by both sides; the rate
/// follows where it is known.
pub proof fn label_tells_size_and_rate(state: OverlayState)
    requires
        state.video.0 > 0,
        state.video.1 > 0,
    ensures
        ({
            let text = overlay::quality_text(state, None);
            let plain = overlay::quality_text(OverlayState { fps: None, ..state }, None);
            let height = state.video.1;
            &&& height == 2160 ==> plain == "4K"@
            &&& height == 1440 ==> plain == "1440p"@
            &&& height == 1080 ==> plain == "1080p"@
            &&& height == 720 ==> plain == "720p"@
            &&& height != 2160 && height != 1440 && height != 1080 && height != 720 ==> plain
                == text_ops::decimal(state.video.0 as nat) + "x"@ + text_ops::decimal(
                height as nat,
            )
            &&& state.fps matches Some((numer, denom)) ==> (numer > 0 && denom > 0 ==> exists|
                fps: nat,
            |
                text == plain + #[trigger] text_ops::decimal(fps) && rounds_to(
                    numer as int,
                    denom as int,
                    fps as int,
                ))
            &&& state.fps matches Some((numer, denom)) ==> (numer <= 0 || denom <= 0 ==> text
                == plain)
        }),
{
    if let Some((numer, denom)) = state.fps {
        if numer > 0 && denom > 0 {
            let n = 2 * numer + denom;
            let d = 2 * denom;
            let fps = n / d;
            vstd::arithmetic::div_mod::lemma_fundamental_div_mod(n, d);
            assert(fps >= 0) by (nonlinear_arith)
                requires
                    n == d * fps + n % d,
                    0 <= n % d < d,
                    n > 0,
                    d > 0,
            ;
            assert(rounds_to(numer as int, denom as int, fps)) by {
                assert(d * fps == 2 * (denom * fps)) by (nonlinear_arith)
                    requires
                        d == 2 * denom,
                ;
            }
            let plain = overlay::quality_text(OverlayState { fps: None, ..state }, None);
            assert(overlay::quality_text(state, None) == plain + text_ops::decimal(fps as nat));
        }
    }
}

/// The whole number that is nearest to a fraction, the larger of two.
pub open spec fn rounds_to(numer: int, denom: int, whole: int) -> bool {
    -denom < 2 * (denom * whole) - 2 * numer <= denom
}

/// Beside the label stand the bitrate, the host and the number of viewers, as
/// far as they are known, in this order; without any of them nothing does.
pub proof fn detail_tells_what_is_known(state: OverlayState)
    ensures
        ({
            let line = overlay::detail_line(state, None);
            &&& state.bitrate_mbps is None && state.host is None && state.viewers is None
                <==> line is None
            &&& state.bitrate_mbps matches Some(mbps) ==> text_ops::begins_with(
                line->0,
                text_ops::decimal(mbps as nat) + " Mbps"@,
            )
            &&& state.host matches Some(host) ==> text_ops::mentions(line->0, host@)
            &&& state.viewers matches Some(n) ==> text_ops::closes_with(
                line->0,
                text_ops::decimal(n as nat) + " watching"@,
            )
        }),
{
    let parts = overlay::detail_parts(state);
    let line = overlay::detail_line(state, None);
    let between = "  \u{00b7}  "@;
    reveal_with_fuel(text_ops::joined, 4);
    if let Some(mbps) = state.bitrate_mbps {
        let first = text_ops::decimal(mbps as nat) + " Mbps"@;
        assert(parts[0] == first);
        assert(line->0.take(first.len() as int) =~= first);
    }
    if let Some(n) = state.viewers {
        let last = text_ops::decimal(n as nat) + " watching"@;
        assert(parts.last() == last);
        assert(line->0.skip(line->0.len() - last.len()) =~= last);
    }
    if let Some(host) = state.host {
        let at: int = match state.bitrate_mbps {
            Some(mbps) => (text_ops::decimal(mbps as nat) + " Mbps"@ + between).len() as int,
            None => 0,
        };
        if state.bitrate_mbps is Some {
            assert(parts[1] == host@);
        } else {
            assert(parts[0] == host@);
        }
        assert(line->0.subrange(at, at + host@.len()) =~= host@);
    }
}

/// A picture is shown at its own width or its own height, and where the ratio
/// fits, the sides stand in exactly that ratio.
pub proof fn one_side_is_kept(video: (u32, u32), par: (i32, i32), ratio: (i32, i32))
    ensures
        overlay::display_size_of(video, par, Some(ratio)) matches Some(size) ==> {
            &&& size.0 == video.0 || size.1 == video.1
            &&& size.0 > 0 && size.1 > 0
            &&& video.1 as int % ratio.1 as int == 0 ==> size.1 == video.1
            &&& video.1 as int % ratio.1 as int != 0 && video.0 as int % ratio.0 as int == 0
                ==> size.0 == video.0
            &&& video.1 as int % ratio.1 as int != 0 && video.0 as int % ratio.0 as int != 0
                ==> size.1 == video.1
            &&& size.1 == video.1 && video.1 as int % ratio.1 as int == 0 ==> size.0 * ratio.1
                == video.1 * ratio.0
            &&& size.0 == video.0 && video.1 as int % ratio.1 as int != 0 && video.0 as int
                % ratio.0 as int == 0 ==> size.1 * ratio.0 == video.0 * ratio.1
        },
        overlay::display_size_of(video, par, None) is None,
        video.0 == 0 || video.1 == 0 || par.0 <= 0 || par.1 <= 0 || ratio.0 <= 0 || ratio.1 <= 0
            ==> overlay::display_size_of(video, par, Some(ratio)) is None,
{
    if let Some(size) = overlay::display_size_of(video, par, Some(ratio)) {
        let w = video.0 as int;
        let h = video.1 as int;
        let num = ratio.0 as int;
        let den = ratio.1 as int;
        if h % den == 0 {
            vstd::arithmetic::div_mod::lemma_fundamental_div_mod(h, den);
            let k = h / den;
            assert(h * num == (k * num) * den) by (nonlinear_arith)
                requires
                    h == den * k,
            ;
            vstd::arithmetic::div_mod::lemma_div_multiples_vanish(k * num, den);
            assert(den * (k * num) == (k * num) * den) by (nonlinear_arith);
        }
        if w % num == 0 {
            vstd::arithmetic::div_mod::lemma_fundamental_div_mod(w, num);
            let k = w / num;
            assert(w * den == (k * den) * num) by (nonlinear_arith)
                requires
                    w == num * k,
            ;
            vstd::arithmetic::div_mod::lemma_div_multiples_vanish(k * den, num);
            assert(num * (k * den) == (k * den) * num) by (nonlinear_arith);
        }
    }
}

/// New caps change the sizes, and the rate where they give one; only the first
/// size of a source shows the controls.
pub proof fn caps_change_sizes_and_rate(state: OverlayState, caps: SourceCaps, now: u64)
    ensures
        ({
            let after = overlay::with_caps(state, caps, now);
            &&& caps.width > 0 ==> after.video.0 == caps.width
            &&& caps.height > 0 ==> after.video.1 == caps.height
            &&& caps.width <= 0 ==> after.video.0 == 0
            &&& caps.height <= 0 ==> after.video.1 == 0
            &&& caps.framerate is None ==> after.fps == state.fps
            &&& caps.framerate matches Some((numer, denom)) ==> (denom != 0 ==> after.fps == Some(
                (numer, denom),
            ))
            &&& caps.framerate matches Some((numer, denom)) ==> (denom == 0 ==> after.fps
                == state.fps)
            &&& state.display matches Some(size) ==> (size.0 > 0 ==> after.shown_at
                == state.shown_at)
            &&& state.display is None && after.display is Some ==> after.shown_at == Some(now)
            &&& after.display is None ==> after.shown_at == state.shown_at
            &&& after.muted == state.muted && after.hot == state.hot && after.host == state.host
                && after.viewers == state.viewers
        }),
{
    let after = overlay::with_caps(state, caps, now);
    if let Some(size) = after.display {
        assert(size.0 > 0);
    }
}

/// Without a picture nothing is drawn and nothing can be hit; a drawing that
/// still holds, and hidden controls, leave all as it was.
pub proof fn drawing_follows_the_picture(
    facts: RenderFacts,
    cache_holds: bool,
    before: Seq<Control>,
)
    ensures
        ({
            let outcome = overlay::outcome_of(facts, cache_holds);
            let hits = overlay::hits_after(outcome, before);
            &&& !facts.has_picture ==> hits.len() == 0
            &&& facts.has_picture && cache_holds ==> hits == before
            &&& facts.has_picture && !facts.visible && !facts.persistent_live ==> hits == before
            &&& facts.has_picture && !cache_holds && (facts.visible || facts.persistent_live)
                <==> outcome is Draw
        }),
{
}

/// Of a drawing with visible controls the status is tried first; the slider
/// can be hit where it is open and fits, its corridor where that has a width,
/// and fullscreen unless an open slider lies over it.
pub proof fn visible_controls_are_tried_in_order(facts: RenderFacts, before: Seq<Control>)
    requires
        facts.has_picture,
        facts.visible,
    ensures
        ({
            let hits = overlay::hits_after(overlay::outcome_of(facts, false), before);
            &&& hits.len() >= 3
            &&& hits[0] == Control::Stats
            &&& hits[1] == Control::Close
            &&& hits[2] == Control::Mute
            &&& hits.contains(Control::VolumeTrack) <==> facts.audio_open && facts.slider_fits
            &&& hits.contains(Control::AudioGap) <==> facts.gap_has_width
            &&& hits.contains(Control::Fullscreen) <==> !(facts.audio_open
                && facts.slider_covers_fullscreen)
            &&& facts.audio_open && facts.slider_fits ==> hits[3] == Control::VolumeTrack
        }),
{
    let hits = overlay::hits_after(overlay::outcome_of(facts, false), before);
    let slider = facts.audio_open && facts.slider_fits;
    let gap = facts.gap_has_width;
    let full = !(facts.audio_open && facts.slider_covers_fullscreen);
    let a: int = if slider {
        1
    } else {
        0
    };
    let b: int = if gap {
        1
    } else {
        0
    };
    let c: int = if full {
        1
    } else {
        0
    };
    assert(hits.len() == 3 + a + b + c);
    if slider {
        assert(hits[3] == Control::VolumeTrack);
    }
    if gap {
        assert(hits[3 + a] == Control::AudioGap);
    }
    if full {
        assert(hits[3 + a + b] == Control::Fullscreen);
    }
}

/// The status of a live monitor says so; that of a viewer says what is
/// received. Where all of the detail fits it is shown, where nothing fits none
/// is, and a status that is not expanded has none.
pub proof fn status_shows_what_fits<F: Fn(&Option<String>) -> bool>(
    live: bool,
    expanded: bool,
    received: &str,
    detail: Option<String>,
    fits: F,
    status: StatusText,
)
    requires
        call_ensures(
            overlay::status_text::<F>,
            (live, expanded, received, &detail, fits),
            status,
        ),
    ensures
        live ==> status.quality@ == "LIVE"@,
        !live ==> status.quality@ == received@,
        !expanded ==> status.detail is None,
        expanded && (forall|tried: Option<String>, answer: bool| #[trigger]
            call_ensures(fits, (&tried,), answer) ==> answer) ==> {
            &&& !live && detail is None ==> status.detail is None
            &&& !live && detail is Some ==> status.detail is Some && status.detail->0@ == detail->0@
            &&& live ==> status.detail is Some && text_ops::begins_with(
                status.detail->0@,
                received@,
            )
            &&& live && detail is Some ==> text_ops::closes_with(status.detail->0@, detail->0@)
            &&& live && detail is None ==> status.detail->0@ == received@
        },
        (forall|tried: Option<String>, answer: bool| #[trigger]
            call_ensures(fits, (&tried,), answer) ==> !answer) ==> status.detail is None,
{
    if live && expanded && status.detail is Some {
        let text = status.detail->0@;
        if text_ops::begins_with(text, received@) {
        } else {
            assert(text.take(received@.len() as int) =~= received@);
        }
        if detail is Some && text == received@ + "  \u{00b7}  "@ + detail->0@ {
            assert(text.skip(text.len() - detail->0@.len()) =~= detail->0@);
        }
    }
}

/// Whatever a viewer would see differently makes another drawing.
pub proof fn visible_changes_are_drawn(
    a: OverlayState,
    b: OverlayState,
    stage_a: Option<ConnectionStage>,
    stage_b: Option<ConnectionStage>,
    measures_a: DrawMeasures,
    measures_b: DrawMeasures,
    now_a: u64,
    now_b: u64,
    of_a: OverlaySignature,
    of_b: OverlaySignature,
)
    requires
        call_ensures(OverlayState::signature, (&a, stage_a, &measures_a, now_a), of_a),
        call_ensures(OverlayState::signature, (&b, stage_b, &measures_b, now_b), of_b),
        of_a == of_b,
    ensures
        a.muted == b.muted,
        a.hot == b.hot,
        a.fullscreen == b.fullscreen,
        a.persistent_live == b.persistent_live,
        a.volume_dragging == b.volume_dragging,
        overlay::controls_visible(a, now_a) == overlay::controls_visible(b, now_b),
        overlay::quality_text(a, stage_a) == overlay::quality_text(b, stage_b),
        overlay::detail_line(a, stage_a) == overlay::detail_line(b, stage_b),
        overlay::shown_size(a) == overlay::shown_size(b),
        measures_a.client_width == measures_b.client_width,
        measures_a.client_height == measures_b.client_height,
        measures_a.dpi_bits == measures_b.dpi_bits,
        measures_a.opacity_step == measures_b.opacity_step,
        measures_a.volume_percent == measures_b.volume_percent,
        a.persistent_live || overlay::controls_visible(a, now_a) ==> measures_a.pulse_step
            == measures_b.pulse_step,
{
}

/// The speaker shows what is heard: a muted one is struck through, whatever its
/// level, and a level of zero looks different from that.
pub proof fn speaker_shows_what_is_heard(muted: bool, silent: bool, quiet: bool, icon: SpeakerIcon)
    requires
        call_ensures(overlay::speaker_icon, (muted, silent, quiet), icon),
    ensures
        icon is Slash <==> muted,
        icon is Silent <==> !muted && silent,
        icon is Low <==> !muted && !silent && quiet,
        icon is High <==> !muted && !silent && !quiet,
{
}

/// A new overlay knows no size, is not shown and asks for nothing; it is muted
/// and pinned as it was told.
pub proof fn new_overlay_is_hidden(muted: bool, live: bool, state: OverlayState, now: u64)
    requires
        call_ensures(OverlayState::new, (muted, live), state),
    ensures
        overlay::shown_size(state) == (0u32, 0u32),
        state.video == (0u32, 0u32),
        state.shown_at is None,
        state.muted == muted,
        state.persistent_live == live,
        !state.volume_dragging && !state.fullscreen,
        !state.close_requested && !state.fullscreen_requested,
        state.viewers is None && state.host is None && state.fps is None && state.hot is None,
{
}

/// The window follows a size exactly where there is one and it is new.
pub proof fn window_follows_new_sizes(before: OverlayState, after: OverlayState)
    ensures
        overlay::size_to_follow(before, after) matches Some(size) ==> (size
            == overlay::shown_size(after) && (size.0 != 0 || size.1 != 0) && size
            != overlay::shown_size(before)),
        overlay::size_to_follow(before, after) is None <==> (overlay::shown_size(after).0 == 0
            && overlay::shown_size(after).1 == 0) || overlay::shown_size(after)
            == overlay::shown_size(before),
{
}

} // verus!
