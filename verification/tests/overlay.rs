use orange::connection::{ConnectionEvent, ConnectionTracker};
use orange::overlay::{
    attach, display_size, render, speaker_icon, status_expanded, status_text, Control,
    DrawMeasures, OverlayState, RenderFacts, RenderOutcome, SourceCaps, SpeakerIcon, FADE_NS,
    HIDE_AFTER_NS,
};
use orange::text::{available, font, font_files, font_path, load, pixel_index, Fonts, Weight};

fn gcd(a: i64, b: i64) -> i64 {
    if b == 0 {
        a
    } else {
        gcd(b, a % b)
    }
}

/// Displayed width to height in lowest terms.
fn ratio(video: (u32, u32), par: (i32, i32)) -> Option<(i32, i32)> {
    let num = i64::from(video.0) * i64::from(par.0);
    let den = i64::from(video.1) * i64::from(par.1);
    if den == 0 {
        return None;
    }
    let common = gcd(num, den);
    Some(((num / common) as i32, (den / common) as i32))
}

#[test]
fn display_geometry_matches_d3d11_for_wide_tall_and_fractional_pixels() {
    for (video, par, expected) in [
        ((1920, 1080), (1, 1), Some((1920, 1080))),
        ((1920, 1080), (4, 3), Some((2560, 1080))),
        ((1920, 1080), (3, 4), Some((1440, 1080))),
        ((720, 577), (577, 540), Some((720, 540))),
        ((721, 577), (16, 15), Some((769, 577))),
        ((0, 1080), (1, 1), None),
        ((1920, 0), (1, 1), None),
        ((1920, 1080), (0, 1), None),
        ((1920, 1080), (-1, 1), None),
    ] {
        assert_eq!(
            display_size(video, par, ratio(video, par)),
            expected,
            "{video:?}, {par:?}"
        );
    }
}

#[test]
fn a_size_that_does_not_fit_is_none() {
    assert_eq!(display_size((1, u32::MAX), (1, 1), Some((1, 1))), None);
    assert_eq!(display_size((10, 10), (1, 1), None), None);
    assert_eq!(display_size((3, 1), (1, 1), Some((2, 5))), None);
}

fn caps(par: (i32, i32)) -> SourceCaps {
    SourceCaps {
        width: 1920,
        height: 1080,
        framerate: Some((60, 1)),
        pixel_aspect_ratio: Some(par),
        display_ratio: ratio((1920, 1080), par),
    }
}

#[test]
fn pixel_aspect_changes_keep_the_quality_label() {
    let mut state = OverlayState::new(false, false);
    for (par, display) in [
        ((1, 1), (1920, 1080)),
        ((4, 3), (2560, 1080)),
        ((1, 1), (1920, 1080)),
    ] {
        assert_eq!(attach(&mut state, &caps(par), 5), Some(display));
        assert_eq!(state.display_size(), display);
        assert_eq!(state.quality_label(None), "1080p60");
    }
    assert_eq!(attach(&mut state, &caps((1, 1)), 6), None);
}

#[test]
fn the_first_known_size_shows_the_controls_once() {
    let mut state = OverlayState::new(false, false);
    assert!(!state.visible(0));
    attach(&mut state, &caps((1, 1)), 10);
    assert!(state.visible(10));
    assert!(!state.visible(10 + HIDE_AFTER_NS));
    attach(&mut state, &caps((4, 3)), 10 + HIDE_AFTER_NS);
    assert!(!state.visible(10 + HIDE_AFTER_NS));
    let empty = SourceCaps {
        width: -4,
        framerate: None,
        ..caps((1, 1))
    };
    assert_eq!(attach(&mut state, &empty, 0), None);
    assert_eq!(state.video, (0, 1080));
    assert_eq!(state.fps, Some((60, 1)));
}

fn facts(visible: bool, persistent_live: bool) -> RenderFacts {
    RenderFacts {
        has_picture: true,
        visible,
        persistent_live,
        audio_open: false,
        slider_fits: true,
        gap_has_width: true,
        slider_covers_fullscreen: false,
    }
}

#[test]
fn faded_controls_keep_their_hit_geometry() {
    let mut hits = Vec::new();
    render(&mut hits, &facts(true, false), false);
    assert!(!hits.is_empty());
    let before = hits.clone();

    assert_eq!(
        render(&mut hits, &facts(false, false), false),
        RenderOutcome::Hidden
    );

    assert!(!hits.is_empty());
    assert_eq!(hits, before);
}

#[test]
fn live_status_expands_on_hover() {
    assert!(status_expanded(true));
    assert!(!status_expanded(false));
}

#[test]
fn live_monitor_keeps_all_control_hits_while_faded() {
    let mut hits = Vec::new();
    render(&mut hits, &facts(true, true), false);
    assert!(hits.contains(&Control::Close));
    assert!(hits.contains(&Control::Mute));
    assert!(hits.contains(&Control::Fullscreen));

    render(&mut hits, &facts(false, true), false);

    assert!(hits.contains(&Control::Close));
    assert!(hits.contains(&Control::Mute));
    assert!(hits.contains(&Control::Fullscreen));
    assert_eq!(
        hits.iter().filter(|hit| **hit == Control::Stats).count(),
        1
    );
}

#[test]
fn a_frame_without_a_picture_has_nothing_to_hit() {
    let mut hits = vec![Control::Close];
    let empty = RenderFacts {
        has_picture: false,
        ..facts(true, true)
    };
    assert_eq!(render(&mut hits, &empty, true), RenderOutcome::Empty);
    assert!(hits.is_empty());
}

#[test]
fn an_open_slider_may_cover_the_fullscreen_button() {
    let mut hits = Vec::new();
    let open = RenderFacts {
        audio_open: true,
        slider_covers_fullscreen: true,
        ..facts(true, false)
    };
    render(&mut hits, &open, false);
    assert_eq!(
        hits,
        [
            Control::Stats,
            Control::Close,
            Control::Mute,
            Control::VolumeTrack,
            Control::AudioGap,
        ]
    );
    assert_eq!(render(&mut hits, &open, true), RenderOutcome::Cached);
    assert_eq!(hits.len(), 5);
}

#[test]
fn native_surface_and_video_overlay_derive_connection_copy_from_one_tracker() {
    let mut connection = ConnectionTracker::default();
    let mut state = OverlayState::new(false, false);
    state.video = (1920, 1080);
    state.fps = Some((60, 1));
    assert_eq!(state.quality_label(connection.snapshot()), "1080p60");

    connection.begin(0);
    connection.advance(ConnectionEvent::IceChecking, 1);
    assert_eq!(
        state.quality_label(connection.snapshot()),
        "Finding a direct route"
    );
    assert_eq!(
        state.detail_label(connection.snapshot()).as_deref(),
        Some("ICE is checking available network paths")
    );

    connection.advance(ConnectionEvent::FirstVideoFrame, 2);
    assert_eq!(state.quality_label(connection.snapshot()), "1080p60");
}

#[test]
fn sizes_and_rates_are_named() {
    let mut state = OverlayState::new(false, false);
    assert_eq!(state.quality_label(None), "connecting");
    for (video, fps, label) in [
        ((3840, 2160), Some((60_000, 1_001)), "4K60"),
        ((2560, 1440), Some((119, 2)), "1440p60"),
        ((1280, 720), Some((0, 1)), "720p"),
        ((1406, 1541), None, "1406x1541"),
        ((1406, 1541), Some((144, 1)), "1406x1541144"),
    ] {
        state.video = video;
        state.fps = fps;
        assert_eq!(state.quality_label(None), label);
    }
}

#[test]
fn details_are_joined_with_dots() {
    let mut state = OverlayState::new(false, false);
    assert_eq!(state.detail_label(None), None);
    state.bitrate_mbps = Some(18);
    state.host = Some("Ada".to_string());
    state.viewers = Some(3);
    assert_eq!(
        state.detail_label(None).as_deref(),
        Some("18 Mbps  \u{00b7}  Ada  \u{00b7}  3 watching")
    );
}

#[test]
fn the_corridor_opens_the_slider_from_the_speaker_only() {
    let mut state = OverlayState::new(false, false);
    assert!(!state.on_mouse_move(Some(Control::AudioGap), 1));
    assert!(!state.audio_open());
    assert!(state.on_mouse_move(Some(Control::Mute), 2));
    assert!(state.audio_open() && state.hovered());
    assert!(state.on_mouse_move(Some(Control::AudioGap), 3));
    assert!(state.audio_open());
    assert!(state.on_mouse_move(Some(Control::VolumeTrack), 4));
    assert!(state.on_mouse_move(Some(Control::Stats), 5));
    assert!(!state.hovered());
    assert!(!state.on_mouse_move(Some(Control::Stats), 6));
}

#[test]
fn clicks_press_their_control() {
    let mut state = OverlayState::new(true, false);
    assert!(!state.on_click(Some(Control::Mute), 1));
    assert!(!state.muted);
    assert!(!state.on_click(None, 2));
    state.on_click(Some(Control::Close), 3);
    state.on_click(Some(Control::Fullscreen), 4);
    assert!(state.close_requested && state.fullscreen_requested);
    state.muted = true;
    assert!(state.on_click(Some(Control::VolumeTrack), 5));
    assert!(!state.muted && state.volume_dragging());
    assert!(!state.drag_volume(true, false, 6));
    assert!(state.drag_volume(true, true, 7));
    assert!(!state.drag_volume(false, true, 8));
    assert!(state.visible(7 + 5 * HIDE_AFTER_NS));
    assert!(state.end_volume_drag());
    assert!(!state.end_volume_drag());
    assert!(!state.drag_volume(true, true, 9));
}

#[test]
fn controls_dissolve_at_the_end_of_their_time() {
    let mut state = OverlayState::new(false, false);
    state.wake(0);
    assert_eq!(state.opacity(0), FADE_NS);
    assert_eq!(state.opacity(HIDE_AFTER_NS - FADE_NS), FADE_NS);
    assert_eq!(state.opacity(HIDE_AFTER_NS - FADE_NS / 2), FADE_NS / 2);
    assert_eq!(state.opacity(HIDE_AFTER_NS), 0);
    state.pinned = true;
    assert_eq!(state.opacity(HIDE_AFTER_NS), FADE_NS);
}

#[test]
fn the_speaker_shows_what_is_heard() {
    assert_eq!(speaker_icon(true, false, false), SpeakerIcon::Slash);
    assert_eq!(speaker_icon(false, true, true), SpeakerIcon::Silent);
    assert_eq!(speaker_icon(false, false, true), SpeakerIcon::Low);
    assert_eq!(speaker_icon(false, false, false), SpeakerIcon::High);
}

#[test]
fn the_status_keeps_the_detail_that_fits() {
    let detail = Some("18 Mbps".to_string());
    let within = |limit: usize| {
        move |detail: &Option<String>| detail.as_ref().map_or(0, |text| text.chars().count()) <= limit
    };
    let said = status_text(true, true, "1080p60", &detail, within(40));
    assert_eq!(said.quality, "LIVE");
    assert_eq!(
        said.detail.as_deref(),
        Some("1080p60  \u{00b7}  18 Mbps")
    );
    let said = status_text(true, true, "1080p60", &detail, within(10));
    assert_eq!(said.detail.as_deref(), Some("1080p60"));
    let said = status_text(true, true, "1080p60", &detail, within(3));
    assert_eq!(said.detail, None);
    let said = status_text(false, true, "1080p60", &detail, within(40));
    assert_eq!(said.quality, "1080p60");
    assert_eq!(said.detail.as_deref(), Some("18 Mbps"));
    let said = status_text(false, false, "1080p60", &detail, within(40));
    assert_eq!(said.detail, None);
}

#[test]
fn the_breath_of_the_dot_counts_only_while_it_shows() {
    let measures = |pulse_step: u32| DrawMeasures {
        client_width: 1280,
        client_height: 720,
        dpi_bits: 1.0f32.to_bits(),
        opacity_step: 0,
        volume_percent: 30,
        pulse_step,
    };
    let hidden = OverlayState::new(false, false);
    assert_eq!(
        hidden.signature(None, &measures(1), 0),
        hidden.signature(None, &measures(2), 0)
    );
    let live = OverlayState::new(false, true);
    assert_ne!(
        live.signature(None, &measures(1), 0),
        live.signature(None, &measures(2), 0)
    );
}

#[test]
fn fonts_come_from_the_system() {
    assert_eq!(
        font_files(Weight::Regular),
        ["segoeui.ttf", "arial.ttf", "tahoma.ttf"]
    );
    assert_eq!(
        font_path(&None, "arial.ttf"),
        r"C:\Windows\Fonts\arial.ttf"
    );
    assert_eq!(
        font_path(&Some(r"D:\Win".to_string()), "arial.ttf"),
        r"D:\Win\Fonts\arial.ttf"
    );
    assert_eq!(load(&vec![false, true, true]), Some(1));
    assert_eq!(load(&vec![false, false]), None);
    let fonts = Fonts {
        regular: None,
        semibold: Some(0),
    };
    assert!(!available(&fonts));
    assert_eq!(font(&fonts, Weight::Semibold), Some(0));
    assert_eq!(pixel_index(10, 10, 3, 2), Some(92));
    assert_eq!(pixel_index(10, 10, 10, 2), None);
    assert_eq!(pixel_index(10, 10, -1, 2), None);
}
