use orange::pipeline::{
    build_audio_chain, build_capture_chain, build_record_pipeline, check_audio_elements,
    check_elements, configure_encoder, gop_size, recommended_video_bitrate, select_encoder_with,
    set_encoder_gop, supports_d3d11_input, CaptureSettings, Codec, Property, PropertyValue,
};
use orange::pipeline_run::{
    bus_error, combine_pipeline_results, run_pipeline, run_until_closed, start_pipeline_with,
    stop_pipeline_with, timed_pipeline_should_continue, BusMessage, PipelineState, RunEvent,
    RunPhase, TimedRun, WatchStep,
};
use std::cell::RefCell;

fn compatible_factories<'a>(factories: &'a [&'a str]) -> impl Fn(&str) -> bool + 'a {
    move |factory| factories.contains(&factory)
}

#[test]
fn auto_prefers_compatible_media_foundation_h265() {
    let selected =
        select_encoder_with(None, compatible_factories(&["mfh265enc", "nvd3d11h265enc"])).unwrap();

    assert_eq!(selected, (Codec::H265, "mfh265enc"));
}

#[test]
fn auto_keeps_h265_when_nvidia_is_the_compatible_encoder() {
    let selected =
        select_encoder_with(None, compatible_factories(&["nvd3d11h265enc", "mfh264enc"])).unwrap();

    assert_eq!(selected, (Codec::H265, "nvd3d11h265enc"));
}

#[test]
fn auto_falls_back_to_media_foundation_h264() {
    let selected =
        select_encoder_with(None, compatible_factories(&["mfh264enc", "nvd3d11h264enc"])).unwrap();

    assert_eq!(selected, (Codec::H264, "mfh264enc"));
}

#[test]
fn auto_uses_nvidia_h264_as_the_last_zero_copy_option() {
    let selected = select_encoder_with(None, compatible_factories(&["nvd3d11h264enc"])).unwrap();

    assert_eq!(selected, (Codec::H264, "nvd3d11h264enc"));
}

#[test]
fn auto_error_names_every_attempted_zero_copy_encoder() {
    let message = select_encoder_with(None, |_: &str| false).unwrap_err();

    assert!(message.contains("zero-copy"));
    for encoder in ["mfh265enc", "nvd3d11h265enc", "mfh264enc", "nvd3d11h264enc"] {
        assert!(message.contains(encoder), "error omitted {encoder}");
    }
}

#[test]
fn explicit_codecs_keep_their_existing_encoder_without_fallback() {
    for (codec, encoder) in [
        (Codec::H265, "mfh265enc"),
        (Codec::H264, "mfh264enc"),
        (Codec::Av1, "nvd3d11av1enc"),
    ] {
        let selected = select_encoder_with(Some(codec), |_: &str| -> bool {
            panic!("explicit codec must not run auto compatibility selection")
        })
        .unwrap();
        assert_eq!(selected, (codec, encoder));
    }
}

#[test]
fn unknown_codec_error_lists_every_cli_choice() {
    let message = Codec::parse("vp9").unwrap_err();

    assert!(message.contains("expected auto, av1, h265 or h264"));
}

#[test]
fn streaming_encoder_uses_a_bounded_recovery_gop() {
    let settings = CaptureSettings {
        fps: 60,
        ..CaptureSettings::default()
    };

    assert_eq!(gop_size(settings.fps), 120);
}

/// The bitrate steps that pixels and frame rate ask for.
fn steps(width: u32, height: u32, fps: u32) -> u64 {
    let pixels = f64::from(width) * f64::from(height);
    let target =
        18_000.0 * (pixels / (1920.0 * 1080.0)).powf(0.8) * (f64::from(fps) / 60.0);
    (target / 500.0).round() as u64
}

#[test]
fn recommended_bitrate_tracks_output_pixels_and_frame_rate() {
    for (width, height, fps, expected_kbps) in [
        (1280, 720, 60, 9_500),
        (1920, 1080, 30, 9_000),
        (1920, 1080, 60, 18_000),
        (1920, 1080, 120, 36_000),
        (2560, 1440, 60, 28_500),
        (3840, 2160, 60, 54_500),
        (1920, 804, 60, 14_000),
    ] {
        assert_eq!(
            recommended_video_bitrate(steps(width, height, fps)),
            (expected_kbps, false),
            "{width}x{height} at {fps} fps"
        );
    }
}

#[test]
fn recommended_bitrate_reports_the_extreme_quality_cap() {
    assert_eq!(
        recommended_video_bitrate(steps(3840, 2160, 120)),
        (80_000, true)
    );
    assert_eq!(
        recommended_video_bitrate(steps(3840, 2160, 88)),
        (80_000, false)
    );
    assert_eq!(
        recommended_video_bitrate(steps(3840, 2160, 89)),
        (80_000, true)
    );
}

#[test]
fn recommended_bitrate_has_a_floor() {
    assert_eq!(recommended_video_bitrate(0), (500, false));
    assert_eq!(recommended_video_bitrate(1), (500, false));
    assert_eq!(recommended_video_bitrate(u64::MAX), (80_000, true));
}

#[test]
fn recording_gop_tracks_high_refresh_input() {
    let settings = CaptureSettings {
        fps: 240,
        ..CaptureSettings::default()
    };

    assert_eq!(gop_size(settings.fps), 480);
}

fn value_of(properties: &[Property], name: &str) -> Option<PropertyValue> {
    properties
        .iter()
        .find(|property| property.name == name)
        .map(|property| property.value)
}

#[test]
fn streaming_encoder_uses_consistent_low_latency_quality_settings() {
    let encoder = configure_encoder("nvd3d11av1enc", Codec::Av1, 60);

    assert_eq!(value_of(&encoder, "gop-size"), Some(PropertyValue::Int(120)));
    assert_eq!(
        value_of(&encoder, "min-force-key-unit-interval"),
        Some(PropertyValue::Long(1_000_000_000))
    );
    assert_eq!(
        value_of(&encoder, "spatial-aq"),
        Some(PropertyValue::Flag(true))
    );
}

#[test]
fn nvidia_h265_and_h264_encoders_use_nvidia_low_latency_tuning() {
    for (factory, codec) in [
        ("nvd3d11h265enc", Codec::H265),
        ("nvd3d11h264enc", Codec::H264),
    ] {
        let encoder = configure_encoder(factory, codec, 60);

        assert_eq!(value_of(&encoder, "gop-size"), Some(PropertyValue::Int(120)));
        assert_eq!(
            value_of(&encoder, "spatial-aq"),
            Some(PropertyValue::Flag(true)),
            "{factory}"
        );
    }
}

#[test]
fn media_foundation_encoders_use_their_own_low_latency_terms() {
    let encoder = configure_encoder("mfh265enc", Codec::H265, 30);
    assert_eq!(value_of(&encoder, "gop-size"), Some(PropertyValue::Int(60)));
    assert_eq!(
        value_of(&encoder, "low-latency"),
        Some(PropertyValue::Flag(true))
    );
    assert_eq!(
        value_of(&encoder, "quality-vs-speed"),
        Some(PropertyValue::Uint(50))
    );
    assert_eq!(value_of(&encoder, "spatial-aq"), None);
    assert_eq!(
        set_encoder_gop(u32::MAX).value,
        PropertyValue::Int(i32::MAX)
    );
    assert_eq!(gop_size(u32::MAX), i32::MAX);
}

#[test]
fn default_streaming_codec_uses_cross_vendor_h265() {
    let settings = CaptureSettings::default();
    let chain = build_capture_chain(&settings);

    assert_eq!(settings.codec, Codec::H265);
    assert!(chain.contains("mfh265enc"));
    assert!(chain.contains("h265parse"));
    assert!(!chain.contains("low-latency="));
    assert!(!chain.contains("quality-vs-speed="));
}

#[test]
fn capture_chain_uses_selected_encoder_independently_of_codec_identity() {
    let settings = CaptureSettings {
        codec: Codec::H265,
        encoder: "nvd3d11h265enc",
        ..CaptureSettings::default()
    };

    let chain = build_capture_chain(&settings);

    assert!(chain.contains("nvd3d11h265enc"));
    assert!(chain.contains("h265parse"));
    assert!(!chain.contains("mfh265enc"));
}

#[test]
fn capture_chain_names_the_window_rate_scale_and_bitrate() {
    let chain = build_capture_chain(&CaptureSettings {
        hwnd: 77,
        fps: 30,
        bitrate: 9_000,
        scale: Some((1280, 720)),
        ..CaptureSettings::default()
    });
    assert_eq!(
        chain,
        "d3d11screencapturesrc window-handle=77 capture-api=wgc window-capture-mode=client \
         show-cursor=false ! video/x-raw(memory:D3D11Memory),framerate=30/1 \
         ! queue max-size-buffers=3 leaky=downstream ! d3d11convert \
         ! video/x-raw(memory:D3D11Memory),width=1280,height=720 \
         ! mfh265enc name=stream-encoder bitrate=9000 ! h265parse"
    );
}

#[test]
fn audio_payload_is_forced_to_the_advertised_stereo_format() {
    let chain = build_audio_chain(42, None);

    assert!(chain.contains("audio/x-raw,format=S16LE,rate=48000,channels=2,layout=interleaved"));
    assert!(!chain.contains("inband-fec=true"));
    assert!(chain.contains("buffer-time=100000 latency-time=20000"));
}

#[test]
fn sharing_one_window_captures_only_that_window() {
    let chain = build_audio_chain(42, Some(7));
    assert!(chain.contains("loopback-mode=include-process-tree loopback-target-pid=42"));
    assert!(!chain.contains("exclude"));
}

#[test]
fn sharing_the_whole_screen_captures_everything_except_our_own_cues() {
    let chain = build_audio_chain(0, Some(7));
    assert!(chain.contains("loopback-mode=exclude-process-tree loopback-target-pid=7"));

    let unattended = build_audio_chain(0, None);
    assert!(!unattended.contains("loopback-mode"));
    assert!(unattended.contains("wasapi2src loopback=true"));
}

#[test]
fn audio_preflight_covers_every_chain_element() {
    let chain = build_audio_chain(42, None);
    for element in [
        "wasapi2src",
        "audioconvert",
        "audioresample",
        "opusenc",
        "rtpopuspay",
    ] {
        assert!(chain.contains(element), "audio chain omitted {element}");
    }
}

fn names(list: &[&str]) -> Vec<String> {
    list.iter().map(|name| name.to_string()).collect()
}

#[test]
fn missing_elements_are_named_in_order() {
    let installed = names(&["audioconvert", "opusenc", "rtpopuspay"]);
    assert_eq!(
        check_audio_elements(&installed).unwrap_err(),
        "missing audio elements: wasapi2src, audioresample"
    );
    let settings = CaptureSettings::default();
    assert_eq!(
        check_elements(&settings, &names(&["d3d11convert", "h265parse"])).unwrap_err(),
        "missing GStreamer elements: d3d11screencapturesrc, mfh265enc. \
         Is the graphics driver and matching hardware encoder available?"
    );
    let all = names(&[
        "d3d11screencapturesrc",
        "d3d11convert",
        "mfh265enc",
        "h265parse",
    ]);
    assert!(check_elements(&settings, &all).is_ok());
}

#[test]
fn a_recording_keeps_its_location_out_of_the_description() {
    let all = names(&[
        "d3d11screencapturesrc",
        "d3d11convert",
        "mfh265enc",
        "h265parse",
    ]);
    let plan =
        build_record_pipeline(&CaptureSettings::default(), &all, r"C:\new\out.mkv").unwrap();
    assert_eq!(plan.location, r"C:\new\out.mkv");
    assert!(!plan.capture.contains("out.mkv"));
    assert_eq!((plan.muxer, plan.sink), ("matroskamux", "filesink"));
    assert!(build_record_pipeline(&CaptureSettings::default(), &names(&[]), "x").is_err());
}

#[test]
fn codecs_are_named_and_found_by_their_encoding() {
    for codec in [Codec::Av1, Codec::H265, Codec::H264] {
        assert_eq!(Codec::from_rtp_encoding(codec.rtp_encoding()), Some(codec));
    }
    assert_eq!(Codec::from_rtp_encoding("VP8"), None);
    assert_eq!(Codec::parse("H265").unwrap(), Codec::H265);
    assert_eq!(Codec::parse("av1").unwrap(), Codec::Av1);
    assert!(supports_d3d11_input("mfh265enc").contains("mfh265enc"));
}

#[test]
fn timed_pipeline_runs_only_before_deadline_and_while_playback_is_open() {
    assert!(timed_pipeline_should_continue(true, None));
    assert!(timed_pipeline_should_continue(true, Some(true)));
    assert!(!timed_pipeline_should_continue(true, Some(false)));
    assert!(!timed_pipeline_should_continue(false, None));
    assert!(!timed_pipeline_should_continue(false, Some(true)));
}

#[test]
fn window_pipeline_playing_failure_attempts_null_and_combines_errors() {
    let states = RefCell::new(Vec::new());

    let result = start_pipeline_with(&|state: PipelineState| -> Result<(), String> {
        states.borrow_mut().push(state);
        match state {
            PipelineState::Playing => Err("playing failed".to_string()),
            PipelineState::Null => Err("null failed".to_string()),
            _ => unreachable!(),
        }
    });

    assert_eq!(
        states.into_inner(),
        [PipelineState::Playing, PipelineState::Null]
    );
    let message = result.unwrap_err();
    assert!(message.contains("playing failed"));
    assert!(message.contains("null failed"));
}

#[test]
fn a_pipeline_that_plays_is_left_playing() {
    let states = RefCell::new(Vec::new());
    let result = start_pipeline_with(&|state: PipelineState| -> Result<(), String> {
        states.borrow_mut().push(state);
        Ok(())
    });
    assert_eq!(result, Ok(()));
    assert_eq!(states.into_inner(), [PipelineState::Playing]);
}

#[test]
fn encoders_are_probed_in_order_and_none_after_the_first_that_fits() {
    let asked = RefCell::new(Vec::new());
    let selected = select_encoder_with(None, |name: &str| {
        asked.borrow_mut().push(name.to_string());
        name == "mfh264enc"
    });
    assert_eq!(selected, Ok((Codec::H264, "mfh264enc")));
    assert_eq!(
        asked.into_inner(),
        ["mfh265enc", "nvd3d11h265enc", "mfh264enc"]
    );
}

#[test]
fn window_pipeline_later_error_combines_with_null_failure() {
    let states = RefCell::new(Vec::new());

    let result = stop_pipeline_with(
        Err("playback failed".to_string()),
        &|state: PipelineState| -> Result<(), String> {
            states.borrow_mut().push(state);
            Err("null failed".to_string())
        },
    );

    assert_eq!(states.into_inner(), [PipelineState::Null]);
    let message = result.unwrap_err();
    assert!(message.contains("playback failed"));
    assert!(message.contains("null failed"));
}

#[test]
fn timed_pipeline_playing_failure_shuts_down_workers_before_null() {
    let mut order = Vec::new();
    let mut run = TimedRun::new();
    loop {
        let event = match run.phase {
            RunPhase::SetPlaying => {
                order.push("playing");
                RunEvent::StateSet(Err("playing failed".to_string()))
            }
            RunPhase::Shutdown => {
                order.push("shutdown");
                RunEvent::ShutDown(Err("worker cleanup failed".to_string()))
            }
            RunPhase::SetNull => {
                order.push("null");
                RunEvent::StateSet(Err("null failed".to_string()))
            }
            RunPhase::Done => break,
            other => panic!("unexpected phase {other:?}"),
        };
        run = run_pipeline(run, event);
    }

    assert_eq!(order, ["playing", "shutdown", "null"]);
    let message = run.result.unwrap_err();
    assert!(message.contains("playing failed"));
    assert!(message.contains("worker cleanup failed"));
    assert!(message.contains("null failed"));
}

#[test]
fn remaining_peer_review_pipeline_reaches_null_after_cleanup_error() {
    let mut reached_null = false;
    let mut run = TimedRun::new();
    loop {
        let event = match run.phase {
            RunPhase::SetPlaying => RunEvent::StateSet(Ok(())),
            RunPhase::Check => RunEvent::Checked {
                before_deadline: false,
                playback_alive: None,
            },
            RunPhase::Pop => RunEvent::Popped(None),
            RunPhase::Flush => RunEvent::Flushed,
            RunPhase::Shutdown => RunEvent::ShutDown(Err("worker cleanup failed".to_string())),
            RunPhase::SetNull => {
                reached_null = true;
                RunEvent::StateSet(Ok(()))
            }
            RunPhase::Done => break,
        };
        run = run_pipeline(run, event);
    }

    assert!(reached_null);
    assert!(run.result.unwrap_err().contains("worker cleanup failed"));
}

#[test]
fn a_bus_error_ends_a_timed_run_with_its_text() {
    let mut run = TimedRun::new();
    for event in [
        RunEvent::StateSet(Ok(())),
        RunEvent::Checked {
            before_deadline: true,
            playback_alive: None,
        },
        RunEvent::Popped(Some(BusMessage::Error {
            error: "no".to_string(),
            debug: "why".to_string(),
        })),
    ] {
        run = run_pipeline(run, event);
    }
    assert!(run.result.unwrap_err().contains("no (why)"));
    assert_eq!(bus_error("no", "why"), "no (why)");
}

#[test]
fn an_error_counts_only_while_the_window_is_open() {
    let error = || BusMessage::Error {
        error: "no".to_string(),
        debug: "why".to_string(),
    };
    assert!(matches!(
        run_until_closed(&error(), false),
        WatchStep::Stop(Ok(()))
    ));
    let WatchStep::Stop(Err(text)) = run_until_closed(&error(), true) else {
        panic!("expected the error");
    };
    assert_eq!(text, "no (why)");
    assert!(matches!(
        run_until_closed(&BusMessage::Other, true),
        WatchStep::Continue
    ));
    assert!(matches!(
        run_until_closed(&BusMessage::EndOfStream, true),
        WatchStep::Stop(Ok(()))
    ));
}

#[test]
fn both_failures_are_told() {
    assert!(combine_pipeline_results(Ok(()), Ok(())).is_ok());
    assert_eq!(
        combine_pipeline_results(Err("a".to_string()), Err("b".to_string())).unwrap_err(),
        "a; b"
    );
    assert_eq!(
        combine_pipeline_results(Ok(()), Err("b".to_string())).unwrap_err(),
        "b"
    );
}
