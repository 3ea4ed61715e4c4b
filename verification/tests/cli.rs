use orange::auth::{
    http_base, login, login_in_time, login_poll_url, login_start_url, LoginStep, PollBody,
    LOGIN_TIMEOUT_NS,
};
use orange::cli::{
    automatic_bitrate_line, capture_fps, cmd_list, fallback_line, format_error_chain, parse_scale,
    opening_line, preview_description, preview_plan, quality_status_line, quality_warning_line, report_file,
    watch_target, watch_window_title, AutomaticBitrate, CaptureCommand, PlaybackKind,
    PlaybackProfile, PreviewError, QualityArgs, ScaleError, SettingsError, WatchTarget, WindowFacts,
};
use orange::json::{
    flag_member, number_member, object, quoted, quoted_optional, raw_member, signed_member,
    text_member,
};
use orange::pipeline::{CaptureSettings, Codec, MAX_FPS};
use orange::targets::{
    capture_dimensions, is_app_window, list_windows, pid_for_hwnd, process_name, request_redraw,
    target_size, CaptureTarget, Rect,
};

#[test]
fn a_high_refresh_display_is_capped_rather_than_followed() {
    assert_eq!(capture_fps(Some(180)).unwrap(), MAX_FPS);
    assert_eq!(capture_fps(Some(240)).unwrap(), MAX_FPS);
    assert_eq!(capture_fps(Some(120)).unwrap(), 120);
    assert_eq!(capture_fps(Some(60)).unwrap(), 60);
    assert_eq!(capture_fps(None).unwrap(), 60);
    assert!(capture_fps(Some(0)).is_err());
}

#[test]
fn viewer_window_title_never_contains_the_room_code() {
    let code = "SENSITIVE-ROOM-CODE";
    let title = watch_window_title();

    assert_eq!(title, "orange - viewer");
    assert!(!title.contains(code));
}

#[test]
fn formatted_error_includes_outer_and_inner_causes_on_one_line() {
    let error = anyhow::Error::msg("inner cause").context("outer context");

    let message = format_error_chain(&format!("{error:#}"));

    assert!(message.starts_with("Error: outer context"));
    assert!(message.contains("inner cause"));
    assert_eq!(message.lines().count(), 1);
}

#[test]
fn line_breaks_of_an_error_become_spaces() {
    assert_eq!(format_error_chain("a\r\nb"), "Error: a  b");
}

#[test]
fn a_scale_is_width_x_height() {
    assert_eq!(parse_scale("1280x720"), Ok((1280, 720)));
    assert_eq!(parse_scale("1280"), Err(ScaleError::NoSeparator));
    assert_eq!(parse_scale("ax720"), Err(ScaleError::BadWidth));
    assert_eq!(parse_scale("1280xb"), Err(ScaleError::BadHeight));
}

fn args(codec: &str) -> QualityArgs {
    QualityArgs {
        no_audio: false,
        codec: codec.to_string(),
        bitrate: None,
        fps: None,
        scale: None,
    }
}

fn window() -> WindowFacts {
    WindowFacts {
        hwnd: 7,
        refresh_rate: Some(144),
        dimensions: Some((1920, 1080)),
        pid: Some(99),
    }
}

#[test]
fn automatic_settings_follow_the_window_and_its_display() {
    let plan = args("auto")
        .settings(
            window(),
            |name: &str| name == "mfh265enc",
            |_: u32, _: u32, fps: u32| u64::from(fps) * 36 / 60,
        )
        .unwrap();
    assert_eq!(plan.settings.hwnd, 7);
    assert_eq!(plan.settings.codec, Codec::H265);
    assert_eq!(plan.settings.encoder, "mfh265enc");
    assert_eq!(plan.settings.fps, 120);
    assert_eq!(plan.settings.audio_pid, Some(99));
    assert_eq!(plan.settings.bitrate, 36_000);
    assert!(!plan.fallback);
    let automatic = plan.automatic.unwrap();
    assert_eq!((automatic.width, automatic.height), (1920, 1080));
}

#[test]
fn explicit_settings_win() {
    let explicit = QualityArgs {
        no_audio: true,
        bitrate: Some(100_001),
        fps: Some(30),
        scale: Some("1280x720".to_string()),
        ..args("h264")
    };
    let plan = explicit
        .settings(
            window(),
            |_: &str| -> bool { panic!("an explicit codec is not probed") },
            |width: u32, height: u32, fps: u32| {
                assert_eq!((width, height, fps), (1280, 720, 30));
                1
            },
        )
        .unwrap();
    assert_eq!(plan.settings.codec, Codec::H264);
    assert_eq!(plan.settings.bitrate, 100_001);
    assert_eq!(plan.settings.fps, 30);
    assert_eq!(plan.settings.scale, Some((1280, 720)));
    assert_eq!(plan.settings.audio_pid, None);
    assert!(plan.automatic.is_none());
}

#[test]
fn bad_settings_are_refused_for_their_reason() {
    let settled = |args: QualityArgs| {
        args.settings(window(), |_: &str| false, |_: u32, _: u32, _: u32| 1)
            .unwrap_err()
    };
    assert!(matches!(
        settled(QualityArgs {
            fps: Some(0),
            ..args("h265")
        }),
        SettingsError::ZeroFps(_)
    ));
    assert!(matches!(
        settled(args("vp9")),
        SettingsError::UnknownCodec(_)
    ));
    assert!(matches!(settled(args("auto")), SettingsError::NoEncoder(_)));
    assert!(matches!(
        settled(QualityArgs {
            scale: Some("big".to_string()),
            ..args("h265")
        }),
        SettingsError::Scale(ScaleError::NoSeparator)
    ));
}

#[test]
fn a_fallback_encoder_is_announced() {
    let plan = args("auto")
        .settings(
            window(),
            |name: &str| name == "mfh264enc",
            |_: u32, _: u32, _: u32| 10,
        )
        .unwrap();
    assert!(plan.fallback);
    let line = fallback_line(plan.settings.codec, plan.settings.encoder);
    assert!(line.contains("mfh264enc"));
}

#[test]
fn quality_lines_tell_the_numbers() {
    let auto = AutomaticBitrate {
        kbps: 80_000,
        width: 3840,
        height: 2160,
        fps: 120,
        constrained: true,
    };
    assert!(automatic_bitrate_line(&auto).contains("80000 kbps for 3840x2160 at 120"));
    assert!(quality_warning_line(&auto).contains("capped at 80000 kbps; 3840x2160 at 120 fps"));
    let status = quality_status_line(&auto);
    let start = status.find('{').unwrap();
    assert!(serde_json::from_str::<serde_json::Value>(&status[start..]).is_ok());
}

#[test]
fn an_empty_recording_is_an_error() {
    assert!(report_file("a.mkv", 1).is_ok());
    assert!(report_file("a.mkv", 0).unwrap_err().contains("a.mkv"));
}

#[test]
fn preview_shows_a_pattern_or_an_image() {
    let pattern = preview_description(1280, 720, 60, "smpte", None);
    assert!(pattern.contains("smpte"));
    let image = preview_description(1280, 720, 60, "smpte", Some(r"C:\a.png"));
    assert!(!image.contains("smpte"));
}

#[test]
fn relay_addresses_become_http_origins() {
    assert_eq!(http_base("wss://relay.example/ws"), "https://relay.example");
    assert_eq!(http_base("ws://localhost:8080/ws/"), "http://localhost:8080");
    assert_eq!(http_base("https://relay.example"), "https://relay.example");
    assert_eq!(http_base("https://relay.example/ws/"), "https://relay.example");
    assert_eq!(http_base("localhost:8080/ws"), "localhost:8080");
    let base = http_base("wss://relay.example/ws");
    assert!(login_start_url(&base).starts_with("https://relay.example/"));
    assert!(login_poll_url(&base).starts_with("https://relay.example/"));
}

#[test]
fn only_the_path_of_a_relay_is_dropped() {
    assert_eq!(http_base("ws://ws/ws"), "http://ws");
    assert_eq!(http_base("ws://ws"), "http://ws");
    assert_eq!(http_base("wss://ws//"), "https://ws");
    assert_eq!(http_base("https://ws"), "https://ws");
    assert_eq!(http_base("wss://relay/orange/ws"), "https://relay/orange");
    assert_eq!(http_base("ws://relay/ws/ws"), "http://relay");
}

#[test]
fn a_login_goes_on_until_the_browser_is_done() {
    assert!(matches!(login(None), LoginStep::Continue));
    assert!(matches!(login(Some(PollBody::Waiting)), LoginStep::Continue));
    let LoginStep::SignedIn(session) = login(Some(PollBody::Ready {
        session: "token".to_string(),
        id: "1".to_string(),
        name: "Ada".to_string(),
        avatar_url: None,
    })) else {
        panic!("expected a session");
    };
    assert_eq!((session.token.as_str(), session.name.as_str()), ("token", "Ada"));
    let LoginStep::Fail(message) = login(Some(PollBody::Failed {
        message: "denied".to_string(),
    })) else {
        panic!("expected a failure");
    };
    assert_eq!(message, "denied");
    let LoginStep::Fail(message) = login(Some(PollBody::Unknown)) else {
        panic!("expected a failure");
    };
    assert_eq!(message, "login attempt expired");
    assert!(login_in_time(LOGIN_TIMEOUT_NS - 1).is_ok());
    assert!(login_in_time(LOGIN_TIMEOUT_NS + 1).is_err());
}

fn target(hwnd: isize, title: &str, width: i32, height: i32) -> CaptureTarget {
    CaptureTarget {
        hwnd,
        pid: 1,
        title: title.to_string(),
        process: "game.exe".to_string(),
        width,
        height,
    }
}

#[test]
fn windows_are_offered_biggest_first() {
    let offered = list_windows(vec![
        target(1, "small", 640, 480),
        target(2, "tiny", 100, 100),
        target(3, "", 1920, 1080),
        target(4, "game", 1920, 1080),
        target(5, "other", 1920, 1080),
    ]);
    let order: Vec<isize> = offered.iter().map(|target| target.hwnd).collect();
    assert_eq!(order, [4, 5, 1]);
}

#[test]
fn shell_and_hidden_windows_are_not_offered() {
    assert!(is_app_window(true, false, true, false, "UnityWndClass"));
    assert!(!is_app_window(false, false, true, false, "UnityWndClass"));
    assert!(!is_app_window(true, true, true, false, "UnityWndClass"));
    assert!(!is_app_window(true, false, false, false, "UnityWndClass"));
    assert!(!is_app_window(true, false, true, true, "UnityWndClass"));
    assert!(!is_app_window(true, false, true, false, "Progman"));
}

#[test]
fn capture_sizes_are_positive() {
    let frame = Rect {
        left: 10,
        top: 10,
        right: 110,
        bottom: 60,
    };
    assert_eq!(target_size(frame, None), (100, 50));
    let client = Rect {
        left: 0,
        top: 0,
        right: 90,
        bottom: 40,
    };
    assert_eq!(target_size(frame, Some(client)), (90, 40));
    assert_eq!(capture_dimensions(1920, 1080), Some((1920, 1080)));
    assert_eq!(capture_dimensions(0, 1080), None);
    assert_eq!(capture_dimensions(-1, 1080), None);
    assert_eq!(pid_for_hwnd(0), None);
    assert_eq!(pid_for_hwnd(4), Some(4));
    assert!(request_redraw(7));
    assert!(!request_redraw(0));
}

#[test]
fn a_process_is_named_by_its_file() {
    assert_eq!(process_name(r"C:\Games\game.exe"), "game.exe");
    assert_eq!(process_name("game.exe"), "game.exe");
}

#[test]
fn a_listed_window_is_one_row() {
    let lines = cmd_list(&vec![target(42, "A title", 1920, 1080)], false);
    assert_eq!(
        lines,
        [
            format!("{:<12} {:>11}  {:<24} TITLE", "HWND", "SIZE", "PROCESS"),
            format!("{:<12} {:>11}  {:<24} {}", 42, "1920x1080", "game.exe", "A title"),
        ]
    );
    let long = "x".repeat(60);
    let lines = cmd_list(&vec![target(42, &long, 1, 1)], false);
    assert!(lines[1].ends_with(&format!(" {}", "x".repeat(48))));
    assert_eq!(cmd_list(&vec![], false), ["No capturable windows found."]);
}

#[test]
fn the_list_for_other_programs_is_one_line_of_json() {
    assert_eq!(cmd_list(&vec![], true), ["[]"]);
    let windows = vec![target(-42, "a \"quoted\"\nname", 1920, 1080), target(7, "b", 640, 480)];
    let lines = cmd_list(&windows, true);
    assert_eq!(lines.len(), 1);
    let value: serde_json::Value = serde_json::from_str(&lines[0]).unwrap();
    assert_eq!(value.as_array().unwrap().len(), 2);
    assert_eq!(value[0]["hwnd"], -42);
    assert_eq!(value[0]["title"], "a \"quoted\"\nname");
    assert_eq!(value[0]["width"], 1920);
    assert_eq!(value[1]["process"], "game.exe");
    assert_eq!(value[1]["height"], 480);
    assert_eq!(value[1].as_object().unwrap().len(), 6);
}

#[test]
fn json_strings_are_escaped_and_read_back() {
    for text in [
        "",
        "plain",
        "quote \" and \\",
        "line\nbreak\ttab\r\u{8}\u{c}",
        "bell \u{7} unit \u{1f} delete \u{7f}",
        "snow \u{2603} \u{1f3ae}",
    ] {
        let json = quoted(text);
        assert!(!json.contains('\n'));
        assert_eq!(serde_json::from_str::<String>(&json).unwrap(), text);
        assert_ne!(json, text);
    }
    assert_eq!(quoted("\u{1}"), "\"\\u0001\"");
    assert_eq!(quoted_optional(&None), "null");
    assert_eq!(quoted_optional(&Some("a".to_string())), "\"a\"");
}

#[test]
fn json_objects_keep_the_order_of_their_members() {
    let text = object(&vec![
        text_member("b", "x\"y"),
        number_member("a", u128::MAX),
        signed_member("c", i128::from(i64::MIN)),
        flag_member("d", false),
        raw_member("e", "[1]"),
    ]);
    assert_eq!(
        text,
        "{\"b\":\"x\\\"y\",\"a\":340282366920938463463374607431768211455,\
         \"c\":-9223372036854775808,\"d\":false,\"e\":[1]}"
    );
    assert_eq!(object(&vec![]), "{}");
}

#[test]
fn commands_say_what_they_start() {
    let settings = CaptureSettings {
        hwnd: 66_054,
        codec: Codec::H264,
        bitrate: 18_000,
        fps: 60,
        ..CaptureSettings::default()
    };
    assert_eq!(
        opening_line(CaptureCommand::Record, &settings, "a.mkv"),
        "Recording hwnd 66054 as H264 at 18000 kbps / 60 fps -> a.mkv"
    );
    assert_eq!(
        opening_line(CaptureCommand::Loopback, &settings, "a.mkv"),
        "Loopback hwnd 66054 as H264 at 18000 kbps / 60 fps"
    );
    assert_eq!(
        opening_line(CaptureCommand::Host, &settings, ""),
        "Hosting hwnd 66054 as H264 at 18000 kbps / 60 fps"
    );
}

#[test]
fn a_watched_stream_goes_to_a_file_or_to_a_window() {
    let file = watch_target(Some("a.mkv".to_string()), PlaybackKind::Friend, 2);
    assert!(matches!(file, WatchTarget::File(path) if path == "a.mkv"));
    assert!(matches!(
        watch_target(None, PlaybackKind::Friend, 2),
        WatchTarget::Window(PlaybackProfile::FriendViewer { cascade: 2 })
    ));
    assert!(matches!(
        watch_target(None, PlaybackKind::Monitor, 2),
        WatchTarget::Window(PlaybackProfile::LiveMonitor)
    ));
}

#[test]
fn a_preview_is_planned_from_its_sizes() {
    let plan = preview_plan("3840x2160", "1280x720", 60, "smpte", None, true).unwrap();
    assert_eq!((plan.stream, plan.window), ((3840, 2160), (1280, 720)));
    assert_eq!(
        plan.description,
        preview_description(3840, 2160, 60, "smpte", None)
    );
    assert_eq!(
        plan.lines,
        [
            "Preview: 3840x2160 at 60 fps in a 1280x720 window.",
            "Move the mouse to wake the controls (pinned open). Esc or the X closes.",
        ]
    );
    let refused = |size: &str, window: &str, fps: u32| {
        preview_plan(size, window, fps, "smpte", None, false).unwrap_err()
    };
    assert_eq!(
        refused("3840", "720", 0),
        PreviewError::Stream(ScaleError::NoSeparator)
    );
    assert_eq!(
        refused("3840x2160", "ax720", 0),
        PreviewError::Window(ScaleError::BadWidth)
    );
    assert_eq!(
        refused("3840x2160", "1280x720", 0),
        PreviewError::ZeroFps("fps must be greater than zero")
    );
}
