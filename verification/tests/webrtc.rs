use orange::pipeline::{CaptureSettings, Codec, Property, PropertyValue};
use orange::webrtc::attach::{
    attach_operation, attach_receive_elements, Attach, AttachAction,
};
use orange::webrtc::loopback::{
    connect_signalling, loopback_pad, run_loopback, stream_problem_line, Negotiation,
    NegotiationAction, NegotiationEvent, PadAction, Peer, StreamProblem,
};
use orange::webrtc::{
    accept_receive_pad, audio_control_step, av1_decoder_factory, build_audio_branch,
    build_audio_decoder, build_audio_sink, build_live_video_queue, build_receive_branch,
    build_video_decoder, build_video_depayloader, build_video_payloader, build_video_sink,
    encoding_name, file_output_factories, frame_rate_from_rtp_caps, incoming_bitrate_step,
    initial_volume, rtp_caps, ControlsLock, ElementPlan, InitialVolume, Output, PadCaps,
    ReceiveKind, ReceiveWorkerRegistry, WorkerStep, WorkerWait,
};

type Registry = ReceiveWorkerRegistry<&'static str, &'static str>;

fn encoding(name: &str) -> Option<String> {
    Some(name.to_string())
}

fn value_of(properties: &[Property], name: &str) -> Option<PropertyValue> {
    properties
        .iter()
        .find(|property| property.name == name)
        .map(|property| property.value)
}

#[test]
fn receive_pad_acceptance_keeps_first_audio_and_video_owners() {
    let mut registry = Registry::new();
    let audio = accept_receive_pad(&mut registry, &encoding("OPUS"))
        .expect("first audio pad was not accepted");
    assert_eq!(audio.kind, ReceiveKind::Audio);
    let video = accept_receive_pad(&mut registry, &encoding("AV1"))
        .expect("first video pad was not accepted");
    assert_eq!(video.kind, ReceiveKind::Video);
    registry.complete_audio(audio, Some("audio worker"));
    registry.complete_video(video, Some("bitrate worker"));

    let duplicate_audio = accept_receive_pad(&mut registry, &encoding("OPUS")).is_none();
    let duplicate_video = accept_receive_pad(&mut registry, &encoding("AV1")).is_none();
    let workers = registry.close_and_take().unwrap();
    let retained = (workers.audio.is_some(), workers.bitrate.is_some());

    assert!(duplicate_audio);
    assert!(duplicate_video);
    assert_eq!(retained, (true, true));
}

#[test]
fn receive_pad_acceptance_rolls_back_failed_claim_and_rejects_closed_registry() {
    let mut registry = Registry::new();
    let failed = accept_receive_pad(&mut registry, &encoding("OPUS"))
        .expect("first OPUS claim was not accepted");
    registry.release(failed);
    let retry = accept_receive_pad(&mut registry, &encoding("OPUS"));
    let retried = retry.is_some();
    if let Some(claim) = retry {
        registry.complete_audio(claim, None);
    }
    assert!(registry.close_and_take().is_some());
    let rejected_after_close = accept_receive_pad(&mut registry, &encoding("OPUS")).is_none();

    assert!(retried);
    assert!(rejected_after_close);
}

#[test]
fn receive_worker_registry_rejects_duplicate_audio_and_video() {
    let mut registry = Registry::new();
    let audio = registry.claim_audio().unwrap();
    let video = registry.claim_video().unwrap();

    let duplicate_audio = registry.claim_audio().is_none();
    let duplicate_video = registry.claim_video().is_none();

    registry.complete_audio(audio, None);
    registry.complete_video(video, None);
    assert!(registry.close_and_take().is_some());

    assert!(duplicate_audio);
    assert!(duplicate_video);
}

#[test]
fn receive_worker_registry_close_waits_for_active_pad_callback() {
    let mut registry = Registry::new();
    let claim = registry.claim_audio().unwrap();
    assert!(registry.close_and_take().is_none());
    assert!(registry.claim_video().is_none());

    registry.complete_audio(claim, Some("late worker"));

    let workers = registry.close_and_take().unwrap();
    assert_eq!(workers.audio, Some("late worker"));
}

#[test]
fn closed_receive_worker_registry_rejects_late_install() {
    let mut registry = Registry::new();
    registry.close_and_take();

    assert!(registry.claim_audio().is_none());
    assert!(registry.claim_video().is_none());
}

#[test]
fn unknown_encodings_are_not_accepted() {
    let mut registry = Registry::new();
    assert!(accept_receive_pad(&mut registry, &encoding("VP8")).is_none());
    assert!(accept_receive_pad(&mut registry, &None).is_none());
    for name in ["H264", "H265"] {
        let claim = accept_receive_pad(&mut registry, &encoding(name)).unwrap();
        registry.release(claim);
    }
}

#[test]
fn rtp_caps_advertise_the_configured_frame_rate() {
    let caps = rtp_caps(Codec::H264, 120);

    assert_eq!(caps.frame_rate, "120");
    assert_eq!(frame_rate_from_rtp_caps(&Some(caps.frame_rate)), Some(120));
}

#[test]
fn an_implausible_frame_rate_is_not_taken() {
    for text in ["0", "481", "-1", "abc", "", "60.0"] {
        assert_eq!(frame_rate_from_rtp_caps(&encoding(text)), None, "{text}");
    }
    assert_eq!(frame_rate_from_rtp_caps(&encoding("480")), Some(480));
    assert_eq!(frame_rate_from_rtp_caps(&None), None);
}

#[test]
fn h264_transport_resends_headers_and_recovers_after_loss() {
    let caps = rtp_caps(Codec::H264, 60);
    let pay = build_video_payloader(Codec::H264);
    let depay = build_video_depayloader(Codec::H264);

    assert_eq!(caps.encoding_name, "H264");
    assert_eq!(
        value_of(&pay.properties, "config-interval"),
        Some(PropertyValue::Int(-1))
    );
    assert_eq!(
        value_of(&depay.properties, "request-keyframe"),
        Some(PropertyValue::Flag(true))
    );
    assert_eq!(
        value_of(&depay.properties, "wait-for-keyframe"),
        Some(PropertyValue::Flag(true))
    );
    assert_eq!(Codec::from_rtp_encoding("H264"), Some(Codec::H264));
}

#[test]
fn h264_file_output_does_not_require_av1_encoding() {
    assert_eq!(
        file_output_factories(Codec::H264),
        ("mfh264enc", "h264parse")
    );
}

#[test]
fn h265_file_output_uses_cross_vendor_media_foundation() {
    assert_eq!(
        file_output_factories(Codec::H265),
        ("mfh265enc", "h265parse")
    );
}

#[test]
fn opus_decoder_conceals_loss_without_fec_lookahead() {
    let decoder = build_audio_decoder();

    assert_eq!(
        value_of(&decoder.properties, "plc"),
        Some(PropertyValue::Flag(true))
    );
    assert_eq!(value_of(&decoder.properties, "use-inband-fec"), None);
}

#[test]
fn software_decoder_can_be_selected_for_diagnostic_comparison() {
    assert_eq!(av1_decoder_factory(Some("software"), false), "dav1ddec");
    assert_eq!(av1_decoder_factory(Some("software"), true), "d3d11av1dec");
    assert_eq!(av1_decoder_factory(Some("hardware"), false), "d3d11av1dec");
    assert_eq!(
        av1_decoder_factory(Some("unexpected"), false),
        "d3d11av1dec"
    );
    assert_eq!(av1_decoder_factory(None, false), "d3d11av1dec");
}

#[test]
fn av1_decoder_rejects_corrupt_output_and_requests_recovery() {
    let decoder = build_video_decoder(Codec::Av1, Some("software"), false);

    assert_eq!(decoder.factory, "dav1ddec");
    assert_eq!(
        value_of(&decoder.properties, "automatic-request-sync-points"),
        Some(PropertyValue::Flag(true))
    );
    assert_eq!(
        value_of(&decoder.properties, "discard-corrupted-frames"),
        Some(PropertyValue::Flag(true))
    );
}

#[test]
fn av1_depayloader_requests_and_waits_for_recovery_keyframes() {
    let depay = build_video_depayloader(Codec::Av1);

    assert_eq!(
        value_of(&depay.properties, "request-keyframe"),
        Some(PropertyValue::Flag(true))
    );
    assert_eq!(
        value_of(&depay.properties, "wait-for-keyframe"),
        Some(PropertyValue::Flag(true))
    );
}

#[test]
fn presentation_queue_keeps_only_the_live_decoded_frame() {
    let queue = build_live_video_queue();

    assert_eq!(
        value_of(&queue.properties, "max-size-buffers"),
        Some(PropertyValue::Uint(1))
    );
    assert_eq!(
        value_of(&queue.properties, "max-size-bytes"),
        Some(PropertyValue::Uint(0))
    );
    assert_eq!(
        value_of(&queue.properties, "max-size-time"),
        Some(PropertyValue::Long(0))
    );
}

#[test]
fn live_sinks_do_not_wait_for_preroll() {
    let video = build_video_sink();
    let audio = build_audio_sink(true);

    assert_eq!(
        value_of(&video.properties, "async"),
        Some(PropertyValue::Flag(false))
    );
    assert_eq!(
        value_of(&video.properties, "sync"),
        Some(PropertyValue::Flag(false))
    );
    assert_eq!(
        value_of(&audio.properties, "async"),
        Some(PropertyValue::Flag(false))
    );
    assert_eq!(
        value_of(&audio.properties, "buffer-time"),
        Some(PropertyValue::Signed(40_000))
    );
    assert_eq!(
        value_of(&audio.properties, "latency-time"),
        Some(PropertyValue::Signed(10_000))
    );
    assert_eq!(build_audio_sink(false).factory, "wasapisink");
}

fn factories(elements: &[ElementPlan]) -> Vec<&'static str> {
    elements.iter().map(|element| element.factory).collect()
}

#[test]
fn a_window_branch_ends_on_the_screen() {
    let branch = build_receive_branch(&encoding("H265"), &Output::Window, &None, Some(60)).unwrap();
    assert_eq!(
        factories(&branch.elements),
        [
            "rtph265depay",
            "h265parse",
            "d3d11h265dec",
            "queue",
            "overlaycomposition",
            "d3d11videosink",
        ]
    );
    assert!(branch.reveal);
    assert_eq!(branch.shown_fps, Some(60));
    assert_eq!(branch.location, None);
}

#[test]
fn a_file_branch_encodes_again() {
    let output = Output::File("out.mkv".to_string());
    let branch =
        build_receive_branch(&encoding("AV1"), &output, &encoding("software"), Some(60)).unwrap();
    assert_eq!(
        factories(&branch.elements),
        [
            "rtpav1depay",
            "av1parse",
            "d3d11av1dec",
            "nvd3d11av1enc",
            "av1parse",
            "matroskamux",
            "filesink",
        ]
    );
    assert!(!branch.reveal);
    assert_eq!(branch.shown_fps, None);
    assert_eq!(branch.location.as_deref(), Some("out.mkv"));
}

#[test]
fn a_branch_needs_a_known_encoding() {
    assert_eq!(
        build_receive_branch(&None, &Output::Window, &None, None).unwrap_err(),
        "video RTP pad has no encoding name"
    );
    assert_eq!(
        build_receive_branch(&encoding("VP9"), &Output::Window, &None, None).unwrap_err(),
        "unsupported video RTP encoding"
    );
}

#[test]
fn the_sound_branch_has_six_elements() {
    assert_eq!(
        factories(&build_audio_branch(true)),
        [
            "rtpopusdepay",
            "opusdec",
            "audioconvert",
            "audioresample",
            "volume",
            "wasapi2sink",
        ]
    );
    let volume = &build_audio_branch(false)[4];
    assert_eq!(volume.logical_name, "audio-volume");
    assert_eq!(
        value_of(&volume.properties, "name"),
        Some(PropertyValue::Text("viewer-volume"))
    );
    assert_eq!(initial_volume(Some(true)), InitialVolume::Silent);
    assert_eq!(initial_volume(Some(false)), InitialVolume::Overlay);
    assert_eq!(initial_volume(None), InitialVolume::Fallback);
}

#[test]
fn fixed_caps_name_the_encoding_before_allowed_ones() {
    let named = |name: &str| {
        Some(PadCaps {
            encoding_name: encoding(name),
        })
    };
    assert_eq!(
        encoding_name(&named("AV1"), &named("H264")).as_deref(),
        Some("AV1")
    );
    assert_eq!(
        encoding_name(&None, &named("H264")).as_deref(),
        Some("H264")
    );
    let unnamed = Some(PadCaps {
        encoding_name: None,
    });
    assert_eq!(encoding_name(&unnamed, &named("H264")), None);
    assert_eq!(encoding_name(&None, &None), None);
}

/// The actions of a transaction, of which the one of this number fails.
fn attached(count: usize, blocked: bool, failing: usize) -> (Vec<AttachAction>, bool) {
    let mut attach = Attach::new(count, blocked);
    let mut actions = Vec::new();
    while let Some(action) = attach.action() {
        let ok = actions.len() != failing;
        actions.push(action);
        attach = attach_receive_elements(attach, ok);
    }
    (actions, attach.succeeded())
}

#[test]
fn a_branch_is_attached_whole() {
    let (actions, ok) = attached(2, true, usize::MAX);
    assert!(ok);
    assert_eq!(
        actions,
        [
            AttachAction::Add(0),
            AttachAction::Add(1),
            AttachAction::LinkElements,
            AttachAction::LinkPad,
            AttachAction::Sync(0),
            AttachAction::Sync(1),
            AttachAction::Unblock,
        ]
    );
}

#[test]
fn a_failed_branch_is_taken_out_in_reverse() {
    let (actions, ok) = attached(3, true, 4);
    assert!(!ok);
    assert_eq!(
        actions,
        [
            AttachAction::Add(0),
            AttachAction::Add(1),
            AttachAction::Add(2),
            AttachAction::LinkElements,
            AttachAction::LinkPad,
            AttachAction::UnlinkPad,
            AttachAction::Remove(2),
            AttachAction::Remove(1),
            AttachAction::Remove(0),
            AttachAction::Unblock,
        ]
    );
    let (actions, ok) = attached(3, false, 1);
    assert!(!ok);
    assert_eq!(
        actions[2..],
        [AttachAction::UnlinkPad, AttachAction::Remove(0)]
    );
    assert_eq!(
        attach_operation(AttachAction::LinkPad, ReceiveKind::Audio),
        Some("link-incoming-audio-rtp-pad")
    );
    assert_eq!(
        attach_operation(AttachAction::Remove(0), ReceiveKind::Audio),
        None
    );
}

#[test]
fn the_two_peers_exchange_descriptions_and_candidates() {
    let (state, actions) = connect_signalling(Negotiation::Idle, NegotiationEvent::Needed);
    assert_eq!(actions, [NegotiationAction::CreateOffer(Peer::Sender)]);
    let (state, actions) = connect_signalling(state, NegotiationEvent::Candidate(Peer::Sender));
    assert_eq!(actions, [NegotiationAction::AddCandidate(Peer::Receiver)]);
    let (state, actions) = connect_signalling(state, NegotiationEvent::Offer(true));
    assert_eq!(
        actions,
        [
            NegotiationAction::SetLocal(Peer::Sender),
            NegotiationAction::SetRemote(Peer::Receiver),
            NegotiationAction::CreateAnswer(Peer::Receiver),
        ]
    );
    let (state, actions) = connect_signalling(state, NegotiationEvent::Answer(true));
    assert_eq!(state, Negotiation::Complete);
    assert_eq!(actions[2], NegotiationAction::SayComplete);
    assert_eq!(
        connect_signalling(Negotiation::Offering, NegotiationEvent::Offer(false)).1,
        [NegotiationAction::SayOfferFailed]
    );
}

#[test]
fn a_loopback_is_planned_from_the_settings() {
    let installed: Vec<String> = [
        "d3d11screencapturesrc",
        "d3d11convert",
        "mfh265enc",
        "h265parse",
    ]
    .iter()
    .map(|name| name.to_string())
    .collect();
    let plan = run_loopback(&CaptureSettings::default(), &installed, &Output::Window).unwrap();
    assert!(plan.live_output);
    assert_eq!(plan.payloader.factory, "rtph265pay");
    assert_eq!((plan.sender, plan.receiver), ("sender", "receiver"));
    assert!(run_loopback(&CaptureSettings::default(), &vec![], &Output::Window).is_err());
    assert_eq!(
        loopback_pad(Some(ReceiveKind::Video), false),
        PadAction::GiveBack
    );
    assert_eq!(
        loopback_pad(Some(ReceiveKind::Video), true),
        PadAction::BuildVideo
    );
    assert_eq!(loopback_pad(None, true), PadAction::Ignore);
    assert_eq!(
        stream_problem_line(StreamProblem::AudioBranch, "x"),
        "[webrtc] could not build audio branch: x"
    );
}

#[test]
fn workers_never_wait_for_the_controls() {
    let tick = WorkerWait::TimedOut;
    assert_eq!(
        audio_control_step(WorkerWait::Stopped, ControlsLock::Busy),
        WorkerStep::Stop
    );
    assert_eq!(audio_control_step(tick, ControlsLock::Busy), WorkerStep::Skip);
    assert_eq!(audio_control_step(tick, ControlsLock::Gone), WorkerStep::Stop);
    assert_eq!(audio_control_step(tick, ControlsLock::Held), WorkerStep::Apply);
    assert_eq!(
        incoming_bitrate_step(tick, ControlsLock::Held, 0, 9),
        WorkerStep::Skip
    );
    assert_eq!(
        incoming_bitrate_step(tick, ControlsLock::Held, 1, 9),
        WorkerStep::Apply
    );
    assert_eq!(
        incoming_bitrate_step(WorkerWait::Stopped, ControlsLock::Busy, 1, 9),
        WorkerStep::Stop
    );
}
