use orange::media_diagnostics::decode_timeline::{
    track_decode_timeline, DecodedBuffer, Report, Timeline, REPORT_INTERVAL_NS,
};
use orange::media_diagnostics::operation::{
    clamp_ms, measure_operation_with, operation_finished, operation_payload, operation_started,
    Operation, OperationEvent, OperationOutcome,
};
use orange::media_diagnostics::progress::{
    is_keyframe, media_snapshot_json, track_pad, BufferFlags, MediaProgress, MediaStage,
};
use orange::media_diagnostics::webrtc_monitor::{
    get_i64, get_u64, media_kind, parse_webrtc_stats, progress_payload, reply_is_reported,
    start_webrtc_diagnostics, unclassified_member, webrtc_report_json, InboundFractions,
    InboundRtpStats, JitterSample, Monitor, MonitorEvent, StatsSample, StatsType, StreamCounters,
    WebRtcReport,
};
use orange::media_diagnostics::writer::{
    diagnostic_file_path, diagnostic_json, drain_diagnostics, emit, line_elapsed_ms,
    new_with_destination, remaining_bytes, DiagnosticMetadata, DiagnosticRuntime, DrainState,
    QueueReply, RuntimeEvent, MAX_DIAGNOSTIC_BYTES,
};
use std::cell::RefCell;

fn decoding(input_pts_ms: u64) -> Timeline {
    Timeline {
        input_pts_ms: Some(input_pts_ms),
        ..Timeline::default()
    }
}

#[test]
fn a_decoder_keeping_pace_with_its_input_is_not_reported() {
    let mut timeline = decoding(1_000);
    let now = 5_000_000_000;
    assert_eq!(timeline.observe(Some(980), now), None);
    timeline.input_pts_ms = Some(1_020);
    assert_eq!(timeline.observe(Some(1_000), now), None);
}

#[test]
fn a_decoder_whose_output_stops_advancing_is_reported_even_without_lag() {
    let mut timeline = decoding(2_547);
    let now = 5_000_000_000;
    assert_eq!(timeline.observe(Some(2_547), now), None);
    assert_eq!(
        timeline.observe(Some(2_547), now),
        Some(Report {
            lag_ms: Some(0),
            outputs: 2,
            stalled_outputs: 1,
        })
    );
}

#[test]
fn a_decoder_falling_behind_its_input_is_reported_once_per_interval() {
    let mut timeline = decoding(4_499);
    let start = 5_000_000_000;
    assert_eq!(
        timeline.observe(Some(2_547), start),
        Some(Report {
            lag_ms: Some(1_952),
            outputs: 1,
            stalled_outputs: 0,
        })
    );
    assert_eq!(
        timeline.observe(Some(2_567), start + REPORT_INTERVAL_NS / 2),
        None
    );
    assert_eq!(
        timeline.observe(Some(2_587), start + REPORT_INTERVAL_NS),
        Some(Report {
            lag_ms: Some(1_912),
            outputs: 2,
            stalled_outputs: 0,
        })
    );
}

#[test]
fn a_buffer_without_a_timestamp_keeps_the_one_before_it() {
    let mut timeline = Timeline::default();
    timeline.observe_input(Some(100));
    timeline.observe_input(None);
    assert_eq!(timeline.input_pts_ms, Some(100));
    assert_eq!(timeline.observe(Some(100), 0), None);
    assert_eq!(timeline.observe(None, 0), None);
    assert_eq!(timeline.output_pts_ms, Some(100));
    assert_eq!(timeline.observe(Some(100), 0).unwrap().stalled_outputs, 1);
}

#[test]
fn a_decode_report_is_an_object_of_known_members() {
    let payload = track_decode_timeline(
        &Report {
            lag_ms: Some(300),
            outputs: 3,
            stalled_outputs: 1,
        },
        Some(900),
        &DecodedBuffer {
            pts_ms: None,
            duration_ms: Some(20),
            gap: true,
            discont: false,
            resync: false,
        },
    );
    let value: serde_json::Value = serde_json::from_str(&payload).unwrap();
    assert_eq!(value["lag_ms"], 300);
    assert_eq!(value["input_pts_ms"], 900);
    assert!(value["output_pts_ms"].is_null());
    assert_eq!(value["gap"], true);
    assert_eq!(value.as_object().unwrap().len(), 9);
}

/// Performs an action with `elapsed_ms` as its time, and notes the events and
/// the action in the order in which they come.
fn measured<R: OperationOutcome>(
    operation: Operation<'_>,
    action: impl FnOnce() -> R,
    elapsed_ms: u128,
) -> (R, Vec<(String, serde_json::Value)>) {
    let notes = RefCell::new(Vec::new());
    let note = |event: OperationEvent| {
        let payload = serde_json::from_str(&event.payload).unwrap();
        notes.borrow_mut().push((event.event.to_string(), payload));
    };
    let result = measure_operation_with(
        operation,
        |event: OperationEvent| {
            note(event);
            7u8
        },
        || {
            notes
                .borrow_mut()
                .push(("action".to_string(), serde_json::Value::Null));
            action()
        },
        |started: u8, _: &R| {
            assert_eq!(started, 7);
            assert_eq!(notes.borrow().len(), 2);
            elapsed_ms
        },
        |event: OperationEvent| note(event),
    );
    let mut noted = notes.into_inner();
    assert_eq!(noted.len(), 3);
    assert_eq!(noted.remove(1).0, "action");
    (result, noted)
}

#[test]
fn measured_operation_preserves_success_value_and_reports_success() {
    let (result, events) = measured(
        Operation::named("incoming-video-pad-link"),
        || Ok::<_, &'static str>(String::from("unchanged")),
        12,
    );

    assert_eq!(result, Ok(String::from("unchanged")));
    assert_eq!(events[0].0, "operation-started");
    assert_eq!(events[0].1["operation"], "incoming-video-pad-link");
    assert_eq!(events[0].1.as_object().unwrap().len(), 1);
    assert_eq!(events[1].0, "operation-finished");
    assert_eq!(events[1].1["operation"], "incoming-video-pad-link");
    assert_eq!(events[1].1["success"], true);
    assert!(events[1].1["duration_ms"].is_u64());
    assert_eq!(events[1].1["duration_ms"], 12);
}

#[test]
fn measured_operation_preserves_error_and_reports_failure() {
    let (result, events) = measured(
        Operation::named("video-decoder-create-d3d11av1dec"),
        || Err::<String, _>("decoder unavailable"),
        u128::MAX,
    );

    assert_eq!(result, Err("decoder unavailable"));
    assert_eq!(events[0].0, "operation-started");
    assert_eq!(events[1].0, "operation-finished");
    assert_eq!(events[1].1["success"], false);
    assert_eq!(events[1].1["duration_ms"], u64::MAX);
    assert_eq!(clamp_ms(7), 7);
}

#[test]
fn an_operation_on_an_element_names_it() {
    let operation = Operation::element("pipeline-add", "video-sink", "d3d11videosink");
    assert_eq!(
        operation_payload(&operation, Some((3, true))),
        "{\"operation\":\"pipeline-add\",\"element\":\"video-sink\",\
         \"factory\":\"d3d11videosink\",\"duration_ms\":3,\"success\":true}"
    );
    let ((), events) = measured(operation, || (), 0);
    assert_eq!(events[1].1["success"], true);
    let finished = operation_finished(&operation, 3, true);
    assert_eq!(finished.event, "operation-finished");
    assert_eq!(finished.payload, operation_payload(&operation, Some((3, true))));
    let started = operation_started(&operation);
    assert_eq!(started.event, "operation-started");
    assert_eq!(started.payload, operation_payload(&operation, None));
}

#[test]
fn progress_snapshot_identifies_the_last_advancing_media_stage() {
    let mut progress = MediaProgress::new();
    progress.record_at(MediaStage::Rtp, 1_000, 1_400, false, None);
    progress.record_at(MediaStage::Depay, 1_000, 900, false, None);
    progress.record_at(MediaStage::Parsed, 1_000, 800, true, None);
    progress.record_at(MediaStage::Decoded, 1_000, 700, false, None);
    progress.record_at(MediaStage::AudioRtp, 160, 1_450, false, None);
    progress.record_at(MediaStage::AudioDepay, 120, 1_440, false, None);
    progress.record_at(MediaStage::AudioDecoded, 1_920, 1_430, false, None);
    progress.record_at(MediaStage::AudioSinkInput, 1_920, 1_420, false, None);

    let snapshot = progress.snapshot_at(1_500);

    assert_eq!(snapshot.rtp.buffers, 1);
    assert_eq!(snapshot.rtp.bytes, 1_000);
    assert_eq!(snapshot.rtp.silent_ms, Some(100));
    assert_eq!(snapshot.depay.silent_ms, Some(600));
    assert_eq!(snapshot.parsed.silent_ms, Some(700));
    assert_eq!(snapshot.decoded.silent_ms, Some(800));
    assert_eq!(snapshot.audio_rtp.silent_ms, Some(50));
    assert_eq!(snapshot.audio_depay.silent_ms, Some(60));
    assert_eq!(snapshot.audio_decoded.silent_ms, Some(70));
    assert_eq!(snapshot.audio_sink_input.silent_ms, Some(80));
    assert_eq!(snapshot.keyframes, 1);

    let json: serde_json::Value = serde_json::from_str(&media_snapshot_json(&snapshot)).unwrap();
    assert_eq!(json["audio_rtp"]["buffers"], 1);
    assert_eq!(json["audio_depay"]["buffers"], 1);
    assert_eq!(json["audio_decoded"]["buffers"], 1);
    assert_eq!(json["audio_sink_input"]["buffers"], 1);
    assert!(json.get("audio_output").is_none());
}

#[test]
fn audio_arriving_later_than_the_picture_reports_a_positive_offset() {
    let mut progress = MediaProgress::new();
    progress.record_at(MediaStage::VideoSinkInput, 1_000, 10, false, Some(10_000));
    progress.record_at(MediaStage::AudioSinkInput, 1_920, 10, false, Some(9_800));

    let snapshot = progress.snapshot_at(20);

    assert_eq!(snapshot.video_sink_input.pts_ms, Some(10_000));
    assert_eq!(snapshot.audio_sink_input.pts_ms, Some(9_800));
    assert_eq!(snapshot.av_offset_ms, Some(200));
    let json: serde_json::Value = serde_json::from_str(&media_snapshot_json(&snapshot)).unwrap();
    assert_eq!(json["av_offset_ms"], 200);
}

#[test]
fn a_zero_timestamp_is_not_mistaken_for_a_missing_one() {
    let mut progress = MediaProgress::new();
    assert_eq!(progress.snapshot_at(0).video_sink_input.pts_ms, None);
    assert_eq!(progress.snapshot_at(0).av_offset_ms, None);

    progress.record_at(MediaStage::VideoSinkInput, 1_000, 0, false, Some(0));
    progress.record_at(MediaStage::AudioSinkInput, 1_920, 0, false, Some(0));

    let snapshot = progress.snapshot_at(0);
    assert_eq!(snapshot.video_sink_input.pts_ms, Some(0));
    assert_eq!(snapshot.av_offset_ms, Some(0));
}

#[test]
fn one_silent_branch_reports_no_offset_rather_than_a_wrong_one() {
    let mut progress = MediaProgress::new();
    progress.record_at(MediaStage::VideoSinkInput, 1_000, 10, false, Some(10_000));

    assert_eq!(progress.snapshot_at(20).av_offset_ms, None);
}

#[test]
fn sequence_header_keyframes_are_counted() {
    let flags = |delta_unit: bool, header: bool| BufferFlags {
        delta_unit,
        header,
        marker: true,
    };
    assert!(is_keyframe(flags(false, true)));
    assert!(is_keyframe(flags(false, false)));
    assert!(!is_keyframe(flags(true, false)));
    assert!(track_pad(MediaStage::Parsed, flags(false, true)));
    assert!(!track_pad(MediaStage::Depay, flags(false, true)));
}

#[test]
fn overruns_are_counted_and_a_later_picture_gives_a_negative_offset() {
    let mut progress = MediaProgress::new();
    progress.record_queue_overrun();
    progress.record_queue_overrun();
    progress.record_at(MediaStage::VideoSinkInput, 1, 10, false, Some(5));
    progress.record_at(MediaStage::AudioSinkInput, 1, 10, false, Some(9));
    progress.record_at(MediaStage::AudioSinkInput, 1, 11, false, None);
    let snapshot = progress.snapshot_at(5);
    assert_eq!(snapshot.queue_overruns, 2);
    assert_eq!(snapshot.av_offset_ms, Some(-4));
    assert_eq!(snapshot.audio_sink_input.buffers, 2);
    assert_eq!(snapshot.audio_sink_input.silent_ms, Some(0));
    assert!(media_snapshot_json(&snapshot).contains("\"av_offset_ms\":-4"));
    let payload = progress_payload(Some(false), &snapshot);
    assert!(payload.ends_with("\"ui_responsive\":false}"));
    assert!(progress_payload(None, &snapshot).ends_with("\"ui_responsive\":null}"));
}

fn none() -> StreamCounters {
    StreamCounters {
        packets_received: 0,
        bytes_received: 0,
        packets_lost: 0,
        packets_repaired: 0,
        packets_discarded: 0,
        packets_duplicated: 0,
        jitter_bits: 0,
        packets_sent: 0,
        bytes_sent: 0,
        nack_count: 0,
        pli_count: 0,
        fir_count: 0,
        jitterbuffer: None,
    }
}

fn jitter() -> JitterSample {
    JitterSample {
        num_pushed: 0,
        num_lost: 0,
        num_duplicates: 0,
        avg_jitter_ns: 0,
        rtx_count: 0,
        rtx_success_count: 0,
        rtx_per_packet_bits: 0,
        rtx_rtt_ns: 0,
        num_late: 0,
    }
}

fn stream(key: &str, stats_type: StatsType, kind: Option<&str>, counters: StreamCounters) -> StatsSample {
    StatsSample {
        key: key.to_string(),
        stats_type,
        kind: kind.map(str::to_string),
        codec_id: None,
        mime_type: None,
        counters,
    }
}

fn fractions(stats: Option<InboundRtpStats>) -> InboundFractions {
    let text = |value: f64| serde_json::to_string(&value).unwrap();
    let milliseconds = |ns: u64| text(ns as f64 / 1_000_000.0);
    match stats {
        Some(stats) => InboundFractions {
            jitter_ms: text(f64::from_bits(stats.jitter_bits) * 1_000.0),
            jitterbuffer_avg_jitter_ms: milliseconds(stats.jitterbuffer_avg_jitter_ns),
            jitterbuffer_rtx_per_packet: text(f64::from_bits(
                stats.jitterbuffer_rtx_per_packet_bits,
            )),
            jitterbuffer_rtx_rtt_ms: milliseconds(stats.jitterbuffer_rtx_rtt_ns),
        },
        None => InboundFractions {
            jitter_ms: String::new(),
            jitterbuffer_avg_jitter_ms: String::new(),
            jitterbuffer_rtx_per_packet: String::new(),
            jitterbuffer_rtx_rtt_ms: String::new(),
        },
    }
}

fn report_json(report: &WebRtcReport) -> String {
    webrtc_report_json(
        report,
        &fractions(report.inbound_video),
        &fractions(report.inbound_audio),
    )
}

#[test]
fn webrtc_stats_extract_video_recovery_without_sensitive_values() {
    let inbound = stream(
        "inbound-sensitive-id",
        StatsType::InboundRtp,
        Some("video"),
        StreamCounters {
            packets_received: 800,
            bytes_received: 900_000,
            packets_lost: 7,
            packets_repaired: 9,
            nack_count: get_u64(None, Some(11)),
            pli_count: get_u64(None, Some(2)),
            fir_count: get_u64(None, Some(1)),
            jitter_bits: 0.012f64.to_bits(),
            jitterbuffer: Some(JitterSample {
                num_pushed: 790,
                num_lost: 7,
                num_late: 3,
                num_duplicates: 2,
                avg_jitter_ns: 2_500_000,
                rtx_count: 11,
                rtx_success_count: 9,
                rtx_per_packet_bits: 1.25f64.to_bits(),
                rtx_rtt_ns: 12_000_000,
            }),
            ..none()
        },
    );
    let outbound = stream(
        "outbound-sensitive-id",
        StatsType::OutboundRtp,
        Some("video"),
        StreamCounters {
            packets_sent: 850,
            bytes_sent: 950_000,
            nack_count: 11,
            pli_count: 2,
            fir_count: 1,
            ..none()
        },
    );
    let inbound_audio = stream(
        "inbound-audio-sensitive-id",
        StatsType::InboundRtp,
        Some("audio"),
        StreamCounters {
            packets_received: 1_000,
            bytes_received: 128_000,
            packets_lost: 4,
            jitter_bits: 0.018f64.to_bits(),
            jitterbuffer: Some(JitterSample {
                num_pushed: 990,
                num_lost: 4,
                num_late: 6,
                avg_jitter_ns: 4_000_000,
                ..jitter()
            }),
            ..none()
        },
    );

    let report = parse_webrtc_stats(&vec![inbound, outbound, inbound_audio]);
    let inbound = report.inbound_video.as_ref().unwrap();
    let outbound = report.outbound_video.as_ref().unwrap();
    assert_eq!(inbound.packets_received, 800);
    assert_eq!(inbound.packets_lost, 7);
    assert_eq!(inbound.nack_sent, 11);
    assert_eq!(inbound.rtx_requested, 11);
    assert_eq!(inbound.rtx_succeeded, 9);
    assert_eq!(inbound.jitterbuffer_packets_pushed, 790);
    assert_eq!(inbound.jitterbuffer_packets_lost, 7);
    assert_eq!(inbound.jitterbuffer_packets_duplicated, 2);
    assert_eq!(inbound.jitterbuffer_avg_jitter_ns as f64 / 1_000_000.0, 2.5);
    assert_eq!(
        f64::from_bits(inbound.jitterbuffer_rtx_per_packet_bits),
        1.25
    );
    assert_eq!(inbound.jitterbuffer_rtx_rtt_ns as f64 / 1_000_000.0, 12.0);
    assert_eq!(outbound.packets_sent, 850);
    assert_eq!(outbound.nack_received, 11);
    let audio = report.inbound_audio.as_ref().unwrap();
    assert_eq!(audio.packets_received, 1_000);
    assert_eq!(audio.packets_lost, 4);
    assert_eq!(audio.packets_late, 6);
    assert_eq!(f64::from_bits(audio.jitter_bits) * 1_000.0, 18.0);
    assert_eq!(audio.jitterbuffer_packets_pushed, 990);
    assert_eq!(audio.jitterbuffer_packets_lost, 4);

    let json = report_json(&report);
    assert!(!json.contains("inbound-sensitive-id"));
    assert!(!json.contains("203.0.113.10"));
    // Everything classified, so the escape hatch stays out of the payload.
    assert_eq!(report.unclassified_streams, 0);
    assert!(!json.contains("unclassified_streams"));
    let value: serde_json::Value = serde_json::from_str(&json).unwrap();
    assert_eq!(value["inbound_video"]["jitterbuffer_avg_jitter_ms"], 2.5);
    assert_eq!(value["inbound_audio"]["jitter_ms"], 18.0);
    assert!(value["outbound_audio"].is_null());
}

#[test]
fn a_stream_without_a_kind_is_classified_by_its_codec() {
    let codec = StatsSample {
        mime_type: Some("audio/OPUS".to_string()),
        ..stream("codec-for-opus", StatsType::Other, None, none())
    };
    let inbound = StatsSample {
        codec_id: Some("codec-for-opus".to_string()),
        ..stream(
            "inbound-audio-id",
            StatsType::InboundRtp,
            None,
            StreamCounters {
                packets_received: 1_000,
                ..none()
            },
        )
    };

    let report = parse_webrtc_stats(&vec![codec, inbound]);

    assert_eq!(
        report.inbound_audio.as_ref().unwrap().packets_received,
        1_000
    );
    assert!(report.inbound_video.is_none());
    assert_eq!(report.unclassified_streams, 0);
}

#[test]
fn a_stream_that_cannot_be_classified_is_counted_rather_than_dropped() {
    let inbound = stream(
        "inbound-mystery-id",
        StatsType::InboundRtp,
        None,
        StreamCounters {
            packets_received: 500,
            ..none()
        },
    );

    let report = parse_webrtc_stats(&vec![inbound]);

    assert!(report.inbound_audio.is_none());
    assert!(report.inbound_video.is_none());
    assert_eq!(report.unclassified_streams, 1);
    assert!(report_json(&report).contains("unclassified_streams"));
}

#[test]
fn a_statistics_report_is_written_in_the_order_of_its_members() {
    let lost = stream(
        "x",
        StatsType::InboundRtp,
        Some("audio"),
        StreamCounters {
            packets_lost: -3,
            ..none()
        },
    );
    let sent = stream(
        "y",
        StatsType::OutboundRtp,
        Some("video"),
        StreamCounters {
            packets_sent: 5,
            pli_count: 2,
            ..none()
        },
    );
    let unknown = stream("z", StatsType::OutboundRtp, None, none());
    let report = parse_webrtc_stats(&vec![lost, sent, unknown]);
    assert_eq!(
        report_json(&report),
        "{\"inbound_video\":null,\
         \"outbound_video\":{\"packets_sent\":5,\"payload_bytes_sent\":0,\
         \"nack_received\":0,\"pli_received\":2,\"fir_received\":0},\
         \"inbound_audio\":{\"packets_received\":0,\"payload_bytes_received\":0,\
         \"packets_lost\":-3,\"packets_repaired\":0,\"packets_discarded\":0,\
         \"packets_duplicated\":0,\"jitter_ms\":0.0,\"nack_sent\":0,\"pli_sent\":0,\
         \"fir_sent\":0,\"rtx_requested\":0,\"rtx_succeeded\":0,\"packets_late\":0,\
         \"jitterbuffer_packets_pushed\":0,\"jitterbuffer_packets_lost\":0,\
         \"jitterbuffer_packets_duplicated\":0,\"jitterbuffer_avg_jitter_ms\":0.0,\
         \"jitterbuffer_rtx_per_packet\":0.0,\"jitterbuffer_rtx_rtt_ms\":0.0},\
         \"outbound_audio\":null,\"unclassified_streams\":1}"
    );
    assert!(unclassified_member(0).is_none());
    let member = unclassified_member(4).unwrap();
    assert_eq!((member.name, member.value.as_str()), ("unclassified_streams", "4"));
}

#[test]
fn streams_of_one_medium_are_summed() {
    let half = |lost: i64, received: u64| {
        stream(
            "x",
            StatsType::InboundRtp,
            Some("video"),
            StreamCounters {
                packets_lost: lost,
                packets_received: received,
                jitter_bits: received,
                ..none()
            },
        )
    };
    let report = parse_webrtc_stats(&vec![half(-5, u64::MAX), half(2, 1)]);
    let video = report.inbound_video.unwrap();
    assert_eq!(video.packets_lost, -3);
    assert_eq!(video.packets_received, u128::from(u64::MAX) + 1);
    assert_eq!(video.jitter_bits, 1);
    let odd = stream("y", StatsType::OutboundRtp, Some("data"), none());
    assert_eq!(media_kind(&odd, &vec![]), Some("data".to_string()));
    assert_eq!(parse_webrtc_stats(&vec![odd]).unclassified_streams, 1);
    assert_eq!((get_u64(Some(1), Some(2)), get_u64(None, None)), (1, 0));
    assert_eq!((get_i64(Some(-1), None), get_i64(None, Some(-2))), (-1, -2));
}

#[test]
fn statistics_are_asked_for_one_at_a_time() {
    let tick = MonitorEvent::Tick {
        active: true,
        connection_alive: true,
        has_progress: true,
    };
    let idle = Monitor {
        running: true,
        in_flight: false,
    };
    let (busy, first) = start_webrtc_diagnostics(idle, tick);
    assert!(first.request_stats && first.report_progress);
    let (busy, second) = start_webrtc_diagnostics(busy, tick);
    assert!(!second.request_stats && second.report_progress);
    let (idle, _) = start_webrtc_diagnostics(busy, MonitorEvent::Reply);
    assert!(start_webrtc_diagnostics(idle, tick).1.request_stats);
    let (stopped, _) = start_webrtc_diagnostics(idle, MonitorEvent::Stop);
    let (_, after) = start_webrtc_diagnostics(stopped, tick);
    assert!(!after.request_stats && !after.report_progress);
    assert!(reply_is_reported(true, true));
    assert!(!reply_is_reported(false, true));
}

#[test]
fn diagnostic_json_returns_serialization_error() {
    assert!(diagnostic_json(
        &DiagnosticMetadata::default(),
        17,
        1_725_000_000_000,
        "test-event",
        "watch",
        None,
    )
    .is_none());
}

#[test]
fn diagnostic_metadata_is_omitted_when_allowlisted_environment_is_absent() {
    let metadata = DiagnosticMetadata::from_lookup(|_: &str| None);

    let json = diagnostic_json(
        &metadata,
        17,
        1_725_000_000_000,
        "test-event",
        "watch",
        Some("{\"value\":42}"),
    )
    .unwrap();

    let value: serde_json::Value = serde_json::from_str(&json).unwrap();
    assert_eq!(value["at_unix_ms"], 1_725_000_000_000u64);
    assert_eq!(value["elapsed_ms"], 17);
    assert_eq!(value["event"], "test-event");
    assert_eq!(value["role"], "watch");
    assert_eq!(value["payload"]["value"], 42);
    assert_eq!(value["payload"].as_object().unwrap().len(), 1);
    assert_eq!(value.as_object().unwrap().len(), 5);
}

#[test]
fn diagnostic_metadata_is_included_as_top_level_strings() {
    let metadata = DiagnosticMetadata::from_lookup(|name: &str| match name {
        "ORANGE_BUILD_ID" => Some("0123456789abcdef".to_string()),
        "ORANGE_RUN_ID" => Some("run-123".to_string()),
        "ORANGE_DEVICE_ID" => Some("device-456".to_string()),
        "ORANGE_TEST_PROFILE" => Some("hardware-bounded-jitter".to_string()),
        _ => None,
    });

    let json = diagnostic_json(
        &metadata,
        29,
        1_725_000_000_001,
        "test-event",
        "watch",
        Some("{}"),
    )
    .unwrap();

    let value: serde_json::Value = serde_json::from_str(&json).unwrap();
    assert_eq!(value["at_unix_ms"], 1_725_000_000_001u64);
    assert_eq!(value["elapsed_ms"], 29);
    assert_eq!(value["event"], "test-event");
    assert_eq!(value["role"], "watch");
    assert_eq!(value["build"], "0123456789abcdef");
    assert_eq!(value["run"], "run-123");
    assert_eq!(value["device"], "device-456");
    assert_eq!(value["profile"], "hardware-bounded-jitter");
    assert!(value["payload"].as_object().unwrap().is_empty());
    assert_eq!(value.as_object().unwrap().len(), 9);
}

#[test]
fn diagnostic_metadata_reads_only_the_explicit_allowlist() {
    let requested = RefCell::new(Vec::new());

    let _metadata = DiagnosticMetadata::from_lookup(|name: &str| {
        requested.borrow_mut().push(name.to_string());
        None
    });

    assert_eq!(
        requested.into_inner(),
        [
            "ORANGE_BUILD_ID",
            "ORANGE_RUN_ID",
            "ORANGE_DEVICE_ID",
            "ORANGE_TEST_PROFILE",
        ]
    );
}

#[test]
fn diagnostic_files_are_scoped_to_one_process() {
    assert_eq!(
        diagnostic_file_path(r"C:\logs", 42),
        r"C:\logs\orange-media-42.jsonl"
    );
    assert_eq!(
        diagnostic_file_path(r"C:\logs\", 42),
        r"C:\logs\orange-media-42.jsonl"
    );
    assert_eq!(diagnostic_file_path("", 7), "orange-media-7.jsonl");
    assert_ne!(
        diagnostic_file_path(r"C:\logs", 1),
        diagnostic_file_path(r"C:\logs", 11)
    );
}

#[test]
fn a_directory_and_a_file_are_joined_as_windows_joins_them() {
    for (directory, path) in [
        ("C:", "C:orange-media-7.jsonl"),
        ("z:", "z:orange-media-7.jsonl"),
        ("1:", r"1:\orange-media-7.jsonl"),
        ("::", r"::\orange-media-7.jsonl"),
        ("logs/", "logs/orange-media-7.jsonl"),
        (r"\\server\share", r"\\server\share\orange-media-7.jsonl"),
        (r"\\?\C:", r"\\?\C:\orange-media-7.jsonl"),
        (r"\\?\C:\", r"\\?\C:\orange-media-7.jsonl"),
        (r"\\?\C:\logs", r"\\?\C:\logs\orange-media-7.jsonl"),
        (r"\\?\C:\logs/", r"\\?\C:\logs/\orange-media-7.jsonl"),
        (r"\\?\C:\a\\b\", r"\\?\C:\a\b\orange-media-7.jsonl"),
        (
            r"\\?\UNC\server\share\logs\",
            r"\\?\UNC\server\share\logs\orange-media-7.jsonl",
        ),
        (r"\\?\UNC\server", r"\\?\UNC\server\orange-media-7.jsonl"),
        (r"\\?\pipe\x", r"\\?\pipe\x\orange-media-7.jsonl"),
    ] {
        assert_eq!(diagnostic_file_path(directory, 7), path);
    }
}

#[test]
fn diagnostic_writer_stops_writing_at_the_byte_cap() {
    let mut output = String::new();
    let mut state = DrainState {
        written: 0,
        capped: false,
    };

    for line in ["1234", "x"] {
        if drain_diagnostics(&mut state, line, 6) {
            output.push_str(line);
            output.push('\n');
        }
    }

    assert_eq!(output, "1234\n");
    assert_eq!(remaining_bytes(None), MAX_DIAGNOSTIC_BYTES);
    assert_eq!(remaining_bytes(Some(MAX_DIAGNOSTIC_BYTES + 1)), 0);
}

#[test]
fn a_shorter_line_after_the_cap_is_dropped_too() {
    let mut state = DrainState {
        written: 0,
        capped: false,
    };
    assert!(!drain_diagnostics(&mut state, "123456", 6));
    assert!(!drain_diagnostics(&mut state, "1", 6));
    assert_eq!(state.written, 0);
}

#[test]
fn diagnostic_writer_without_destination_is_disabled_and_shutdown_is_idempotent() {
    assert!(!new_with_destination(false, true));

    let (stopped, first) = DiagnosticRuntime::Pending.step(RuntimeEvent::Shutdown);
    let (stopped, second) = stopped.step(RuntimeEvent::Shutdown);

    assert!(!first.join && !second.join);
    assert_eq!(stopped, DiagnosticRuntime::Stopped);
    assert!(!emit(false, true, QueueReply::Accepted));
}

#[test]
fn diagnostics_start_with_their_first_event_and_stop_once() {
    let pending = DiagnosticRuntime::Pending;
    let (running, first) = pending.step(RuntimeEvent::Access { started: true });
    assert!(first.start && first.usable);
    let (running, again) = running.step(RuntimeEvent::Access { started: false });
    assert!(!again.start && again.usable);
    let (stopped, end) = running.step(RuntimeEvent::Shutdown);
    assert!(end.join);
    let (stopped, twice) = stopped.step(RuntimeEvent::Shutdown);
    assert!(!twice.join);
    assert!(!stopped.step(RuntimeEvent::Access { started: true }).1.usable);
    let (failed, _) = pending.step(RuntimeEvent::Access { started: false });
    assert_eq!(failed, DiagnosticRuntime::Stopped);
    assert!(!failed.step(RuntimeEvent::Access { started: true }).1.start);
    assert!(new_with_destination(true, true));
    assert!(!new_with_destination(false, true));
    assert!(!new_with_destination(true, false));
}

#[test]
fn an_event_is_recorded_only_where_the_queue_takes_it() {
    assert!(emit(true, true, QueueReply::Accepted));
    assert!(!emit(true, true, QueueReply::Full));
    assert!(!emit(true, true, QueueReply::Disconnected));
    assert!(!emit(false, true, QueueReply::Accepted));
    assert!(!emit(true, false, QueueReply::Accepted));
    assert_eq!(line_elapsed_ms(u128::MAX), u64::MAX);
}
