use orange::pipeline::Codec;
use orange::troubleshoot::stun::{
    parse_stun_endpoint, probe_stun_ipv4, random_transaction_id, receive_budget_ns,
    stun_binding_request, validate_stun_binding_response, Attempt, StunProbe, StunProbeConfig,
    StunValidationError,
};
use orange::troubleshoot::{
    audio_check, audio_probe, capture_check, collect, decoder_check, decoder_probe, decoder_result,
    encoder_check, join_missing, known_factories, missing_required, run, runtime_check,
    signalling_check, stun_check, CheckStatus, Handshake, StunProbeStatus,
};

const MAGIC_COOKIE: u32 = 0x2112_A442;

fn names(list: &[&str]) -> Vec<String> {
    list.iter().map(|name| name.to_string()).collect()
}

fn installed_but(absent: &[&str]) -> Vec<String> {
    known_factories()
        .iter()
        .filter(|name| !absent.contains(name))
        .map(|name| name.to_string())
        .collect()
}

#[test]
fn runtime_check_requires_webrtc_transport_factories() {
    let check = runtime_check(true, &installed_but(&["webrtcbin"]));

    assert_eq!(check.status, CheckStatus::Fail);
    assert!(check.detail.contains("webrtcbin"));
}

#[test]
fn runtime_unavailable_skip_includes_next_step_guidance() {
    let capture = capture_check(false, &names(&[]));
    assert_eq!(capture.status, CheckStatus::Inconclusive);
    assert!(capture.detail.contains("Repair or update Orange"));
}

#[test]
fn audio_check_requires_receive_path_and_one_supported_wasapi_sink() {
    let available = names(&[
        "wasapi2src",
        "audioconvert",
        "audioresample",
        "opusenc",
        "rtpopuspay",
        "rtpopusdepay",
        "opusdec",
        "volume",
        "wasapi2sink",
    ]);
    let probe = audio_probe(&available);
    assert!(probe.ready());

    let missing_sink = names(&[
        "wasapi2src",
        "audioconvert",
        "audioresample",
        "opusenc",
        "rtpopuspay",
        "rtpopusdepay",
        "opusdec",
        "volume",
    ]);
    let probe = audio_probe(&missing_sink);
    assert!(!probe.ready());
    let missing = join_missing(&probe.missing_names());
    assert!(missing.contains("wasapi2sink"));
    assert!(missing.contains("wasapisink"));
}

#[test]
fn decoder_mixed_codec_availability_is_inconclusive() {
    let available = names(&[
        "rtph265depay",
        "h265parse",
        "d3d11h265dec",
        "overlaycomposition",
        "d3d11videosink",
    ]);
    let probe = decoder_probe(&available);

    assert!(probe.h265_ready());
    assert!(!probe.h264_ready());
    assert!(probe.presentation_ready());
}

#[test]
fn decoder_detail_names_missing_plugins_for_mixed_codec() {
    let probe = decoder_probe(&installed_but(&[
        "h264parse",
        "d3d11h264dec",
        "rtph264depay",
    ]));
    let status = match (
        probe.h265_ready(),
        probe.h264_ready(),
        probe.presentation_ready(),
    ) {
        (true, true, true) => CheckStatus::Pass,
        (false, false, _) => CheckStatus::Fail,
        _ => CheckStatus::Inconclusive,
    };
    assert_eq!(status, CheckStatus::Inconclusive);
    assert_eq!(decoder_result(&probe).status, CheckStatus::Inconclusive);
    let missing = join_missing(&probe.missing_names());
    assert!(missing.contains("h264parse"));
    assert!(missing.contains("d3d11h264dec"));
}

fn success_response_for(transaction_id: [u8; 12]) -> Vec<u8> {
    let mut packet = Vec::new();
    packet.extend_from_slice(&0x0101u16.to_be_bytes());
    packet.extend_from_slice(&12u16.to_be_bytes());
    packet.extend_from_slice(&MAGIC_COOKIE.to_be_bytes());
    packet.extend_from_slice(&transaction_id);
    packet.extend_from_slice(&0x0020u16.to_be_bytes());
    packet.extend_from_slice(&8u16.to_be_bytes());
    packet.push(0);
    packet.push(1);
    packet.extend_from_slice(&0u16.to_be_bytes());
    packet.extend_from_slice(&[1, 2, 3, 4]);
    packet
}

#[test]
fn valid_stun_binding_response_is_accepted() {
    let transaction_id = [7; 12];
    let packet = success_response_for(transaction_id);
    assert!(validate_stun_binding_response(&packet, &transaction_id).is_ok());
}

#[test]
fn mismatched_stun_transaction_id_is_rejected() {
    let transaction_id = [7; 12];
    let mut packet = success_response_for(transaction_id);
    packet[19] ^= 0x01;
    assert!(validate_stun_binding_response(&packet, &transaction_id).is_err());
}

#[test]
fn truncated_stun_attributes_are_rejected() {
    let transaction_id = [7; 12];
    let mut packet = success_response_for(transaction_id);
    packet[2..4].copy_from_slice(&16u16.to_be_bytes());
    packet.truncate(30);
    assert!(validate_stun_binding_response(&packet, &transaction_id).is_err());
}

/// A probe of one address whose every request is answered like this.
fn probed(respond: impl Fn([u8; 12]) -> Option<Vec<u8>>) -> StunProbeStatus {
    let config = StunProbeConfig {
        attempts: 3,
        recv_timeout_ms: 100,
        send_timeout_ms: 100,
        total_timeout_ms: 450,
    };
    let mut probe = StunProbe::new();
    let mut words = 1u32;
    while let Some(target) = probe.next_target(&config, 1, words < 40) {
        assert_eq!(target, 0);
        let transaction_id = random_transaction_id([words, words + 1, words + 2]);
        words += 3;
        let request = stun_binding_request(transaction_id);
        let mut asked = [0u8; 12];
        asked.copy_from_slice(&request[8..20]);
        let attempt = match respond(asked) {
            Some(packet) => {
                Attempt::Answered(validate_stun_binding_response(&packet, &transaction_id))
            }
            None => Attempt::NoAnswer,
        };
        probe.record(attempt);
    }
    probe.probe_stun_ipv4_endpoints(1)
}

#[test]
fn stun_probe_accepts_a_valid_binding_response() {
    assert_eq!(
        probed(|id| Some(success_response_for(id))),
        StunProbeStatus::Pass
    );
}

#[test]
fn stun_probe_rejects_malformed_binding_response_type() {
    let status = probed(|id| {
        let mut packet = success_response_for(id);
        packet[1] = 0x02;
        Some(packet)
    });
    assert_eq!(status, StunProbeStatus::InvalidResponse);
}

#[test]
fn stun_probe_rejects_mismatched_binding_transaction_id() {
    let status = probed(|id| {
        let mut packet = success_response_for(id);
        packet[19] ^= 0x01;
        Some(packet)
    });
    assert_eq!(status, StunProbeStatus::InvalidResponse);
}

#[test]
fn stun_probe_rejects_truncated_binding_attributes() {
    let status = probed(|id| {
        let mut packet = success_response_for(id);
        packet[2..4].copy_from_slice(&16u16.to_be_bytes());
        packet.truncate(30);
        Some(packet)
    });
    assert_eq!(status, StunProbeStatus::InvalidResponse);
}

#[test]
fn stun_probe_times_out_without_a_response() {
    assert_eq!(probed(|_| None), StunProbeStatus::Timeout);
}

#[test]
fn each_flaw_of_a_response_has_its_error() {
    let id = [9; 12];
    let checked = |packet: &[u8]| validate_stun_binding_response(packet, &id).unwrap_err();
    let good = success_response_for(id);
    assert_eq!(checked(&good[..19]), StunValidationError::TooShort);
    let mut packet = good.clone();
    packet[0] = 0;
    assert_eq!(checked(&packet), StunValidationError::WrongType);
    let mut packet = good.clone();
    packet[3] = 13;
    assert_eq!(checked(&packet), StunValidationError::Truncated);
    let mut packet = good.clone();
    packet[4] ^= 1;
    assert_eq!(checked(&packet), StunValidationError::WrongCookie);
    let mut packet = good.clone();
    packet[8] ^= 1;
    assert_eq!(checked(&packet), StunValidationError::TransactionMismatch);
    let mut packet = good.clone();
    packet.truncate(20);
    packet[3] = 0;
    assert_eq!(checked(&packet), StunValidationError::MissingMappedAddress);
}

#[test]
fn a_binding_request_has_a_header_and_nothing_else() {
    let request = stun_binding_request([5; 12]);
    assert_eq!(request[..4], [0, 1, 0, 0]);
    assert_eq!(request[4..8], MAGIC_COOKIE.to_be_bytes());
    assert_eq!(request[8..], [5; 12]);
}

#[test]
fn stun_endpoints_have_a_host_and_a_port() {
    assert_eq!(
        parse_stun_endpoint("stun://stun.l.google.com:19302"),
        Some(("stun.l.google.com".to_string(), 19302))
    );
    assert_eq!(parse_stun_endpoint("stun://host:port"), None);
}

#[test]
fn a_failed_lookup_and_a_refused_socket_are_told_apart() {
    assert_eq!(probe_stun_ipv4(None), Some(StunProbeStatus::DnsTimeout));
    assert_eq!(
        probe_stun_ipv4(Some(Err(()))),
        Some(StunProbeStatus::DnsFailed)
    );
    assert_eq!(
        probe_stun_ipv4(Some(Ok(0))),
        Some(StunProbeStatus::NoIpv4Address)
    );
    assert_eq!(probe_stun_ipv4(Some(Ok(2))), None);
    let mut probe = StunProbe::new();
    probe.record(Attempt::SocketFailed);
    assert_eq!(
        probe.probe_stun_ipv4_endpoints(1),
        StunProbeStatus::SocketFailure
    );
    assert_eq!(receive_budget_ns(0, 5), None);
    assert_eq!(receive_budget_ns(3, 5), Some(3));
    assert_eq!(receive_budget_ns(9, 5), Some(5));
}

#[test]
fn signalling_check_passes_on_local_websocket_handshake() {
    assert_eq!(
        signalling_check(Handshake::Succeeded).status,
        CheckStatus::Pass
    );
}

#[test]
fn a_completely_missing_decoder_runtime_still_produces_actionable_output() {
    let result = decoder_result(&decoder_probe(&names(&[])));
    assert_eq!(result.status, CheckStatus::Fail);
    assert!(result.detail.contains("d3d11videosink"));
    assert!(result.detail.contains("Repair/update Orange"));
    assert!(result.detail.len() <= 240);
}

#[test]
fn signalling_check_fails_on_local_http_upgrade_rejection() {
    let check = signalling_check(Handshake::Failed);
    assert_eq!(check.status, CheckStatus::Fail);
    assert!(check.detail.contains("handshake failed"));
}

#[test]
fn signalling_check_times_out_on_unresponsive_server() {
    let check = signalling_check(Handshake::TimedOut);
    assert_eq!(check.status, CheckStatus::Fail);
    assert!(check.detail.contains("timed out"));
}

#[test]
fn a_ready_machine_passes_every_check() {
    let installed = installed_but(&[]);
    let report = collect(
        true,
        &installed,
        Some((Codec::H265, "mfh265enc")),
        Handshake::Succeeded,
        Some(StunProbeStatus::Pass),
    );
    assert_eq!(report.schema, 1);
    for check in &report.checks {
        assert_eq!(check.status, CheckStatus::Pass, "{}", check.id);
        assert!(check.detail.len() <= 240);
    }
    assert_eq!(decoder_check(true, &installed).status, CheckStatus::Pass);
    assert_eq!(audio_check(true, &installed).status, CheckStatus::Pass);
    assert_eq!(
        encoder_check(true, None, &installed).status,
        CheckStatus::Fail
    );
    assert_eq!(
        stun_check(Some(StunProbeStatus::Timeout)).status,
        CheckStatus::Inconclusive
    );
}

#[test]
fn a_broken_runtime_skips_the_media_checks() {
    let report = collect(
        false,
        &names(&[]),
        None,
        Handshake::TimedOut,
        Some(StunProbeStatus::DnsFailed),
    );
    assert!(report
        .checks
        .iter()
        .all(|check| check.status != CheckStatus::Pass));
    assert_eq!(report.checks[5].id, "signalling");
    assert_eq!(report.checks[5].status, CheckStatus::Fail);
    assert_eq!(
        missing_required(&["a", "b"], &names(&["b"])),
        ["a".to_string()]
    );
}

#[test]
fn the_report_is_one_line_of_json() {
    let report = collect(
        false,
        &vec![],
        None,
        Handshake::TimedOut,
        Some(StunProbeStatus::NoIpv4Address),
    );
    let line = run(&report);
    assert!(line.starts_with("{\"schema\":1,\"checks\":[{\"id\":\"runtime\",\"status\":\"fail\","));
    assert!(!line.contains('\n'));
    let value: serde_json::Value = serde_json::from_str(&line).unwrap();
    let checks = value["checks"].as_array().unwrap();
    assert_eq!(checks.len(), 7);
    assert_eq!(checks[1]["status"], "inconclusive");
    assert_eq!(checks[6]["id"], "stun");
    assert_eq!(
        checks[5]["detail"],
        "Signalling WebSocket handshake timed out. Check connection, DNS or VPN, then retry."
    );
}
