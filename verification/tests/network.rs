use orange::addresses::{parse_address, IpAddress, Ipv4};
use orange::network_diagnostics::probe::{
    create_offer_and_set_local, local_description_reply, offer_reply, probe_budget_ms,
    probe_with_stun, CandidateCounts, OfferEvent, OfferExchange, OfferValue, ProbeEvent,
    ProbeOutcome, ProbeReport, ProbeRun, ProbeStage, PromiseReply, WaitResult,
};
use orange::network_diagnostics::{
    candidate_payload_json, classify_address, classify_candidate, route_report_json,
    selected_ice_route, CandidateClass, CandidateFamily, CandidateKind, CandidateScope,
    CandidateTransport, IceAction, IceDirection, IceEventTracker, RouteSample,
    MAX_CANDIDATE_BYTES, MAX_ICE_EVENTS_PER_ROLE,
};

#[test]
fn parser_classifies_mdns_ipv6_and_rejects_malformed() {
    let mdns = classify_candidate(
        "candidate:1 1 udp 2122252543 host-abc.local 5000 typ host generation 0",
    );
    let ipv6 = classify_candidate(
        "a=candidate:2 1 tcp 1518280447 2001:4860::1 9 typ srflx tcptype passive",
    );
    let malformed = classify_candidate("candidate:missing fields");

    assert!(matches!(mdns, CandidateClass::Candidate(_)));
    assert!(matches!(ipv6, CandidateClass::Candidate(_)));
    assert!(matches!(malformed, CandidateClass::Invalid));

    let CandidateClass::Candidate(meta) = mdns else {
        unreachable!();
    };
    assert_eq!(meta.family, CandidateFamily::Mdns);
    assert_eq!(meta.kind, CandidateKind::Host);

    let CandidateClass::Candidate(meta) = ipv6 else {
        unreachable!();
    };
    assert_eq!(meta.family, CandidateFamily::Ipv6);
    assert_eq!(meta.transport, CandidateTransport::Tcp);
    assert_eq!(meta.kind, CandidateKind::Srflx);

    assert!(matches!(
        classify_candidate("candidate:1 nope udp 1 10.0.0.1 5000 typ host"),
        CandidateClass::Invalid
    ));
    assert!(matches!(
        classify_candidate("candidate:1 1 udp 0 10.0.0.1 5000 typ host"),
        CandidateClass::Invalid
    ));
    assert!(matches!(
        classify_candidate("candidate:1 1 udp 1 10.0.0.1 0 typ host"),
        CandidateClass::Invalid
    ));
}

#[test]
fn classifier_marks_special_ranges_as_unknown_or_shared() {
    let cgnat = classify_candidate("candidate:1 1 udp 10 100.64.10.10 5000 typ host");
    let unspecified = classify_candidate("candidate:1 1 udp 10 0.0.0.0 5000 typ host");
    let mapped = classify_candidate("candidate:1 1 udp 10 ::ffff:192.168.1.5 5000 typ host");
    let docs = classify_candidate("candidate:1 1 udp 10 2001:db8::1 5000 typ host");

    let CandidateClass::Candidate(cgnat) = cgnat else {
        panic!("cgnat candidate should parse");
    };
    assert_eq!(cgnat.scope, CandidateScope::Shared);

    let CandidateClass::Candidate(unspecified) = unspecified else {
        panic!("unspecified candidate should parse");
    };
    assert_eq!(unspecified.scope, CandidateScope::Unknown);

    let CandidateClass::Candidate(mapped) = mapped else {
        panic!("mapped candidate should parse");
    };
    assert_eq!(mapped.scope, CandidateScope::Private);

    let CandidateClass::Candidate(docs) = docs else {
        panic!("docs candidate should parse");
    };
    assert_eq!(docs.scope, CandidateScope::Unknown);
}

#[test]
fn emitted_events_never_include_candidate_strings() {
    let mut tracker = IceEventTracker::new("watch");
    let sentinel = "candidate:9 1 udp 1 LEAK-SENTINEL.local 9999 typ host";

    let mut captured = Vec::new();
    for (direction, action) in [
        (IceDirection::Local, IceAction::Gathered),
        (IceDirection::Remote, IceAction::Submitted),
    ] {
        let payload = tracker
            .emit(direction, action, 0, classify_candidate(sentinel))
            .unwrap();
        let mut record = serde_json::Map::new();
        record.insert("event".to_string(), "ice-candidate".into());
        record.insert("role".to_string(), tracker.role.clone().into());
        record.insert(
            "payload".to_string(),
            serde_json::from_str(&candidate_payload_json(&payload)).unwrap(),
        );
        captured.push(serde_json::Value::Object(record));
    }

    let json = serde_json::to_string(&captured).unwrap();
    assert!(!json.contains("LEAK-SENTINEL"));
    assert!(json.contains("\"event\":\"ice-candidate\""));
    assert!(json.contains("\"direction\":\"local\""));
    assert!(json.contains("\"direction\":\"remote\""));
}

fn sample(key: &str) -> RouteSample {
    RouteSample {
        key: key.to_string(),
        id: Some(key.to_string()),
        selected_candidate_pair_id: None,
        local_candidate_id: None,
        remote_candidate_id: None,
        candidate_type: None,
        protocol: None,
        address: None,
        ip: None,
    }
}

fn candidate(key: &str, kind: &str, protocol: &str, address: &str) -> RouteSample {
    RouteSample {
        candidate_type: Some(kind.to_string()),
        protocol: Some(protocol.to_string()),
        address: Some(address.to_string()),
        ..sample(key)
    }
}

fn stats() -> Vec<RouteSample> {
    vec![
        candidate("local-first", "host", "udp", "10.0.0.10"),
        candidate("local-selected", "srflx", "tcp", "198.51.100.10"),
        candidate("remote-first", "host", "udp", "10.0.0.11"),
        candidate("remote-selected", "relay", "udp", "203.0.114.20"),
        RouteSample {
            local_candidate_id: Some("local-selected".to_string()),
            remote_candidate_id: Some("remote-selected".to_string()),
            ..sample("pair-selected")
        },
        RouteSample {
            selected_candidate_pair_id: Some("pair-selected".to_string()),
            ..sample("transport")
        },
    ]
}

#[test]
fn selected_route_uses_selected_pair_ids_not_first_candidates() {
    let route = selected_ice_route(&stats());

    assert!(route.selected);
    let local = route.local.unwrap();
    assert_eq!(local.kind, "srflx");
    assert_eq!(local.transport, "tcp");
    let remote = route.remote.unwrap();
    assert_eq!(remote.kind, "relay");
}

#[test]
fn a_route_without_one_of_its_parts_is_not_selected() {
    for missing in 1..6 {
        if missing == 2 {
            continue;
        }
        let mut samples = stats();
        samples.remove(missing);
        let route = selected_ice_route(&samples);
        assert!(!route.selected, "part {missing}");
        assert!(route.local.is_none() && route.remote.is_none());
        assert_eq!(route_report_json(&route), "{\"selected\":false}");
    }
    let mut unnamed = stats();
    unnamed[5].selected_candidate_pair_id = Some(String::new());
    assert!(!selected_ice_route(&unnamed).selected);
}

#[test]
fn a_later_sample_replaces_an_earlier_one_with_its_id() {
    let mut samples = stats();
    let mut later = candidate("renamed", "prflx", "udp", "10.1.1.1");
    later.id = Some("local-selected".to_string());
    samples.push(later);
    assert_eq!(selected_ice_route(&samples).local.unwrap().kind, "prflx");
    let mut unnamed = candidate("remote-selected", "host", "tcp", "");
    unnamed.id = Some(String::new());
    unnamed.address = None;
    unnamed.ip = Some("127.0.0.1".to_string());
    samples.push(unnamed);
    let remote = selected_ice_route(&samples).remote.unwrap();
    assert_eq!((remote.kind, remote.scope), ("host", "loopback"));
}

#[test]
fn limiter_does_not_wrap_after_u16_overflow_point() {
    let mut tracker = IceEventTracker::new("overflow-test");
    let class = classify_candidate("candidate:1 1 udp 1 10.0.0.1 5000 typ host");

    let mut captured = 0usize;
    for _ in 0..70_000 {
        if tracker
            .emit(IceDirection::Local, IceAction::Gathered, 0, class)
            .is_some()
        {
            captured += 1;
        }
    }

    assert_eq!(captured, usize::from(MAX_ICE_EVENTS_PER_ROLE));
    assert_eq!(tracker.dropped, 70_000 - 512);
}

#[test]
fn the_end_of_candidates_is_told_in_any_case() {
    for text in [
        "",
        "   ",
        "end-of-candidates",
        "A=End-Of-Candidates",
        " a=end-of-candidates\n",
    ] {
        assert_eq!(classify_candidate(text), CandidateClass::EndOfCandidates);
    }
    assert_eq!(classify_candidate("hello"), CandidateClass::Invalid);
    let long = format!("candidate:{}", "x".repeat(MAX_CANDIDATE_BYTES));
    assert_eq!(classify_candidate(&long), CandidateClass::Invalid);
    assert_eq!(
        classify_candidate("candidate:1 1 udp 1 10.0.0.1 5000 type host"),
        CandidateClass::Invalid
    );
    assert_eq!(
        classify_candidate("candidate:1 1 udp 1 10.0.0.1 65536 typ host"),
        CandidateClass::Invalid
    );
}

#[test]
fn addresses_have_their_family_and_scope() {
    for (text, family, scope) in [
        ("10.1.2.3", CandidateFamily::Ipv4, CandidateScope::Private),
        ("172.16.0.1", CandidateFamily::Ipv4, CandidateScope::Private),
        ("172.32.0.1", CandidateFamily::Ipv4, CandidateScope::Public),
        ("192.168.0.1", CandidateFamily::Ipv4, CandidateScope::Private),
        ("169.254.9.9", CandidateFamily::Ipv4, CandidateScope::LinkLocal),
        ("127.0.0.1", CandidateFamily::Ipv4, CandidateScope::Loopback),
        ("8.8.8.8", CandidateFamily::Ipv4, CandidateScope::Public),
        ("100.127.0.1", CandidateFamily::Ipv4, CandidateScope::Shared),
        ("100.128.0.1", CandidateFamily::Ipv4, CandidateScope::Public),
        ("198.18.0.1", CandidateFamily::Ipv4, CandidateScope::Unknown),
        ("203.0.113.9", CandidateFamily::Ipv4, CandidateScope::Unknown),
        ("224.0.0.1", CandidateFamily::Ipv4, CandidateScope::Unknown),
        ("240.0.0.1", CandidateFamily::Ipv4, CandidateScope::Unknown),
        ("[::1]", CandidateFamily::Ipv6, CandidateScope::Loopback),
        ("::", CandidateFamily::Ipv6, CandidateScope::Unknown),
        ("fe80::1", CandidateFamily::Ipv6, CandidateScope::LinkLocal),
        ("fec0::1", CandidateFamily::Ipv6, CandidateScope::Public),
        ("fd00::1", CandidateFamily::Ipv6, CandidateScope::Private),
        ("ff02::1", CandidateFamily::Ipv6, CandidateScope::Unknown),
        ("::ffff:8.8.8.8", CandidateFamily::Ipv6, CandidateScope::Public),
        ("Printer.LOCAL", CandidateFamily::Mdns, CandidateScope::Unknown),
        (".local", CandidateFamily::Mdns, CandidateScope::Unknown),
        ("example.org", CandidateFamily::Unknown, CandidateScope::Unknown),
        ("", CandidateFamily::Unknown, CandidateScope::Unknown),
        (" [ ] ", CandidateFamily::Unknown, CandidateScope::Unknown),
    ] {
        assert_eq!(classify_address(text), (family, scope), "{text:?}");
    }
}

fn parsed(text: &str) -> Option<IpAddress> {
    parse_address(&text.chars().collect())
}

#[test]
fn ipv4_texts_are_four_plain_octets() {
    assert_eq!(
        parsed("1.20.255.0"),
        Some(IpAddress::V4(Ipv4 {
            a: 1,
            b: 20,
            c: 255,
            d: 0
        }))
    );
    for text in [
        "1.2.3",
        "1.2.3.4.5",
        "256.1.1.1",
        "01.2.3.4",
        "00.2.3.4",
        "1..2.3",
        "1.2.3.",
        " 1.2.3.4",
        "1.2.3.4 ",
        "+1.2.3.4",
        "1.2.3.1000",
        "a.b.c.d",
    ] {
        assert_eq!(parsed(text), None, "{text:?}");
    }
}

#[test]
fn ipv6_texts_have_eight_groups_or_one_gap() {
    for (text, groups) in [
        ("::", [0, 0, 0, 0, 0, 0, 0, 0]),
        ("::1", [0, 0, 0, 0, 0, 0, 0, 1]),
        ("1::", [1, 0, 0, 0, 0, 0, 0, 0]),
        ("1:2:3:4:5:6:7:8", [1, 2, 3, 4, 5, 6, 7, 8]),
        ("1:2:3:4:5:6:7::", [1, 2, 3, 4, 5, 6, 7, 0]),
        ("::2:3:4:5:6:7:8", [0, 2, 3, 4, 5, 6, 7, 8]),
        ("2001:DB8::fFfF", [0x2001, 0xdb8, 0, 0, 0, 0, 0, 0xffff]),
        ("1:2:3:4:5:6:1.2.3.4", [1, 2, 3, 4, 5, 6, 0x102, 0x304]),
        ("::1.2.3.4", [0, 0, 0, 0, 0, 0, 0x102, 0x304]),
        ("1::2:1.2.3.4", [1, 0, 0, 0, 0, 2, 0x102, 0x304]),
    ] {
        assert_eq!(parsed(text), Some(IpAddress::V6(groups.to_vec())), "{text:?}");
    }
    for text in [
        "",
        ":",
        ":::",
        "1:2:3:4:5:6:7",
        "1:2:3:4:5:6:7:8:9",
        "1:2:3:4:5:6:7:8::",
        "1::2::3",
        "1:::2",
        ":1::2",
        "1::2:",
        "12345::",
        "g::",
        "1.2.3.4::",
        "1:1.2.3.4:5:6:7:8",
        "1:2:3:4:5:6:7:1.2.3.4",
        "1:2:3:4:5:6::1.2.3.4",
        "fe80::1%eth0",
        "[::1]",
    ] {
        assert_eq!(parsed(text), None, "{text:?}");
    }
}

#[test]
fn candidates_are_counted_by_what_they_are() {
    let mut counts = CandidateCounts::default();
    for text in [
        "candidate:1 1 udp 1 10.0.0.1 5000 typ host",
        "candidate:1 1 tcp 1 ::1 5000 typ srflx",
        "candidate:1 1 udp 1 x.local 5000 typ relay",
        "candidate:1 1 xyz 1 x.local 5000 typ prflx",
        "candidate:1 1 xyz 1 x.local 5000 typ other",
        "end-of-candidates",
        "nonsense",
    ] {
        counts.add_class(classify_candidate(text));
    }
    assert_eq!((counts.udp, counts.tcp), (2, 1));
    assert_eq!((counts.ipv4, counts.ipv6), (1, 1));
    assert_eq!(
        (counts.host, counts.srflx, counts.prflx, counts.relay),
        (1, 1, 1, 1)
    );
    assert_eq!(counts.invalid, 1);
    assert_eq!(counts.total(), 4);
    let full = CandidateCounts {
        host: u32::MAX,
        srflx: 1,
        ..counts
    };
    assert_eq!(full.total(), u32::MAX);
}

#[test]
fn the_largest_report_fits_its_line() {
    let most = u32::MAX;
    let report = ProbeReport {
        outcome: ProbeOutcome::Complete,
        candidates: CandidateCounts {
            udp: most,
            tcp: most,
            ipv4: most,
            ipv6: most,
            host: most,
            srflx: most,
            prflx: most,
            relay: most,
            invalid: most,
        },
    };
    let detail = report.detail();
    assert!(detail.is_ascii());
    assert!(detail.len() <= 240);
    let small = ProbeReport {
        outcome: ProbeOutcome::TimedOut,
        candidates: CandidateCounts::default(),
    };
    assert_eq!(
        small.detail(),
        "outcome=TimedOut total=0 udp=0 tcp=0 ipv4=0 ipv6=0 host=0 srflx=0"
    );
}

fn run(events: &[ProbeEvent]) -> ProbeRun {
    let mut run = ProbeRun::new();
    for event in events {
        run = probe_with_stun(run, *event);
    }
    run
}

#[test]
fn a_probe_completes_after_offer_and_gathering() {
    let ok = ProbeEvent::Finished(WaitResult::Succeeded);
    let found = ProbeEvent::Candidate(classify_candidate(
        "candidate:1 1 udp 1 10.0.0.1 5000 typ host",
    ));
    let done = run(&[found, ok, ok, ok, ok, found, ok, found, ok, found, ok]);
    assert_eq!(done.stage, ProbeStage::Done);
    assert_eq!(done.report.outcome, ProbeOutcome::Complete);
    assert_eq!(done.report.candidates.host, 2);
}

#[test]
fn a_probe_that_cannot_start_reports_nothing() {
    let ok = ProbeEvent::Finished(WaitResult::Succeeded);
    let failed = ProbeEvent::Finished(WaitResult::Failed);
    for before in 0..3 {
        let mut events = vec![ok; before];
        events.push(failed);
        let done = run(&events);
        assert_eq!(done.stage, ProbeStage::Done);
        assert_eq!(done.report.outcome, ProbeOutcome::Failed);
    }
    let stopped = run(&[ok, ok, ok, failed]);
    assert_eq!(stopped.stage, ProbeStage::Clean);
    let late = run(&[ok, ok, ok, ok, ProbeEvent::Finished(WaitResult::TimedOut)]);
    assert_eq!(late.stage, ProbeStage::Clean);
    assert_eq!(late.report.outcome, ProbeOutcome::TimedOut);
    assert_eq!(probe_budget_ms(0), 5_000);
    assert_eq!(probe_budget_ms(5_001), 0);
}

#[test]
fn replies_to_an_offer_are_judged() {
    let text = |reply: PromiseReply, offer: OfferValue, alive: bool| {
        offer_reply(&reply, offer, alive).err().unwrap_or_default()
    };
    assert_eq!(text(PromiseReply::Answered, OfferValue::Present, true), "");
    assert_eq!(
        text(
            PromiseReply::Failed("Expired".to_string()),
            OfferValue::Present,
            true
        ),
        "offer promise failed: Expired"
    );
    assert_eq!(
        text(PromiseReply::Empty, OfferValue::Present, true),
        "offer promise returned no payload"
    );
    assert_eq!(
        text(
            PromiseReply::Error("bad".to_string()),
            OfferValue::Present,
            true
        ),
        "offer promise error: bad"
    );
    assert_eq!(
        text(PromiseReply::Answered, OfferValue::Missing, true),
        "offer promise did not include an offer"
    );
    assert_eq!(
        text(PromiseReply::Answered, OfferValue::Invalid, true),
        "offer promise returned an invalid offer"
    );
    assert_eq!(
        text(PromiseReply::Answered, OfferValue::Present, false),
        "webrtcbin dropped before set-local-description"
    );
    assert!(local_description_reply(&PromiseReply::Empty).is_ok());
    assert_eq!(
        local_description_reply(&PromiseReply::Error("x".to_string())).unwrap_err(),
        "set-local promise error: x"
    );
    assert_eq!(
        local_description_reply(&PromiseReply::Failed("y".to_string())).unwrap_err(),
        "set-local promise failed: y"
    );
}

#[test]
fn the_first_result_of_an_offer_stands() {
    let mut exchange = OfferExchange::AwaitingOffer;
    for event in [
        OfferEvent::Offered(true),
        OfferEvent::Installed(true),
        OfferEvent::ChannelClosed,
        OfferEvent::Installed(false),
    ] {
        exchange = create_offer_and_set_local(exchange, event);
    }
    assert_eq!(exchange, OfferExchange::Succeeded);
    assert_eq!(
        create_offer_and_set_local(OfferExchange::AwaitingLocal, OfferEvent::ChannelClosed),
        OfferExchange::Failed
    );
}

#[test]
fn the_runtime_event_tells_the_version() {
    let tracker = IceEventTracker::new("host");
    assert_eq!(
        tracker.emit_runtime_once(1, 26, 3, 0),
        "{\"gst_major\":1,\"gst_micro\":3,\"gst_minor\":26,\"gst_nano\":0}"
    );
}
