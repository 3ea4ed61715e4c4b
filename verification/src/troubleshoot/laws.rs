//! What the readiness checks say of a machine.

use vstd::prelude::*;
use vstd::string::*;

use super::stun::{self, Attempt, StunProbe, StunProbeConfig, StunValidationError};
use super::{
    AudioProbe, CheckResult, DecoderProbe, Handshake, StunProbeStatus, TroubleshootReport,
};
use crate::json;
use crate::pipeline::{self, Codec};
use crate::text_ops;
use crate::troubleshoot;

verus! {

proof fn lemma_listed(list: Seq<Seq<char>>, name: Seq<char>)
    requires
        list.contains(name),
    ensures
        text_ops::mentions(text_ops::joined(list, ","@), name),
    decreases list.len(),
{
    let all = text_ops::joined(list, ","@);
    let i = choose|i: int| 0 <= i < list.len() && list[i] == name;
    if list.len() == 1 {
        assert(all.subrange(0, 0int + name.len()) =~= name);
    } else if i == list.len() - 1 {
        let at = all.len() - name.len();
        assert(all.subrange(at, at + name.len()) =~= name);
    } else {
        let rest = list.drop_last();
        assert(rest[i] == name);
        lemma_listed(rest, name);
        let before = text_ops::joined(rest, ","@);
        text_ops::part_is_mentioned(Seq::empty(), before, ","@ + list.last(), name);
        assert(Seq::<char>::empty() + before + (","@ + list.last()) =~= all);
    }
}

proof fn lemma_named(kind: Seq<char>, missing: Seq<Seq<char>>, name: Seq<char>)
    requires
        missing.contains(name),
    ensures
        text_ops::mentions(troubleshoot::missing_text(kind, missing), name),
{
    lemma_listed(missing, name);
    text_ops::part_is_mentioned(
        kind,
        text_ops::joined(missing, ","@),
        ". Repair or update Orange, then retry."@,
        name,
    );
}

/// The elements that every connection needs.
pub open spec fn transport_names() -> Seq<Seq<char>> {
    seq!["webrtcbin"@, "nicesrc"@, "nicesink"@, "dtlssrtpenc"@, "dtlssrtpdec"@, "rtpbin"@]
}

/// The runtime passes exactly where it starts and every transport element is
/// there, and fails otherwise; an element that is missing is named.
pub proof fn runtime_needs_every_transport_element(
    init_ok: bool,
    installed: Vec<String>,
    name: Seq<char>,
    result: CheckResult,
)
    requires
        call_ensures(troubleshoot::runtime_check, (init_ok, &installed), result),
    ensures
        result.id@ == "runtime"@,
        result.status is Pass <==> init_ok && text_ops::all_there(
            transport_names(),
            text_ops::texts(installed@),
        ),
        result.status !is Inconclusive,
        init_ok && transport_names().contains(name) && !text_ops::texts(installed@).contains(name)
            ==> text_ops::mentions(result.detail@, name),
{
    let there = text_ops::texts(installed@);
    assert(troubleshoot::runtime_factories() =~= transport_names());
    text_ops::absent_is_what_is_not_there(transport_names(), there);
    let missing = text_ops::absent(transport_names(), there);
    if missing.contains(name) {
        lemma_named("Missing runtime factories: "@, missing, name);
    }
}

/// Capture needs its source and its converter; what is missing is named, and
/// nothing is said where the runtime is not ready.
pub proof fn capture_needs_both_elements(
    ready: bool,
    installed: Vec<String>,
    result: CheckResult,
)
    requires
        call_ensures(troubleshoot::capture_check, (ready, &installed), result),
    ensures
        ({
            let there = text_ops::texts(installed@);
            let source = there.contains("d3d11screencapturesrc"@);
            let converter = there.contains("d3d11convert"@);
            &&& result.id@ == "capture"@
            &&& !ready <==> result.status is Inconclusive
            &&& ready && source && converter <==> result.status is Pass
            &&& ready && !source ==> text_ops::mentions(
                result.detail@,
                "d3d11screencapturesrc"@,
            )
            &&& ready && !converter ==> text_ops::mentions(result.detail@, "d3d11convert"@)
        }),
{
    let there = text_ops::texts(installed@);
    let names = seq!["d3d11screencapturesrc"@, "d3d11convert"@];
    assert(troubleshoot::capture_factories() =~= names);
    text_ops::absent_is_what_is_not_there(names, there);
    let missing = text_ops::absent(names, there);
    assert(names[0] == "d3d11screencapturesrc"@ && names[1] == "d3d11convert"@);
    assert(names.contains("d3d11screencapturesrc"@) && names.contains("d3d11convert"@));
    if !there.contains("d3d11screencapturesrc"@) {
        lemma_named("Missing capture factories: "@, missing, "d3d11screencapturesrc"@);
    }
    if !there.contains("d3d11convert"@) {
        lemma_named("Missing capture factories: "@, missing, "d3d11convert"@);
    }
    if there.contains("d3d11screencapturesrc"@) && there.contains("d3d11convert"@) {
        assert(text_ops::all_there(names, there));
    }
}

/// Encoding needs an encoder that works, and with it the parser and the
/// payloader of its codec; the detail names the codec and the encoder.
pub proof fn encoding_needs_encoder_parser_and_payloader(
    ready: bool,
    codec: Codec,
    encoder: &str,
    installed: Vec<String>,
    result: CheckResult,
    without: CheckResult,
)
    requires
        call_ensures(
            troubleshoot::encoder_check,
            (ready, Some((codec, encoder)), &installed),
            result,
        ),
        call_ensures(
            troubleshoot::encoder_check,
            (ready, None::<(Codec, &str)>, &installed),
            without,
        ),
    ensures
        ({
            let there = text_ops::texts(installed@);
            let whole = there.contains(encoder@) && there.contains(pipeline::parser_text(codec))
                && there.contains(pipeline::payloader_text(codec));
            &&& result.id@ == "encoder"@
            &&& !ready <==> result.status is Inconclusive
            &&& ready && whole <==> result.status is Pass
            &&& ready ==> text_ops::mentions(
                result.detail@,
                pipeline::codec_text(codec) + " via "@ + encoder@,
            )
            &&& ready <==> without.status is Fail
            &&& !ready <==> without.status is Inconclusive
        }),
{
    let there = text_ops::texts(installed@);
    let names = seq![encoder@, pipeline::parser_text(codec), pipeline::payloader_text(codec)];
    text_ops::absent_is_what_is_not_there(names, there);
    assert(names[0] == encoder@ && names[1] == pipeline::parser_text(codec) && names[2]
        == pipeline::payloader_text(codec));
    if there.contains(encoder@) && there.contains(pipeline::parser_text(codec)) && there.contains(
        pipeline::payloader_text(codec),
    ) {
        assert(text_ops::all_there(names, there));
    }
    let told = pipeline::codec_text(codec) + " via "@ + encoder@;
    let text = result.detail@;
    if ready {
        let first = if result.status is Pass {
            "Auto-selected "@.len() as int
        } else {
            "Selected "@.len() as int
        };
        assert(text.subrange(first, first + told.len()) =~= told);
    }
}

/// The three elements that receive a codec's video, by its name in theirs.
pub open spec fn receives_h265(there: Seq<Seq<char>>) -> bool {
    there.contains("rtph265depay"@) && there.contains("h265parse"@) && there.contains(
        "d3d11h265dec"@,
    )
}

pub open spec fn receives_h264(there: Seq<Seq<char>>) -> bool {
    there.contains("rtph264depay"@) && there.contains("h264parse"@) && there.contains(
        "d3d11h264dec"@,
    )
}

pub open spec fn presents(there: Seq<Seq<char>>) -> bool {
    there.contains("overlaycomposition"@) && there.contains("d3d11videosink"@)
}

proof fn lemma_receives(there: Seq<Seq<char>>)
    ensures
        text_ops::absent(troubleshoot::h265_decode_factories(), there).len() == 0 <==> receives_h265(
            there,
        ),
        text_ops::absent(troubleshoot::h264_decode_factories(), there).len() == 0 <==> receives_h264(
            there,
        ),
        text_ops::absent(troubleshoot::presentation_factories(), there).len() == 0 <==> presents(
            there,
        ),
{
    let h265 = troubleshoot::h265_decode_factories();
    let h264 = troubleshoot::h264_decode_factories();
    let shown = troubleshoot::presentation_factories();
    text_ops::absent_is_what_is_not_there(h265, there);
    text_ops::absent_is_what_is_not_there(h264, there);
    text_ops::absent_is_what_is_not_there(shown, there);
    assert(h265[0] == "rtph265depay"@ && h265[1] == "h265parse"@ && h265[2] == "d3d11h265dec"@);
    assert(h264[0] == "rtph264depay"@ && h264[1] == "h264parse"@ && h264[2] == "d3d11h264dec"@);
    assert(shown[0] == "overlaycomposition"@ && shown[1] == "d3d11videosink"@);
    assert(receives_h265(there) ==> text_ops::all_there(h265, there));
    assert(receives_h264(there) ==> text_ops::all_there(h264, there));
    assert(presents(there) ==> text_ops::all_there(shown, there));
}

/// Receiving passes where both codecs and the presentation are complete, fails
/// where neither codec is, and is open between.
pub proof fn receiving_goes_by_both_codecs(
    ready: bool,
    installed: Vec<String>,
    result: CheckResult,
)
    requires
        call_ensures(troubleshoot::decoder_check, (ready, &installed), result),
    ensures
        ({
            let there = text_ops::texts(installed@);
            &&& result.id@ == "decoder"@
            &&& !ready ==> result.status is Inconclusive
            &&& ready && receives_h265(there) && receives_h264(there) && presents(there)
                <==> result.status is Pass
            &&& ready && !receives_h265(there) && !receives_h264(there) <==> result.status is Fail
        }),
{
    let there = text_ops::texts(installed@);
    if ready {
        let probe = choose|probe: DecoderProbe| #[trigger]
            probe.probes(there) && troubleshoot::decoder_told(result, probe);
        lemma_receives(there);
        assert(text_ops::texts(probe.h265_missing@).len() == probe.h265_missing@.len());
        assert(text_ops::texts(probe.h264_missing@).len() == probe.h264_missing@.len());
        assert(text_ops::texts(probe.presentation_missing@).len()
            == probe.presentation_missing@.len());
    }
}

/// Each element that is missing for receiving is named in the detail.
pub proof fn missing_decoder_is_named(probe: DecoderProbe, result: CheckResult, name: Seq<char>)
    requires
        call_ensures(troubleshoot::decoder_result, (&probe,), result),
        text_ops::texts(probe.h265_missing@).contains(name) || text_ops::texts(
            probe.h264_missing@,
        ).contains(name) || text_ops::texts(probe.presentation_missing@).contains(name),
    ensures
        result.status !is Pass,
        text_ops::mentions(result.detail@, name),
{
    let h265 = text_ops::texts(probe.h265_missing@);
    let h264 = text_ops::texts(probe.h264_missing@);
    let shown = text_ops::texts(probe.presentation_missing@);
    let all = probe.all_missing();
    if h265.contains(name) {
        let i = choose|i: int| 0 <= i < h265.len() && h265[i] == name;
        assert(all[i] == name);
    } else if h264.contains(name) {
        let i = choose|i: int| 0 <= i < h264.len() && h264[i] == name;
        assert(all[h265.len() + i] == name);
    } else {
        let i = choose|i: int| 0 <= i < shown.len() && shown[i] == name;
        assert(all[h265.len() + h264.len() + i] == name);
    }
    text_ops::sorted_once_is_ascending(all);
    let sorted = text_ops::sorted_once(all);
    assert(sorted.contains(name));
    lemma_listed(sorted, name);
    let ready265 = troubleshoot::ready_text(probe.h265_missing@.len() == 0);
    let ready264 = troubleshoot::ready_text(probe.h264_missing@.len() == 0);
    let ready_shown = troubleshoot::ready_text(probe.presentation_missing@.len() == 0);
    text_ops::part_is_mentioned(
        "H265:"@ + ready265 + " H264:"@ + ready264 + " Render:"@ + ready_shown + "; missing "@,
        text_ops::joined(sorted, ","@),
        ". Repair/update Orange; update GPU drivers or try another PC for codec support."@,
        name,
    );
}

/// The elements that send and receive sound, but for the sink.
pub open spec fn sound_names() -> Seq<Seq<char>> {
    seq![
        "wasapi2src"@,
        "audioconvert"@,
        "audioresample"@,
        "opusenc"@,
        "rtpopuspay"@,
        "rtpopusdepay"@,
        "opusdec"@,
        "volume"@,
    ]
}

/// Sound needs every one of its elements and one of the two sinks.
pub proof fn sound_needs_one_of_two_sinks(ready: bool, installed: Vec<String>, result: CheckResult)
    requires
        call_ensures(troubleshoot::audio_check, (ready, &installed), result),
    ensures
        ({
            let there = text_ops::texts(installed@);
            &&& result.id@ == "audio"@
            &&& !ready <==> result.status is Inconclusive
            &&& ready && text_ops::all_there(sound_names(), there) && (there.contains("wasapi2sink"@)
                || there.contains("wasapisink"@)) <==> result.status is Pass
        }),
{
    let there = text_ops::texts(installed@);
    if ready {
        let probe = choose|probe: AudioProbe| #[trigger]
            probe.probes(there) && troubleshoot::audio_told(result, probe);
        let host = troubleshoot::host_audio_factories();
        let receive = troubleshoot::receive_audio_factories();
        text_ops::absent_is_what_is_not_there(host, there);
        text_ops::absent_is_what_is_not_there(receive, there);
        assert(host + receive =~= sound_names());
        assert(text_ops::texts(probe.host_missing@).len() == probe.host_missing@.len());
        assert(text_ops::texts(probe.receive_missing@).len() == probe.receive_missing@.len());
        if text_ops::all_there(host, there) && text_ops::all_there(receive, there) {
            assert forall|i: int| 0 <= i < sound_names().len() implies there.contains(
                #[trigger] sound_names()[i],
            ) by {
                if i < 5 {
                    assert(host[i] == sound_names()[i]);
                } else {
                    assert(receive[i - 5] == sound_names()[i]);
                }
            }
        }
        if text_ops::all_there(sound_names(), there) {
            assert forall|i: int| 0 <= i < host.len() implies there.contains(
                #[trigger] host[i],
            ) by {
                assert(host[i] == sound_names()[i]);
            }
            assert forall|i: int| 0 <= i < receive.len() implies there.contains(
                #[trigger] receive[i],
            ) by {
                assert(receive[i] == sound_names()[i + 5]);
            }
        }
    }
}

/// The relay's check passes exactly where the handshake succeeded; the two
/// failures are told apart.
pub proof fn handshake_decides(handshake: Handshake, result: CheckResult)
    requires
        call_ensures(troubleshoot::signalling_check, (handshake,), result),
    ensures
        result.id@ == "signalling"@,
        result.status is Pass <==> handshake is Succeeded,
        result.status is Fail <==> handshake is Failed || handshake is TimedOut,
        handshake is TimedOut ==> text_ops::mentions(result.detail@, "timed out"@),
        handshake is Failed ==> text_ops::mentions(result.detail@, "handshake failed"@),
{
    reveal_strlit("timed out");
    reveal_strlit("handshake failed");
    reveal_strlit(
        "Signalling WebSocket handshake timed out. Check connection, DNS or VPN, then retry.",
    );
    reveal_strlit(
        "Signalling WebSocket handshake failed. Check server URL, connection, DNS or VPN, then retry.",
    );
    let text = result.detail@;
    if handshake is TimedOut {
        assert(text.subrange(31, 31int + 9) =~= "timed out"@);
    }
    if handshake is Failed {
        assert(text.subrange(21, 21int + 16) =~= "handshake failed"@);
    }
}

/// Of the outcomes of the STUN probe only one passes; silence and a server
/// without a usable address leave it open, and all others fail.
pub proof fn stun_outcome_decides(status: Option<StunProbeStatus>, result: CheckResult)
    requires
        call_ensures(troubleshoot::stun_check, (status,), result),
    ensures
        result.id@ == "stun"@,
        result.status is Pass <==> status == Some(StunProbeStatus::Pass),
        result.status is Inconclusive <==> status == Some(StunProbeStatus::NoIpv4Address) || status
            == Some(StunProbeStatus::Timeout),
{
}

/// No two outcomes of the STUN probe are told in the same words.
pub proof fn stun_outcomes_are_told_apart(
    a: Option<StunProbeStatus>,
    b: Option<StunProbeStatus>,
)
    requires
        a != b,
    ensures
        troubleshoot::stun_text(a).1 != troubleshoot::stun_text(b).1,
{
    lemma_stun_mark(a);
    lemma_stun_mark(b);
}

spec fn stun_mark(status: Option<StunProbeStatus>) -> (int, char) {
    match status {
        None => (73, 'C'),
        Some(StunProbeStatus::Pass) => (84, 'S'),
        Some(StunProbeStatus::DnsTimeout) => (68, 'I'),
        Some(StunProbeStatus::DnsFailed) => (65, 'I'),
        Some(StunProbeStatus::NoIpv4Address) => (71, 'S'),
        Some(StunProbeStatus::SocketFailure) => (79, 'I'),
        Some(StunProbeStatus::InvalidResponse) => (78, 'I'),
        Some(StunProbeStatus::Timeout) => (86, 'N'),
    }
}

proof fn lemma_stun_mark(status: Option<StunProbeStatus>)
    ensures
        troubleshoot::stun_text(status).1.len() == stun_mark(status).0,
        troubleshoot::stun_text(status).1[0] == stun_mark(status).1,
{
    reveal_strlit("Configured STUN endpoint is invalid. Repair or update Orange, then retry.");
    reveal_strlit(
        "STUN server reachability succeeded over IPv4; friend connectivity is still untested.",
    );
    reveal_strlit("IPv4 STUN DNS timed out. Check DNS, VPN or network path, then retry.");
    reveal_strlit("IPv4 STUN DNS failed. Check DNS, VPN or network path, then retry.");
    reveal_strlit("STUN DNS returned no IPv4 address. Check DNS/network setup, then retry.");
    reveal_strlit(
        "IPv4 STUN UDP socket failed. Check connection, VPN or network path, then retry.",
    );
    reveal_strlit("IPv4 STUN replies were invalid. Retry; if it persists, check VPN/network path.");
    reveal_strlit(
        "No valid IPv4 STUN response before deadline. Check connection, DNS or VPN, then retry.",
    );
}

/// The report holds seven checks in a fixed order. The four of media are open
/// where the runtime did not pass; the two of the network stand for themselves.
pub proof fn report_has_every_check(
    init_ok: bool,
    installed: Vec<String>,
    selected: Option<(Codec, &str)>,
    handshake: Handshake,
    stun_status: Option<StunProbeStatus>,
    report: TroubleshootReport,
)
    requires
        call_ensures(
            troubleshoot::collect,
            (init_ok, &installed, selected, handshake, stun_status),
            report,
        ),
    ensures
        ({
            let checks = report.checks@;
            &&& report.schema == 1
            &&& checks.len() == 7
            &&& checks[0].id@ == "runtime"@
            &&& checks[1].id@ == "capture"@
            &&& checks[2].id@ == "encoder"@
            &&& checks[3].id@ == "decoder"@
            &&& checks[4].id@ == "audio"@
            &&& checks[5].id@ == "signalling"@
            &&& checks[6].id@ == "stun"@
            &&& checks[0].status is Pass <==> init_ok && text_ops::all_there(
                transport_names(),
                text_ops::texts(installed@),
            )
            &&& checks[0].status !is Pass ==> checks[1].status is Inconclusive
                && checks[2].status is Inconclusive && checks[3].status is Inconclusive
                && checks[4].status is Inconclusive
            &&& checks[0].status is Pass ==> checks[1].status !is Inconclusive
                && checks[2].status !is Inconclusive && checks[4].status !is Inconclusive
            &&& checks[5].status is Pass <==> handshake is Succeeded
            &&& checks[6].status is Pass <==> stun_status == Some(StunProbeStatus::Pass)
        }),
{
    let there = text_ops::texts(installed@);
    assert(troubleshoot::runtime_factories() =~= transport_names());
    text_ops::absent_is_what_is_not_there(transport_names(), there);
    let ready = init_ok && text_ops::absent(troubleshoot::runtime_factories(), there).len() == 0;
    if ready {
        let probe = choose|probe: AudioProbe| #[trigger]
            probe.probes(there) && troubleshoot::audio_told(report.checks@[4], probe);
        assert(report.checks@[4].status !is Inconclusive);
    }
}

/// The printed report tells every check: its name, its outcome and its detail.
pub proof fn printed_report_tells_every_check(report: TroubleshootReport, i: int)
    requires
        0 <= i < report.checks@.len(),
    ensures
        ({
            let check = report.checks@[i];
            let line = troubleshoot::check_json(check);
            &&& text_ops::mentions(troubleshoot::report_json(report), line)
            &&& text_ops::mentions(line, json::named("id"@, json::json_string(check.id@)))
            &&& text_ops::mentions(line, json::named("detail"@, json::json_string(check.detail@)))
            &&& check.status is Pass ==> text_ops::mentions(
                line,
                json::named("status"@, json::json_string("pass"@)),
            )
            &&& check.status is Fail ==> text_ops::mentions(
                line,
                json::named("status"@, json::json_string("fail"@)),
            )
            &&& check.status is Inconclusive ==> text_ops::mentions(
                line,
                json::named("status"@, json::json_string("inconclusive"@)),
            )
        }),
        text_ops::mentions(
            troubleshoot::report_json(report),
            json::named("schema"@, text_ops::decimal(report.schema as nat)),
        ),
{
    reveal_strlit("id");
    reveal_strlit("status");
    reveal_strlit("detail");
    reveal_strlit("schema");
    reveal_strlit("checks");
    let check = report.checks@[i];
    let members = seq![
        ("id"@, json::json_string(check.id@)),
        ("status"@, json::json_string(troubleshoot::status_word(check.status))),
        ("detail"@, json::json_string(check.detail@)),
    ];
    json::object_tells_its_members(members, 0);
    json::object_tells_its_members(members, 1);
    json::object_tells_its_members(members, 2);
    let lines = troubleshoot::check_jsons(report.checks@);
    let list = "["@ + text_ops::joined(lines, ","@) + "]"@;
    let outer = seq![
        ("schema"@, text_ops::decimal(report.schema as nat)),
        ("checks"@, list),
    ];
    json::object_tells_its_members(outer, 0);
    json::object_tells_its_members(outer, 1);
    let line = troubleshoot::check_json(check);
    assert(lines[i] == line);
    lemma_listed(lines, line);
    text_ops::part_is_mentioned("["@, text_ops::joined(lines, ","@), "]"@, line);
    let whole = troubleshoot::report_json(report);
    let named = json::named("checks"@, list);
    let at = choose|at: int|
        0 <= at <= whole.len() - named.len() && #[trigger] whole.subrange(at, at + named.len())
            == named;
    text_ops::part_is_mentioned(seq!['"'] + "checks"@ + seq!['"', ':'], list, Seq::empty(), line);
    assert(seq!['"'] + "checks"@ + seq!['"', ':'] + list + Seq::<char>::empty() =~= named);
    text_ops::part_is_mentioned(whole.take(at), named, whole.skip(at + named.len()), line);
    assert(whole.take(at) + named + whole.skip(at + named.len()) =~= whole);
}

/// A host and a port are read back from their address.
pub proof fn endpoint_is_read_back(host: Seq<char>, port: u16)
    requires
        host.len() > 0,
    ensures
        stun::endpoint_read("stun://"@ + host + ":"@ + text_ops::decimal(port as nat)) == Some(
            (host, port),
        ),
{
    reveal_strlit("stun://");
    reveal_strlit(":");
    let digits = text_ops::decimal(port as nat);
    let rest = host + ":"@ + digits;
    let endpoint = "stun://"@ + host + ":"@ + digits;
    text_ops::decimal_is_read_back(port as nat);
    assert(endpoint.take(7) =~= "stun://"@);
    assert(endpoint.skip(7) =~= rest);
    let at = host.len() + 1;
    assert forall|i: int| at <= i < rest.len() implies #[trigger] rest[i] != ':' by {
        assert(rest[i] == digits[i - at]);
        assert(text_ops::digit(digits[i - at]));
    }
    assert(rest[at - 1] == ':');
    lemma_last_colon(rest, at as int);
    assert(rest.skip(at as int) =~= digits);
    assert(rest.take(at - 1) =~= host);
    assert(text_ops::unsigned(digits, u16::MAX as nat) == Some(port as nat));
}

proof fn lemma_last_colon(text: Seq<char>, at: int)
    requires
        0 < at <= text.len(),
        text[at - 1] == ':',
        forall|i: int| at <= i < text.len() ==> #[trigger] text[i] != ':',
    ensures
        stun::behind_last_colon(text) == at,
    decreases text.len(),
{
    if text.len() > at {
        assert(text[text.len() - 1] != ':');
        lemma_last_colon(text.drop_last(), at);
    }
}

/// An address without the scheme, the host or the port is not one.
pub proof fn endpoint_needs_scheme_host_and_port(host: Seq<char>, text: Seq<char>)
    ensures
        !text_ops::begins_with(text, "stun://"@) ==> stun::endpoint_read(text) is None,
        (forall|i: int| 0 <= i < host.len() ==> #[trigger] host[i] != ':') ==> stun::endpoint_read(
            "stun://"@ + host,
        ) is None,
        stun::endpoint_read("stun://"@ + ":"@ + text_ops::decimal(3478)) is None,
        stun::endpoint_read("stun://"@ + host + ":"@) is None,
{
    reveal_strlit("stun://");
    reveal_strlit(":");
    if forall|i: int| 0 <= i < host.len() ==> #[trigger] host[i] != ':' {
        lemma_no_colon(host);
        assert(("stun://"@ + host).skip(7) =~= host);
    }
    let digits = text_ops::decimal(3478);
    text_ops::decimal_is_read_back(3478);
    let rest = ":"@ + digits;
    assert(("stun://"@ + ":"@ + digits).skip(7) =~= rest);
    assert forall|i: int| 1 <= i < rest.len() implies #[trigger] rest[i] != ':' by {
        assert(rest[i] == digits[i - 1]);
        assert(text_ops::digit(digits[i - 1]));
    }
    lemma_last_colon(rest, 1);
    let open = host + ":"@;
    assert(("stun://"@ + host + ":"@).skip(7) =~= open);
    assert(open.last() == ':');
    let nothing = open.skip(open.len() as int);
    assert(nothing =~= Seq::empty());
    assert(text_ops::unsigned(nothing, u16::MAX as nat) is None);
}

proof fn lemma_no_colon(text: Seq<char>)
    requires
        forall|i: int| 0 <= i < text.len() ==> #[trigger] text[i] != ':',
    ensures
        stun::behind_last_colon(text) == 0,
    decreases text.len(),
{
    if text.len() > 0 {
        assert(text[text.len() - 1] != ':');
        lemma_no_colon(text.drop_last());
    }
}

/// A request is a binding request without attributes; it carries the cookie
/// that a response has to bring back, and the transaction.
pub proof fn request_carries_the_transaction(id: [u8; 12], packet: [u8; 20])
    requires
        call_ensures(stun::stun_binding_request, (id,), packet),
    ensures
        stun::be16(packet@, 0) == 1,
        stun::be16(packet@, 2) == 0,
        stun::be32(packet@, 4) == 0x2112_A442,
        packet@.subrange(8, 20) == id@,
{
    assert(packet@.subrange(8, 20) =~= id@);
}

/// No two draws of three words give the same transaction.
pub proof fn transactions_differ_where_the_words_do(words: [u32; 3], id: [u8; 12])
    requires
        call_ensures(stun::random_transaction_id, (words,), id),
    ensures
        stun::be32(id@, 0) == words[0],
        stun::be32(id@, 4) == words[1],
        stun::be32(id@, 8) == words[2],
{
    lemma_word(words[0]);
    lemma_word(words[1]);
    lemma_word(words[2]);
    let a = stun::word_bytes(words[0]);
    let b = stun::word_bytes(words[1]);
    let c = stun::word_bytes(words[2]);
    assert(id@[0] == a[0] && id@[1] == a[1] && id@[2] == a[2] && id@[3] == a[3]);
    assert(id@[4] == b[0] && id@[5] == b[1] && id@[6] == b[2] && id@[7] == b[3]);
    assert(id@[8] == c[0] && id@[9] == c[1] && id@[10] == c[2] && id@[11] == c[3]);
}

proof fn lemma_word(word: u32)
    ensures
        stun::be32(stun::word_bytes(word), 0) == word,
{
    let n = word as int;
    assert(word / 16777216 < 256);
    assert(n == n / 256 * 256 + n % 256);
    assert(n / 256 == n / 65536 * 256 + n / 256 % 256);
    assert(n / 65536 == n / 16777216 * 256 + n / 65536 % 256);
}

/// A response that is accepted is long enough, says so in its type, brings the
/// cookie and the transaction back, and holds all that its length promises.
pub proof fn accepted_response_meets_every_demand(packet: Seq<u8>, id: Seq<u8>)
    requires
        stun::response_judged(packet, id) is Ok,
    ensures
        packet.len() >= 20,
        packet[0] == 1 && packet[1] == 1,
        packet[4] == 0x21 && packet[5] == 0x12 && packet[6] == 0xA4 && packet[7] == 0x42,
        packet.subrange(8, 20) == id,
        20 + packet[2] * 256 + packet[3] <= packet.len(),
        20 < 20 + packet[2] * 256 + packet[3],
{
}

/// An attribute of another kind is passed over, and one that maps an IPv4
/// address, plainly or masked, is enough, wherever it stands.
pub proof fn mapped_address_may_stand_anywhere(packet: Seq<u8>, at: int, end: int)
    requires
        0 <= at,
        at + 4 <= end <= packet.len(),
        stun::next_attribute(packet, at) <= end,
        stun::attributes_map(packet, stun::next_attribute(packet, at), end) is Some,
    ensures
        ({
            let kind = packet[at] * 256 + packet[at + 1];
            let length = packet[at + 2] * 256 + packet[at + 3];
            let here = stun::attributes_map(packet, at, end);
            let later = stun::attributes_map(packet, stun::next_attribute(packet, at), end);
            &&& kind != 1 && kind != 32 ==> here == later
            &&& length < 8 || packet[at + 5] != 1 ==> here == later
            &&& (kind == 1 || kind == 32) && length >= 8 && packet[at + 5] == 1 ==> here == Some(
                true,
            )
            &&& later == Some(true) ==> here == Some(true)
        }),
{
}

/// Attributes stand at multiples of four bytes, one directly behind the other.
pub proof fn attributes_are_padded_to_four(packet: Seq<u8>, at: int)
    requires
        0 <= at,
        at + 4 <= packet.len(),
        at % 4 == 0,
    ensures
        ({
            let length = packet[at + 2] * 256 + packet[at + 3];
            let next = stun::next_attribute(packet, at);
            &&& next % 4 == 0
            &&& at + 4 + length <= next < at + 4 + length + 4
        }),
{
}

/// Attempts take the addresses in turn, from the first, up to the number of
/// attempts, while there is time and no answer.
pub proof fn addresses_are_taken_in_turn(
    probe: StunProbe,
    config: StunProbeConfig,
    addresses: usize,
    before_deadline: bool,
    target: Option<usize>,
)
    requires
        call_ensures(
            StunProbe::next_target,
            (&probe, &config, addresses, before_deadline),
            target,
        ),
    ensures
        target is Some <==> !probe.stopped && addresses > 0 && probe.attempts_made
            < config.attempts && before_deadline,
        target matches Some(at) ==> at < addresses,
        target is Some && probe.attempts_made < addresses ==> target == Some(probe.attempts_made),
        target is Some && probe.attempts_made == addresses ==> target == Some(0usize),
{
    if addresses > 0 {
        let made = probe.attempts_made as int;
        let count = addresses as int;
        assert(0 <= made % count < count);
        if made < count {
            vstd::arithmetic::div_mod::lemma_small_mod(made as nat, count as nat);
        }
        if made == count {
            vstd::arithmetic::div_mod::lemma_mod_self_0(count);
        }
    }
}

/// What a probe saw of its attempts, in the order of their weight: a valid
/// answer, an answer that is not, a failed socket, and nothing.
pub proof fn weightiest_attempt_decides(
    attempts: Seq<Attempt>,
    addresses: usize,
    status: StunProbeStatus,
)
    requires
        addresses > 0,
        call_ensures(
            StunProbe::probe_stun_ipv4_endpoints,
            (&stun::probe_after(attempts), addresses),
            status,
        ),
    ensures
        ({
            let valid = exists|i: int|
                0 <= i < attempts.len() && (#[trigger] attempts[i]) == Attempt::Answered(Ok(()));
            let invalid = exists|i: int|
                0 <= i < attempts.len() && (#[trigger] attempts[i] is Answered)
                    && attempts[i]->Answered_0 is Err;
            let failed = exists|i: int| 0 <= i < attempts.len() && #[trigger] attempts[i]
                is SocketFailed;
            &&& status is Pass <==> valid
            &&& status is InvalidResponse <==> !valid && invalid
            &&& status is SocketFailure <==> !valid && !invalid && failed
            &&& status is Timeout <==> !valid && !invalid && !failed
        }),
{
    lemma_seen(attempts);
}

proof fn lemma_seen(attempts: Seq<Attempt>)
    ensures
        stun::probe_after(attempts).passed <==> exists|i: int|
            0 <= i < attempts.len() && (#[trigger] attempts[i]) == Attempt::Answered(Ok(())),
        stun::probe_after(attempts).observed_invalid_response <==> exists|i: int|
            0 <= i < attempts.len() && (#[trigger] attempts[i] is Answered)
                && attempts[i]->Answered_0 is Err,
        stun::probe_after(attempts).observed_socket_failure <==> exists|i: int|
            0 <= i < attempts.len() && #[trigger] attempts[i] is SocketFailed,
    decreases attempts.len(),
{
    if attempts.len() > 0 {
        let rest = attempts.drop_last();
        let n = attempts.len() - 1;
        lemma_seen(rest);
        assert(attempts[n] == attempts.last());
        assert forall|i: int| 0 <= i < n implies #[trigger] attempts[i] == rest[i] by {}
        assert forall|i: int| 0 <= i < n implies #[trigger] rest[i] == attempts[i] by {}
        if attempts[n] is Answered && attempts[n]->Answered_0 is Ok {
            assert(attempts[n]->Answered_0->Ok_0 == ());
            assert(attempts[n] == Attempt::Answered(Ok(())));
        }
    }
}

/// A probe stops at a valid answer and where no time is left, and only there.
pub proof fn probe_stops_when_it_is_settled(probe: StunProbe, attempt: Attempt)
    requires
        !probe.stopped,
        !probe.passed,
        probe.attempts_made < 1000,
    ensures
        probe.after(attempt).stopped <==> attempt is NoBudget || (attempt is Answered
            && attempt->Answered_0 is Ok),
        probe.after(attempt).passed <==> attempt is Answered && attempt->Answered_0 is Ok,
        probe.after(attempt).attempts_made == probe.attempts_made + 1,
{
}

/// An attempt waits no longer than it may and no longer than there is time.
pub proof fn waiting_is_bounded(remaining: u64, limit: u64, budget: Option<u64>)
    requires
        call_ensures(stun::receive_budget_ns, (remaining, limit), budget),
    ensures
        budget is Some <==> remaining > 0 && limit > 0,
        budget matches Some(time) ==> time <= remaining && time <= limit && (time == remaining
            || time == limit),
{
}

/// A lookup that fails, or finds nothing, is told as such; one that finds an
/// address leaves the rest to the attempts.
pub proof fn lookup_is_told(lookup: Option<Result<usize, ()>>, status: Option<StunProbeStatus>)
    requires
        call_ensures(stun::probe_stun_ipv4, (lookup,), status),
    ensures
        lookup is None <==> status == Some(StunProbeStatus::DnsTimeout),
        lookup is Some && lookup->0 is Err <==> status == Some(StunProbeStatus::DnsFailed),
        lookup == Some(Ok::<usize, ()>(0usize)) <==> status == Some(
            StunProbeStatus::NoIpv4Address,
        ),
        (lookup is Some && lookup->0 is Ok && lookup->0->Ok_0 > 0) <==> status is None,
{
}

/// The attributes of a response begin directly behind its header of twenty
/// bytes: a response with one attribute that maps an IPv4 address is accepted,
/// one without attributes is not.
pub proof fn attributes_follow_the_header(packet: Seq<u8>, id: Seq<u8>)
    requires
        packet.len() >= 32,
        packet[0] == 1 && packet[1] == 1,
        packet[4] == 0x21 && packet[5] == 0x12 && packet[6] == 0xA4 && packet[7] == 0x42,
        packet.subrange(8, 20) == id,
    ensures
        packet[2] == 0 && packet[3] == 0 ==> stun::response_judged(packet, id) == Err::<
            (),
            StunValidationError,
        >(StunValidationError::MissingMappedAddress),
        packet[2] == 0 && packet[3] == 12 && packet[20] == 0 && (packet[21] == 1 || packet[21]
            == 32) && packet[22] == 0 && packet[23] == 8 && packet[25] == 1
            ==> stun::response_judged(packet, id) is Ok,
{
    reveal_with_fuel(stun::attributes_map, 3);
}

/// A decoder is ready exactly where nothing that it needs is missing.
pub proof fn ready_means_nothing_missing(
    found: DecoderProbe,
    h265: bool,
    h264: bool,
    presentation: bool,
)
    requires
        call_ensures(DecoderProbe::h265_ready, (&found,), h265),
        call_ensures(DecoderProbe::h264_ready, (&found,), h264),
        call_ensures(DecoderProbe::presentation_ready, (&found,), presentation),
    ensures
        h265 <==> text_ops::texts(found.h265_missing@) =~= Seq::empty(),
        h264 <==> text_ops::texts(found.h264_missing@) =~= Seq::empty(),
        presentation <==> text_ops::texts(found.presentation_missing@) =~= Seq::empty(),
{
    assert(text_ops::texts(found.h265_missing@).len() == found.h265_missing@.len());
    assert(text_ops::texts(found.h264_missing@).len() == found.h264_missing@.len());
    assert(text_ops::texts(found.presentation_missing@).len() == found.presentation_missing@.len());
}

/// A new probe has made no attempt and has seen nothing.
pub proof fn new_probe_has_seen_nothing(fresh: StunProbe)
    requires
        call_ensures(StunProbe::new, (), fresh),
    ensures
        fresh.attempts_made == 0,
        !fresh.stopped,
        !fresh.passed,
        !fresh.observed_socket_failure,
        !fresh.observed_invalid_response,
{
}

/// A probe makes three attempts, whose answers it can wait for in its three
/// seconds.
pub proof fn probe_has_time_for_its_attempts(config: StunProbeConfig)
    requires
        call_ensures(StunProbeConfig::default, (), config),
    ensures
        config.attempts == 3,
        config.recv_timeout_ms == 900,
        config.send_timeout_ms == 250,
        config.total_timeout_ms == 3 * 1_000,
        config.attempts * config.recv_timeout_ms <= config.total_timeout_ms,
{
}

/// An endpoint is taken apart into its host and its port.
pub proof fn endpoint_is_taken_apart(
    endpoint: &str,
    host: Seq<char>,
    port: u16,
    parsed: Option<(String, u16)>,
)
    requires
        host.len() > 0,
        endpoint@ == "stun://"@ + host + ":"@ + text_ops::decimal(port as nat),
        call_ensures(stun::parse_stun_endpoint, (endpoint,), parsed),
    ensures
        parsed matches Some(read) && read.0@ == host && read.1 == port,
{
    endpoint_is_read_back(host, port);
}

/// The caller is told to look for every element that some check needs.
pub proof fn every_needed_element_is_looked_for(names: Vec<&'static str>)
    requires
        call_ensures(troubleshoot::known_factories, (), names),
    ensures
        text_ops::slices(names@).contains("webrtcbin"@),
        text_ops::slices(names@).contains("nicesrc"@),
        text_ops::slices(names@).contains("nicesink"@),
        text_ops::slices(names@).contains("dtlssrtpenc"@),
        text_ops::slices(names@).contains("dtlssrtpdec"@),
        text_ops::slices(names@).contains("rtpbin"@),
        text_ops::slices(names@).contains("d3d11screencapturesrc"@),
        text_ops::slices(names@).contains("d3d11convert"@),
        text_ops::slices(names@).contains("wasapi2src"@),
        text_ops::slices(names@).contains("audioconvert"@),
        text_ops::slices(names@).contains("audioresample"@),
        text_ops::slices(names@).contains("opusenc"@),
        text_ops::slices(names@).contains("rtpopuspay"@),
        text_ops::slices(names@).contains("rtpopusdepay"@),
        text_ops::slices(names@).contains("opusdec"@),
        text_ops::slices(names@).contains("volume"@),
        text_ops::slices(names@).contains("wasapi2sink"@),
        text_ops::slices(names@).contains("wasapisink"@),
        text_ops::slices(names@).contains("rtph265depay"@),
        text_ops::slices(names@).contains("h265parse"@),
        text_ops::slices(names@).contains("d3d11h265dec"@),
        text_ops::slices(names@).contains("rtph264depay"@),
        text_ops::slices(names@).contains("h264parse"@),
        text_ops::slices(names@).contains("d3d11h264dec"@),
        text_ops::slices(names@).contains("overlaycomposition"@),
        text_ops::slices(names@).contains("d3d11videosink"@),
        text_ops::slices(names@).contains("mfh265enc"@),
        text_ops::slices(names@).contains("nvd3d11h265enc"@),
        text_ops::slices(names@).contains("mfh264enc"@),
        text_ops::slices(names@).contains("nvd3d11h264enc"@),
        text_ops::slices(names@).contains("rtph265pay"@),
        text_ops::slices(names@).contains("rtph264pay"@),
{
    let list = text_ops::slices(names@);
    assert(list[0] == "webrtcbin"@);
    assert(list[1] == "nicesrc"@);
    assert(list[2] == "nicesink"@);
    assert(list[3] == "dtlssrtpenc"@);
    assert(list[4] == "dtlssrtpdec"@);
    assert(list[5] == "rtpbin"@);
    assert(list[6] == "d3d11screencapturesrc"@);
    assert(list[7] == "d3d11convert"@);
    assert(list[8] == "wasapi2src"@);
    assert(list[9] == "audioconvert"@);
    assert(list[10] == "audioresample"@);
    assert(list[11] == "opusenc"@);
    assert(list[12] == "rtpopuspay"@);
    assert(list[13] == "rtpopusdepay"@);
    assert(list[14] == "opusdec"@);
    assert(list[15] == "volume"@);
    assert(list[16] == "wasapi2sink"@);
    assert(list[17] == "wasapisink"@);
    assert(list[18] == "rtph265depay"@);
    assert(list[19] == "h265parse"@);
    assert(list[20] == "d3d11h265dec"@);
    assert(list[21] == "rtph264depay"@);
    assert(list[22] == "h264parse"@);
    assert(list[23] == "d3d11h264dec"@);
    assert(list[24] == "overlaycomposition"@);
    assert(list[25] == "d3d11videosink"@);
    assert(list[26] == "mfh265enc"@);
    assert(list[27] == "nvd3d11h265enc"@);
    assert(list[28] == "mfh264enc"@);
    assert(list[29] == "nvd3d11h264enc"@);
    assert(list[30] == "rtph265pay"@);
    assert(list[31] == "rtph264pay"@);
}

} // verus!
