//! Readiness checks: which media plugins are installed, and whether the
//! signalling relay and the STUN server can be reached. Nothing is captured,
//! decoded or played.

use crate::json::{self, number_member, object, raw_member, text_member};
use crate::pipeline::{self, Codec};
use crate::text_ops::{self, absent_from, join, sort_once};
use vstd::prelude::*;
use vstd::string::*;

pub mod laws;
pub mod stun;

verus! {

pub const SCHEMA: u8 = 1;

pub const DETAIL_LIMIT: usize = 240;

pub const SIGNAL_TIMEOUT_MS: u64 = 3_000;

#[derive(Debug, Clone, Copy, PartialEq, Eq, Structural)]
pub enum CheckStatus {
    Pass,
    Fail,
    Inconclusive,
}

/// One line of the report.
#[derive(Debug)]
pub struct CheckResult {
    pub id: &'static str,
    pub status: CheckStatus,
    pub detail: String,
}

/// The whole report.
#[derive(Debug)]
pub struct TroubleshootReport {
    pub schema: u8,
    pub checks: Vec<CheckResult>,
}

/// The check says exactly this.
pub open spec fn says(
    result: CheckResult,
    id: Seq<char>,
    status: CheckStatus,
    detail: Seq<char>,
) -> bool {
    result.id@ == id && result.status == status && result.detail@ == detail
}

fn check(id: &'static str, status: CheckStatus, detail: String) -> (result: CheckResult)
    ensures
        says(result, id@, status, detail@),
{
    CheckResult { id, status, detail }
}

pub open spec fn runtime_factories() -> Seq<Seq<char>> {
    seq!["webrtcbin"@, "nicesrc"@, "nicesink"@, "dtlssrtpenc"@, "dtlssrtpdec"@, "rtpbin"@]
}

pub open spec fn capture_factories() -> Seq<Seq<char>> {
    seq!["d3d11screencapturesrc"@, "d3d11convert"@]
}

pub open spec fn host_audio_factories() -> Seq<Seq<char>> {
    seq!["wasapi2src"@, "audioconvert"@, "audioresample"@, "opusenc"@, "rtpopuspay"@]
}

pub open spec fn receive_audio_factories() -> Seq<Seq<char>> {
    seq!["rtpopusdepay"@, "opusdec"@, "volume"@]
}

pub open spec fn audio_sink_factories() -> Seq<Seq<char>> {
    seq!["wasapi2sink"@, "wasapisink"@]
}

pub open spec fn h265_decode_factories() -> Seq<Seq<char>> {
    seq!["rtph265depay"@, "h265parse"@, "d3d11h265dec"@]
}

pub open spec fn h264_decode_factories() -> Seq<Seq<char>> {
    seq!["rtph264depay"@, "h264parse"@, "d3d11h264dec"@]
}

pub open spec fn presentation_factories() -> Seq<Seq<char>> {
    seq!["overlaycomposition"@, "d3d11videosink"@]
}

/// Every factory that a check may ask for, so that a caller can find out which
/// of them are installed.
pub fn known_factories() -> (names: Vec<&'static str>)
    ensures
        text_ops::slices(names@) == runtime_factories() + capture_factories()
            + host_audio_factories() + receive_audio_factories() + audio_sink_factories()
            + h265_decode_factories() + h264_decode_factories() + presentation_factories() + seq![
            "mfh265enc"@,
            "nvd3d11h265enc"@,
            "mfh264enc"@,
            "nvd3d11h264enc"@,
            "rtph265pay"@,
            "rtph264pay"@,
        ],
{
    let names: Vec<&'static str> = vec![
        "webrtcbin", "nicesrc", "nicesink", "dtlssrtpenc", "dtlssrtpdec", "rtpbin",
        "d3d11screencapturesrc", "d3d11convert", "wasapi2src", "audioconvert", "audioresample",
        "opusenc", "rtpopuspay", "rtpopusdepay", "opusdec", "volume", "wasapi2sink", "wasapisink",
        "rtph265depay", "h265parse", "d3d11h265dec", "rtph264depay", "h264parse", "d3d11h264dec",
        "overlaycomposition", "d3d11videosink", "mfh265enc", "nvd3d11h265enc", "mfh264enc",
        "nvd3d11h264enc", "rtph265pay", "rtph264pay",
    ];
    proof {
        assert(text_ops::slices(names@) =~= runtime_factories() + capture_factories()
            + host_audio_factories() + receive_audio_factories() + audio_sink_factories()
            + h265_decode_factories() + h264_decode_factories() + presentation_factories() + seq![
            "mfh265enc"@,
            "nvd3d11h265enc"@,
            "mfh264enc"@,
            "nvd3d11h264enc"@,
            "rtph265pay"@,
            "rtph264pay"@,
        ]);
    }
    names
}

/// The required factories that are not installed.
pub fn missing_required(required: &[&str], installed: &Vec<String>) -> (missing: Vec<String>)
    ensures
        text_ops::texts(missing@) == text_ops::absent(
            text_ops::slices(required@),
            text_ops::texts(installed@),
        ),
{
    absent_from(required, installed)
}

/// Names separated by commas.
pub fn join_missing(missing: &Vec<String>) -> (list: String)
    ensures
        list@ == text_ops::joined(text_ops::texts(missing@), ","@),
{
    join(missing, ",")
}

pub open spec fn skipped_text() -> Seq<char> {
    "Skipped because runtime is unavailable. Repair or update Orange, then retry."@
}

pub fn skipped_due_to_runtime(id: &'static str) -> (result: CheckResult)
    ensures
        says(result, id@, CheckStatus::Inconclusive, skipped_text()),
{
    check(
        id,
        CheckStatus::Inconclusive,
        "Skipped because runtime is unavailable. Repair or update Orange, then retry.".to_owned(),
    )
}

/// A list of missing factories with what to do about it.
pub open spec fn missing_text(kind: Seq<char>, missing: Seq<Seq<char>>) -> Seq<char> {
    kind + text_ops::joined(missing, ","@) + ". Repair or update Orange, then retry."@
}

fn missing_detail(kind: &str, missing: &Vec<String>) -> (detail: String)
    ensures
        detail@ == missing_text(kind@, text_ops::texts(missing@)),
{
    let mut detail = kind.to_owned();
    detail.append(join_missing(missing).as_str());
    detail.append(". Repair or update Orange, then retry.");
    detail
}

/// The runtime must start and hold every transport factory.
pub open spec fn runtime_told(result: CheckResult, init_ok: bool, installed: Seq<Seq<char>>) -> bool {
    let missing = text_ops::absent(runtime_factories(), installed);
    if !init_ok {
        says(
            result,
            "runtime"@,
            CheckStatus::Fail,
            "GStreamer runtime could not initialize. Repair or update Orange, then retry."@,
        )
    } else if missing.len() == 0 {
        says(
            result,
            "runtime"@,
            CheckStatus::Pass,
            "Runtime and WebRTC transport factories are available for checks."@,
        )
    } else {
        says(
            result,
            "runtime"@,
            CheckStatus::Fail,
            missing_text("Missing runtime factories: "@, missing),
        )
    }
}

pub fn runtime_check(init_ok: bool, installed: &Vec<String>) -> (result: CheckResult)
    ensures
        runtime_told(result, init_ok, text_ops::texts(installed@)),
{
    if !init_ok {
        return check(
            "runtime",
            CheckStatus::Fail,
            "GStreamer runtime could not initialize. Repair or update Orange, then retry.".to_owned(),
        );
    }
    let required: [&str; 6] = [
        "webrtcbin",
        "nicesrc",
        "nicesink",
        "dtlssrtpenc",
        "dtlssrtpdec",
        "rtpbin",
    ];
    let missing = missing_required(&required, installed);
    proof {
        assert(text_ops::slices(required@) =~= runtime_factories());
        assert(text_ops::texts(missing@).len() == missing@.len());
    }
    if missing.is_empty() {
        return check(
            "runtime",
            CheckStatus::Pass,
            "Runtime and WebRTC transport factories are available for checks.".to_owned(),
        );
    }
    check("runtime", CheckStatus::Fail, missing_detail("Missing runtime factories: ", &missing))
}

pub open spec fn capture_told(
    result: CheckResult,
    runtime_ready: bool,
    installed: Seq<Seq<char>>,
) -> bool {
    let missing = text_ops::absent(capture_factories(), installed);
    if !runtime_ready {
        says(result, "capture"@, CheckStatus::Inconclusive, skipped_text())
    } else if missing.len() == 0 {
        says(
            result,
            "capture"@,
            CheckStatus::Pass,
            "Capture factories are available; no capture was started."@,
        )
    } else {
        says(
            result,
            "capture"@,
            CheckStatus::Fail,
            missing_text("Missing capture factories: "@, missing),
        )
    }
}

pub fn capture_check(runtime_ready: bool, installed: &Vec<String>) -> (result: CheckResult)
    ensures
        capture_told(result, runtime_ready, text_ops::texts(installed@)),
{
    if !runtime_ready {
        return skipped_due_to_runtime("capture");
    }
    let required: [&str; 2] = ["d3d11screencapturesrc", "d3d11convert"];
    let missing = missing_required(&required, installed);
    proof {
        assert(text_ops::slices(required@) =~= capture_factories());
        assert(text_ops::texts(missing@).len() == missing@.len());
    }
    if missing.is_empty() {
        return check(
            "capture",
            CheckStatus::Pass,
            "Capture factories are available; no capture was started.".to_owned(),
        );
    }
    check("capture", CheckStatus::Fail, missing_detail("Missing capture factories: ", &missing))
}

/// What the encoder check says of the encoder that was selected.
pub open spec fn encoder_told(
    result: CheckResult,
    runtime_ready: bool,
    selected: Option<(Codec, Seq<char>)>,
    installed: Seq<Seq<char>>,
) -> bool {
    if !runtime_ready {
        says(result, "encoder"@, CheckStatus::Inconclusive, skipped_text())
    } else {
        match selected {
            None => says(
                result,
                "encoder"@,
                CheckStatus::Fail,
                "No compatible zero-copy encoder found. Update GPU drivers, update Orange, or try another PC."@,
            ),
            Some((codec, encoder)) => {
                let missing = text_ops::absent(
                    seq![encoder, pipeline::parser_text(codec), pipeline::payloader_text(codec)],
                    installed,
                );
                if missing.len() == 0 {
                    says(
                        result,
                        "encoder"@,
                        CheckStatus::Pass,
                        "Auto-selected "@ + pipeline::codec_text(codec) + " via "@ + encoder
                            + "; parser/payloader present. Availability only, no encode run."@,
                    )
                } else {
                    says(
                        result,
                        "encoder"@,
                        CheckStatus::Fail,
                        "Selected "@ + pipeline::codec_text(codec) + " via "@ + encoder
                            + ", but missing "@ + text_ops::joined(missing, ","@)
                            + ". Repair/update Orange; update GPU drivers or try another PC."@,
                    )
                }
            },
        }
    }
}

pub fn encoder_check(
    runtime_ready: bool,
    selected: Option<(Codec, &str)>,
    installed: &Vec<String>,
) -> (result: CheckResult)
    ensures
        encoder_told(
            result,
            runtime_ready,
            match selected {
                Some((codec, encoder)) => Some((codec, encoder@)),
                None => None,
            },
            text_ops::texts(installed@),
        ),
{
    if !runtime_ready {
        return skipped_due_to_runtime("encoder");
    }
    let (codec, encoder) = match selected {
        Some(found) => found,
        None => {
            return check(
                "encoder",
                CheckStatus::Fail,
                "No compatible zero-copy encoder found. Update GPU drivers, update Orange, or try another PC.".to_owned(),
            );
        },
    };
    let required: [&str; 3] = [encoder, codec.parser(), codec.payloader()];
    let missing = missing_required(&required, installed);
    proof {
        assert(text_ops::slices(required@) =~= seq![
            encoder@,
            pipeline::parser_text(codec),
            pipeline::payloader_text(codec),
        ]);
        assert(text_ops::texts(missing@).len() == missing@.len());
    }
    if missing.is_empty() {
        let mut detail = "Auto-selected ".to_owned();
        detail.append(codec.display_name());
        detail.append(" via ");
        detail.append(encoder);
        detail.append("; parser/payloader present. Availability only, no encode run.");
        return check("encoder", CheckStatus::Pass, detail);
    }
    let mut detail = "Selected ".to_owned();
    detail.append(codec.display_name());
    detail.append(" via ");
    detail.append(encoder);
    detail.append(", but missing ");
    detail.append(join_missing(&missing).as_str());
    detail.append(". Repair/update Orange; update GPU drivers or try another PC.");
    check("encoder", CheckStatus::Fail, detail)
}

/// What is missing for receiving video.
#[derive(Debug)]
pub struct DecoderProbe {
    pub h265_missing: Vec<String>,
    pub h264_missing: Vec<String>,
    pub presentation_missing: Vec<String>,
}

impl DecoderProbe {
    /// The probe of a machine with these factories.
    pub open spec fn probes(&self, installed: Seq<Seq<char>>) -> bool {
        &&& text_ops::texts(self.h265_missing@) == text_ops::absent(
            h265_decode_factories(),
            installed,
        )
        &&& text_ops::texts(self.h264_missing@) == text_ops::absent(
            h264_decode_factories(),
            installed,
        )
        &&& text_ops::texts(self.presentation_missing@) == text_ops::absent(
            presentation_factories(),
            installed,
        )
    }

    pub fn h265_ready(&self) -> (ready: bool)
        ensures
            ready == (self.h265_missing@.len() == 0),
    {
        self.h265_missing.is_empty()
    }

    pub fn h264_ready(&self) -> (ready: bool)
        ensures
            ready == (self.h264_missing@.len() == 0),
    {
        self.h264_missing.is_empty()
    }

    pub fn presentation_ready(&self) -> (ready: bool)
        ensures
            ready == (self.presentation_missing@.len() == 0),
    {
        self.presentation_missing.is_empty()
    }

    /// All missing names.
    pub open spec fn all_missing(&self) -> Seq<Seq<char>> {
        text_ops::texts(self.h265_missing@) + text_ops::texts(self.h264_missing@)
            + text_ops::texts(self.presentation_missing@)
    }

    /// All missing names, in order and each once.
    pub fn missing_names(&self) -> (names: Vec<String>)
        ensures
            text_ops::texts(names@) == text_ops::sorted_once(self.all_missing()),
    {
        let mut names: Vec<String> = Vec::new();
        append_all(&mut names, &self.h265_missing);
        append_all(&mut names, &self.h264_missing);
        append_all(&mut names, &self.presentation_missing);
        proof {
            assert(text_ops::texts(names@) =~= self.all_missing());
        }
        sort_once(&names)
    }
}

fn append_all(names: &mut Vec<String>, more: &Vec<String>)
    ensures
        text_ops::texts(final(names)@) == text_ops::texts(old(names)@) + text_ops::texts(more@),
{
    let ghost before = text_ops::texts(names@);
    let mut i: usize = 0;
    proof {
        assert(before + text_ops::texts(more@).take(0) =~= before);
    }
    while i < more.len()
        invariant
            i <= more@.len(),
            before == text_ops::texts(old(names)@),
            text_ops::texts(names@) == before + text_ops::texts(more@).take(i as int),
        decreases more@.len() - i,
    {
        let ghost so_far = text_ops::texts(names@);
        names.push(more[i].as_str().to_owned());
        i += 1;
        proof {
            assert(text_ops::texts(names@) =~= so_far.push(more@[i - 1]@));
            assert(text_ops::texts(names@) =~= before + text_ops::texts(more@).take(i as int));
        }
    }
    proof {
        assert(text_ops::texts(more@).take(more@.len() as int) =~= text_ops::texts(more@));
    }
}

pub fn decoder_probe(installed: &Vec<String>) -> (probe: DecoderProbe)
    ensures
        probe.probes(text_ops::texts(installed@)),
{
    let h265: [&str; 3] = ["rtph265depay", "h265parse", "d3d11h265dec"];
    let h264: [&str; 3] = ["rtph264depay", "h264parse", "d3d11h264dec"];
    let presentation: [&str; 2] = ["overlaycomposition", "d3d11videosink"];
    proof {
        assert(text_ops::slices(h265@) =~= h265_decode_factories());
        assert(text_ops::slices(h264@) =~= h264_decode_factories());
        assert(text_ops::slices(presentation@) =~= presentation_factories());
    }
    DecoderProbe {
        h265_missing: missing_required(&h265, installed),
        h264_missing: missing_required(&h264, installed),
        presentation_missing: missing_required(&presentation, installed),
    }
}

pub open spec fn ready_text(ready: bool) -> Seq<char> {
    if ready {
        "ready"@
    } else {
        "missing"@
    }
}

fn ready_word(ready: bool) -> (word: &'static str)
    ensures
        word@ == ready_text(ready),
{
    if ready {
        "ready"
    } else {
        "missing"
    }
}

/// Everything is there, neither codec is, or something between.
pub open spec fn decoder_status(h265: bool, h264: bool, presentation: bool) -> CheckStatus {
    if h265 && h264 && presentation {
        CheckStatus::Pass
    } else if !h265 && !h264 {
        CheckStatus::Fail
    } else {
        CheckStatus::Inconclusive
    }
}

pub open spec fn decoder_told(result: CheckResult, probe: DecoderProbe) -> bool {
    let h265 = probe.h265_missing@.len() == 0;
    let h264 = probe.h264_missing@.len() == 0;
    let presentation = probe.presentation_missing@.len() == 0;
    let status = decoder_status(h265, h264, presentation);
    says(
        result,
        "decoder"@,
        status,
        if status == CheckStatus::Pass {
            "H265/H264 decode and presentation factories are available; no decode/display output was run."@
        } else {
            "H265:"@ + ready_text(h265) + " H264:"@ + ready_text(h264) + " Render:"@ + ready_text(
                presentation,
            ) + "; missing "@ + text_ops::joined(
                text_ops::sorted_once(probe.all_missing()),
                ","@,
            )
                + ". Repair/update Orange; update GPU drivers or try another PC for codec support."@
        },
    )
}

pub fn decoder_result(probe: &DecoderProbe) -> (result: CheckResult)
    ensures
        decoder_told(result, *probe),
{
    let h265 = probe.h265_ready();
    let h264 = probe.h264_ready();
    let presentation = probe.presentation_ready();
    if h265 && h264 && presentation {
        return check(
            "decoder",
            CheckStatus::Pass,
            "H265/H264 decode and presentation factories are available; no decode/display output was run.".to_owned(),
        );
    }
    let status = if !h265 && !h264 {
        CheckStatus::Fail
    } else {
        CheckStatus::Inconclusive
    };
    let mut detail = "H265:".to_owned();
    detail.append(ready_word(h265));
    detail.append(" H264:");
    detail.append(ready_word(h264));
    detail.append(" Render:");
    detail.append(ready_word(presentation));
    detail.append("; missing ");
    detail.append(join_missing(&probe.missing_names()).as_str());
    detail.append(
        ". Repair/update Orange; update GPU drivers or try another PC for codec support.",
    );
    check("decoder", status, detail)
}

pub fn decoder_check(runtime_ready: bool, installed: &Vec<String>) -> (result: CheckResult)
    ensures
        if runtime_ready {
            exists|probe: DecoderProbe| #[trigger]
                probe.probes(text_ops::texts(installed@)) && decoder_told(result, probe)
        } else {
            says(result, "decoder"@, CheckStatus::Inconclusive, skipped_text())
        },
{
    if !runtime_ready {
        return skipped_due_to_runtime("decoder");
    }
    let probe = decoder_probe(installed);
    decoder_result(&probe)
}

/// What is missing for sending and receiving sound.
#[derive(Debug)]
pub struct AudioProbe {
    pub host_missing: Vec<String>,
    pub receive_missing: Vec<String>,
    pub has_output_sink: bool,
}

impl AudioProbe {
    /// The probe of a machine with these factories.
    pub open spec fn probes(&self, installed: Seq<Seq<char>>) -> bool {
        &&& text_ops::texts(self.host_missing@) == text_ops::absent(
            host_audio_factories(),
            installed,
        )
        &&& text_ops::texts(self.receive_missing@) == text_ops::absent(
            receive_audio_factories(),
            installed,
        )
        &&& self.has_output_sink == (installed.contains("wasapi2sink"@) || installed.contains(
            "wasapisink"@,
        ))
    }

    /// All missing names; both sinks where neither is there.
    pub open spec fn all_missing(&self) -> Seq<Seq<char>> {
        text_ops::texts(self.host_missing@) + text_ops::texts(self.receive_missing@) + (
        if self.has_output_sink {
            Seq::empty()
        } else {
            audio_sink_factories()
        })
    }

    /// All missing names, in order and each once.
    pub fn missing_names(&self) -> (names: Vec<String>)
        ensures
            text_ops::texts(names@) == text_ops::sorted_once(self.all_missing()),
    {
        let mut names: Vec<String> = Vec::new();
        append_all(&mut names, &self.host_missing);
        append_all(&mut names, &self.receive_missing);
        if !self.has_output_sink {
            names.push("wasapi2sink".to_owned());
            names.push("wasapisink".to_owned());
        }
        proof {
            assert(text_ops::texts(names@) =~= self.all_missing());
        }
        sort_once(&names)
    }

    pub open spec fn is_ready(&self) -> bool {
        self.host_missing@.len() == 0 && self.receive_missing@.len() == 0 && self.has_output_sink
    }

    pub fn ready(&self) -> (ready: bool)
        ensures
            ready == self.is_ready(),
    {
        self.host_missing.is_empty() && self.receive_missing.is_empty() && self.has_output_sink
    }
}

pub fn audio_probe(installed: &Vec<String>) -> (probe: AudioProbe)
    ensures
        probe.probes(text_ops::texts(installed@)),
{
    let host: [&str; 5] = [
        "wasapi2src",
        "audioconvert",
        "audioresample",
        "opusenc",
        "rtpopuspay",
    ];
    let receive: [&str; 3] = ["rtpopusdepay", "opusdec", "volume"];
    proof {
        assert(text_ops::slices(host@) =~= host_audio_factories());
        assert(text_ops::slices(receive@) =~= receive_audio_factories());
    }
    AudioProbe {
        host_missing: missing_required(&host, installed),
        receive_missing: missing_required(&receive, installed),
        has_output_sink: text_ops::listed_string(installed, "wasapi2sink")
            || text_ops::listed_string(installed, "wasapisink"),
    }
}

pub open spec fn audio_told(result: CheckResult, probe: AudioProbe) -> bool {
    if probe.is_ready() {
        says(
            result,
            "audio"@,
            CheckStatus::Pass,
            "Host and receive audio factories are available with a WASAPI sink; no audio output was played."@,
        )
    } else {
        says(
            result,
            "audio"@,
            CheckStatus::Fail,
            missing_text(
                "Missing audio factories: "@,
                text_ops::sorted_once(probe.all_missing()),
            ),
        )
    }
}

pub fn audio_result(probe: &AudioProbe) -> (result: CheckResult)
    ensures
        audio_told(result, *probe),
{
    if probe.ready() {
        return check(
            "audio",
            CheckStatus::Pass,
            "Host and receive audio factories are available with a WASAPI sink; no audio output was played.".to_owned(),
        );
    }
    check(
        "audio",
        CheckStatus::Fail,
        missing_detail("Missing audio factories: ", &probe.missing_names()),
    )
}

pub fn audio_check(runtime_ready: bool, installed: &Vec<String>) -> (result: CheckResult)
    ensures
        if runtime_ready {
            exists|probe: AudioProbe| #[trigger]
                probe.probes(text_ops::texts(installed@)) && audio_told(result, probe)
        } else {
            says(result, "audio"@, CheckStatus::Inconclusive, skipped_text())
        },
{
    if !runtime_ready {
        return skipped_due_to_runtime("audio");
    }
    let probe = audio_probe(installed);
    audio_result(&probe)
}

/// How the handshake with the relay went.
#[derive(Debug, Clone, Copy, PartialEq, Eq, Structural)]
pub enum Handshake {
    TimedOut,
    Failed,
    Succeeded,
}

pub open spec fn handshake_text(handshake: Handshake) -> Seq<char> {
    match handshake {
        Handshake::TimedOut => {
            "Signalling WebSocket handshake timed out. Check connection, DNS or VPN, then retry."@
        },
        Handshake::Failed => {
            "Signalling WebSocket handshake failed. Check server URL, connection, DNS or VPN, then retry."@
        },
        Handshake::Succeeded => {
            "WebSocket handshake succeeded; room join and authentication were not tested."@
        },
    }
}

pub fn signalling_check(handshake: Handshake) -> (result: CheckResult)
    ensures
        says(
            result,
            "signalling"@,
            if handshake == Handshake::Succeeded {
                CheckStatus::Pass
            } else {
                CheckStatus::Fail
            },
            handshake_text(handshake),
        ),
{
    match handshake {
        Handshake::TimedOut => check(
            "signalling",
            CheckStatus::Fail,
            "Signalling WebSocket handshake timed out. Check connection, DNS or VPN, then retry.".to_owned(),
        ),
        Handshake::Failed => check(
            "signalling",
            CheckStatus::Fail,
            "Signalling WebSocket handshake failed. Check server URL, connection, DNS or VPN, then retry.".to_owned(),
        ),
        Handshake::Succeeded => check(
            "signalling",
            CheckStatus::Pass,
            "WebSocket handshake succeeded; room join and authentication were not tested.".to_owned(),
        ),
    }
}

/// How probing the STUN server went.
#[derive(Debug, Clone, Copy, PartialEq, Eq, Structural)]
pub enum StunProbeStatus {
    Pass,
    DnsTimeout,
    DnsFailed,
    NoIpv4Address,
    SocketFailure,
    InvalidResponse,
    Timeout,
}

/// What the STUN check says; without a valid endpoint there is no probe.
pub open spec fn stun_text(status: Option<StunProbeStatus>) -> (CheckStatus, Seq<char>) {
    match status {
        None => (
            CheckStatus::Fail,
            "Configured STUN endpoint is invalid. Repair or update Orange, then retry."@,
        ),
        Some(StunProbeStatus::Pass) => (
            CheckStatus::Pass,
            "STUN server reachability succeeded over IPv4; friend connectivity is still untested."@,
        ),
        Some(StunProbeStatus::DnsTimeout) => (
            CheckStatus::Fail,
            "IPv4 STUN DNS timed out. Check DNS, VPN or network path, then retry."@,
        ),
        Some(StunProbeStatus::DnsFailed) => (
            CheckStatus::Fail,
            "IPv4 STUN DNS failed. Check DNS, VPN or network path, then retry."@,
        ),
        Some(StunProbeStatus::NoIpv4Address) => (
            CheckStatus::Inconclusive,
            "STUN DNS returned no IPv4 address. Check DNS/network setup, then retry."@,
        ),
        Some(StunProbeStatus::SocketFailure) => (
            CheckStatus::Fail,
            "IPv4 STUN UDP socket failed. Check connection, VPN or network path, then retry."@,
        ),
        Some(StunProbeStatus::InvalidResponse) => (
            CheckStatus::Fail,
            "IPv4 STUN replies were invalid. Retry; if it persists, check VPN/network path."@,
        ),
        Some(StunProbeStatus::Timeout) => (
            CheckStatus::Inconclusive,
            "No valid IPv4 STUN response before deadline. Check connection, DNS or VPN, then retry."@,
        ),
    }
}

pub fn stun_check(status: Option<StunProbeStatus>) -> (result: CheckResult)
    ensures
        says(result, "stun"@, stun_text(status).0, stun_text(status).1),
{
    let (status, detail) = match status {
        None => (
            CheckStatus::Fail,
            "Configured STUN endpoint is invalid. Repair or update Orange, then retry.",
        ),
        Some(StunProbeStatus::Pass) => (
            CheckStatus::Pass,
            "STUN server reachability succeeded over IPv4; friend connectivity is still untested.",
        ),
        Some(StunProbeStatus::DnsTimeout) => (
            CheckStatus::Fail,
            "IPv4 STUN DNS timed out. Check DNS, VPN or network path, then retry.",
        ),
        Some(StunProbeStatus::DnsFailed) => (
            CheckStatus::Fail,
            "IPv4 STUN DNS failed. Check DNS, VPN or network path, then retry.",
        ),
        Some(StunProbeStatus::NoIpv4Address) => (
            CheckStatus::Inconclusive,
            "STUN DNS returned no IPv4 address. Check DNS/network setup, then retry.",
        ),
        Some(StunProbeStatus::SocketFailure) => (
            CheckStatus::Fail,
            "IPv4 STUN UDP socket failed. Check connection, VPN or network path, then retry.",
        ),
        Some(StunProbeStatus::InvalidResponse) => (
            CheckStatus::Fail,
            "IPv4 STUN replies were invalid. Retry; if it persists, check VPN/network path.",
        ),
        Some(StunProbeStatus::Timeout) => (
            CheckStatus::Inconclusive,
            "No valid IPv4 STUN response before deadline. Check connection, DNS or VPN, then retry.",
        ),
    };
    check("stun", status, detail.to_owned())
}

/// The report: the seven checks in their fixed order, those of media skipped
/// where the runtime is not ready.
pub fn collect(
    init_ok: bool,
    installed: &Vec<String>,
    selected: Option<(Codec, &str)>,
    handshake: Handshake,
    stun: Option<StunProbeStatus>,
) -> (report: TroubleshootReport)
    ensures
        report.schema == 1,
        report.checks@.len() == 7,
        ({
            let names = text_ops::texts(installed@);
            let ready = init_ok && text_ops::absent(runtime_factories(), names).len() == 0;
            let encoder = match selected {
                Some((codec, encoder)) => Some((codec, encoder@)),
                None => None,
            };
            &&& runtime_told(report.checks@[0], init_ok, names)
            &&& capture_told(report.checks@[1], ready, names)
            &&& encoder_told(report.checks@[2], ready, encoder, names)
            &&& if ready {
                exists|probe: DecoderProbe| #[trigger]
                    probe.probes(names) && decoder_told(report.checks@[3], probe)
            } else {
                says(report.checks@[3], "decoder"@, CheckStatus::Inconclusive, skipped_text())
            }
            &&& if ready {
                exists|probe: AudioProbe| #[trigger]
                    probe.probes(names) && audio_told(report.checks@[4], probe)
            } else {
                says(report.checks@[4], "audio"@, CheckStatus::Inconclusive, skipped_text())
            }
            &&& says(
                report.checks@[5],
                "signalling"@,
                if handshake == Handshake::Succeeded {
                    CheckStatus::Pass
                } else {
                    CheckStatus::Fail
                },
                handshake_text(handshake),
            )
            &&& says(report.checks@[6], "stun"@, stun_text(stun).0, stun_text(stun).1)
        }),
{
    let runtime = runtime_check(init_ok, installed);
    let ready = matches!(runtime.status, CheckStatus::Pass);
    let mut checks: Vec<CheckResult> = Vec::new();
    checks.push(runtime);
    checks.push(capture_check(ready, installed));
    checks.push(encoder_check(ready, selected, installed));
    checks.push(decoder_check(ready, installed));
    checks.push(audio_check(ready, installed));
    checks.push(signalling_check(handshake));
    checks.push(stun_check(stun));
    TroubleshootReport { schema: SCHEMA, checks }
}

proof fn lemma_weights()
    ensures
        text_ops::weight(runtime_factories()) == 58,
        text_ops::weight(capture_factories()) == 35,
        text_ops::weight(host_audio_factories()) == 57,
        text_ops::weight(receive_audio_factories()) == 28,
        text_ops::weight(audio_sink_factories()) == 23,
        text_ops::weight(h265_decode_factories()) == 36,
        text_ops::weight(h264_decode_factories()) == 36,
        text_ops::weight(presentation_factories()) == 34,
{
    reveal_strlit("webrtcbin");
    reveal_strlit("nicesrc");
    reveal_strlit("nicesink");
    reveal_strlit("dtlssrtpenc");
    reveal_strlit("dtlssrtpdec");
    reveal_strlit("rtpbin");
    reveal_strlit("d3d11screencapturesrc");
    reveal_strlit("d3d11convert");
    reveal_strlit("wasapi2src");
    reveal_strlit("audioconvert");
    reveal_strlit("audioresample");
    reveal_strlit("opusenc");
    reveal_strlit("rtpopuspay");
    reveal_strlit("rtpopusdepay");
    reveal_strlit("opusdec");
    reveal_strlit("volume");
    reveal_strlit("wasapi2sink");
    reveal_strlit("wasapisink");
    reveal_strlit("rtph265depay");
    reveal_strlit("h265parse");
    reveal_strlit("d3d11h265dec");
    reveal_strlit("rtph264depay");
    reveal_strlit("h264parse");
    reveal_strlit("d3d11h264dec");
    reveal_strlit("overlaycomposition");
    reveal_strlit("d3d11videosink");
    reveal_with_fuel(text_ops::weight, 7);
}

/// However much is missing, the details of the media checks fit the limit and
/// keep their advice.
#[verifier::rlimit(40)]
pub proof fn media_details_fit(
    installed: Seq<Seq<char>>,
    init_ok: bool,
    ready: bool,
    runtime: CheckResult,
    capture: CheckResult,
    decoder: CheckResult,
    audio: CheckResult,
    video_probe: DecoderProbe,
    sound_probe: AudioProbe,
)
    requires
        runtime_told(runtime, init_ok, installed),
        capture_told(capture, ready, installed),
        video_probe.probes(installed),
        decoder_told(decoder, video_probe),
        sound_probe.probes(installed),
        audio_told(audio, sound_probe),
    ensures
        runtime.detail@.len() <= DETAIL_LIMIT,
        capture.detail@.len() <= DETAIL_LIMIT,
        decoder.detail@.len() <= DETAIL_LIMIT,
        audio.detail@.len() <= DETAIL_LIMIT,
{
    lemma_weights();
    reveal_strlit(",");
    reveal_strlit("GStreamer runtime could not initialize. Repair or update Orange, then retry.");
    reveal_strlit("Runtime and WebRTC transport factories are available for checks.");
    reveal_strlit("Missing runtime factories: ");
    reveal_strlit(". Repair or update Orange, then retry.");
    reveal_strlit("Skipped because runtime is unavailable. Repair or update Orange, then retry.");
    reveal_strlit("Capture factories are available; no capture was started.");
    reveal_strlit("Missing capture factories: ");
    reveal_strlit("H265/H264 decode and presentation factories are available; no decode/display output was run.");
    reveal_strlit("H265:");
    reveal_strlit(" H264:");
    reveal_strlit(" Render:");
    reveal_strlit("; missing ");
    reveal_strlit("ready");
    reveal_strlit("missing");
    reveal_strlit(". Repair/update Orange; update GPU drivers or try another PC for codec support.");
    reveal_strlit("Host and receive audio factories are available with a WASAPI sink; no audio output was played.");
    reveal_strlit("Missing audio factories: ");

    let missing_runtime = text_ops::absent(runtime_factories(), installed);
    text_ops::absent_within_weight(runtime_factories(), installed);
    text_ops::joined_within_weight(missing_runtime, ","@);

    let missing_capture = text_ops::absent(capture_factories(), installed);
    text_ops::absent_within_weight(capture_factories(), installed);
    text_ops::joined_within_weight(missing_capture, ","@);

    let h265 = text_ops::texts(video_probe.h265_missing@);
    let h264 = text_ops::texts(video_probe.h264_missing@);
    let presentation = text_ops::texts(video_probe.presentation_missing@);
    text_ops::absent_within_weight(h265_decode_factories(), installed);
    text_ops::absent_within_weight(h264_decode_factories(), installed);
    text_ops::absent_within_weight(presentation_factories(), installed);
    text_ops::weight_of_sum(h265, h264);
    text_ops::weight_of_sum(h265 + h264, presentation);
    text_ops::sorted_within_weight(video_probe.all_missing());
    text_ops::joined_within_weight(text_ops::sorted_once(video_probe.all_missing()), ","@);

    let host = text_ops::texts(sound_probe.host_missing@);
    let receive = text_ops::texts(sound_probe.receive_missing@);
    let sinks = if sound_probe.has_output_sink {
        Seq::empty()
    } else {
        audio_sink_factories()
    };
    text_ops::absent_within_weight(host_audio_factories(), installed);
    text_ops::absent_within_weight(receive_audio_factories(), installed);
    text_ops::weight_of_sum(host, receive);
    text_ops::weight_of_sum(host + receive, sinks);
    assert(text_ops::weight(Seq::<Seq<char>>::empty()) == 0);
    text_ops::sorted_within_weight(sound_probe.all_missing());
    text_ops::joined_within_weight(text_ops::sorted_once(sound_probe.all_missing()), ","@);
}

/// The details of the network checks fit the limit too.
pub proof fn network_details_fit(handshake: Handshake, stun: Option<StunProbeStatus>)
    ensures
        handshake_text(handshake).len() <= DETAIL_LIMIT,
        stun_text(stun).1.len() <= DETAIL_LIMIT,
{
    reveal_strlit("Signalling WebSocket handshake timed out. Check connection, DNS or VPN, then retry.");
    reveal_strlit("Signalling WebSocket handshake failed. Check server URL, connection, DNS or VPN, then retry.");
    reveal_strlit("WebSocket handshake succeeded; room join and authentication were not tested.");
    reveal_strlit("Configured STUN endpoint is invalid. Repair or update Orange, then retry.");
    reveal_strlit("STUN server reachability succeeded over IPv4; friend connectivity is still untested.");
    reveal_strlit("IPv4 STUN DNS timed out. Check DNS, VPN or network path, then retry.");
    reveal_strlit("IPv4 STUN DNS failed. Check DNS, VPN or network path, then retry.");
    reveal_strlit("STUN DNS returned no IPv4 address. Check DNS/network setup, then retry.");
    reveal_strlit("IPv4 STUN UDP socket failed. Check connection, VPN or network path, then retry.");
    reveal_strlit("IPv4 STUN replies were invalid. Retry; if it persists, check VPN/network path.");
    reveal_strlit("No valid IPv4 STUN response before deadline. Check connection, DNS or VPN, then retry.");
}

/// The encoder check names one of the encoders that are tried, and its detail
/// fits the limit.
pub proof fn encoder_detail_fits(
    installed: Seq<Seq<char>>,
    ready: bool,
    index: int,
    found: bool,
    result: CheckResult,
)
    requires
        0 <= index < 4,
        encoder_told(
            result,
            ready,
            if found {
                Some(pipeline::auto_encoder(index))
            } else {
                None
            },
            installed,
        ),
    ensures
        result.detail@.len() <= DETAIL_LIMIT,
{
    let (codec, encoder) = pipeline::auto_encoder(index);
    let required = seq![encoder, pipeline::parser_text(codec), pipeline::payloader_text(codec)];
    reveal_strlit(",");
    reveal_strlit("mfh265enc");
    reveal_strlit("nvd3d11h265enc");
    reveal_strlit("mfh264enc");
    reveal_strlit("nvd3d11h264enc");
    reveal_strlit("h265parse");
    reveal_strlit("h264parse");
    reveal_strlit("rtph265pay");
    reveal_strlit("rtph264pay");
    reveal_strlit("H265");
    reveal_strlit("H264");
    reveal_strlit("Skipped because runtime is unavailable. Repair or update Orange, then retry.");
    reveal_strlit("No compatible zero-copy encoder found. Update GPU drivers, update Orange, or try another PC.");
    reveal_strlit("Auto-selected ");
    reveal_strlit(" via ");
    reveal_strlit("; parser/payloader present. Availability only, no encode run.");
    reveal_strlit("Selected ");
    reveal_strlit(", but missing ");
    reveal_strlit(". Repair/update Orange; update GPU drivers or try another PC.");
    reveal_with_fuel(text_ops::weight, 4);
    assert(text_ops::weight(required) <= 40);
    text_ops::absent_within_weight(required, installed);
    text_ops::joined_within_weight(text_ops::absent(required, installed), ","@);
}

pub open spec fn status_word(status: CheckStatus) -> Seq<char> {
    match status {
        CheckStatus::Pass => "pass"@,
        CheckStatus::Fail => "fail"@,
        CheckStatus::Inconclusive => "inconclusive"@,
    }
}

impl CheckStatus {
    pub fn word(self) -> (word: &'static str)
        ensures
            word@ == status_word(self),
    {
        match self {
            CheckStatus::Pass => "pass",
            CheckStatus::Fail => "fail",
            CheckStatus::Inconclusive => "inconclusive",
        }
    }
}

/// One check as a JSON object.
pub open spec fn check_json(check: CheckResult) -> Seq<char> {
    json::json_object(
        seq![
            ("id"@, json::json_string(check.id@)),
            ("status"@, json::json_string(status_word(check.status))),
            ("detail"@, json::json_string(check.detail@)),
        ],
    )
}

/// Every check as a JSON object.
pub open spec fn check_jsons(checks: Seq<CheckResult>) -> Seq<Seq<char>> {
    Seq::new(checks.len(), |i: int| check_json(checks[i]))
}

/// The report as one line of JSON.
pub open spec fn report_json(report: TroubleshootReport) -> Seq<char> {
    json::json_object(
        seq![
            ("schema"@, text_ops::decimal(report.schema as nat)),
            ("checks"@, "["@ + text_ops::joined(check_jsons(report.checks@), ","@) + "]"@),
        ],
    )
}

fn check_json_string(check: &CheckResult) -> (out: String)
    ensures
        out@ == check_json(*check),
{
    let members = vec![
        text_member("id", check.id),
        text_member("status", check.status.word()),
        text_member("detail", check.detail.as_str()),
    ];
    proof {
        assert(json::member_texts(members@) =~= seq![
            ("id"@, json::json_string(check.id@)),
            ("status"@, json::json_string(status_word(check.status))),
            ("detail"@, json::json_string(check.detail@)),
        ]);
    }
    object(&members)
}

/// What is printed of a report.
pub fn run(report: &TroubleshootReport) -> (line: String)
    ensures
        line@ == report_json(*report),
{
    let mut items: Vec<String> = Vec::new();
    let mut i: usize = 0;
    while i < report.checks.len()
        invariant
            i <= report.checks@.len(),
            text_ops::texts(items@) == check_jsons(report.checks@.take(i as int)),
        decreases report.checks@.len() - i,
    {
        let ghost before = items@;
        let item = check_json_string(&report.checks[i]);
        items.push(item);
        i += 1;
        proof {
            let checks = report.checks@;
            assert(text_ops::texts(items@) =~= text_ops::texts(before).push(item@));
            assert(check_jsons(checks.take(i as int)) =~= check_jsons(checks.take(i - 1)).push(
                check_json(checks[i - 1]),
            ));
        }
    }
    let mut list = "[".to_owned();
    list.append(join(&items, ",").as_str());
    list.append("]");
    let members = vec![
        number_member("schema", report.schema as u128),
        raw_member("checks", list.as_str()),
    ];
    proof {
        assert(report.checks@.take(report.checks@.len() as int) =~= report.checks@);
        assert(json::member_texts(members@) =~= seq![
            ("schema"@, text_ops::decimal(report.schema as nat)),
            ("checks"@, "["@ + text_ops::joined(check_jsons(report.checks@), ","@) + "]"@),
        ]);
    }
    object(&members)
}

} // verus!
