//! The capture and encode pipeline: which encoder is used, how it is tuned,
//! and the descriptions from which the media graph is built.
//!
//! Frames never leave video memory: the capture source, the converter and the
//! hardware encoder all work on D3D11 textures.

pub mod laws;

use crate::text_ops::{
    self, absent_from, decimal_string, join, lower_string, same_text, signed_decimal_string,
    starts_with,
};
use vstd::prelude::*;
use vstd::string::*;

verus! {

/// The highest frame rate that is captured.
pub const MAX_FPS: u32 = 120;

pub const MIN_FORCE_KEY_UNIT_INTERVAL_NS: u64 = 1_000_000_000;

pub const VIDEO_BITRATE_STEP_KBPS: u64 = 500;

pub const MAX_RECOMMENDED_VIDEO_KBPS: u32 = 80_000;

#[derive(Debug, Clone, Copy, PartialEq, Eq, Structural)]
pub enum Codec {
    Av1,
    H265,
    H264,
}

pub open spec fn encoder_text(codec: Codec) -> Seq<char> {
    match codec {
        Codec::Av1 => "nvd3d11av1enc"@,
        Codec::H265 => "mfh265enc"@,
        Codec::H264 => "mfh264enc"@,
    }
}

pub open spec fn parser_text(codec: Codec) -> Seq<char> {
    match codec {
        Codec::Av1 => "av1parse"@,
        Codec::H265 => "h265parse"@,
        Codec::H264 => "h264parse"@,
    }
}

pub open spec fn rtp_text(codec: Codec) -> Seq<char> {
    match codec {
        Codec::Av1 => "AV1"@,
        Codec::H265 => "H265"@,
        Codec::H264 => "H264"@,
    }
}

pub open spec fn payloader_text(codec: Codec) -> Seq<char> {
    match codec {
        Codec::Av1 => "rtpav1pay"@,
        Codec::H265 => "rtph265pay"@,
        Codec::H264 => "rtph264pay"@,
    }
}

pub open spec fn depayloader_text(codec: Codec) -> Seq<char> {
    match codec {
        Codec::Av1 => "rtpav1depay"@,
        Codec::H265 => "rtph265depay"@,
        Codec::H264 => "rtph264depay"@,
    }
}

pub open spec fn decoder_text(codec: Codec) -> Seq<char> {
    match codec {
        Codec::Av1 => "d3d11av1dec"@,
        Codec::H265 => "d3d11h265dec"@,
        Codec::H264 => "d3d11h264dec"@,
    }
}

/// The name of a codec as it is shown to people.
pub open spec fn codec_text(codec: Codec) -> Seq<char> {
    match codec {
        Codec::Av1 => "Av1"@,
        Codec::H265 => "H265"@,
        Codec::H264 => "H264"@,
    }
}

/// The codec that a word names, whatever the case of its letters.
pub open spec fn codec_named(word: Seq<char>) -> Option<Codec> {
    let lower = text_ops::lower(word);
    if lower == "av1"@ {
        Some(Codec::Av1)
    } else if lower == "h265"@ || lower == "hevc"@ {
        Some(Codec::H265)
    } else if lower == "h264"@ {
        Some(Codec::H264)
    } else {
        None
    }
}

/// The complaint about a word that names no codec.
pub open spec fn unknown_codec_text(word: Seq<char>) -> Seq<char> {
    "unknown codec '"@ + text_ops::lower(word) + "' (expected auto, av1, h265 or h264)"@
}

/// The codec that an RTP encoding name stands for.
pub open spec fn codec_of_encoding(encoding: Seq<char>) -> Option<Codec> {
    if encoding == "AV1"@ {
        Some(Codec::Av1)
    } else if encoding == "H265"@ {
        Some(Codec::H265)
    } else if encoding == "H264"@ {
        Some(Codec::H264)
    } else {
        None
    }
}

impl Codec {
    /// The hardware encoder of this codec; it accepts captured frames without
    /// a conversion on the processor.
    pub fn encoder(&self) -> (name: &'static str)
        ensures
            name@ == encoder_text(*self),
    {
        match self {
            Codec::Av1 => "nvd3d11av1enc",
            Codec::H265 => "mfh265enc",
            Codec::H264 => "mfh264enc",
        }
    }

    pub fn parser(&self) -> (name: &'static str)
        ensures
            name@ == parser_text(*self),
    {
        match self {
            Codec::Av1 => "av1parse",
            Codec::H265 => "h265parse",
            Codec::H264 => "h264parse",
        }
    }

    pub fn parse(s: &str) -> (codec: Result<Self, String>)
        ensures
            match codec_named(s@) {
                Some(named) => codec == Ok::<Codec, String>(named),
                None => codec is Err && codec->Err_0@ == unknown_codec_text(s@),
            },
    {
        let lower = lower_string(s);
        let word = lower.as_str();
        if same_text(word, "av1") {
            Ok(Codec::Av1)
        } else if same_text(word, "h265") || same_text(word, "hevc") {
            Ok(Codec::H265)
        } else if same_text(word, "h264") {
            Ok(Codec::H264)
        } else {
            let mut text = "unknown codec '".to_owned();
            text.append(word);
            text.append("' (expected auto, av1, h265 or h264)");
            Err(text)
        }
    }

    pub fn rtp_encoding(self) -> (name: &'static str)
        ensures
            name@ == rtp_text(self),
    {
        match self {
            Codec::Av1 => "AV1",
            Codec::H265 => "H265",
            Codec::H264 => "H264",
        }
    }

    pub fn payloader(self) -> (name: &'static str)
        ensures
            name@ == payloader_text(self),
    {
        match self {
            Codec::Av1 => "rtpav1pay",
            Codec::H265 => "rtph265pay",
            Codec::H264 => "rtph264pay",
        }
    }

    pub fn depayloader(self) -> (name: &'static str)
        ensures
            name@ == depayloader_text(self),
    {
        match self {
            Codec::Av1 => "rtpav1depay",
            Codec::H265 => "rtph265depay",
            Codec::H264 => "rtph264depay",
        }
    }

    pub fn decoder(self) -> (name: &'static str)
        ensures
            name@ == decoder_text(self),
    {
        match self {
            Codec::Av1 => "d3d11av1dec",
            Codec::H265 => "d3d11h265dec",
            Codec::H264 => "d3d11h264dec",
        }
    }

    pub fn display_name(self) -> (name: &'static str)
        ensures
            name@ == codec_text(self),
    {
        match self {
            Codec::Av1 => "Av1",
            Codec::H265 => "H265",
            Codec::H264 => "H264",
        }
    }

    pub fn from_rtp_encoding(encoding: &str) -> (codec: Option<Self>)
        ensures
            codec == codec_of_encoding(encoding@),
    {
        if same_text(encoding, "AV1") {
            Some(Codec::Av1)
        } else if same_text(encoding, "H265") {
            Some(Codec::H265)
        } else if same_text(encoding, "H264") {
            Some(Codec::H264)
        } else {
            None
        }
    }
}

/// Offering a codec and reading the offer back gives the same codec.
pub proof fn encoding_round_trip(codec: Codec)
    ensures
        codec_of_encoding(rtp_text(codec)) == Some(codec),
{
    reveal_strlit("AV1");
    reveal_strlit("H265");
    reveal_strlit("H264");
    assert("AV1"@.len() == 3);
    assert("H265"@[3] == '5');
    assert("H264"@[3] == '4');
}

/// A measured good-quality ceiling for the low-latency path, from the number
/// of bitrate steps that the output's pixels and frame rate ask for; the flag
/// tells that the ceiling cut it short.
pub fn recommended_video_bitrate(steps: u64) -> (result: (u32, bool))
    ensures
        result.0 == (if steps * 500 < 500 {
            500
        } else if steps * 500 > 80_000 {
            80_000
        } else {
            steps * 500
        }),
        result.1 == (steps * 500 > 80_000),
{
    if steps > 160 {
        (MAX_RECOMMENDED_VIDEO_KBPS, true)
    } else if steps == 0 {
        (500, false)
    } else {
        ((steps * VIDEO_BITRATE_STEP_KBPS) as u32, false)
    }
}

/// The encoders that are tried in turn where no codec is asked for.
pub open spec fn auto_encoder(index: int) -> (Codec, Seq<char>) {
    if index == 0 {
        (Codec::H265, "mfh265enc"@)
    } else if index == 1 {
        (Codec::H265, "nvd3d11h265enc"@)
    } else if index == 2 {
        (Codec::H264, "mfh264enc"@)
    } else {
        (Codec::H264, "nvd3d11h264enc"@)
    }
}

/// The probe was asked about the encoder called `name` and gave `answer`.
pub open spec fn answered<F: Fn(&str) -> bool>(
    is_compatible: F,
    name: Seq<char>,
    answer: bool,
) -> bool {
    exists|asked: &str|
        asked@ == name && #[trigger] call_ensures(is_compatible, (asked,), answer)
}

/// Encoder `index` is the first in the list that was found compatible.
pub open spec fn first_compatible<F: Fn(&str) -> bool>(is_compatible: F, index: int) -> bool {
    &&& 0 <= index < 4
    &&& answered(is_compatible, auto_encoder(index).1, true)
    &&& forall|j: int|
        0 <= j < index ==> answered(is_compatible, (#[trigger] auto_encoder(j)).1, false)
}

/// The probe may be asked about the encoders of the list in their order, and
/// about each only once all before it were found incompatible.
pub open spec fn askable<F: Fn(&str) -> bool>(is_compatible: F) -> bool {
    forall|index: int, name: &str|
        #![trigger auto_encoder(index), call_requires(is_compatible, (name,))]
        0 <= index < 4 && name@ == auto_encoder(index).1 && (forall|j: int|
            0 <= j < index ==> answered(is_compatible, (#[trigger] auto_encoder(j)).1, false))
            ==> call_requires(is_compatible, (name,))
}

pub open spec fn no_encoder_text() -> Seq<char> {
    "no compatible zero-copy D3D11 encoder found; attempted mfh265enc, nvd3d11h265enc, mfh264enc, nvd3d11h264enc. Update the graphics driver or install a GStreamer hardware encoder plugin"@
}

/// Picks the encoder: that of the requested codec, without asking whether it
/// is there, or else the first of the list that can be linked to the capture
/// path.
pub fn select_encoder_with<F: Fn(&str) -> bool>(
    requested: Option<Codec>,
    is_compatible: F,
) -> (selected: Result<(Codec, &'static str), String>)
    requires
        requested is None ==> askable(is_compatible),
    ensures
        match requested {
            Some(codec) => selected is Ok && selected->Ok_0.0 == codec && selected->Ok_0.1@
                == encoder_text(codec),
            None => match selected {
                Ok((codec, encoder)) => exists|index: int|
                    first_compatible(is_compatible, index) && (codec, encoder@)
                        == #[trigger] auto_encoder(index),
                Err(text) => text@ == no_encoder_text() && forall|j: int|
                    0 <= j < 4 ==> answered(is_compatible, (#[trigger] auto_encoder(j)).1, false),
            },
        },
{
    if let Some(codec) = requested {
        return Ok((codec, codec.encoder()));
    }
    proof {
        assert(auto_encoder(0).1 == "mfh265enc"@);
    }
    let first = is_compatible("mfh265enc");
    if first {
        proof {
            assert(answered(is_compatible, auto_encoder(0).1, true));
            assert(first_compatible(is_compatible, 0));
        }
        return Ok((Codec::H265, "mfh265enc"));
    }
    proof {
        assert(answered(is_compatible, auto_encoder(0).1, false));
        assert(auto_encoder(1).1 == "nvd3d11h265enc"@);
    }
    let second = is_compatible("nvd3d11h265enc");
    if second {
        proof {
            assert(answered(is_compatible, auto_encoder(1).1, true));
            assert(first_compatible(is_compatible, 1));
        }
        return Ok((Codec::H265, "nvd3d11h265enc"));
    }
    proof {
        assert(answered(is_compatible, auto_encoder(1).1, false));
        assert(auto_encoder(2).1 == "mfh264enc"@);
    }
    let third = is_compatible("mfh264enc");
    if third {
        proof {
            assert(answered(is_compatible, auto_encoder(2).1, true));
            assert(first_compatible(is_compatible, 2));
        }
        return Ok((Codec::H264, "mfh264enc"));
    }
    proof {
        assert(answered(is_compatible, auto_encoder(2).1, false));
        assert(auto_encoder(3).1 == "nvd3d11h264enc"@);
    }
    let fourth = is_compatible("nvd3d11h264enc");
    if fourth {
        proof {
            assert(answered(is_compatible, auto_encoder(3).1, true));
            assert(first_compatible(is_compatible, 3));
        }
        return Ok((Codec::H264, "nvd3d11h264enc"));
    }
    proof {
        assert(answered(is_compatible, auto_encoder(3).1, false));
    }
    Err(
        "no compatible zero-copy D3D11 encoder found; attempted mfh265enc, nvd3d11h265enc, mfh264enc, nvd3d11h264enc. Update the graphics driver or install a GStreamer hardware encoder plugin".to_owned(),
    )
}

/// The description whose success shows that an encoder takes captured frames.
pub fn supports_d3d11_input(factory: &str) -> (description: String)
    ensures
        description@
            == "d3d11convert ! video/x-raw(memory:D3D11Memory),format=NV12,width=1280,height=720 ! "@
            + factory@,
{
    let mut text =
        "d3d11convert ! video/x-raw(memory:D3D11Memory),format=NV12,width=1280,height=720 ! ".to_owned();
    text.append(factory);
    text
}

/// What is captured, and how it is encoded.
#[derive(Debug, Clone, Copy)]
pub struct CaptureSettings {
    /// The captured window; zero stands for the whole screen.
    pub hwnd: isize,
    pub codec: Codec,
    pub encoder: &'static str,
    /// Kilobits per second.
    pub bitrate: u32,
    pub fps: u32,
    /// The size to scale down to, or the window's own size.
    pub scale: Option<(u32, u32)>,
    /// Capture audio of this process only; zero captures everything, none
    /// captures nothing.
    pub audio_pid: Option<u32>,
}

impl Default for CaptureSettings {
    fn default() -> (settings: Self)
        ensures
            settings.hwnd == 0,
            settings.codec == Codec::H265,
            settings.encoder@ == "mfh265enc"@,
            settings.bitrate == 30_000,
            settings.fps == 60,
            settings.scale is None,
            settings.audio_pid is None,
    {
        CaptureSettings {
            hwnd: 0,
            codec: Codec::H265,
            encoder: "mfh265enc",
            bitrate: 30_000,
            fps: 60,
            scale: None,
            audio_pid: None,
        }
    }
}

/// What the audio source records: one process and its children, everything but
/// one process and its children, or everything.
pub open spec fn audio_scope(pid: u32, exclude_pid: Option<u32>) -> Seq<char> {
    if pid != 0 {
        "loopback-mode=include-process-tree loopback-target-pid="@ + text_ops::decimal(pid as nat)
            + " "@
    } else {
        match exclude_pid {
            Some(ui) => "loopback-mode=exclude-process-tree loopback-target-pid="@
                + text_ops::decimal(ui as nat) + " "@,
            None => Seq::empty(),
        }
    }
}

pub open spec fn audio_head() -> Seq<char> {
    "wasapi2src loopback=true "@
}

pub open spec fn audio_tail() -> Seq<char> {
    "loopback-silence-on-device-mute=true buffer-time=100000 latency-time=20000 ! queue max-size-buffers=10 leaky=downstream ! audioconvert ! audioresample ! audio/x-raw,format=S16LE,rate=48000,channels=2,layout=interleaved ! opusenc bitrate=128000 frame-size=10 ! rtpopuspay"@
}

/// The description of the audio capture chain.
pub open spec fn audio_chain(pid: u32, exclude_pid: Option<u32>) -> Seq<char> {
    audio_head() + audio_scope(pid, exclude_pid) + audio_tail()
}

/// Audio capture, scoped to one process. A `pid` of zero stands for the whole
/// screen, where everything is recorded but the sounds of `exclude_pid`.
pub fn build_audio_chain(pid: u32, exclude_pid: Option<u32>) -> (chain: String)
    ensures
        chain@ == audio_chain(pid, exclude_pid),
{
    let mut scope = String::new();
    if pid != 0 {
        scope.append("loopback-mode=include-process-tree loopback-target-pid=");
        scope.append(decimal_string(pid as u128).as_str());
        scope.append(" ");
        proof {
            assert(scope@ =~= audio_scope(pid, exclude_pid));
        }
    } else if let Some(ui) = exclude_pid {
        scope.append("loopback-mode=exclude-process-tree loopback-target-pid=");
        scope.append(decimal_string(ui as u128).as_str());
        scope.append(" ");
        proof {
            assert(scope@ =~= audio_scope(pid, exclude_pid));
        }
    }
    let mut text = "wasapi2src loopback=true ".to_owned();
    text.append(scope.as_str());
    text.append(
        "loopback-silence-on-device-mute=true buffer-time=100000 latency-time=20000 ! queue max-size-buffers=10 leaky=downstream ! audioconvert ! audioresample ! audio/x-raw,format=S16LE,rate=48000,channels=2,layout=interleaved ! opusenc bitrate=128000 frame-size=10 ! rtpopuspay",
    );
    text
}

/// Nowhere in `text` an `x` stands behind an `e`.
spec fn no_ex(text: Seq<char>) -> bool {
    forall|i: int| 0 < i < text.len() && #[trigger] text[i] == 'x' ==> text[i - 1] != 'e'
}

proof fn lemma_no_ex(a: Seq<char>, b: Seq<char>)
    requires
        no_ex(a),
        no_ex(b),
        b.len() > 0 ==> b[0] != 'x',
    ensures
        no_ex(a + b),
{
    let text = a + b;
    assert forall|i: int| 0 < i < text.len() && #[trigger] text[i] == 'x' implies text[i - 1]
        != 'e' by {
        if i < a.len() {
            assert(a[i] == 'x');
        } else {
            assert(b[i - a.len()] == 'x');
        }
    }
}

#[verifier::rlimit(40)]
proof fn lemma_audio_parts_no_ex()
    ensures
        no_ex(audio_head()),
        no_ex("loopback-mode=include-process-tree loopback-target-pid="@),
        no_ex(audio_tail()),
        audio_tail().len() > 0,
        audio_tail()[0] == 'l',
        "loopback-mode=include-process-tree loopback-target-pid="@.len() > 0,
        "loopback-mode=include-process-tree loopback-target-pid="@[0] == 'l',
{
    reveal_strlit("wasapi2src loopback=true ");
    reveal_strlit("loopback-mode=include-process-tree loopback-target-pid=");
    reveal_strlit(
        "loopback-silence-on-device-mute=true buffer-time=100000 latency-time=20000 ! queue max-size-buffers=10 leaky=downstream ! audioconvert ! audioresample ! audio/x-raw,format=S16LE,rate=48000,channels=2,layout=interleaved ! opusenc bitrate=128000 frame-size=10 ! rtpopuspay",
    );
}

/// Sharing one window records only that window's process, whatever else is
/// offered for exclusion: nothing in the chain speaks of excluding.
pub proof fn one_window_is_recorded_alone(pid: u32, exclude_pid: Option<u32>)
    requires
        pid != 0,
    ensures
        audio_chain(pid, exclude_pid) == audio_chain(pid, None),
        text_ops::mentions(
            audio_chain(pid, exclude_pid),
            "loopback-mode=include-process-tree loopback-target-pid="@ + text_ops::decimal(
                pid as nat,
            ) + " "@,
        ),
        !text_ops::mentions(audio_chain(pid, exclude_pid), "exclude"@),
{
    let scope = audio_scope(pid, exclude_pid);
    assert(scope.subrange(0, 0int + scope.len()) =~= scope);
    text_ops::part_is_mentioned(audio_head(), scope, audio_tail(), scope);
    let lead = "loopback-mode=include-process-tree loopback-target-pid="@;
    let digits = text_ops::decimal(pid as nat);
    let chain = audio_chain(pid, exclude_pid);
    lemma_audio_parts_no_ex();
    text_ops::decimal_is_read_back(pid as nat);
    assert forall|i: int| 0 <= i < digits.len() implies #[trigger] digits[i] != 'x' by {
        assert(text_ops::digit(digits[i]));
    }
    reveal_strlit(" ");
    lemma_no_ex(lead, digits);
    lemma_no_ex(lead + digits, " "@);
    assert(scope == lead + digits + " "@);
    assert(scope[0] == lead[0]);
    lemma_no_ex(audio_head(), scope);
    lemma_no_ex(audio_head() + scope, audio_tail());
    reveal_strlit("exclude");
    assert forall|i: int| 0 <= i <= chain.len() - 7 implies #[trigger] chain.subrange(i, i + 7)
        != "exclude"@ by {
        let part = chain.subrange(i, i + 7);
        if part == "exclude"@ {
            assert(part[0] == chain[i]);
            assert(part[1] == chain[i + 1]);
            assert(chain[i + 1] == 'x');
        }
    }
}

/// The elements that the audio chain is made of.
pub open spec fn audio_elements() -> Seq<Seq<char>> {
    seq!["wasapi2src"@, "audioconvert"@, "audioresample"@, "opusenc"@, "rtpopuspay"@]
}

/// Verifies that the audio elements are installed.
pub fn check_audio_elements(installed: &Vec<String>) -> (result: Result<(), String>)
    ensures
        ({
            let missing = text_ops::absent(audio_elements(), text_ops::texts(installed@));
            &&& result is Ok <==> missing.len() == 0
            &&& result is Err ==> result->Err_0@ == "missing audio elements: "@
                + text_ops::joined(missing, ", "@)
        }),
{
    let required: [&str; 5] = [
        "wasapi2src",
        "audioconvert",
        "audioresample",
        "opusenc",
        "rtpopuspay",
    ];
    let missing = absent_from(&required, installed);
    proof {
        assert(text_ops::slices(required@) =~= audio_elements());
        assert(text_ops::texts(missing@).len() == missing@.len());
    }
    if missing.is_empty() {
        return Ok(());
    }
    let mut text = "missing audio elements: ".to_owned();
    text.append(join(&missing, ", ").as_str());
    Err(text)
}

/// The audio preflight asks for every element of the audio chain, whatever is
/// recorded.
pub proof fn preflight_covers_the_audio_chain(pid: u32, exclude_pid: Option<u32>)
    ensures
        forall|i: int|
            0 <= i < audio_elements().len() ==> text_ops::mentions(
                audio_chain(pid, exclude_pid),
                #[trigger] audio_elements()[i],
            ),
{
    let head = audio_head();
    let scope = audio_scope(pid, exclude_pid);
    let chain = audio_chain(pid, exclude_pid);
    reveal_strlit("wasapi2src loopback=true ");
    reveal_strlit("loopback-silence-on-device-mute=true buffer-time=100000 latency-time=20000 ! queue max-size-buffers=10 leaky=downstream ! audioconvert ! audioresample ! audio/x-raw,format=S16LE,rate=48000,channels=2,layout=interleaved ! opusenc bitrate=128000 frame-size=10 ! rtpopuspay");
    reveal_strlit("wasapi2src");
    assert(head.subrange(0, 0int + 10) =~= "wasapi2src"@);
    text_ops::part_is_mentioned(Seq::empty(), head, scope + audio_tail(), "wasapi2src"@);
    assert(Seq::<char>::empty() + head + (scope + audio_tail()) =~= chain);
    assert(head + scope + audio_tail() + Seq::<char>::empty() =~= chain);
    reveal_strlit("audioconvert");
    assert(audio_tail().subrange(122, 122int + 12) =~= "audioconvert"@);
    text_ops::part_is_mentioned(head + scope, audio_tail(), Seq::empty(), "audioconvert"@);
    reveal_strlit("audioresample");
    assert(audio_tail().subrange(137, 137int + 13) =~= "audioresample"@);
    text_ops::part_is_mentioned(head + scope, audio_tail(), Seq::empty(), "audioresample"@);
    reveal_strlit("opusenc");
    assert(audio_tail().subrange(221, 221int + 7) =~= "opusenc"@);
    text_ops::part_is_mentioned(head + scope, audio_tail(), Seq::empty(), "opusenc"@);
    reveal_strlit("rtpopuspay");
    assert(audio_tail().subrange(260, 260int + 10) =~= "rtpopuspay"@);
    text_ops::part_is_mentioned(head + scope, audio_tail(), Seq::empty(), "rtpopuspay"@);
}

/// The elements that the capture chain is made of.
pub open spec fn capture_elements(settings: CaptureSettings) -> Seq<Seq<char>> {
    seq!["d3d11screencapturesrc"@, "d3d11convert"@, settings.encoder@, parser_text(settings.codec)]
}

/// The complaint about missing elements.
pub open spec fn missing_elements_text(missing: Seq<Seq<char>>) -> Seq<char> {
    "missing GStreamer elements: "@ + text_ops::joined(missing, ", "@)
        + ". Is the graphics driver and matching hardware encoder available?"@
}

/// Verifies that the elements of the capture chain are installed, and says
/// precisely which are not.
pub fn check_elements(settings: &CaptureSettings, installed: &Vec<String>) -> (result: Result<
    (),
    String,
>)
    ensures
        ({
            let missing = text_ops::absent(capture_elements(*settings), text_ops::texts(installed@));
            &&& result is Ok <==> missing.len() == 0
            &&& result is Err ==> result->Err_0@ == missing_elements_text(missing)
        }),
{
    let required: [&str; 4] = [
        "d3d11screencapturesrc",
        "d3d11convert",
        settings.encoder,
        settings.codec.parser(),
    ];
    let missing = absent_from(&required, installed);
    proof {
        assert(text_ops::slices(required@) =~= capture_elements(*settings));
        assert(text_ops::texts(missing@).len() == missing@.len());
    }
    if missing.is_empty() {
        return Ok(());
    }
    let mut text = "missing GStreamer elements: ".to_owned();
    text.append(join(&missing, ", ").as_str());
    text.append(". Is the graphics driver and matching hardware encoder available?");
    Err(text)
}

/// The source: one window, or the first monitor.
pub open spec fn source_text(hwnd: isize) -> Seq<char> {
    if hwnd == 0 {
        "d3d11screencapturesrc capture-api=wgc monitor-index=0 show-cursor=true"@
    } else {
        "d3d11screencapturesrc window-handle="@ + text_ops::signed_decimal(hwnd as int)
            + " capture-api=wgc window-capture-mode=client show-cursor=false"@
    }
}

pub open spec fn scale_text(scale: Option<(u32, u32)>) -> Seq<char> {
    match scale {
        Some((width, height)) => "! video/x-raw(memory:D3D11Memory),width="@ + text_ops::decimal(
            width as nat,
        ) + ",height="@ + text_ops::decimal(height as nat) + " "@,
        None => Seq::empty(),
    }
}

/// The description of the capture chain, up to and with the parser.
pub open spec fn capture_chain(settings: CaptureSettings) -> Seq<char> {
    source_text(settings.hwnd) + " ! video/x-raw(memory:D3D11Memory),framerate="@
        + text_ops::decimal(settings.fps as nat)
        + "/1 ! queue max-size-buffers=3 leaky=downstream ! d3d11convert "@ + scale_text(
        settings.scale,
    ) + "! "@ + settings.encoder@ + " name=stream-encoder bitrate="@ + text_ops::decimal(
        settings.bitrate as nat,
    ) + " ! "@ + parser_text(settings.codec)
}

/// Builds the half of the pipeline that stays in video memory. The frame rate
/// stands directly behind the source, which is what can follow it.
pub fn build_capture_chain(settings: &CaptureSettings) -> (chain: String)
    ensures
        chain@ == capture_chain(*settings),
{
    let mut scale = String::new();
    if let Some((width, height)) = settings.scale {
        scale.append("! video/x-raw(memory:D3D11Memory),width=");
        scale.append(decimal_string(width as u128).as_str());
        scale.append(",height=");
        scale.append(decimal_string(height as u128).as_str());
        scale.append(" ");
        proof {
            assert(scale@ =~= scale_text(settings.scale));
        }
    }
    let mut text = if settings.hwnd == 0 {
        "d3d11screencapturesrc capture-api=wgc monitor-index=0 show-cursor=true".to_owned()
    } else {
        let mut source = "d3d11screencapturesrc window-handle=".to_owned();
        source.append(signed_decimal_string(settings.hwnd as i128).as_str());
        source.append(" capture-api=wgc window-capture-mode=client show-cursor=false");
        source
    };
    text.append(" ! video/x-raw(memory:D3D11Memory),framerate=");
    text.append(decimal_string(settings.fps as u128).as_str());
    text.append("/1 ! queue max-size-buffers=3 leaky=downstream ! d3d11convert ");
    text.append(scale.as_str());
    text.append("! ");
    text.append(settings.encoder);
    text.append(" name=stream-encoder bitrate=");
    text.append(decimal_string(settings.bitrate as u128).as_str());
    text.append(" ! ");
    text.append(settings.codec.parser());
    text
}

/// The capture preflight asks for every element of the capture chain that the
/// settings can change, and the chain uses the selected encoder whatever the
/// codec.
pub proof fn capture_chain_uses_what_was_selected(settings: CaptureSettings)
    ensures
        text_ops::mentions(capture_chain(settings), settings.encoder@),
        text_ops::mentions(capture_chain(settings), parser_text(settings.codec)),
{
    let encoder = settings.encoder@;
    let parser = parser_text(settings.codec);
    let before = source_text(settings.hwnd) + " ! video/x-raw(memory:D3D11Memory),framerate="@
        + text_ops::decimal(settings.fps as nat)
        + "/1 ! queue max-size-buffers=3 leaky=downstream ! d3d11convert "@ + scale_text(
        settings.scale,
    ) + "! "@;
    let between = " name=stream-encoder bitrate="@ + text_ops::decimal(settings.bitrate as nat)
        + " ! "@;
    assert(encoder.subrange(0, 0int + encoder.len()) =~= encoder);
    assert(parser.subrange(0, 0int + parser.len()) =~= parser);
    text_ops::part_is_mentioned(before, encoder, between + parser, encoder);
    text_ops::part_is_mentioned(before + encoder + between, parser, Seq::empty(), parser);
    assert(before + encoder + (between + parser) =~= capture_chain(settings));
    assert(before + encoder + between + parser + Seq::<char>::empty() =~= capture_chain(settings));
}

/// Two seconds of frames, as far as the property can hold them.
pub fn gop_size(fps: u32) -> (frames: i32)
    ensures
        frames == (if fps * 2 <= i32::MAX {
            fps * 2
        } else {
            i32::MAX as int
        }),
{
    if fps <= 1_073_741_823 {
        (fps * 2) as i32
    } else {
        i32::MAX
    }
}

/// The value of an element's property.
#[derive(Debug, Clone, Copy, PartialEq, Eq)]
pub enum PropertyValue {
    Flag(bool),
    Int(i32),
    Uint(u32),
    Long(u64),
    Signed(i64),
    /// A value given by its textual form.
    Text(&'static str),
}

/// A property that is set where the element has it.
#[derive(Debug, Clone, Copy, PartialEq, Eq)]
pub struct Property {
    pub name: &'static str,
    pub value: PropertyValue,
}

/// The keyframe distance, as far as the property can hold it.
pub open spec fn gop_property(frames: u32) -> Property {
    Property {
        name: "gop-size",
        value: PropertyValue::Int(
            if frames <= i32::MAX {
                frames as i32
            } else {
                i32::MAX
            },
        ),
    }
}

pub fn set_encoder_gop(frames: u32) -> (property: Property)
    ensures
        property == gop_property(frames),
{
    let bounded: i32 = if frames <= 2_147_483_647 {
        frames as i32
    } else {
        i32::MAX
    };
    Property { name: "gop-size", value: PropertyValue::Int(bounded) }
}

/// An encoder of the family that works on D3D11 textures through NVIDIA's
/// interface.
pub open spec fn nvidia_encoder(encoder: Seq<char>) -> bool {
    text_ops::begins_with(encoder, "nvd3d11"@)
}

/// The settings of an encoder: a keyframe every two seconds, at most one
/// forced keyframe a second, and low latency in the terms of its family.
pub open spec fn encoder_properties(encoder: Seq<char>, codec: Codec, fps: u32) -> Seq<Property> {
    let common = seq![
        gop_property(
            if fps * 2 <= i32::MAX {
                (fps * 2) as u32
            } else {
                i32::MAX as u32
            },
        ),
        Property {
            name: "min-force-key-unit-interval",
            value: PropertyValue::Long(1_000_000_000),
        },
    ];
    if nvidia_encoder(encoder) {
        common + seq![
            Property { name: "preset", value: PropertyValue::Text("p5") },
            Property { name: "tune", value: PropertyValue::Text("low-latency") },
            Property { name: "rc-mode", value: PropertyValue::Text("cbr") },
            Property { name: "spatial-aq", value: PropertyValue::Flag(true) },
        ]
    } else if codec == Codec::H264 || codec == Codec::H265 {
        common + seq![
            Property { name: "low-latency", value: PropertyValue::Flag(true) },
            Property { name: "rc-mode", value: PropertyValue::Text("cbr") },
            Property { name: "quality-vs-speed", value: PropertyValue::Uint(50) },
        ]
    } else {
        common
    }
}

pub fn configure_encoder(encoder: &str, codec: Codec, fps: u32) -> (properties: Vec<Property>)
    ensures
        properties@ == encoder_properties(encoder@, codec, fps),
{
    let mut properties: Vec<Property> = Vec::new();
    properties.push(set_encoder_gop(gop_size(fps) as u32));
    properties.push(
        Property {
            name: "min-force-key-unit-interval",
            value: PropertyValue::Long(MIN_FORCE_KEY_UNIT_INTERVAL_NS),
        },
    );
    if starts_with(encoder, "nvd3d11") {
        properties.push(Property { name: "preset", value: PropertyValue::Text("p5") });
        properties.push(Property { name: "tune", value: PropertyValue::Text("low-latency") });
        properties.push(Property { name: "rc-mode", value: PropertyValue::Text("cbr") });
        properties.push(Property { name: "spatial-aq", value: PropertyValue::Flag(true) });
    } else if matches!(codec, Codec::H264 | Codec::H265) {
        properties.push(Property { name: "low-latency", value: PropertyValue::Flag(true) });
        properties.push(Property { name: "rc-mode", value: PropertyValue::Text("cbr") });
        properties.push(Property { name: "quality-vs-speed", value: PropertyValue::Uint(50) });
    }
    proof {
        assert(properties@ =~= encoder_properties(encoder@, codec, fps));
    }
    properties
}

/// A recording: the capture chain, the settings of its encoder, and the
/// elements that write the file.
#[derive(Debug)]
pub struct RecordPlan {
    pub capture: String,
    pub encoder_name: &'static str,
    pub encoder_properties: Vec<Property>,
    pub muxer: &'static str,
    pub sink: &'static str,
    pub location: String,
}

/// Plans a recording to a file, once every element of the capture chain is
/// known to be there. The location is kept out of the description, whose
/// syntax would read backslashes as escapes.
pub fn build_record_pipeline(
    settings: &CaptureSettings,
    installed: &Vec<String>,
    output: &str,
) -> (plan: Result<RecordPlan, String>)
    ensures
        ({
            let missing = text_ops::absent(capture_elements(*settings), text_ops::texts(installed@));
            &&& plan is Ok <==> missing.len() == 0
            &&& plan is Err ==> plan->Err_0@ == missing_elements_text(missing)
            &&& plan is Ok ==> {
                &&& plan->Ok_0.capture@ == capture_chain(*settings)
                &&& plan->Ok_0.encoder_name@ == "stream-encoder"@
                &&& plan->Ok_0.encoder_properties@ == encoder_properties(
                    settings.encoder@,
                    settings.codec,
                    settings.fps,
                )
                &&& plan->Ok_0.muxer@ == "matroskamux"@
                &&& plan->Ok_0.sink@ == "filesink"@
                &&& plan->Ok_0.location@ == output@
            }
        }),
{
    match check_elements(settings, installed) {
        Err(error) => Err(error),
        Ok(()) => Ok(
            RecordPlan {
                capture: build_capture_chain(settings),
                encoder_name: "stream-encoder",
                encoder_properties: configure_encoder(
                    settings.encoder,
                    settings.codec,
                    settings.fps,
                ),
                muxer: "matroskamux",
                sink: "filesink",
                location: output.to_owned(),
            },
        ),
    }
}

} // verus!
