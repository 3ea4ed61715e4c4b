//! WebRTC transport: which streams are accepted, what they are built of, and
//! who owns them.

pub mod attach;
pub mod laws;
pub mod loopback;

use vstd::prelude::*;
use vstd::string::*;

use crate::json;
use crate::pipeline::{self, Codec, Property, PropertyValue};
use crate::text_ops::{self, chars_of, decimal_string, parse_unsigned, same_text};

verus! {

/// An element to be made.
#[derive(Debug)]
pub struct ElementPlan {
    pub logical_name: &'static str,
    pub factory: &'static str,
    pub properties: Vec<Property>,
    /// What is said where it cannot be made.
    pub missing: Option<String>,
}

pub struct PlanModel {
    pub logical_name: Seq<char>,
    pub factory: Seq<char>,
    pub properties: Seq<Property>,
    pub missing: Option<Seq<char>>,
}

impl View for ElementPlan {
    type V = PlanModel;

    open spec fn view(&self) -> PlanModel {
        PlanModel {
            logical_name: self.logical_name@,
            factory: self.factory@,
            properties: self.properties@,
            missing: json::optional_text(self.missing),
        }
    }
}

/// What is said of an element whose factory is not there.
pub open spec fn unavailable(factory: Seq<char>) -> Option<Seq<char>> {
    Some(factory + " is unavailable"@)
}

fn unavailable_text(factory: &str) -> (text: Option<String>)
    ensures
        json::optional_text(text) == unavailable(factory@),
{
    let mut text = factory.to_owned();
    text.append(" is unavailable");
    Some(text)
}

/// An element without properties.
pub open spec fn plain(
    logical_name: Seq<char>,
    factory: Seq<char>,
    missing: Option<Seq<char>>,
) -> PlanModel {
    PlanModel { logical_name, factory, properties: Seq::empty(), missing }
}

fn plain_element(
    logical_name: &'static str,
    factory: &'static str,
    missing: Option<String>,
) -> (plan: ElementPlan)
    ensures
        plan@ == plain(logical_name@, factory@, json::optional_text(missing)),
{
    let properties: Vec<Property> = Vec::new();
    proof {
        assert(properties@ =~= Seq::empty());
    }
    ElementPlan { logical_name, factory, properties, missing }
}

pub open spec fn payloader_properties(codec: Codec) -> Seq<Property> {
    match codec {
        Codec::Av1 => Seq::empty(),
        Codec::H264 => seq![
            Property { name: "config-interval", value: PropertyValue::Int((-1) as i32) },
            Property { name: "aggregate-mode", value: PropertyValue::Text("zero-latency") },
        ],
        Codec::H265 => seq![
            Property { name: "config-interval", value: PropertyValue::Int((-1) as i32) },
        ],
    }
}

/// The payloader of a codec. H.264 and H.265 send their headers again with
/// each keyframe, so that a viewer can join at any time.
pub fn build_video_payloader(codec: Codec) -> (plan: ElementPlan)
    ensures
        plan@ == (PlanModel {
            logical_name: "video-payloader"@,
            factory: pipeline::payloader_text(codec),
            properties: payloader_properties(codec),
            missing: Some(pipeline::payloader_text(codec) + " missing"@),
        }),
{
    let factory = codec.payloader();
    let mut properties: Vec<Property> = Vec::new();
    match codec {
        Codec::Av1 => {},
        Codec::H264 => {
            properties.push(Property { name: "config-interval", value: PropertyValue::Int(-1) });
            properties.push(
                Property { name: "aggregate-mode", value: PropertyValue::Text("zero-latency") },
            );
        },
        Codec::H265 => {
            properties.push(Property { name: "config-interval", value: PropertyValue::Int(-1) });
        },
    }
    proof {
        assert(properties@ =~= payloader_properties(codec));
    }
    let mut missing = factory.to_owned();
    missing.append(" missing");
    ElementPlan { logical_name: "video-payloader", factory, properties, missing: Some(missing) }
}

pub open spec fn depayloader_plan(codec: Codec) -> PlanModel {
    PlanModel {
        logical_name: "video-depayloader"@,
        factory: pipeline::depayloader_text(codec),
        properties: seq![
            Property { name: "request-keyframe", value: PropertyValue::Flag(true) },
            Property { name: "wait-for-keyframe", value: PropertyValue::Flag(true) },
        ],
        missing: unavailable(pipeline::depayloader_text(codec)),
    }
}

/// The depayloader of a codec. After a loss it asks for a keyframe and waits
/// for it.
pub fn build_video_depayloader(codec: Codec) -> (plan: ElementPlan)
    ensures
        plan@ == depayloader_plan(codec),
{
    let factory = codec.depayloader();
    let mut properties: Vec<Property> = Vec::new();
    properties.push(Property { name: "request-keyframe", value: PropertyValue::Flag(true) });
    properties.push(Property { name: "wait-for-keyframe", value: PropertyValue::Flag(true) });
    proof {
        assert(properties@ =~= depayloader_plan(codec).properties);
    }
    ElementPlan {
        logical_name: "video-depayloader",
        factory,
        properties,
        missing: unavailable_text(factory),
    }
}

pub open spec fn av1_decoder_text(selection: Option<Seq<char>>, file_output: bool) -> Seq<char> {
    if !file_output && selection == Some("software"@) {
        "dav1ddec"@
    } else {
        "d3d11av1dec"@
    }
}

/// The AV1 decoder. The software decoder can be selected for a window, to
/// compare with.
pub fn av1_decoder_factory(selection: Option<&str>, file_output: bool) -> (factory: &'static str)
    ensures
        factory@ == av1_decoder_text(
            match selection {
                Some(word) => Some(word@),
                None => None,
            },
            file_output,
        ),
{
    if file_output {
        return "d3d11av1dec";
    }
    if let Some(word) = selection {
        if same_text(word, "software") {
            return "dav1ddec";
        }
    }
    "d3d11av1dec"
}

pub open spec fn decoder_factory_text(
    codec: Codec,
    selection: Option<Seq<char>>,
    file_output: bool,
) -> Seq<char> {
    if codec == Codec::Av1 {
        av1_decoder_text(selection, file_output)
    } else {
        pipeline::decoder_text(codec)
    }
}

pub open spec fn decoder_plan(
    codec: Codec,
    selection: Option<Seq<char>>,
    file_output: bool,
) -> PlanModel {
    PlanModel {
        logical_name: "video-decoder"@,
        factory: decoder_factory_text(codec, selection, file_output),
        properties: seq![
            Property { name: "automatic-request-sync-points", value: PropertyValue::Flag(true) },
            Property { name: "discard-corrupted-frames", value: PropertyValue::Flag(true) },
        ],
        missing: unavailable(decoder_factory_text(codec, selection, file_output)),
    }
}

/// The decoder of a codec. It drops corrupted frames and asks for recovery.
pub fn build_video_decoder(codec: Codec, selection: Option<&str>, file_output: bool) -> (plan:
    ElementPlan)
    ensures
        plan@ == decoder_plan(
            codec,
            match selection {
                Some(word) => Some(word@),
                None => None,
            },
            file_output,
        ),
{
    let av1 = match codec {
        Codec::Av1 => true,
        _ => false,
    };
    let factory = if av1 {
        av1_decoder_factory(selection, file_output)
    } else {
        codec.decoder()
    };
    let mut properties: Vec<Property> = Vec::new();
    properties.push(
        Property { name: "automatic-request-sync-points", value: PropertyValue::Flag(true) },
    );
    properties.push(
        Property { name: "discard-corrupted-frames", value: PropertyValue::Flag(true) },
    );
    proof {
        assert(properties@ =~= seq![
            Property { name: "automatic-request-sync-points", value: PropertyValue::Flag(true) },
            Property { name: "discard-corrupted-frames", value: PropertyValue::Flag(true) },
        ]);
    }
    ElementPlan {
        logical_name: "video-decoder",
        factory,
        properties,
        missing: unavailable_text(factory),
    }
}

pub open spec fn live_queue_plan() -> PlanModel {
    PlanModel {
        logical_name: "video-presentation-queue"@,
        factory: "queue"@,
        properties: seq![
            Property { name: "max-size-buffers", value: PropertyValue::Uint(1) },
            Property { name: "max-size-bytes", value: PropertyValue::Uint(0) },
            Property { name: "max-size-time", value: PropertyValue::Long(0) },
            Property { name: "leaky", value: PropertyValue::Text("downstream") },
        ],
        missing: Some("video presentation queue is unavailable"@),
    }
}

/// The queue before the screen keeps one decoded frame, the newest.
pub fn build_live_video_queue() -> (plan: ElementPlan)
    ensures
        plan@ == live_queue_plan(),
{
    let mut properties: Vec<Property> = Vec::new();
    properties.push(Property { name: "max-size-buffers", value: PropertyValue::Uint(1) });
    properties.push(Property { name: "max-size-bytes", value: PropertyValue::Uint(0) });
    properties.push(Property { name: "max-size-time", value: PropertyValue::Long(0) });
    properties.push(Property { name: "leaky", value: PropertyValue::Text("downstream") });
    proof {
        assert(properties@ =~= live_queue_plan().properties);
    }
    ElementPlan {
        logical_name: "video-presentation-queue",
        factory: "queue",
        properties,
        missing: Some("video presentation queue is unavailable".to_owned()),
    }
}

pub open spec fn video_sink_plan() -> PlanModel {
    PlanModel {
        logical_name: "video-sink"@,
        factory: "d3d11videosink"@,
        properties: seq![
            Property { name: "async", value: PropertyValue::Flag(false) },
            Property { name: "sync", value: PropertyValue::Flag(false) },
            Property { name: "force-aspect-ratio", value: PropertyValue::Flag(true) },
        ],
        missing: Some("d3d11videosink is unavailable"@),
    }
}

pub fn build_video_sink() -> (plan: ElementPlan)
    ensures
        plan@ == video_sink_plan(),
{
    let mut properties: Vec<Property> = Vec::new();
    properties.push(Property { name: "async", value: PropertyValue::Flag(false) });
    properties.push(Property { name: "sync", value: PropertyValue::Flag(false) });
    properties.push(Property { name: "force-aspect-ratio", value: PropertyValue::Flag(true) });
    proof {
        assert(properties@ =~= video_sink_plan().properties);
    }
    ElementPlan {
        logical_name: "video-sink",
        factory: "d3d11videosink",
        properties,
        missing: Some("d3d11videosink is unavailable".to_owned()),
    }
}

pub open spec fn audio_sink_plan(primary: bool) -> PlanModel {
    PlanModel {
        logical_name: "audio-sink"@,
        factory: if primary {
            "wasapi2sink"@
        } else {
            "wasapisink"@
        },
        properties: seq![
            Property { name: "async", value: PropertyValue::Flag(false) },
            Property { name: "buffer-time", value: PropertyValue::Signed(40_000) },
            Property { name: "latency-time", value: PropertyValue::Signed(10_000) },
        ],
        missing: if primary {
            None
        } else {
            Some("audio sink is unavailable"@)
        },
    }
}

/// The sink for sound: the first choice, or the one that is tried after the
/// first could not be made.
pub fn build_audio_sink(primary: bool) -> (plan: ElementPlan)
    ensures
        plan@ == audio_sink_plan(primary),
{
    let mut properties: Vec<Property> = Vec::new();
    properties.push(Property { name: "async", value: PropertyValue::Flag(false) });
    properties.push(Property { name: "buffer-time", value: PropertyValue::Signed(40_000) });
    properties.push(Property { name: "latency-time", value: PropertyValue::Signed(10_000) });
    proof {
        assert(properties@ =~= audio_sink_plan(primary).properties);
    }
    if primary {
        ElementPlan { logical_name: "audio-sink", factory: "wasapi2sink", properties, missing: None }
    } else {
        ElementPlan {
            logical_name: "audio-sink",
            factory: "wasapisink",
            properties,
            missing: Some("audio sink is unavailable".to_owned()),
        }
    }
}

pub open spec fn audio_decoder_plan() -> PlanModel {
    PlanModel {
        logical_name: "audio-decoder"@,
        factory: "opusdec"@,
        properties: seq![Property { name: "plc", value: PropertyValue::Flag(true) }],
        missing: None,
    }
}

/// The decoder for sound conceals losses without waiting for later packets.
pub fn build_audio_decoder() -> (plan: ElementPlan)
    ensures
        plan@ == audio_decoder_plan(),
{
    let mut properties: Vec<Property> = Vec::new();
    properties.push(Property { name: "plc", value: PropertyValue::Flag(true) });
    proof {
        assert(properties@ =~= audio_decoder_plan().properties);
    }
    ElementPlan { logical_name: "audio-decoder", factory: "opusdec", properties, missing: None }
}

/// The encoder and parser that write a received stream to a file.
pub fn file_output_factories(codec: Codec) -> (factories: (&'static str, &'static str))
    ensures
        factories.0@ == pipeline::encoder_text(codec),
        factories.1@ == pipeline::parser_text(codec),
{
    (codec.encoder(), codec.parser())
}

/// Where the received video should end up.
#[derive(Debug, PartialEq, Eq)]
pub enum Output {
    /// A window of this process, with controls composited on top.
    Window,
    /// A file, so the result can be verified without a display.
    File(String),
}

/// The elements behind the decoder.
pub open spec fn output_plans(codec: Codec, output: Output) -> Seq<PlanModel> {
    match output {
        Output::Window => seq![
            live_queue_plan(),
            plain("video-overlay"@, "overlaycomposition"@, Some("overlaycomposition missing"@)),
            video_sink_plan(),
        ],
        Output::File(path) => seq![
            PlanModel {
                logical_name: "video-file-encoder"@,
                factory: pipeline::encoder_text(codec),
                properties: seq![Property { name: "bitrate", value: PropertyValue::Uint(25_000) }],
                missing: None,
            },
            plain("video-file-parser"@, pipeline::parser_text(codec), None),
            plain("video-file-muxer"@, "matroskamux"@, None),
            plain("video-file-sink"@, "filesink"@, None),
        ],
    }
}

/// The elements of a receive branch, in the order in which they are linked.
pub open spec fn receive_plans(
    codec: Codec,
    selection: Option<Seq<char>>,
    output: Output,
) -> Seq<PlanModel> {
    seq![
        depayloader_plan(codec),
        plain(
            "video-parser"@,
            pipeline::parser_text(codec),
            unavailable(pipeline::parser_text(codec)),
        ),
        decoder_plan(codec, selection, output is File),
    ] + output_plans(codec, output)
}

pub open spec fn plans(elements: Seq<ElementPlan>) -> Seq<PlanModel> {
    elements.map_values(|plan: ElementPlan| plan@)
}

/// A receive branch: its elements in the order in which they are linked, the
/// file to write to, and what happens once it stands.
#[derive(Debug)]
pub struct ReceiveBranch {
    pub codec: Codec,
    pub elements: Vec<ElementPlan>,
    /// The location of the last element, where that is a file.
    pub location: Option<String>,
    /// The window is shown once the branch stands.
    pub reveal: bool,
    /// The frame rate to show, where the sender advertised one.
    pub shown_fps: Option<u32>,
}

/// Why no receive branch is built for a pad with this encoding.
pub open spec fn encoding_problem(encoding: Option<Seq<char>>) -> Option<Seq<char>> {
    match encoding {
        None => Some("video RTP pad has no encoding name"@),
        Some(encoding) => if pipeline::codec_of_encoding(encoding) is None {
            Some("unsupported video RTP encoding"@)
        } else {
            None
        },
    }
}

/// Plans depayload, parse, hardware decode and output for a video stream.
pub fn build_receive_branch(
    encoding: &Option<String>,
    output: &Output,
    decoder_selection: &Option<String>,
    advertised_rate: Option<u32>,
) -> (branch: Result<ReceiveBranch, String>)
    ensures
        match encoding_problem(json::optional_text(*encoding)) {
            Some(problem) => branch matches Err(text) && text@ == problem,
            None => branch matches Ok(plan) && {
                let codec = pipeline::codec_of_encoding(encoding->0@)->0;
                &&& plan.codec == codec
                &&& plans(plan.elements@) == receive_plans(
                    codec,
                    json::optional_text(*decoder_selection),
                    *output,
                )
                &&& plan.reveal == (*output is Window)
                &&& json::optional_text(plan.location) == match *output {
                    Output::Window => None,
                    Output::File(path) => Some(path@),
                }
                &&& plan.shown_fps == if *output is Window {
                    advertised_rate
                } else {
                    None
                }
            },
        },
{
    let encoding = match encoding {
        Some(encoding) => encoding,
        None => return Err("video RTP pad has no encoding name".to_owned()),
    };
    let codec = match Codec::from_rtp_encoding(encoding.as_str()) {
        Some(codec) => codec,
        None => return Err("unsupported video RTP encoding".to_owned()),
    };
    let window = match output {
        Output::Window => true,
        Output::File(_) => false,
    };
    let selection: Option<&str> = match decoder_selection {
        Some(word) => Some(word.as_str()),
        None => None,
    };
    let mut elements: Vec<ElementPlan> = Vec::new();
    elements.push(build_video_depayloader(codec));
    let parser = codec.parser();
    let missing = unavailable_text(parser);
    elements.push(plain_element("video-parser", parser, missing));
    elements.push(build_video_decoder(codec, selection, !window));
    let location: Option<String> = match output {
        Output::Window => {
            elements.push(build_live_video_queue());
            elements.push(
                plain_element(
                    "video-overlay",
                    "overlaycomposition",
                    Some("overlaycomposition missing".to_owned()),
                ),
            );
            elements.push(build_video_sink());
            None
        },
        Output::File(path) => {
            let (encoder, parser) = file_output_factories(codec);
            let mut properties: Vec<Property> = Vec::new();
            properties.push(Property { name: "bitrate", value: PropertyValue::Uint(25_000) });
            proof {
                assert(properties@ =~= seq![
                    Property { name: "bitrate", value: PropertyValue::Uint(25_000) },
                ]);
            }
            elements.push(
                ElementPlan {
                    logical_name: "video-file-encoder",
                    factory: encoder,
                    properties,
                    missing: None,
                },
            );
            elements.push(plain_element("video-file-parser", parser, None));
            elements.push(plain_element("video-file-muxer", "matroskamux", None));
            elements.push(plain_element("video-file-sink", "filesink", None));
            Some(path.as_str().to_owned())
        },
    };
    proof {
        assert(plans(elements@) =~= receive_plans(
            codec,
            json::optional_text(*decoder_selection),
            *output,
        ));
    }
    Ok(
        ReceiveBranch {
            codec,
            elements,
            location,
            reveal: window,
            shown_fps: if window {
                advertised_rate
            } else {
                None
            },
        },
    )
}

/// Where the first volume of a stream comes from.
#[derive(Debug, Clone, Copy, PartialEq, Eq, Structural)]
pub enum InitialVolume {
    /// The viewer has muted the stream.
    Silent,
    /// The volume that the viewer's controls show.
    Overlay,
    /// There are no controls.
    Fallback,
}

/// `muted` is what the controls say, where there are any.
pub fn initial_volume(muted: Option<bool>) -> (volume: InitialVolume)
    ensures
        volume == match muted {
            Some(true) => InitialVolume::Silent,
            Some(false) => InitialVolume::Overlay,
            None => InitialVolume::Fallback,
        },
{
    match muted {
        Some(true) => InitialVolume::Silent,
        Some(false) => InitialVolume::Overlay,
        None => InitialVolume::Fallback,
    }
}

/// The volume control goes by a name of its own in the pipeline.
pub open spec fn volume_plan() -> PlanModel {
    PlanModel {
        logical_name: "audio-volume"@,
        factory: "volume"@,
        properties: seq![Property { name: "name", value: PropertyValue::Text("viewer-volume") }],
        missing: None,
    }
}

fn build_volume() -> (plan: ElementPlan)
    ensures
        plan@ == volume_plan(),
{
    let mut properties: Vec<Property> = Vec::new();
    properties.push(Property { name: "name", value: PropertyValue::Text("viewer-volume") });
    proof {
        assert(properties@ =~= volume_plan().properties);
    }
    ElementPlan { logical_name: "audio-volume", factory: "volume", properties, missing: None }
}

/// The elements of the sound branch: depayload, decode, convert, resample,
/// volume, speakers.
pub open spec fn audio_plans(primary_sink: bool) -> Seq<PlanModel> {
    seq![
        plain("audio-depayloader"@, "rtpopusdepay"@, None),
        audio_decoder_plan(),
        plain("audio-converter"@, "audioconvert"@, None),
        plain("audio-resampler"@, "audioresample"@, None),
        volume_plan(),
        audio_sink_plan(primary_sink),
    ]
}

pub fn build_audio_branch(primary_sink: bool) -> (elements: Vec<ElementPlan>)
    ensures
        plans(elements@) == audio_plans(primary_sink),
{
    let mut elements: Vec<ElementPlan> = Vec::new();
    elements.push(plain_element("audio-depayloader", "rtpopusdepay", None));
    elements.push(build_audio_decoder());
    elements.push(plain_element("audio-converter", "audioconvert", None));
    elements.push(plain_element("audio-resampler", "audioresample", None));
    elements.push(build_volume());
    elements.push(build_audio_sink(primary_sink));
    proof {
        assert(plans(elements@) =~= audio_plans(primary_sink));
    }
    elements
}

/// What the caps of a pad say about its stream.
#[derive(Debug)]
pub struct PadCaps {
    pub encoding_name: Option<String>,
}

/// The encoding that a pad carries: by its caps where they are fixed, or else
/// by those it allows.
pub fn encoding_name(current: &Option<PadCaps>, allowed: &Option<PadCaps>) -> (name: Option<String>)
    ensures
        json::optional_text(name) == match (*current, *allowed) {
            (Some(caps), _) => json::optional_text(caps.encoding_name),
            (None, Some(caps)) => json::optional_text(caps.encoding_name),
            (None, None) => None,
        },
{
    let caps = match current {
        Some(caps) => caps,
        None => match allowed {
            Some(caps) => caps,
            None => return None,
        },
    };
    match &caps.encoding_name {
        Some(name) => Some(name.as_str().to_owned()),
        None => None,
    }
}

/// What the caps of a video stream advertise.
#[derive(Debug)]
pub struct RtpCaps {
    pub encoding_name: &'static str,
    pub frame_rate: String,
}

pub fn rtp_caps(codec: Codec, fps: u32) -> (caps: RtpCaps)
    ensures
        caps.encoding_name@ == pipeline::rtp_text(codec),
        caps.frame_rate@ == text_ops::decimal(fps as nat),
{
    RtpCaps { encoding_name: codec.rtp_encoding(), frame_rate: decimal_string(fps as u128) }
}

/// The frame rate that a stream advertises, where it is a plausible one.
pub open spec fn advertised_rate(text: Seq<char>) -> Option<u32> {
    match text_ops::unsigned(text, u32::MAX as nat) {
        Some(rate) => if 1 <= rate <= 480 {
            Some(rate as u32)
        } else {
            None
        },
        None => None,
    }
}

pub fn frame_rate_from_rtp_caps(frame_rate: &Option<String>) -> (rate: Option<u32>)
    ensures
        rate == match *frame_rate {
            Some(text) => advertised_rate(text@),
            None => None,
        },
{
    let text = match frame_rate {
        Some(text) => text,
        None => return None,
    };
    let chars = chars_of(text.as_str());
    proof {
        assert(chars@.subrange(0, chars@.len() as int) =~= text@);
    }
    match parse_unsigned(&chars, 0, chars.len(), 0xffff_ffff) {
        Some(rate) => if 1 <= rate && rate <= 480 {
            Some(rate as u32)
        } else {
            None
        },
        None => None,
    }
}

/// A receiver reads back the frame rate that a sender advertises.
pub proof fn advertised_rate_is_read_back(fps: u32)
    requires
        1 <= fps <= 480,
    ensures
        advertised_rate(text_ops::decimal(fps as nat)) == Some(fps),
{
    text_ops::decimal_is_read_back(fps as nat);
}

#[derive(Debug, Clone, Copy, PartialEq, Eq, Structural)]
pub enum ReceiveKind {
    Audio,
    Video,
}

/// Leave to build the branch of one medium; it is given back to the registry
/// with the branch's worker, or without one where building failed.
#[derive(Debug)]
pub struct ReceivePadClaim {
    pub kind: ReceiveKind,
}

/// Which branches a session has, and the workers that belong to them.
#[derive(Debug)]
pub struct ReceiveWorkerRegistry<A, V> {
    pub accepting: bool,
    pub active_callbacks: usize,
    pub audio_claimed: bool,
    pub video_claimed: bool,
    pub audio: Option<A>,
    pub bitrate: Option<V>,
}

/// The workers that a closed registry hands out.
#[derive(Debug)]
pub struct ReceiveWorkers<A, V> {
    pub audio: Option<A>,
    pub bitrate: Option<V>,
}

pub open spec fn as_count(yes: bool) -> int {
    if yes {
        1
    } else {
        0
    }
}

impl<A, V> ReceiveWorkerRegistry<A, V> {
    /// A callback that is at work has claimed its medium.
    pub open spec fn wf(&self) -> bool {
        self.active_callbacks <= as_count(self.audio_claimed) + as_count(self.video_claimed)
    }

    pub open spec fn claimed(&self, kind: ReceiveKind) -> bool {
        match kind {
            ReceiveKind::Audio => self.audio_claimed,
            ReceiveKind::Video => self.video_claimed,
        }
    }

    /// The registry is open and the medium has no owner.
    pub open spec fn may_claim(&self, kind: ReceiveKind) -> bool {
        self.accepting && !self.claimed(kind)
    }

    pub open spec fn with_claim(&self, kind: ReceiveKind, claimed: bool) -> Self {
        match kind {
            ReceiveKind::Audio => ReceiveWorkerRegistry { audio_claimed: claimed, ..*self },
            ReceiveKind::Video => ReceiveWorkerRegistry { video_claimed: claimed, ..*self },
        }
    }

    /// One callback more is at work, on this medium.
    pub open spec fn begun(&self, kind: ReceiveKind) -> Self {
        ReceiveWorkerRegistry {
            active_callbacks: (self.active_callbacks + 1) as usize,
            ..self.with_claim(kind, true)
        }
    }

    /// One callback less is at work: the sound branch stands.
    pub open spec fn with_audio(&self, worker: Option<A>) -> Self {
        ReceiveWorkerRegistry {
            audio: worker,
            active_callbacks: (self.active_callbacks - 1) as usize,
            ..*self
        }
    }

    /// One callback less is at work: the video branch stands.
    pub open spec fn with_video(&self, worker: Option<V>) -> Self {
        ReceiveWorkerRegistry {
            bitrate: worker,
            active_callbacks: (self.active_callbacks - 1) as usize,
            ..*self
        }
    }

    /// One callback less is at work: its branch could not be built.
    pub open spec fn without(&self, kind: ReceiveKind) -> Self {
        ReceiveWorkerRegistry {
            active_callbacks: (self.active_callbacks - 1) as usize,
            ..self.with_claim(kind, false)
        }
    }

    /// What a closing registry hands out.
    pub open spec fn handed_out(&self) -> Option<ReceiveWorkers<A, V>> {
        if self.active_callbacks == 0 {
            Some(ReceiveWorkers { audio: self.audio, bitrate: self.bitrate })
        } else {
            None
        }
    }

    /// The registry that is left.
    pub open spec fn closed(&self) -> Self {
        if self.active_callbacks == 0 {
            ReceiveWorkerRegistry { accepting: false, audio: None, bitrate: None, ..*self }
        } else {
            ReceiveWorkerRegistry { accepting: false, ..*self }
        }
    }

    pub fn new() -> (registry: Self)
        ensures
            registry.wf(),
            registry == (ReceiveWorkerRegistry::<A, V> {
                accepting: true,
                active_callbacks: 0,
                audio_claimed: false,
                video_claimed: false,
                audio: None,
                bitrate: None,
            }),
    {
        ReceiveWorkerRegistry {
            accepting: true,
            active_callbacks: 0,
            audio_claimed: false,
            video_claimed: false,
            audio: None,
            bitrate: None,
        }
    }

    /// Claims a medium. It can be claimed while the registry is open and the
    /// medium has no owner.
    pub fn claim(&mut self, kind: ReceiveKind) -> (claim: Option<ReceivePadClaim>)
        requires
            old(self).wf(),
        ensures
            final(self).wf(),
            claim is Some <==> old(self).may_claim(kind),
            claim matches Some(given) ==> given.kind == kind && *final(self) == (
            ReceiveWorkerRegistry {
                active_callbacks: (old(self).active_callbacks + 1) as usize,
                ..old(self).with_claim(kind, true)
            }),
            claim is None ==> *final(self) == *old(self),
            claim is Some ==> *final(self) == old(self).begun(kind),
    {
        let claimed = match kind {
            ReceiveKind::Audio => self.audio_claimed,
            ReceiveKind::Video => self.video_claimed,
        };
        if !self.accepting || claimed {
            return None;
        }
        match kind {
            ReceiveKind::Audio => {
                self.audio_claimed = true;
            },
            ReceiveKind::Video => {
                self.video_claimed = true;
            },
        }
        self.active_callbacks = self.active_callbacks + 1;
        Some(ReceivePadClaim { kind })
    }

    pub fn claim_audio(&mut self) -> (claim: Option<ReceivePadClaim>)
        requires
            old(self).wf(),
        ensures
            final(self).wf(),
            claim is Some <==> old(self).may_claim(ReceiveKind::Audio),
            claim matches Some(given) ==> given.kind == ReceiveKind::Audio && *final(self) == (
            ReceiveWorkerRegistry {
                active_callbacks: (old(self).active_callbacks + 1) as usize,
                audio_claimed: true,
                ..*old(self)
            }),
            claim is None ==> *final(self) == *old(self),
            claim is Some ==> *final(self) == old(self).begun(ReceiveKind::Audio),
    {
        self.claim(ReceiveKind::Audio)
    }

    pub fn claim_video(&mut self) -> (claim: Option<ReceivePadClaim>)
        requires
            old(self).wf(),
        ensures
            final(self).wf(),
            claim is Some <==> old(self).may_claim(ReceiveKind::Video),
            claim matches Some(given) ==> given.kind == ReceiveKind::Video && *final(self) == (
            ReceiveWorkerRegistry {
                active_callbacks: (old(self).active_callbacks + 1) as usize,
                video_claimed: true,
                ..*old(self)
            }),
            claim is None ==> *final(self) == *old(self),
            claim is Some ==> *final(self) == old(self).begun(ReceiveKind::Video),
    {
        self.claim(ReceiveKind::Video)
    }

    /// The sound branch stands; its medium stays claimed.
    pub fn complete_audio(&mut self, claim: ReceivePadClaim, worker: Option<A>)
        requires
            old(self).wf(),
            old(self).active_callbacks > 0,
            claim.kind == ReceiveKind::Audio,
        ensures
            final(self).wf(),
            *final(self) == (ReceiveWorkerRegistry {
                audio: worker,
                active_callbacks: (old(self).active_callbacks - 1) as usize,
                ..*old(self)
            }),
            *final(self) == old(self).with_audio(worker),
    {
        self.audio = worker;
        self.active_callbacks = self.active_callbacks - 1;
    }

    /// The video branch stands; its medium stays claimed.
    pub fn complete_video(&mut self, claim: ReceivePadClaim, worker: Option<V>)
        requires
            old(self).wf(),
            old(self).active_callbacks > 0,
            claim.kind == ReceiveKind::Video,
        ensures
            final(self).wf(),
            *final(self) == (ReceiveWorkerRegistry {
                bitrate: worker,
                active_callbacks: (old(self).active_callbacks - 1) as usize,
                ..*old(self)
            }),
            *final(self) == old(self).with_video(worker),
    {
        self.bitrate = worker;
        self.active_callbacks = self.active_callbacks - 1;
    }

    /// The branch could not be built; its medium can be claimed again.
    pub fn release(&mut self, claim: ReceivePadClaim)
        requires
            old(self).wf(),
            old(self).active_callbacks > 0,
            old(self).claimed(claim.kind),
        ensures
            final(self).wf(),
            *final(self) == (ReceiveWorkerRegistry {
                active_callbacks: (old(self).active_callbacks - 1) as usize,
                ..old(self).with_claim(claim.kind, false)
            }),
            *final(self) == old(self).without(claim.kind),
    {
        match claim.kind {
            ReceiveKind::Audio => {
                self.audio_claimed = false;
            },
            ReceiveKind::Video => {
                self.video_claimed = false;
            },
        }
        self.active_callbacks = self.active_callbacks - 1;
    }

    /// Closes the registry, and hands out the workers once no callback is at
    /// work any more. Until then there is nothing to take, and the caller
    /// waits for a callback to finish.
    pub fn close_and_take(&mut self) -> (workers: Option<ReceiveWorkers<A, V>>)
        requires
            old(self).wf(),
        ensures
            final(self).wf(),
            !final(self).accepting,
            workers is Some <==> old(self).active_callbacks == 0,
            workers matches Some(taken) ==> taken.audio == old(self).audio && taken.bitrate == old(
                self,
            ).bitrate && *final(self) == (ReceiveWorkerRegistry {
                accepting: false,
                audio: None,
                bitrate: None,
                ..*old(self)
            }),
            workers is None ==> *final(self) == (ReceiveWorkerRegistry {
                accepting: false,
                ..*old(self)
            }),
            workers == old(self).handed_out(),
            *final(self) == old(self).closed(),
    {
        self.accepting = false;
        if self.active_callbacks != 0 {
            return None;
        }
        let audio = self.audio.take();
        let bitrate = self.bitrate.take();
        Some(ReceiveWorkers { audio, bitrate })
    }
}

/// Which medium an encoding belongs to.
pub open spec fn encoding_kind(encoding: Option<Seq<char>>) -> Option<ReceiveKind> {
    if encoding == Some("OPUS"@) {
        Some(ReceiveKind::Audio)
    } else if encoding == Some("AV1"@) || encoding == Some("H264"@) || encoding == Some("H265"@) {
        Some(ReceiveKind::Video)
    } else {
        None
    }
}

/// Accepts the pad of a new stream. The first stream of each medium is
/// accepted; a duplicate or an unknown encoding is not.
pub fn accept_receive_pad<A, V>(
    registry: &mut ReceiveWorkerRegistry<A, V>,
    encoding: &Option<String>,
) -> (claim: Option<ReceivePadClaim>)
    requires
        old(registry).wf(),
    ensures
        final(registry).wf(),
        ({
            let kind = encoding_kind(json::optional_text(*encoding));
            &&& claim is Some <==> kind is Some && old(registry).may_claim(kind->0)
            &&& claim matches Some(given) ==> given.kind == kind->0 && *final(registry) == (
            ReceiveWorkerRegistry {
                active_callbacks: (old(registry).active_callbacks + 1) as usize,
                ..old(registry).with_claim(given.kind, true)
            })
            &&& claim is None ==> *final(registry) == *old(registry)
        }),
{
    let encoding = match encoding {
        Some(encoding) => encoding.as_str(),
        None => return None,
    };
    if same_text(encoding, "OPUS") {
        registry.claim_audio()
    } else if same_text(encoding, "AV1") || same_text(encoding, "H264") || same_text(
        encoding,
        "H265",
    ) {
        registry.claim_video()
    } else {
        None
    }
}

/// The first stream keeps its medium: while it owns it, no other stream gets
/// it, and the other medium is not touched. A stream whose branch could not be
/// built gives the medium back, and a closed registry accepts nothing.
pub proof fn first_stream_keeps_its_medium<A, V>(
    registry: ReceiveWorkerRegistry<A, V>,
    kind: ReceiveKind,
    other: ReceiveKind,
)
    ensures
        !registry.with_claim(kind, true).may_claim(kind),
        other != kind ==> registry.with_claim(kind, true).may_claim(other) == registry.may_claim(
            other,
        ),
        registry.with_claim(kind, true).with_claim(kind, false).may_claim(kind)
            == registry.accepting,
        !registry.accepting ==> !registry.may_claim(kind),
{
}

/// Every video encoding that is accepted has a branch that can be planned.
pub proof fn accepted_video_can_be_planned(encoding: Seq<char>)
    ensures
        encoding_kind(Some(encoding)) == Some(ReceiveKind::Video) ==> encoding_problem(
            Some(encoding),
        ) is None,
{
    reveal_strlit("OPUS");
    reveal_strlit("AV1");
    reveal_strlit("H264");
    reveal_strlit("H265");
}

/// What a worker that follows the viewer's controls met.
#[derive(Debug, Clone, Copy, PartialEq, Eq, Structural)]
pub enum WorkerWait {
    /// Its interval passed.
    TimedOut,
    /// It was told to stop, or nobody is left who could tell it.
    Stopped,
}

/// What it found of the controls.
#[derive(Debug, Clone, Copy, PartialEq, Eq, Structural)]
pub enum ControlsLock {
    /// The controls are gone.
    Gone,
    /// Somebody else works on them.
    Busy,
    /// They can be read.
    Held,
}

#[derive(Debug, Clone, Copy, PartialEq, Eq, Structural)]
pub enum WorkerStep {
    Stop,
    Skip,
    Apply,
}

/// One step of the worker that applies the volume. It never waits for the
/// controls, so it can always be stopped.
pub fn audio_control_step(wait: WorkerWait, lock: ControlsLock) -> (step: WorkerStep)
    ensures
        step == if wait is Stopped || lock is Gone {
            WorkerStep::Stop
        } else if lock is Busy {
            WorkerStep::Skip
        } else {
            WorkerStep::Apply
        },
{
    match (wait, lock) {
        (WorkerWait::Stopped, _) => WorkerStep::Stop,
        (_, ControlsLock::Gone) => WorkerStep::Stop,
        (_, ControlsLock::Busy) => WorkerStep::Skip,
        (_, ControlsLock::Held) => WorkerStep::Apply,
    }
}

/// One step of the worker that shows the incoming bitrate. An interval without
/// data or without length shows nothing.
pub fn incoming_bitrate_step(
    wait: WorkerWait,
    lock: ControlsLock,
    received: u64,
    elapsed_ns: u64,
) -> (step: WorkerStep)
    ensures
        step == if wait is Stopped || lock is Gone {
            WorkerStep::Stop
        } else if received == 0 || elapsed_ns == 0 || lock is Busy {
            WorkerStep::Skip
        } else {
            WorkerStep::Apply
        },
{
    match (wait, lock) {
        (WorkerWait::Stopped, _) => WorkerStep::Stop,
        (_, ControlsLock::Gone) => WorkerStep::Stop,
        (_, ControlsLock::Busy) => WorkerStep::Skip,
        (_, ControlsLock::Held) => if received == 0 || elapsed_ns == 0 {
            WorkerStep::Skip
        } else {
            WorkerStep::Apply
        },
    }
}

} // verus!
