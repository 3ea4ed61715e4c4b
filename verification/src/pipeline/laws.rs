//! What the descriptions of the media graph hold, and which encoder is picked.

use vstd::prelude::*;
use vstd::string::*;

use super::{CaptureSettings, Codec, Property, PropertyValue, RecordPlan};
use crate::pipeline;
use crate::text_ops;

verus! {

/// The source of the whole screen: the first monitor, with the pointer.
pub open spec fn screen_source() -> Seq<char> {
    "d3d11screencapturesrc capture-api=wgc monitor-index=0 show-cursor=true"@
}

/// What stands between the source and the encoder: the rate directly behind
/// the source, then a short queue and the conversion.
pub open spec fn rate_part(fps: u32) -> Seq<char> {
    " ! video/x-raw(memory:D3D11Memory),framerate="@ + text_ops::decimal(fps as nat)
        + "/1 ! queue max-size-buffers=3 leaky=downstream ! d3d11convert "@
}

/// With no window selected the chain begins at the first monitor and names no
/// window.
pub proof fn whole_screen_is_the_first_monitor(settings: CaptureSettings)
    requires
        settings.hwnd == 0,
    ensures
        text_ops::begins_with(
            pipeline::capture_chain(settings),
            screen_source() + rate_part(settings.fps),
        ),
        !text_ops::mentions(screen_source(), "window-handle"@),
{
    let chain = pipeline::capture_chain(settings);
    let start = screen_source() + rate_part(settings.fps);
    assert(chain.take(start.len() as int) =~= start);
    reveal_strlit("d3d11screencapturesrc capture-api=wgc monitor-index=0 show-cursor=true");
    reveal_strlit("window-handle");
    let source = screen_source();
    assert(forall|i: int| 0 <= i < source.len() ==> #[trigger] source[i] != 'l');
    assert forall|i: int| 0 <= i <= source.len() - 13 implies #[trigger] source.subrange(i, i + 13)
        != "window-handle"@ by {
        assert(source.subrange(i, i + 13)[11] == source[i + 11]);
    }
}

/// With a window selected the chain begins at that window, by its handle, and
/// names no monitor; the pointer stays out.
pub proof fn window_is_captured_by_its_handle(settings: CaptureSettings)
    requires
        settings.hwnd != 0,
    ensures
        ({
            let handle = if settings.hwnd < 0 {
                seq!['-'] + text_ops::decimal((-settings.hwnd) as nat)
            } else {
                text_ops::decimal(settings.hwnd as nat)
            };
            let source = "d3d11screencapturesrc window-handle="@ + handle
                + " capture-api=wgc window-capture-mode=client show-cursor=false"@;
            &&& text_ops::begins_with(
                pipeline::capture_chain(settings),
                source + rate_part(settings.fps),
            )
            &&& !text_ops::mentions(source, "monitor-index"@)
        }),
{
    let chain = pipeline::capture_chain(settings);
    let handle = if settings.hwnd < 0 {
        seq!['-'] + text_ops::decimal((-settings.hwnd) as nat)
    } else {
        text_ops::decimal(settings.hwnd as nat)
    };
    let source = "d3d11screencapturesrc window-handle="@ + handle
        + " capture-api=wgc window-capture-mode=client show-cursor=false"@;
    let start = source + rate_part(settings.fps);
    assert(chain.take(start.len() as int) =~= start);
    reveal_strlit("d3d11screencapturesrc window-handle=");
    reveal_strlit(" capture-api=wgc window-capture-mode=client show-cursor=false");
    reveal_strlit("monitor-index");
    text_ops::decimal_is_read_back((-settings.hwnd) as nat);
    text_ops::decimal_is_read_back(settings.hwnd as nat);
    assert forall|i: int| 0 <= i < handle.len() implies #[trigger] handle[i] != 'x' by {
        if settings.hwnd < 0 {
            if i > 0 {
                assert(text_ops::digit(text_ops::decimal((-settings.hwnd) as nat)[i - 1]));
            }
        } else {
            assert(text_ops::digit(handle[i]));
        }
    }
    assert(forall|i: int| 0 <= i < source.len() ==> #[trigger] source[i] != 'x');
    assert forall|i: int| 0 <= i <= source.len() - 13 implies #[trigger] source.subrange(i, i + 13)
        != "monitor-index"@ by {
        assert(source.subrange(i, i + 13)[12] == source[i + 12]);
    }
}

/// The chain ends with the selected encoder under the name by which it is
/// found, at the selected bitrate, and the parser of the codec. What is scaled
/// is scaled directly before the encoder, to the size that was asked for.
pub proof fn chain_ends_with_the_encoder(settings: CaptureSettings)
    ensures
        ({
            let end = "! "@ + settings.encoder@ + " name=stream-encoder bitrate="@
                + text_ops::decimal(settings.bitrate as nat) + " ! "@ + pipeline::parser_text(
                settings.codec,
            );
            let chain = pipeline::capture_chain(settings);
            &&& text_ops::closes_with(chain, end)
            &&& settings.scale matches Some((width, height)) ==> text_ops::closes_with(
                chain,
                rate_part(settings.fps) + "! video/x-raw(memory:D3D11Memory),width="@
                    + text_ops::decimal(width as nat) + ",height="@ + text_ops::decimal(
                    height as nat,
                ) + " "@ + end,
            )
            &&& settings.scale is None ==> text_ops::closes_with(
                chain,
                rate_part(settings.fps) + end,
            )
        }),
{
    let end = "! "@ + settings.encoder@ + " name=stream-encoder bitrate="@ + text_ops::decimal(
        settings.bitrate as nat,
    ) + " ! "@ + pipeline::parser_text(settings.codec);
    let chain = pipeline::capture_chain(settings);
    assert(chain.skip(chain.len() - end.len()) =~= end);
    match settings.scale {
        Some((width, height)) => {
            let tail = rate_part(settings.fps) + "! video/x-raw(memory:D3D11Memory),width="@
                + text_ops::decimal(width as nat) + ",height="@ + text_ops::decimal(height as nat)
                + " "@ + end;
            assert(chain.skip(chain.len() - tail.len()) =~= tail);
        },
        None => {
            let tail = rate_part(settings.fps) + end;
            assert(chain.skip(chain.len() - tail.len()) =~= tail);
        },
    }
}

/// The name of a codec in the names of its elements.
pub open spec fn family(codec: Codec) -> Seq<char> {
    match codec {
        Codec::Av1 => "av1"@,
        Codec::H265 => "h265"@,
        Codec::H264 => "h264"@,
    }
}

/// The elements of a codec belong together: each is the one of that codec, and
/// the sender's match the receiver's.
pub proof fn elements_of_a_codec_belong_together(codec: Codec)
    ensures
        pipeline::parser_text(codec) == family(codec) + "parse"@,
        pipeline::payloader_text(codec) == "rtp"@ + family(codec) + "pay"@,
        pipeline::depayloader_text(codec) == "rtp"@ + family(codec) + "depay"@,
        pipeline::decoder_text(codec) == "d3d11"@ + family(codec) + "dec"@,
        text_ops::closes_with(pipeline::encoder_text(codec), family(codec) + "enc"@),
        text_ops::lower(pipeline::rtp_text(codec)) == family(codec),
        text_ops::lower(pipeline::codec_text(codec)) == family(codec),
{
    reveal_strlit("av1");
    reveal_strlit("h265");
    reveal_strlit("h264");
    reveal_strlit("parse");
    reveal_strlit("rtp");
    reveal_strlit("pay");
    reveal_strlit("depay");
    reveal_strlit("d3d11");
    reveal_strlit("dec");
    reveal_strlit("enc");
    reveal_strlit("av1parse");
    reveal_strlit("h265parse");
    reveal_strlit("h264parse");
    reveal_strlit("AV1");
    reveal_strlit("H265");
    reveal_strlit("H264");
    reveal_strlit("Av1");
    reveal_strlit("rtpav1pay");
    reveal_strlit("rtph265pay");
    reveal_strlit("rtph264pay");
    reveal_strlit("rtpav1depay");
    reveal_strlit("rtph265depay");
    reveal_strlit("rtph264depay");
    reveal_strlit("d3d11av1dec");
    reveal_strlit("d3d11h265dec");
    reveal_strlit("d3d11h264dec");
    reveal_strlit("nvd3d11av1enc");
    reveal_strlit("mfh265enc");
    reveal_strlit("mfh264enc");
    assert(pipeline::parser_text(codec) =~= family(codec) + "parse"@);
    assert(pipeline::payloader_text(codec) =~= "rtp"@ + family(codec) + "pay"@);
    assert(pipeline::depayloader_text(codec) =~= "rtp"@ + family(codec) + "depay"@);
    assert(pipeline::decoder_text(codec) =~= "d3d11"@ + family(codec) + "dec"@);
    let encoder = pipeline::encoder_text(codec);
    let end = family(codec) + "enc"@;
    assert(encoder.skip(encoder.len() - end.len()) =~= end);
    assert(text_ops::lower(pipeline::rtp_text(codec)) =~= family(codec));
    assert(text_ops::lower(pipeline::codec_text(codec)) =~= family(codec));
}

/// A codec is understood by its name in any mix of cases, and H.265 by its
/// other name too; nothing else is.
pub proof fn codecs_are_understood(word: Seq<char>)
    ensures
        text_ops::lower(word) == "av1"@ ==> pipeline::codec_named(word) == Some(Codec::Av1),
        text_ops::lower(word) == "h265"@ ==> pipeline::codec_named(word) == Some(Codec::H265),
        text_ops::lower(word) == "hevc"@ ==> pipeline::codec_named(word) == Some(Codec::H265),
        text_ops::lower(word) == "h264"@ ==> pipeline::codec_named(word) == Some(Codec::H264),
        pipeline::codec_named(word) matches Some(codec) ==> text_ops::lower(word) == family(codec)
            || (codec == Codec::H265 && text_ops::lower(word) == "hevc"@),
        pipeline::codec_of_encoding(word) matches Some(codec) ==> word == pipeline::rtp_text(codec),
        text_ops::closes_with(
            pipeline::unknown_codec_text(word),
            text_ops::lower(word) + "' (expected auto, av1, h265 or h264)"@,
        ),
{
    reveal_strlit("av1");
    reveal_strlit("h265");
    reveal_strlit("h264");
    reveal_strlit("hevc");
    assert("av1"@.len() == 3);
    assert("h265"@[3] == '5');
    assert("h264"@[3] == '4');
    assert("hevc"@[3] == 'c');
    let text = pipeline::unknown_codec_text(word);
    let end = text_ops::lower(word) + "' (expected auto, av1, h265 or h264)"@;
    assert(text.skip(text.len() - end.len()) =~= end);
}

/// A codec that was asked for is taken with its own encoder, whatever the
/// probe would say.
pub proof fn requested_codec_is_taken<F: Fn(&str) -> bool>(
    codec: Codec,
    is_compatible: F,
    selected: Result<(Codec, &'static str), String>,
)
    requires
        call_ensures(
            pipeline::select_encoder_with::<F>,
            (Some(codec), is_compatible),
            selected,
        ),
    ensures
        selected matches Ok((taken, encoder)) && taken == codec && text_ops::closes_with(
            encoder@,
            family(codec) + "enc"@,
        ),
{
    elements_of_a_codec_belong_together(codec);
}

/// This codec was selected, with the encoder of this name.
pub open spec fn takes(
    selected: Result<(Codec, &'static str), String>,
    codec: Codec,
    encoder: Seq<char>,
) -> bool {
    selected is Ok && selected->Ok_0.0 == codec && selected->Ok_0.1@ == encoder
}

/// Where no codec is asked for, the first that works is taken: H.265 before
/// H.264, and the system's own encoder before NVIDIA's. Where none works, the
/// complaint names all four.
pub proof fn first_working_encoder_is_taken<F: Fn(&str) -> bool>(
    works: spec_fn(Seq<char>) -> bool,
    is_compatible: F,
    selected: Result<(Codec, &'static str), String>,
)
    requires
        forall|name: &str, answer: bool| #[trigger]
            call_ensures(is_compatible, (name,), answer) ==> answer == works(name@),
        call_ensures(pipeline::select_encoder_with::<F>, (None, is_compatible), selected),
    ensures
        works("mfh265enc"@) ==> takes(selected, Codec::H265, "mfh265enc"@),
        !works("mfh265enc"@) && works("nvd3d11h265enc"@) ==> takes(
            selected,
            Codec::H265,
            "nvd3d11h265enc"@,
        ),
        !works("mfh265enc"@) && !works("nvd3d11h265enc"@) && works("mfh264enc"@) ==> takes(
            selected,
            Codec::H264,
            "mfh264enc"@,
        ),
        !works("mfh265enc"@) && !works("nvd3d11h265enc"@) && !works("mfh264enc"@) && works(
            "nvd3d11h264enc"@,
        ) ==> takes(selected, Codec::H264, "nvd3d11h264enc"@),
        !works("mfh265enc"@) && !works("nvd3d11h265enc"@) && !works("mfh264enc"@) && !works(
            "nvd3d11h264enc"@,
        ) ==> selected is Err && text_ops::mentions(
            selected->Err_0@,
            "zero-copy D3D11 encoder found; attempted mfh265enc, nvd3d11h265enc, mfh264enc, nvd3d11h264enc"@,
        ),
{
    lemma_answers(works, is_compatible);
    assert(pipeline::auto_encoder(0).1 == "mfh265enc"@);
    assert(pipeline::auto_encoder(1).1 == "nvd3d11h265enc"@);
    assert(pipeline::auto_encoder(2).1 == "mfh264enc"@);
    assert(pipeline::auto_encoder(3).1 == "nvd3d11h264enc"@);
    match selected {
        Ok((codec, encoder)) => {
            let index = choose|index: int|
                pipeline::first_compatible(is_compatible, index) && (codec, encoder@)
                    == #[trigger] pipeline::auto_encoder(index);
            assert(pipeline::first_compatible(is_compatible, index));
            assert(works(pipeline::auto_encoder(index).1));
            if index > 0 {
                assert(!works(pipeline::auto_encoder(0).1));
            }
            if index > 1 {
                assert(!works(pipeline::auto_encoder(1).1));
            }
            if index > 2 {
                assert(!works(pipeline::auto_encoder(2).1));
            }
        },
        Err(text) => {
            assert(!works(pipeline::auto_encoder(0).1));
            assert(!works(pipeline::auto_encoder(1).1));
            assert(!works(pipeline::auto_encoder(2).1));
            assert(!works(pipeline::auto_encoder(3).1));
            reveal_strlit(
                "no compatible zero-copy D3D11 encoder found; attempted mfh265enc, nvd3d11h265enc, mfh264enc, nvd3d11h264enc. Update the graphics driver or install a GStreamer hardware encoder plugin",
            );
            reveal_strlit(
                "zero-copy D3D11 encoder found; attempted mfh265enc, nvd3d11h265enc, mfh264enc, nvd3d11h264enc",
            );
            assert(text@.subrange(14, 14int + 93)
                =~= "zero-copy D3D11 encoder found; attempted mfh265enc, nvd3d11h265enc, mfh264enc, nvd3d11h264enc"@);
        },
    }
}

proof fn lemma_answers<F: Fn(&str) -> bool>(works: spec_fn(Seq<char>) -> bool, is_compatible: F)
    requires
        forall|name: &str, answer: bool| #[trigger]
            call_ensures(is_compatible, (name,), answer) ==> answer == works(name@),
    ensures
        forall|name: Seq<char>, answer: bool| #[trigger]
            pipeline::answered(is_compatible, name, answer) ==> answer == works(name),
{
}

/// A recommended bitrate is a number of steps of 500, at least one of them and
/// at most what the ceiling allows; it is called cut short exactly where it
/// was.
pub proof fn recommended_bitrate_is_stepped(steps: u64, result: (u32, bool))
    requires
        call_ensures(pipeline::recommended_video_bitrate, (steps,), result),
    ensures
        result.0 % 500 == 0,
        500 <= result.0 <= 80_000,
        1 <= steps <= 160 ==> result.0 == 500 * steps && !result.1,
        steps > 160 ==> result.0 == 80_000 && result.1,
        steps == 0 ==> result.0 == 500 && !result.1,
{
}

/// An encoder gives a keyframe every two seconds and at most one forced
/// keyframe a second, whatever its family.
pub proof fn keyframes_come_every_two_seconds(encoder: Seq<char>, codec: Codec, fps: u32)
    ensures
        ({
            let properties = pipeline::encoder_properties(encoder, codec, fps);
            &&& fps <= 1_000_000 ==> properties.contains(
                Property { name: "gop-size", value: PropertyValue::Int((fps * 2) as i32) },
            )
            &&& properties.contains(
                Property {
                    name: "min-force-key-unit-interval",
                    value: PropertyValue::Long(1_000_000_000),
                },
            )
        }),
{
    let properties = pipeline::encoder_properties(encoder, codec, fps);
    assert(properties[0].name == "gop-size");
    assert(properties[1].name == "min-force-key-unit-interval");
    if fps <= 1_000_000 {
        assert(properties[0] == (Property {
            name: "gop-size",
            value: PropertyValue::Int((fps * 2) as i32),
        }));
    }
}

/// Every encoder of H.264 and H.265 works at a constant rate and with low
/// latency, in the terms of its family; an encoder of neither family is left
/// with its keyframes.
pub proof fn encoders_have_low_latency(encoder: Seq<char>, codec: Codec, fps: u32)
    ensures
        ({
            let properties = pipeline::encoder_properties(encoder, codec, fps);
            let nvidia = text_ops::begins_with(encoder, "nvd3d11"@);
            let constant = Property { name: "rc-mode", value: PropertyValue::Text("cbr") };
            &&& nvidia || codec != Codec::Av1 ==> properties.contains(constant)
            &&& nvidia ==> properties.contains(
                Property { name: "tune", value: PropertyValue::Text("low-latency") },
            ) && properties.contains(
                Property { name: "preset", value: PropertyValue::Text("p5") },
            ) && properties.contains(
                Property { name: "spatial-aq", value: PropertyValue::Flag(true) },
            ) && properties.len() == 6
            &&& !nvidia && codec != Codec::Av1 ==> properties.contains(
                Property { name: "low-latency", value: PropertyValue::Flag(true) },
            ) && properties.contains(
                Property { name: "quality-vs-speed", value: PropertyValue::Uint(50) },
            ) && properties.len() == 5
            &&& !nvidia && codec == Codec::Av1 ==> properties.len() == 2
        }),
{
    let properties = pipeline::encoder_properties(encoder, codec, fps);
    if text_ops::begins_with(encoder, "nvd3d11"@) {
        assert(properties[2].name == "preset");
        assert(properties[3].name == "tune");
        assert(properties[4].name == "rc-mode");
        assert(properties[5].name == "spatial-aq");
    } else if codec != Codec::Av1 {
        assert(properties[2].name == "low-latency");
        assert(properties[3].name == "rc-mode");
        assert(properties[4].name == "quality-vs-speed");
    }
}

/// The keyframe distance is two seconds of frames, as far as it can be held.
pub proof fn keyframe_distance_is_bounded(fps: u32, frames: i32, count: u32)
    requires
        call_ensures(pipeline::gop_size, (fps,), frames),
    ensures
        0 <= frames,
        fps <= 1_073_741_823 ==> frames == 2 * fps,
        fps > 1_073_741_823 ==> frames == i32::MAX,
        pipeline::gop_property(count).name == "gop-size",
        count <= 0x7fff_ffff ==> pipeline::gop_property(count).value == PropertyValue::Int(
            count as i32,
        ),
{
}

/// A whole screen is heard without the program's own sounds, where its process
/// is known, and otherwise wholly; and every chain ends in the same encoder.
pub proof fn whole_screen_is_heard(pid: u32, exclude_pid: Option<u32>)
    ensures
        ({
            let chain = pipeline::audio_chain(pid, exclude_pid);
            &&& text_ops::begins_with(chain, "wasapi2src loopback=true loopback-"@)
            &&& text_ops::closes_with(
                chain,
                "on-device-mute=true buffer-time=100000 latency-time=20000 ! queue max-size-buffers=10 leaky=downstream ! audioconvert ! audioresample ! audio/x-raw,format=S16LE,rate=48000,channels=2,layout=interleaved ! opusenc bitrate=128000 frame-size=10 ! rtpopuspay"@,
            )
            &&& pid == 0 && exclude_pid is Some ==> text_ops::begins_with(
                chain,
                "wasapi2src loopback=true loopback-mode=exclude-process-tree loopback-target-pid="@
                    + text_ops::decimal(exclude_pid->Some_0 as nat) + " loopback-silence"@,
            )
            &&& pid == 0 && exclude_pid is None ==> text_ops::begins_with(
                chain,
                "wasapi2src loopback=true loopback-silence"@,
            )
            &&& pid != 0 ==> text_ops::begins_with(
                chain,
                "wasapi2src loopback=true loopback-mode=include-process-tree loopback-target-pid="@
                    + text_ops::decimal(pid as nat) + " loopback-silence"@,
            )
        }),
{
    reveal_strlit("wasapi2src loopback=true ");
    reveal_strlit("wasapi2src loopback=true loopback-");
    reveal_strlit("wasapi2src loopback=true loopback-silence");
    reveal_strlit(
        "wasapi2src loopback=true loopback-mode=exclude-process-tree loopback-target-pid=",
    );
    reveal_strlit(
        "wasapi2src loopback=true loopback-mode=include-process-tree loopback-target-pid=",
    );
    reveal_strlit("loopback-mode=exclude-process-tree loopback-target-pid=");
    reveal_strlit("loopback-mode=include-process-tree loopback-target-pid=");
    reveal_strlit(" loopback-silence");
    reveal_strlit(" ");
    reveal_strlit(
        "loopback-silence-on-device-mute=true buffer-time=100000 latency-time=20000 ! queue max-size-buffers=10 leaky=downstream ! audioconvert ! audioresample ! audio/x-raw,format=S16LE,rate=48000,channels=2,layout=interleaved ! opusenc bitrate=128000 frame-size=10 ! rtpopuspay",
    );
    reveal_strlit(
        "on-device-mute=true buffer-time=100000 latency-time=20000 ! queue max-size-buffers=10 leaky=downstream ! audioconvert ! audioresample ! audio/x-raw,format=S16LE,rate=48000,channels=2,layout=interleaved ! opusenc bitrate=128000 frame-size=10 ! rtpopuspay",
    );
    let chain = pipeline::audio_chain(pid, exclude_pid);
    let start = "wasapi2src loopback=true loopback-"@;
    assert(chain.take(start.len() as int) =~= start);
    let end =
        "on-device-mute=true buffer-time=100000 latency-time=20000 ! queue max-size-buffers=10 leaky=downstream ! audioconvert ! audioresample ! audio/x-raw,format=S16LE,rate=48000,channels=2,layout=interleaved ! opusenc bitrate=128000 frame-size=10 ! rtpopuspay"@;
    assert(chain.skip(chain.len() - end.len()) =~= end);
    if pid != 0 {
        let first =
            "wasapi2src loopback=true loopback-mode=include-process-tree loopback-target-pid="@
            + text_ops::decimal(pid as nat) + " loopback-silence"@;
        assert(chain.take(first.len() as int) =~= first);
    } else if exclude_pid is Some {
        let first =
            "wasapi2src loopback=true loopback-mode=exclude-process-tree loopback-target-pid="@
            + text_ops::decimal(exclude_pid->Some_0 as nat) + " loopback-silence"@;
        assert(chain.take(first.len() as int) =~= first);
    } else {
        let first = "wasapi2src loopback=true loopback-silence"@;
        assert(chain.take(first.len() as int) =~= first);
    }
}

/// The preflight asks for the capture source, the converter, the encoder that
/// was selected and the parser of the codec, and a complaint lists exactly what
/// is not installed.
pub proof fn preflight_asks_for_what_is_used(settings: CaptureSettings)
    ensures
        pipeline::capture_elements(settings).contains("d3d11screencapturesrc"@),
        pipeline::capture_elements(settings).contains("d3d11convert"@),
        pipeline::capture_elements(settings).contains(settings.encoder@),
        pipeline::capture_elements(settings).contains(pipeline::parser_text(settings.codec)),
{
    let elements = pipeline::capture_elements(settings);
    assert(elements[0] == "d3d11screencapturesrc"@);
    assert(elements[1] == "d3d11convert"@);
    assert(elements[2] == settings.encoder@);
    assert(elements[3] == pipeline::parser_text(settings.codec));
}

/// An encoder is tried behind frames that never left the graphics card.
pub proof fn encoder_is_tried_on_captured_frames(factory: &str, text: String)
    requires
        call_ensures(pipeline::supports_d3d11_input, (factory,), text),
    ensures
        text_ops::begins_with(text@, "d3d11convert ! video/x-raw(memory:D3D11Memory)"@),
        text_ops::mentions(text@, "format=NV12"@),
        text_ops::closes_with(text@, " ! "@ + factory@),
{
    reveal_strlit(
        "d3d11convert ! video/x-raw(memory:D3D11Memory),format=NV12,width=1280,height=720 ! ",
    );
    reveal_strlit("d3d11convert ! video/x-raw(memory:D3D11Memory)");
    reveal_strlit("format=NV12");
    reveal_strlit(" ! ");
    assert(text@.take(46) =~= "d3d11convert ! video/x-raw(memory:D3D11Memory)"@);
    assert(text@.subrange(47, 47int + 11) =~= "format=NV12"@);
    let end = " ! "@ + factory@;
    assert(text@.skip(text@.len() - end.len()) =~= end);
}

/// The preflight passes exactly where every element of the chain is installed,
/// and complains by the elements' names where one is not.
pub proof fn preflight_needs_every_element(
    settings: CaptureSettings,
    installed: Vec<String>,
    result: Result<(), String>,
    sound: Result<(), String>,
)
    requires
        call_ensures(pipeline::check_elements, (&settings, &installed), result),
        call_ensures(pipeline::check_audio_elements, (&installed,), sound),
    ensures
        ({
            let there = text_ops::texts(installed@);
            &&& result is Ok <==> there.contains("d3d11screencapturesrc"@) && there.contains(
                "d3d11convert"@,
            ) && there.contains(settings.encoder@) && there.contains(
                pipeline::parser_text(settings.codec),
            )
            &&& sound is Ok <==> there.contains("wasapi2src"@) && there.contains("audioconvert"@)
                && there.contains("audioresample"@) && there.contains("opusenc"@)
                && there.contains("rtpopuspay"@)
        }),
        result is Err ==> text_ops::begins_with(result->Err_0@, "missing GStreamer elements: "@),
        sound is Err ==> text_ops::begins_with(sound->Err_0@, "missing audio elements: "@),
{
    let there = text_ops::texts(installed@);
    let elements = pipeline::capture_elements(settings);
    let heard = pipeline::audio_elements();
    text_ops::absent_is_what_is_not_there(elements, there);
    text_ops::absent_is_what_is_not_there(heard, there);
    assert(elements[0] == "d3d11screencapturesrc"@ && elements[1] == "d3d11convert"@);
    assert(elements[2] == settings.encoder@);
    assert(elements[3] == pipeline::parser_text(settings.codec));
    assert(heard[0] == "wasapi2src"@ && heard[1] == "audioconvert"@);
    assert(heard[2] == "audioresample"@ && heard[3] == "opusenc"@ && heard[4] == "rtpopuspay"@);
    if result is Err {
        let start = "missing GStreamer elements: "@;
        assert(result->Err_0@.take(start.len() as int) =~= start);
    }
    if sound is Err {
        let start = "missing audio elements: "@;
        assert(sound->Err_0@.take(start.len() as int) =~= start);
    }
}

/// A word that names no codec is refused, and one that does gives that codec.
pub proof fn unknown_codecs_are_refused(word: &str, result: Result<Codec, String>)
    requires
        call_ensures(Codec::parse, (word,), result),
    ensures
        result is Ok <==> pipeline::codec_named(word@) is Some,
        result matches Ok(codec) ==> text_ops::lower(word@) == family(codec) || (codec
            == Codec::H265 && text_ops::lower(word@) == "hevc"@),
{
    codecs_are_understood(word@);
}

/// The settings to start from capture the whole screen in silence, with an
/// encoder of their own codec, sixty frames and thirty megabits a second.
pub proof fn first_settings_fit_together(settings: CaptureSettings)
    requires
        call_ensures(CaptureSettings::default, (), settings),
    ensures
        settings.hwnd == 0,
        settings.encoder@ == pipeline::encoder_text(settings.codec),
        settings.codec == Codec::H265,
        settings.fps == 60,
        settings.bitrate == 30 * 1_000,
        settings.scale is None && settings.audio_pid is None,
{
}

/// A recording is planned exactly where every element of its chain is
/// installed; it records what is captured, in a Matroska file at the place that
/// was given.
pub proof fn recording_holds_what_is_captured(
    settings: CaptureSettings,
    installed: Vec<String>,
    output: &str,
    plan: Result<RecordPlan, String>,
)
    requires
        call_ensures(pipeline::build_record_pipeline, (&settings, &installed, output), plan),
    ensures
        ({
            let there = text_ops::texts(installed@);
            plan is Ok <==> there.contains("d3d11screencapturesrc"@) && there.contains(
                "d3d11convert"@,
            ) && there.contains(settings.encoder@) && there.contains(
                pipeline::parser_text(settings.codec),
            )
        }),
        plan matches Ok(made) ==> {
            &&& made.capture@ == pipeline::capture_chain(settings)
            &&& made.muxer@ == "matroskamux"@
            &&& made.sink@ == "filesink"@
            &&& made.location@ == output@
        },
{
    let there = text_ops::texts(installed@);
    let elements = pipeline::capture_elements(settings);
    text_ops::absent_is_what_is_not_there(elements, there);
    assert(elements[0] == "d3d11screencapturesrc"@ && elements[1] == "d3d11convert"@);
    assert(elements[2] == settings.encoder@);
    assert(elements[3] == pipeline::parser_text(settings.codec));
}

} // verus!
