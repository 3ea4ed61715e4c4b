//! What the options of the command line come to.

use vstd::prelude::*;
use vstd::string::*;

use super::{
    AutomaticBitrate, CaptureCommand, PlaybackKind, PlaybackProfile, PreviewError, PreviewPlan,
    QualityArgs, QualityPlan, ScaleError, SettingsError, WatchTarget, WindowFacts,
};
use crate::cli;
use crate::json;
use crate::pipeline::{self, CaptureSettings, Codec};
use crate::targets::CaptureTarget;
use crate::text_ops;

verus! {

proof fn lemma_digits_stand(text: Seq<char>)
    requires
        text.len() > 0,
        text_ops::all_digits(text),
    ensures
        text_ops::trimmed(text) == text,
        forall|i: int| 0 <= i < text.len() ==> #[trigger] text[i] != 'x' && text[i] != 'X',
{
    assert(text_ops::digit(text[0]));
    assert(text_ops::digit(text[text.len() - 1]));
    assert(text_ops::trimmed_start(text) == text);
    assert(text_ops::trimmed_end(text) == text);
    assert forall|i: int| 0 <= i < text.len() implies #[trigger] text[i] != 'x' && text[i]
        != 'X' by {
        assert(text_ops::digit(text[i]));
    }
}

proof fn lemma_first_separator(text: Seq<char>, at: int)
    requires
        0 <= at <= text.len(),
        forall|i: int| 0 <= i < at ==> #[trigger] text[i] != 'x' && text[i] != 'X',
        at < text.len() ==> text[at] == 'x' || text[at] == 'X',
    ensures
        cli::separator_at(text) == at,
    decreases at,
{
    if at > 0 {
        let rest = text.drop_first();
        assert forall|i: int| 0 <= i < at - 1 implies #[trigger] rest[i] != 'x' && rest[i]
            != 'X' by {
            assert(rest[i] == text[i + 1]);
        }
        lemma_first_separator(rest, at - 1);
    }
}

/// A size is read back from its two numbers with an `x` of either case between
/// them, width first.
pub proof fn size_is_read_back(width: u32, height: u32)
    ensures
        cli::scale_read(
            text_ops::decimal(width as nat) + "x"@ + text_ops::decimal(height as nat),
        ) == Ok::<(u32, u32), ScaleError>((width, height)),
        cli::scale_read(
            text_ops::decimal(width as nat) + "X"@ + text_ops::decimal(height as nat),
        ) == Ok::<(u32, u32), ScaleError>((width, height)),
{
    reveal_strlit("x");
    reveal_strlit("X");
    lemma_size(width, height, "x"@);
    lemma_size(width, height, "X"@);
}

proof fn lemma_size(width: u32, height: u32, separator: Seq<char>)
    requires
        separator.len() == 1,
        separator[0] == 'x' || separator[0] == 'X',
    ensures
        cli::scale_read(
            text_ops::decimal(width as nat) + separator + text_ops::decimal(height as nat),
        ) == Ok::<(u32, u32), ScaleError>((width, height)),
{
    let first = text_ops::decimal(width as nat);
    let second = text_ops::decimal(height as nat);
    let text = first + separator + second;
    text_ops::decimal_is_read_back(width as nat);
    text_ops::decimal_is_read_back(height as nat);
    lemma_digits_stand(first);
    lemma_digits_stand(second);
    let at = first.len() as int;
    assert forall|i: int| 0 <= i < at implies #[trigger] text[i] != 'x' && text[i] != 'X' by {
        assert(text[i] == first[i]);
    }
    assert(text[at] == separator[0]);
    lemma_first_separator(text, at);
    assert(text.take(at) =~= first);
    assert(text.skip(at + 1) =~= second);
    let most = u32::MAX as nat;
    assert(text_ops::unsigned(first, most) == Some(width as nat));
    assert(text_ops::unsigned(second, most) == Some(height as nat));
}

/// A text without an `x` is no size, and neither is one whose parts are no
/// numbers; the complaint is about the part that is wrong, the width first.
pub proof fn bad_sizes_are_refused(text: Seq<char>, before: Seq<char>, after: Seq<char>)
    requires
        forall|i: int| 0 <= i < text.len() ==> #[trigger] text[i] != 'x' && text[i] != 'X',
        forall|i: int| 0 <= i < before.len() ==> #[trigger] before[i] != 'x' && before[i] != 'X',
    ensures
        cli::scale_read(text) == Err::<(u32, u32), ScaleError>(ScaleError::NoSeparator),
        text_ops::unsigned(text_ops::trimmed(before), u32::MAX as nat) is None ==> cli::scale_read(
            before + "x"@ + after,
        ) == Err::<(u32, u32), ScaleError>(ScaleError::BadWidth),
        text_ops::unsigned(text_ops::trimmed(before), u32::MAX as nat) is Some
            && text_ops::unsigned(text_ops::trimmed(after), u32::MAX as nat) is None
            ==> cli::scale_read(before + "x"@ + after) == Err::<(u32, u32), ScaleError>(
            ScaleError::BadHeight,
        ),
{
    reveal_strlit("x");
    lemma_first_separator(text, text.len() as int);
    let whole = before + "x"@ + after;
    let at = before.len() as int;
    assert forall|i: int| 0 <= i < at implies #[trigger] whole[i] != 'x' && whole[i] != 'X' by {
        assert(whole[i] == before[i]);
    }
    assert(whole[at] == 'x');
    lemma_first_separator(whole, at);
    assert(whole.take(at) =~= before);
    assert(whole.skip(at + 1) =~= after);
}

/// A rate is kept up to 120 and cut there; zero is refused, and where none is
/// asked for it is 60.
pub proof fn rate_is_kept_or_capped(requested: Option<u32>, fps: Result<u32, &'static str>)
    requires
        call_ensures(cli::capture_fps, (requested,), fps),
    ensures
        requested is None ==> fps == Ok::<u32, &'static str>(60),
        requested == Some(0u32) ==> fps is Err,
        requested matches Some(n) ==> (1 <= n <= 120 ==> fps == Ok::<u32, &'static str>(n)),
        requested matches Some(n) ==> (n > 120 ==> fps == Ok::<u32, &'static str>(120)),
{
}

/// The settings that a plan holds, for a window and the options, where an
/// encoder and a number of bitrate steps were found.
pub open spec fn follows_options(
    args: QualityArgs,
    window: WindowFacts,
    plan: QualityPlan,
    steps: spec_fn(u32, u32, u32) -> u64,
) -> bool {
    let set = plan.settings;
    let size = match set.scale {
        Some(size) => size,
        None => match window.dimensions {
            Some(size) => size,
            None => (1920u32, 1080u32),
        },
    };
    let derived = steps(size.0, size.1, set.fps);
    &&& set.hwnd == window.hwnd
    // The rate: by option, or by the display, or 60; never above 120.
    &&& args.fps matches Some(n) ==> set.fps == if n <= 120 {
        n
    } else {
        120
    }
    &&& args.fps is None ==> (window.refresh_rate matches Some(n) ==> set.fps == if n <= 120 {
        n
    } else {
        120
    })
    &&& args.fps is None && window.refresh_rate is None ==> set.fps == 60
    // The size: scaled only where that is asked for.
    &&& args.scale is None ==> set.scale is None
    &&& args.scale is Some ==> set.scale is Some
    // Sound: none, all of it for the screen, or that of the window's process.
    &&& args.no_audio ==> set.audio_pid is None
    &&& !args.no_audio && window.hwnd == 0 ==> set.audio_pid == Some(0u32)
    &&& !args.no_audio && window.hwnd != 0 ==> set.audio_pid == window.pid
    // The bitrate: by option, or derived from the size and rate that are
    // really encoded.
    &&& args.bitrate matches Some(kbps) ==> set.bitrate == kbps && plan.automatic is None
    &&& args.bitrate is None ==> {
        &&& 1 <= derived <= 160 ==> set.bitrate == 500 * derived
        &&& derived > 160 ==> set.bitrate == 80_000
        &&& derived == 0 ==> set.bitrate == 500
        &&& plan.automatic matches Some(auto) && auto.kbps == set.bitrate && auto.width == size.0
            && auto.height == size.1 && auto.fps == set.fps && auto.constrained == (derived > 160)
    }
}

/// Settings follow the options, whichever encoder was found.
pub proof fn settings_follow_the_options<
    F: Fn(&str) -> bool,
    G: Fn(u32, u32, u32) -> u64,
>(
    args: QualityArgs,
    window: WindowFacts,
    is_compatible: F,
    bitrate_steps: G,
    steps: spec_fn(u32, u32, u32) -> u64,
    result: Result<QualityPlan, SettingsError>,
)
    requires
        forall|w: u32, h: u32, f: u32, n: u64| #[trigger]
            call_ensures(bitrate_steps, (w, h, f), n) ==> n == steps(w, h, f),
        call_ensures(
            QualityArgs::settings::<F, G>,
            (&args, window, is_compatible, bitrate_steps),
            result,
        ),
    ensures
        result matches Ok(plan) ==> follows_options(args, window, plan, steps),
        args.fps == Some(0u32) ==> result is Err,
{
    if let Ok(plan) = result {
        if args.wants_auto() {
            let (index, n) = choose|index: int, n: u64|
                #[trigger] pipeline::first_compatible(is_compatible, index)
                    && #[trigger] call_ensures(
                    bitrate_steps,
                    (args.coded_size(window).0, args.coded_size(window).1, plan.settings.fps),
                    n,
                ) && args.planned(
                    plan,
                    window,
                    pipeline::auto_encoder(index).0,
                    pipeline::auto_encoder(index).1,
                    n,
                );
            assert(n == steps(
                args.coded_size(window).0,
                args.coded_size(window).1,
                plan.settings.fps,
            ));
        } else {
            let codec = pipeline::codec_named(args.codec@).unwrap();
            let n = choose|n: u64| #[trigger]
                call_ensures(
                    bitrate_steps,
                    (args.coded_size(window).0, args.coded_size(window).1, plan.settings.fps),
                    n,
                ) && args.planned(plan, window, codec, pipeline::encoder_text(codec), n);
            assert(n == steps(
                args.coded_size(window).0,
                args.coded_size(window).1,
                plan.settings.fps,
            ));
        }
    }
}

/// A codec that is asked for is the one that is used, with its own encoder and
/// without a word about a fallback; a scale that is asked for is the one that
/// is used.
pub proof fn requested_codec_and_size_are_used<
    F: Fn(&str) -> bool,
    G: Fn(u32, u32, u32) -> u64,
>(
    args: QualityArgs,
    window: WindowFacts,
    is_compatible: F,
    bitrate_steps: G,
    codec: Codec,
    width: u32,
    height: u32,
    plan: QualityPlan,
)
    requires
        text_ops::lower(args.codec@) == pipeline::laws::family(codec),
        args.scale matches Some(text) && text@ == text_ops::decimal(width as nat) + "x"@
            + text_ops::decimal(height as nat),
        call_ensures(
            QualityArgs::settings::<F, G>,
            (&args, window, is_compatible, bitrate_steps),
            Ok::<QualityPlan, SettingsError>(plan),
        ),
    ensures
        plan.settings.codec == codec,
        plan.settings.encoder@ == pipeline::encoder_text(codec),
        plan.settings.scale == Some((width, height)),
        !plan.fallback,
{
    size_is_read_back(width, height);
    pipeline::laws::codecs_are_understood(args.codec@);
    reveal_strlit("auto");
    reveal_strlit("av1");
    reveal_strlit("h265");
    reveal_strlit("h264");
    assert("auto"@[0] == 'a' && "auto"@.len() == 4);
    assert(!args.wants_auto());
}

/// The list of windows has a row for each of them, in order, behind its
/// heading; without windows it says so.
pub proof fn every_window_is_listed(windows: Seq<CaptureTarget>, i: int)
    requires
        0 <= i < windows.len(),
    ensures
        cli::list_lines(windows, false).len() == windows.len() + 1,
        cli::list_lines(windows, false)[i + 1] == cli::list_row(windows[i]),
        cli::list_lines(Seq::empty(), false) == seq!["No capturable windows found."@],
        cli::list_lines(windows, true).len() == 1,
        text_ops::mentions(cli::list_lines(windows, true)[0], cli::target_json(windows[i])),
{
    let items = cli::target_jsons(windows);
    lemma_joined_mentions(items, ","@, i);
    let inner = text_ops::joined(items, ","@);
    text_ops::part_is_mentioned("["@, inner, "]"@, cli::target_json(windows[i]));
}

proof fn lemma_joined_mentions(list: Seq<Seq<char>>, separator: Seq<char>, i: int)
    requires
        0 <= i < list.len(),
    ensures
        text_ops::mentions(text_ops::joined(list, separator), list[i]),
    decreases list.len(),
{
    let all = text_ops::joined(list, separator);
    let item = list[i];
    if list.len() == 1 {
        assert(all.subrange(0, 0int + item.len()) =~= item);
    } else if i == list.len() - 1 {
        let at = all.len() - item.len();
        assert(all.subrange(at, at + item.len()) =~= item);
    } else {
        let rest = list.drop_last();
        assert(rest[i] == item);
        lemma_joined_mentions(rest, separator, i);
        let before = text_ops::joined(rest, separator);
        text_ops::part_is_mentioned(Seq::empty(), before, separator + list.last(), item);
        assert(Seq::<char>::empty() + before + (separator + list.last()) =~= all);
    }
}

/// A row begins with the window's handle, and holds its size, its process and
/// the beginning of its title.
pub proof fn row_tells_the_window(target: CaptureTarget)
    ensures
        text_ops::begins_with(
            cli::list_row(target),
            text_ops::signed_decimal(target.hwnd as int),
        ),
        text_ops::mentions(
            cli::list_row(target),
            text_ops::signed_decimal(target.width as int) + "x"@ + text_ops::signed_decimal(
                target.height as int,
            ) + "  "@ + target.process@,
        ),
        target.title@.len() <= 48 ==> text_ops::closes_with(cli::list_row(target), target.title@),
        target.title@.len() > 48 ==> text_ops::closes_with(
            cli::list_row(target),
            target.title@.take(48),
        ),
{
    let row = cli::list_row(target);
    let handle = text_ops::signed_decimal(target.hwnd as int);
    assert(row.take(handle.len() as int) =~= handle);
    let title = if target.title@.len() > 48 {
        target.title@.take(48)
    } else {
        target.title@
    };
    assert(row.skip(row.len() - title.len()) =~= title);
    let size = text_ops::signed_decimal(target.width as int) + "x"@ + text_ops::signed_decimal(
        target.height as int,
    );
    let told = size + "  "@ + target.process@;
    let before = cli::padded_right(handle, 12) + " "@ + cli::spaces(11 - size.len());
    let at = before.len() as int;
    assert(row.subrange(at, at + told.len()) =~= told);
}

/// The JSON of a window tells its numbers and texts, each under its own name.
pub proof fn json_tells_the_window(target: CaptureTarget)
    ensures
        ({
            let text = cli::target_json(target);
            &&& text_ops::mentions(
                text,
                json::named("hwnd"@, text_ops::signed_decimal(target.hwnd as int)),
            )
            &&& text_ops::mentions(text, json::named("pid"@, text_ops::decimal(target.pid as nat)))
            &&& text_ops::mentions(
                text,
                json::named("title"@, json::json_string(target.title@)),
            )
            &&& text_ops::mentions(
                text,
                json::named("process"@, json::json_string(target.process@)),
            )
            &&& text_ops::mentions(
                text,
                json::named("width"@, text_ops::signed_decimal(target.width as int)),
            )
            &&& text_ops::mentions(
                text,
                json::named("height"@, text_ops::signed_decimal(target.height as int)),
            )
        }),
{
    reveal_strlit("height");
    reveal_strlit("hwnd");
    reveal_strlit("pid");
    reveal_strlit("process");
    reveal_strlit("title");
    reveal_strlit("width");
    let members = seq![
        ("height"@, text_ops::signed_decimal(target.height as int)),
        ("hwnd"@, text_ops::signed_decimal(target.hwnd as int)),
        ("pid"@, text_ops::decimal(target.pid as nat)),
        ("process"@, json::json_string(target.process@)),
        ("title"@, json::json_string(target.title@)),
        ("width"@, text_ops::signed_decimal(target.width as int)),
    ];
    assert forall|i: int| 0 <= i < 6 implies text_ops::mentions(
        cli::target_json(target),
        json::named(#[trigger] members[i].0, members[i].1),
    ) by {
        json::object_tells_its_members(members, i);
    }
    assert(members[0].0 == "height"@ && members[1].0 == "hwnd"@ && members[2].0 == "pid"@);
    assert(members[3].0 == "process"@ && members[4].0 == "title"@ && members[5].0 == "width"@);
}

/// The line before a capture tells the window, the codec, the bitrate and the
/// rate; a recording also tells its file.
pub proof fn opening_tells_the_settings(
    command: CaptureCommand,
    settings: CaptureSettings,
    out: Seq<char>,
)
    ensures
        ({
            let told = " hwnd "@ + text_ops::signed_decimal(settings.hwnd as int) + " as "@
                + pipeline::codec_text(settings.codec) + " at "@ + text_ops::decimal(
                settings.bitrate as nat,
            ) + " kbps / "@ + text_ops::decimal(settings.fps as nat) + " fps"@;
            let line = cli::opening_text(command, settings, out);
            &&& command is Record ==> line == "Recording"@ + told + " -> "@ + out
            &&& command is Loopback ==> line == "Loopback"@ + told
            &&& command is Host ==> line == "Hosting"@ + told
        }),
{
    let told = " hwnd "@ + text_ops::signed_decimal(settings.hwnd as int) + " as "@
        + pipeline::codec_text(settings.codec) + " at "@ + text_ops::decimal(
        settings.bitrate as nat,
    ) + " kbps / "@ + text_ops::decimal(settings.fps as nat) + " fps"@;
    let line = cli::opening_text(command, settings, out);
    match command {
        CaptureCommand::Record => assert(line =~= "Recording"@ + told + " -> "@ + out),
        CaptureCommand::Loopback => assert(line =~= "Loopback"@ + told),
        CaptureCommand::Host => assert(line =~= "Hosting"@ + told),
    }
}

/// A stream with a file goes into that file, whoever watches; one without goes
/// into a window for the one who watches.
pub proof fn stream_goes_where_it_is_wanted(
    out: Option<String>,
    kind: PlaybackKind,
    cascade: u32,
    target: WatchTarget,
)
    requires
        call_ensures(cli::watch_target, (out, kind, cascade), target),
    ensures
        target is File <==> out is Some,
        out matches Some(path) ==> target->File_0@ == path@,
        out is None && kind is Friend ==> target == WatchTarget::Window(
            PlaybackProfile::FriendViewer { cascade },
        ),
        out is None && kind is Monitor ==> target == WatchTarget::Window(
            PlaybackProfile::LiveMonitor,
        ),
{
}

/// An error is told word for word on one line: only its line breaks become
/// spaces.
pub proof fn error_is_told_word_for_word(chain: Seq<char>, i: int)
    requires
        0 <= i < chain.len(),
    ensures
        cli::on_one_line(chain).len() == chain.len(),
        chain[i] == '\n' || chain[i] == '\r' ==> cli::on_one_line(chain)[i] == ' ',
        chain[i] != '\n' && chain[i] != '\r' ==> cli::on_one_line(chain)[i] == chain[i],
{
}

/// A preview shows the image where one is given, and else the pattern, at the
/// size and rate that were asked for. Only backslashes of the path are turned.
pub proof fn preview_shows_what_is_asked_for(
    stream: (u32, u32),
    fps: u32,
    pattern: Seq<char>,
    image: Seq<char>,
)
    ensures
        ({
            let end = " ! videoconvert ! videoscale ! video/x-raw,width="@ + text_ops::decimal(
                stream.0 as nat,
            ) + ",height="@ + text_ops::decimal(stream.1 as nat) + ",framerate="@
                + text_ops::decimal(fps as nat) + "/1,pixel-aspect-ratio=1/1 ! d3d11upload"@;
            &&& cli::preview_text(stream, fps, pattern, None) == "videotestsrc pattern="@ + pattern
                + end
            &&& cli::preview_text(stream, fps, pattern, Some(image)) == "filesrc location=\""@
                + cli::forward_slashes(image) + "\" ! decodebin ! imagefreeze"@ + end
        }),
        cli::forward_slashes(image).len() == image.len(),
        forall|i: int|
            0 <= i < image.len() ==> #[trigger] cli::forward_slashes(image)[i] == if image[i]
                == '\\' {
                '/'
            } else {
                image[i]
            },
{
    let end = " ! videoconvert ! videoscale ! video/x-raw,width="@ + text_ops::decimal(
        stream.0 as nat,
    ) + ",height="@ + text_ops::decimal(stream.1 as nat) + ",framerate="@ + text_ops::decimal(
        fps as nat,
    ) + "/1,pixel-aspect-ratio=1/1 ! d3d11upload"@;
    assert(cli::preview_text(stream, fps, pattern, None) =~= "videotestsrc pattern="@ + pattern
        + end);
    assert(cli::preview_text(stream, fps, pattern, Some(image)) =~= "filesrc location=\""@
        + cli::forward_slashes(image) + "\" ! decodebin ! imagefreeze"@ + end);
}

/// A recording counts exactly where it holds something, and the complaint names
/// the file.
pub proof fn empty_recording_is_reported(path: &str, size: u64, result: Result<(), String>)
    requires
        call_ensures(cli::report_file, (path, size), result),
    ensures
        size > 0 ==> result is Ok,
        size == 0 ==> result is Err && text_ops::begins_with(
            result->Err_0@,
            "captured nothing ("@ + path@ + " is empty or missing)"@,
        ),
{
    if size == 0 {
        reveal_strlit(
            " is empty or missing). Windows Graphics Capture only produces frames when the window redraws - is it minimised or idle?",
        );
        reveal_strlit(" is empty or missing)");
        let text = result->Err_0@;
        let start = "captured nothing ("@ + path@ + " is empty or missing)"@;
        assert(text.take(start.len() as int) =~= start);
    }
}

proof fn lemma_size_within(before: Seq<char>, width: u32, height: u32, after: Seq<char>)
    ensures
        text_ops::mentions(
            before + cli::size_text(width, height) + after,
            text_ops::decimal(width as nat) + "x"@ + text_ops::decimal(height as nat),
        ),
{
    let part = text_ops::decimal(width as nat) + "x"@ + text_ops::decimal(height as nat);
    let text = before + cli::size_text(width, height) + after;
    assert(text.subrange(before.len() as int, before.len() as int + part.len()) =~= part);
}

/// A bitrate that was derived is told with the size and the rate that it was
/// derived from.
pub proof fn derived_bitrate_is_told(auto: AutomaticBitrate, line: String, warning: String)
    requires
        call_ensures(cli::automatic_bitrate_line, (&auto,), line),
        call_ensures(cli::quality_warning_line, (&auto,), warning),
    ensures
        forall|told: Seq<char>|
            told == line@ || told == warning@ ==> #[trigger] text_ops::mentions(
                told,
                text_ops::decimal(auto.kbps as nat) + " kbps"@,
            ) && text_ops::mentions(
                told,
                text_ops::decimal(auto.width as nat) + "x"@ + text_ops::decimal(auto.height as nat),
            ) && text_ops::mentions(
                told,
                " at "@ + text_ops::decimal(auto.fps as nat) + " fps"@,
            ),
        text_ops::mentions(warning@, "quality-constrained"@),
{
    let kbps = text_ops::decimal(auto.kbps as nat);
    let fps = text_ops::decimal(auto.fps as nat);
    let size = cli::size_text(auto.width, auto.height);
    reveal_strlit(" kbps");
    reveal_strlit(" kbps for ");
    reveal_strlit(" kbps; ");
    reveal_strlit(" fps");
    reveal_strlit(" fps.");
    reveal_strlit(" fps is quality-constrained");
    reveal_strlit("quality-constrained");
    let opening = "Video bitrate set automatically to "@;
    let rate = kbps + " kbps"@;
    let pace = " at "@ + fps + " fps"@;
    let at = opening.len() as int;
    assert(line@.subrange(at, at + rate.len()) =~= rate);
    let before = opening + kbps + " kbps for "@;
    assert(line@ =~= before + size + (" at "@ + fps + " fps."@));
    lemma_size_within(before, auto.width, auto.height, " at "@ + fps + " fps."@);
    let then_at = (before + size).len() as int;
    assert(line@.subrange(then_at, then_at + pace.len()) =~= pace);
    let start = "[quality] automatic video bitrate capped at "@;
    let place = start.len() as int;
    assert(warning@.subrange(place, place + rate.len()) =~= rate);
    let first = start + kbps + " kbps; "@;
    let rest = " at "@ + fps + " fps is quality-constrained"@;
    assert(warning@ =~= first + size + rest);
    lemma_size_within(first, auto.width, auto.height, rest);
    let later = (first + size).len() as int;
    assert(warning@.subrange(later, later + pace.len()) =~= pace);
    let end = warning@.len() as int - 19;
    assert(warning@.subrange(end, end + 19) =~= "quality-constrained"@);
}

/// A supervising program learns of a bitrate that was cut short, in whole
/// megabits.
pub proof fn constraint_is_reported(auto: AutomaticBitrate, line: String)
    requires
        call_ensures(cli::quality_status_line, (&auto,), line),
    ensures
        text_ops::begins_with(line@, "[quality-status] {"@),
        text_ops::mentions(line@, "automatic-bitrate-constrained"@),
        text_ops::begins_with(
            cli::constrained_text(auto),
            "Automatic quality is limited to "@ + text_ops::decimal((auto.kbps / 1_000) as nat)
                + " Mbps"@,
        ),
        text_ops::mentions(
            cli::constrained_text(auto),
            text_ops::decimal(auto.width as nat) + "x"@ + text_ops::decimal(auto.height as nat),
        ),
        text_ops::closes_with(
            cli::constrained_text(auto),
            " and "@ + text_ops::decimal(auto.fps as nat) + " fps"@,
        ),
        text_ops::closes_with(
            line@,
            ":"@ + json::json_string(cli::constrained_text(auto)) + "}"@,
        ),
{
    reveal_strlit("[quality-status] {\"event\":\"automatic-bitrate-constrained\",\"message\":");
    reveal_strlit("[quality-status] {");
    reveal_strlit("automatic-bitrate-constrained");
    reveal_strlit(":");
    reveal_strlit(" Mbps at ");
    reveal_strlit(" Mbps");
    assert(line@.take(18) =~= "[quality-status] {"@);
    assert(line@.subrange(27, 27int + 29) =~= "automatic-bitrate-constrained"@);
    let text = cli::constrained_text(auto);
    let start = "Automatic quality is limited to "@ + text_ops::decimal((auto.kbps / 1_000) as nat)
        + " Mbps"@;
    assert(text.take(start.len() as int) =~= start);
    let before = "Automatic quality is limited to "@ + text_ops::decimal(
        (auto.kbps / 1_000) as nat,
    ) + " Mbps at "@;
    let after = " and "@ + text_ops::decimal(auto.fps as nat) + " fps"@;
    assert(text =~= before + cli::size_text(auto.width, auto.height) + after);
    lemma_size_within(before, auto.width, auto.height, after);
    assert(text.skip(text.len() - after.len()) =~= after);
    let end = ":"@ + json::json_string(text) + "}"@;
    assert(line@.skip(line@.len() - end.len()) =~= end);
}

/// A fallback is told with the codec and the encoder that were taken.
pub proof fn fallback_is_told(codec: Codec, encoder: &str, line: String)
    requires
        call_ensures(cli::fallback_line, (codec, encoder), line),
    ensures
        text_ops::mentions(line@, pipeline::codec_text(codec) + " via "@ + encoder@),
        text_ops::closes_with(line@, "fallback."@),
{
    let part = pipeline::codec_text(codec) + " via "@ + encoder@;
    let at = "Encoder auto-selected "@.len() as int;
    assert(line@.subrange(at, at + part.len()) =~= part);
    reveal_strlit(" zero-copy fallback.");
    reveal_strlit("fallback.");
    assert(line@.skip(line@.len() - 9) =~= "fallback."@);
}

/// A preview has the sizes that were given, in that order; it is refused where
/// one of them cannot be read or where the rate is zero, and says which. Both
/// sizes and the rate are told, and that the controls stay, where they do.
pub proof fn preview_is_planned_as_asked(
    width: u32,
    height: u32,
    shown_width: u32,
    shown_height: u32,
    size: &str,
    window: &str,
    fps: u32,
    pattern: &str,
    image: Option<&str>,
    pinned: bool,
    plan: Result<PreviewPlan, PreviewError>,
)
    requires
        call_ensures(cli::preview_plan, (size, window, fps, pattern, image, pinned), plan),
    ensures
        plan is Ok <==> cli::scale_read(size@) is Ok && cli::scale_read(window@) is Ok && fps > 0,
        cli::scale_read(size@) is Err ==> plan->Err_0 is Stream,
        cli::scale_read(size@) is Ok && cli::scale_read(window@) is Err ==> plan->Err_0 is Window,
        plan is Ok && cli::scale_read(size@) == Ok::<_, ScaleError>((width, height))
            && cli::scale_read(window@) == Ok::<_, ScaleError>((shown_width, shown_height)) ==> {
            let found = plan->Ok_0;
            &&& found.stream == (width, height)
            &&& found.window == (shown_width, shown_height)
            &&& found.lines@.len() == 2
            &&& text_ops::begins_with(
                found.lines@[0]@,
                "Preview: "@ + text_ops::decimal(width as nat) + "x"@ + text_ops::decimal(
                    height as nat,
                ) + " at "@ + text_ops::decimal(fps as nat) + " fps"@,
            )
            &&& text_ops::closes_with(
                found.lines@[0]@,
                text_ops::decimal(shown_width as nat) + "x"@ + text_ops::decimal(
                    shown_height as nat,
                ) + " window."@,
            )
            &&& pinned ==> text_ops::mentions(found.lines@[1]@, "(pinned open)"@)
            &&& !pinned ==> found.lines@[1]@
                == "Move the mouse to wake the controls. Esc or the X closes."@
        },
{
    if plan is Ok && cli::scale_read(size@) == Ok::<_, ScaleError>((width, height))
        && cli::scale_read(window@) == Ok::<_, ScaleError>((shown_width, shown_height)) {
        let found = plan->Ok_0;
        let lines = cli::preview_lines(
            (width, height),
            (shown_width, shown_height),
            fps,
            pinned,
        );
        assert(text_ops::texts(found.lines@) == lines);
        assert(found.lines@.len() == text_ops::texts(found.lines@).len());
        assert(text_ops::texts(found.lines@)[0] == found.lines@[0]@);
        assert(text_ops::texts(found.lines@)[1] == found.lines@[1]@);
        reveal_strlit(" fps in a ");
        reveal_strlit(" fps");
        let text = lines[0];
        let start = "Preview: "@ + text_ops::decimal(width as nat) + "x"@ + text_ops::decimal(
            height as nat,
        ) + " at "@ + text_ops::decimal(fps as nat) + " fps"@;
        assert(text.take(start.len() as int) =~= start);
        let end = text_ops::decimal(shown_width as nat) + "x"@ + text_ops::decimal(
            shown_height as nat,
        ) + " window."@;
        assert(text.skip(text.len() - end.len()) =~= end);
        reveal_strlit(" (pinned open)");
        reveal_strlit("(pinned open)");
        reveal_strlit("");
        reveal_strlit("Move the mouse to wake the controls");
        reveal_strlit(". Esc or the X closes.");
        reveal_strlit("Move the mouse to wake the controls. Esc or the X closes.");
        if pinned {
            assert(lines[1].subrange(36, 36int + 13) =~= "(pinned open)"@);
        } else {
            assert(lines[1] =~= "Move the mouse to wake the controls. Esc or the X closes."@);
        }
    }
}

/// The columns of the list line up: where handle, size and process are no wider
/// than their columns, the process stands at the twenty-seventh character and
/// the title at the fifty-second.
pub proof fn columns_line_up(target: CaptureTarget)
    requires
        text_ops::signed_decimal(target.hwnd as int).len() <= 12,
        (text_ops::signed_decimal(target.width as int) + "x"@ + text_ops::signed_decimal(
            target.height as int,
        )).len() <= 11,
        target.process@.len() <= 24,
    ensures
        ({
            let row = cli::list_row(target);
            &&& row.len() >= 51
            &&& row.subrange(26, 26int + target.process@.len()) == target.process@
            &&& forall|i: int| 26 + target.process@.len() <= i < 51 ==> #[trigger] row[i] == ' '
            &&& target.title@.len() <= 48 ==> row.skip(51) == target.title@
        }),
{
    reveal_strlit(" ");
    reveal_strlit("  ");
    let row = cli::list_row(target);
    assert(row.subrange(26, 26int + target.process@.len()) =~= target.process@);
    if target.title@.len() <= 48 {
        assert(row.skip(51) =~= target.title@);
    }
}

} // verus!
