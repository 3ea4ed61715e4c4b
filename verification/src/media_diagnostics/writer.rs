//! The diagnostics file: which lines it holds, and when it is written.

use vstd::prelude::*;
use vstd::string::*;

use super::operation::{self, clamp_ms};
use crate::json::{self, number_member, object, raw_member, text_member, Member};
use crate::text_ops::{
    self, chars_of, decimal_string, join, split_filled, string_of, Separator,
};

verus! {

pub const DIAGNOSTIC_QUEUE_CAPACITY: usize = 128;

pub const MAX_DIAGNOSTIC_BYTES: u64 = 67_108_864;

/// What the surroundings say about a run.
#[derive(Debug)]
pub struct DiagnosticMetadata {
    pub build: Option<String>,
    pub run: Option<String>,
    pub device: Option<String>,
    pub profile: Option<String>,
}

impl Default for DiagnosticMetadata {
    fn default() -> (metadata: DiagnosticMetadata)
        ensures
            metadata.build is None,
            metadata.run is None,
            metadata.device is None,
            metadata.profile is None,
    {
        DiagnosticMetadata { build: None, run: None, device: None, profile: None }
    }
}

impl DiagnosticMetadata {
    /// Looks up the four names that may be recorded, and no other.
    pub fn from_lookup<F: Fn(&str) -> Option<String>>(lookup: F) -> (metadata: DiagnosticMetadata)
        requires
            call_requires(lookup, ("ORANGE_BUILD_ID",)),
            call_requires(lookup, ("ORANGE_RUN_ID",)),
            call_requires(lookup, ("ORANGE_DEVICE_ID",)),
            call_requires(lookup, ("ORANGE_TEST_PROFILE",)),
        ensures
            call_ensures(lookup, ("ORANGE_BUILD_ID",), metadata.build),
            call_ensures(lookup, ("ORANGE_RUN_ID",), metadata.run),
            call_ensures(lookup, ("ORANGE_DEVICE_ID",), metadata.device),
            call_ensures(lookup, ("ORANGE_TEST_PROFILE",), metadata.profile),
    {
        DiagnosticMetadata {
            build: lookup("ORANGE_BUILD_ID"),
            run: lookup("ORANGE_RUN_ID"),
            device: lookup("ORANGE_DEVICE_ID"),
            profile: lookup("ORANGE_TEST_PROFILE"),
        }
    }
}

/// The members with one more, where it has a value.
pub open spec fn with_optional(
    members: Seq<(Seq<char>, Seq<char>)>,
    name: Seq<char>,
    value: Option<String>,
) -> Seq<(Seq<char>, Seq<char>)> {
    match value {
        Some(text) => members.push((name, json::json_string(text@))),
        None => members,
    }
}

/// The members of a diagnostics line; metadata that is absent is left out.
pub open spec fn record_members(
    metadata: DiagnosticMetadata,
    elapsed_ms: u64,
    at_unix_ms: u128,
    event: Seq<char>,
    role: Seq<char>,
    payload: Seq<char>,
) -> Seq<(Seq<char>, Seq<char>)> {
    let head = seq![
        ("at_unix_ms"@, text_ops::decimal(at_unix_ms as nat)),
        ("elapsed_ms"@, text_ops::decimal(elapsed_ms as nat)),
        ("event"@, json::json_string(event)),
        ("role"@, json::json_string(role)),
    ];
    with_optional(
        with_optional(
            with_optional(
                with_optional(head, "build"@, metadata.build),
                "run"@,
                metadata.run,
            ),
            "device"@,
            metadata.device,
        ),
        "profile"@,
        metadata.profile,
    ).push(("payload"@, payload))
}

fn push_optional(members: &mut Vec<Member>, name: &'static str, value: &Option<String>)
    ensures
        json::member_texts(final(members)@) == with_optional(
            json::member_texts(old(members)@),
            name@,
            *value,
        ),
{
    if let Some(text) = value {
        let ghost before = json::member_texts(members@);
        members.push(text_member(name, text.as_str()));
        proof {
            assert(json::member_texts(members@) =~= before.push(
                (name@, json::json_string(text@)),
            ));
        }
    }
}

/// One line of the diagnostics file. There is none where the payload could
/// not be turned into text.
pub fn diagnostic_json(
    metadata: &DiagnosticMetadata,
    elapsed_ms: u64,
    at_unix_ms: u128,
    event: &str,
    role: &str,
    payload: Option<&str>,
) -> (line: Option<String>)
    ensures
        match payload {
            Some(payload) => line matches Some(text) && text@ == json::json_object(
                record_members(*metadata, elapsed_ms, at_unix_ms, event@, role@, payload@),
            ),
            None => line is None,
        },
{
    let payload = match payload {
        Some(payload) => payload,
        None => return None,
    };
    let mut members: Vec<Member> = Vec::new();
    members.push(number_member("at_unix_ms", at_unix_ms));
    members.push(number_member("elapsed_ms", elapsed_ms as u128));
    members.push(text_member("event", event));
    members.push(text_member("role", role));
    proof {
        assert(json::member_texts(members@) =~= seq![
            ("at_unix_ms"@, text_ops::decimal(at_unix_ms as nat)),
            ("elapsed_ms"@, text_ops::decimal(elapsed_ms as nat)),
            ("event"@, json::json_string(event@)),
            ("role"@, json::json_string(role@)),
        ]);
    }
    push_optional(&mut members, "build", &metadata.build);
    push_optional(&mut members, "run", &metadata.run);
    push_optional(&mut members, "device", &metadata.device);
    push_optional(&mut members, "profile", &metadata.profile);
    let ghost before = json::member_texts(members@);
    members.push(raw_member("payload", payload));
    proof {
        assert(json::member_texts(members@) =~= before.push(("payload"@, payload@)));
    }
    Some(object(&members))
}

/// A diagnostics line stays one line, whatever the event, the role and the
/// metadata hold, as long as its payload is one.
pub proof fn diagnostic_line_is_one_line(
    metadata: DiagnosticMetadata,
    elapsed_ms: u64,
    at_unix_ms: u128,
    event: Seq<char>,
    role: Seq<char>,
    payload: Seq<char>,
)
    requires
        json::one_line(payload),
    ensures
        json::one_line(
            json::json_object(
                record_members(metadata, elapsed_ms, at_unix_ms, event, role, payload),
            ),
        ),
{
    let members = record_members(metadata, elapsed_ms, at_unix_ms, event, role, payload);
    lemma_decimal_is_one_line(at_unix_ms as nat);
    lemma_decimal_is_one_line(elapsed_ms as nat);
    json::json_string_is_one_line(event);
    json::json_string_is_one_line(role);
    if let Some(text) = metadata.build {
        json::json_string_is_one_line(text@);
    }
    if let Some(text) = metadata.run {
        json::json_string_is_one_line(text@);
    }
    if let Some(text) = metadata.device {
        json::json_string_is_one_line(text@);
    }
    if let Some(text) = metadata.profile {
        json::json_string_is_one_line(text@);
    }
    json::json_object_is_one_line(members);
}

proof fn lemma_decimal_is_one_line(n: nat)
    ensures
        json::one_line(text_ops::decimal(n)),
    decreases n,
{
    if n >= 10 {
        lemma_decimal_is_one_line(n / 10);
    }
}

/// A drive stands at `at`: a letter and a colon.
pub open spec fn drive_at(path: Seq<char>, at: int) -> bool {
    &&& at + 2 <= path.len()
    &&& ('a' <= path[at] <= 'z' || 'A' <= path[at] <= 'Z')
    &&& path[at + 1] == ':'
}

fn is_drive(path: &Vec<char>, at: usize) -> (yes: bool)
    requires
        at <= path@.len(),
    ensures
        yes == drive_at(path@, at as int),
{
    if path.len() - at < 2 {
        return false;
    }
    let letter: char = path[at];
    (('a' <= letter && letter <= 'z') || ('A' <= letter && letter <= 'Z')) && path[at + 1] == ':'
}

/// The path is handed to Windows word for word: in such a path only the
/// backslash separates.
pub open spec fn word_for_word(path: Seq<char>) -> bool {
    path.len() >= 4 && path[0] == '\\' && path[1] == '\\' && path[2] == '?' && path[3] == '\\'
}

/// The end of the part that begins at `from`: the next backslash, or the end
/// of the path.
pub open spec fn part_end(path: Seq<char>, from: int) -> int
    decreases path.len() - from,
{
    if from >= path.len() {
        path.len() as int
    } else if path[from] == '\\' {
        from
    } else {
        part_end(path, from + 1)
    }
}

fn find_part_end(path: &Vec<char>, from: usize) -> (end: usize)
    requires
        from <= path@.len(),
    ensures
        end == part_end(path@, from as int),
        from <= end <= path@.len(),
{
    let mut i: usize = from;
    while i < path.len()
        invariant
            from <= i <= path@.len(),
            part_end(path@, from as int) == part_end(path@, i as int),
        decreases path@.len() - i,
    {
        if path[i] == '\\' {
            return i;
        }
        i += 1;
    }
    i
}

/// A share on a server is named, behind `\\?\UNC\`.
pub open spec fn names_share(path: Seq<char>) -> bool {
    &&& path.len() >= 8
    &&& path[4] == 'U' && path[5] == 'N' && path[6] == 'C'
    &&& path[7] == '\\' || path[7] == '/'
}

/// How much of a word-for-word path is its root: server and share, a drive, or
/// the first part.
pub open spec fn root_length(path: Seq<char>) -> int {
    let n = path.len() as int;
    if names_share(path) {
        let server = part_end(path, 8);
        let share = part_end(path, server + 1);
        if server + 1 < share {
            share
        } else {
            server
        }
    } else if drive_at(path, 4) && (n == 6 || path[6] == '\\' || path[6] == '/') {
        6
    } else {
        part_end(path, 4)
    }
}

fn find_root(path: &Vec<char>) -> (root: usize)
    requires
        word_for_word(path@),
    ensures
        root == root_length(path@),
        root <= path@.len(),
{
    let n: usize = path.len();
    if n >= 8 && path[4] == 'U' && path[5] == 'N' && path[6] == 'C' && (path[7] == '\\' || path[7]
        == '/') {
        let server: usize = find_part_end(path, 8);
        if server >= n {
            return server;
        }
        let share: usize = find_part_end(path, server + 1);
        if server + 1 < share {
            share
        } else {
            server
        }
    } else if is_drive(path, 4) && (n == 6 || path[6] == '\\' || path[6] == '/') {
        6
    } else {
        find_part_end(path, 4)
    }
}

/// The parts of a word-for-word path behind its root.
pub open spec fn parts_behind_root(path: Seq<char>) -> Seq<Seq<char>> {
    let root = root_length(path);
    let rest = if root < path.len() {
        path.skip(root + 1)
    } else {
        Seq::empty()
    };
    text_ops::filled(text_ops::pieces(rest, Separator::Character('\\')))
}

/// A file in a directory, as Windows joins the two: with a backslash between
/// them, unless the directory is empty, ends in a separator or is a bare drive.
/// A word-for-word path is put together anew from its parts.
pub open spec fn path_in(directory: Seq<char>, name: Seq<char>) -> Seq<char> {
    if word_for_word(directory) {
        directory.take(root_length(directory)) + "\\"@ + text_ops::joined(
            parts_behind_root(directory).push(name),
            "\\"@,
        )
    } else if directory.len() == 0 || directory.last() == '\\' || directory.last() == '/' || (
    directory.len() == 2 && drive_at(directory, 0)) {
        directory + name
    } else {
        directory + "\\"@ + name
    }
}

/// The file of a process in a directory.
pub open spec fn file_path(directory: Seq<char>, pid: u32) -> Seq<char> {
    path_in(directory, "orange-media-"@ + text_ops::decimal(pid as nat) + ".jsonl"@)
}

fn join_word_for_word(chars: &Vec<char>, name: String) -> (path: String)
    requires
        word_for_word(chars@),
    ensures
        path@ == path_in(chars@, name@),
{
    let n: usize = chars.len();
    let root: usize = find_root(chars);
    let from: usize = if root < n {
        root + 1
    } else {
        n
    };
    let parts = split_filled(chars, from, n, Separator::Character('\\'));
    proof {
        let rest = if root < n {
            chars@.skip(root + 1)
        } else {
            Seq::empty()
        };
        assert(chars@.subrange(from as int, n as int) =~= rest);
    }
    let mut list: Vec<String> = Vec::new();
    let mut i: usize = 0;
    proof {
        assert(text_ops::texts(list@) =~= text_ops::vectors(parts@).take(0));
    }
    while i < parts.len()
        invariant
            i <= parts@.len(),
            text_ops::texts(list@) == text_ops::vectors(parts@).take(i as int),
        decreases parts@.len() - i,
    {
        let ghost before = text_ops::texts(list@);
        let part = string_of(&parts[i], 0, parts[i].len());
        list.push(part);
        proof {
            assert(part@ =~= parts@[i as int]@);
            assert(text_ops::texts(list@) =~= before.push(parts@[i as int]@));
            assert(text_ops::texts(list@) =~= text_ops::vectors(parts@).take(i + 1));
        }
        i += 1;
    }
    let ghost before = text_ops::texts(list@);
    list.push(name);
    proof {
        assert(before =~= text_ops::vectors(parts@));
        assert(before == parts_behind_root(chars@));
        assert(text_ops::texts(list@) =~= parts_behind_root(chars@).push(name@));
    }
    let mut path = string_of(chars, 0, root);
    proof {
        assert(path@ =~= chars@.take(root as int));
    }
    path.append("\\");
    path.append(join(&list, "\\").as_str());
    path
}

pub fn diagnostic_file_path(directory: &str, pid: u32) -> (path: String)
    ensures
        path@ == file_path(directory@, pid),
{
    let chars = chars_of(directory);
    let n: usize = chars.len();
    let mut name = "orange-media-".to_owned();
    name.append(decimal_string(pid as u128).as_str());
    name.append(".jsonl");
    if n >= 4 && chars[0] == '\\' && chars[1] == '\\' && chars[2] == '?' && chars[3] == '\\' {
        return join_word_for_word(&chars, name);
    }
    let touching = n == 0 || chars[n - 1] == '\\' || chars[n - 1] == '/' || (n == 2 && is_drive(
        &chars,
        0,
    ));
    let mut path = directory.to_owned();
    if !touching {
        path.append("\\");
    }
    path.append(name.as_str());
    path
}

/// What stands before the name of a file, whatever the name.
proof fn lemma_path_ends_in_name(directory: Seq<char>, name: Seq<char>) -> (before: Seq<char>)
    ensures
        path_in(directory, name) == before + name,
        forall|other: Seq<char>| #[trigger] path_in(directory, other) == before + other,
{
    if word_for_word(directory) {
        let parts = parts_behind_root(directory);
        let head = directory.take(root_length(directory)) + "\\"@;
        let before = if parts.len() == 0 {
            head
        } else {
            head + text_ops::joined(parts, "\\"@) + "\\"@
        };
        assert forall|other: Seq<char>| #[trigger] path_in(directory, other) == before + other by {
            let list = parts.push(other);
            assert(list.drop_last() =~= parts);
            assert(path_in(directory, other) =~= before + other);
        }
        before
    } else {
        let before = path_in(directory, Seq::empty());
        assert forall|other: Seq<char>| #[trigger] path_in(directory, other) == before + other by {
            assert(path_in(directory, other) =~= before + other);
        }
        before
    }
}

/// Files are scoped to one process: two processes never share one.
pub proof fn processes_have_files_of_their_own(directory: Seq<char>, a: u32, b: u32)
    requires
        a != b,
    ensures
        file_path(directory, a) != file_path(directory, b),
{
    let first = "orange-media-"@ + text_ops::decimal(a as nat) + ".jsonl"@;
    let second = "orange-media-"@ + text_ops::decimal(b as nat) + ".jsonl"@;
    let before = lemma_path_ends_in_name(directory, first);
    if file_path(directory, a) == file_path(directory, b) {
        let n = before.len() as int;
        assert(path_in(directory, first).skip(n) =~= first);
        assert(path_in(directory, second).skip(n) =~= second);
        let start = "orange-media-"@.len() as int;
        let end = first.len() - ".jsonl"@.len();
        assert(first.subrange(start, end) =~= text_ops::decimal(a as nat));
        assert(second.subrange(start, end) =~= text_ops::decimal(b as nat));
        text_ops::decimal_is_read_back(a as nat);
        text_ops::decimal_is_read_back(b as nat);
    }
}

/// How much more a diagnostics file may hold.
pub fn remaining_bytes(size: Option<u64>) -> (left: u64)
    ensures
        left == match size {
            Some(size) => if size <= MAX_DIAGNOSTIC_BYTES {
                (MAX_DIAGNOSTIC_BYTES - size) as u64
            } else {
                0
            },
            None => MAX_DIAGNOSTIC_BYTES,
        },
{
    match size {
        Some(size) => MAX_DIAGNOSTIC_BYTES.saturating_sub(size),
        None => MAX_DIAGNOSTIC_BYTES,
    }
}

/// How much was written, and whether the cap was reached.
#[derive(Debug, Clone, Copy, PartialEq, Eq, Structural)]
pub struct DrainState {
    pub written: u64,
    pub capped: bool,
}

/// A line of `bytes` bytes and its end fit under the cap.
pub open spec fn line_fits(state: DrainState, bytes: int, max_bytes: u64) -> bool {
    !state.capped && state.written + bytes + 1 <= max_bytes
}

pub open spec fn drained(state: DrainState, bytes: int, max_bytes: u64) -> DrainState {
    if line_fits(state, bytes, max_bytes) {
        DrainState { written: (state.written + bytes + 1) as u64, capped: false }
    } else {
        DrainState { written: state.written, capped: true }
    }
}

/// Takes the next line. It is written where it fits; the first line that does
/// not fit ends the file, and shorter ones after it are dropped too.
pub fn drain_diagnostics(state: &mut DrainState, line: &str, max_bytes: u64) -> (write: bool)
    requires
        old(state).written <= max_bytes,
    ensures
        *final(state) == drained(*old(state), line.spec_bytes().len() as int, max_bytes),
        write == line_fits(*old(state), line.spec_bytes().len() as int, max_bytes),
        final(state).written <= max_bytes,
{
    if state.capped {
        return false;
    }
    let length: usize = line.as_bytes().len();
    let room: u64 = max_bytes - state.written;
    if length as u64 >= room {
        state.capped = true;
        return false;
    }
    state.written = state.written + length as u64 + 1;
    true
}

/// The state of the file after lines of these sizes.
pub open spec fn drained_all(sizes: Seq<nat>, max_bytes: u64) -> DrainState
    decreases sizes.len(),
{
    if sizes.len() == 0 {
        DrainState { written: 0, capped: false }
    } else {
        drained(drained_all(sizes.drop_last(), max_bytes), sizes.last() as int, max_bytes)
    }
}

/// The bytes of the first `n` lines, each with its end.
pub open spec fn bytes_of(sizes: Seq<nat>) -> int
    decreases sizes.len(),
{
    if sizes.len() == 0 {
        0
    } else {
        bytes_of(sizes.drop_last()) + sizes.last() + 1
    }
}

/// What is written is a run of whole lines from the start, and never more
/// than the cap.
pub proof fn file_is_a_prefix_under_the_cap(sizes: Seq<nat>, max_bytes: u64)
    ensures
        drained_all(sizes, max_bytes).written <= max_bytes,
        exists|n: int|
            0 <= n <= sizes.len() && drained_all(sizes, max_bytes).written == #[trigger] bytes_of(
                sizes.take(n),
            ) && (!drained_all(sizes, max_bytes).capped ==> n == sizes.len()),
    decreases sizes.len(),
{
    if sizes.len() == 0 {
        assert(bytes_of(sizes.take(0)) == 0);
    } else {
        let earlier = sizes.drop_last();
        file_is_a_prefix_under_the_cap(earlier, max_bytes);
        let before = drained_all(earlier, max_bytes);
        let n = choose|n: int|
            0 <= n <= earlier.len() && before.written == #[trigger] bytes_of(earlier.take(n)) && (
            !before.capped ==> n == earlier.len());
        if line_fits(before, sizes.last() as int, max_bytes) {
            assert(earlier.take(n) =~= earlier);
            assert(sizes.take(sizes.len() as int) =~= sizes);
            assert(bytes_of(sizes.take(sizes.len() as int)) == bytes_of(earlier) + sizes.last()
                + 1);
        } else {
            assert(sizes.take(n) =~= earlier.take(n));
            assert(bytes_of(sizes.take(n)) == before.written);
        }
    }
}

/// What a process's diagnostics are doing.
#[derive(Debug, Clone, Copy, PartialEq, Eq, Structural)]
pub enum DiagnosticRuntime {
    /// A destination is known, and nothing has been written.
    Pending,
    Running,
    Stopped,
}

#[derive(Debug, Clone, Copy, PartialEq, Eq, Structural)]
pub enum RuntimeEvent {
    /// An event is about to be recorded. Where the file has to be started for
    /// it, this says whether that worked.
    Access { started: bool },
    Shutdown,
}

/// What is done about an event.
#[derive(Debug, Clone, Copy, PartialEq, Eq, Structural)]
pub struct RuntimeAction {
    /// The file is opened and its worker started.
    pub start: bool,
    /// There is a running sink for the event.
    pub usable: bool,
    /// The queue is closed and the worker joined.
    pub join: bool,
}

pub open spec fn runtime_after(runtime: DiagnosticRuntime, event: RuntimeEvent) -> (
    DiagnosticRuntime,
    RuntimeAction,
) {
    match (runtime, event) {
        (DiagnosticRuntime::Running, RuntimeEvent::Access { .. }) => (
            DiagnosticRuntime::Running,
            RuntimeAction { start: false, usable: true, join: false },
        ),
        (DiagnosticRuntime::Stopped, RuntimeEvent::Access { .. }) => (
            DiagnosticRuntime::Stopped,
            RuntimeAction { start: false, usable: false, join: false },
        ),
        (DiagnosticRuntime::Pending, RuntimeEvent::Access { started }) => (
            if started {
                DiagnosticRuntime::Running
            } else {
                DiagnosticRuntime::Stopped
            },
            RuntimeAction { start: true, usable: started, join: false },
        ),
        (_, RuntimeEvent::Shutdown) => (
            DiagnosticRuntime::Stopped,
            RuntimeAction {
                start: false,
                usable: false,
                join: runtime == DiagnosticRuntime::Running,
            },
        ),
    }
}

impl DiagnosticRuntime {
    /// One step: the file is started with the first event, and not again
    /// after it failed to start or was shut down.
    pub fn step(self, event: RuntimeEvent) -> (out: (DiagnosticRuntime, RuntimeAction))
        ensures
            out == runtime_after(self, event),
    {
        match event {
            RuntimeEvent::Access { started } => match self {
                DiagnosticRuntime::Running => (
                    DiagnosticRuntime::Running,
                    RuntimeAction { start: false, usable: true, join: false },
                ),
                DiagnosticRuntime::Stopped => (
                    DiagnosticRuntime::Stopped,
                    RuntimeAction { start: false, usable: false, join: false },
                ),
                DiagnosticRuntime::Pending => (
                    if started {
                        DiagnosticRuntime::Running
                    } else {
                        DiagnosticRuntime::Stopped
                    },
                    RuntimeAction { start: true, usable: started, join: false },
                ),
            },
            RuntimeEvent::Shutdown => {
                let join = match self {
                    DiagnosticRuntime::Running => true,
                    _ => false,
                };
                (
                    DiagnosticRuntime::Stopped,
                    RuntimeAction { start: false, usable: false, join },
                )
            },
        }
    }
}

pub open spec fn runtime_run(events: Seq<RuntimeEvent>) -> DiagnosticRuntime
    decreases events.len(),
{
    if events.len() == 0 {
        DiagnosticRuntime::Pending
    } else {
        runtime_after(runtime_run(events.drop_last()), events.last()).0
    }
}

/// How often the file was started and its worker joined.
pub open spec fn starts_and_joins(events: Seq<RuntimeEvent>) -> (int, int)
    decreases events.len(),
{
    if events.len() == 0 {
        (0, 0)
    } else {
        let (starts, joins) = starts_and_joins(events.drop_last());
        let action = runtime_after(runtime_run(events.drop_last()), events.last()).1;
        (
            starts + if action.start {
                1int
            } else {
                0
            },
            joins + if action.join {
                1int
            } else {
                0
            },
        )
    }
}

/// The file is started at most once and its worker joined at most once; a
/// shut down runtime stays so.
pub proof fn file_starts_and_ends_once(events: Seq<RuntimeEvent>)
    ensures
        starts_and_joins(events).0 <= 1,
        starts_and_joins(events).1 <= starts_and_joins(events).0,
        runtime_run(events) is Pending ==> starts_and_joins(events) == (0int, 0int),
        runtime_run(events) is Running ==> starts_and_joins(events) == (1int, 0int),
        events.len() > 0 && runtime_run(events.drop_last()) is Stopped ==> runtime_run(
            events,
        ) is Stopped,
        events.len() > 0 && events.last() is Shutdown ==> runtime_run(events) is Stopped,
    decreases events.len(),
{
    if events.len() > 0 {
        file_starts_and_ends_once(events.drop_last());
    }
}

/// Diagnostics are on where a destination is known and this process has no
/// other writer.
pub fn new_with_destination(has_destination: bool, slot_free: bool) -> (enabled: bool)
    ensures
        enabled == (has_destination && slot_free),
{
    has_destination && slot_free
}

/// What became of a line that was handed to the queue.
#[derive(Debug, Clone, Copy, PartialEq, Eq, Structural)]
pub enum QueueReply {
    Accepted,
    Full,
    Disconnected,
}

/// An event is recorded where the queue is open, its line could be made, and
/// the queue took it. An event never waits.
pub fn emit(open: bool, line_made: bool, reply: QueueReply) -> (recorded: bool)
    ensures
        recorded == (open && line_made && reply is Accepted),
{
    if !open || !line_made {
        return false;
    }
    match reply {
        QueueReply::Accepted => true,
        QueueReply::Full => false,
        QueueReply::Disconnected => false,
    }
}

/// The time since the start as it stands in a line.
pub fn line_elapsed_ms(elapsed_ms: u128) -> (out: u64)
    ensures
        out == operation::recorded_ms(elapsed_ms),
{
    clamp_ms(elapsed_ms)
}

} // verus!
