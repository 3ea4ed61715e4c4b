//! What a host owes its viewers, whoever else is watching.

use vstd::prelude::*;
use vstd::string::*;

use super::host::{
    self, HostAction, HostActionModel, HostEvent, HostModel, HostSession, ViewerModel,
};
use super::Signal;
use crate::json;
use crate::text_ops;

verus! {

/// What is said of an action is what it does: each kind stands for itself, and
/// what it is done to and with is told.
pub proof fn actions_are_what_is_said_of_them(action: HostAction)
    ensures
        match host::action_model(action) {
            HostActionModel::End => action is End,
            HostActionModel::Fail(text) => action matches HostAction::Fail { message } && message@
                == text,
            HostActionModel::FailViewer(of, text) => action matches HostAction::FailViewer {
                peer,
                message,
            } && peer@ == of && message@ == text,
            HostActionModel::RequestRedraw => action is RequestRedraw,
            HostActionModel::ResetSampling => action is ResetSampling,
            HostActionModel::EmitGop(text) => action matches HostAction::EmitGop { payload }
                && payload@ == text,
            HostActionModel::EmitSession(text) => action matches HostAction::EmitSession { payload }
                && payload@ == text,
            HostActionModel::ForceKeyframe => action is ForceKeyframe,
            HostActionModel::AddViewer(of, called, known, picture) => action
                matches HostAction::AddViewer { peer, label, id, avatar_url } && peer@ == of
                && label@ == called && (id is Some) == (known is Some) && (id is Some ==> id->Some_0@
                == known->Some_0) && (avatar_url is Some) == (picture is Some) && (avatar_url
                is Some ==> avatar_url->Some_0@ == picture->Some_0),
            HostActionModel::RemoveViewer(of) => action matches HostAction::RemoveViewer { peer }
                && peer@ == of,
            HostActionModel::StartPipeline => action is StartPipeline,
            HostActionModel::InstallAnswer(of, text) => action matches HostAction::InstallAnswer {
                peer,
                sdp,
            } && peer@ == of && sdp@ == text,
            HostActionModel::AddCandidate(of, line, text) => action
                matches HostAction::AddCandidate { peer, mline, candidate } && peer@ == of && mline
                == line && candidate@ == text,
            HostActionModel::Print(text) => action matches HostAction::Print { line } && line@
                == text,
            HostActionModel::PrintError(text) => action matches HostAction::PrintError { line }
                && line@ == text,
        },
{
}

/// What is said of a session is what it holds: its rate, whether capture runs,
/// and each viewer by id and name.
pub proof fn session_is_what_is_said_of_it(session: HostSession)
    ensures
        session@.fps == session.fps,
        session@.started == session.started,
        session@.viewers.len() == session.viewers@.len(),
        forall|i: int|
            0 <= i < session.viewers@.len() ==> (#[trigger] session@.viewers[i]).peer
                == session.viewers@[i].peer@ && session@.viewers[i].label
                == session.viewers@[i].label@,
{
}

/// A viewer goes by this id.
pub open spec fn among(viewers: Seq<ViewerModel>, peer: Seq<char>) -> bool {
    exists|i: int| 0 <= i < viewers.len() && (#[trigger] viewers[i]).peer == peer
}

proof fn lemma_among(viewers: Seq<ViewerModel>, peer: Seq<char>)
    ensures
        host::watches(viewers, peer) == among(viewers, peer),
        host::place_of(viewers, peer) matches Some(i) ==> 0 <= i < viewers.len()
            && viewers[i].peer == peer,
    decreases viewers.len(),
{
    if viewers.len() > 0 {
        let rest = viewers.drop_last();
        lemma_among(rest, peer);
        assert(viewers[viewers.len() - 1] == viewers.last());
        if among(rest, peer) {
            let i = choose|i: int| 0 <= i < rest.len() && (#[trigger] rest[i]).peer == peer;
            assert(viewers[i] == rest[i]);
        }
        if among(viewers, peer) && viewers.last().peer != peer {
            let i = choose|i: int| 0 <= i < viewers.len() && (#[trigger] viewers[i]).peer == peer;
            assert(rest[i] == viewers[i]);
        }
    }
}

/// Every viewer is negotiated with, however many others watch: an answer of a
/// viewer is installed for that viewer and does nothing else.
pub proof fn every_answer_is_installed(host: HostModel, i: int, peer: String, kind: String, sdp: String)
    requires
        0 <= i < host.viewers.len(),
        host.viewers[i].peer == peer@,
        kind@ == "answer"@,
    ensures
        host::host_after(host, HostEvent::Signal(Signal::Sdp { peer, kind, sdp })).0 == host,
        host::host_after(host, HostEvent::Signal(Signal::Sdp { peer, kind, sdp })).1 == seq![
            HostActionModel::InstallAnswer(peer@, sdp@),
        ],
{
    lemma_among(host.viewers, peer@);
    let event = HostEvent::Signal(Signal::Sdp { peer, kind, sdp });
    assert(host::host_after(host, event).1 =~= seq![HostActionModel::InstallAnswer(peer@, sdp@)]);
}

/// Every candidate of a viewer reaches that viewer's connection, with its
/// media line, and does nothing else.
pub proof fn every_candidate_is_added(
    host: HostModel,
    i: int,
    peer: String,
    mline: u32,
    candidate: String,
)
    requires
        0 <= i < host.viewers.len(),
        host.viewers[i].peer == peer@,
    ensures
        host::host_after(host, HostEvent::Signal(Signal::Ice { peer, mline, candidate })).0 == host,
        host::host_after(host, HostEvent::Signal(Signal::Ice { peer, mline, candidate })).1
            == seq![HostActionModel::AddCandidate(peer@, mline, candidate@)],
{
    lemma_among(host.viewers, peer@);
    let event = HostEvent::Signal(Signal::Ice { peer, mline, candidate });
    assert(host::host_after(host, event).1 =~= seq![
        HostActionModel::AddCandidate(peer@, mline, candidate@),
    ]);
}

/// What comes from somebody who does not watch is dropped: a description, a
/// candidate or a farewell changes nothing and does nothing. Nor does a
/// description of a viewer that is no answer.
pub proof fn strangers_change_nothing(
    host: HostModel,
    peer: String,
    kind: String,
    sdp: String,
    mline: u32,
    candidate: String,
)
    ensures
        !among(host.viewers, peer@) || kind@ != "answer"@ ==> host::host_after(
            host,
            HostEvent::Signal(Signal::Sdp { peer, kind, sdp }),
        ) == (host, Seq::<HostActionModel>::empty()),
        !among(host.viewers, peer@) ==> host::host_after(
            host,
            HostEvent::Signal(Signal::Ice { peer, mline, candidate }),
        ) == (host, Seq::<HostActionModel>::empty()),
        !among(host.viewers, peer@) ==> host::host_after(
            host,
            HostEvent::Signal(Signal::ViewerLeft { peer }),
        ) == (host, Seq::<HostActionModel>::empty()),
{
    lemma_among(host.viewers, peer@);
    let none = Seq::<HostActionModel>::empty();
    assert(host::host_after(host, HostEvent::Signal(Signal::ViewerLeft { peer })).1 =~= none
        || among(host.viewers, peer@));
    assert(host::host_after(host, HostEvent::Signal(Signal::Ice { peer, mline, candidate })).1
        =~= none || among(host.viewers, peer@));
    assert(host::host_after(host, HostEvent::Signal(Signal::Sdp { peer, kind, sdp })).1 =~= none
        || (among(host.viewers, peer@) && kind@ == "answer"@));
}

/// A newcomer is added under its own id, with its own name or one made of the
/// id, and with the identity that the relay vouches for. The frame count starts
/// anew exactly where nobody watched before.
pub proof fn newcomer_is_added(
    host: HostModel,
    peer: String,
    name: Option<String>,
    id: Option<String>,
    avatar_url: Option<String>,
)
    requires
        !among(host.viewers, peer@),
    ensures
        ({
            let join = Signal::ViewerJoined { peer, name, id, avatar_url };
            let (next, actions) = host::host_after(host, HostEvent::Signal(join));
            let label = match name {
                Some(name) => name@,
                None => "viewer "@ + peer@,
            };
            &&& next == host
            &&& actions.len() > 0
            &&& actions.last() == HostActionModel::AddViewer(
                peer@,
                label,
                match id {
                    Some(id) => Some(id@),
                    None => None,
                },
                match avatar_url {
                    Some(url) => Some(url@),
                    None => None,
                },
            )
            &&& host.viewers.len() > 0 ==> actions.len() == 1
            &&& host.viewers.len() == 0 ==> actions.len() == 2 && actions[0]
                == HostActionModel::ResetSampling
        }),
{
    lemma_among(host.viewers, peer@);
}

/// A viewer that joins twice keeps its one branch: nothing is added or removed,
/// and the line that says so names the viewer.
pub proof fn second_join_is_refused(
    host: HostModel,
    i: int,
    peer: String,
    name: Option<String>,
    id: Option<String>,
    avatar_url: Option<String>,
)
    requires
        0 <= i < host.viewers.len(),
        host.viewers[i].peer == peer@,
    ensures
        ({
            let join = Signal::ViewerJoined { peer, name, id, avatar_url };
            let (next, actions) = host::host_after(host, HostEvent::Signal(join));
            &&& next == host
            &&& actions.len() == 1
            &&& actions[0] matches HostActionModel::PrintError(line) && text_ops::closes_with(
                line,
                peer@,
            )
        }),
{
    lemma_among(host.viewers, peer@);
    let line = "[host] ignoring duplicate join from viewer "@ + peer@;
    assert(line.skip(line.len() - peer@.len()) =~= peer@);
    let join = Signal::ViewerJoined { peer, name, id, avatar_url };
    assert(host::host_after(host, HostEvent::Signal(join)).1 =~= seq![
        HostActionModel::PrintError(line),
    ]);
}

/// A branch that was built makes its peer a viewer, behind those who were there
/// already and without touching them. The window is redrawn for it, capture
/// runs from then on, and the lines tell the viewer's name and how many watch.
pub proof fn built_branch_makes_a_viewer(
    host: HostModel,
    peer: String,
    label: String,
    id: Option<String>,
    avatar_url: Option<String>,
)
    ensures
        ({
            let (next, actions) = host::host_after(
                host,
                HostEvent::ViewerAdded { peer, label, id, avatar_url, problem: None },
            );
            let n = host.viewers.len() as int;
            let m = actions.len() as int;
            &&& next.viewers.len() == n + 1
            &&& next.viewers.take(n) == host.viewers
            &&& next.viewers[n] == (ViewerModel { peer: peer@, label: label@ })
            &&& next.started
            &&& next.fps == host.fps
            &&& m == if host.started {
                3int
            } else {
                4
            }
            &&& !host.started ==> actions[0] == HostActionModel::StartPipeline
            &&& actions[m - 3] == HostActionModel::RequestRedraw
            &&& actions[m - 2] matches HostActionModel::Print(line) && text_ops::mentions(
                line,
                label@ + " joined ("@ + text_ops::decimal((n + 1) as nat) + " watching)"@,
            )
            &&& actions[m - 1] matches HostActionModel::Print(line) && tells_viewer(
                line,
                "joined"@,
                peer@,
                label@,
            ) && text_ops::mentions(
                line,
                json::named("id"@, json::json_optional(json::optional_text(id))),
            ) && text_ops::mentions(
                line,
                json::named("avatar_url"@, json::json_optional(json::optional_text(avatar_url))),
            )
        }),
{
    let event = HostEvent::ViewerAdded { peer, label, id, avatar_url, problem: None };
    let (next, actions) = host::host_after(host, event);
    let n = host.viewers.len() as int;
    assert(next.viewers.take(n) =~= host.viewers);
    let tail = label@ + " joined ("@ + text_ops::decimal((n + 1) as nat) + " watching)"@;
    let line = host::joined_line(label@, n + 1);
    assert(line =~= "[host] "@ + tail);
    let at = line.len() - tail.len();
    assert(line.subrange(at, at + tail.len()) =~= tail);
    lemma_status_tells(
        "joined"@,
        peer@,
        label@,
        json::optional_text(id),
        json::optional_text(avatar_url),
    );
}

/// The status line names the event, the peer and the viewer's name, each under
/// its own key.
pub open spec fn tells_viewer(
    line: Seq<char>,
    event: Seq<char>,
    peer: Seq<char>,
    label: Seq<char>,
) -> bool {
    &&& text_ops::begins_with(line, "[host-status] {"@)
    &&& text_ops::mentions(line, json::named("event"@, json::json_string(event)))
    &&& text_ops::mentions(line, json::named("peer"@, json::json_string(peer)))
    &&& text_ops::mentions(line, json::named("label"@, json::json_string(label)))
}

proof fn lemma_status_tells(
    event: Seq<char>,
    peer: Seq<char>,
    label: Seq<char>,
    id: Option<Seq<char>>,
    avatar_url: Option<Seq<char>>,
)
    ensures
        ({
            let line = host::status_line(event, peer, label, id, avatar_url);
            &&& tells_viewer(line, event, peer, label)
            &&& text_ops::mentions(line, json::named("id"@, json::json_optional(id)))
            &&& text_ops::mentions(
                line,
                json::named("avatar_url"@, json::json_optional(avatar_url)),
            )
        }),
{
    reveal_strlit("avatar_url");
    reveal_strlit("event");
    reveal_strlit("id");
    reveal_strlit("label");
    reveal_strlit("peer");
    reveal_strlit("[host-status] ");
    reveal_strlit("[host-status] {");
    let members = seq![
        ("avatar_url"@, json::json_optional(avatar_url)),
        ("event"@, json::json_string(event)),
        ("id"@, json::json_optional(id)),
        ("label"@, json::json_string(label)),
        ("peer"@, json::json_string(peer)),
    ];
    let line = host::status_line(event, peer, label, id, avatar_url);
    let object = json::json_object(members);
    let none = Seq::<char>::empty();
    assert(line =~= "[host-status] "@ + object + none);
    assert forall|i: int| 0 <= i < 5 implies text_ops::mentions(
        line,
        json::named(#[trigger] members[i].0, members[i].1),
    ) by {
        json::object_tells_its_members(members, i);
        text_ops::part_is_mentioned(
            "[host-status] "@,
            object,
            none,
            json::named(members[i].0, members[i].1),
        );
    }
    assert(members[0].0 == "avatar_url"@);
    assert(members[1].0 == "event"@);
    assert(members[2].0 == "id"@);
    assert(members[3].0 == "label"@);
    assert(members[4].0 == "peer"@);
    assert(object[0] == '{');
    assert(line.take(15) =~= "[host-status] {"@);
}

/// A branch that could not be built leaves the host as it was, and costs one
/// line that names the viewer and the problem.
pub proof fn failed_branch_changes_nothing(
    host: HostModel,
    peer: String,
    label: String,
    id: Option<String>,
    avatar_url: Option<String>,
    problem: String,
)
    ensures
        ({
            let (next, actions) = host::host_after(
                host,
                HostEvent::ViewerAdded { peer, label, id, avatar_url, problem: Some(problem) },
            );
            &&& next == host
            &&& actions.len() == 1
            &&& actions[0] matches HostActionModel::PrintError(line) && text_ops::closes_with(
                line,
                peer@ + ": "@ + problem@,
            )
        }),
{
    let line = "[host] could not add viewer "@ + peer@ + ": "@ + problem@;
    let tail = peer@ + ": "@ + problem@;
    assert(line.skip(line.len() - tail.len()) =~= tail);
}

/// A viewer that leaves, or whose connection failed, is taken out and nobody
/// else: the others stay in their order. Its branch is removed before anything
/// is said, and the lines tell its name and how many remain.
pub proof fn leaver_goes_alone(host: HostModel, i: int, peer: String, error: String)
    requires
        host::distinct(host.viewers),
        0 <= i < host.viewers.len(),
        host.viewers[i].peer == peer@,
    ensures
        ({
            let left = host::host_after(host, HostEvent::Signal(Signal::ViewerLeft { peer }));
            let failed = host::host_after(host, HostEvent::ViewerFailed { peer, error });
            let label = host.viewers[i].label;
            let n = host.viewers.len() as int;
            let remaining = label + " left ("@ + text_ops::decimal((n - 1) as nat)
                + " remaining)"@;
            &&& left.0.viewers == host.viewers.take(i) + host.viewers.skip(i + 1)
            &&& left.0.started == host.started
            &&& left.0.fps == host.fps
            &&& failed.0 == left.0
            &&& left.1.len() == 3
            &&& left.1[0] == HostActionModel::RemoveViewer(peer@)
            &&& left.1[1] matches HostActionModel::Print(line) && text_ops::closes_with(
                line,
                remaining,
            )
            &&& left.1[2] matches HostActionModel::Print(line) && tells_viewer(
                line,
                "left"@,
                peer@,
                label,
            )
            &&& failed.1.len() == 4
            &&& failed.1[0] == left.1[0]
            &&& failed.1[1] == left.1[2]
            &&& failed.1[2] == left.1[1]
            &&& failed.1[3] matches HostActionModel::PrintError(line) && text_ops::closes_with(
                line,
                "viewer "@ + peer@ + " negotiation failed: "@ + error@,
            )
        }),
{
    host::one_branch_per_peer(host.viewers, peer@, i);
    let label = host.viewers[i].label;
    let n = host.viewers.len() as int;
    let leave = HostEvent::Signal(Signal::ViewerLeft { peer });
    let left = host::host_after(host, leave);
    let failed = host::host_after(host, HostEvent::ViewerFailed { peer, error });
    assert(left.0.viewers =~= host.viewers.take(i) + host.viewers.skip(i + 1));
    let remaining = label + " left ("@ + text_ops::decimal((n - 1) as nat) + " remaining)"@;
    let line = host::left_line(label, n - 1);
    assert(line =~= "[host] "@ + remaining);
    assert(line.skip(line.len() - remaining.len()) =~= remaining);
    lemma_status_tells("left"@, peer@, label, None, None);
    assert(left.1 =~= seq![
        HostActionModel::RemoveViewer(peer@),
        HostActionModel::Print(line),
        HostActionModel::Print(host::left_status(peer@, label)),
    ]);
    let told = "viewer "@ + peer@ + " negotiation failed: "@ + error@;
    reveal_strlit("[host] viewer ");
    reveal_strlit("[host] ");
    reveal_strlit("viewer ");
    assert("[host] viewer "@ =~= "[host] "@ + "viewer "@);
    let failure = host::failed_line(peer@, error@);
    assert(failure =~= "[host] "@ + told);
    assert(failure.skip(failure.len() - told.len()) =~= told);
}

/// The failure of somebody who is gone is told and changes nothing.
pub proof fn failure_of_a_stranger_is_told(host: HostModel, peer: String, error: String)
    requires
        !among(host.viewers, peer@),
    ensures
        ({
            let (next, actions) = host::host_after(host, HostEvent::ViewerFailed { peer, error });
            &&& next == host
            &&& actions.len() == 1
            &&& actions[0] matches HostActionModel::PrintError(line) && text_ops::closes_with(
                line,
                peer@ + " negotiation failed: "@ + error@,
            )
        }),
{
    lemma_among(host.viewers, peer@);
    let line = host::failed_line(peer@, error@);
    let told = peer@ + " negotiation failed: "@ + error@;
    assert(line.skip(line.len() - told.len()) =~= told);
}

/// A viewer that was added is served, and one that left is not: the answer that
/// follows is installed in the first case, and dropped in the second.
pub proof fn answers_follow_the_viewers(
    host: HostModel,
    peer: String,
    label: String,
    kind: String,
    sdp: String,
)
    requires
        host::distinct(host.viewers),
        !among(host.viewers, peer@),
        kind@ == "answer"@,
    ensures
        ({
            let added = host::host_after(
                host,
                HostEvent::ViewerAdded {
                    peer,
                    label,
                    id: None,
                    avatar_url: None,
                    problem: None,
                },
            ).0;
            let left = host::host_after(added, HostEvent::Signal(Signal::ViewerLeft { peer })).0;
            let answer = HostEvent::Signal(Signal::Sdp { peer, kind, sdp });
            &&& host::host_after(added, answer).1 == seq![
                HostActionModel::InstallAnswer(peer@, sdp@),
            ]
            &&& left.viewers == host.viewers
            &&& host::host_after(left, answer).1.len() == 0
        }),
{
    let added = host::host_after(
        host,
        HostEvent::ViewerAdded { peer, label, id: None, avatar_url: None, problem: None },
    ).0;
    let n = host.viewers.len() as int;
    assert(added.viewers[n].peer == peer@);
    every_answer_is_installed(added, n, peer, kind, sdp);
    assert forall|i: int, j: int| 0 <= i < j < added.viewers.len() implies (
    #[trigger] added.viewers[i]).peer != (#[trigger] added.viewers[j]).peer by {
        assert(added.viewers[i] == host.viewers[i]);
        if j < n {
            assert(added.viewers[j] == host.viewers[j]);
        }
    }
    leaver_goes_alone(added, n, peer, peer);
    let left = host::host_after(added, HostEvent::Signal(Signal::ViewerLeft { peer })).0;
    assert(left.viewers =~= host.viewers);
    strangers_change_nothing(left, peer, kind, sdp, 0, sdp);
}

/// A window that stays silent is redrawn after a tenth of a second, as long as
/// somebody watches, and never otherwise.
pub proof fn silent_window_is_redrawn(host: HostModel, silence_ms: u64)
    ensures
        ({
            let (next, actions) = host::host_after(host, HostEvent::IdleRedraw { silence_ms });
            &&& next == host
            &&& silence_ms >= 100 && host.viewers.len() > 0 ==> actions == seq![
                HostActionModel::RequestRedraw,
            ]
            &&& silence_ms < 100 || host.viewers.len() == 0 ==> actions.len() == 0
        }),
{
}

/// As long as somebody watches, each interval brings one keyframe. What was
/// measured is told before it, exactly where there were frames and time.
pub proof fn keyframes_keep_coming(
    host: HostModel,
    frames: u64,
    elapsed_ns: u128,
    measured_fps: u32,
)
    requires
        host.viewers.len() > 0,
    ensures
        ({
            let (next, actions) = host::host_after(
                host,
                HostEvent::RecoveryKeyframe { frames, elapsed_ns, measured_fps },
            );
            &&& next == host
            &&& actions.len() > 0
            &&& actions.last() == HostActionModel::ForceKeyframe
            &&& frames == 0 || elapsed_ns == 0 ==> actions.len() == 1
            &&& frames > 0 && elapsed_ns > 0 ==> actions.len() == 2 && (
            actions[0] matches HostActionModel::EmitGop(payload) && text_ops::mentions(
                payload,
                json::named("sampled_frames"@, text_ops::decimal(frames as nat)),
            ) && text_ops::mentions(
                payload,
                json::named("sampled_ms"@, text_ops::decimal((elapsed_ns / 1_000_000) as nat)),
            ) && text_ops::mentions(
                payload,
                json::named(
                    "measured_gop_size"@,
                    text_ops::decimal(
                        host::recovery_gop(frames, elapsed_ns, measured_fps, host.fps)->Some_0 as nat,
                    ),
                ),
            ) && text_ops::mentions(
                payload,
                json::named(
                    "active_gop_size"@,
                    text_ops::decimal(host::initial_gop(host.fps) as nat),
                ),
            ))
        }),
{
    if frames > 0 && elapsed_ns > 0 {
        let measured = host::recovery_gop(frames, elapsed_ns, measured_fps, host.fps).unwrap();
        let active = host::initial_gop(host.fps);
        let members = seq![
            ("active_gop_size"@, text_ops::decimal(active as nat)),
            ("measured_gop_size"@, text_ops::decimal(measured as nat)),
            ("sampled_frames"@, text_ops::decimal(frames as nat)),
            ("sampled_ms"@, text_ops::decimal((elapsed_ns / 1_000_000) as nat)),
        ];
        reveal_strlit("active_gop_size");
        reveal_strlit("sampled_frames");
        reveal_strlit("sampled_ms");
        reveal_strlit("measured_gop_size");
        json::object_tells_its_members(members, 0);
        json::object_tells_its_members(members, 1);
        json::object_tells_its_members(members, 2);
        json::object_tells_its_members(members, 3);
    }
}

/// A keyframe distance is two seconds of frames: of the measured rate where
/// that lies between one frame a second and the configured rate, and never
/// less than two frames.
pub proof fn keyframe_distance_is_two_seconds(
    frames: u64,
    elapsed_ns: u128,
    measured_fps: u32,
    configured_fps: u32,
)
    requires
        frames > 0,
        elapsed_ns > 0,
        configured_fps <= 1_000_000,
    ensures
        host::recovery_gop(frames, elapsed_ns, measured_fps, configured_fps) is Some,
        ({
            let gop = host::recovery_gop(frames, elapsed_ns, measured_fps, configured_fps).unwrap();
            &&& gop % 2 == 0
            &&& gop >= 2
            &&& gop <= 2 * configured_fps || gop == 2
            &&& 1 <= measured_fps <= configured_fps ==> gop == 2 * measured_fps
            &&& measured_fps > configured_fps >= 1 ==> gop == 2 * configured_fps
        }),
        1 <= configured_fps <= 60 ==> host::initial_gop(configured_fps) == 2 * configured_fps,
        configured_fps >= 60 ==> host::initial_gop(configured_fps) == 120,
        host::initial_gop(0) == 2,
{
}

/// An error of the pipeline whose source names one viewer's connection, and no
/// other's, is that viewer's and carries its own words.
pub proof fn viewer_answers_for_its_own_errors(
    host: HostModel,
    i: int,
    source: String,
    message: String,
)
    requires
        0 <= i < host.viewers.len(),
        text_ops::mentions(source@, "viewer-"@ + host.viewers[i].peer),
        forall|j: int|
            0 <= j < host.viewers.len() && j != i ==> !text_ops::mentions(
                source@,
                "viewer-"@ + (#[trigger] host.viewers[j]).peer,
            ),
    ensures
        host::host_after(host, HostEvent::BusError { source, message }) == (
            host,
            seq![HostActionModel::FailViewer(host.viewers[i].peer, message@)],
        ),
{
    lemma_blames(host.viewers, source@, i);
}

proof fn lemma_blames(viewers: Seq<ViewerModel>, source: Seq<char>, i: int)
    requires
        0 <= i < viewers.len(),
        text_ops::mentions(source, "viewer-"@ + viewers[i].peer),
        forall|j: int|
            0 <= j < viewers.len() && j != i ==> !text_ops::mentions(
                source,
                "viewer-"@ + (#[trigger] viewers[j]).peer,
            ),
    ensures
        host::blamed(viewers, source) == Some(i),
    decreases viewers.len(),
{
    let last = viewers.len() - 1;
    assert(viewers[last] == viewers.last());
    if i < last {
        let rest = viewers.drop_last();
        assert(rest[i] == viewers[i]);
        assert forall|j: int| 0 <= j < rest.len() && j != i implies !text_ops::mentions(
            source,
            "viewer-"@ + (#[trigger] rest[j]).peer,
        ) by {
            assert(rest[j] == viewers[j]);
        }
        lemma_blames(rest, source, i);
    }
}

/// A session ends in order exactly when the relay is gone, and in failure
/// exactly when an error names no viewer. Nothing else ends it.
pub proof fn only_two_things_end_a_session(host: HostModel, event: HostEvent)
    ensures
        ({
            let actions = host::host_after(host, event).1;
            &&& actions.contains(HostActionModel::End) <==> event is SignallingClosed
            &&& event is SignallingClosed ==> actions.len() == 1
            &&& forall|i: int| 0 <= i < actions.len() && #[trigger] actions[i] is Fail ==> event
                is BusError
        }),
{
    let actions = host::host_after(host, event).1;
    if event is SignallingClosed {
        assert(actions[0] == HostActionModel::End);
    }
}

/// The frame rate of a session never changes, and neither do its viewers but
/// by a viewer that was added, left or failed.
pub proof fn only_viewers_change_the_session(host: HostModel, event: HostEvent)
    ensures
        host::host_after(host, event).0.fps == host.fps,
        !(event is ViewerAdded) && !(event is ViewerFailed) && !(event matches HostEvent::Signal(
            Signal::ViewerLeft { .. },
        )) ==> host::host_after(host, event).0 == host,
{
}

/// The code of a room is shown twice, the second time in the command that
/// joins it; the room's session is recorded first, where the relay names one.
pub proof fn code_is_shown(host: HostModel, code: String, diagnostic_session: Option<String>)
    ensures
        ({
            let hosting = Signal::Hosting { code, diagnostic_session };
            let (next, actions) = host::host_after(host, HostEvent::Signal(hosting));
            let n = actions.len() as int;
            &&& next == host
            &&& n == if diagnostic_session is Some {
                3int
            } else {
                2
            }
            &&& actions[n - 2] matches HostActionModel::Print(line) && text_ops::mentions(
                line,
                "Share this code:  "@ + code@,
            )
            &&& actions[n - 1] matches HostActionModel::Print(line) && text_ops::mentions(
                line,
                "orange watch --code "@ + code@,
            )
            &&& diagnostic_session matches Some(id) ==> (
            actions[0] matches HostActionModel::EmitSession(payload) && text_ops::mentions(
                payload,
                json::named("id"@, json::json_string(id@)),
            ))
        }),
{
    reveal_strlit("\n  Share this code:  ");
    reveal_strlit("Share this code:  ");
    reveal_strlit("  Viewers run:  orange watch --code ");
    reveal_strlit("orange watch --code ");
    reveal_strlit("\n");
    let first = "\n  Share this code:  "@ + code@ + "\n"@;
    let share = "Share this code:  "@ + code@;
    assert(first.subrange(3, 3int + share.len()) =~= share);
    let second = "  Viewers run:  orange watch --code "@ + code@ + "\n"@;
    let command = "orange watch --code "@ + code@;
    assert(second.subrange(16, 16int + command.len()) =~= command);
    if let Some(id) = diagnostic_session {
        reveal_strlit("id");
        json::object_tells_its_members(seq![("id"@, json::json_string(id@))], 0);
    }
}

/// What the relay says about an account is printed, what it complains about
/// goes to the error stream, each with its own words and nothing else done.
pub proof fn relay_is_quoted(host: HostModel, name: String, message: String)
    ensures
        ({
            let (next, actions) = host::host_after(
                host,
                HostEvent::Signal(Signal::Authenticated { name }),
            );
            &&& next == host
            &&& actions.len() == 1
            &&& actions[0] matches HostActionModel::Print(line) && text_ops::closes_with(
                line,
                name@,
            )
        }),
        ({
            let (next, actions) = host::host_after(
                host,
                HostEvent::Signal(Signal::Error { message }),
            );
            &&& next == host
            &&& actions.len() == 1
            &&& actions[0] matches HostActionModel::PrintError(line) && text_ops::closes_with(
                line,
                message@,
            )
        }),
{
    let first = "[host] signed in as "@ + name@;
    assert(first.skip(first.len() - name@.len()) =~= name@);
    let second = "[host] server: "@ + message@;
    assert(second.skip(second.len() - message@.len()) =~= message@);
    assert(host::host_after(host, HostEvent::Signal(Signal::Authenticated { name })).1 =~= seq![
        HostActionModel::Print(first),
    ]);
    assert(host::host_after(host, HostEvent::Signal(Signal::Error { message })).1 =~= seq![
        HostActionModel::PrintError(second),
    ]);
}

/// A part of a sound capture that fails is taken back whole: whatever step
/// fails, the elements that were added are removed again one by one, and the
/// capture is ready only after three were added and linked.
pub proof fn sound_capture_is_whole_or_gone(oks: Seq<bool>)
    ensures
        ({
            let tee = tee_after(oks);
            &&& tee is Ready ==> oks.len() >= 4 && forall|i: int| 0 <= i < 4 ==> #[trigger] oks[i]
            &&& oks.len() >= 4 && (forall|i: int| 0 <= i < 4 ==> #[trigger] oks[i]) ==> tee is Ready
            &&& oks.len() >= 7 ==> tee is Ready || tee is Failed
        }),
{
    lemma_tee(oks);
}

/// How far a sound capture is after these results, one step each.
pub open spec fn tee_after(oks: Seq<bool>) -> host::AudioTee
    decreases oks.len(),
{
    if oks.len() == 0 {
        host::AudioTee::Adding { added: 0 }
    } else {
        host::audio_tee_after(tee_after(oks.drop_last()), oks.last())
    }
}

proof fn lemma_tee(oks: Seq<bool>)
    ensures
        ({
            let tee = tee_after(oks);
            let n = oks.len() as int;
            let fine = forall|i: int| 0 <= i < 4 && i < n ==> #[trigger] oks[i];
            &&& fine && n <= 2 ==> tee == (host::AudioTee::Adding { added: n as u8 })
            &&& fine && n == 3 ==> tee is Linking
            &&& fine && n >= 4 ==> tee is Ready
            &&& !fine ==> tee is Failed || (tee matches host::AudioTee::Removing { left } && 1
                <= left && left + n <= 7)
        }),
    decreases oks.len(),
{
    let n = oks.len() as int;
    if n > 0 {
        let rest = oks.drop_last();
        lemma_tee(rest);
        let before = forall|i: int| 0 <= i < 4 && i < n - 1 ==> #[trigger] rest[i];
        let fine = forall|i: int| 0 <= i < 4 && i < n ==> #[trigger] oks[i];
        assert(oks[n - 1] == oks.last());
        if fine {
            assert forall|i: int| 0 <= i < 4 && i < n - 1 implies #[trigger] rest[i] by {
                assert(oks[i]);
            }
        } else if before {
            let i = choose|i: int| 0 <= i < 4 && i < n && !#[trigger] oks[i];
            if i < n - 1 {
                assert(rest[i] == oks[i]);
            }
        } else {
            let i = choose|i: int| 0 <= i < 4 && i < n - 1 && !#[trigger] rest[i];
            assert(oks[i] == rest[i]);
        }
    }
}

} // verus!
