//! What a viewer's session does with what the relay delivers.

use vstd::prelude::*;
use vstd::string::*;

use super::watch::{self, WatchAction, WatchActionModel, WatchEvent};
use super::Signal;
use crate::json;
use crate::text_ops;

verus! {

/// What is said of an action is what it does.
pub proof fn actions_are_what_is_said_of_them(action: WatchAction)
    ensures
        match watch::watch_action_model(action) {
            WatchActionModel::End => action is End,
            WatchActionModel::Fail(text) => action matches WatchAction::Fail { message } && message@
                == text,
            WatchActionModel::EmitSession(text) => action matches WatchAction::EmitSession {
                payload,
            } && payload@ == text,
            WatchActionModel::InstallOffer(text) => action matches WatchAction::InstallOffer { sdp }
                && sdp@ == text,
            WatchActionModel::AddCandidate(line, text) => action matches WatchAction::AddCandidate {
                mline,
                candidate,
            } && mline == line && candidate@ == text,
            WatchActionModel::ShowHost(called) => action matches WatchAction::ShowHost { name } && (
            name is Some) == (called is Some) && (name is Some ==> name->Some_0@
                == called->Some_0),
            WatchActionModel::Print(text) => action matches WatchAction::Print { line } && line@
                == text,
        },
{
}

/// Every candidate that the relay delivers is added with its media line, in
/// the room or on the way into it, and does nothing else.
pub proof fn every_candidate_is_added(joined: bool, peer: String, mline: u32, candidate: String)
    ensures
        watch::watch_after(joined, WatchEvent::Signal(Signal::Ice { peer, mline, candidate })) == (
            joined,
            seq![WatchActionModel::AddCandidate(mline, candidate@)],
        ),
{
    let event = WatchEvent::Signal(Signal::Ice { peer, mline, candidate });
    assert(watch::watch_after(joined, event).1 =~= seq![
        WatchActionModel::AddCandidate(mline, candidate@),
    ]);
}

/// Every offer is installed word for word; a description that is no offer is
/// dropped.
pub proof fn every_offer_is_installed(joined: bool, peer: String, kind: String, sdp: String)
    ensures
        ({
            let (next, actions) = watch::watch_after(
                joined,
                WatchEvent::Signal(Signal::Sdp { peer, kind, sdp }),
            );
            &&& next == joined
            &&& kind@ == "offer"@ ==> actions == seq![WatchActionModel::InstallOffer(sdp@)]
            &&& kind@ != "offer"@ ==> actions.len() == 0
        }),
{
    let event = WatchEvent::Signal(Signal::Sdp { peer, kind, sdp });
    if kind@ == "offer"@ {
        assert(watch::watch_after(joined, event).1 =~= seq![WatchActionModel::InstallOffer(sdp@)]);
    }
}

/// The description of a stream puts the viewer into the room and shows who
/// hosts; a host that is known by name is printed, and the session is recorded
/// first where the relay names one.
pub proof fn stream_is_introduced(
    joined: bool,
    host_name: Option<String>,
    diagnostic_session: Option<String>,
)
    ensures
        ({
            let info = Signal::StreamInfo { host_name, diagnostic_session };
            let (next, actions) = watch::watch_after(joined, WatchEvent::Signal(info));
            let first = if diagnostic_session is Some {
                1int
            } else {
                0
            };
            &&& next
            &&& diagnostic_session matches Some(id) ==> (
            actions[0] matches WatchActionModel::EmitSession(payload) && text_ops::mentions(
                payload,
                json::named("id"@, json::json_string(id@)),
            ))
            &&& host_name matches Some(name) ==> {
                &&& actions.len() == first + 2
                &&& actions[first] == WatchActionModel::ShowHost(Some(name@))
                &&& actions[first + 1] matches WatchActionModel::Print(line)
                    && text_ops::closes_with(line, name@ + "'s stream"@)
            }
            &&& host_name is None ==> {
                &&& actions.len() == first + 1
                &&& actions[first] == WatchActionModel::ShowHost(None)
            }
        }),
{
    if let Some(id) = diagnostic_session {
        reveal_strlit("id");
        json::object_tells_its_members(seq![("id"@, json::json_string(id@))], 0);
    }
    if let Some(name) = host_name {
        let line = "[watch] "@ + name@ + "'s stream"@;
        let tail = name@ + "'s stream"@;
        assert(line.skip(line.len() - tail.len()) =~= tail);
    }
}

/// Only the description of a stream changes whether a viewer is in the room.
pub proof fn only_a_stream_lets_in(joined: bool, event: WatchEvent)
    ensures
        watch::watch_after(joined, event).0 != joined ==> !joined && (
        event matches WatchEvent::Signal(Signal::StreamInfo { .. })),
{
}

/// A session goes on while the window is open and the relay is there: it ends
/// without a failure exactly where the window was closed, the relay is gone or
/// the room that was joined closed, and it fails exactly where an error comes
/// with the window not closed, or the relay refuses somebody who is not in.
pub proof fn how_a_session_ends(joined: bool, event: WatchEvent)
    ensures
        ({
            let actions = watch::watch_after(joined, event).1;
            &&& actions.contains(WatchActionModel::End) <==> match event {
                WatchEvent::SessionError { playback_alive, .. } => playback_alive == Some(false),
                WatchEvent::Waited { playback_alive } => playback_alive == Some(false),
                WatchEvent::Signal(signal) => signal is Error && joined,
                WatchEvent::SignallingClosed => true,
            }
            &&& (exists|i: int| 0 <= i < actions.len() && #[trigger] actions[i] is Fail) <==>
                match event {
                WatchEvent::SessionError { playback_alive, .. } => playback_alive != Some(false),
                WatchEvent::Signal(signal) => signal is Error && !joined,
                _ => false,
            }
        }),
{
    let actions = watch::watch_after(joined, event).1;
    match event {
        WatchEvent::SessionError { message, playback_alive } => {
            if playback_alive == Some(false) {
                assert(actions[0] == WatchActionModel::End);
            } else {
                assert(actions[0] == WatchActionModel::Fail(message@));
            }
        },
        WatchEvent::Waited { playback_alive } => {
            if playback_alive == Some(false) {
                assert(actions[0] == WatchActionModel::End);
            }
        },
        WatchEvent::Signal(signal) => {
            if let Signal::Error { message } = signal {
                if joined {
                    assert(actions[1] == WatchActionModel::End);
                } else {
                    assert(actions[0] == WatchActionModel::Fail(message@));
                }
            }
        },
        WatchEvent::SignallingClosed => {
            assert(actions[0] == WatchActionModel::End);
        },
    }
}

/// A failure carries the words of what went wrong.
pub proof fn failures_are_quoted(joined: bool, message: String, playback_alive: Option<bool>)
    requires
        playback_alive != Some(false),
    ensures
        watch::watch_after(joined, WatchEvent::SessionError { message, playback_alive }).1 == seq![
            WatchActionModel::Fail(message@),
        ],
        !joined ==> watch::watch_after(
            joined,
            WatchEvent::Signal(Signal::Error { message }),
        ).1 == seq![WatchActionModel::Fail(message@)],
{
    assert(watch::watch_after(false, WatchEvent::Signal(Signal::Error { message })).1 =~= seq![
        WatchActionModel::Fail(message@),
    ]);
}

/// The stream of a room that closes is told apart from a window that was
/// closed by a line of its own, which comes before the end.
pub proof fn end_of_a_stream_is_announced(message: String)
    ensures
        watch::watch_after(true, WatchEvent::Signal(Signal::Error { message })).1 == seq![
            WatchActionModel::Print("[watch-status] ended"@),
            WatchActionModel::End,
        ],
{
    assert(watch::watch_after(true, WatchEvent::Signal(Signal::Error { message })).1 =~= seq![
        WatchActionModel::Print("[watch-status] ended"@),
        WatchActionModel::End,
    ]);
}

/// Nothing happens while there is nothing to do, and an account is greeted by
/// its name.
pub proof fn waiting_does_nothing(joined: bool, playback_alive: Option<bool>, name: String)
    ensures
        playback_alive != Some(false) ==> watch::watch_after(
            joined,
            WatchEvent::Waited { playback_alive },
        ) == (joined, Seq::<WatchActionModel>::empty()),
        ({
            let (next, actions) = watch::watch_after(
                joined,
                WatchEvent::Signal(Signal::Authenticated { name }),
            );
            &&& next == joined
            &&& actions.len() == 1
            &&& actions[0] matches WatchActionModel::Print(line) && text_ops::closes_with(
                line,
                name@,
            )
        }),
{
    let line = "[watch] signed in as "@ + name@;
    assert(line.skip(line.len() - name@.len()) =~= name@);
    assert(watch::watch_after(
        joined,
        WatchEvent::Signal(Signal::Authenticated { name }),
    ).1 =~= seq![WatchActionModel::Print(line)]);
}

} // verus!
