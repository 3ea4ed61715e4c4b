//! A viewer's branch: how it is taken off the shared encoder, started, and
//! taken down again.

use vstd::prelude::*;
use vstd::string::*;

use crate::pipeline::{Property, PropertyValue};
use crate::text_ops::{self, decimal_string};

verus! {

pub const VIDEO_BRANCH_MAX_BUFFERS: u32 = 200;

pub const AUDIO_BRANCH_MAX_PACKETS: u32 = 10;

/// Keyframes are not asked for more often than this.
pub const KEYFRAME_SPACING_NS: u64 = 200_000_000;

/// How long the startup worker waits before each further keyframe.
pub open spec fn startup_delays() -> Seq<u64> {
    seq![250, 500, 750]
}

pub fn startup_delay_ms(index: usize) -> (delay: u64)
    requires
        index < 3,
    ensures
        delay == startup_delays()[index as int],
{
    if index == 0 {
        250
    } else if index == 1 {
        500
    } else {
        750
    }
}

/// The startup keyframes of a branch are asked for once, however often its
/// connection is reported.
#[derive(Debug, Clone, Copy, PartialEq, Eq, Structural)]
pub struct StartupKeyframeTrigger {
    pub requested: bool,
}

/// Whether the worker is told, and the trigger after it was asked to.
pub open spec fn triggered(trigger: StartupKeyframeTrigger) -> (bool, StartupKeyframeTrigger) {
    (!trigger.requested, StartupKeyframeTrigger { requested: true })
}

impl StartupKeyframeTrigger {
    /// Returns whether the worker is told.
    pub fn request(&mut self) -> (send: bool)
        ensures
            send == !old(self).requested,
            final(self).requested,
            (send, *final(self)) == triggered(*old(self)),
    {
        let send = !self.requested;
        self.requested = true;
        send
    }
}

/// What the worker of the startup keyframes does.
#[derive(Debug, Clone, Copy, PartialEq, Eq, Structural)]
pub enum StartupKeyframes {
    /// Waits for a command.
    Idle,
    /// Asks for a keyframe; so many were asked for since the command.
    Requesting { sent: u8 },
    /// Waits for the delay of this number to pass.
    Waiting { delay: u8 },
    Stopped,
}

/// What it meets.
#[derive(Debug, Clone, Copy, PartialEq, Eq, Structural)]
pub enum StartupEvent {
    /// Told to ask for keyframes.
    Request,
    /// Told to stop, or nobody is left who could tell it.
    Stop,
    /// The delay passed.
    TimedOut,
    /// The keyframe was asked for, or could not be.
    Requested(bool),
}

pub open spec fn startup_after(worker: StartupKeyframes, event: StartupEvent) -> StartupKeyframes {
    match (worker, event) {
        (StartupKeyframes::Stopped, _) => StartupKeyframes::Stopped,
        (StartupKeyframes::Idle, StartupEvent::Request) => StartupKeyframes::Requesting { sent: 0 },
        (StartupKeyframes::Idle, StartupEvent::Stop) => StartupKeyframes::Stopped,
        (StartupKeyframes::Requesting { sent }, StartupEvent::Requested(true)) => if sent < 3 {
            StartupKeyframes::Waiting { delay: sent }
        } else {
            StartupKeyframes::Idle
        },
        (
            StartupKeyframes::Requesting { .. },
            StartupEvent::Requested(false),
        ) => StartupKeyframes::Idle,
        (StartupKeyframes::Waiting { .. }, StartupEvent::Stop) => StartupKeyframes::Stopped,
        (StartupKeyframes::Waiting { delay }, StartupEvent::Request) => if delay < 2 {
            StartupKeyframes::Waiting { delay: (delay + 1) as u8 }
        } else {
            StartupKeyframes::Idle
        },
        (StartupKeyframes::Waiting { delay }, StartupEvent::TimedOut) => if delay < 3 {
            StartupKeyframes::Requesting { sent: (delay + 1) as u8 }
        } else {
            StartupKeyframes::Idle
        },
        _ => worker,
    }
}

impl StartupKeyframes {
    /// One step of the worker: a keyframe at once, then one after each of the
    /// three delays. A stop takes effect in the middle of a delay.
    pub fn step(self, event: StartupEvent) -> (next: StartupKeyframes)
        ensures
            next == startup_after(self, event),
    {
        match (self, event) {
            (StartupKeyframes::Stopped, _) => StartupKeyframes::Stopped,
            (StartupKeyframes::Idle, StartupEvent::Request) => StartupKeyframes::Requesting {
                sent: 0,
            },
            (StartupKeyframes::Idle, StartupEvent::Stop) => StartupKeyframes::Stopped,
            (StartupKeyframes::Requesting { sent }, StartupEvent::Requested(true)) => if sent < 3 {
                StartupKeyframes::Waiting { delay: sent }
            } else {
                StartupKeyframes::Idle
            },
            (
                StartupKeyframes::Requesting { .. },
                StartupEvent::Requested(false),
            ) => StartupKeyframes::Idle,
            (StartupKeyframes::Waiting { .. }, StartupEvent::Stop) => StartupKeyframes::Stopped,
            (StartupKeyframes::Waiting { delay }, StartupEvent::Request) => if delay < 2 {
                StartupKeyframes::Waiting { delay: delay + 1 }
            } else {
                StartupKeyframes::Idle
            },
            (StartupKeyframes::Waiting { delay }, StartupEvent::TimedOut) => if delay < 3 {
                StartupKeyframes::Requesting { sent: delay + 1 }
            } else {
                StartupKeyframes::Idle
            },
            _ => self,
        }
    }
}

/// The worker after these events.
pub open spec fn startup_run(events: Seq<StartupEvent>) -> StartupKeyframes
    decreases events.len(),
{
    if events.len() == 0 {
        StartupKeyframes::Idle
    } else {
        startup_after(startup_run(events.drop_last()), events.last())
    }
}

/// How many commands to ask for keyframes there were.
pub open spec fn commands_in(events: Seq<StartupEvent>) -> int
    decreases events.len(),
{
    if events.len() == 0 {
        0
    } else {
        commands_in(events.drop_last()) + if events.last() is Request {
            1int
        } else {
            0
        }
    }
}

/// How many keyframes were asked for, with or without success.
pub open spec fn asked_in(events: Seq<StartupEvent>) -> int
    decreases events.len(),
{
    if events.len() == 0 {
        0
    } else {
        asked_in(events.drop_last()) + if events.last() is Requested && startup_run(
            events.drop_last(),
        ) is Requesting {
            1int
        } else {
            0
        }
    }
}

/// How many more keyframes the command that is worked on can give.
pub open spec fn still_to_ask(worker: StartupKeyframes) -> int {
    match worker {
        StartupKeyframes::Idle => 0,
        StartupKeyframes::Requesting { sent } => 4 - sent,
        StartupKeyframes::Waiting { delay } => 3 - delay,
        StartupKeyframes::Stopped => 0,
    }
}

/// A command gives at most four keyframes.
pub proof fn a_command_gives_four_keyframes(events: Seq<StartupEvent>)
    ensures
        asked_in(events) + still_to_ask(startup_run(events)) <= 4 * commands_in(events),
        startup_run(events) matches StartupKeyframes::Requesting { sent } ==> sent <= 3,
        startup_run(events) matches StartupKeyframes::Waiting { delay } ==> delay <= 2,
    decreases events.len(),
{
    if events.len() > 0 {
        a_command_gives_four_keyframes(events.drop_last());
    }
}

/// A worker that was stopped asks for nothing any more.
pub proof fn stopped_worker_stays_stopped(event: StartupEvent)
    ensures
        startup_after(StartupKeyframes::Stopped, event) is Stopped,
        startup_after(StartupKeyframes::Idle, StartupEvent::Stop) is Stopped,
        forall|delay: u8|
            #[trigger] startup_after(
                StartupKeyframes::Waiting { delay },
                StartupEvent::Stop,
            ) is Stopped,
{
}

/// A command, and `n` times a keyframe that was asked for and a delay that
/// passed.
pub open spec fn nominal(n: nat) -> Seq<StartupEvent>
    decreases n,
{
    if n == 0 {
        seq![StartupEvent::Request]
    } else {
        nominal((n - 1) as nat).push(StartupEvent::Requested(true)).push(StartupEvent::TimedOut)
    }
}

/// Where nothing goes wrong, a command gives a keyframe at once and one after
/// each delay, in their order, and the worker is idle after the last.
pub proof fn startup_cadence(n: nat)
    requires
        n <= 3,
    ensures
        startup_run(nominal(n)) == (StartupKeyframes::Requesting { sent: n as u8 }),
        startup_after(startup_run(nominal(n)), StartupEvent::Requested(true)) == if n < 3 {
            StartupKeyframes::Waiting { delay: n as u8 }
        } else {
            StartupKeyframes::Idle
        },
    decreases n,
{
    if n == 0 {
        assert(nominal(0).drop_last() =~= Seq::empty());
        assert(startup_run(nominal(0).drop_last()) == StartupKeyframes::Idle);
    } else {
        let before = nominal((n - 1) as nat);
        startup_cadence((n - 1) as nat);
        let asked = before.push(StartupEvent::Requested(true));
        assert(asked.drop_last() =~= before);
        assert(startup_run(asked) == (StartupKeyframes::Waiting { delay: (n - 1) as u8 }));
        assert(nominal(n).drop_last() =~= asked);
        assert(nominal(n).last() == StartupEvent::TimedOut);
    }
}

/// Whether the worker can ask for a keyframe. The first one needs the shared
/// encoder only; a further one needs the viewer to be connected still.
pub fn startup_request_allowed(
    tee_alive: bool,
    first: bool,
    bin_alive: bool,
    connected: bool,
) -> (yes: bool)
    ensures
        yes == (tee_alive && (first || (bin_alive && connected))),
{
    tee_alive && (first || (bin_alive && connected))
}

/// A request was reserved less than the spacing ago.
pub open spec fn throttled(last: Option<u64>, now_ns: u64) -> bool {
    last matches Some(at) && now_ns - at < KEYFRAME_SPACING_NS
}

/// Whether a request may be sent, and the reservation after it was asked for.
pub open spec fn reserved(last: Option<u64>, now_ns: u64) -> (bool, Option<u64>) {
    if throttled(last, now_ns) {
        (false, last)
    } else {
        (true, Some(now_ns))
    }
}

/// The reservation after the request of this time could not be sent.
pub open spec fn taken_back(last: Option<u64>, now_ns: u64) -> Option<u64> {
    if last == Some(now_ns) {
        None
    } else {
        last
    }
}

/// Reserves a keyframe request. Returns whether it may be sent; the lock on
/// the reservation is not held while it is.
pub fn request_keyframe_at(last: &mut Option<u64>, now_ns: u64) -> (send: bool)
    ensures
        send == !throttled(*old(last), now_ns),
        *final(last) == if send {
            Some(now_ns)
        } else {
            *old(last)
        },
        (send, *final(last)) == reserved(*old(last), now_ns),
{
    if let Some(at) = *last {
        if now_ns.saturating_sub(at) < KEYFRAME_SPACING_NS {
            return false;
        }
    }
    *last = Some(now_ns);
    true
}

/// Takes a reservation back whose request could not be sent, unless there is
/// a newer one.
pub fn keyframe_request_failed(last: &mut Option<u64>, now_ns: u64)
    ensures
        *final(last) == if *old(last) == Some(now_ns) {
            None
        } else {
            *old(last)
        },
        *final(last) == taken_back(*old(last), now_ns),
{
    if let Some(at) = *last {
        if at == now_ns {
            *last = None;
        }
    }
}

/// Requests that are sent are at least the spacing apart, as long as each of
/// them succeeds.
pub proof fn keyframes_are_spaced(first_ns: u64, second_ns: u64)
    ensures
        !throttled(Some(first_ns), second_ns) ==> first_ns + KEYFRAME_SPACING_NS <= second_ns,
        !throttled(None, second_ns),
{
}

/// The queue at the head of a branch. Without one of its own, a slow viewer
/// would stall the encoder and with it every other viewer.
pub fn branch_queue(video: bool) -> (properties: Vec<Property>)
    ensures
        properties@ == seq![
            Property {
                name: "max-size-buffers",
                value: PropertyValue::Uint(
                    if video {
                        VIDEO_BRANCH_MAX_BUFFERS
                    } else {
                        AUDIO_BRANCH_MAX_PACKETS
                    },
                ),
            },
            Property { name: "leaky", value: PropertyValue::Text("downstream") },
        ],
{
    let max_buffers: u32 = if video {
        VIDEO_BRANCH_MAX_BUFFERS
    } else {
        AUDIO_BRANCH_MAX_PACKETS
    };
    let mut properties: Vec<Property> = Vec::new();
    properties.push(Property { name: "max-size-buffers", value: PropertyValue::Uint(max_buffers) });
    properties.push(Property { name: "leaky", value: PropertyValue::Text("downstream") });
    proof {
        assert(properties@ =~= seq![
            Property { name: "max-size-buffers", value: PropertyValue::Uint(max_buffers) },
            Property { name: "leaky", value: PropertyValue::Text("downstream") },
        ]);
    }
    properties
}

/// What is set on the sender of a branch.
#[derive(Debug, Clone, Copy, PartialEq, Eq, Structural)]
pub enum SenderSetting {
    /// Lost packets are sent again.
    Retransmission,
    /// Sound goes before picture on the network.
    HighPriority,
    Nothing,
}

pub fn sender_setting(video: bool, has_sender: bool) -> (setting: SenderSetting)
    ensures
        setting == if video {
            SenderSetting::Retransmission
        } else if has_sender {
            SenderSetting::HighPriority
        } else {
            SenderSetting::Nothing
        },
{
    if video {
        SenderSetting::Retransmission
    } else if has_sender {
        SenderSetting::HighPriority
    } else {
        SenderSetting::Nothing
    }
}

/// What is done next to link a branch between the encoder and a connection.
#[derive(Debug, Clone, Copy, PartialEq, Eq, Structural)]
pub enum LinkPhase {
    RequestBinPad,
    RequestTeePad,
    /// The encoder refused a pad: give the other one back.
    GiveBackBinPad,
    /// Add the element of this number.
    Adding,
    LinkElements,
    LinkBinPad,
    Linked,
    /// Stop every element.
    StopElements,
    UnlinkBinPad,
    ReleaseTeePad,
    ReleaseBinPad,
    /// Remove every element.
    RemoveElements,
    Failed,
}

/// How far linking a branch has come.
#[derive(Debug, Clone, Copy, PartialEq, Eq, Structural)]
pub struct TeeLink {
    pub phase: LinkPhase,
    pub count: usize,
    pub added: usize,
    pub bin_pad: bool,
    pub tee_pad: bool,
    pub failed: bool,
}

pub open spec fn new_link(count: usize) -> TeeLink {
    TeeLink {
        phase: LinkPhase::RequestBinPad,
        count,
        added: 0,
        bin_pad: false,
        tee_pad: false,
        failed: false,
    }
}

/// Undoing starts; there is nothing more to link.
pub open spec fn undoing(link: TeeLink) -> TeeLink {
    TeeLink { phase: LinkPhase::StopElements, failed: true, ..link }
}

/// The state after the work of a phase went well or not. Undoing goes on
/// whether it goes well or not.
pub open spec fn link_after(link: TeeLink, ok: bool) -> TeeLink {
    match link.phase {
        LinkPhase::RequestBinPad => if ok {
            TeeLink { phase: LinkPhase::RequestTeePad, bin_pad: true, ..link }
        } else {
            TeeLink { phase: LinkPhase::Failed, failed: true, ..link }
        },
        LinkPhase::RequestTeePad => if ok {
            TeeLink {
                phase: if link.count > 0 {
                    LinkPhase::Adding
                } else {
                    LinkPhase::LinkElements
                },
                tee_pad: true,
                ..link
            }
        } else {
            TeeLink { phase: LinkPhase::GiveBackBinPad, failed: true, ..link }
        },
        LinkPhase::GiveBackBinPad => TeeLink { phase: LinkPhase::Failed, bin_pad: false, ..link },
        LinkPhase::Adding => if ok {
            TeeLink {
                added: (link.added + 1) as usize,
                phase: if link.added + 1 < link.count {
                    LinkPhase::Adding
                } else {
                    LinkPhase::LinkElements
                },
                ..link
            }
        } else {
            undoing(link)
        },
        LinkPhase::LinkElements => if ok {
            TeeLink { phase: LinkPhase::LinkBinPad, ..link }
        } else {
            undoing(link)
        },
        LinkPhase::LinkBinPad => if ok {
            TeeLink { phase: LinkPhase::Linked, ..link }
        } else {
            undoing(link)
        },
        LinkPhase::StopElements => TeeLink { phase: LinkPhase::UnlinkBinPad, ..link },
        LinkPhase::UnlinkBinPad => TeeLink { phase: LinkPhase::ReleaseTeePad, ..link },
        LinkPhase::ReleaseTeePad => TeeLink {
            phase: LinkPhase::ReleaseBinPad,
            tee_pad: false,
            ..link
        },
        LinkPhase::ReleaseBinPad => TeeLink {
            phase: LinkPhase::RemoveElements,
            bin_pad: false,
            ..link
        },
        LinkPhase::RemoveElements => TeeLink { phase: LinkPhase::Failed, added: 0, ..link },
        LinkPhase::Linked => link,
        LinkPhase::Failed => link,
    }
}

pub open spec fn link_sound(link: TeeLink) -> bool {
    &&& link.added <= link.count
    &&& match link.phase {
        LinkPhase::RequestBinPad => !link.failed && link.added == 0 && !link.bin_pad
            && !link.tee_pad,
        LinkPhase::RequestTeePad => !link.failed && link.added == 0 && link.bin_pad
            && !link.tee_pad,
        LinkPhase::GiveBackBinPad => link.failed && link.added == 0 && link.bin_pad
            && !link.tee_pad,
        LinkPhase::Adding => !link.failed && link.added < link.count && link.bin_pad
            && link.tee_pad,
        LinkPhase::LinkElements => !link.failed && link.added == link.count && link.bin_pad
            && link.tee_pad,
        LinkPhase::LinkBinPad => !link.failed && link.added == link.count && link.bin_pad
            && link.tee_pad,
        LinkPhase::Linked => !link.failed && link.added == link.count && link.bin_pad
            && link.tee_pad,
        LinkPhase::StopElements => link.failed && link.bin_pad && link.tee_pad,
        LinkPhase::UnlinkBinPad => link.failed && link.bin_pad && link.tee_pad,
        LinkPhase::ReleaseTeePad => link.failed && link.bin_pad && link.tee_pad,
        LinkPhase::ReleaseBinPad => link.failed && link.bin_pad && !link.tee_pad,
        LinkPhase::RemoveElements => link.failed && !link.bin_pad && !link.tee_pad,
        LinkPhase::Failed => link.failed && link.added == 0 && !link.bin_pad && !link.tee_pad,
    }
}

impl TeeLink {
    /// Starts to link a branch of `count` elements.
    pub fn new(count: usize) -> (link: TeeLink)
        ensures
            link == new_link(count),
            link_sound(link),
    {
        TeeLink {
            phase: LinkPhase::RequestBinPad,
            count,
            added: 0,
            bin_pad: false,
            tee_pad: false,
            failed: false,
        }
    }
}

/// One step of linking a branch: the work of its phase went well or not.
pub fn link_tee_branch(link: TeeLink, ok: bool) -> (next: TeeLink)
    requires
        link_sound(link),
    ensures
        next == link_after(link, ok),
        link_sound(next),
{
    let mut next = link;
    match link.phase {
        LinkPhase::RequestBinPad => {
            if ok {
                next.phase = LinkPhase::RequestTeePad;
                next.bin_pad = true;
            } else {
                next.phase = LinkPhase::Failed;
                next.failed = true;
            }
        },
        LinkPhase::RequestTeePad => {
            if ok {
                next.phase = if link.count > 0 {
                    LinkPhase::Adding
                } else {
                    LinkPhase::LinkElements
                };
                next.tee_pad = true;
            } else {
                next.phase = LinkPhase::GiveBackBinPad;
                next.failed = true;
            }
        },
        LinkPhase::GiveBackBinPad => {
            next.phase = LinkPhase::Failed;
            next.bin_pad = false;
        },
        LinkPhase::Adding => {
            if ok {
                next.added = link.added + 1;
                if next.added == link.count {
                    next.phase = LinkPhase::LinkElements;
                }
            } else {
                next.phase = LinkPhase::StopElements;
                next.failed = true;
            }
        },
        LinkPhase::LinkElements => {
            if ok {
                next.phase = LinkPhase::LinkBinPad;
            } else {
                next.phase = LinkPhase::StopElements;
                next.failed = true;
            }
        },
        LinkPhase::LinkBinPad => {
            if ok {
                next.phase = LinkPhase::Linked;
            } else {
                next.phase = LinkPhase::StopElements;
                next.failed = true;
            }
        },
        LinkPhase::StopElements => {
            next.phase = LinkPhase::UnlinkBinPad;
        },
        LinkPhase::UnlinkBinPad => {
            next.phase = LinkPhase::ReleaseTeePad;
        },
        LinkPhase::ReleaseTeePad => {
            next.phase = LinkPhase::ReleaseBinPad;
            next.tee_pad = false;
        },
        LinkPhase::ReleaseBinPad => {
            next.bin_pad = false;
            next.phase = LinkPhase::RemoveElements;
        },
        LinkPhase::RemoveElements => {
            next.phase = LinkPhase::Failed;
            next.added = 0;
        },
        LinkPhase::Linked => {},
        LinkPhase::Failed => {},
    }
    next
}

/// Starts to take down a branch that was linked, in the order in which one is
/// undone that could not be linked.
pub fn remove_tee_branch(link: TeeLink) -> (next: TeeLink)
    requires
        link_sound(link),
        link.phase is Linked,
    ensures
        next == undoing(link),
        link_sound(next),
{
    TeeLink { phase: LinkPhase::StopElements, failed: true, ..link }
}

/// A branch over the outcomes of its phases.
pub open spec fn link_from(link: TeeLink, outcomes: Seq<bool>) -> TeeLink
    decreases outcomes.len(),
{
    if outcomes.len() == 0 {
        link
    } else {
        link_after(link_from(link, outcomes.drop_last()), outcomes.last())
    }
}

/// Linking over the outcomes of its phases.
pub open spec fn link_run(count: usize, outcomes: Seq<bool>) -> TeeLink {
    link_from(new_link(count), outcomes)
}

/// Taking down a branch gives back its pads and takes its elements out of the
/// pipeline in five steps, whether they go well or not.
pub proof fn removed_branch_leaves_nothing(link: TeeLink, outcomes: Seq<bool>)
    requires
        link_sound(link),
        link.phase is Linked,
        outcomes.len() == 5,
    ensures
        link_from(undoing(link), outcomes).phase is Failed,
        !link_from(undoing(link), outcomes).bin_pad,
        !link_from(undoing(link), outcomes).tee_pad,
        link_from(undoing(link), outcomes).added == 0,
{
    reveal_with_fuel(link_from, 6);
}

/// A branch that could not be linked leaves nothing: both requested pads are
/// released and its elements are out of the pipeline. One that could be linked
/// has all of them.
pub proof fn failed_link_leaves_nothing(count: usize, outcomes: Seq<bool>)
    ensures
        link_sound(link_run(count, outcomes)),
        link_run(count, outcomes).count == count,
        link_run(count, outcomes).phase is Failed ==> !link_run(count, outcomes).bin_pad
            && !link_run(count, outcomes).tee_pad && link_run(count, outcomes).added == 0,
        link_run(count, outcomes).phase is Linked ==> link_run(count, outcomes).bin_pad && link_run(
            count,
            outcomes,
        ).tee_pad && link_run(count, outcomes).added == count,
    decreases outcomes.len(),
{
    if outcomes.len() > 0 {
        failed_link_leaves_nothing(count, outcomes.drop_last());
    }
}

/// Why a branch cannot be linked, where a pad was refused.
pub fn refused_pad(phase: LinkPhase) -> (text: Option<&'static str>)
    ensures
        match phase {
            LinkPhase::RequestBinPad => text matches Some(word) && word@
                == "webrtcbin refused a sink pad"@,
            LinkPhase::RequestTeePad => text matches Some(word) && word@
                == "tee refused a source pad"@,
            _ => text is None,
        },
{
    match phase {
        LinkPhase::RequestBinPad => Some("webrtcbin refused a sink pad"),
        LinkPhase::RequestTeePad => Some("tee refused a source pad"),
        _ => None,
    }
}

/// What is done next to add a viewer.
#[derive(Debug, Clone, Copy, PartialEq, Eq, Structural)]
pub enum AddPhase {
    MakeBin,
    AddBin,
    LinkVideo,
    LinkAudio,
    SyncBin,
    /// Bring the elements of the next link to the pipeline's state and let
    /// data flow into it.
    Connect,
    SpawnKeyframes,
    /// Watch the connection and offer it.
    Offer,
    Added,
    /// Take down what stands of the branch.
    Remove,
    Failed,
}

/// How far adding a viewer has come.
#[derive(Debug, Clone, Copy, PartialEq, Eq, Structural)]
pub struct AddViewer {
    pub phase: AddPhase,
    pub has_audio: bool,
    pub links: u8,
    pub connected: u8,
    pub in_pipeline: bool,
}

pub open spec fn new_viewer(has_audio: bool) -> AddViewer {
    AddViewer {
        phase: AddPhase::MakeBin,
        has_audio,
        links: 0,
        connected: 0,
        in_pipeline: false,
    }
}

pub open spec fn add_after(add: AddViewer, ok: bool) -> AddViewer {
    let removed = AddViewer { phase: AddPhase::Remove, ..add };
    match add.phase {
        AddPhase::MakeBin => AddViewer {
            phase: if ok {
                AddPhase::AddBin
            } else {
                AddPhase::Failed
            },
            ..add
        },
        AddPhase::AddBin => if ok {
            AddViewer { phase: AddPhase::LinkVideo, in_pipeline: true, ..add }
        } else {
            AddViewer { phase: AddPhase::Failed, ..add }
        },
        AddPhase::LinkVideo => if ok {
            AddViewer {
                phase: if add.has_audio {
                    AddPhase::LinkAudio
                } else {
                    AddPhase::SyncBin
                },
                links: 1,
                ..add
            }
        } else {
            removed
        },
        AddPhase::LinkAudio => if ok {
            AddViewer { phase: AddPhase::SyncBin, links: 2, ..add }
        } else {
            removed
        },
        AddPhase::SyncBin => if ok {
            AddViewer { phase: AddPhase::Connect, ..add }
        } else {
            removed
        },
        AddPhase::Connect => if ok {
            AddViewer {
                connected: (add.connected + 1) as u8,
                phase: if add.connected + 1 < add.links {
                    AddPhase::Connect
                } else {
                    AddPhase::SpawnKeyframes
                },
                ..add
            }
        } else {
            removed
        },
        AddPhase::SpawnKeyframes => if ok {
            AddViewer { phase: AddPhase::Offer, ..add }
        } else {
            removed
        },
        AddPhase::Offer => AddViewer { phase: AddPhase::Added, ..add },
        AddPhase::Remove => AddViewer {
            phase: AddPhase::Failed,
            links: 0,
            connected: 0,
            in_pipeline: false,
            ..add
        },
        AddPhase::Added => add,
        AddPhase::Failed => add,
    }
}

/// How many links a viewer's branch has.
pub open spec fn wanted_links(add: AddViewer) -> int {
    if add.has_audio {
        2
    } else {
        1
    }
}

pub open spec fn add_sound(add: AddViewer) -> bool {
    &&& add.links <= wanted_links(add)
    &&& add.connected <= add.links
    &&& match add.phase {
        AddPhase::MakeBin => add.links == 0 && add.connected == 0 && !add.in_pipeline,
        AddPhase::AddBin => add.links == 0 && add.connected == 0 && !add.in_pipeline,
        AddPhase::LinkVideo => add.links == 0 && add.connected == 0 && add.in_pipeline,
        AddPhase::LinkAudio => add.links == 1 && add.connected == 0 && add.in_pipeline
            && add.has_audio,
        AddPhase::SyncBin => add.links == wanted_links(add) && add.connected == 0
            && add.in_pipeline,
        AddPhase::Connect => add.links == wanted_links(add) && add.connected < add.links
            && add.in_pipeline,
        AddPhase::SpawnKeyframes => add.links == wanted_links(add) && add.connected == add.links
            && add.in_pipeline,
        AddPhase::Offer => add.links == wanted_links(add) && add.connected == add.links
            && add.in_pipeline,
        AddPhase::Added => add.links == wanted_links(add) && add.connected == add.links
            && add.in_pipeline,
        AddPhase::Remove => add.in_pipeline,
        AddPhase::Failed => add.links == 0 && add.connected == 0 && !add.in_pipeline,
    }
}

impl AddViewer {
    pub fn new(has_audio: bool) -> (add: AddViewer)
        ensures
            add == new_viewer(has_audio),
            add_sound(add),
    {
        AddViewer {
            phase: AddPhase::MakeBin,
            has_audio,
            links: 0,
            connected: 0,
            in_pipeline: false,
        }
    }
}

/// One step of adding a viewer: the work of its phase went well or not.
pub fn add_viewer(add: AddViewer, ok: bool) -> (next: AddViewer)
    requires
        add_sound(add),
    ensures
        next == add_after(add, ok),
        add_sound(next),
{
    let mut next = add;
    match add.phase {
        AddPhase::MakeBin => {
            next.phase = if ok {
                AddPhase::AddBin
            } else {
                AddPhase::Failed
            };
        },
        AddPhase::AddBin => {
            if ok {
                next.phase = AddPhase::LinkVideo;
                next.in_pipeline = true;
            } else {
                next.phase = AddPhase::Failed;
            }
        },
        AddPhase::LinkVideo => {
            if ok {
                next.phase = if add.has_audio {
                    AddPhase::LinkAudio
                } else {
                    AddPhase::SyncBin
                };
                next.links = 1;
            } else {
                next.phase = AddPhase::Remove;
            }
        },
        AddPhase::LinkAudio => {
            if ok {
                next.phase = AddPhase::SyncBin;
                next.links = 2;
            } else {
                next.phase = AddPhase::Remove;
            }
        },
        AddPhase::SyncBin => {
            next.phase = if ok {
                AddPhase::Connect
            } else {
                AddPhase::Remove
            };
        },
        AddPhase::Connect => {
            if ok {
                next.connected = add.connected + 1;
                if next.connected == add.links {
                    next.phase = AddPhase::SpawnKeyframes;
                }
            } else {
                next.phase = AddPhase::Remove;
            }
        },
        AddPhase::SpawnKeyframes => {
            next.phase = if ok {
                AddPhase::Offer
            } else {
                AddPhase::Remove
            };
        },
        AddPhase::Offer => {
            next.phase = AddPhase::Added;
        },
        AddPhase::Remove => {
            next.phase = AddPhase::Failed;
            next.links = 0;
            next.connected = 0;
            next.in_pipeline = false;
        },
        AddPhase::Added => {},
        AddPhase::Failed => {},
    }
    next
}

/// Adding a viewer over the outcomes of its phases.
pub open spec fn add_run(has_audio: bool, outcomes: Seq<bool>) -> AddViewer
    decreases outcomes.len(),
{
    if outcomes.len() == 0 {
        new_viewer(has_audio)
    } else {
        add_after(add_run(has_audio, outcomes.drop_last()), outcomes.last())
    }
}

/// A viewer is added with every link of its branch or leaves nothing in the
/// pipeline, and it is offered a stream only once its branch stands.
pub proof fn viewer_is_added_whole_or_not_at_all(has_audio: bool, outcomes: Seq<bool>)
    ensures
        add_sound(add_run(has_audio, outcomes)),
        add_run(has_audio, outcomes).has_audio == has_audio,
        add_run(has_audio, outcomes).phase is Offer || add_run(has_audio, outcomes).phase is Added
            ==> add_run(has_audio, outcomes).connected == wanted_links(
            add_run(has_audio, outcomes),
        ),
        add_run(has_audio, outcomes).phase is Failed ==> !add_run(has_audio, outcomes).in_pipeline
            && add_run(has_audio, outcomes).links == 0,
    decreases outcomes.len(),
{
    if outcomes.len() > 0 {
        viewer_is_added_whole_or_not_at_all(has_audio, outcomes.drop_last());
    }
}

/// What is done to take a viewer down.
#[derive(Debug, Clone, Copy, PartialEq, Eq, Structural)]
pub enum RemoveAction {
    /// Stop the worker of the startup keyframes and wait for it.
    JoinKeyframes,
    DropDiagnostics,
    /// Wait until no data flows into a link, and take it off the encoder.
    Unlink(usize),
    StopBin,
    /// Stop a link's elements, release its pads and remove its elements.
    RemoveLink(usize),
    RemoveBin,
}

/// The first `n` of these actions over links.
pub open spec fn over_links(n: int, unlink: bool) -> Seq<RemoveAction> {
    Seq::new(
        n as nat,
        |i: int|
            if unlink {
                RemoveAction::Unlink(i as usize)
            } else {
                RemoveAction::RemoveLink(i as usize)
            },
    )
}

pub open spec fn removal(links: int, has_keyframes: bool) -> Seq<RemoveAction> {
    let first = if has_keyframes {
        seq![RemoveAction::JoinKeyframes]
    } else {
        Seq::empty()
    };
    first + seq![RemoveAction::DropDiagnostics] + over_links(links, true) + seq![
        RemoveAction::StopBin,
    ] + over_links(links, false) + seq![RemoveAction::RemoveBin]
}

/// The steps that take a viewer down, in order: its workers end first, then
/// its links are taken off the running encoder, and only then is it stopped.
pub fn remove_viewer(links: usize, has_keyframes: bool) -> (actions: Vec<RemoveAction>)
    ensures
        actions@ == removal(links as int, has_keyframes),
{
    let mut actions: Vec<RemoveAction> = Vec::new();
    if has_keyframes {
        actions.push(RemoveAction::JoinKeyframes);
    }
    actions.push(RemoveAction::DropDiagnostics);
    let ghost head = actions@;
    proof {
        assert(head =~= (if has_keyframes {
            seq![RemoveAction::JoinKeyframes]
        } else {
            Seq::empty()
        }) + seq![RemoveAction::DropDiagnostics]);
    }
    let mut i: usize = 0;
    proof {
        assert(actions@ =~= head + over_links(0, true));
    }
    while i < links
        invariant
            i <= links,
            actions@ == head + over_links(i as int, true),
        decreases links - i,
    {
        actions.push(RemoveAction::Unlink(i));
        i += 1;
        proof {
            assert(actions@ =~= head + over_links(i as int, true));
        }
    }
    actions.push(RemoveAction::StopBin);
    let ghost middle = actions@;
    let mut k: usize = 0;
    proof {
        assert(actions@ =~= middle + over_links(0, false));
    }
    while k < links
        invariant
            k <= links,
            actions@ == middle + over_links(k as int, false),
        decreases links - k,
    {
        actions.push(RemoveAction::RemoveLink(k));
        k += 1;
        proof {
            assert(actions@ =~= middle + over_links(k as int, false));
        }
    }
    actions.push(RemoveAction::RemoveBin);
    proof {
        assert(actions@ =~= removal(links as int, has_keyframes));
    }
    actions
}

/// The workers of a viewer end before anything of its branch is touched, and
/// every link is off the encoder before the branch is stopped.
pub proof fn workers_end_before_teardown(links: int, has_keyframes: bool)
    requires
        links >= 0,
    ensures
        ({
            let steps = removal(links, has_keyframes);
            let workers = if has_keyframes {
                2int
            } else {
                1
            };
            &&& has_keyframes ==> steps[0] is JoinKeyframes
            &&& steps[workers - 1] is DropDiagnostics
            &&& forall|i: int| workers <= i < workers + links ==> (#[trigger] steps[i]) is Unlink
            &&& steps[workers + links] is StopBin
            &&& forall|i: int|
                workers + links < i < steps.len() - 1 ==> (#[trigger] steps[i]) is RemoveLink
            &&& steps.last() is RemoveBin
        }),
{
}

/// What is done to take a link off the running encoder.
#[derive(Debug, Clone, Copy, PartialEq, Eq, Structural)]
pub struct UnlinkPlan {
    /// The link is taken off at all.
    pub unlink: bool,
    /// The pad is idle, or a second has passed, before it is taken off.
    pub wait: bool,
    /// The probe that tells so is removed afterwards.
    pub remove_probe: bool,
}

pub fn block_and_unlink_tee_branch(has_sink_pad: bool, linked: bool, has_probe: bool) -> (plan:
    UnlinkPlan)
    ensures
        plan == if has_sink_pad && linked {
            UnlinkPlan { unlink: true, wait: has_probe, remove_probe: has_probe }
        } else {
            UnlinkPlan { unlink: false, wait: false, remove_probe: false }
        },
{
    if !has_sink_pad || !linked {
        return UnlinkPlan { unlink: false, wait: false, remove_probe: false };
    }
    UnlinkPlan { unlink: true, wait: has_probe, remove_probe: has_probe }
}

/// What is asked of the worker that takes branches down.
#[derive(Debug, Clone, Copy, PartialEq, Eq, Structural)]
pub enum TeardownCommand {
    /// Take the branch of this number down.
    Remove(u64),
    /// Tell the asker once everything before this is done.
    Drain(u64),
}

/// The commands that wait for the worker, in their order.
#[derive(Debug)]
pub struct ViewerTeardown {
    pub waiting: Vec<TeardownCommand>,
}

/// The command that is done next, and those that wait after it.
pub open spec fn taken(waiting: Seq<TeardownCommand>) -> (
    Option<TeardownCommand>,
    Seq<TeardownCommand>,
) {
    if waiting.len() == 0 {
        (None, waiting)
    } else {
        (Some(waiting[0]), waiting.drop_first())
    }
}

/// The commands that wait after one more was handed over.
pub open spec fn handed_over(waiting: Seq<TeardownCommand>, command: TeardownCommand) -> Seq<
    TeardownCommand,
> {
    waiting.push(command)
}

impl ViewerTeardown {
    pub fn new() -> (teardown: ViewerTeardown)
        ensures
            teardown.waiting@.len() == 0,
    {
        ViewerTeardown { waiting: Vec::new() }
    }

    /// Hands a command to the worker.
    pub fn enqueue(&mut self, command: TeardownCommand)
        ensures
            final(self).waiting@ == old(self).waiting@.push(command),
            final(self).waiting@ == handed_over(old(self).waiting@, command),
    {
        self.waiting.push(command);
    }

    /// The command that the worker does next.
    pub fn next(&mut self) -> (command: Option<TeardownCommand>)
        ensures
            match command {
                Some(command) => old(self).waiting@.len() > 0 && command == old(self).waiting@[0]
                    && final(self).waiting@ == old(self).waiting@.drop_first(),
                None => old(self).waiting@.len() == 0 && final(self).waiting@ == old(
                    self,
                ).waiting@,
            },
            (command, final(self).waiting@) == taken(old(self).waiting@),
    {
        if self.waiting.len() == 0 {
            return None;
        }
        let ghost before = self.waiting@;
        let command = self.waiting.remove(0);
        proof {
            assert(self.waiting@ =~= before.drop_first());
        }
        Some(command)
    }
}

/// The commands that are left once the worker has done `done` of them.
pub open spec fn left_after(waiting: Seq<TeardownCommand>, done: nat) -> Seq<TeardownCommand>
    decreases done,
{
    if done == 0 || waiting.len() == 0 {
        waiting
    } else {
        left_after(waiting.drop_first(), (done - 1) as nat)
    }
}

/// By the time that the worker gets to the command at a place, every command
/// before it has been done, and in their order: a drain is told only after all
/// removals that were asked for before it.
pub proof fn drain_follows_earlier_removals(waiting: Seq<TeardownCommand>, place: nat)
    requires
        place < waiting.len(),
    ensures
        left_after(waiting, place) == waiting.skip(place as int),
        left_after(waiting, place)[0] == waiting[place as int],
    decreases place,
{
    if place == 0 {
        assert(waiting.skip(0) =~= waiting);
    } else {
        drain_follows_earlier_removals(waiting.drop_first(), (place - 1) as nat);
        assert(waiting.drop_first().skip(place - 1) =~= waiting.skip(place as int));
    }
}

/// Where a command is done.
#[derive(Debug, Clone, Copy, PartialEq, Eq, Structural)]
pub enum CommandPlace {
    /// The worker took it.
    Worker,
    /// The worker is gone: it is done away from the executor.
    BlockingTask,
}

pub fn enqueue_command(sent: bool) -> (place: CommandPlace)
    ensures
        place == if sent {
            CommandPlace::Worker
        } else {
            CommandPlace::BlockingTask
        },
{
    if sent {
        CommandPlace::Worker
    } else {
        CommandPlace::BlockingTask
    }
}

/// What goes wrong with taking branches down.
#[derive(Debug, Clone, Copy, PartialEq, Eq, Structural)]
pub enum TeardownProblem {
    /// The task that stands in for the worker failed.
    FallbackTask,
    /// The worker ended before it told that it was done.
    LostAcknowledgment,
    WorkerPanicked,
    /// The task that waits for the worker failed.
    JoinTask,
}

pub open spec fn teardown_problem_text(problem: TeardownProblem, error: Seq<char>) -> Seq<char> {
    match problem {
        TeardownProblem::FallbackTask => "fallback viewer teardown task failed: "@ + error,
        TeardownProblem::LostAcknowledgment => "viewer teardown stopped before draining"@,
        TeardownProblem::WorkerPanicked => "viewer teardown worker panicked"@,
        TeardownProblem::JoinTask => "viewer teardown join task failed: "@ + error,
    }
}

pub fn teardown_problem(problem: TeardownProblem, error: &str) -> (text: String)
    ensures
        text@ == teardown_problem_text(problem, error@),
{
    match problem {
        TeardownProblem::FallbackTask => {
            let mut text = "fallback viewer teardown task failed: ".to_owned();
            text.append(error);
            text
        },
        TeardownProblem::LostAcknowledgment => "viewer teardown stopped before draining".to_owned(),
        TeardownProblem::WorkerPanicked => "viewer teardown worker panicked".to_owned(),
        TeardownProblem::JoinTask => {
            let mut text = "viewer teardown join task failed: ".to_owned();
            text.append(error);
            text
        },
    }
}

/// The name of a viewer's peer connection in the pipeline.
pub fn viewer_bin_name(peer: &str) -> (name: String)
    ensures
        name@ == super::host::branch_name(peer@),
{
    let mut name = "viewer-".to_owned();
    name.append(peer);
    name
}

/// The name under which a viewer's connection is recorded.
pub fn diagnostic_label(number: u64) -> (label: String)
    ensures
        label@ == "host-viewer-"@ + text_ops::decimal(number as nat),
{
    let mut label = "host-viewer-".to_owned();
    label.append(decimal_string(number as u128).as_str());
    label
}

} // verus!
