//! Both peers in one process: capture a window, send it, receive it back.

use vstd::prelude::*;
use vstd::string::*;

use super::{
    build_video_payloader, rtp_caps, ElementPlan, Output, PlanModel, ReceiveKind, RtpCaps,
};
use crate::pipeline::{
    self, build_capture_chain, check_elements, configure_encoder, CaptureSettings, Property,
};
use crate::text_ops;

verus! {

/// What is built before the loopback runs.
#[derive(Debug)]
pub struct LoopbackPlan {
    pub capture: String,
    pub encoder_name: &'static str,
    pub encoder_properties: Vec<Property>,
    pub payloader: ElementPlan,
    pub caps: RtpCaps,
    pub sender: &'static str,
    pub receiver: &'static str,
    pub bundle_policy: &'static str,
    /// The receiver is tuned for a window.
    pub live_output: bool,
}

/// Plans a loopback run, once every element of the capture chain is known to
/// be there.
pub fn run_loopback(settings: &CaptureSettings, installed: &Vec<String>, output: &Output) -> (plan:
    Result<LoopbackPlan, String>)
    ensures
        ({
            let missing = text_ops::absent(
                pipeline::capture_elements(*settings),
                text_ops::texts(installed@),
            );
            &&& plan is Ok <==> missing.len() == 0
            &&& plan matches Err(text) ==> text@ == pipeline::missing_elements_text(missing)
            &&& plan matches Ok(plan) ==> {
                &&& plan.capture@ == pipeline::capture_chain(*settings)
                &&& plan.encoder_name@ == "stream-encoder"@
                &&& plan.encoder_properties@ == pipeline::encoder_properties(
                    settings.encoder@,
                    settings.codec,
                    settings.fps,
                )
                &&& plan.payloader@ == (PlanModel {
                    logical_name: "video-payloader"@,
                    factory: pipeline::payloader_text(settings.codec),
                    properties: super::payloader_properties(settings.codec),
                    missing: Some(pipeline::payloader_text(settings.codec) + " missing"@),
                })
                &&& plan.caps.encoding_name@ == pipeline::rtp_text(settings.codec)
                &&& plan.caps.frame_rate@ == text_ops::decimal(settings.fps as nat)
                &&& plan.sender@ == "sender"@
                &&& plan.receiver@ == "receiver"@
                &&& plan.bundle_policy@ == "max-bundle"@
                &&& plan.live_output == (*output is Window)
            }
        }),
{
    if let Err(error) = check_elements(settings, installed) {
        return Err(error);
    }
    Ok(
        LoopbackPlan {
            capture: build_capture_chain(settings),
            encoder_name: "stream-encoder",
            encoder_properties: configure_encoder(settings.encoder, settings.codec, settings.fps),
            payloader: build_video_payloader(settings.codec),
            caps: rtp_caps(settings.codec, settings.fps),
            sender: "sender",
            receiver: "receiver",
            bundle_policy: "max-bundle",
            live_output: match output {
                Output::Window => true,
                Output::File(_) => false,
            },
        },
    )
}

/// What is done about the receiver's new pad.
#[derive(Debug, Clone, Copy, PartialEq, Eq, Structural)]
pub enum PadAction {
    BuildAudio,
    BuildVideo,
    /// The output is in use already: the claim is given back.
    GiveBack,
    /// A duplicate or unexpected stream.
    Ignore,
}

/// Decides about a new pad of the receiver. The output can be used once.
pub fn loopback_pad(accepted: Option<ReceiveKind>, output_left: bool) -> (action: PadAction)
    ensures
        action == match accepted {
            Some(ReceiveKind::Audio) => PadAction::BuildAudio,
            Some(ReceiveKind::Video) => if output_left {
                PadAction::BuildVideo
            } else {
                PadAction::GiveBack
            },
            None => PadAction::Ignore,
        },
{
    match accepted {
        Some(ReceiveKind::Audio) => PadAction::BuildAudio,
        Some(ReceiveKind::Video) => if output_left {
            PadAction::BuildVideo
        } else {
            PadAction::GiveBack
        },
        None => PadAction::Ignore,
    }
}

/// What goes wrong with a new stream.
#[derive(Debug, Clone, Copy, PartialEq, Eq, Structural)]
pub enum StreamProblem {
    AudioBranch,
    VideoBranch,
    Bitrate,
}

pub open spec fn stream_problem_text(problem: StreamProblem, error: Seq<char>) -> Seq<char> {
    match problem {
        StreamProblem::AudioBranch => "[webrtc] could not build audio branch: "@ + error,
        StreamProblem::VideoBranch => "[webrtc] could not build receive branch: "@ + error,
        StreamProblem::Bitrate => "[webrtc] incoming bitrate telemetry disabled: "@ + error,
    }
}

pub fn stream_problem_line(problem: StreamProblem, error: &str) -> (line: String)
    ensures
        line@ == stream_problem_text(problem, error@),
{
    let mut line = match problem {
        StreamProblem::AudioBranch => "[webrtc] could not build audio branch: ".to_owned(),
        StreamProblem::VideoBranch => "[webrtc] could not build receive branch: ".to_owned(),
        StreamProblem::Bitrate => "[webrtc] incoming bitrate telemetry disabled: ".to_owned(),
    };
    line.append(error);
    line
}

#[derive(Debug, Clone, Copy, PartialEq, Eq, Structural)]
pub enum Peer {
    Sender,
    Receiver,
}

/// The peer at the other end.
pub open spec fn other(peer: Peer) -> Peer {
    match peer {
        Peer::Sender => Peer::Receiver,
        Peer::Receiver => Peer::Sender,
    }
}

/// How far the exchange of descriptions has come.
#[derive(Debug, Clone, Copy, PartialEq, Eq, Structural)]
pub enum Negotiation {
    Idle,
    Offering,
    Answering,
    Complete,
    Failed,
}

#[derive(Debug, Clone, Copy, PartialEq, Eq, Structural)]
pub enum NegotiationEvent {
    /// The sender's media is linked.
    Needed,
    /// The promise of an offer was answered, with an offer or not.
    Offer(bool),
    /// The promise of an answer was answered, with an answer or not.
    Answer(bool),
    /// A peer found a candidate for itself.
    Candidate(Peer),
}

#[derive(Debug, Clone, Copy, PartialEq, Eq, Structural)]
pub enum NegotiationAction {
    CreateOffer(Peer),
    CreateAnswer(Peer),
    SetLocal(Peer),
    SetRemote(Peer),
    AddCandidate(Peer),
    SayOfferFailed,
    SayAnswerFailed,
    SayComplete,
}

pub open spec fn negotiation_after(state: Negotiation, event: NegotiationEvent) -> (
    Negotiation,
    Seq<NegotiationAction>,
) {
    match event {
        NegotiationEvent::Candidate(peer) => (
            state,
            seq![NegotiationAction::AddCandidate(other(peer))],
        ),
        NegotiationEvent::Needed => (
            Negotiation::Offering,
            seq![NegotiationAction::CreateOffer(Peer::Sender)],
        ),
        NegotiationEvent::Offer(true) => (
            Negotiation::Answering,
            seq![
                NegotiationAction::SetLocal(Peer::Sender),
                NegotiationAction::SetRemote(Peer::Receiver),
                NegotiationAction::CreateAnswer(Peer::Receiver),
            ],
        ),
        NegotiationEvent::Offer(false) => (
            Negotiation::Failed,
            seq![NegotiationAction::SayOfferFailed],
        ),
        NegotiationEvent::Answer(true) => (
            Negotiation::Complete,
            seq![
                NegotiationAction::SetLocal(Peer::Receiver),
                NegotiationAction::SetRemote(Peer::Sender),
                NegotiationAction::SayComplete,
            ],
        ),
        NegotiationEvent::Answer(false) => (
            Negotiation::Failed,
            seq![NegotiationAction::SayAnswerFailed],
        ),
    }
}

/// One step of the exchange between the two peers. The sender offers and the
/// receiver answers; candidates go to the other peer at once.
pub fn connect_signalling(state: Negotiation, event: NegotiationEvent) -> (out: (
    Negotiation,
    Vec<NegotiationAction>,
))
    ensures
        (out.0, out.1@) == negotiation_after(state, event),
{
    let mut actions: Vec<NegotiationAction> = Vec::new();
    let next = match event {
        NegotiationEvent::Candidate(peer) => {
            let receiver = match peer {
                Peer::Sender => Peer::Receiver,
                Peer::Receiver => Peer::Sender,
            };
            actions.push(NegotiationAction::AddCandidate(receiver));
            state
        },
        NegotiationEvent::Needed => {
            actions.push(NegotiationAction::CreateOffer(Peer::Sender));
            Negotiation::Offering
        },
        NegotiationEvent::Offer(true) => {
            actions.push(NegotiationAction::SetLocal(Peer::Sender));
            actions.push(NegotiationAction::SetRemote(Peer::Receiver));
            actions.push(NegotiationAction::CreateAnswer(Peer::Receiver));
            Negotiation::Answering
        },
        NegotiationEvent::Offer(false) => {
            actions.push(NegotiationAction::SayOfferFailed);
            Negotiation::Failed
        },
        NegotiationEvent::Answer(true) => {
            actions.push(NegotiationAction::SetLocal(Peer::Receiver));
            actions.push(NegotiationAction::SetRemote(Peer::Sender));
            actions.push(NegotiationAction::SayComplete);
            Negotiation::Complete
        },
        NegotiationEvent::Answer(false) => {
            actions.push(NegotiationAction::SayAnswerFailed);
            Negotiation::Failed
        },
    };
    proof {
        assert(actions@ =~= negotiation_after(state, event).1);
    }
    (next, actions)
}

/// A description that one peer takes as its own is handed to the other peer as
/// the remote one in the same step, and neither is set without the other.
pub proof fn descriptions_reach_both_peers(state: Negotiation, event: NegotiationEvent, peer: Peer)
    ensures
        negotiation_after(state, event).1.contains(NegotiationAction::SetLocal(peer))
            == negotiation_after(state, event).1.contains(
            NegotiationAction::SetRemote(other(peer)),
        ),
{
    let actions = negotiation_after(state, event).1;
    match event {
        NegotiationEvent::Offer(true) => {
            assert(actions[0] == NegotiationAction::SetLocal(Peer::Sender));
            assert(actions[1] == NegotiationAction::SetRemote(Peer::Receiver));
        },
        NegotiationEvent::Answer(true) => {
            assert(actions[0] == NegotiationAction::SetLocal(Peer::Receiver));
            assert(actions[1] == NegotiationAction::SetRemote(Peer::Sender));
        },
        _ => {},
    }
}

} // verus!
