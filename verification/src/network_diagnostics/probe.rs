//! The isolated gather probe.

use vstd::prelude::*;
use vstd::string::*;

use super::{
    CandidateClass, CandidateFamily, CandidateKind, CandidateTransport, PROBE_BUDGET_MS,
};
use crate::text_ops::{self, decimal_string};

verus! {

#[derive(Debug, Clone, Copy, PartialEq, Eq, Structural)]
pub enum ProbeOutcome {
    Complete,
    TimedOut,
    Failed,
}

pub open spec fn outcome_word(outcome: ProbeOutcome) -> Seq<char> {
    match outcome {
        ProbeOutcome::Complete => "Complete"@,
        ProbeOutcome::TimedOut => "TimedOut"@,
        ProbeOutcome::Failed => "Failed"@,
    }
}

/// How many candidates of which kind were gathered.
#[derive(Debug, Clone, Copy, PartialEq, Eq, Structural)]
pub struct CandidateCounts {
    pub udp: u32,
    pub tcp: u32,
    pub ipv4: u32,
    pub ipv6: u32,
    pub host: u32,
    pub srflx: u32,
    pub prflx: u32,
    pub relay: u32,
    pub invalid: u32,
}

pub open spec fn no_candidates() -> CandidateCounts {
    CandidateCounts {
        udp: 0,
        tcp: 0,
        ipv4: 0,
        ipv6: 0,
        host: 0,
        srflx: 0,
        prflx: 0,
        relay: 0,
        invalid: 0,
    }
}

impl Default for CandidateCounts {
    fn default() -> (counts: CandidateCounts)
        ensures
            counts == no_candidates(),
    {
        CandidateCounts {
            udp: 0,
            tcp: 0,
            ipv4: 0,
            ipv6: 0,
            host: 0,
            srflx: 0,
            prflx: 0,
            relay: 0,
            invalid: 0,
        }
    }
}

/// One more where `yes`, without going past the largest count.
pub open spec fn one_more(count: u32, yes: bool) -> u32 {
    if yes && count < u32::MAX {
        (count + 1) as u32
    } else {
        count
    }
}

/// The counts with one more classified candidate. The end of the candidates
/// counts as none.
pub open spec fn counts_with(counts: CandidateCounts, class: CandidateClass) -> CandidateCounts {
    match class {
        CandidateClass::Candidate(meta) => CandidateCounts {
            udp: one_more(counts.udp, meta.transport == CandidateTransport::Udp),
            tcp: one_more(counts.tcp, meta.transport == CandidateTransport::Tcp),
            ipv4: one_more(counts.ipv4, meta.family == CandidateFamily::Ipv4),
            ipv6: one_more(counts.ipv6, meta.family == CandidateFamily::Ipv6),
            host: one_more(counts.host, meta.kind == CandidateKind::Host),
            srflx: one_more(counts.srflx, meta.kind == CandidateKind::Srflx),
            prflx: one_more(counts.prflx, meta.kind == CandidateKind::Prflx),
            relay: one_more(counts.relay, meta.kind == CandidateKind::Relay),
            invalid: counts.invalid,
        },
        CandidateClass::Invalid => CandidateCounts {
            invalid: one_more(counts.invalid, true),
            ..counts
        },
        CandidateClass::EndOfCandidates => counts,
    }
}

/// A sum that stops at the largest count.
pub open spec fn capped(sum: int) -> int {
    if sum <= u32::MAX {
        sum
    } else {
        u32::MAX as int
    }
}

pub open spec fn total_of(counts: CandidateCounts) -> int {
    capped(counts.host + counts.srflx + counts.prflx + counts.relay)
}

impl CandidateCounts {
    pub fn add_class(&mut self, class: CandidateClass)
        ensures
            *final(self) == counts_with(*old(self), class),
    {
        match class {
            CandidateClass::Candidate(meta) => {
                match meta.transport {
                    CandidateTransport::Udp => self.udp = self.udp.saturating_add(1),
                    CandidateTransport::Tcp => self.tcp = self.tcp.saturating_add(1),
                    CandidateTransport::Unknown => {},
                }
                match meta.family {
                    CandidateFamily::Ipv4 => self.ipv4 = self.ipv4.saturating_add(1),
                    CandidateFamily::Ipv6 => self.ipv6 = self.ipv6.saturating_add(1),
                    CandidateFamily::Mdns => {},
                    CandidateFamily::Unknown => {},
                }
                match meta.kind {
                    CandidateKind::Host => self.host = self.host.saturating_add(1),
                    CandidateKind::Srflx => self.srflx = self.srflx.saturating_add(1),
                    CandidateKind::Prflx => self.prflx = self.prflx.saturating_add(1),
                    CandidateKind::Relay => self.relay = self.relay.saturating_add(1),
                    CandidateKind::Unknown => {},
                }
            },
            CandidateClass::Invalid => {
                self.invalid = self.invalid.saturating_add(1);
            },
            CandidateClass::EndOfCandidates => {},
        }
    }

    pub fn total(&self) -> (sum: u32)
        ensures
            sum == total_of(*self),
    {
        self.host.saturating_add(self.srflx).saturating_add(self.prflx).saturating_add(self.relay)
    }
}

#[derive(Debug, Clone, Copy, PartialEq, Eq, Structural)]
pub struct ProbeReport {
    pub outcome: ProbeOutcome,
    pub candidates: CandidateCounts,
}

pub open spec fn report_detail(report: ProbeReport) -> Seq<char> {
    let counts = report.candidates;
    "outcome="@ + outcome_word(report.outcome) + " total="@ + text_ops::decimal(
        total_of(counts) as nat,
    ) + " udp="@ + text_ops::decimal(counts.udp as nat) + " tcp="@ + text_ops::decimal(
        counts.tcp as nat,
    ) + " ipv4="@ + text_ops::decimal(counts.ipv4 as nat) + " ipv6="@ + text_ops::decimal(
        counts.ipv6 as nat,
    ) + " host="@ + text_ops::decimal(counts.host as nat) + " srflx="@ + text_ops::decimal(
        counts.srflx as nat,
    )
}

proof fn lemma_count_length(n: u32)
    ensures
        text_ops::decimal(n as nat).len() <= 10,
{
    assert(vstd::arithmetic::power::pow(10, 10) == 10_000_000_000) by {
        reveal_with_fuel(vstd::arithmetic::power::pow, 11);
    }
    text_ops::decimal_length(n as nat, 10, 10_000_000_000);
}

/// The detail of a report fits the 240 characters that a diagnostics line
/// keeps of it, however large the counts are.
pub proof fn report_detail_fits(report: ProbeReport)
    ensures
        report_detail(report).len() <= 240,
{
    let counts = report.candidates;
    reveal_strlit("outcome=");
    reveal_strlit("Complete");
    reveal_strlit("TimedOut");
    reveal_strlit("Failed");
    reveal_strlit(" total=");
    reveal_strlit(" udp=");
    reveal_strlit(" tcp=");
    reveal_strlit(" ipv4=");
    reveal_strlit(" ipv6=");
    reveal_strlit(" host=");
    reveal_strlit(" srflx=");
    lemma_count_length(total_of(counts) as u32);
    lemma_count_length(counts.udp);
    lemma_count_length(counts.tcp);
    lemma_count_length(counts.ipv4);
    lemma_count_length(counts.ipv6);
    lemma_count_length(counts.host);
    lemma_count_length(counts.srflx);
}

impl ProbeReport {
    pub fn detail(&self) -> (out: String)
        ensures
            out@ == report_detail(*self),
            out@.len() <= 240,
    {
        let mut out = "outcome=".to_owned();
        out.append(
            match self.outcome {
                ProbeOutcome::Complete => "Complete",
                ProbeOutcome::TimedOut => "TimedOut",
                ProbeOutcome::Failed => "Failed",
            },
        );
        out.append(" total=");
        out.append(decimal_string(self.candidates.total() as u128).as_str());
        out.append(" udp=");
        out.append(decimal_string(self.candidates.udp as u128).as_str());
        out.append(" tcp=");
        out.append(decimal_string(self.candidates.tcp as u128).as_str());
        out.append(" ipv4=");
        out.append(decimal_string(self.candidates.ipv4 as u128).as_str());
        out.append(" ipv6=");
        out.append(decimal_string(self.candidates.ipv6 as u128).as_str());
        out.append(" host=");
        out.append(decimal_string(self.candidates.host as u128).as_str());
        out.append(" srflx=");
        out.append(decimal_string(self.candidates.srflx as u128).as_str());
        proof {
            report_detail_fits(*self);
        }
        out
    }
}

/// What a promise was answered with.
#[derive(Debug)]
pub enum PromiseReply {
    /// The promise itself failed, for this reason.
    Failed(String),
    /// There is no payload.
    Empty,
    /// The payload is an error.
    Error(String),
    /// The payload holds the answer.
    Answered,
}

/// What the answer holds where an offer should be.
#[derive(Debug, Clone, Copy, PartialEq, Eq, Structural)]
pub enum OfferValue {
    Missing,
    Invalid,
    Present,
}

/// The text of an error result.
pub open spec fn problem(result: Result<(), String>) -> Option<Seq<char>> {
    match result {
        Ok(_) => None,
        Err(text) => Some(text@),
    }
}

/// Why an offer cannot be set as the local description.
pub open spec fn offer_problem(reply: PromiseReply, offer: OfferValue, alive: bool) -> Option<
    Seq<char>,
> {
    match reply {
        PromiseReply::Failed(reason) => Some("offer promise failed: "@ + reason@),
        PromiseReply::Empty => Some("offer promise returned no payload"@),
        PromiseReply::Error(reason) => Some("offer promise error: "@ + reason@),
        PromiseReply::Answered => match offer {
            OfferValue::Missing => Some("offer promise did not include an offer"@),
            OfferValue::Invalid => Some("offer promise returned an invalid offer"@),
            OfferValue::Present => if alive {
                None
            } else {
                Some("webrtcbin dropped before set-local-description"@)
            },
        },
    }
}

/// Whether the offer may be set as the local description.
pub fn offer_reply(reply: &PromiseReply, offer: OfferValue, alive: bool) -> (result: Result<
    (),
    String,
>)
    ensures
        problem(result) == offer_problem(*reply, offer, alive),
{
    match reply {
        PromiseReply::Failed(reason) => {
            let mut text = "offer promise failed: ".to_owned();
            text.append(reason.as_str());
            Err(text)
        },
        PromiseReply::Empty => Err("offer promise returned no payload".to_owned()),
        PromiseReply::Error(reason) => {
            let mut text = "offer promise error: ".to_owned();
            text.append(reason.as_str());
            Err(text)
        },
        PromiseReply::Answered => match offer {
            OfferValue::Missing => Err("offer promise did not include an offer".to_owned()),
            OfferValue::Invalid => Err("offer promise returned an invalid offer".to_owned()),
            OfferValue::Present => if alive {
                Ok(())
            } else {
                Err("webrtcbin dropped before set-local-description".to_owned())
            },
        },
    }
}

/// Why the local description was not set. An empty answer is a success.
pub open spec fn local_problem(reply: PromiseReply) -> Option<Seq<char>> {
    match reply {
        PromiseReply::Failed(reason) => Some("set-local promise failed: "@ + reason@),
        PromiseReply::Error(reason) => Some("set-local promise error: "@ + reason@),
        PromiseReply::Empty => None,
        PromiseReply::Answered => None,
    }
}

/// Whether the local description was set.
pub fn local_description_reply(reply: &PromiseReply) -> (result: Result<(), String>)
    ensures
        problem(result) == local_problem(*reply),
{
    match reply {
        PromiseReply::Failed(reason) => {
            let mut text = "set-local promise failed: ".to_owned();
            text.append(reason.as_str());
            Err(text)
        },
        PromiseReply::Error(reason) => {
            let mut text = "set-local promise error: ".to_owned();
            text.append(reason.as_str());
            Err(text)
        },
        PromiseReply::Empty => Ok(()),
        PromiseReply::Answered => Ok(()),
    }
}

/// How far the exchange that makes the offer local has come.
#[derive(Debug, Clone, Copy, PartialEq, Eq, Structural)]
pub enum OfferExchange {
    /// The offer was asked for.
    AwaitingOffer,
    /// The offer was handed over as the local description.
    AwaitingLocal,
    /// The waiting task got a result.
    Succeeded,
    Failed,
}

/// What happens in that exchange.
#[derive(Debug, Clone, Copy, PartialEq, Eq, Structural)]
pub enum OfferEvent {
    /// The offer's promise was answered; `true` where the offer can be used.
    Offered(bool),
    /// The description's promise was answered; `true` where it was set.
    Installed(bool),
    /// Nobody can answer any more.
    ChannelClosed,
}

pub open spec fn exchange_after(exchange: OfferExchange, event: OfferEvent) -> OfferExchange {
    match (exchange, event) {
        (OfferExchange::AwaitingOffer, OfferEvent::Offered(true)) => OfferExchange::AwaitingLocal,
        (OfferExchange::AwaitingOffer, OfferEvent::Offered(false)) => OfferExchange::Failed,
        (OfferExchange::AwaitingLocal, OfferEvent::Installed(true)) => OfferExchange::Succeeded,
        (OfferExchange::AwaitingLocal, OfferEvent::Installed(false)) => OfferExchange::Failed,
        (OfferExchange::AwaitingOffer, OfferEvent::ChannelClosed) => OfferExchange::Failed,
        (OfferExchange::AwaitingLocal, OfferEvent::ChannelClosed) => OfferExchange::Failed,
        _ => exchange,
    }
}

/// One step of the exchange. The first result stands.
pub fn create_offer_and_set_local(exchange: OfferExchange, event: OfferEvent) -> (next:
    OfferExchange)
    ensures
        next == exchange_after(exchange, event),
{
    match (exchange, event) {
        (OfferExchange::AwaitingOffer, OfferEvent::Offered(true)) => OfferExchange::AwaitingLocal,
        (OfferExchange::AwaitingOffer, OfferEvent::Offered(false)) => OfferExchange::Failed,
        (OfferExchange::AwaitingLocal, OfferEvent::Installed(true)) => OfferExchange::Succeeded,
        (OfferExchange::AwaitingLocal, OfferEvent::Installed(false)) => OfferExchange::Failed,
        (OfferExchange::AwaitingOffer, OfferEvent::ChannelClosed) => OfferExchange::Failed,
        (OfferExchange::AwaitingLocal, OfferEvent::ChannelClosed) => OfferExchange::Failed,
        _ => exchange,
    }
}

/// A result of the exchange is never replaced by a later one.
pub proof fn exchange_result_stands(exchange: OfferExchange, event: OfferEvent)
    requires
        exchange is Succeeded || exchange is Failed,
    ensures
        exchange_after(exchange, event) == exchange,
{
}

/// How long the probe may still wait.
pub fn probe_budget_ms(elapsed_ms: u64) -> (left: u64)
    ensures
        left == if elapsed_ms < PROBE_BUDGET_MS {
            PROBE_BUDGET_MS - elapsed_ms
        } else {
            0
        },
{
    PROBE_BUDGET_MS.saturating_sub(elapsed_ms)
}

/// What the probe does next.
#[derive(Debug, Clone, Copy, PartialEq, Eq, Structural)]
pub enum ProbeStage {
    /// Start the media runtime.
    Initialise,
    /// Make the peer connection.
    Build,
    /// Put it into the pipeline.
    Attach,
    /// Listen for candidates and start the pipeline.
    Start,
    /// Make an offer the local description.
    Offer,
    /// Wait until gathering is complete.
    Gather,
    /// Stop listening and stop the pipeline.
    Clean,
    Done,
}

/// How a wait of the probe ended.
#[derive(Debug, Clone, Copy, PartialEq, Eq, Structural)]
pub enum WaitResult {
    Succeeded,
    Failed,
    TimedOut,
}

#[derive(Debug, Clone, Copy, PartialEq, Eq, Structural)]
pub enum ProbeEvent {
    /// The stage's work ended like this.
    Finished(WaitResult),
    /// A candidate was gathered.
    Candidate(CandidateClass),
}

/// The state of a probe run.
#[derive(Debug, Clone, Copy, PartialEq, Eq, Structural)]
pub struct ProbeRun {
    pub stage: ProbeStage,
    pub report: ProbeReport,
}

pub open spec fn new_probe() -> ProbeRun {
    ProbeRun {
        stage: ProbeStage::Initialise,
        report: ProbeReport { outcome: ProbeOutcome::Failed, candidates: no_candidates() },
    }
}

/// Candidates are listened for.
pub open spec fn listening(stage: ProbeStage) -> bool {
    stage is Start || stage is Offer || stage is Gather
}

pub open spec fn wait_outcome(result: WaitResult) -> ProbeOutcome {
    match result {
        WaitResult::Succeeded => ProbeOutcome::Complete,
        WaitResult::Failed => ProbeOutcome::Failed,
        WaitResult::TimedOut => ProbeOutcome::TimedOut,
    }
}

pub open spec fn probe_after(run: ProbeRun, event: ProbeEvent) -> ProbeRun {
    match event {
        ProbeEvent::Candidate(class) => if listening(run.stage) {
            ProbeRun {
                stage: run.stage,
                report: ProbeReport {
                    outcome: run.report.outcome,
                    candidates: counts_with(run.report.candidates, class),
                },
            }
        } else {
            run
        },
        ProbeEvent::Finished(result) => {
            let ok = result is Succeeded;
            match run.stage {
                ProbeStage::Initialise => ProbeRun {
                    stage: if ok {
                        ProbeStage::Build
                    } else {
                        ProbeStage::Done
                    },
                    ..run
                },
                ProbeStage::Build => ProbeRun {
                    stage: if ok {
                        ProbeStage::Attach
                    } else {
                        ProbeStage::Done
                    },
                    ..run
                },
                ProbeStage::Attach => ProbeRun {
                    stage: if ok {
                        ProbeStage::Start
                    } else {
                        ProbeStage::Done
                    },
                    ..run
                },
                ProbeStage::Start => ProbeRun {
                    stage: if ok {
                        ProbeStage::Offer
                    } else {
                        ProbeStage::Clean
                    },
                    ..run
                },
                ProbeStage::Offer => if ok {
                    ProbeRun { stage: ProbeStage::Gather, ..run }
                } else {
                    ProbeRun {
                        stage: ProbeStage::Clean,
                        report: ProbeReport {
                            outcome: wait_outcome(result),
                            candidates: run.report.candidates,
                        },
                    }
                },
                ProbeStage::Gather => ProbeRun {
                    stage: ProbeStage::Clean,
                    report: ProbeReport {
                        outcome: wait_outcome(result),
                        candidates: run.report.candidates,
                    },
                },
                ProbeStage::Clean => ProbeRun { stage: ProbeStage::Done, ..run },
                ProbeStage::Done => run,
            }
        },
    }
}

impl ProbeRun {
    pub fn new() -> (run: ProbeRun)
        ensures
            run == new_probe(),
    {
        ProbeRun {
            stage: ProbeStage::Initialise,
            report: ProbeReport {
                outcome: ProbeOutcome::Failed,
                candidates: CandidateCounts::default(),
            },
        }
    }
}

/// One step of the probe: what was done or seen decides what is done next.
pub fn probe_with_stun(run: ProbeRun, event: ProbeEvent) -> (next: ProbeRun)
    ensures
        next == probe_after(run, event),
{
    let mut next = run;
    match event {
        ProbeEvent::Candidate(class) => {
            let heard = match run.stage {
                ProbeStage::Start => true,
                ProbeStage::Offer => true,
                ProbeStage::Gather => true,
                _ => false,
            };
            if heard {
                let mut counts = run.report.candidates;
                counts.add_class(class);
                next.report = ProbeReport { outcome: run.report.outcome, candidates: counts };
            }
        },
        ProbeEvent::Finished(result) => {
            let ok = match result {
                WaitResult::Succeeded => true,
                _ => false,
            };
            let outcome = match result {
                WaitResult::Succeeded => ProbeOutcome::Complete,
                WaitResult::Failed => ProbeOutcome::Failed,
                WaitResult::TimedOut => ProbeOutcome::TimedOut,
            };
            let judged = ProbeReport { outcome, candidates: run.report.candidates };
            match run.stage {
                ProbeStage::Initialise => {
                    next.stage = if ok {
                        ProbeStage::Build
                    } else {
                        ProbeStage::Done
                    };
                },
                ProbeStage::Build => {
                    next.stage = if ok {
                        ProbeStage::Attach
                    } else {
                        ProbeStage::Done
                    };
                },
                ProbeStage::Attach => {
                    next.stage = if ok {
                        ProbeStage::Start
                    } else {
                        ProbeStage::Done
                    };
                },
                ProbeStage::Start => {
                    next.stage = if ok {
                        ProbeStage::Offer
                    } else {
                        ProbeStage::Clean
                    };
                },
                ProbeStage::Offer => {
                    if ok {
                        next.stage = ProbeStage::Gather;
                    } else {
                        next = ProbeRun { stage: ProbeStage::Clean, report: judged };
                    }
                },
                ProbeStage::Gather => {
                    next = ProbeRun { stage: ProbeStage::Clean, report: judged };
                },
                ProbeStage::Clean => {
                    next.stage = ProbeStage::Done;
                },
                ProbeStage::Done => {},
            }
        },
    }
    next
}

/// A probe run over a list of events.
pub open spec fn probe_run(events: Seq<ProbeEvent>) -> ProbeRun
    decreases events.len(),
{
    if events.len() == 0 {
        new_probe()
    } else {
        probe_after(probe_run(events.drop_last()), events.last())
    }
}

/// The stages that a run went through.
pub open spec fn visited(events: Seq<ProbeEvent>, stage: ProbeStage) -> bool {
    exists|n: int|
        0 <= n <= events.len() && (#[trigger] probe_run(events.take(n))).stage == stage
}

proof fn lemma_visited_grows(events: Seq<ProbeEvent>, stage: ProbeStage)
    requires
        events.len() > 0,
        visited(events.drop_last(), stage),
    ensures
        visited(events, stage),
{
    let earlier = events.drop_last();
    let n = choose|n: int|
        0 <= n <= earlier.len() && (#[trigger] probe_run(earlier.take(n))).stage == stage;
    assert(earlier.take(n) =~= events.take(n));
    assert(probe_run(events.take(n)).stage == stage);
}

proof fn lemma_visited_now(events: Seq<ProbeEvent>)
    ensures
        visited(events, probe_run(events).stage),
{
    assert(events.take(events.len() as int) =~= events);
    assert(probe_run(events.take(events.len() as int)).stage == probe_run(events).stage);
}

/// A probe that started the pipeline stops it before it is done. A probe that
/// is done without having stopped it never listened for candidates, and
/// reports a failure without any.
pub proof fn started_probe_is_stopped(events: Seq<ProbeEvent>)
    ensures
        visited(events, ProbeStage::Start) && probe_run(events).stage is Done ==> visited(
            events,
            ProbeStage::Clean,
        ),
        !visited(events, ProbeStage::Start) ==> probe_run(events).report == new_probe().report && !(
        probe_run(events).stage is Clean) && !listening(probe_run(events).stage),
        visited(events, ProbeStage::Start) ==> {
            ||| listening(probe_run(events).stage)
            ||| probe_run(events).stage is Clean
            ||| probe_run(events).stage is Done
        },
    decreases events.len(),
{
    if events.len() > 0 {
        let earlier = events.drop_last();
        started_probe_is_stopped(earlier);
        lemma_visited_now(events);
        lemma_visited_now(earlier);
        if visited(earlier, ProbeStage::Start) {
            lemma_visited_grows(events, ProbeStage::Start);
        }
        if visited(earlier, ProbeStage::Clean) {
            lemma_visited_grows(events, ProbeStage::Clean);
        }
        if probe_run(earlier).stage is Clean {
            lemma_visited_grows(events, ProbeStage::Clean);
        }
        if visited(events, ProbeStage::Start) && !visited(earlier, ProbeStage::Start) {
            let n = choose|n: int|
                0 <= n <= events.len() && (#[trigger] probe_run(events.take(n))).stage
                    == ProbeStage::Start;
            if n < events.len() {
                assert(earlier.take(n) =~= events.take(n));
                assert(probe_run(earlier.take(n)).stage == ProbeStage::Start);
            } else {
                assert(events.take(n) =~= events);
            }
        }
    } else {
        assert forall|n: int| 0 <= n <= events.len() implies (#[trigger] probe_run(
            events.take(n),
        )).stage == ProbeStage::Initialise by {
            assert(events.take(n) =~= events);
        }
    }
}

/// A probe is complete only after its offer was set and gathering ended.
pub proof fn complete_means_gathered(events: Seq<ProbeEvent>)
    requires
        probe_run(events).report.outcome is Complete,
    ensures
        visited(events, ProbeStage::Offer),
        visited(events, ProbeStage::Gather),
    decreases events.len(),
{
    let earlier = events.drop_last();
    if events.len() > 0 {
        lemma_gather_follows_offer(earlier);
        if probe_run(earlier).report.outcome is Complete {
            complete_means_gathered(earlier);
            lemma_visited_grows(events, ProbeStage::Offer);
            lemma_visited_grows(events, ProbeStage::Gather);
        } else {
            lemma_visited_now(earlier);
            lemma_visited_grows(events, ProbeStage::Gather);
            lemma_visited_grows(events, ProbeStage::Offer);
        }
    }
}

proof fn lemma_gather_follows_offer(events: Seq<ProbeEvent>)
    ensures
        probe_run(events).stage is Gather ==> visited(events, ProbeStage::Offer),
    decreases events.len(),
{
    if events.len() > 0 {
        let earlier = events.drop_last();
        lemma_gather_follows_offer(earlier);
        lemma_visited_now(earlier);
        if visited(earlier, ProbeStage::Offer) {
            lemma_visited_grows(events, ProbeStage::Offer);
        }
    }
}

} // verus!
