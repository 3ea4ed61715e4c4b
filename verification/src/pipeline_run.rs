//! Running a media pipeline: it is started, watched, and brought back to its
//! null state whatever happens in between.

pub mod laws;

use vstd::prelude::*;
use vstd::string::*;

verus! {

/// A state of the media pipeline.
#[derive(Debug, Clone, Copy, PartialEq, Eq, Structural)]
pub enum PipelineState {
    VoidPending,
    Null,
    Ready,
    Paused,
    Playing,
}

pub open spec fn state_text(state: PipelineState) -> Seq<char> {
    match state {
        PipelineState::VoidPending => "VoidPending"@,
        PipelineState::Null => "Null"@,
        PipelineState::Ready => "Ready"@,
        PipelineState::Paused => "Paused"@,
        PipelineState::Playing => "Playing"@,
    }
}

impl PipelineState {
    pub fn name(self) -> (name: &'static str)
        ensures
            name@ == state_text(self),
    {
        match self {
            Self::VoidPending => "VoidPending",
            Self::Null => "Null",
            Self::Ready => "Ready",
            Self::Paused => "Paused",
            Self::Playing => "Playing",
        }
    }
}

/// A message of the pipeline's bus, as far as the observation reads it.
#[derive(Debug)]
pub enum BusMessage {
    Error { error: String, debug: String },
    EndOfStream,
    /// A state change, with the name of the element that reports it.
    StateChanged { source: Option<String> },
    Other,
}

/// The text of a bus error.
pub open spec fn bus_error_text(error: Seq<char>, debug: Seq<char>) -> Seq<char> {
    error + " ("@ + debug + ")"@
}

/// The text of a bus error.
pub fn bus_error(error: &str, debug: &str) -> (text: String)
    ensures
        text@ == bus_error_text(error@, debug@),
{
    let mut text = error.to_owned();
    text.append(" (");
    text.append(debug);
    text.append(")");
    text
}

/// A result by the text of its error.
pub open spec fn told(result: Result<(), String>) -> Result<(), Seq<char>> {
    match result {
        Ok(()) => Ok(()),
        Err(error) => Err(error@),
    }
}

/// A result and the result of the cleanup that followed it: an error of either
/// is kept, and two errors are told in one line, the first one first.
pub open spec fn combined(
    primary: Result<(), Seq<char>>,
    cleanup: Result<(), Seq<char>>,
) -> Result<(), Seq<char>> {
    match (primary, cleanup) {
        (Ok(()), Ok(())) => Ok(()),
        (Err(error), Ok(())) => Err(error),
        (Ok(()), Err(error)) => Err(error),
        (Err(primary), Err(cleanup)) => Err(primary + "; "@ + cleanup),
    }
}

pub fn combine_pipeline_results(
    primary: Result<(), String>,
    cleanup: Result<(), String>,
) -> (result: Result<(), String>)
    ensures
        told(result) == combined(told(primary), told(cleanup)),
{
    match primary {
        Ok(()) => cleanup,
        Err(primary) => match cleanup {
            Ok(()) => Err(primary),
            Err(cleanup) => {
                let mut text = primary;
                text.append("; ");
                text.append(cleanup.as_str());
                Err(text)
            },
        },
    }
}

/// No failure is ever lost: the combined result fails exactly when one of the
/// two did.
pub proof fn no_failure_is_lost(
    primary: Result<(), Seq<char>>,
    cleanup: Result<(), Seq<char>>,
)
    ensures
        combined(primary, cleanup) is Ok <==> primary is Ok && cleanup is Ok,
        primary is Err ==> crate::text_ops::mentions(
            combined(primary, cleanup)->Err_0,
            primary->Err_0,
        ),
        cleanup is Err ==> crate::text_ops::mentions(
            combined(primary, cleanup)->Err_0,
            cleanup->Err_0,
        ),
{
    if primary is Err {
        let text = combined(primary, cleanup)->Err_0;
        let part = primary->Err_0;
        assert(text.subrange(0, 0int + part.len()) =~= part);
    }
    if cleanup is Err {
        let text = combined(primary, cleanup)->Err_0;
        let part = cleanup->Err_0;
        let at = text.len() - part.len();
        assert(text.subrange(at, at + part.len()) =~= part);
    }
}

/// Stopping a pipeline: it is sent to the null state and to no other, whatever
/// came before, and both results are kept.
pub fn stop_pipeline_with<F: Fn(PipelineState) -> Result<(), String>>(
    primary: Result<(), String>,
    set_state: &F,
) -> (result: Result<(), String>)
    requires
        call_requires(set_state, (PipelineState::Null,)),
    ensures
        exists|stopped: Result<(), String>| #[trigger]
            call_ensures(set_state, (PipelineState::Null,), stopped) && told(result) == combined(
                told(primary),
                told(stopped),
            ),
{
    let stopped = set_state(PipelineState::Null);
    combine_pipeline_results(primary, stopped)
}

/// Starting a pipeline. Only where that fails, it is sent to the null state,
/// and both results are kept; one that plays is left playing.
pub fn start_pipeline_with<F: Fn(PipelineState) -> Result<(), String>>(
    set_state: &F,
) -> (result: Result<(), String>)
    requires
        call_requires(set_state, (PipelineState::Playing,)),
        forall|error: String| #[trigger]
            call_ensures(set_state, (PipelineState::Playing,), Err::<(), String>(error))
                ==> call_requires(set_state, (PipelineState::Null,)),
    ensures
        exists|started: Result<(), String>| #[trigger]
            call_ensures(set_state, (PipelineState::Playing,), started) && match started {
                Ok(()) => result is Ok,
                Err(error) => exists|stopped: Result<(), String>| #[trigger]
                    call_ensures(set_state, (PipelineState::Null,), stopped) && told(result)
                        == combined(Err(error@), told(stopped)),
            },
{
    let started = set_state(PipelineState::Playing);
    match started {
        Ok(()) => Ok(()),
        Err(error) => stop_pipeline_with(Err(error), set_state),
    }
}

/// A timed run goes on before its deadline and while its window, if it has
/// one, is open.
pub fn timed_pipeline_should_continue(
    before_deadline: bool,
    playback_alive: Option<bool>,
) -> (go_on: bool)
    ensures
        go_on == (before_deadline && playback_alive != Some(false)),
{
    before_deadline && !matches!(playback_alive, Some(false))
}

/// What a timed run is to do.
#[derive(Debug, Clone, Copy, PartialEq, Eq, Structural)]
pub enum RunPhase {
    SetPlaying,
    /// Look at the clock and at the window.
    Check,
    /// Wait for a message on the bus.
    Pop,
    /// Send an end of stream, so that muxers finish their file, and wait for
    /// it to arrive.
    Flush,
    /// Shut down the workers around the pipeline.
    Shutdown,
    SetNull,
    Done,
}

/// What came of it.
#[derive(Debug)]
pub enum RunEvent {
    StateSet(Result<(), String>),
    Checked { before_deadline: bool, playback_alive: Option<bool> },
    Popped(Option<BusMessage>),
    Flushed,
    ShutDown(Result<(), String>),
}

/// A timed run and its result so far.
#[derive(Debug)]
pub struct TimedRun {
    pub phase: RunPhase,
    pub result: Result<(), String>,
}

/// The next phase. An event that does not fit the phase changes nothing.
pub open spec fn phase_after(phase: RunPhase, event: RunEvent) -> RunPhase {
    match (phase, event) {
        (RunPhase::SetPlaying, RunEvent::StateSet(Ok(()))) => RunPhase::Check,
        (RunPhase::SetPlaying, RunEvent::StateSet(Err(_))) => RunPhase::Shutdown,
        (RunPhase::Check, RunEvent::Checked { before_deadline, playback_alive }) => {
            if before_deadline && playback_alive != Some(false) {
                RunPhase::Pop
            } else {
                RunPhase::Flush
            }
        },
        (RunPhase::Pop, RunEvent::Popped(Some(BusMessage::Error { .. }))) => RunPhase::Flush,
        (RunPhase::Pop, RunEvent::Popped(Some(BusMessage::EndOfStream))) => RunPhase::Flush,
        (RunPhase::Pop, RunEvent::Popped(_)) => RunPhase::Check,
        (RunPhase::Flush, RunEvent::Flushed) => RunPhase::Shutdown,
        (RunPhase::Shutdown, RunEvent::ShutDown(_)) => RunPhase::SetNull,
        (RunPhase::SetNull, RunEvent::StateSet(_)) => RunPhase::Done,
        _ => phase,
    }
}

/// The result after an event.
pub open spec fn result_after(
    phase: RunPhase,
    result: Result<(), Seq<char>>,
    event: RunEvent,
) -> Result<(), Seq<char>> {
    match (phase, event) {
        (RunPhase::SetPlaying, RunEvent::StateSet(set)) => told(set),
        (RunPhase::Pop, RunEvent::Popped(Some(BusMessage::Error { error, debug }))) => Err(
            bus_error_text(error@, debug@),
        ),
        (RunPhase::Shutdown, RunEvent::ShutDown(shut_down)) => combined(result, told(shut_down)),
        (RunPhase::SetNull, RunEvent::StateSet(set)) => combined(result, told(set)),
        _ => result,
    }
}

impl TimedRun {
    pub fn new() -> (run: Self)
        ensures
            run.phase == RunPhase::SetPlaying,
            run.result is Ok,
    {
        TimedRun { phase: RunPhase::SetPlaying, result: Ok(()) }
    }
}

/// One step of a timed run.
pub fn run_pipeline(run: TimedRun, event: RunEvent) -> (next: TimedRun)
    ensures
        next.phase == phase_after(run.phase, event),
        told(next.result) == result_after(run.phase, told(run.result), event),
{
    match (run.phase, event) {
        (RunPhase::SetPlaying, RunEvent::StateSet(Ok(()))) => TimedRun {
            phase: RunPhase::Check,
            result: Ok(()),
        },
        (RunPhase::SetPlaying, RunEvent::StateSet(Err(error))) => TimedRun {
            phase: RunPhase::Shutdown,
            result: Err(error),
        },
        (RunPhase::Check, RunEvent::Checked { before_deadline, playback_alive }) => {
            if timed_pipeline_should_continue(before_deadline, playback_alive) {
                TimedRun { phase: RunPhase::Pop, result: run.result }
            } else {
                TimedRun { phase: RunPhase::Flush, result: run.result }
            }
        },
        (RunPhase::Pop, RunEvent::Popped(Some(BusMessage::Error { error, debug }))) => TimedRun {
            phase: RunPhase::Flush,
            result: Err(bus_error(error.as_str(), debug.as_str())),
        },
        (RunPhase::Pop, RunEvent::Popped(Some(BusMessage::EndOfStream))) => TimedRun {
            phase: RunPhase::Flush,
            result: run.result,
        },
        (RunPhase::Pop, RunEvent::Popped(_)) => TimedRun {
            phase: RunPhase::Check,
            result: run.result,
        },
        (RunPhase::Flush, RunEvent::Flushed) => TimedRun {
            phase: RunPhase::Shutdown,
            result: run.result,
        },
        (RunPhase::Shutdown, RunEvent::ShutDown(shut_down)) => TimedRun {
            phase: RunPhase::SetNull,
            result: combine_pipeline_results(run.result, shut_down),
        },
        (RunPhase::SetNull, RunEvent::StateSet(set)) => TimedRun {
            phase: RunPhase::Done,
            result: combine_pipeline_results(run.result, set),
        },
        (phase, _) => TimedRun { phase, result: run.result },
    }
}

/// The phase that a run of events leads to.
pub open spec fn phase_reached(events: Seq<RunEvent>) -> RunPhase
    decreases events.len(),
{
    if events.len() == 0 {
        RunPhase::SetPlaying
    } else {
        phase_after(phase_reached(events.drop_last()), events.last())
    }
}

/// A run that is done has shut its workers down and then set the pipeline to
/// null, in that order, whether or not it ever played.
pub proof fn done_means_shut_down_then_null(events: Seq<RunEvent>)
    requires
        phase_reached(events) is Done,
    ensures
        exists|a: int, b: int|
            0 <= a < b < events.len() && #[trigger] phase_reached(events.take(a)) is Shutdown
                && events[a] is ShutDown && #[trigger] phase_reached(events.take(b)) is SetNull
                && events[b] is StateSet,
    decreases events.len(),
{
    let rest = events.drop_last();
    if phase_reached(rest) is Done {
        done_means_shut_down_then_null(rest);
        let (a, b) = choose|a: int, b: int|
            0 <= a < b < rest.len() && #[trigger] phase_reached(rest.take(a)) is Shutdown
                && rest[a] is ShutDown && #[trigger] phase_reached(rest.take(b)) is SetNull
                && rest[b] is StateSet;
        assert(rest.take(a) =~= events.take(a));
        assert(rest.take(b) =~= events.take(b));
    } else {
        let n = events.len() - 1;
        assert(rest =~= events.take(n));
        lemma_null_after_shutdown(rest);
        let a = choose|a: int|
            0 <= a < rest.len() && #[trigger] phase_reached(rest.take(a)) is Shutdown && rest[a]
                is ShutDown;
        assert(rest.take(a) =~= events.take(a));
        assert(phase_reached(events.take(n)) is SetNull);
    }
}

proof fn lemma_null_after_shutdown(events: Seq<RunEvent>)
    requires
        phase_reached(events) is SetNull,
    ensures
        exists|a: int|
            0 <= a < events.len() && #[trigger] phase_reached(events.take(a)) is Shutdown
                && events[a] is ShutDown,
    decreases events.len(),
{
    let rest = events.drop_last();
    if phase_reached(rest) is SetNull {
        lemma_null_after_shutdown(rest);
        let a = choose|a: int|
            0 <= a < rest.len() && #[trigger] phase_reached(rest.take(a)) is Shutdown && rest[a]
                is ShutDown;
        assert(rest.take(a) =~= events.take(a));
    } else {
        assert(rest =~= events.take(events.len() - 1));
        assert(phase_reached(events.take(events.len() - 1)) is Shutdown);
    }
}

/// How watching a pipeline goes on that runs until its window is closed.
#[derive(Debug)]
pub enum WatchStep {
    Continue,
    Stop(Result<(), String>),
}

/// Takes a message while the window was open. An error that arrives once the
/// window is gone is the window's own teardown and is not reported.
pub fn run_until_closed(message: &BusMessage, playback_alive: bool) -> (step: WatchStep)
    ensures
        match *message {
            BusMessage::Error { error, debug } => step is Stop && told(step->Stop_0) == (
            if playback_alive {
                Err(bus_error_text(error@, debug@))
            } else {
                Ok(())
            }),
            BusMessage::EndOfStream => step == WatchStep::Stop(Ok(())),
            _ => step is Continue,
        },
{
    match message {
        BusMessage::Error { error, debug } => {
            if playback_alive {
                WatchStep::Stop(Err(bus_error(error.as_str(), debug.as_str())))
            } else {
                WatchStep::Stop(Ok(()))
            }
        },
        BusMessage::EndOfStream => WatchStep::Stop(Ok(())),
        _ => WatchStep::Continue,
    }
}

} // verus!
