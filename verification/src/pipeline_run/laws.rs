//! How a pipeline's run goes and what is told of it.

use vstd::prelude::*;
use vstd::string::*;

use super::{BusMessage, PipelineState, RunEvent, RunPhase, WatchStep};
use crate::pipeline_run;
use crate::text_ops;

verus! {

/// Stopping really stops: where the null state cannot be reached, the stop
/// fails with that error, and where it is always reached, what came before is
/// told as it was.
pub proof fn stop_needs_the_null_state<F: Fn(PipelineState) -> Result<(), String>>(
    primary: Result<(), String>,
    set_state: F,
    result: Result<(), String>,
    error: Seq<char>,
)
    requires
        call_ensures(
            pipeline_run::stop_pipeline_with::<F>,
            (primary, &set_state),
            result,
        ),
    ensures
        (forall|reached: Result<(), String>| #[trigger]
            call_ensures(set_state, (PipelineState::Null,), reached) ==> (reached is Err
                && reached->Err_0@ == error)) ==> result is Err && text_ops::closes_with(
            result->Err_0@,
            error,
        ),
        (forall|reached: Result<(), String>| #[trigger]
            call_ensures(set_state, (PipelineState::Null,), reached) ==> reached is Ok) ==> {
            &&& result is Ok <==> primary is Ok
            &&& primary is Err ==> result->Err_0@ == primary->Err_0@
        },
{
    let stopped = choose|stopped: Result<(), String>| #[trigger]
        call_ensures(set_state, (PipelineState::Null,), stopped) && pipeline_run::told(result)
            == pipeline_run::combined(pipeline_run::told(primary), pipeline_run::told(stopped));
    if stopped is Err && stopped->Err_0@ == error {
        let text = result->Err_0@;
        assert(text.skip(text.len() - error.len()) =~= error);
    }
}

/// Starting means playing: where that is always reached, the start succeeds,
/// and where it never is, the start fails with that error first, and the
/// pipeline is stopped.
pub proof fn start_needs_the_playing_state<F: Fn(PipelineState) -> Result<(), String>>(
    set_state: F,
    result: Result<(), String>,
    error: Seq<char>,
)
    requires
        call_ensures(pipeline_run::start_pipeline_with::<F>, (&set_state,), result),
    ensures
        (forall|reached: Result<(), String>| #[trigger]
            call_ensures(set_state, (PipelineState::Playing,), reached) ==> reached is Ok)
            ==> result is Ok,
        (forall|reached: Result<(), String>| #[trigger]
            call_ensures(set_state, (PipelineState::Playing,), reached) ==> (reached is Err
                && reached->Err_0@ == error)) ==> {
            &&& result is Err && text_ops::begins_with(result->Err_0@, error)
            &&& exists|stopped: Result<(), String>| #[trigger]
                call_ensures(set_state, (PipelineState::Null,), stopped)
        },
{
    let started = choose|started: Result<(), String>| #[trigger]
        call_ensures(set_state, (PipelineState::Playing,), started) && match started {
            Ok(()) => result is Ok,
            Err(error) => exists|stopped: Result<(), String>| #[trigger]
                call_ensures(set_state, (PipelineState::Null,), stopped) && pipeline_run::told(
                    result,
                ) == pipeline_run::combined(Err(error@), pipeline_run::told(stopped)),
        };
    if started is Err && started->Err_0@ == error {
        let text = result->Err_0@;
        assert(text.take(error.len() as int) =~= error);
    }
}

/// A pipeline that plays is looked after until its time is over or its window
/// is closed; both end it the orderly way, by a flush.
pub proof fn run_lasts_as_long_as_it_should(
    before_deadline: bool,
    playback_alive: Option<bool>,
)
    ensures
        ({
            let event = RunEvent::Checked { before_deadline, playback_alive };
            let next = pipeline_run::phase_after(RunPhase::Check, event);
            &&& before_deadline && playback_alive is None ==> next == RunPhase::Pop
            &&& before_deadline && playback_alive == Some(true) ==> next == RunPhase::Pop
            &&& !before_deadline ==> next == RunPhase::Flush
            &&& playback_alive == Some(false) ==> next == RunPhase::Flush
        }),
        pipeline_run::phase_after(RunPhase::SetPlaying, RunEvent::StateSet(Ok(())))
            == RunPhase::Check,
{
}

/// Of the messages only an error and the end of the stream end a run; after
/// any other, and after none, the run looks at its time again.
pub proof fn only_error_and_end_stop_a_run(message: Option<BusMessage>)
    ensures
        ({
            let next = pipeline_run::phase_after(RunPhase::Pop, RunEvent::Popped(message));
            &&& message is None ==> next == RunPhase::Check
            &&& message is Some && (message->0 is Error || message->0 is EndOfStream) ==> next
                == RunPhase::Flush
            &&& message is Some && (message->0 is StateChanged || message->0 is Other) ==> next
                == RunPhase::Check
        }),
{
}

/// Whatever a run met, its workers are shut down and the pipeline is set to
/// null before it is done; a run that played is flushed first.
pub proof fn run_ends_in_order(result: Result<(), String>, error: String)
    ensures
        pipeline_run::phase_after(RunPhase::Flush, RunEvent::Flushed) == RunPhase::Shutdown,
        pipeline_run::phase_after(RunPhase::Shutdown, RunEvent::ShutDown(result))
            == RunPhase::SetNull,
        pipeline_run::phase_after(RunPhase::SetNull, RunEvent::StateSet(result)) == RunPhase::Done,
        pipeline_run::phase_after(RunPhase::SetPlaying, RunEvent::StateSet(Err(error)))
            == RunPhase::Shutdown,
{
}

/// What a run reports: an error of the bus with its details, an error of the
/// start, of the shutdown and of the last state; nothing else makes it fail.
pub proof fn run_reports_what_it_met(
    phase: RunPhase,
    result: Result<(), Seq<char>>,
    error: String,
    debug: String,
    event: RunEvent,
)
    ensures
        ({
            let seen = RunEvent::Popped(Some(BusMessage::Error { error, debug }));
            let told = pipeline_run::result_after(RunPhase::Pop, result, seen);
            told is Err && told->Err_0 == error@ + " ("@ + debug@ + ")"@
        }),
        ({
            let failed = RunEvent::StateSet(Err(error));
            let start = pipeline_run::result_after(RunPhase::SetPlaying, result, failed);
            let stop = pipeline_run::result_after(RunPhase::SetNull, result, failed);
            let shut = RunEvent::ShutDown(Err(error));
            let down = pipeline_run::result_after(RunPhase::Shutdown, result, shut);
            &&& start is Err && start->Err_0 == error@
            &&& stop is Err && down is Err && stop->Err_0 == down->Err_0
            &&& result is Ok ==> stop->Err_0 == error@
            &&& result is Err ==> stop->Err_0 == result->Err_0 + "; "@ + error@
        }),
        result is Ok && (event is Checked || event is Flushed) ==> pipeline_run::result_after(
            phase,
            result,
            event,
        ) is Ok,
        result is Ok && (event matches RunEvent::StateSet(set) && set is Ok)
            ==> pipeline_run::result_after(phase, result, event) is Ok,
        result is Err && phase !is SetPlaying ==> pipeline_run::result_after(phase, result, event)
            is Err,
{
}

/// A pipeline in a window goes on until an error or the end of its stream. An
/// error counts while the window is open, and is told with its details.
pub proof fn window_runs_until_it_is_closed(message: BusMessage, alive: bool, step: WatchStep)
    requires
        call_ensures(pipeline_run::run_until_closed, (&message, alive), step),
    ensures
        step is Continue <==> message is StateChanged || message is Other,
        message is EndOfStream ==> (step is Stop && step->Stop_0 is Ok),
        message is Error && !alive ==> (step is Stop && step->Stop_0 is Ok),
        message matches BusMessage::Error { error, debug } ==> (alive ==> {
            &&& step is Stop && step->Stop_0 is Err
            &&& step->Stop_0->Err_0@ == error@ + " ("@ + debug@ + ")"@
        }),
{
}

/// A timed run ends at its deadline or with its window, whichever is first; a
/// run without a window has only the deadline.
pub proof fn deadline_and_window_end_a_timed_run(
    before_deadline: bool,
    alive: Option<bool>,
    go_on: bool,
)
    requires
        call_ensures(
            pipeline_run::timed_pipeline_should_continue,
            (before_deadline, alive),
            go_on,
        ),
    ensures
        !before_deadline ==> !go_on,
        alive == Some(false) ==> !go_on,
        before_deadline && alive is None ==> go_on,
        before_deadline && alive == Some(true) ==> go_on,
{
}

} // verus!
