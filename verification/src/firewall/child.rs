//! A child process that is bounded in time and in output, and that never
//! outlives its run.

use vstd::prelude::*;

verus! {

/// What a bounded run leaves behind.
#[derive(Debug)]
pub struct BoundedRun {
    pub stdout: Vec<u8>,
    /// The child did not exit by itself.
    pub timed_out: bool,
    /// A stream was cut off or could not be followed to its end. Output that
    /// is truncated may still parse, as something smaller and wrong.
    pub truncated: bool,
    pub exit_code: Option<i32>,
}

/// What asking the child for its state gave.
#[derive(Debug, Clone, Copy, PartialEq, Eq, Structural)]
pub enum ChildPoll {
    Exited(Option<i32>),
    Running,
    Unreadable,
}

/// What the supervisor is to do.
#[derive(Debug, Clone, Copy, PartialEq, Eq, Structural)]
pub enum ChildState {
    /// Ask whether the work is still wanted, before anything is started.
    AskBeforeStart,
    Spawn,
    CreateJob,
    AssignJob,
    /// Kill and reap a child that was given no input.
    Discard,
    /// Start the readers, then the writer.
    StartPipes,
    /// Ask whether the work is still wanted.
    AskAgain,
    Poll,
    /// Compare the clock with the deadline.
    CheckClock,
    Sleep,
    /// Kill the child and wait for it.
    Kill,
    /// Close the job, which ends every process in it, and reap the child.
    Stop { timed_out: bool, exit_code: Option<i32> },
    /// Nothing was run, or nothing that counts.
    Unstarted,
    /// The pipes can be collected.
    Stopped { timed_out: bool, exit_code: Option<i32> },
}

/// What the supervisor found.
#[derive(Debug, Clone, Copy, PartialEq, Eq, Structural)]
pub enum ChildEvent {
    /// Yes or no: to a question, or whether an action succeeded.
    Answer(bool),
    /// The action is done.
    Done,
    Polled(ChildPoll),
    /// The exit status after a kill, where there is one.
    Reaped(Option<i32>),
}

/// The next state. An event that does not fit the state changes nothing.
pub open spec fn child_after(state: ChildState, event: ChildEvent) -> ChildState {
    match (state, event) {
        (ChildState::AskBeforeStart, ChildEvent::Answer(wanted)) => if wanted {
            ChildState::Spawn
        } else {
            ChildState::Unstarted
        },
        (ChildState::Spawn, ChildEvent::Answer(spawned)) => if spawned {
            ChildState::CreateJob
        } else {
            ChildState::Unstarted
        },
        (ChildState::CreateJob, ChildEvent::Answer(created)) => if created {
            ChildState::AssignJob
        } else {
            ChildState::Discard
        },
        (ChildState::AssignJob, ChildEvent::Answer(assigned)) => if assigned {
            ChildState::StartPipes
        } else {
            ChildState::Discard
        },
        (ChildState::Discard, ChildEvent::Done) => ChildState::Unstarted,
        (ChildState::StartPipes, ChildEvent::Done) => ChildState::AskAgain,
        (ChildState::AskAgain, ChildEvent::Answer(wanted)) => if wanted {
            ChildState::Poll
        } else {
            ChildState::Kill
        },
        (ChildState::Poll, ChildEvent::Polled(ChildPoll::Exited(exit_code))) => ChildState::Stop {
            timed_out: false,
            exit_code,
        },
        (ChildState::Poll, ChildEvent::Polled(ChildPoll::Running)) => ChildState::CheckClock,
        (ChildState::Poll, ChildEvent::Polled(ChildPoll::Unreadable)) => ChildState::Kill,
        (ChildState::CheckClock, ChildEvent::Answer(before_deadline)) => if before_deadline {
            ChildState::Sleep
        } else {
            ChildState::Kill
        },
        (ChildState::Sleep, ChildEvent::Done) => ChildState::AskAgain,
        (ChildState::Kill, ChildEvent::Reaped(exit_code)) => ChildState::Stop {
            timed_out: true,
            exit_code,
        },
        (ChildState::Stop { timed_out, exit_code }, ChildEvent::Done) => ChildState::Stopped {
            timed_out,
            exit_code,
        },
        _ => state,
    }
}

/// One step of a bounded run.
pub fn run_bounded_while(state: ChildState, event: ChildEvent) -> (next: ChildState)
    ensures
        next == child_after(state, event),
{
    match (state, event) {
        (ChildState::AskBeforeStart, ChildEvent::Answer(wanted)) => if wanted {
            ChildState::Spawn
        } else {
            ChildState::Unstarted
        },
        (ChildState::Spawn, ChildEvent::Answer(spawned)) => if spawned {
            ChildState::CreateJob
        } else {
            ChildState::Unstarted
        },
        (ChildState::CreateJob, ChildEvent::Answer(created)) => if created {
            ChildState::AssignJob
        } else {
            ChildState::Discard
        },
        (ChildState::AssignJob, ChildEvent::Answer(assigned)) => if assigned {
            ChildState::StartPipes
        } else {
            ChildState::Discard
        },
        (ChildState::Discard, ChildEvent::Done) => ChildState::Unstarted,
        (ChildState::StartPipes, ChildEvent::Done) => ChildState::AskAgain,
        (ChildState::AskAgain, ChildEvent::Answer(wanted)) => if wanted {
            ChildState::Poll
        } else {
            ChildState::Kill
        },
        (ChildState::Poll, ChildEvent::Polled(ChildPoll::Exited(exit_code))) => ChildState::Stop {
            timed_out: false,
            exit_code,
        },
        (ChildState::Poll, ChildEvent::Polled(ChildPoll::Running)) => ChildState::CheckClock,
        (ChildState::Poll, ChildEvent::Polled(ChildPoll::Unreadable)) => ChildState::Kill,
        (ChildState::CheckClock, ChildEvent::Answer(before_deadline)) => if before_deadline {
            ChildState::Sleep
        } else {
            ChildState::Kill
        },
        (ChildState::Sleep, ChildEvent::Done) => ChildState::AskAgain,
        (ChildState::Kill, ChildEvent::Reaped(exit_code)) => ChildState::Stop {
            timed_out: true,
            exit_code,
        },
        (ChildState::Stop { timed_out, exit_code }, ChildEvent::Done) => ChildState::Stopped {
            timed_out,
            exit_code,
        },
        _ => state,
    }
}

/// What the streams of a stopped child gave.
#[derive(Debug)]
pub struct Streams {
    /// Whether all input was written, where the writer ended.
    pub written: Option<bool>,
    /// The retained output and whether more came, where the reader ended.
    pub stdout: Option<(Vec<u8>, bool)>,
    /// Whether the error stream was cut off, where its reader ended.
    pub stderr_truncated: Option<bool>,
}

/// Something of the streams is missing.
pub open spec fn incomplete(streams: Streams) -> bool {
    ||| streams.written != Some(true)
    ||| streams.stdout is None
    ||| streams.stdout.unwrap().1
    ||| streams.stderr_truncated != Some(false)
}

/// The run as it is reported, from the state in which it ended.
pub fn bounded_run(state: ChildState, streams: Streams) -> (run: BoundedRun)
    requires
        state is Unstarted || state is Stopped,
    ensures
        match state {
            ChildState::Stopped { timed_out, exit_code } => {
                &&& run.timed_out == timed_out
                &&& run.exit_code == exit_code
                &&& run.truncated == incomplete(streams)
                &&& run.stdout@ == (match streams.stdout {
                    Some((bytes, _)) => bytes@,
                    None => Seq::empty(),
                })
            },
            _ => {
                &&& run.stdout@.len() == 0
                &&& !run.timed_out
                &&& !run.truncated
                &&& run.exit_code is None
            },
        },
{
    match state {
        ChildState::Stopped { timed_out, exit_code } => {
            let written = matches!(streams.written, Some(true));
            let stderr_whole = matches!(streams.stderr_truncated, Some(false));
            match streams.stdout {
                Some((stdout, cut)) => BoundedRun {
                    stdout,
                    timed_out,
                    truncated: !written || cut || !stderr_whole,
                    exit_code,
                },
                None => BoundedRun { stdout: Vec::new(), timed_out, truncated: true, exit_code },
            }
        },
        _ => BoundedRun { stdout: Vec::new(), timed_out: false, truncated: false, exit_code: None },
    }
}

/// The part of a stream that is kept: at most `cap` bytes, and whether more
/// came.
#[derive(Debug)]
pub struct BoundedBuffer {
    pub kept: Vec<u8>,
    pub truncated: bool,
    pub cap: usize,
}

impl BoundedBuffer {
    /// The buffer holds what a stream of the bytes `stream` leaves in it.
    pub open spec fn holds(&self, stream: Seq<u8>) -> bool {
        &&& self.kept@ == stream.take(if stream.len() < self.cap {
            stream.len() as int
        } else {
            self.cap as int
        })
        &&& self.truncated == (stream.len() > self.cap)
    }

    pub fn new(cap: usize) -> (buffer: Self)
        ensures
            buffer.cap == cap,
            buffer.holds(Seq::empty()),
    {
        let buffer = BoundedBuffer { kept: Vec::new(), truncated: false, cap };
        proof {
            assert(buffer.kept@ =~= Seq::<u8>::empty().take(0));
        }
        buffer
    }

    /// Takes the next bytes of the stream. What is beyond the cap is dropped,
    /// and remembered to have been there.
    pub fn bounded_reader(&mut self, chunk: &[u8])
        ensures
            final(self).cap == old(self).cap,
            forall|stream: Seq<u8>|
                #[trigger] old(self).holds(stream) ==> final(self).holds(stream + chunk@),
    {
        let ghost before = *self;
        let room: usize = if self.kept.len() < self.cap {
            self.cap - self.kept.len()
        } else {
            0
        };
        let take: usize = if chunk.len() < room {
            chunk.len()
        } else {
            room
        };
        let mut i: usize = 0;
        while i < take
            invariant
                i <= take <= chunk@.len(),
                self.cap == before.cap,
                self.truncated == before.truncated,
                self.kept@ == before.kept@ + chunk@.take(i as int),
            decreases take - i,
        {
            self.kept.push(chunk[i]);
            i += 1;
            proof {
                assert(self.kept@ =~= before.kept@ + chunk@.take(i as int));
            }
        }
        if take < chunk.len() {
            self.truncated = true;
        }
        proof {
            assert forall|stream: Seq<u8>| #[trigger] before.holds(stream) implies self.holds(
                stream + chunk@,
            ) by {
                let whole = stream + chunk@;
                let length = if whole.len() < self.cap {
                    whole.len() as int
                } else {
                    self.cap as int
                };
                assert(self.kept@ =~= whole.take(length));
            }
        }
    }
}

/// How the wait for a pipe's worker goes on.
#[derive(Debug, Clone, Copy, PartialEq, Eq, Structural)]
pub enum PipeWait {
    Join,
    Sleep,
    Abort,
}

/// A worker that is still busy at the deadline must not be left behind.
pub fn pipe_wait(finished: bool, now_ms: u64, deadline_ms: u64) -> (wait: PipeWait)
    ensures
        wait == (if finished {
            PipeWait::Join
        } else if now_ms >= deadline_ms {
            PipeWait::Abort
        } else {
            PipeWait::Sleep
        }),
{
    if finished {
        PipeWait::Join
    } else if now_ms >= deadline_ms {
        PipeWait::Abort
    } else {
        PipeWait::Sleep
    }
}

/// A child process exists in this state.
pub open spec fn child_exists(state: ChildState) -> bool {
    match state {
        ChildState::AskBeforeStart
        | ChildState::Spawn
        | ChildState::Unstarted
        | ChildState::Stopped { .. } => false,
        _ => true,
    }
}

/// The child was given its input.
pub open spec fn child_has_input(state: ChildState) -> bool {
    match state {
        ChildState::AskAgain
        | ChildState::Poll
        | ChildState::CheckClock
        | ChildState::Sleep
        | ChildState::Kill
        | ChildState::Stop { .. } => true,
        _ => false,
    }
}

/// The state that a run of events leads to.
pub open spec fn child_run(events: Seq<ChildEvent>) -> ChildState
    decreases events.len(),
{
    if events.len() == 0 {
        ChildState::AskBeforeStart
    } else {
        child_after(child_run(events.drop_last()), events.last())
    }
}

/// A run that is not wanted when it begins never comes to have a child.
pub proof fn unwanted_run_starts_no_child(events: Seq<ChildEvent>)
    requires
        events.len() > 0,
        events[0] == ChildEvent::Answer(false),
    ensures
        child_run(events) is Unstarted,
    decreases events.len(),
{
    if events.len() > 1 {
        unwanted_run_starts_no_child(events.drop_last());
    } else {
        assert(child_run(events.drop_last()) is AskBeforeStart);
    }
}

/// A child comes to exist only by a successful spawn, is given its input only
/// once it was put into the job, and is left only by being discarded or
/// stopped.
pub proof fn child_is_contained(state: ChildState, event: ChildEvent)
    ensures
        !child_exists(state) && child_exists(child_after(state, event)) ==> state is Spawn && event
            == ChildEvent::Answer(true),
        child_after(state, event) is StartPipes && state !is StartPipes ==> state is AssignJob
            && event == ChildEvent::Answer(true),
        child_has_input(child_after(state, event)) && !child_has_input(state) ==> state
            is StartPipes,
        child_exists(state) && !child_exists(child_after(state, event)) ==> state is Discard
            || state is Stop,
{
}

/// A run that ends without a timeout ended because the child exited by itself,
/// and reports that child's own exit code.
pub proof fn in_time_means_the_child_exited(events: Seq<ChildEvent>)
    requires
        child_run(events) matches ChildState::Stopped { timed_out, .. } && !timed_out,
    ensures
        exists|k: int|
            0 <= k < events.len() && #[trigger] child_run(events.take(k)) is Poll && events[k]
                == ChildEvent::Polled(ChildPoll::Exited(child_run(events)->Stopped_exit_code)),
{
    lemma_untimed(events);
}

proof fn lemma_untimed(events: Seq<ChildEvent>)
    requires
        child_run(events) matches ChildState::Stopped { timed_out: false, .. } || child_run(
            events,
        ) matches ChildState::Stop { timed_out: false, .. },
    ensures
        ({
            let code = match child_run(events) {
                ChildState::Stopped { exit_code, .. } => exit_code,
                ChildState::Stop { exit_code, .. } => exit_code,
                _ => None,
            };
            exists|k: int|
                0 <= k < events.len() && #[trigger] child_run(events.take(k)) is Poll && events[k]
                    == ChildEvent::Polled(ChildPoll::Exited(code))
        }),
    decreases events.len(),
{
    let rest = events.drop_last();
    let code = match child_run(events) {
        ChildState::Stopped { exit_code, .. } => exit_code,
        ChildState::Stop { exit_code, .. } => exit_code,
        _ => None,
    };
    if child_run(rest) is Poll {
        assert(rest =~= events.take(events.len() - 1));
        assert(child_run(events.take(events.len() - 1)) is Poll);
    } else {
        lemma_untimed(rest);
        let k = choose|k: int|
            0 <= k < rest.len() && #[trigger] child_run(rest.take(k)) is Poll && rest[k]
                == ChildEvent::Polled(ChildPoll::Exited(code));
        assert(rest.take(k) =~= events.take(k));
        assert(child_run(events.take(k)) is Poll);
    }
}

} // verus!
