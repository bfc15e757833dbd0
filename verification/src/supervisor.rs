//! The spawn-to-exit lifecycle of one builder run, as a state machine whose
//! transitions the surrounding runtime drives: it attempts the OS spawn,
//! reads lines, and reports each outcome here.

use vstd::prelude::*;
use crate::progress::{translate, BuilderProgress, LineRead};

verus! {

/// Where one run stands in its lifecycle.
#[derive(Debug, Clone, Copy, PartialEq, Eq, Structural)]
pub enum SupervisorPhase {
    /// No spawn has been attempted yet.
    Idle,
    /// The spawn of the child process is underway.
    Spawning,
    /// Lines are being consumed from the child's output.
    Streaming,
    /// The completion marker was seen; the run succeeded.
    Completed,
    /// The spawn or a read failed, or the stream ended without the marker.
    Failed,
    /// The run was cancelled before reaching a natural end.
    Cancelled,
}

/// Terminal phases are absorbing: no transition resumes production.
pub open spec fn is_terminal(phase: SupervisorPhase) -> bool {
    ||| phase is Completed
    ||| phase is Failed
    ||| phase is Cancelled
}

/// Supervises exactly one run of the builder process.
pub struct Supervisor {
    phase: SupervisorPhase,
}

impl Supervisor {
    /// The current lifecycle phase.
    pub closed spec fn phase(&self) -> SupervisorPhase {
        self.phase
    }

    /// The current lifecycle phase, for the runtime and the view.
    pub fn current_phase(&self) -> (phase: SupervisorPhase)
        ensures
            phase == self.phase(),
    {
        self.phase
    }

    /// A supervisor for a run that has not started yet.
    pub fn new() -> (s: Self)
        ensures
            s.phase() is Idle,
    {
        Supervisor { phase: SupervisorPhase::Idle }
    }

    /// The runtime is about to attempt the OS spawn.
    pub fn begin_spawn(&mut self)
        requires
            old(self).phase() is Idle,
        ensures
            final(self).phase() is Spawning,
    {
        self.phase = SupervisorPhase::Spawning;
    }

    /// The spawn failed with the given message: the run is over, and the
    /// failure surfaces as exactly one terminal `Error` event.
    pub fn spawn_failed(&mut self, message: String) -> (event: BuilderProgress)
        requires
            old(self).phase() is Spawning,
        ensures
            final(self).phase() is Failed,
            event == BuilderProgress::Error(message),
    {
        self.phase = SupervisorPhase::Failed;
        BuilderProgress::Error(message)
    }

    /// The child process is up and its output pipe is being consumed.
    pub fn spawn_succeeded(&mut self)
        requires
            old(self).phase() is Spawning,
        ensures
            final(self).phase() is Streaming,
    {
        self.phase = SupervisorPhase::Streaming;
    }

    /// One read from the child's output: translate it into progress events
    /// and advance the lifecycle. Production continues only while the phase
    /// stays `Streaming`.
    pub fn on_read(&mut self, read: LineRead) -> (events: Vec<BuilderProgress>)
        requires
            old(self).phase() is Streaming,
        ensures
            (read matches LineRead::Line(line) ==> {
                if crate::progress::line_completes(line@) {
                    &&& events@ =~= seq![
                        BuilderProgress::Running(line),
                        BuilderProgress::Done,
                    ]
                    &&& final(self).phase() is Completed
                } else {
                    &&& events@ =~= seq![BuilderProgress::Running(line)]
                    &&& final(self).phase() is Streaming
                }
            }),
            (read is EndOfStream ==> {
                &&& events@.len() == 1
                &&& (events@[0] matches BuilderProgress::Error(m)
                    && m@ == "Failed to read stdout: reached end of stream"@)
                &&& final(self).phase() is Failed
            }),
            (read is ReadFailure ==> {
                &&& events@.len() == 1
                &&& (events@[0] matches BuilderProgress::Error(m)
                    && m@ == "Failed to read stdout"@)
                &&& final(self).phase() is Failed
            }),
    {
        let end_of_stream = match &read {
            LineRead::Line(_) => false,
            LineRead::EndOfStream => true,
            LineRead::ReadFailure => true,
        };
        let (events, keep_going) = translate(read);
        if end_of_stream {
            self.phase = SupervisorPhase::Failed;
        } else if !keep_going {
            self.phase = SupervisorPhase::Completed;
        }
        events
    }

    /// Cancel the run: a run still in progress becomes `Cancelled`; a run
    /// already in a terminal phase is left untouched (idempotent).
    pub fn cancel(&mut self)
        ensures
            final(self).phase() == if is_terminal(old(self).phase()) {
                old(self).phase()
            } else {
                SupervisorPhase::Cancelled
            },
            is_terminal(final(self).phase()),
    {
        match self.phase {
            SupervisorPhase::Completed => (),
            SupervisorPhase::Failed => (),
            SupervisorPhase::Cancelled => (),
            _ => {
                self.phase = SupervisorPhase::Cancelled;
            }
        }
    }
}

} // verus!
