//! The UI-facing controller: the single owner of "is a build running",
//! routing progress events into the bounded log and telling the runtime
//! which process-level action to perform.

use vstd::prelude::*;
use crate::progress::BuilderProgress;
use crate::sink::{record_model, BoundedLog};

verus! {

/// How many log entries are retained until the user changes the bound.
pub const DEFAULT_OUTPUT_LINES: usize = 200;

/// What the runtime must do after the controller handled a message.
#[derive(Debug, Clone, Copy, PartialEq, Eq, Structural)]
pub enum Action {
    /// Nothing process-related to do.
    DoNothing,
    /// Abort any previous run (killing its child process) and spawn exactly
    /// one new builder child process.
    SpawnBuilder,
    /// Kill the supervised child process, if one is live.
    AbortBuilder,
}

/// Abstract count of live supervised child processes once the runtime has
/// performed an action on a system that had `live` of them.
pub open spec fn live_children_after(live: nat, action: Action) -> nat {
    match action {
        Action::DoNothing => live,
        Action::SpawnBuilder => 1,
        Action::AbortBuilder => 0,
    }
}

/// A runtime holding at most one live child still holds at most one after
/// any action the controller returns.
pub proof fn lemma_at_most_one_child(live: nat, action: Action)
    requires
        live <= 1,
    ensures
        live_children_after(live, action) <= 1,
{
}

/// Starting a new run leaves exactly one live child process, whatever was
/// running before: the prior child is killed before the new spawn.
pub proof fn lemma_single_child_after_start(live: nat)
    ensures
        live_children_after(live, Action::SpawnBuilder) == 1,
{
}

/// After a cancellation no child process remains live.
pub proof fn lemma_no_child_after_abort(live: nat)
    ensures
        live_children_after(live, Action::AbortBuilder) == 0,
{
}

/// Messages the controller handles.
#[derive(Debug, PartialEq, Eq)]
pub enum BuilderMessage {
    /// One progress event from the running build, or the message of a spawn
    /// failure delivered as the error of the event stream.
    Communication(Result<BuilderProgress, String>),
    /// The user asked to start the builder.
    StartBinary,
    /// The user asked to stop the builder.
    StopBinary,
    /// The user changed how many output lines are retained.
    SetOutputLines(usize),
}

/// The progress event a communication carries: a failed stream surfaces its
/// message as a terminal `Error` event.
pub open spec fn com_progress(res: Result<BuilderProgress, String>) -> BuilderProgress {
    match res {
        Ok(p) => p,
        Err(e) => BuilderProgress::Error(e),
    }
}

/// The text under which an event appears in the log.
pub open spec fn event_text(p: BuilderProgress) -> Seq<char> {
    match p {
        BuilderProgress::Running(s) => s@,
        BuilderProgress::Done => "finished running builder binary"@,
        BuilderProgress::Error(s) => s@,
        BuilderProgress::Inactive => Seq::<char>::empty(),
    }
}

/// Whether an event ends the run.
pub open spec fn event_terminal(p: BuilderProgress) -> bool {
    ||| p is Done
    ||| p is Error
}

/// The controller's run state: the running flag and the bounded log shown
/// to the user.
pub struct State {
    /// Whether a build is currently supervised.
    pub is_running: bool,
    /// The retained progress text.
    pub log: BoundedLog,
}

impl State {
    /// The state right after a new run was requested: running, with an empty
    /// log at the default capacity.
    pub fn new() -> (s: State)
        ensures
            s.is_running,
            s.log@ =~= Seq::<Seq<char>>::empty(),
            s.log.cap() == DEFAULT_OUTPUT_LINES,
    {
        State { is_running: true, log: BoundedLog::new(DEFAULT_OUTPUT_LINES) }
    }
}

impl Default for State {
    /// The state before any run: not running, empty log at the default
    /// capacity.
    fn default() -> (s: State)
        ensures
            !s.is_running,
            s.log@ =~= Seq::<Seq<char>>::empty(),
            s.log.cap() == DEFAULT_OUTPUT_LINES,
    {
        State { is_running: false, log: BoundedLog::new(DEFAULT_OUTPUT_LINES) }
    }
}

/// The UI-facing controller around one builder run.
pub struct Builder {
    /// The run state the view renders.
    pub state: State,
}

impl Builder {
    /// A controller with no run active.
    pub fn new() -> (b: Builder)
        ensures
            !b.state.is_running,
            b.state.log@ =~= Seq::<Seq<char>>::empty(),
            b.state.log.cap() == DEFAULT_OUTPUT_LINES,
    {
        Builder { state: State::default() }
    }

    /// Handle one message and say which process-level action the runtime
    /// must perform.
    ///
    /// A terminal event (`Done` or `Error`) clears the running flag; every
    /// event's text is recorded in the bounded log. Starting resets the
    /// state to a fresh running one; stopping only clears the running flag
    /// (cancelling an already-finished run changes nothing).
    pub fn update(&mut self, message: BuilderMessage) -> (action: Action)
        ensures
            ({
                let st_old = old(self).state;
                let st_new = final(self).state;
                match message {
                    BuilderMessage::Communication(res) => {
                        let p = com_progress(res);
                        &&& action is DoNothing
                        &&& st_new.log@ == record_model(
                            st_old.log@,
                            st_old.log.cap(),
                            event_text(p),
                        )
                        &&& st_new.log.cap() == st_old.log.cap()
                        &&& st_new.is_running == (st_old.is_running && !event_terminal(p))
                    },
                    BuilderMessage::StartBinary => {
                        &&& action is SpawnBuilder
                        &&& st_new.is_running
                        &&& st_new.log@ =~= Seq::<Seq<char>>::empty()
                        &&& st_new.log.cap() == DEFAULT_OUTPUT_LINES
                    },
                    BuilderMessage::StopBinary => {
                        &&& action is AbortBuilder
                        &&& !st_new.is_running
                        &&& st_new.log == st_old.log
                        &&& (!st_old.is_running ==> st_new == st_old)
                    },
                    BuilderMessage::SetOutputLines(n) => {
                        &&& action is DoNothing
                        &&& st_new.log@ == st_old.log@
                        &&& st_new.log.cap() == n
                        &&& st_new.is_running == st_old.is_running
                    },
                }
            }),
    {
        match message {
            BuilderMessage::Communication(res) => {
                let progress = match res {
                    Ok(p) => p,
                    Err(e) => BuilderProgress::Error(e),
                };
                let text: String = match progress {
                    BuilderProgress::Running(s) => s,
                    BuilderProgress::Done => {
                        self.state.is_running = false;
                        "finished running builder binary".to_owned()
                    },
                    BuilderProgress::Error(s) => {
                        self.state.is_running = false;
                        s
                    },
                    BuilderProgress::Inactive => String::new(),
                };
                self.state.log.record(text);
                Action::DoNothing
            },
            BuilderMessage::StartBinary => {
                self.state = State::new();
                Action::SpawnBuilder
            },
            BuilderMessage::StopBinary => {
                self.state.is_running = false;
                Action::AbortBuilder
            },
            BuilderMessage::SetOutputLines(n) => {
                self.state.log.set_capacity(n);
                Action::DoNothing
            },
        }
    }
}

} // verus!
