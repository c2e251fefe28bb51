//! Supervision of the running emulator.
//!
//! The supervisor is a state machine. Each state names one action; the caller
//! performs it (a bounded wait for the emulator, or a kill request) and hands
//! back what came of it as an event, which leads to the next state. The
//! machine itself never blocks, and it starts the emulator only once.

use vstd::prelude::*;
use vstd::string::StringExecFns;
use crate::error::Fatal;
use crate::text::{decimal, decimal_text};

verus! {

/// Milliseconds of one wait while the emulator runs undisturbed.
pub const POLL_MILLIS: u64 = 500;

/// Milliseconds that the emulator is given to exit, once after a termination
/// request and once more after the kill request.
pub const GRACE_MILLIS: u64 = 1000;

/// How the emulator ended, as the operating system tells it.
#[derive(Clone, Copy, Debug, PartialEq, Eq, Structural)]
pub struct ExitStatus {
    /// Whether the emulator reported success.
    pub success: bool,
    /// Its exit code; `None` where a signal ended it.
    pub code: Option<i32>,
}

/// What came of one bounded wait for the emulator.
#[derive(Clone, Copy, Debug, PartialEq, Eq, Structural)]
pub enum WaitOutcome {
    /// The emulator has exited.
    Exited(ExitStatus),
    /// The time ran out and the emulator is still alive.
    TimedOut,
    /// The wait itself failed.
    Failed,
}

/// What came of one kill request.
#[derive(Clone, Copy, Debug, PartialEq, Eq, Structural)]
pub enum KillOutcome {
    /// The request was delivered.
    Delivered,
    /// The operating system called the request invalid: the emulator had
    /// exited between the last wait and the request.
    InvalidInput,
    /// The request failed for any other reason.
    OtherError,
}

/// What the caller hands back after it has performed an action.
#[derive(Clone, Copy, Debug, PartialEq, Eq, Structural)]
pub enum Event {
    /// A wait has returned. `terminating` tells whether a termination request
    /// had been seen by then: the flag is read after the wait, and a request
    /// does not interrupt the wait.
    Waited { outcome: WaitOutcome, terminating: bool },
    /// A kill request has been answered.
    KillAnswered(KillOutcome),
}

/// What the caller is to do next.
#[derive(Clone, Copy, Debug, PartialEq, Eq, Structural)]
pub enum Action {
    /// Wait for the emulator, for at most so many milliseconds.
    Wait { millis: u64 },
    /// Ask the operating system to kill the emulator.
    Kill,
    /// Report the emulator's status and end the run in good order.
    Finish(ExitStatus),
    /// Give the run up.
    Abort(Fatal),
}

/// Where the supervision stands.
#[derive(Clone, Copy, Debug, PartialEq, Eq, Structural)]
pub enum State {
    /// The emulator runs and is polled.
    Running,
    /// A termination request was seen; the emulator has one grace period to
    /// exit by itself.
    GraceWait,
    /// The grace period ran out; a kill request is under way.
    Killing,
    /// The kill request was answered; the emulator has one more period to
    /// be gone.
    Reaping,
    /// The emulator exited by itself.
    ExitedNormally(ExitStatus),
    /// The emulator exited after the kill request.
    Killed(ExitStatus),
    /// The supervision was given up.
    Failed(Fatal),
}

impl ExitStatus {
    /// The line that tells the user of `self`: none after a success, the
    /// exit code where there is one, and a plain complaint where a signal
    /// ended the emulator.
    pub open spec fn spec_message(self) -> Option<Seq<char>> {
        if self.success {
            None
        } else {
            match self.code {
                Some(code) => Some("qemu exited with status "@ + decimal(code as int)),
                None => Some("qemu exited unsuccessfully"@),
            }
        }
    }

    /// The line that tells the user of `self`, if there is anything to tell.
    pub fn message(&self) -> (line: Option<String>)
        ensures
            line is Some <==> !self.success,
            match line {
                Some(text) => self.spec_message() == Some(text@),
                None => self.spec_message() is None,
            },
    {
        if self.success {
            None
        } else {
            match self.code {
                Some(code) => {
                    let number = decimal_text(code);
                    Some(String::from_str("qemu exited with status ").concat(number.as_str()))
                },
                None => Some(String::from_str("qemu exited unsuccessfully")),
            }
        }
    }
}

impl Action {
    /// Whether the run is over once `self` has been performed. The staging
    /// directory is released then, whichever of the two actions it was.
    pub open spec fn spec_ends_run(self) -> bool {
        self is Finish || self is Abort
    }

    /// The launcher's own exit status where `self` ends the run: zero after
    /// `Finish`, whatever status the emulator had, and that of the fatal
    /// condition after `Abort`.
    pub open spec fn spec_exit_code(self) -> Option<i32> {
        match self {
            Action::Finish(_) => Some(0i32),
            Action::Abort(fatal) => Some(fatal.spec_exit_code()),
            _ => None,
        }
    }

    /// Whether the run is over once `self` has been performed.
    pub fn ends_run(&self) -> (over: bool)
        ensures
            over == self.spec_ends_run(),
    {
        match self {
            Action::Finish(_) | Action::Abort(_) => true,
            _ => false,
        }
    }

    /// The launcher's own exit status where `self` ends the run.
    pub fn exit_code(&self) -> (code: Option<i32>)
        ensures
            code == self.spec_exit_code(),
            code is Some <==> self.spec_ends_run(),
            code == Some(0i32) <==> self is Finish,
    {
        match self {
            Action::Finish(_) => Some(0),
            Action::Abort(fatal) => Some(fatal.exit_code()),
            _ => None,
        }
    }
}

/// The state after a wait with `outcome`: an exit ends the supervision, as
/// a kill if `after_kill` and as an exit of the emulator's own otherwise; a
/// timeout leads to `on_timeout`; a wait that failed is fatal.
pub open spec fn after_wait(outcome: WaitOutcome, after_kill: bool, on_timeout: State) -> State {
    match outcome {
        WaitOutcome::Exited(status) => if after_kill {
            State::Killed(status)
        } else {
            State::ExitedNormally(status)
        },
        WaitOutcome::TimedOut => on_timeout,
        WaitOutcome::Failed => State::Failed(Fatal::WaitFailed),
    }
}

impl State {
    /// Whether the supervision is over in `self`.
    pub open spec fn spec_is_terminal(self) -> bool {
        self is ExitedNormally || self is Killed || self is Failed
    }

    /// The action that `self` asks of the caller.
    pub open spec fn spec_action(self) -> Action {
        match self {
            State::Running => Action::Wait { millis: POLL_MILLIS },
            State::GraceWait | State::Reaping => Action::Wait { millis: GRACE_MILLIS },
            State::Killing => Action::Kill,
            State::ExitedNormally(status) | State::Killed(status) => Action::Finish(status),
            State::Failed(fatal) => Action::Abort(fatal),
        }
    }

    /// Whether `event` answers the action of `self`.
    pub open spec fn awaits(self, event: Event) -> bool {
        match self.spec_action() {
            Action::Wait { .. } => event is Waited,
            Action::Kill => event is KillAnswered,
            _ => false,
        }
    }

    /// The state that follows `self` on `event`; none where `event` does not
    /// answer the action of `self`.
    pub open spec fn spec_step(self, event: Event) -> Option<State> {
        match (self, event) {
            (State::Running, Event::Waited { outcome, terminating }) => Some(
                after_wait(
                    outcome,
                    false,
                    if terminating {
                        State::GraceWait
                    } else {
                        State::Running
                    },
                ),
            ),
            (State::GraceWait, Event::Waited { outcome, .. }) => Some(
                after_wait(outcome, false, State::Killing),
            ),
            (State::Reaping, Event::Waited { outcome, .. }) => Some(
                after_wait(outcome, true, State::Failed(Fatal::SurvivedKill)),
            ),
            (State::Killing, Event::KillAnswered(answer)) => Some(
                if answer is OtherError {
                    State::Failed(Fatal::KillFailed)
                } else {
                    State::Reaping
                },
            ),
            _ => None,
        }
    }

    /// How many events at most lie between `self` and the end of the
    /// supervision, once a termination request has been seen.
    pub open spec fn events_left(self) -> nat {
        match self {
            State::Running => 4,
            State::GraceWait => 3,
            State::Killing => 2,
            State::Reaping => 1,
            _ => 0,
        }
    }

    /// The state in which every supervision starts: the emulator runs.
    pub fn initial() -> (state: State)
        ensures
            state == State::Running,
    {
        State::Running
    }

    /// Whether the supervision is over in `self`.
    pub fn is_terminal(&self) -> (over: bool)
        ensures
            over == self.spec_is_terminal(),
            over == self.spec_action().spec_ends_run(),
    {
        match self {
            State::ExitedNormally(_) | State::Killed(_) | State::Failed(_) => true,
            _ => false,
        }
    }

    /// The action that `self` asks of the caller.
    pub fn action(&self) -> (action: Action)
        ensures
            action == self.spec_action(),
    {
        match self {
            State::Running => Action::Wait { millis: POLL_MILLIS },
            State::GraceWait => Action::Wait { millis: GRACE_MILLIS },
            State::Reaping => Action::Wait { millis: GRACE_MILLIS },
            State::Killing => Action::Kill,
            State::ExitedNormally(status) => Action::Finish(*status),
            State::Killed(status) => Action::Finish(*status),
            State::Failed(fatal) => Action::Abort(*fatal),
        }
    }

    /// The state that follows `self` on `event`.
    ///
    /// `None` comes back where `event` does not answer the action of `self`;
    /// in a terminal state that is every event.
    pub fn step(&self, event: Event) -> (next: Option<State>)
        ensures
            next == self.spec_step(event),
            next is Some <==> self.awaits(event),
    {
        match (*self, event) {
            (State::Running, Event::Waited { outcome, terminating }) => {
                let on_timeout = if terminating {
                    State::GraceWait
                } else {
                    State::Running
                };
                Some(settle_wait(outcome, false, on_timeout))
            },
            (State::GraceWait, Event::Waited { outcome, terminating: _ }) => Some(
                settle_wait(outcome, false, State::Killing),
            ),
            (State::Reaping, Event::Waited { outcome, terminating: _ }) => Some(
                settle_wait(outcome, true, State::Failed(Fatal::SurvivedKill)),
            ),
            (State::Killing, Event::KillAnswered(answer)) => match answer {
                KillOutcome::OtherError => Some(State::Failed(Fatal::KillFailed)),
                _ => Some(State::Reaping),
            },
            _ => None,
        }
    }
}

/// The state after a wait that has returned `outcome`.
fn settle_wait(outcome: WaitOutcome, after_kill: bool, on_timeout: State) -> (next: State)
    ensures
        next == after_wait(outcome, after_kill, on_timeout),
{
    match outcome {
        WaitOutcome::Exited(status) => if after_kill {
            State::Killed(status)
        } else {
            State::ExitedNormally(status)
        },
        WaitOutcome::TimedOut => on_timeout,
        WaitOutcome::Failed => State::Failed(Fatal::WaitFailed),
    }
}

/// A terminal state takes no event: the emulator is started once and never
/// again.
pub proof fn law_terminal_is_final(state: State, event: Event)
    requires
        state.spec_is_terminal(),
    ensures
        state.spec_step(event) is None,
{
}

/// Whenever a wait finds that the emulator has exited, the run ends in good
/// order with that status to report, and the launcher's own exit status is
/// zero whatever the emulator's was.
pub proof fn law_exit_ends_run_with_zero(state: State, status: ExitStatus, terminating: bool)
    requires
        state.spec_action() is Wait,
    ensures
        ({
            let next = state.spec_step(
                Event::Waited { outcome: WaitOutcome::Exited(status), terminating },
            );
            &&& next is Some
            &&& next->0.spec_is_terminal()
            &&& next->0.spec_action() == Action::Finish(status)
            &&& next->0.spec_action().spec_exit_code() == Some(0i32)
        }),
{
}

/// A termination request that arrives while the emulator runs opens one
/// grace period; an emulator that exits within it is not killed, and the run
/// ends in good order with exit status zero.
pub proof fn law_exit_within_grace(status: ExitStatus, still_terminating: bool)
    ensures
        State::Running.spec_step(
            Event::Waited { outcome: WaitOutcome::TimedOut, terminating: true },
        ) == Some(State::GraceWait),
        State::GraceWait.spec_action() == (Action::Wait { millis: GRACE_MILLIS }),
        State::GraceWait.spec_step(
            Event::Waited { outcome: WaitOutcome::Exited(status), terminating: still_terminating },
        ) == Some(State::ExitedNormally(status)),
        State::ExitedNormally(status).spec_action() == Action::Finish(status),
        State::ExitedNormally(status).spec_action().spec_ends_run(),
        State::ExitedNormally(status).spec_action().spec_exit_code() == Some(0i32),
{
}

/// An emulator that outlives the grace period is killed. Whether the request
/// was delivered or found the emulator gone, one more wait follows, and the
/// emulator's exit then ends the run in good order with exit status zero.
pub proof fn law_kill_after_grace(
    answer: KillOutcome,
    status: ExitStatus,
    terminating: bool,
)
    requires
        !(answer is OtherError),
    ensures
        State::GraceWait.spec_step(Event::Waited { outcome: WaitOutcome::TimedOut, terminating })
            == Some(State::Killing),
        State::Killing.spec_action() == Action::Kill,
        State::Killing.spec_step(Event::KillAnswered(answer)) == Some(State::Reaping),
        State::Reaping.spec_action() == (Action::Wait { millis: GRACE_MILLIS }),
        State::Reaping.spec_step(
            Event::Waited { outcome: WaitOutcome::Exited(status), terminating },
        ) == Some(State::Killed(status)),
        State::Killed(status).spec_action() == Action::Finish(status),
        State::Killed(status).spec_action().spec_ends_run(),
        State::Killed(status).spec_action().spec_exit_code() == Some(0i32),
{
}

/// The emulator is killed on one occasion only: a termination request was
/// seen and the grace period has run out.
pub proof fn law_kill_only_after_grace(state: State, event: Event)
    ensures
        state.spec_step(event) == Some(State::Killing) <==> state is GraceWait && event matches Event::Waited {
            outcome: WaitOutcome::TimedOut,
            ..
        },
{
}

/// The grace period opens on one occasion only: the emulator was running, a
/// poll timed out, and a termination request had been seen.
pub proof fn law_grace_only_on_request(state: State, event: Event)
    ensures
        state.spec_step(event) == Some(State::GraceWait) <==> state is Running && event == (
        Event::Waited { outcome: WaitOutcome::TimedOut, terminating: true }),
{
}

/// Without a termination request a poll that times out changes nothing: the
/// emulator keeps running and is polled again.
pub proof fn law_poll_repeats(state: State, event: Event)
    ensures
        state.spec_step(event) == Some(State::Running) <==> state is Running && event == (
        Event::Waited { outcome: WaitOutcome::TimedOut, terminating: false }),
{
}

/// Once a termination request has been seen the supervision is over after
/// three more events at most: no event leads back, and every event that is
/// taken leads nearer to the end.
pub proof fn law_escalation_is_bounded(state: State, event: Event)
    requires
        !(state is Running),
        state.awaits(event),
    ensures
        state.spec_step(event) is Some,
        state.spec_step(event)->0.events_left() < state.events_left(),
        state.events_left() <= 3,
{
}

/// A kill request that fails for another reason than that the emulator was
/// gone is fatal, as is an emulator that has not exited one period after it
/// was killed, and a wait that fails in whatever state.
pub proof fn law_supervision_faults(state: State, terminating: bool)
    ensures
        State::Killing.spec_step(Event::KillAnswered(KillOutcome::OtherError)) == Some(
            State::Failed(Fatal::KillFailed),
        ),
        State::Reaping.spec_step(Event::Waited { outcome: WaitOutcome::TimedOut, terminating })
            == Some(State::Failed(Fatal::SurvivedKill)),
        state.spec_action() is Wait ==> state.spec_step(
            Event::Waited { outcome: WaitOutcome::Failed, terminating },
        ) == Some(State::Failed(Fatal::WaitFailed)),
        forall|fatal: Fatal| #[trigger]
            State::Failed(fatal).spec_action().spec_exit_code() == Some(fatal.spec_exit_code())
                && fatal.spec_exit_code() != 0,
{
}

} // verus!
