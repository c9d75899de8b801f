//! The executor's lifecycle state machine. The driver holds the current state;
//! the hosting process performs the command of each step against the frontend
//! or the shim bridge and hands the outcome back as the next event.
use vstd::prelude::*;
use crate::context::{SessionContext, TaskContext, TaskOutput};
use crate::error::FlameError;

verus! {

/// Immutable per-process configuration of an executor.
#[derive(Debug, Clone, PartialEq, Eq)]
pub struct LifecycleContext {
    /// Endpoint of the frontend scheduler.
    pub endpoint: String,
    /// Identity under which the executor registers.
    pub executor_id: String,
    /// How many transient failures in a row a state retries before it gives up.
    pub max_retries: u32,
}

/// Why an executor stopped with an error.
#[derive(Debug, Clone, PartialEq, Eq)]
pub enum Fault {
    /// The frontend stayed silent or unreachable for more than the allowed retries.
    Unreachable,
    /// An event arrived that the current state was not waiting for.
    UnexpectedEvent,
    /// A fatal error, or a transient one that exhausted its retries.
    Error(FlameError),
}

/// One phase of the executor's lifecycle; each live state waits for the
/// outcome of the command that led into it.
#[derive(Debug, Clone, PartialEq, Eq)]
pub enum State {
    /// Start state: local readiness checks only.
    Init,
    /// Waits for the answer to `RegisterExecutor`.
    Registering { attempts: u32 },
    /// Idle: waits for the answer to `WaitForBinding`.
    Waiting { attempts: u32 },
    /// Waits for the user service to accept or refuse the session.
    Entering { session_id: String },
    /// Bound: waits for the answer to `PullTask`.
    Pulling { session_id: String, attempts: u32 },
    /// Waits for the user service to finish a task.
    Invoking { session_id: String, task_id: String },
    /// Unbind: waits for the user service to release the session.
    Leaving { session_id: String },
    /// Terminal: the frontend asked the executor to stop.
    Shutdown,
    /// Terminal: the executor gave up.
    Failed { fault: Fault },
}

/// The outcome of the last command, as the hosting process observed it.
#[derive(Debug, PartialEq, Eq)]
pub enum Event {
    /// Local readiness checks are done.
    Start,
    /// The frontend accepted the registration.
    Registered,
    /// The frontend bound the executor to a session.
    Bound(SessionContext),
    /// The frontend answered the wait without work.
    KeepAlive,
    /// The wait ended without an answer.
    TimedOut,
    /// The frontend asked the executor to stop.
    ShutdownRequested,
    /// The user service's answer to session entry.
    Entered(Result<(), FlameError>),
    /// The frontend handed out the next task of the bound session.
    TaskPulled(TaskContext),
    /// The bound session has no task ready yet.
    NoTaskYet,
    /// The bound session is complete.
    SessionComplete,
    /// The user service's answer to a task.
    TaskDone(Result<Option<TaskOutput>, FlameError>),
    /// The user service's answer to session leave.
    Left(Result<(), FlameError>),
    /// A call to the frontend failed.
    Failure(FlameError),
}

/// What the hosting process does next.
#[derive(Debug, Clone, PartialEq, Eq)]
pub enum Command {
    RegisterExecutor,
    WaitForBinding,
    /// Forward `on_session_enter` to the shim bridge.
    EnterSession(SessionContext),
    PullTask(String),
    /// Forward `on_task_invoke` to the shim bridge.
    InvokeTask(TaskContext),
    /// Forward `on_session_leave` to the shim bridge.
    LeaveSession,
    /// Leave the loop; the executor has reached a terminal state.
    Exit,
}

/// A report to the frontend that goes with a step.
#[derive(Debug, PartialEq, Eq)]
pub enum Report {
    TaskResult { task_id: String, output: Result<Option<TaskOutput>, FlameError> },
    SessionEntered { session_id: String, accepted: bool },
    SessionLeft { session_id: String, succeeded: bool },
}

/// The result of one transition: the report to send, then the command to run.
/// `retry` is the number of the attempt when the command repeats a failed or
/// empty call, else zero.
#[derive(Debug, PartialEq, Eq)]
pub struct Step {
    pub report: Option<Report>,
    pub command: Command,
    pub retry: u32,
}

pub open spec fn plain(command: Command) -> Step {
    Step { report: None, command, retry: 0 }
}

pub open spec fn retried(command: Command, attempt: u32) -> Step {
    Step { report: None, command, retry: attempt }
}

pub open spec fn fail(fault: Fault) -> (State, Step) {
    (State::Failed { fault }, plain(Command::Exit))
}

/// The transition function: the next state and step for an event in a state.
pub open spec fn next_spec(s: State, e: Event, max: u32) -> (State, Step) {
    match s {
        State::Init => match e {
            Event::Start => (State::Registering { attempts: 0 }, plain(Command::RegisterExecutor)),
            _ => fail(Fault::UnexpectedEvent),
        },
        State::Registering { attempts } => match e {
            Event::Registered => (State::Waiting { attempts: 0 }, plain(Command::WaitForBinding)),
            Event::Failure(err) => if err is Network && attempts < max {
                (State::Registering { attempts: (attempts + 1) as u32 }, retried(Command::RegisterExecutor, (attempts + 1) as u32))
            } else {
                fail(Fault::Error(err))
            },
            _ => fail(Fault::UnexpectedEvent),
        },
        State::Waiting { attempts } => match e {
            Event::Bound(ssn) => (State::Entering { session_id: ssn.session_id }, plain(Command::EnterSession(ssn))),
            Event::KeepAlive => (State::Waiting { attempts: 0 }, plain(Command::WaitForBinding)),
            Event::TimedOut => if attempts < max {
                (State::Waiting { attempts: (attempts + 1) as u32 }, retried(Command::WaitForBinding, (attempts + 1) as u32))
            } else {
                fail(Fault::Unreachable)
            },
            Event::ShutdownRequested => (State::Shutdown, plain(Command::Exit)),
            Event::Failure(err) => if err is Network && attempts < max {
                (State::Waiting { attempts: (attempts + 1) as u32 }, retried(Command::WaitForBinding, (attempts + 1) as u32))
            } else {
                fail(Fault::Error(err))
            },
            _ => fail(Fault::UnexpectedEvent),
        },
        State::Entering { session_id } => match e {
            Event::Entered(res) => if res is Ok {
                (
                    State::Pulling { session_id, attempts: 0 },
                    Step {
                        report: Some(Report::SessionEntered { session_id, accepted: true }),
                        command: Command::PullTask(session_id),
                        retry: 0,
                    },
                )
            } else {
                (
                    State::Waiting { attempts: 0 },
                    Step {
                        report: Some(Report::SessionEntered { session_id, accepted: false }),
                        command: Command::WaitForBinding,
                        retry: 0,
                    },
                )
            },
            _ => fail(Fault::UnexpectedEvent),
        },
        State::Pulling { session_id, attempts } => match e {
            Event::TaskPulled(task) => (
                State::Invoking { session_id, task_id: task.task_id },
                plain(Command::InvokeTask(task)),
            ),
            Event::NoTaskYet => (State::Pulling { session_id, attempts: 0 }, plain(Command::PullTask(session_id))),
            Event::SessionComplete => (State::Leaving { session_id }, plain(Command::LeaveSession)),
            Event::Failure(err) => if err is Network && attempts < max {
                (
                    State::Pulling { session_id, attempts: (attempts + 1) as u32 },
                    retried(Command::PullTask(session_id), (attempts + 1) as u32),
                )
            } else {
                fail(Fault::Error(err))
            },
            _ => fail(Fault::UnexpectedEvent),
        },
        State::Invoking { session_id, task_id } => match e {
            Event::TaskDone(output) => (
                State::Pulling { session_id, attempts: 0 },
                Step {
                    report: Some(Report::TaskResult { task_id, output }),
                    command: Command::PullTask(session_id),
                    retry: 0,
                },
            ),
            _ => fail(Fault::UnexpectedEvent),
        },
        State::Leaving { session_id } => match e {
            Event::Left(res) => (
                State::Waiting { attempts: 0 },
                Step {
                    report: Some(Report::SessionLeft { session_id, succeeded: res is Ok }),
                    command: Command::WaitForBinding,
                    retry: 0,
                },
            ),
            _ => fail(Fault::UnexpectedEvent),
        },
        State::Shutdown => (State::Shutdown, plain(Command::Exit)),
        State::Failed { fault } => (State::Failed { fault }, plain(Command::Exit)),
    }
}


fn exit_on(fault: Fault) -> (r: (State, Step))
    ensures
        r == fail(fault),
{
    (State::Failed { fault }, Step { report: None, command: Command::Exit, retry: 0 })
}

/// Computes one transition of the lifecycle state machine.
pub fn next(s: State, e: Event, max: u32) -> (r: (State, Step))
    ensures
        r == next_spec(s, e, max),
{
    match s {
        State::Init => match e {
            Event::Start => (
                State::Registering { attempts: 0 },
                Step { report: None, command: Command::RegisterExecutor, retry: 0 },
            ),
            _ => exit_on(Fault::UnexpectedEvent),
        },
        State::Registering { attempts } => match e {
            Event::Registered => (
                State::Waiting { attempts: 0 },
                Step { report: None, command: Command::WaitForBinding, retry: 0 },
            ),
            Event::Failure(err) => {
                if err.is_transient() && attempts < max {
                    (
                        State::Registering { attempts: attempts + 1 },
                        Step { report: None, command: Command::RegisterExecutor, retry: attempts + 1 },
                    )
                } else {
                    exit_on(Fault::Error(err))
                }
            },
            _ => exit_on(Fault::UnexpectedEvent),
        },
        State::Waiting { attempts } => match e {
            Event::Bound(ssn) => {
                let session_id = ssn.session_id.clone();
                (
                    State::Entering { session_id },
                    Step { report: None, command: Command::EnterSession(ssn), retry: 0 },
                )
            },
            Event::KeepAlive => (
                State::Waiting { attempts: 0 },
                Step { report: None, command: Command::WaitForBinding, retry: 0 },
            ),
            Event::TimedOut => {
                if attempts < max {
                    (
                        State::Waiting { attempts: attempts + 1 },
                        Step { report: None, command: Command::WaitForBinding, retry: attempts + 1 },
                    )
                } else {
                    exit_on(Fault::Unreachable)
                }
            },
            Event::ShutdownRequested => (
                State::Shutdown,
                Step { report: None, command: Command::Exit, retry: 0 },
            ),
            Event::Failure(err) => {
                if err.is_transient() && attempts < max {
                    (
                        State::Waiting { attempts: attempts + 1 },
                        Step { report: None, command: Command::WaitForBinding, retry: attempts + 1 },
                    )
                } else {
                    exit_on(Fault::Error(err))
                }
            },
            _ => exit_on(Fault::UnexpectedEvent),
        },
        State::Entering { session_id } => match e {
            Event::Entered(res) => {
                let accepted = res.is_ok();
                let report_id = session_id.clone();
                if accepted {
                    let pull_id = session_id.clone();
                    (
                        State::Pulling { session_id, attempts: 0 },
                        Step {
                            report: Some(Report::SessionEntered { session_id: report_id, accepted: true }),
                            command: Command::PullTask(pull_id),
                            retry: 0,
                        },
                    )
                } else {
                    (
                        State::Waiting { attempts: 0 },
                        Step {
                            report: Some(Report::SessionEntered { session_id: report_id, accepted: false }),
                            command: Command::WaitForBinding,
                            retry: 0,
                        },
                    )
                }
            },
            _ => exit_on(Fault::UnexpectedEvent),
        },
        State::Pulling { session_id, attempts } => match e {
            Event::TaskPulled(task) => {
                let task_id = task.task_id.clone();
                (
                    State::Invoking { session_id, task_id },
                    Step { report: None, command: Command::InvokeTask(task), retry: 0 },
                )
            },
            Event::NoTaskYet => {
                let pull_id = session_id.clone();
                (
                    State::Pulling { session_id, attempts: 0 },
                    Step { report: None, command: Command::PullTask(pull_id), retry: 0 },
                )
            },
            Event::SessionComplete => (
                State::Leaving { session_id },
                Step { report: None, command: Command::LeaveSession, retry: 0 },
            ),
            Event::Failure(err) => {
                if err.is_transient() && attempts < max {
                    let pull_id = session_id.clone();
                    (
                        State::Pulling { session_id, attempts: attempts + 1 },
                        Step { report: None, command: Command::PullTask(pull_id), retry: attempts + 1 },
                    )
                } else {
                    exit_on(Fault::Error(err))
                }
            },
            _ => exit_on(Fault::UnexpectedEvent),
        },
        State::Invoking { session_id, task_id } => match e {
            Event::TaskDone(output) => {
                let pull_id = session_id.clone();
                (
                    State::Pulling { session_id, attempts: 0 },
                    Step {
                        report: Some(Report::TaskResult { task_id, output }),
                        command: Command::PullTask(pull_id),
                        retry: 0,
                    },
                )
            },
            _ => exit_on(Fault::UnexpectedEvent),
        },
        State::Leaving { session_id } => match e {
            Event::Left(res) => {
                let succeeded = res.is_ok();
                (
                    State::Waiting { attempts: 0 },
                    Step {
                        report: Some(Report::SessionLeft { session_id, succeeded }),
                        command: Command::WaitForBinding,
                        retry: 0,
                    },
                )
            },
            _ => exit_on(Fault::UnexpectedEvent),
        },
        State::Shutdown => (State::Shutdown, Step { report: None, command: Command::Exit, retry: 0 }),
        State::Failed { fault } => (State::Failed { fault }, Step { report: None, command: Command::Exit, retry: 0 }),
    }
}

/// Whether a state has reached the terminal class.
pub open spec fn is_terminal(s: State) -> bool {
    s is Shutdown || s is Failed
}

/// The initial state: local readiness checks. It has no side effect and
/// always leads to registration.
pub struct InitState {}

impl InitState {
    pub fn execute(&self, ctx: &LifecycleContext) -> (r: Result<State, FlameError>)
        ensures
            r == Ok::<State, FlameError>(State::Registering { attempts: 0 }),
    {
        Ok(State::Registering { attempts: 0 })
    }
}

/// Owner of the current lifecycle state; the state machine's only mutator.
pub struct Driver {
    state: State,
    max_retries: u32,
}

impl Driver {
    pub closed spec fn spec_state(&self) -> State {
        self.state
    }

    pub closed spec fn spec_max_retries(&self) -> u32 {
        self.max_retries
    }

    /// A driver in the start state, with the retry bound of the context.
    pub fn new(ctx: &LifecycleContext) -> (r: Driver)
        ensures
            r.spec_state() == State::Init,
            r.spec_max_retries() == ctx.max_retries,
    {
        Driver { state: State::Init, max_retries: ctx.max_retries }
    }

    /// The current state.
    pub fn state(&self) -> (r: &State)
        ensures
            *r == self.spec_state(),
    {
        &self.state
    }

    /// Whether the driver has left the loop for good.
    pub fn is_done(&self) -> (r: bool)
        ensures
            r == is_terminal(self.spec_state()),
    {
        match self.state {
            State::Shutdown => true,
            State::Failed { .. } => true,
            _ => false,
        }
    }

    /// Applies the outcome of the last command and returns what to do next.
    pub fn step(&mut self, e: Event) -> (r: Step)
        ensures
            (final(self).spec_state(), r) == next_spec(old(self).spec_state(), e, old(self).spec_max_retries()),
            final(self).spec_max_retries() == old(self).spec_max_retries(),
    {
        let mut s = State::Init;
        core::mem::swap(&mut self.state, &mut s);
        let (n, r) = next(s, e, self.max_retries);
        self.state = n;
        r
    }
}


/// Two to the power `n`.
pub open spec fn pow2(n: nat) -> nat
    decreases n,
{
    if n == 0 { 1 } else { 2 * pow2((n - 1) as nat) }
}

/// The pause before retry number `attempt`: `base` doubled once per attempt,
/// never more than `cap`.
pub open spec fn backoff_spec(base: u64, cap: u64, attempt: u32) -> int {
    let d = base * pow2(attempt as nat);
    if d < cap { d } else { cap as int }
}

/// Computes the bounded exponential backoff before a retry.
pub fn backoff_delay(base: u64, cap: u64, attempt: u32) -> (r: u64)
    ensures
        r == backoff_spec(base, cap, attempt),
{
    let mut d: u64 = if base < cap { base } else { cap };
    let mut i: u32 = 0;
    assert(pow2(0) == 1);
    assert(base * pow2(0) == base);
    while i < attempt
        invariant
            i <= attempt,
            d == backoff_spec(base, cap, i),
            d <= cap,
        decreases attempt - i,
    {
        proof {
            assert(pow2((i + 1) as nat) == 2 * pow2(i as nat));
            assert(base * pow2((i + 1) as nat) == 2 * (base * pow2(i as nat))) by (nonlinear_arith)
                requires pow2((i + 1) as nat) == 2 * pow2(i as nat);
        }
        if d >= cap - d {
            d = cap;
        } else {
            d = d * 2;
        }
        i = i + 1;
    }
    d
}

} // verus!
