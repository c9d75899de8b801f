//! Runs of the lifecycle state machine over sequences of events, and the laws
//! that every run obeys.
use vstd::prelude::*;
use crate::context::TaskContext;
use crate::driver::{next_spec, Command, Event, Fault, State, Step};
use crate::error::FlameError;

verus! {

/// Whether an event answers the command that led into the state. Terminal
/// states wait for nothing.
pub open spec fn expects(s: State, e: Event) -> bool {
    match s {
        State::Init => e is Start,
        State::Registering { .. } => e is Registered || e is Failure,
        State::Waiting { .. } => e is Bound || e is KeepAlive || e is TimedOut || e is ShutdownRequested
            || e is Failure,
        State::Entering { .. } => e is Entered,
        State::Pulling { .. } => e is TaskPulled || e is NoTaskYet || e is SessionComplete || e is Failure,
        State::Invoking { .. } => e is TaskDone,
        State::Leaving { .. } => e is Left,
        State::Shutdown => false,
        State::Failed { .. } => false,
    }
}

/// The final state and the steps of the driver fed with the events in order.
pub open spec fn run(s: State, es: Seq<Event>, max: u32) -> (State, Seq<Step>)
    decreases es.len(),
{
    if es.len() == 0 {
        (s, Seq::empty())
    } else {
        let (s1, st) = next_spec(s, es[0], max);
        let (sn, rest) = run(s1, es.drop_first(), max);
        (sn, seq![st] + rest)
    }
}

/// Whether each event of the sequence answers the command before it.
pub open spec fn valid(s: State, es: Seq<Event>, max: u32) -> bool
    decreases es.len(),
{
    es.len() == 0 || (expects(s, es[0]) && valid(next_spec(s, es[0], max).0, es.drop_first(), max))
}

/// The tasks forwarded to the user service, in the order of the steps.
pub open spec fn forwarded(steps: Seq<Step>) -> Seq<TaskContext>
    decreases steps.len(),
{
    if steps.len() == 0 {
        Seq::empty()
    } else {
        let head = match steps[0].command {
            Command::InvokeTask(t) => seq![t],
            _ => Seq::empty(),
        };
        head + forwarded(steps.drop_first())
    }
}

/// The tasks pulled from the frontend, in the order of the events.
pub open spec fn pulled(es: Seq<Event>) -> Seq<TaskContext>
    decreases es.len(),
{
    if es.len() == 0 {
        Seq::empty()
    } else {
        let head = match es[0] {
            Event::TaskPulled(t) => seq![t],
            _ => Seq::empty(),
        };
        head + pulled(es.drop_first())
    }
}

/// Tasks reach the user service in the order in which they were pulled from
/// the frontend: none is dropped, added or reordered.
pub proof fn lemma_tasks_forwarded_in_pull_order(s: State, es: Seq<Event>, max: u32)
    requires
        valid(s, es, max),
    ensures
        forwarded(run(s, es, max).1) == pulled(es),
    decreases es.len(),
{
    if es.len() > 0 {
        let (s1, st) = next_spec(s, es[0], max);
        let rest = run(s1, es.drop_first(), max).1;
        lemma_tasks_forwarded_in_pull_order(s1, es.drop_first(), max);
        let all = seq![st] + rest;
        assert(all[0] == st);
        assert(all.drop_first() =~= rest);
    }
}

/// A lifecycle call on the user service, or the service's answer to entry.
pub enum Call {
    Enter,
    Accepted,
    Rejected,
    Invoke,
    Leave,
}

/// The lifecycle call or entry answer that one step carries, if any.
pub open spec fn call_of(e: Event, st: Step) -> Option<Call> {
    match st.command {
        Command::EnterSession(_) => Some(Call::Enter),
        Command::InvokeTask(_) => Some(Call::Invoke),
        Command::LeaveSession => Some(Call::Leave),
        _ => match e {
            Event::Entered(res) => if res is Ok { Some(Call::Accepted) } else { Some(Call::Rejected) },
            _ => None,
        },
    }
}

/// The lifecycle calls of a run, in order.
pub open spec fn calls(s: State, es: Seq<Event>, max: u32) -> Seq<Call>
    decreases es.len(),
{
    if es.len() == 0 {
        Seq::empty()
    } else {
        let (s1, st) = next_spec(s, es[0], max);
        let head = match call_of(es[0], st) {
            Some(c) => seq![c],
            None => Seq::empty(),
        };
        head + calls(s1, es.drop_first(), max)
    }
}

/// Where a run stands with respect to the bound session.
pub enum Phase {
    /// No session is bound.
    Free,
    /// Entry was forwarded; the service has not answered yet.
    Pending,
    /// The session was accepted and has not been left yet.
    Open,
}

/// How a lifecycle call moves the phase; `None` where the call is out of place.
pub open spec fn advance(p: Phase, c: Call) -> Option<Phase> {
    match (p, c) {
        (Phase::Free, Call::Enter) => Some(Phase::Pending),
        (Phase::Pending, Call::Accepted) => Some(Phase::Open),
        (Phase::Pending, Call::Rejected) => Some(Phase::Free),
        (Phase::Open, Call::Invoke) => Some(Phase::Open),
        (Phase::Open, Call::Leave) => Some(Phase::Free),
        _ => None,
    }
}

/// Whether the calls follow the session bracket from the phase: entry once per
/// bind, tasks only inside an accepted session, one leave after its last task
/// and before the next entry.
pub open spec fn bracketed(p: Phase, cs: Seq<Call>) -> bool
    decreases cs.len(),
{
    cs.len() == 0 || match advance(p, cs[0]) {
        Some(q) => bracketed(q, cs.drop_first()),
        None => false,
    }
}

/// The phases that a state is consistent with.
pub open spec fn phase_ok(s: State, p: Phase) -> bool {
    match s {
        State::Entering { .. } => p is Pending,
        State::Pulling { .. } => p is Open,
        State::Invoking { .. } => p is Open,
        State::Shutdown => true,
        State::Failed { .. } => true,
        _ => p is Free,
    }
}

proof fn lemma_step_bracket(s: State, e: Event, max: u32, p: Phase)
    requires
        expects(s, e),
        phase_ok(s, p),
    ensures
        ({
            let (s1, st) = next_spec(s, e, max);
            match call_of(e, st) {
                None => phase_ok(s1, p),
                Some(c) => advance(p, c) is Some && phase_ok(s1, advance(p, c)->Some_0),
            }
        }),
{
}

/// Every run respects the session bracket: `on_session_enter` once per bind,
/// `on_task_invoke` only inside an accepted session, and `on_session_leave`
/// once per accepted session, after its last task and before the next entry.
pub proof fn lemma_lifecycle_bracketed(s: State, es: Seq<Event>, max: u32, p: Phase)
    requires
        valid(s, es, max),
        phase_ok(s, p),
    ensures
        bracketed(p, calls(s, es, max)),
    decreases es.len(),
{
    if es.len() > 0 {
        let (s1, st) = next_spec(s, es[0], max);
        lemma_step_bracket(s, es[0], max, p);
        let rest = calls(s1, es.drop_first(), max);
        match call_of(es[0], st) {
            Some(c) => {
                let q = advance(p, c)->Some_0;
                lemma_lifecycle_bracketed(s1, es.drop_first(), max, q);
                let all = seq![c] + rest;
                assert(all[0] == c);
                assert(all.drop_first() =~= rest);
            },
            None => {
                lemma_lifecycle_bracketed(s1, es.drop_first(), max, p);
                assert(Seq::<Call>::empty() + rest =~= rest);
            },
        }
    }
}


proof fn lemma_unbound_forwards_nothing(s: State, es: Seq<Event>, max: u32)
    requires
        s is Waiting || s is Shutdown || s is Failed,
        valid(s, es, max),
        forall|i: int| 0 <= i < es.len() ==> !(#[trigger] es[i] is Bound),
    ensures
        forwarded(run(s, es, max).1) == Seq::<TaskContext>::empty(),
    decreases es.len(),
{
    if es.len() > 0 {
        let (s1, st) = next_spec(s, es[0], max);
        let rest = run(s1, es.drop_first(), max).1;
        assert forall|i: int| 0 <= i < es.drop_first().len() implies !(#[trigger] es.drop_first()[i] is Bound) by {
            assert(es.drop_first()[i] == es[i + 1]);
        }
        lemma_unbound_forwards_nothing(s1, es.drop_first(), max);
        let all = seq![st] + rest;
        assert(all[0] == st);
        assert(all.drop_first() =~= rest);
        assert(forwarded(all) =~= Seq::<TaskContext>::empty());
    }
}

/// A session whose entry the user service refuses sends the executor back to
/// idle, and no task is forwarded until the frontend binds it again.
pub proof fn lemma_refused_entry_forwards_nothing(
    session_id: String,
    err: FlameError,
    es: Seq<Event>,
    max: u32,
)
    requires
        valid(next_spec(State::Entering { session_id }, Event::Entered(Err(err)), max).0, es, max),
        forall|i: int| 0 <= i < es.len() ==> !(#[trigger] es[i] is Bound),
    ensures
        next_spec(State::Entering { session_id }, Event::Entered(Err(err)), max).0 == (State::Waiting {
            attempts: 0,
        }),
        forwarded(run(State::Entering { session_id }, seq![Event::Entered(Err(err))] + es, max).1)
            == Seq::<TaskContext>::empty(),
{
    let s = State::Entering { session_id };
    let all = seq![Event::Entered(Err(err))] + es;
    assert(all[0] == Event::Entered(Err(err)));
    assert(all.drop_first() =~= es);
    let (s1, st) = next_spec(s, all[0], max);
    lemma_unbound_forwards_nothing(s1, es, max);
    let rest = run(s1, es, max).1;
    let steps = seq![st] + rest;
    assert(steps[0] == st);
    assert(steps.drop_first() =~= rest);
    assert(forwarded(steps) =~= Seq::<TaskContext>::empty());
}

/// `n` waits for a binding in a row that end without an answer.
pub open spec fn timeouts(n: nat) -> Seq<Event> {
    Seq::new(n, |i: int| Event::TimedOut)
}

proof fn lemma_failed_absorbs(fault: Fault, es: Seq<Event>, max: u32)
    ensures
        run(State::Failed { fault }, es, max).0 == (State::Failed { fault }),
    decreases es.len(),
{
    if es.len() > 0 {
        lemma_failed_absorbs(fault, es.drop_first(), max);
    }
}

/// Idle retries a wait that ends without an answer in place, and gives the
/// executor up as unreachable once the configured retries are spent.
pub proof fn lemma_idle_timeouts_bounded(attempts: u32, n: nat, max: u32)
    ensures
        run(State::Waiting { attempts }, timeouts(n), max).0 == if n == 0 {
            State::Waiting { attempts }
        } else if attempts + n <= max {
            State::Waiting { attempts: (attempts + n) as u32 }
        } else {
            State::Failed { fault: Fault::Unreachable }
        },
    decreases n,
{
    if n > 0 {
        assert(timeouts(n)[0] == Event::TimedOut);
        assert(timeouts(n).drop_first() =~= timeouts((n - 1) as nat));
        if attempts < max {
            lemma_idle_timeouts_bounded((attempts + 1) as u32, (n - 1) as nat, max);
        } else {
            lemma_failed_absorbs(Fault::Unreachable, timeouts((n - 1) as nat), max);
        }
    }
}

} // verus!
