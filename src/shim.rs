//! The shim bridge: forwards the three lifecycle calls to the user service,
//! converting descriptors at the boundary, and builds the request that
//! registers the bridge's loopback address with the local service manager.
use vstd::prelude::*;
use crate::context::{SessionContext, TaskContext, TaskOutput};
use crate::error::FlameError;
use crate::wire;

verus! {

/// The lifecycle contract that user application code implements.
pub trait FlameService {
    /// Called once per bound session, before any of its tasks.
    fn on_session_enter(&self, ctx: SessionContext) -> Result<(), FlameError>;

    /// Called once per dispatched task; `Ok(None)` is a task without output.
    fn on_task_invoke(&self, ctx: TaskContext) -> Result<Option<TaskOutput>, FlameError>;

    /// Called once per bound session, after its last task.
    fn on_session_leave(&self) -> Result<(), FlameError>;
}

/// The acknowledgement of a lifecycle call that succeeded.
pub open spec fn acknowledgement() -> wire::CallResult {
    wire::CallResult { return_code: 0, message: None }
}

/// The answer to session entry or leave, given the user service's result.
pub open spec fn ack_reply_spec(res: Result<(), FlameError>) -> Result<wire::CallResult, FlameError> {
    match res {
        Ok(_) => Ok(acknowledgement()),
        Err(e) => Err(e),
    }
}

/// The answer to a task, given the user service's result.
pub open spec fn task_reply_spec(res: Result<Option<TaskOutput>, FlameError>) -> Result<wire::TaskOutput, FlameError> {
    match res {
        Ok(data) => Ok(wire::TaskOutput { data }),
        Err(e) => Err(e),
    }
}

/// Turns the user service's answer to entry or leave into the wire answer;
/// a failure is handed on to the caller, never swallowed.
pub fn ack_reply(res: Result<(), FlameError>) -> (r: Result<wire::CallResult, FlameError>)
    ensures
        r == ack_reply_spec(res),
{
    match res {
        Ok(_) => Ok(wire::CallResult { return_code: 0, message: None }),
        Err(e) => Err(e),
    }
}

/// Turns the user service's answer to a task into the wire answer.
pub fn task_reply(res: Result<Option<TaskOutput>, FlameError>) -> (r: Result<wire::TaskOutput, FlameError>)
    ensures
        r == task_reply_spec(res),
{
    match res {
        Ok(data) => Ok(wire::TaskOutput { data }),
        Err(e) => Err(e),
    }
}

/// The bridge between the lifecycle calls that arrive on the wire and the user
/// service. It exists only once the bridge is registered.
pub struct ShimService<S: FlameService> {
    service: S,
}

impl<S: FlameService> ShimService<S> {
    /// Readies the bridge once registration with the service manager is known.
    /// A failed registration is fatal: the error comes back and no bridge
    /// exists to serve a lifecycle call.
    pub fn after_registration(service: S, registration: Result<(), FlameError>) -> (r: Result<
        ShimService<S>,
        FlameError,
    >)
        ensures
            registration is Ok <==> r is Ok,
            registration is Err ==> r == Err::<ShimService<S>, FlameError>(registration->Err_0),
    {
        match registration {
            Ok(_) => Ok(ShimService { service }),
            Err(e) => Err(e),
        }
    }

    /// Forwards session entry. A descriptor without an application is a
    /// protocol error and reaches no user code.
    pub fn on_session_enter(&self, req: wire::SessionContext) -> (r: Result<wire::CallResult, FlameError>)
        ensures
            req.application is None ==> r is Err && r->Err_0 is Protocol,
            req.application is Some ==> exists|res: Result<(), FlameError>| r == ack_reply_spec(res),
    {
        match SessionContext::from_wire(req) {
            Ok(ctx) => {
                let res = self.service.on_session_enter(ctx);
                let ghost g = res;
                let r = ack_reply(res);
                assert(r == ack_reply_spec(g));
                r
            },
            Err(e) => Err(e),
        }
    }

    /// Forwards one task.
    pub fn on_task_invoke(&self, req: wire::TaskContext) -> (r: Result<wire::TaskOutput, FlameError>)
        ensures
            exists|res: Result<Option<TaskOutput>, FlameError>| r == task_reply_spec(res),
    {
        let res = self.service.on_task_invoke(TaskContext::from(req));
        let ghost g = res;
        let r = task_reply(res);
        assert(r == task_reply_spec(g));
        r
    }

    /// Forwards session leave.
    pub fn on_session_leave(&self) -> (r: Result<wire::CallResult, FlameError>)
        ensures
            exists|res: Result<(), FlameError>| r == ack_reply_spec(res),
    {
        let res = self.service.on_session_leave();
        let ghost g = res;
        let r = ack_reply(res);
        assert(r == ack_reply_spec(g));
        r
    }
}

/// The character of a decimal digit.
pub open spec fn digit_char(d: nat) -> char {
    if d == 0 { '0' }
    else if d == 1 { '1' }
    else if d == 2 { '2' }
    else if d == 3 { '3' }
    else if d == 4 { '4' }
    else if d == 5 { '5' }
    else if d == 6 { '6' }
    else if d == 7 { '7' }
    else if d == 8 { '8' }
    else { '9' }
}

/// The decimal notation of a number, without leading zeros.
pub open spec fn decimal(n: nat) -> Seq<char>
    decreases n,
{
    if n < 10 {
        seq![digit_char(n)]
    } else {
        decimal(n / 10).push(digit_char(n % 10))
    }
}

/// The address at which a bridge on a loopback port is reached.
pub open spec fn loopback_address(port: u16) -> Seq<char> {
    "http://127.0.0.1:"@ + decimal(port as nat)
}


fn digit_str(d: u16) -> (r: &'static str)
    requires
        d < 10,
    ensures
        r@ == seq![digit_char(d as nat)],
{
    if d == 0 {
        proof { reveal_strlit("0"); }
        "0"
    } else if d == 1 {
        proof { reveal_strlit("1"); }
        "1"
    } else if d == 2 {
        proof { reveal_strlit("2"); }
        "2"
    } else if d == 3 {
        proof { reveal_strlit("3"); }
        "3"
    } else if d == 4 {
        proof { reveal_strlit("4"); }
        "4"
    } else if d == 5 {
        proof { reveal_strlit("5"); }
        "5"
    } else if d == 6 {
        proof { reveal_strlit("6"); }
        "6"
    } else if d == 7 {
        proof { reveal_strlit("7"); }
        "7"
    } else if d == 8 {
        proof { reveal_strlit("8"); }
        "8"
    } else {
        proof { reveal_strlit("9"); }
        "9"
    }
}

/// Appends the decimal notation of `n`.
fn push_decimal(out: &mut String, n: u16)
    ensures
        final(out)@ == old(out)@ + decimal(n as nat),
    decreases n,
{
    if n >= 10 {
        push_decimal(out, n / 10);
    }
    out.append(digit_str(n % 10));
    proof {
        if n >= 10 {
            assert(old(out)@ + decimal(n as nat) =~= old(out)@ + decimal((n / 10) as nat) + seq![digit_char((n % 10) as nat)]);
        }
    }
}

/// The address of a bridge that listens on a loopback port.
pub fn service_address(port: u16) -> (r: String)
    ensures
        r@ == loopback_address(port),
{
    let mut out = String::from_str("http://127.0.0.1:");
    push_decimal(&mut out, port);
    out
}

/// The request that registers a bridge listening on `port` under the
/// identity `service_id` (the hosting process's identity).
pub fn registration_request(port: u16, service_id: String) -> (r: wire::RegisterServiceRequest)
    ensures
        r.address@ == loopback_address(port),
        r.service_id == service_id,
{
    wire::RegisterServiceRequest { address: service_address(port), service_id }
}

} // verus!
