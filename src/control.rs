//! The control tool's session creation: the request it sends and how it reads
//! the frontend's answer.
use vstd::prelude::*;
use crate::error::FlameError;
use crate::wire;

verus! {

/// The request that creates a session of `app` with `slots` slots.
pub fn create_session_request(app: &String, slots: i32) -> (r: wire::CreateSessionRequest)
    ensures
        r == (wire::CreateSessionRequest {
            session: Some(wire::SessionSpec { application: *app, slots }),
        }),
{
    wire::CreateSessionRequest {
        session: Some(wire::SessionSpec { application: app.clone(), slots }),
    }
}

/// The id of the created session. An answer without metadata means the
/// frontend lost the data: a `DataLoss` error.
pub fn created_session_id(resp: wire::CreateSessionResponse) -> (r: Result<String, FlameError>)
    ensures
        resp.metadata is Some <==> r is Ok,
        r is Ok ==> r->Ok_0 == resp.metadata->Some_0.id,
        r is Err ==> r->Err_0 is DataLoss,
{
    match resp.metadata {
        Some(meta) => Ok(meta.id),
        None => Err(FlameError::DataLoss(String::from_str("no session id"))),
    }
}

/// The line that reports a created session.
pub fn created_message(id: &String) -> (r: String)
    ensures
        r@ == "Session <"@ + id@ + "> was created."@,
{
    let mut out = String::from_str("Session <");
    out.append(id.as_str());
    out.append("> was created.");
    out
}

} // verus!
