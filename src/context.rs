//! Domain descriptors seen by user code, and their total conversions from the
//! wire descriptors.
use vstd::prelude::*;
use crate::error::FlameError;
use crate::wire;

verus! {

/// Session-scoped payload shared by all tasks of a session.
pub type CommonData = Vec<u8>;

/// Input payload of one task.
pub type TaskInput = Vec<u8>;

/// Output payload of one task.
pub type TaskOutput = Vec<u8>;

/// The application a session runs.
#[derive(Debug, Clone, PartialEq, Eq)]
pub struct ApplicationContext {
    pub name: String,
    pub url: Option<String>,
    pub command: Option<String>,
}

/// A session as the user service sees it; it always names its application.
#[derive(Debug, Clone, PartialEq, Eq)]
pub struct SessionContext {
    pub session_id: String,
    pub application: ApplicationContext,
    pub common_data: Option<CommonData>,
}

/// A task as the user service sees it.
#[derive(Debug, Clone, PartialEq, Eq)]
pub struct TaskContext {
    pub task_id: String,
    pub session_id: String,
    pub input: Option<TaskInput>,
}

/// The domain application descriptor that a wire descriptor converts to.
pub open spec fn application_of(ctx: wire::ApplicationContext) -> ApplicationContext {
    ApplicationContext { name: ctx.name, url: ctx.url, command: ctx.command }
}

/// The domain task descriptor that a wire descriptor converts to.
pub open spec fn task_of(ctx: wire::TaskContext) -> TaskContext {
    TaskContext { task_id: ctx.task_id, session_id: ctx.session_id, input: ctx.input }
}

/// The domain session descriptor that a wire descriptor converts to, or
/// `None` where the wire descriptor names no application.
pub open spec fn session_of(ctx: wire::SessionContext) -> Option<SessionContext> {
    match ctx.application {
        Some(app) => Some(
            SessionContext {
                session_id: ctx.session_id,
                application: application_of(app),
                common_data: ctx.common_data,
            },
        ),
        None => None,
    }
}

impl SessionContext {
    /// Converts a wire session descriptor. A descriptor without an application
    /// breaks the protocol and yields a `Protocol` error; one without common
    /// data yields a session without common data.
    pub fn from_wire(ctx: wire::SessionContext) -> (r: Result<SessionContext, FlameError>)
        ensures
            ctx.application is Some <==> r is Ok,
            r is Ok ==> Some(r->Ok_0) == session_of(ctx),
            r is Err ==> r->Err_0 is Protocol,
    {
        match ctx.application {
            Some(app) => Ok(
                SessionContext {
                    session_id: ctx.session_id,
                    application: ApplicationContext::from(app),
                    common_data: ctx.common_data,
                },
            ),
            None => Err(FlameError::Protocol(String::from_str("session context has no application"))),
        }
    }
}

impl From<wire::ApplicationContext> for ApplicationContext {
    fn from(ctx: wire::ApplicationContext) -> (r: Self) {
        ApplicationContext { name: ctx.name, url: ctx.url, command: ctx.command }
    }
}

impl vstd::std_specs::convert::FromSpecImpl<wire::ApplicationContext> for ApplicationContext {
    open spec fn obeys_from_spec() -> bool {
        true
    }

    open spec fn from_spec(v: wire::ApplicationContext) -> Self {
        application_of(v)
    }
}

impl From<wire::TaskContext> for TaskContext {
    fn from(ctx: wire::TaskContext) -> (r: Self) {
        TaskContext { task_id: ctx.task_id, session_id: ctx.session_id, input: ctx.input }
    }
}

impl vstd::std_specs::convert::FromSpecImpl<wire::TaskContext> for TaskContext {
    open spec fn obeys_from_spec() -> bool {
        true
    }

    open spec fn from_spec(v: wire::TaskContext) -> Self {
        task_of(v)
    }
}

} // verus!
