//! Descriptors as they travel on the wire between the frontend, the executor
//! and the shim bridge. Fields that the protocol marks optional are `Option`s.
use vstd::prelude::*;

verus! {

/// Application descriptor of a session.
#[derive(Debug, Clone, PartialEq, Eq)]
pub struct ApplicationContext {
    pub name: String,
    pub url: Option<String>,
    pub command: Option<String>,
}

/// Session descriptor handed to the shim bridge on session entry.
#[derive(Debug, Clone, PartialEq, Eq)]
pub struct SessionContext {
    pub session_id: String,
    pub application: Option<ApplicationContext>,
    pub common_data: Option<Vec<u8>>,
}

/// Task descriptor handed to the shim bridge for each dispatched task.
#[derive(Debug, Clone, PartialEq, Eq)]
pub struct TaskContext {
    pub task_id: String,
    pub session_id: String,
    pub input: Option<Vec<u8>>,
}

/// The output of one task; `None` when the task produced no payload.
#[derive(Debug, Clone, PartialEq, Eq)]
pub struct TaskOutput {
    pub data: Option<Vec<u8>>,
}

/// Acknowledgement of a lifecycle call.
#[derive(Debug, Clone, PartialEq, Eq)]
pub struct CallResult {
    pub return_code: i32,
    pub message: Option<String>,
}

/// Request that registers a shim bridge with the local service manager.
#[derive(Debug, Clone, PartialEq, Eq)]
pub struct RegisterServiceRequest {
    pub address: String,
    pub service_id: String,
}

/// What the control tool asks the frontend to create.
#[derive(Debug, Clone, PartialEq, Eq)]
pub struct SessionSpec {
    pub application: String,
    pub slots: i32,
}

/// Request of the control tool to create a session.
#[derive(Debug, Clone, PartialEq, Eq)]
pub struct CreateSessionRequest {
    pub session: Option<SessionSpec>,
}

/// Metadata of a session that the frontend created.
#[derive(Debug, Clone, PartialEq, Eq)]
pub struct SessionMetadata {
    pub id: String,
}

/// The frontend's answer to a session-creation request.
#[derive(Debug, Clone, PartialEq, Eq)]
pub struct CreateSessionResponse {
    pub metadata: Option<SessionMetadata>,
}

} // verus!
