use std::cell::RefCell;

use flame_executor::context::{ApplicationContext, SessionContext, TaskContext, TaskOutput};
use flame_executor::control::{create_session_request, created_message, created_session_id};
use flame_executor::error::FlameError;
use flame_executor::shim::{ack_reply, registration_request, service_address, task_reply, FlameService, ShimService};
use flame_executor::wire;

struct Echo {
    calls: RefCell<Vec<String>>,
    refuse: bool,
}

impl FlameService for Echo {
    fn on_session_enter(&self, ctx: SessionContext) -> Result<(), FlameError> {
        self.calls.borrow_mut().push(format!("enter {}", ctx.session_id));
        if self.refuse {
            Err(FlameError::Service("refused".to_string()))
        } else {
            Ok(())
        }
    }

    fn on_task_invoke(&self, ctx: TaskContext) -> Result<Option<TaskOutput>, FlameError> {
        self.calls.borrow_mut().push(format!("invoke {}", ctx.task_id));
        Ok(ctx.input.map(|mut d| {
            d.extend_from_slice(b"-ok");
            d
        }))
    }

    fn on_session_leave(&self) -> Result<(), FlameError> {
        self.calls.borrow_mut().push("leave".to_string());
        Ok(())
    }
}

fn echo(refuse: bool) -> Echo {
    Echo { calls: RefCell::new(Vec::new()), refuse }
}

fn wire_session(application: Option<wire::ApplicationContext>, common_data: Option<Vec<u8>>) -> wire::SessionContext {
    wire::SessionContext { session_id: "s1".to_string(), application, common_data }
}

fn echo_app() -> wire::ApplicationContext {
    wire::ApplicationContext { name: "echo".to_string(), url: None, command: Some("echo".to_string()) }
}

fn ack() -> wire::CallResult {
    wire::CallResult { return_code: 0, message: None }
}

#[test]
fn session_without_application_is_a_protocol_error() {
    let r = SessionContext::from_wire(wire_session(None, Some(b"data".to_vec())));
    assert!(matches!(r, Err(FlameError::Protocol(_))));
}

#[test]
fn session_without_common_data_converts() {
    let r = SessionContext::from_wire(wire_session(Some(echo_app()), None)).unwrap();
    assert_eq!(r.session_id, "s1");
    assert_eq!(
        r.application,
        ApplicationContext { name: "echo".to_string(), url: None, command: Some("echo".to_string()) }
    );
    assert_eq!(r.common_data, None);
}

#[test]
fn session_keeps_common_data() {
    let r = SessionContext::from_wire(wire_session(Some(echo_app()), Some(b"shared".to_vec()))).unwrap();
    assert_eq!(r.common_data, Some(b"shared".to_vec()));
}

#[test]
fn task_and_application_convert_field_by_field() {
    let t = TaskContext::from(wire::TaskContext {
        task_id: "t1".to_string(),
        session_id: "s1".to_string(),
        input: Some(b"hi".to_vec()),
    });
    assert_eq!(t, TaskContext { task_id: "t1".to_string(), session_id: "s1".to_string(), input: Some(b"hi".to_vec()) });
    let a = ApplicationContext::from(wire::ApplicationContext {
        name: "app".to_string(),
        url: Some("http://x".to_string()),
        command: None,
    });
    assert_eq!(a, ApplicationContext { name: "app".to_string(), url: Some("http://x".to_string()), command: None });
}

#[test]
fn bridge_forwards_the_lifecycle() {
    let shim = ShimService::after_registration(echo(false), Ok(())).ok().unwrap();
    assert_eq!(shim.on_session_enter(wire_session(Some(echo_app()), None)), Ok(ack()));
    let out = shim.on_task_invoke(wire::TaskContext {
        task_id: "t1".to_string(),
        session_id: "s1".to_string(),
        input: Some(b"hi".to_vec()),
    });
    assert_eq!(out, Ok(wire::TaskOutput { data: Some(b"hi-ok".to_vec()) }));
    let none = shim.on_task_invoke(wire::TaskContext { task_id: "t2".to_string(), session_id: "s1".to_string(), input: None });
    assert_eq!(none, Ok(wire::TaskOutput { data: None }));
    assert_eq!(shim.on_session_leave(), Ok(ack()));
}

#[test]
fn bridge_surfaces_a_refused_entry() {
    let shim = ShimService::after_registration(echo(true), Ok(())).ok().unwrap();
    let r = shim.on_session_enter(wire_session(Some(echo_app()), None));
    assert_eq!(r, Err(FlameError::Service("refused".to_string())));
}

#[test]
fn bridge_rejects_a_session_without_application() {
    let shim = ShimService::after_registration(echo(false), Ok(())).ok().unwrap();
    let r = shim.on_session_enter(wire_session(None, None));
    assert!(matches!(r, Err(FlameError::Protocol(_))));
}

#[test]
fn failed_registration_is_fatal() {
    let r = ShimService::after_registration(echo(false), Err(FlameError::Network("no manager".to_string())));
    assert!(matches!(r, Err(FlameError::Network(ref m)) if m == "no manager"));
}

#[test]
fn replies_follow_the_service_result() {
    assert_eq!(ack_reply(Ok(())), Ok(ack()));
    assert_eq!(ack_reply(Err(FlameError::Service("x".to_string()))), Err(FlameError::Service("x".to_string())));
    assert_eq!(task_reply(Ok(Some(b"out".to_vec()))), Ok(wire::TaskOutput { data: Some(b"out".to_vec()) }));
    assert_eq!(task_reply(Ok(None)), Ok(wire::TaskOutput { data: None }));
}

#[test]
fn registration_address_uses_the_bound_port() {
    assert_eq!(service_address(0), "http://127.0.0.1:0");
    assert_eq!(service_address(8080), "http://127.0.0.1:8080");
    assert_eq!(service_address(65535), "http://127.0.0.1:65535");
    let req = registration_request(40123, "4242".to_string());
    assert_eq!(req, wire::RegisterServiceRequest { address: "http://127.0.0.1:40123".to_string(), service_id: "4242".to_string() });
}

#[test]
fn create_session_without_metadata_is_data_loss() {
    let r = created_session_id(wire::CreateSessionResponse { metadata: None });
    assert!(matches!(r, Err(FlameError::DataLoss(_))));
}

#[test]
fn create_session_reports_the_id() {
    let req = create_session_request(&"echo".to_string(), 2);
    assert_eq!(req, wire::CreateSessionRequest { session: Some(wire::SessionSpec { application: "echo".to_string(), slots: 2 }) });
    let id = created_session_id(wire::CreateSessionResponse { metadata: Some(wire::SessionMetadata { id: "7".to_string() }) });
    assert_eq!(id, Ok("7".to_string()));
    assert_eq!(created_message(&"7".to_string()), "Session <7> was created.");
}
