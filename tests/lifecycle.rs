use flame_executor::context::{ApplicationContext, SessionContext, TaskContext};
use flame_executor::driver::{
    backoff_delay, next, Command, Driver, Event, Fault, InitState, LifecycleContext, Report, State,
    Step,
};
use flame_executor::error::FlameError;

fn context(max_retries: u32) -> LifecycleContext {
    LifecycleContext {
        endpoint: "http://127.0.0.1:8080".to_string(),
        executor_id: "executor-1".to_string(),
        max_retries,
    }
}

fn echo_session() -> SessionContext {
    SessionContext {
        session_id: "s1".to_string(),
        application: ApplicationContext { name: "echo".to_string(), url: None, command: None },
        common_data: None,
    }
}

fn task(id: &str, input: &[u8]) -> TaskContext {
    TaskContext { task_id: id.to_string(), session_id: "s1".to_string(), input: Some(input.to_vec()) }
}

fn plain(command: Command) -> Step {
    Step { report: None, command, retry: 0 }
}

fn bound_driver(max_retries: u32) -> Driver {
    let mut d = Driver::new(&context(max_retries));
    d.step(Event::Start);
    d.step(Event::Registered);
    d.step(Event::Bound(echo_session()));
    d.step(Event::Entered(Ok(())));
    d
}

#[test]
fn init_always_leads_to_registration() {
    let init = InitState {};
    assert_eq!(init.execute(&context(3)), Ok(State::Registering { attempts: 0 }));
}

#[test]
fn scenario_full_session_returns_to_idle() {
    let mut d = Driver::new(&context(3));
    assert_eq!(d.state(), &State::Init);
    assert_eq!(d.step(Event::Start), plain(Command::RegisterExecutor));
    assert_eq!(d.step(Event::Registered), plain(Command::WaitForBinding));
    assert_eq!(d.step(Event::Bound(echo_session())), plain(Command::EnterSession(echo_session())));
    assert_eq!(
        d.step(Event::Entered(Ok(()))),
        Step {
            report: Some(Report::SessionEntered { session_id: "s1".to_string(), accepted: true }),
            command: Command::PullTask("s1".to_string()),
            retry: 0,
        }
    );
    assert_eq!(d.step(Event::TaskPulled(task("t1", b"hi"))), plain(Command::InvokeTask(task("t1", b"hi"))));
    assert_eq!(
        d.step(Event::TaskDone(Ok(Some(b"hi-ok".to_vec())))),
        Step {
            report: Some(Report::TaskResult { task_id: "t1".to_string(), output: Ok(Some(b"hi-ok".to_vec())) }),
            command: Command::PullTask("s1".to_string()),
            retry: 0,
        }
    );
    assert_eq!(d.step(Event::SessionComplete), plain(Command::LeaveSession));
    assert_eq!(
        d.step(Event::Left(Ok(()))),
        Step {
            report: Some(Report::SessionLeft { session_id: "s1".to_string(), succeeded: true }),
            command: Command::WaitForBinding,
            retry: 0,
        }
    );
    assert_eq!(d.state(), &State::Waiting { attempts: 0 });
    assert!(!d.is_done());
}

#[test]
fn idle_timeouts_retry_then_give_up() {
    let mut d = Driver::new(&context(2));
    d.step(Event::Start);
    d.step(Event::Registered);
    assert_eq!(d.step(Event::TimedOut), Step { report: None, command: Command::WaitForBinding, retry: 1 });
    assert_eq!(d.state(), &State::Waiting { attempts: 1 });
    assert_eq!(d.step(Event::TimedOut), Step { report: None, command: Command::WaitForBinding, retry: 2 });
    assert_eq!(d.state(), &State::Waiting { attempts: 2 });
    assert_eq!(d.step(Event::TimedOut), plain(Command::Exit));
    assert_eq!(d.state(), &State::Failed { fault: Fault::Unreachable });
    assert!(d.is_done());
}

#[test]
fn keep_alive_resets_idle_retries() {
    let mut d = Driver::new(&context(1));
    d.step(Event::Start);
    d.step(Event::Registered);
    d.step(Event::TimedOut);
    assert_eq!(d.step(Event::KeepAlive), plain(Command::WaitForBinding));
    assert_eq!(d.state(), &State::Waiting { attempts: 0 });
}

#[test]
fn refused_entry_returns_to_idle_without_tasks() {
    let mut d = Driver::new(&context(3));
    d.step(Event::Start);
    d.step(Event::Registered);
    d.step(Event::Bound(echo_session()));
    let step = d.step(Event::Entered(Err(FlameError::Service("refused".to_string()))));
    assert_eq!(
        step,
        Step {
            report: Some(Report::SessionEntered { session_id: "s1".to_string(), accepted: false }),
            command: Command::WaitForBinding,
            retry: 0,
        }
    );
    assert_eq!(d.state(), &State::Waiting { attempts: 0 });
}

#[test]
fn tasks_are_forwarded_in_pull_order() {
    let mut d = bound_driver(3);
    let mut forwarded = Vec::new();
    for id in ["t1", "t2", "t3"] {
        if let Step { command: Command::InvokeTask(t), .. } = d.step(Event::TaskPulled(task(id, b"x"))) {
            forwarded.push(t.task_id);
        }
        d.step(Event::TaskDone(Ok(None)));
    }
    assert_eq!(forwarded, vec!["t1".to_string(), "t2".to_string(), "t3".to_string()]);
}

#[test]
fn leave_comes_once_after_last_task() {
    let mut d = bound_driver(3);
    d.step(Event::TaskPulled(task("t1", b"x")));
    d.step(Event::TaskDone(Ok(None)));
    assert_eq!(d.step(Event::NoTaskYet), plain(Command::PullTask("s1".to_string())));
    assert_eq!(d.step(Event::SessionComplete), plain(Command::LeaveSession));
    let step = d.step(Event::Left(Err(FlameError::Service("busy".to_string()))));
    assert_eq!(
        step,
        Step {
            report: Some(Report::SessionLeft { session_id: "s1".to_string(), succeeded: false }),
            command: Command::WaitForBinding,
            retry: 0,
        }
    );
    assert_eq!(d.state(), &State::Waiting { attempts: 0 });
}

#[test]
fn registration_network_failures_are_retried_then_fatal() {
    let mut d = Driver::new(&context(1));
    d.step(Event::Start);
    let err = FlameError::Network("down".to_string());
    assert_eq!(d.step(Event::Failure(err.clone())), Step { report: None, command: Command::RegisterExecutor, retry: 1 });
    assert_eq!(d.step(Event::Failure(err.clone())), plain(Command::Exit));
    assert_eq!(d.state(), &State::Failed { fault: Fault::Error(err) });
}

#[test]
fn protocol_errors_are_never_retried() {
    let mut d = Driver::new(&context(5));
    d.step(Event::Start);
    let err = FlameError::Protocol("bad".to_string());
    assert_eq!(d.step(Event::Failure(err.clone())), plain(Command::Exit));
    assert_eq!(d.state(), &State::Failed { fault: Fault::Error(err) });
}

#[test]
fn shutdown_is_terminal() {
    let mut d = Driver::new(&context(5));
    d.step(Event::Start);
    d.step(Event::Registered);
    assert_eq!(d.step(Event::ShutdownRequested), plain(Command::Exit));
    assert_eq!(d.state(), &State::Shutdown);
    assert_eq!(d.step(Event::KeepAlive), plain(Command::Exit));
    assert_eq!(d.state(), &State::Shutdown);
}

#[test]
fn unexpected_event_fails_the_executor() {
    let (s, step) = next(State::Init, Event::Registered, 3);
    assert_eq!(s, State::Failed { fault: Fault::UnexpectedEvent });
    assert_eq!(step, plain(Command::Exit));
}

#[test]
fn pull_failures_retry_the_pull() {
    let mut d = bound_driver(2);
    let step = d.step(Event::Failure(FlameError::Network("lost".to_string())));
    assert_eq!(step, Step { report: None, command: Command::PullTask("s1".to_string()), retry: 1 });
    assert_eq!(d.state(), &State::Pulling { session_id: "s1".to_string(), attempts: 1 });
}

#[test]
fn backoff_doubles_up_to_the_cap() {
    assert_eq!(backoff_delay(100, 1000, 0), 100);
    assert_eq!(backoff_delay(100, 1000, 1), 200);
    assert_eq!(backoff_delay(100, 1000, 3), 800);
    assert_eq!(backoff_delay(100, 1000, 4), 1000);
    assert_eq!(backoff_delay(100, 1000, 40), 1000);
    assert_eq!(backoff_delay(100, 50, 0), 50);
    assert_eq!(backoff_delay(u64::MAX / 2 + 1, u64::MAX, 1), u64::MAX);
}

#[test]
fn error_classes() {
    assert!(FlameError::Network("x".to_string()).is_transient());
    assert!(!FlameError::DataLoss("x".to_string()).is_transient());
    assert_eq!(FlameError::Protocol("bad".to_string()).message(), "bad");
}
