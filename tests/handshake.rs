use abstract_process::builder::{AbstractProcessBuilder, SpawnCall};
use abstract_process::error::{Received, StartupError};
use abstract_process::handshake::{complete_registration, complete_start, complete_start_timeout};
use abstract_process::lifecycle::{AbstractProcess, InitOutcome, Unit};
use abstract_process::process::{ProcessConfig, ProcessRef};
use abstract_process::tag::{Tag, TagSource};

struct Picky;

impl AbstractProcess for Picky {
    type Arg = String;
    type Error = String;
    type Message = ();
    type Request = ();
    type Response = ();

    fn init(_this: ProcessRef, arg: String) -> Result<Picky, String> {
        if arg == "good" {
            Ok(Picky)
        } else {
            Err(arg)
        }
    }

    fn terminate(self) {}

    fn handle_link_trapped(&self, _tag: Tag) {}

    fn handle_message(&mut self, _message: ()) {
        panic!("a unit that failed to start got a message");
    }

    fn handle_request(&mut self, _request: ()) {}
}

fn child() -> ProcessRef {
    ProcessRef { node_id: 0, process_id: 8 }
}

fn run_init(arg: &str) -> InitOutcome<Picky, String> {
    match Picky::init(child(), arg.to_string()) {
        Ok(s) => InitOutcome::Ready(s),
        Err(e) => InitOutcome::Failed(e),
    }
}

#[test]
fn successful_init_yields_the_handle() {
    let (unit, reply) = Unit::entry(run_init("good"));
    assert!(unit.is_some());
    assert_eq!(complete_start(child(), reply), Ok(child()));
}

#[test]
fn failed_init_yields_custom_error_and_no_unit() {
    let (unit, reply) = Unit::entry(run_init("worse"));
    assert!(unit.is_none());
    assert_eq!(complete_start(child(), reply), Err(StartupError::Custom("worse".to_string())));
}

#[test]
fn panicked_init_yields_init_panicked() {
    let (unit, reply) = Unit::<Picky>::entry(InitOutcome::Panicked);
    assert!(unit.is_none());
    assert_eq!(complete_start(child(), reply), Err(StartupError::InitPanicked));
}

#[test]
fn bounded_wait_without_reply_times_out() {
    let r = complete_start_timeout::<String>(child(), Received::TimedOut);
    assert_eq!(r, Err(StartupError::TimedOut));
}

#[test]
fn bounded_wait_with_reply_agrees_with_unbounded() {
    for arg in ["good", "bad"] {
        let (_, reply) = Unit::entry(run_init(arg));
        let unbounded = complete_start(child(), reply.clone());
        let bounded = complete_start_timeout(child(), Received::Message(reply));
        assert_eq!(bounded, unbounded);
    }
}

#[test]
fn taken_name_yields_the_holder() {
    let holder = ProcessRef { node_id: 0, process_id: 3 };
    assert_eq!(
        complete_registration::<String>(Err(holder)),
        Err(StartupError::NameAlreadyRegistered(holder))
    );
    assert_eq!(complete_registration::<String>(Ok(child())), Ok(child()));
}

#[test]
fn linked_configured_child_failing_init_reports_bad_arg() {
    let mut tags = TagSource::new();
    let cfg = ProcessConfig { id: 1 };
    let parent = ProcessRef { node_id: 0, process_id: 1 };
    let b = AbstractProcessBuilder::new().link(&mut tags).configure(&cfg);
    let q = b.start::<String, String>(parent, &mut tags, "bad-arg".to_string()).unwrap();
    assert!(matches!(q.call, SpawnCall::SpawnLinkConfigTag(c, _) if c == cfg));
    let (unit, reply) = Unit::entry(run_init(&q.arg));
    assert!(unit.is_none());
    assert_eq!(complete_start(child(), reply), Err(StartupError::Custom("bad-arg".to_string())));
}
