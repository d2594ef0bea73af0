use abstract_process::handshake::complete_registration;
use abstract_process::error::StartupError;
use abstract_process::process::ProcessRef;
use abstract_process::registry::NameRegistry;

#[test]
fn second_registration_of_a_name_gets_the_first_holder() {
    let mut names = NameRegistry::new();
    let a = ProcessRef { node_id: 0, process_id: 10 };
    let b = ProcessRef { node_id: 0, process_id: 11 };
    let ra = names.register("server", a);
    let rb = names.register("server", b);
    assert_eq!(complete_registration::<()>(ra), Ok(a));
    assert_eq!(complete_registration::<()>(rb), Err(StartupError::NameAlreadyRegistered(a)));
    assert_eq!(names.lookup("server"), Some(a));
}

#[test]
fn distinct_names_register_independently() {
    let mut names = NameRegistry::new();
    let a = ProcessRef { node_id: 0, process_id: 10 };
    let b = ProcessRef { node_id: 1, process_id: 11 };
    assert_eq!(names.register("left", a), Ok(a));
    assert_eq!(names.register("right", b), Ok(b));
    assert_eq!(names.register("lef", b), Ok(b));
    assert_eq!(names.lookup("left"), Some(a));
    assert_eq!(names.lookup("right"), Some(b));
    assert_eq!(names.lookup("middle"), None);
    assert_eq!(names.lookup(""), None);
}
