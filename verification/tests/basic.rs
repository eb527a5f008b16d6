use procbridge::models::{Command, SubProcOutput};
use procbridge::routes::{bash, hello};
use procbridge::session::{init, read_from_proc, restart, send_command, ChildSession};
use procbridge::subprocess_control::{is_init, ProcInfo};
use procbridge::types::{Command as RequestCommand, RouteError};

#[test]
fn hello_greets_by_name() {
    assert_eq!(hello("world".to_string()), "Hello, world!");
    assert_eq!(hello("".to_string()), "Hello, !");
}

#[test]
fn bash_acknowledges_the_control_command() {
    assert_eq!(bash(&"init".to_string()), Some("ready".to_string()));
}

#[test]
fn bash_leaves_other_commands_to_the_caller() {
    assert_eq!(bash(&"ls".to_string()), None);
    assert_eq!(bash(&"INIT".to_string()), None);
}

#[test]
fn is_init_matches_exactly() {
    assert!(is_init(&"init".to_string()));
    assert!(!is_init(&"init ".to_string()));
    assert!(!is_init(&"reinit".to_string()));
}

#[test]
fn payload_shapes_carry_plain_strings() {
    let c = Command { command: "ls".to_string() };
    assert_eq!(c.command, "ls");
    let rc = RequestCommand { command: "pwd".to_string() };
    assert_eq!(rc.command, "pwd");
    let o = SubProcOutput { msg: "done".to_string() };
    assert_eq!(o.msg, "done");
}

#[test]
fn fresh_session_is_not_live() {
    let s = ChildSession::new();
    assert!(!s.is_live());
}

#[test]
fn session_lifecycle_with_free_functions() {
    let info = ProcInfo {
        path: "/usr/bin/yes".to_string(),
        override_prompt: String::new(),
        term_char: 'y',
        term_len: 0,
    };
    let mut session = ChildSession::new();
    let banner = init(&mut session, &info).unwrap();
    assert_eq!(banner, "");
    assert!(session.is_live());
    let out = send_command(&"ping".to_string(), &mut session, &info).unwrap();
    assert!(out == "\n" || out == "");
    session.shutdown();
    assert!(!session.is_live());
}

#[test]
fn send_to_a_never_started_session_is_rejected() {
    let info = ProcInfo {
        path: "/usr/bin/yes".to_string(),
        override_prompt: String::new(),
        term_char: 'y',
        term_len: 0,
    };
    let mut session = ChildSession::new();
    let r = send_command(&"hello".to_string(), &mut session, &info);
    assert!(matches!(r, Err(RouteError::NotInitializedError)));
    assert!(!session.is_live());
}

#[test]
fn restart_works_from_any_state() {
    let info = ProcInfo {
        path: "/usr/bin/uname".to_string(),
        override_prompt: String::new(),
        term_char: 'x',
        term_len: 0,
    };
    let mut session = ChildSession::new();
    // from the empty state it is a plain start
    let banner = restart(&mut session, &info).unwrap();
    assert_eq!(banner, "Linu");
    // from the live state it terminates first, then starts afresh
    let banner2 = restart(&mut session, &info).unwrap();
    assert_eq!(banner2, "Linu");
    session.shutdown();
}

#[test]
fn read_from_proc_frames_one_turn() {
    let info = ProcInfo {
        path: "/usr/bin/yes".to_string(),
        override_prompt: String::new(),
        term_char: 'y',
        term_len: 0,
    };
    let mut session = ChildSession::new();
    init(&mut session, &info).unwrap();
    let out = read_from_proc(session.proc.as_ref().unwrap(), &info).unwrap();
    assert!(out == "\n" || out == "");
    session.shutdown();
}

#[test]
fn session_init_spawn_failure_keeps_the_slot_empty() {
    let info = ProcInfo {
        path: "/no/such/executable/anywhere".to_string(),
        override_prompt: String::new(),
        term_char: '$',
        term_len: 0,
    };
    let mut session = ChildSession::new();
    let r = init(&mut session, &info);
    assert!(matches!(r, Err(RouteError::SpawnError(_))));
    assert!(!session.is_live());
}
