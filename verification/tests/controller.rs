use procbridge::subprocess_control::{ProcInfo, SettingsMap, SubProcessControl};
use procbridge::types::RouteError;

fn yes_info() -> ProcInfo {
    // `yes` prints `y\n` forever: its first output byte is the terminator,
    // so a session's banner and every framed turn are deterministic.
    ProcInfo {
        path: "/usr/bin/yes".to_string(),
        override_prompt: String::new(),
        term_char: 'y',
        term_len: 0,
    }
}

fn uname_info() -> ProcInfo {
    // `uname` prints `Linux\n` and exits: the terminator is the final `x`,
    // and the process is gone by the next send.
    ProcInfo {
        path: "/usr/bin/uname".to_string(),
        override_prompt: String::new(),
        term_char: 'x',
        term_len: 0,
    }
}

fn missing_info() -> ProcInfo {
    ProcInfo {
        path: "/no/such/executable/anywhere".to_string(),
        override_prompt: String::new(),
        term_char: '$',
        term_len: 0,
    }
}

fn catalog() -> SettingsMap {
    vec![
        ("yes".to_string(), yes_info()),
        ("uname".to_string(), uname_info()),
        ("missing".to_string(), missing_info()),
    ]
}

#[test]
fn unknown_program_is_refused() {
    let mut ctl = SubProcessControl::new(catalog());
    let r = ctl.dispatch(&"nope".to_string(), &"init".to_string());
    assert!(matches!(r, Err(RouteError::UnknownProgramError)));
}

#[test]
fn unknown_program_is_refused_whatever_the_state() {
    let mut ctl = SubProcessControl::new(catalog());
    ctl.dispatch(&"yes".to_string(), &"init".to_string()).unwrap();
    let r = ctl.dispatch(&"nope".to_string(), &"init".to_string());
    assert!(matches!(r, Err(RouteError::UnknownProgramError)));
    ctl.shutdown(&"yes".to_string());
}

#[test]
fn never_started_session_rejects_commands() {
    let mut ctl = SubProcessControl::new(catalog());
    let r = ctl.dispatch(&"yes".to_string(), &"hello".to_string());
    assert!(matches!(r, Err(RouteError::NotInitializedError)));
    // still empty: a second command is rejected the same way
    let r2 = ctl.dispatch(&"yes".to_string(), &"hello again".to_string());
    assert!(matches!(r2, Err(RouteError::NotInitializedError)));
}

#[test]
fn spawn_failure_is_a_spawn_error() {
    let mut ctl = SubProcessControl::new(catalog());
    let r = ctl.dispatch(&"missing".to_string(), &"init".to_string());
    assert!(matches!(r, Err(RouteError::SpawnError(_))));
    // the slot stays empty
    let r2 = ctl.dispatch(&"missing".to_string(), &"ls".to_string());
    assert!(matches!(r2, Err(RouteError::NotInitializedError)));
}

#[test]
fn init_frames_the_banner_and_send_frames_a_turn() {
    let mut ctl = SubProcessControl::new(catalog());
    let banner = ctl.dispatch(&"yes".to_string(), &"init".to_string()).unwrap();
    // the first byte is the terminator: the banner is the empty turn
    assert_eq!(banner, "");
    let out = ctl.dispatch(&"yes".to_string(), &"anything".to_string()).unwrap();
    // one framed turn of `y\n` output, never holding the terminator
    assert!(out == "\n" || out == "");
    assert!(!out.contains('y'));
    ctl.shutdown(&"yes".to_string());
}

#[test]
fn double_init_restarts_into_one_live_session() {
    let mut ctl = SubProcessControl::new(catalog());
    let first = ctl.dispatch(&"yes".to_string(), &"init".to_string()).unwrap();
    assert_eq!(first, "");
    // the restart terminates the first process and starts exactly one more
    let second = ctl.dispatch(&"yes".to_string(), &"init".to_string()).unwrap();
    assert_eq!(second, "");
    let out = ctl.dispatch(&"yes".to_string(), &"still there?".to_string()).unwrap();
    assert!(out == "\n" || out == "");
    ctl.shutdown(&"yes".to_string());
}

#[test]
fn banner_is_framed_up_to_the_terminator() {
    let mut ctl = SubProcessControl::new(catalog());
    let banner = ctl.dispatch(&"uname".to_string(), &"init".to_string()).unwrap();
    // `Linux` read up to the `x`, with the one-character region stripped
    assert_eq!(banner, "Linu");
    ctl.shutdown(&"uname".to_string());
}

#[test]
fn send_to_exited_process_is_a_broken_pipe() {
    let mut ctl = SubProcessControl::new(catalog());
    ctl.dispatch(&"uname".to_string(), &"init".to_string()).unwrap();
    // the process exits on its own right after its banner; the session does
    // not notice until a send fails
    let mut broke = false;
    let mut tries: usize = 0;
    let mut seen: Vec<String> = Vec::new();
    while tries < 5000 {
        match ctl.dispatch(&"uname".to_string(), &"hello".to_string()) {
            Err(RouteError::BrokenPipeError(_)) => {
                broke = true;
                break;
            }
            // a write that lands just before the exit is answered by the
            // end of the stream instead of a reply
            Err(RouteError::FramingError) => seen.push("framing".to_string()),
            Err(e) => panic!("expected a broken pipe, got {:?}", e),
            Ok(s) => seen.push(format!("ok:{:?}", s)),
        }
        tries += 1;
    }
    assert!(broke, "never broke; outcomes: {:?}", seen);
    ctl.shutdown(&"uname".to_string());
}

#[test]
fn restart_revives_a_session_whose_process_exited() {
    let mut ctl = SubProcessControl::new(catalog());
    let first = ctl.dispatch(&"uname".to_string(), &"init".to_string()).unwrap();
    assert_eq!(first, "Linu");
    // the old handle points at an exited process; the restart terminates it
    // best-effort and spawns afresh
    let second = ctl.dispatch(&"uname".to_string(), &"init".to_string()).unwrap();
    assert_eq!(second, "Linu");
    ctl.shutdown(&"uname".to_string());
}

#[test]
fn shutdown_reports_whether_the_name_is_known() {
    let mut ctl = SubProcessControl::new(catalog());
    assert!(!ctl.shutdown(&"nope".to_string()));
    assert!(ctl.shutdown(&"yes".to_string()));
}

#[test]
fn shutdown_leaves_the_slot_empty() {
    let mut ctl = SubProcessControl::new(catalog());
    ctl.dispatch(&"yes".to_string(), &"init".to_string()).unwrap();
    assert!(ctl.shutdown(&"yes".to_string()));
    let r = ctl.dispatch(&"yes".to_string(), &"hello".to_string());
    assert!(matches!(r, Err(RouteError::NotInitializedError)));
}
