use traq_python_bot::runner::{RunAction, RunError, RunEvent};
use traq_python_bot::workspace::{ScriptAction, ScriptError, ScriptEvent, ScriptSession};

fn drive_container(s: &mut ScriptSession, events: Vec<RunEvent>) -> ScriptAction {
    let mut last = s.next_action();
    for e in events {
        last = s.step(ScriptEvent::Container { event: e });
    }
    last
}

#[test]
fn script_prints_hi() {
    let mut s = ScriptSession::new("/tmp/sb", "print('hi')".to_string(), "tok");
    assert_eq!(s.dir_path(), "/tmp/sb/python-tok");
    assert_eq!(s.input_file_path(), "/tmp/sb/python-tok/python-code.py");
    assert_eq!(s.output_file_path(), "/tmp/sb/python-tok/output.txt");
    assert_eq!(s.source_text(), "print('hi')");
    assert!(s.next_action() == ScriptAction::MakeDir);
    assert!(s.step(ScriptEvent::DirMade) == ScriptAction::WriteInput);
    assert!(s.step(ScriptEvent::InputWritten) == ScriptAction::Container { action: RunAction::Create });
    let a = drive_container(
        &mut s,
        vec![RunEvent::Created, RunEvent::Started, RunEvent::Drained { elapsed_ms: 420 }, RunEvent::Stopped, RunEvent::Removed],
    );
    assert!(a == ScriptAction::ReadOutput);
    assert!(s.step(ScriptEvent::OutputRead { text: "hi\n".to_string() }) == ScriptAction::RemoveInput);
    assert!(s.step(ScriptEvent::Removed) == ScriptAction::RemoveOutput);
    assert!(s.step(ScriptEvent::Removed) == ScriptAction::RemoveDir);
    assert!(s.step(ScriptEvent::Removed) == ScriptAction::Finish);
    let r = s.finish().ok().unwrap();
    assert_eq!(r.stdout, "hi\n");
    assert_eq!(r.stderr, "");
    assert!(!r.timed_out);
    assert_eq!(r.elapsed_ms, 420);
}

#[test]
fn sleeping_script_times_out() {
    let mut s = ScriptSession::new("/tmp/sb", "import time; time.sleep(999)".to_string(), "tok");
    s.step(ScriptEvent::DirMade);
    s.step(ScriptEvent::InputWritten);
    let a = drive_container(
        &mut s,
        vec![RunEvent::Created, RunEvent::Started, RunEvent::TimedOut, RunEvent::Stopped, RunEvent::Removed],
    );
    assert!(a == ScriptAction::ReadOutput);
    s.step(ScriptEvent::OutputRead { text: String::new() });
    s.step(ScriptEvent::Removed);
    s.step(ScriptEvent::Removed);
    s.step(ScriptEvent::Removed);
    let r = s.finish().ok().unwrap();
    assert!(r.timed_out);
    assert_eq!(r.elapsed_ms, 5000);
    assert_eq!(r.stdout, "");
}

#[test]
fn failed_container_run_still_tears_down_workspace() {
    let mut s = ScriptSession::new("/tmp/sb", "x".to_string(), "tok");
    s.step(ScriptEvent::DirMade);
    s.step(ScriptEvent::InputWritten);
    let a = drive_container(
        &mut s,
        vec![RunEvent::Created, RunEvent::StartFailed { message: "oom".to_string() }, RunEvent::Stopped, RunEvent::Removed],
    );
    assert!(a == ScriptAction::RemoveInput);
    assert!(s.step(ScriptEvent::RemoveFailed { message: "busy".to_string() }) == ScriptAction::RemoveOutput);
    assert!(s.step(ScriptEvent::RemoveFailed { message: "missing".to_string() }) == ScriptAction::RemoveDir);
    assert!(s.step(ScriptEvent::Removed) == ScriptAction::Finish);
    match s.finish() {
        Err(ScriptError::Run { error: RunError::Launch { message } }) => assert_eq!(message, "oom"),
        _ => panic!("expected the launch error"),
    }
}

#[test]
fn missing_output_is_an_error_after_teardown() {
    let mut s = ScriptSession::new("/tmp/sb", "x".to_string(), "tok");
    s.step(ScriptEvent::DirMade);
    s.step(ScriptEvent::InputWritten);
    drive_container(
        &mut s,
        vec![RunEvent::Created, RunEvent::Started, RunEvent::Drained { elapsed_ms: 1 }, RunEvent::Stopped, RunEvent::Removed],
    );
    assert!(s.step(ScriptEvent::OutputMissing) == ScriptAction::RemoveInput);
    s.step(ScriptEvent::Removed);
    s.step(ScriptEvent::Removed);
    assert!(s.step(ScriptEvent::Removed) == ScriptAction::Finish);
    assert!(matches!(s.finish(), Err(ScriptError::MissingOutput)));
}

#[test]
fn failed_directory_creation_finishes_at_once() {
    let mut s = ScriptSession::new("/nope", "x".to_string(), "tok");
    assert!(s.step(ScriptEvent::DirFailed { message: "denied".to_string() }) == ScriptAction::Finish);
    match s.finish() {
        Err(ScriptError::Io { message }) => assert_eq!(message, "denied"),
        _ => panic!("expected an I/O error"),
    }
}

#[test]
fn failed_input_write_tears_down() {
    let mut s = ScriptSession::new("/tmp/sb", "x".to_string(), "tok");
    s.step(ScriptEvent::DirMade);
    assert!(s.step(ScriptEvent::InputFailed { message: "full".to_string() }) == ScriptAction::RemoveInput);
    s.step(ScriptEvent::Removed);
    s.step(ScriptEvent::Removed);
    assert!(s.step(ScriptEvent::Removed) == ScriptAction::Finish);
    assert!(matches!(s.finish(), Err(ScriptError::Io { .. })));
}

#[test]
fn concurrent_sessions_share_nothing() {
    let a = ScriptSession::start("/tmp/sb", "print(1)".to_string());
    let b = ScriptSession::start("/tmp/sb", "print(2)".to_string());
    assert_ne!(a.dir_path(), b.dir_path());
    assert_ne!(a.output_file_path(), b.output_file_path());
    assert_ne!(a.container_settings().name, b.container_settings().name);
    assert!(a.dir_path().starts_with("/tmp/sb/python-"));
}

#[test]
fn script_container_runs_the_workspace_source() {
    let s = ScriptSession::new("/tmp/sb", "x".to_string(), "tok");
    let c = s.container_settings();
    assert_eq!(
        c.command,
        vec![
            "sh".to_string(),
            "-c".to_string(),
            "python3 /sandbox/python-code.py > /sandbox/output.txt".to_string(),
        ]
    );
    assert_eq!(c.binds[0], "/tmp/sb/python-tok:/sandbox:rw");
    assert_eq!(c.name, "botpy-python-tok");
    assert_eq!(c.image, "python:latest");
}
