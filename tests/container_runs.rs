use traq_python_bot::registry::{Image, ImageRegistry};
use traq_python_bot::runner::{ContainerRun, RunAction, RunError, RunEvent};
use traq_python_bot::sandbox::{
    hello_config, named_image_config, script_command, script_config, start_hello_run,
    start_named_run, RUN_TIMEOUT_MS,
};

fn registry_with(name: &str, tag: &str, id: &str) -> ImageRegistry {
    let mut r = ImageRegistry::new();
    r.insert(Image {
        logical_name: name.to_string(),
        tag: tag.to_string(),
        engine_image_id: id.to_string(),
    });
    r
}

#[test]
fn hello_run_returns_greeting_without_timeout() {
    let mut run = start_hello_run();
    assert!(run.settings().name.starts_with("botpy-hello-world-"));
    assert_eq!(run.settings().image, "hello-world");
    assert!(run.settings().command.is_empty());
    assert!(run.next_action() == RunAction::Create);
    assert!(run.step(RunEvent::Created) == RunAction::Start);
    assert!(run.step(RunEvent::Started) == RunAction::ReadLogs);
    let greeting = b"\nHello from Docker!\nThis message shows that your installation appears to be working correctly.\n".to_vec();
    assert!(run.step(RunEvent::Stdout { bytes: greeting }) == RunAction::ReadLogs);
    assert!(run.step(RunEvent::Drained { elapsed_ms: 812 }) == RunAction::Stop);
    assert!(run.step(RunEvent::Stopped) == RunAction::Remove);
    assert!(run.step(RunEvent::Removed) == RunAction::Finish);
    let result = run.finish().ok().unwrap();
    assert!(result.stdout.contains("Hello from Docker!"));
    assert_eq!(result.stderr, "");
    assert_eq!(result.elapsed_ms, 812);
    assert!(!result.timed_out);
}

#[test]
fn named_hello_world_run_returns_greeting() {
    let registry = registry_with("hello-world", "botpy-hello-world:t", "sha256:d2c9");
    let mut run = start_named_run(&registry, "hello-world", vec![]).ok().unwrap();
    assert!(run.settings().name.starts_with("botpy-hello-world-"));
    assert_eq!(run.settings().image, "botpy-hello-world:t");
    run.step(RunEvent::Created);
    run.step(RunEvent::Started);
    run.step(RunEvent::Stdout { bytes: b"\nHello from Docker!\n".to_vec() });
    run.step(RunEvent::Drained { elapsed_ms: 40 });
    run.step(RunEvent::Stopped);
    assert!(run.step(RunEvent::Removed) == RunAction::Finish);
    let result = run.finish().ok().unwrap();
    assert!(result.stdout.contains("Hello from Docker!"));
    assert!(!result.timed_out);
}

#[test]
fn unknown_image_is_refused() {
    let registry = ImageRegistry::new();
    let r = start_named_run(&registry, "nonexistent", vec![]);
    match r {
        Err(e) => assert_eq!(e.name, "nonexistent"),
        Ok(_) => panic!("a run of an unregistered image was started"),
    }
}

#[test]
fn named_run_uses_tag_args_and_budget() {
    let registry = registry_with("python", "botpy-python:tok", "sha256:abc");
    let c = named_image_config(&registry, "python", vec!["-V".to_string()], "tok")
        .ok()
        .unwrap();
    assert_eq!(c.name, "botpy-python-tok");
    assert_eq!(c.image, "botpy-python:tok");
    assert_eq!(c.command, vec!["-V".to_string()]);
    assert!(c.binds.is_empty());
    assert_eq!(c.timeout_ms, 5000);
    assert_eq!(RUN_TIMEOUT_MS, 5000);
}

#[test]
fn timeout_keeps_partial_output_and_budget() {
    let mut run = ContainerRun::new(hello_config("t"));
    run.step(RunEvent::Created);
    run.step(RunEvent::Started);
    run.step(RunEvent::Stdout { bytes: b"partial".to_vec() });
    run.step(RunEvent::Stderr { bytes: b"warn".to_vec() });
    assert!(run.step(RunEvent::TimedOut) == RunAction::Stop);
    assert!(run.step(RunEvent::StopFailed { message: "already exited".to_string() }) == RunAction::Remove);
    assert!(run.step(RunEvent::Removed) == RunAction::Finish);
    let result = run.finish().ok().unwrap();
    assert!(result.timed_out);
    assert_eq!(result.elapsed_ms, 5000);
    assert_eq!(result.stdout, "partial");
    assert_eq!(result.stderr, "warn");
}

#[test]
fn timeout_with_no_output_is_empty() {
    let mut run = ContainerRun::new(hello_config("t"));
    run.step(RunEvent::Created);
    run.step(RunEvent::Started);
    run.step(RunEvent::TimedOut);
    run.step(RunEvent::Stopped);
    run.step(RunEvent::Removed);
    let result = run.finish().ok().unwrap();
    assert!(result.timed_out);
    assert_eq!(result.stdout, "");
    assert_eq!(result.stderr, "");
}

#[test]
fn create_failure_finishes_without_cleanup() {
    let mut run = ContainerRun::new(hello_config("t"));
    assert!(run.step(RunEvent::CreateFailed { message: "no such image".to_string() }) == RunAction::Finish);
    match run.finish() {
        Err(RunError::Launch { message }) => assert_eq!(message, "no such image"),
        _ => panic!("expected a launch error"),
    }
}

#[test]
fn start_failure_still_stops_and_removes() {
    let mut run = ContainerRun::new(hello_config("t"));
    run.step(RunEvent::Created);
    assert!(run.step(RunEvent::StartFailed { message: "boom".to_string() }) == RunAction::Stop);
    assert!(run.step(RunEvent::Stopped) == RunAction::Remove);
    assert!(run.step(RunEvent::RemoveFailed { message: "gone".to_string() }) == RunAction::Finish);
    assert!(matches!(run.finish(), Err(RunError::Launch { .. })));
}

#[test]
fn log_failure_still_stops_and_removes() {
    let mut run = ContainerRun::new(hello_config("t"));
    run.step(RunEvent::Created);
    run.step(RunEvent::Started);
    run.step(RunEvent::Stdout { bytes: b"x".to_vec() });
    assert!(run.step(RunEvent::LogFailed { message: "reset".to_string() }) == RunAction::Stop);
    assert!(run.step(RunEvent::Stopped) == RunAction::Remove);
    assert!(run.step(RunEvent::Removed) == RunAction::Finish);
    match run.finish() {
        Err(RunError::LogStream { message }) => assert_eq!(message, "reset"),
        _ => panic!("expected a log stream error"),
    }
}

#[test]
fn undecodable_output_still_stops_and_removes() {
    let mut run = ContainerRun::new(hello_config("t"));
    run.step(RunEvent::Created);
    run.step(RunEvent::Started);
    assert!(run.step(RunEvent::Stdout { bytes: vec![0xff, 0xfe] }) == RunAction::Stop);
    run.step(RunEvent::Stopped);
    assert!(run.step(RunEvent::Removed) == RunAction::Finish);
    assert!(matches!(run.finish(), Err(RunError::UndecodableOutput)));
}

#[test]
fn multibyte_output_is_decoded() {
    let mut run = ContainerRun::new(hello_config("t"));
    run.step(RunEvent::Created);
    run.step(RunEvent::Started);
    run.step(RunEvent::Stdout { bytes: "héllo ✓".as_bytes().to_vec() });
    run.step(RunEvent::OtherOutput);
    run.step(RunEvent::Drained { elapsed_ms: 3 });
    run.step(RunEvent::Stopped);
    run.step(RunEvent::Removed);
    assert_eq!(run.finish().ok().unwrap().stdout, "héllo ✓");
}

#[test]
fn out_of_order_events_change_nothing() {
    let mut run = ContainerRun::new(hello_config("t"));
    assert!(run.step(RunEvent::Stdout { bytes: b"x".to_vec() }) == RunAction::Create);
    assert!(run.step(RunEvent::TimedOut) == RunAction::Create);
    assert!(run.step(RunEvent::Created) == RunAction::Start);
    assert!(run.step(RunEvent::Removed) == RunAction::Start);
}

#[test]
fn script_command_redirects_output() {
    let c = script_command();
    assert_eq!(
        c,
        vec![
            "sh".to_string(),
            "-c".to_string(),
            "python3 /sandbox/python-code.py > /sandbox/output.txt".to_string(),
        ]
    );
}

#[test]
fn script_config_mounts_workspace() {
    let c = script_config("/srv/sandbox/python-x", "x");
    assert_eq!(c.name, "botpy-python-x");
    assert_eq!(c.image, "python:latest");
    assert_eq!(c.binds, vec!["/srv/sandbox/python-x:/sandbox:rw".to_string()]);
    assert_eq!(c.command.len(), 3);
    assert_eq!(c.timeout_ms, 5000);
}

#[test]
fn two_named_runs_get_different_containers() {
    let registry = registry_with("hello", "botpy-hello:t", "sha256:1");
    let a = start_named_run(&registry, "hello", vec![]).ok().unwrap();
    let b = start_named_run(&registry, "hello", vec![]).ok().unwrap();
    assert_ne!(a.settings().name, b.settings().name);
}
