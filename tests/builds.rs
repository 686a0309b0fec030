use traq_python_bot::image_build::{BuildError, BuildEvent, BuildState};
use traq_python_bot::naming::{
    fresh_token, make_container_name, make_image_tag, make_input_file, make_output_file,
    make_tar_path, make_workspace_dir,
};
use traq_python_bot::registry::{BuildAll, BuildPlan, BuildSpec, ImageRegistry};
use traq_python_bot::sandbox::fresh_image_tag;

fn produced(id: &str) -> BuildEvent {
    BuildEvent::ImageProduced { id: id.to_string() }
}

fn read(events: Vec<BuildEvent>) -> Result<String, BuildError> {
    let mut s = BuildState::new();
    for e in events {
        s = s.observe(e);
    }
    s.finish()
}

#[test]
fn one_image_id_succeeds() {
    let r = read(vec![BuildEvent::Info, produced("sha256:aa"), BuildEvent::Info]);
    assert_eq!(r.ok().unwrap(), "sha256:aa");
}

#[test]
fn repeated_same_id_succeeds() {
    let r = read(vec![produced("sha256:aa"), produced("sha256:aa")]);
    assert_eq!(r.ok().unwrap(), "sha256:aa");
}

#[test]
fn two_distinct_ids_fail() {
    let r = read(vec![produced("sha256:aa"), BuildEvent::Info, produced("sha256:bb")]);
    match r {
        Err(BuildError::MultipleImageIds { first, second }) => {
            assert_eq!(first, "sha256:aa");
            assert_eq!(second, "sha256:bb");
        }
        _ => panic!("expected MultipleImageIds"),
    }
}

#[test]
fn distinct_ids_then_transport_failure_still_multiple() {
    let r = read(vec![
        produced("a"),
        produced("b"),
        BuildEvent::Failed { message: "eof".to_string() },
    ]);
    assert!(matches!(r, Err(BuildError::MultipleImageIds { .. })));
}

#[test]
fn zero_ids_fail() {
    let r = read(vec![BuildEvent::Info, produced(""), BuildEvent::Info]);
    assert!(matches!(r, Err(BuildError::NoImageId)));
    assert!(matches!(read(vec![]), Err(BuildError::NoImageId)));
}

#[test]
fn transport_failure_aborts() {
    let mut s = BuildState::new();
    s = s.observe(produced("a"));
    s = s.observe(BuildEvent::Failed { message: "broken pipe".to_string() });
    assert!(s.is_failed());
    s = s.observe(produced("a"));
    match s.finish() {
        Err(BuildError::Transport { message }) => assert_eq!(message, "broken pipe"),
        _ => panic!("expected a transport error"),
    }
}

#[test]
fn registry_keeps_one_image_per_name() {
    let mut reg = ImageRegistry::new();
    let mut s = BuildState::new();
    s = s.observe(produced("id1"));
    assert!(reg.record_build("py".to_string(), "botpy-py:1".to_string(), s).is_ok());
    let mut s = BuildState::new();
    s = s.observe(produced("id2"));
    assert!(reg.record_build("py".to_string(), "botpy-py:2".to_string(), s).is_ok());
    let img = reg.lookup("py").ok().unwrap();
    assert_eq!(img.engine_image_id, "id2");
    assert_eq!(img.tag, "botpy-py:2");
    assert_eq!(img.logical_name, "py");
    assert!(reg.lookup("other").is_err());
}

#[test]
fn failed_build_leaves_registry_unchanged() {
    let mut reg = ImageRegistry::new();
    let r = reg.record_build("py".to_string(), "t".to_string(), BuildState::new());
    assert!(matches!(r, Err(BuildError::NoImageId)));
    assert!(reg.lookup("py").is_err());
}

#[test]
fn plan_replaces_spec_of_same_name() {
    let mut plan = BuildPlan::new();
    plan.register(BuildSpec { name: "a".to_string(), context_dir: "d1".to_string(), dockerfile: "Dockerfile".to_string() });
    plan.register(BuildSpec { name: "b".to_string(), context_dir: "d2".to_string(), dockerfile: "Dockerfile".to_string() });
    plan.register(BuildSpec { name: "a".to_string(), context_dir: "d3".to_string(), dockerfile: "Other".to_string() });
    assert_eq!(plan.len(), 2);
    assert_eq!(plan.get(0).name, "a");
    assert_eq!(plan.get(0).context_dir, "d3");
    assert_eq!(plan.get(0).dockerfile, "Other");
    assert_eq!(plan.get(1).name, "b");
}

#[test]
fn names_are_built_from_tokens() {
    assert_eq!(make_image_tag("python", "t1"), "botpy-python:t1");
    assert_eq!(make_container_name("python", "t1"), "botpy-python-t1");
    assert_eq!(make_workspace_dir("/sb", "t1"), "/sb/python-t1");
    assert_eq!(make_input_file("/sb/python-t1"), "/sb/python-t1/python-code.py");
    assert_eq!(make_output_file("/sb/python-t1"), "/sb/python-t1/output.txt");
    assert_eq!(make_tar_path("docker/tar", "python"), "docker/tar/python.tar");
}

#[test]
fn fresh_tokens_are_uuids_and_differ() {
    let a = fresh_token();
    let b = fresh_token();
    assert_eq!(a.len(), 36);
    assert!(a.chars().all(|c| c.is_ascii_hexdigit() && !c.is_ascii_uppercase() || c == '-'));
    assert_ne!(a, b);
    let tag = fresh_image_tag("python");
    assert!(tag.starts_with("botpy-python:"));
    assert_eq!(tag.len(), "botpy-python:".len() + 36);
}

#[test]
fn build_all_registers_every_spec() {
    let mut plan = BuildPlan::new();
    plan.register(BuildSpec { name: "a".to_string(), context_dir: "d1".to_string(), dockerfile: "Dockerfile".to_string() });
    plan.register(BuildSpec { name: "b".to_string(), context_dir: "d2".to_string(), dockerfile: "Dockerfile".to_string() });
    let mut all = BuildAll::new(plan);
    let mut n = 0;
    while let Some(spec) = all.pending() {
        let id = format!("id-{}", spec.name);
        let tag = format!("botpy-{}:t", spec.name);
        let state = BuildState::new().observe(produced(&id));
        all.record(tag, state);
        n += 1;
    }
    assert_eq!(n, 2);
    let reg = all.finish().ok().unwrap();
    assert_eq!(reg.lookup("a").ok().unwrap().engine_image_id, "id-a");
    assert_eq!(reg.lookup("b").ok().unwrap().engine_image_id, "id-b");
    assert!(reg.lookup("c").is_err());
}

#[test]
fn build_all_stops_at_first_failure() {
    let mut plan = BuildPlan::new();
    plan.register(BuildSpec { name: "a".to_string(), context_dir: "d1".to_string(), dockerfile: "Dockerfile".to_string() });
    plan.register(BuildSpec { name: "b".to_string(), context_dir: "d2".to_string(), dockerfile: "Dockerfile".to_string() });
    let mut all = BuildAll::new(plan);
    let state = BuildState::new().observe(produced("x")).observe(produced("y"));
    all.record("t".to_string(), state);
    assert!(all.pending().is_none());
    assert!(matches!(all.finish(), Err(BuildError::MultipleImageIds { .. })));
}
