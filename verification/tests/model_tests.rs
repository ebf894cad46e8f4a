use container_orchestrator::container::{ContainerSpec, StdioPaths};
use container_orchestrator::errors::LifecycleError;
use container_orchestrator::image::parse_image_reference;
use container_orchestrator::model::{RuntimeState, TaskPhase};

fn sample_spec(id: &str) -> ContainerSpec {
    ContainerSpec {
        id: id.to_string(),
        image: parse_image_reference("docker.io/library/alpine:latest").unwrap(),
        runtime_name: "io.containerd.runc.v2".to_string(),
        process_args: vec![
            "/bin/sh".to_string(),
            "-c".to_string(),
            "echo 'Hello'".to_string(),
        ],
        root_path: "rootfs".to_string(),
        root_readonly: false,
    }
}

fn sample_stdio() -> StdioPaths {
    StdioPaths {
        stdin: "/tmp/ct/stdin".to_string(),
        stdout: "/tmp/ct/stdout".to_string(),
        stderr: "/tmp/ct/stderr".to_string(),
    }
}

#[test]
fn create_then_delete_leaves_nothing_behind() {
    let mut m = RuntimeState::new();
    assert!(m.create_container(sample_spec("c1")).is_ok());
    assert_eq!(m.containers.len(), 1);
    assert!(m.delete_container(&"c1".to_string()).is_ok());
    assert!(m.containers.is_empty());
    assert!(m.tasks.is_empty());
}

#[test]
fn wait_after_exit_observes_same_status_every_time() {
    let mut m = RuntimeState::new();
    let id = "c1".to_string();
    m.create_container(sample_spec("c1")).unwrap();
    m.create_task(&id, sample_stdio(), false).unwrap();
    m.start_task(&id, 42).unwrap();
    m.exit_task(&id, 7).unwrap();
    assert_eq!(m.wait_task(&id).unwrap(), Some(7));
    assert_eq!(m.wait_task(&id).unwrap(), Some(7));
    assert_eq!(m.wait_task(&id).unwrap(), Some(7));
}

#[test]
fn wait_before_exit_observes_nothing_yet() {
    let mut m = RuntimeState::new();
    let id = "c1".to_string();
    m.create_container(sample_spec("c1")).unwrap();
    m.create_task(&id, sample_stdio(), false).unwrap();
    assert_eq!(m.wait_task(&id).unwrap(), None);
    m.start_task(&id, 42).unwrap();
    assert_eq!(m.wait_task(&id).unwrap(), None);
}

#[test]
fn duplicate_container_id_rejected_and_existing_untouched() {
    let mut m = RuntimeState::new();
    m.create_container(sample_spec("c1")).unwrap();
    let mut other = sample_spec("c1");
    other.root_path = "otherroot".to_string();
    assert!(matches!(
        m.create_container(other),
        Err(LifecycleError::DuplicateContainerError)
    ));
    assert_eq!(m.containers.len(), 1);
    assert_eq!(m.containers[0].root_path, "rootfs");
}

#[test]
fn deleting_running_task_rejected_and_task_stays_running() {
    let mut m = RuntimeState::new();
    let id = "c1".to_string();
    m.create_container(sample_spec("c1")).unwrap();
    m.create_task(&id, sample_stdio(), false).unwrap();
    m.start_task(&id, 42).unwrap();
    assert!(matches!(
        m.delete_task(&id),
        Err(LifecycleError::TaskStillRunningError)
    ));
    assert_eq!(m.tasks.len(), 1);
    assert_eq!(m.tasks[0].phase, TaskPhase::Running);
}

#[test]
fn created_task_can_be_deleted_before_start() {
    let mut m = RuntimeState::new();
    let id = "c1".to_string();
    m.create_container(sample_spec("c1")).unwrap();
    m.create_task(&id, sample_stdio(), false).unwrap();
    assert!(m.delete_task(&id).is_ok());
    assert!(m.delete_container(&id).is_ok());
    assert!(m.containers.is_empty());
    assert!(m.tasks.is_empty());
}

#[test]
fn container_with_task_bound_is_busy() {
    let mut m = RuntimeState::new();
    let id = "c1".to_string();
    m.create_container(sample_spec("c1")).unwrap();
    m.create_task(&id, sample_stdio(), false).unwrap();
    assert!(matches!(
        m.delete_container(&id),
        Err(LifecycleError::ContainerBusyError)
    ));
    assert_eq!(m.containers.len(), 1);
}

#[test]
fn missing_records_are_not_found() {
    let mut m = RuntimeState::new();
    let id = "ghost".to_string();
    assert!(matches!(
        m.delete_container(&id),
        Err(LifecycleError::NotFoundError)
    ));
    assert!(matches!(m.delete_task(&id), Err(LifecycleError::NotFoundError)));
    assert!(matches!(m.wait_task(&id), Err(LifecycleError::NotFoundError)));
    assert!(matches!(
        m.start_task(&id, 1),
        Err(LifecycleError::NotFoundError)
    ));
}

#[test]
fn task_for_missing_container_rejected() {
    let mut m = RuntimeState::new();
    assert!(matches!(
        m.create_task(&"nope".to_string(), sample_stdio(), false),
        Err(LifecycleError::ContainerNotFoundError)
    ));
}

#[test]
fn second_task_for_same_container_rejected() {
    let mut m = RuntimeState::new();
    let id = "c1".to_string();
    m.create_container(sample_spec("c1")).unwrap();
    m.create_task(&id, sample_stdio(), false).unwrap();
    assert!(matches!(
        m.create_task(&id, sample_stdio(), false),
        Err(LifecycleError::DuplicateTaskError)
    ));
    assert_eq!(m.tasks.len(), 1);
}

#[test]
fn starting_twice_is_an_invalid_state() {
    let mut m = RuntimeState::new();
    let id = "c1".to_string();
    m.create_container(sample_spec("c1")).unwrap();
    m.create_task(&id, sample_stdio(), false).unwrap();
    m.start_task(&id, 42).unwrap();
    assert!(matches!(
        m.start_task(&id, 43),
        Err(LifecycleError::InvalidStateError)
    ));
    assert_eq!(m.tasks[0].pid, 42);
}

#[test]
fn exit_requires_a_running_task() {
    let mut m = RuntimeState::new();
    let id = "c1".to_string();
    m.create_container(sample_spec("c1")).unwrap();
    m.create_task(&id, sample_stdio(), false).unwrap();
    assert!(matches!(
        m.exit_task(&id, 0),
        Err(LifecycleError::InvalidStateError)
    ));
    m.start_task(&id, 42).unwrap();
    m.exit_task(&id, 3).unwrap();
    assert!(matches!(
        m.exit_task(&id, 4),
        Err(LifecycleError::InvalidStateError)
    ));
    assert_eq!(m.wait_task(&id).unwrap(), Some(3));
}

#[test]
fn incomplete_specs_rejected() {
    let mut m = RuntimeState::new();
    let mut no_args = sample_spec("c1");
    no_args.process_args = vec![];
    assert!(matches!(
        m.create_container(no_args),
        Err(LifecycleError::InvalidSpecError)
    ));
    let mut no_root = sample_spec("c2");
    no_root.root_path = String::new();
    assert!(matches!(
        m.create_container(no_root),
        Err(LifecycleError::InvalidSpecError)
    ));
    let empty_id = sample_spec("");
    assert!(matches!(
        m.create_container(empty_id),
        Err(LifecycleError::InvalidSpecError)
    ));
    assert!(m.containers.is_empty());
}

#[test]
fn pull_is_idempotent() {
    let mut m = RuntimeState::new();
    let img = "docker.io/library/alpine:latest".to_string();
    m.pull_image(&img);
    m.pull_image(&img);
    assert_eq!(m.images.len(), 1);
    let other = "docker.io/library/busybox:latest".to_string();
    m.pull_image(&other);
    assert_eq!(m.images.len(), 2);
    m.pull_image(&img);
    assert_eq!(m.images.len(), 2);
}
