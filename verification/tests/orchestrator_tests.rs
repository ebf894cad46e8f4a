use container_orchestrator::container::{ContainerSpec, StdioPaths};
use container_orchestrator::default_namespace;
use container_orchestrator::default_socket_address;
use container_orchestrator::validate_socket_address;
use container_orchestrator::errors::LifecycleError;
use container_orchestrator::image::parse_image_reference;
use container_orchestrator::model::RuntimeState;
use container_orchestrator::orchestrator::{
    Orchestrator, WorkflowAction, WorkflowConfig, WorkflowEvent, WorkflowPhase,
};
use container_orchestrator::platform::Platform;

fn sample_spec(id: &str) -> ContainerSpec {
    ContainerSpec {
        id: id.to_string(),
        image: parse_image_reference("docker.io/library/alpine:latest").unwrap(),
        runtime_name: "io.containerd.runc.v2".to_string(),
        process_args: vec![
            "/bin/sh".to_string(),
            "-c".to_string(),
            "echo 'Hello'".to_string(),
        ],
        root_path: "rootfs".to_string(),
        root_readonly: false,
    }
}

fn sample_stdio() -> StdioPaths {
    StdioPaths {
        stdin: "/tmp/ct/stdin".to_string(),
        stdout: "/tmp/ct/stdout".to_string(),
        stderr: "/tmp/ct/stderr".to_string(),
    }
}

fn sample_config(id: &str) -> WorkflowConfig {
    WorkflowConfig::new(
        default_namespace(),
        parse_image_reference("docker.io/library/alpine:latest").unwrap(),
        sample_spec(id),
        sample_stdio(),
        false,
    )
    .unwrap()
}

#[test]
fn defaults_match_the_daemon_conventions() {
    assert_eq!(default_namespace(), "default");
    assert_eq!(default_socket_address(), "/run/containerd/containerd.sock");
}

#[test]
fn empty_socket_address_rejected() {
    assert!(matches!(
        validate_socket_address(""),
        Err(LifecycleError::ConnectionError)
    ));
    assert!(validate_socket_address(&default_socket_address()).is_ok());
}

#[test]
fn error_classification() {
    assert!(LifecycleError::NotFoundError.benign_during_cleanup());
    assert!(!LifecycleError::ConnectionError.benign_during_cleanup());
    assert!(LifecycleError::PullError.retryable());
    assert!(!LifecycleError::DuplicateContainerError.retryable());
    assert!(!LifecycleError::PullError.message().is_empty());
    assert!(!LifecycleError::TaskStillRunningError.message().is_empty());
}

#[test]
fn config_rejects_incomplete_container_spec() {
    let mut spec = sample_spec("c1");
    spec.process_args = vec![];
    let r = WorkflowConfig::new(
        default_namespace(),
        parse_image_reference("docker.io/library/alpine:latest").unwrap(),
        spec,
        sample_stdio(),
        false,
    );
    assert!(matches!(r, Err(LifecycleError::InvalidSpecError)));
}

#[test]
fn alpine_workflow_runs_to_completion() {
    let mut daemon = RuntimeState::new();
    let platform = Platform::for_linux_host("x86_64");
    assert_eq!(platform.os, "linux");
    assert_eq!(platform.architecture, "amd64");

    let cid = "my-alpine-container".to_string();
    let mut orch = Orchestrator::new(sample_config("my-alpine-container"));
    let mut guard: u32 = 0;
    while !orch.is_finished() {
        guard += 1;
        assert!(guard < 32, "workflow did not converge");
        let ev = match orch.next_action() {
            WorkflowAction::PullImage => {
                daemon.pull_image(&orch.config.image.reference);
                WorkflowEvent::Completed
            }
            WorkflowAction::CreateContainer => {
                match daemon.create_container(orch.config.container.clone()) {
                    Ok(()) => WorkflowEvent::Completed,
                    Err(error) => WorkflowEvent::Failed { error },
                }
            }
            WorkflowAction::CreateTask => {
                match daemon.create_task(&cid, orch.config.stdio.clone(), orch.config.terminal) {
                    Ok(()) => WorkflowEvent::Completed,
                    Err(error) => WorkflowEvent::Failed { error },
                }
            }
            WorkflowAction::StartTask => match daemon.start_task(&cid, 4242) {
                Ok(()) => {
                    // The shell prints and exits right away.
                    daemon.exit_task(&cid, 0).unwrap();
                    WorkflowEvent::Started { pid: 4242 }
                }
                Err(error) => WorkflowEvent::Failed { error },
            },
            WorkflowAction::WaitTask => match daemon.wait_task(&cid) {
                Ok(Some(status)) => WorkflowEvent::Exited { status },
                Ok(None) => panic!("wait observed a task that has not exited"),
                Err(error) => WorkflowEvent::Failed { error },
            },
            WorkflowAction::CaptureOutput => WorkflowEvent::Captured {
                output: "Hello\n".to_string(),
            },
            WorkflowAction::DeleteTask => match daemon.delete_task(&cid) {
                Ok(()) => WorkflowEvent::Completed,
                Err(error) => WorkflowEvent::Failed { error },
            },
            WorkflowAction::DeleteContainer => match daemon.delete_container(&cid) {
                Ok(()) => WorkflowEvent::Completed,
                Err(error) => WorkflowEvent::Failed { error },
            },
            WorkflowAction::Report => unreachable!("report is not an event"),
        };
        orch.step(ev);
    }

    let summary = orch.result().expect("workflow should succeed");
    assert_eq!(summary.exit_status, 0);
    assert_eq!(summary.output, "Hello\n");
    assert!(orch.swallowed_errors().is_empty());
    assert!(daemon.containers.is_empty());
    assert!(daemon.tasks.is_empty());
    assert_eq!(daemon.images.len(), 1);
}

#[test]
fn start_failure_cleans_up_task_and_container() {
    let mut daemon = RuntimeState::new();
    let cid = "cleanup-demo".to_string();
    let mut orch = Orchestrator::new(sample_config("cleanup-demo"));

    assert!(matches!(orch.next_action(), WorkflowAction::PullImage));
    daemon.pull_image(&orch.config.image.reference);
    orch.step(WorkflowEvent::Completed);

    assert!(matches!(orch.next_action(), WorkflowAction::CreateContainer));
    daemon.create_container(orch.config.container.clone()).unwrap();
    orch.step(WorkflowEvent::Completed);

    assert!(matches!(orch.next_action(), WorkflowAction::CreateTask));
    daemon
        .create_task(&cid, orch.config.stdio.clone(), orch.config.terminal)
        .unwrap();
    orch.step(WorkflowEvent::Completed);

    assert!(matches!(orch.next_action(), WorkflowAction::StartTask));
    orch.step(WorkflowEvent::Failed {
        error: LifecycleError::ConnectionError,
    });

    assert!(matches!(orch.next_action(), WorkflowAction::DeleteTask));
    daemon.delete_task(&cid).unwrap();
    orch.step(WorkflowEvent::Completed);

    assert!(matches!(orch.next_action(), WorkflowAction::DeleteContainer));
    daemon.delete_container(&cid).unwrap();
    orch.step(WorkflowEvent::Completed);

    assert!(orch.is_finished());
    let failure = orch.result().expect_err("workflow should fail");
    assert_eq!(failure.error, LifecycleError::ConnectionError);
    assert_eq!(failure.phase, WorkflowPhase::StartingTask);
    assert_eq!(failure.container_id, "cleanup-demo");
    assert!(orch.swallowed_errors().is_empty());
    assert!(daemon.containers.is_empty());
    assert!(daemon.tasks.is_empty());
}

#[test]
fn cleanup_errors_are_logged_not_propagated() {
    let mut orch = Orchestrator::new(sample_config("masking-demo"));
    orch.step(WorkflowEvent::Completed); // pulled
    orch.step(WorkflowEvent::Completed); // container created
    orch.step(WorkflowEvent::Completed); // task created
    orch.step(WorkflowEvent::Failed {
        error: LifecycleError::ConnectionError,
    }); // start failed
    assert!(matches!(orch.next_action(), WorkflowAction::DeleteTask));
    orch.step(WorkflowEvent::Failed {
        error: LifecycleError::TaskStillRunningError,
    });
    assert!(matches!(orch.next_action(), WorkflowAction::DeleteContainer));
    orch.step(WorkflowEvent::Failed {
        error: LifecycleError::NotFoundError,
    });
    assert!(orch.is_finished());

    let failure = orch.result().expect_err("workflow should fail");
    assert_eq!(failure.error, LifecycleError::ConnectionError);
    assert_eq!(failure.phase, WorkflowPhase::StartingTask);
    assert_eq!(
        orch.swallowed_errors().as_slice(),
        &[
            LifecycleError::TaskStillRunningError,
            LifecycleError::NotFoundError
        ],
    );
}

#[test]
fn duplicate_container_fails_workflow_and_preexisting_survives() {
    let mut daemon = RuntimeState::new();
    daemon.create_container(sample_spec("taken")).unwrap();

    let cid = "taken".to_string();
    let mut orch = Orchestrator::new(sample_config("taken"));
    daemon.pull_image(&orch.config.image.reference);
    orch.step(WorkflowEvent::Completed);

    assert!(matches!(orch.next_action(), WorkflowAction::CreateContainer));
    let error = daemon
        .create_container(orch.config.container.clone())
        .expect_err("id is taken");
    assert_eq!(error, LifecycleError::DuplicateContainerError);
    orch.step(WorkflowEvent::Failed { error });

    assert!(orch.is_finished());
    let failure = orch.result().expect_err("workflow should fail");
    assert_eq!(failure.error, LifecycleError::DuplicateContainerError);
    assert_eq!(failure.phase, WorkflowPhase::CreatingContainer);
    assert_eq!(daemon.containers.len(), 1);
    assert!(daemon.containers[0].id == cid);
}

#[test]
fn pull_failure_reports_without_creating_anything() {
    let mut orch = Orchestrator::new(sample_config("never-created"));
    orch.step(WorkflowEvent::Failed {
        error: LifecycleError::PullError,
    });
    assert!(orch.is_finished());
    let failure = orch.result().expect_err("workflow should fail");
    assert_eq!(failure.error, LifecycleError::PullError);
    assert_eq!(failure.phase, WorkflowPhase::PullingImage);
    assert!(failure.error.retryable());
    assert!(orch.swallowed_errors().is_empty());
}

#[test]
fn mismatched_event_is_an_orchestration_bug() {
    let mut orch = Orchestrator::new(sample_config("mismatch"));
    orch.step(WorkflowEvent::Exited { status: 3 });
    assert!(orch.is_finished());
    let failure = orch.result().expect_err("workflow should fail");
    assert_eq!(failure.error, LifecycleError::InvalidStateError);
    assert_eq!(failure.phase, WorkflowPhase::PullingImage);
}
