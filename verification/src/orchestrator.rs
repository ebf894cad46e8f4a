//! The workflow orchestrator.
//!
//! One workflow run sequences pull, container creation, task creation,
//! start, wait, output capture, and teardown, each step gated on the
//! success of the previous one. The orchestrator is a state machine:
//! the driving process asks for the next action, performs the remote
//! call, and hands the outcome back as an event. On any failure after
//! something was created, the machine routes through best-effort
//! cleanup in reverse creation order, swallows (but logs) cleanup
//! errors, and reports the original failure, never a cleanup error.

use vstd::prelude::*;
use vstd::pervasive::unreached;
use crate::container::{ContainerSpec, StdioPaths};
use crate::errors::LifecycleError;
use crate::image::ImageReference;

verus! {

/// The step a workflow run is at.
#[derive(Clone, Copy, Debug, PartialEq, Eq, Structural)]
pub enum WorkflowPhase {
    PullingImage,
    CreatingContainer,
    CreatingTask,
    StartingTask,
    AwaitingExit,
    CapturingOutput,
    RemovingTask,
    RemovingContainer,
    Finished,
}

/// The next call the driving process must perform.
#[derive(Clone, Copy, Debug, PartialEq, Eq, Structural)]
pub enum WorkflowAction {
    PullImage,
    CreateContainer,
    CreateTask,
    StartTask,
    WaitTask,
    CaptureOutput,
    DeleteTask,
    DeleteContainer,
    Report,
}

/// What the driving process observed when it performed the action.
pub enum WorkflowEvent {
    /// The call succeeded with nothing further to record.
    Completed,
    /// The task started and the daemon assigned this process id.
    Started { pid: u32 },
    /// The task exited with this status.
    Exited { status: u32 },
    /// The task's standard output was read back.
    Captured { output: String },
    /// The call failed.
    Failed { error: LifecycleError },
}

/// The decision state of a run, kept apart from captured payloads so
/// that every transition is a plain function of state and event.
#[derive(Clone, Copy, Debug, PartialEq, Eq)]
pub struct WorkflowState {
    pub phase: WorkflowPhase,
    /// Whether the container record was created by this run.
    pub container_created: bool,
    /// Whether the task was created by this run.
    pub task_created: bool,
    /// The first failure, kept verbatim until the report.
    pub failure: Option<LifecycleError>,
    /// The phase the first failure happened in.
    pub failed_phase: Option<WorkflowPhase>,
    /// Whether a task deletion was issued, successfully or not.
    pub task_delete_attempted: bool,
    /// Whether a container deletion was issued, successfully or not.
    pub container_delete_attempted: bool,
}

/// The state a run begins in.
pub open spec fn initial_state() -> WorkflowState {
    WorkflowState {
        phase: WorkflowPhase::PullingImage,
        container_created: false,
        task_created: false,
        failure: None,
        failed_phase: None,
        task_delete_attempted: false,
        container_delete_attempted: false,
    }
}

/// The action each phase asks the driving process for.
pub open spec fn action_of(s: WorkflowState) -> WorkflowAction {
    match s.phase {
        WorkflowPhase::PullingImage => WorkflowAction::PullImage,
        WorkflowPhase::CreatingContainer => WorkflowAction::CreateContainer,
        WorkflowPhase::CreatingTask => WorkflowAction::CreateTask,
        WorkflowPhase::StartingTask => WorkflowAction::StartTask,
        WorkflowPhase::AwaitingExit => WorkflowAction::WaitTask,
        WorkflowPhase::CapturingOutput => WorkflowAction::CaptureOutput,
        WorkflowPhase::RemovingTask => WorkflowAction::DeleteTask,
        WorkflowPhase::RemovingContainer => WorkflowAction::DeleteContainer,
        WorkflowPhase::Finished => WorkflowAction::Report,
    }
}

/// Which event a phase expects on success.
pub open spec fn event_matches(phase: WorkflowPhase, ev: WorkflowEvent) -> bool {
    match phase {
        WorkflowPhase::StartingTask => ev is Started,
        WorkflowPhase::AwaitingExit => ev is Exited,
        WorkflowPhase::CapturingOutput => ev is Captured,
        _ => ev is Completed,
    }
}

/// What teardown still owes: the task first, then the container, then
/// the report. An attempted deletion is not retried.
pub open spec fn next_teardown_phase(s: WorkflowState) -> WorkflowPhase {
    if s.task_created && !s.task_delete_attempted {
        WorkflowPhase::RemovingTask
    } else if s.container_created && !s.container_delete_attempted {
        WorkflowPhase::RemovingContainer
    } else {
        WorkflowPhase::Finished
    }
}

/// Records the deletion attempt a phase stands for, whatever its outcome.
pub open spec fn note_delete_attempt(s: WorkflowState) -> WorkflowState {
    if s.phase is RemovingTask {
        WorkflowState { task_delete_attempted: true, ..s }
    } else if s.phase is RemovingContainer {
        WorkflowState { container_delete_attempted: true, ..s }
    } else {
        s
    }
}

/// Records the first failure with the phase it happened in; a failure
/// observed later, during cleanup, never overwrites it.
pub open spec fn record_failure(s: WorkflowState, e: LifecycleError) -> WorkflowState {
    if s.failure is None {
        WorkflowState { failure: Some(e), failed_phase: Some(s.phase), ..s }
    } else {
        s
    }
}

/// A step that succeeded: advance along the workflow, or along
/// whatever teardown still owes.
pub open spec fn step_succeeded(s: WorkflowState) -> WorkflowState {
    match s.phase {
        WorkflowPhase::PullingImage => WorkflowState {
            phase: WorkflowPhase::CreatingContainer,
            ..s
        },
        WorkflowPhase::CreatingContainer => WorkflowState {
            phase: WorkflowPhase::CreatingTask,
            container_created: true,
            ..s
        },
        WorkflowPhase::CreatingTask => WorkflowState {
            phase: WorkflowPhase::StartingTask,
            task_created: true,
            ..s
        },
        WorkflowPhase::StartingTask => WorkflowState { phase: WorkflowPhase::AwaitingExit, ..s },
        WorkflowPhase::AwaitingExit => WorkflowState { phase: WorkflowPhase::CapturingOutput, ..s },
        WorkflowPhase::CapturingOutput => WorkflowState { phase: WorkflowPhase::RemovingTask, ..s },
        WorkflowPhase::RemovingTask => {
            let s1 = note_delete_attempt(s);
            WorkflowState { phase: next_teardown_phase(s1), ..s1 }
        },
        WorkflowPhase::RemovingContainer => {
            let s1 = note_delete_attempt(s);
            WorkflowState { phase: next_teardown_phase(s1), ..s1 }
        },
        WorkflowPhase::Finished => s,
    }
}

/// A step that failed: record the failure (if it is the first), record
/// the deletion attempt if the step was one, and route to whatever
/// teardown still owes.
pub open spec fn step_failed(s: WorkflowState, e: LifecycleError) -> WorkflowState {
    let s1 = record_failure(note_delete_attempt(s), e);
    WorkflowState { phase: next_teardown_phase(s1), ..s1 }
}

/// The transition relation of a run: total in state and event. An
/// event that does not fit the phase is an orchestration bug and is
/// treated as a failure of the step.
pub open spec fn next(s: WorkflowState, ev: WorkflowEvent) -> WorkflowState {
    if s.phase is Finished {
        s
    } else {
        match ev {
            WorkflowEvent::Failed { error } => step_failed(s, error),
            _ => if event_matches(s.phase, ev) {
                step_succeeded(s)
            } else {
                step_failed(s, LifecycleError::InvalidStateError)
            },
        }
    }
}

/// The invariants every reachable decision state satisfies.
pub open spec fn state_wf(s: WorkflowState) -> bool {
    &&& (s.failure is Some <==> s.failed_phase is Some)
    &&& (s.task_created ==> s.container_created)
    &&& (s.phase is PullingImage || s.phase is CreatingContainer ==> !s.container_created
        && !s.task_created)
    &&& (s.phase is CreatingTask ==> s.container_created && !s.task_created)
    &&& (s.phase is Finished ==> (s.task_created ==> s.task_delete_attempted)
        && (s.container_created ==> s.container_delete_attempted))
}

/// Every step preserves the invariants; in particular, once the run
/// reports, a deletion was attempted for everything it created.
pub proof fn lemma_next_preserves_wf(s: WorkflowState, ev: WorkflowEvent)
    requires
        state_wf(s),
    ensures
        state_wf(next(s, ev)),
{
}

/// The run begins in a well-formed state.
pub proof fn lemma_initial_state_wf()
    ensures
        state_wf(initial_state()),
{
}

/// Once a run has finished, a deletion was attempted for everything
/// it created: no resource leak is observable after the report.
pub proof fn lemma_finished_run_leaks_nothing(s: WorkflowState)
    requires
        state_wf(s),
        s.phase is Finished,
    ensures
        s.task_created ==> s.task_delete_attempted,
        s.container_created ==> s.container_delete_attempted,
{
}

/// A failure already recorded is never overwritten by a later event;
/// in particular a cleanup error never masks the original failure.
pub proof fn lemma_failure_never_masked(s: WorkflowState, ev: WorkflowEvent)
    requires
        s.failure is Some,
    ensures
        next(s, ev).failure == s.failure,
        next(s, ev).failed_phase == s.failed_phase,
{
}

/// If starting the task fails after the container and the task were
/// created, the machine still asks for the task to be deleted and then
/// for the container to be deleted — whatever those two deletions
/// themselves report — and then reports the original start failure.
pub proof fn lemma_start_failure_cleans_up(
    s: WorkflowState,
    e: LifecycleError,
    ev1: WorkflowEvent,
    ev2: WorkflowEvent,
)
    requires
        state_wf(s),
        s.phase is StartingTask,
        s.failure is None,
        s.container_created,
        s.task_created,
        !s.task_delete_attempted,
        !s.container_delete_attempted,
    ensures
        ({
            let s1 = next(s, WorkflowEvent::Failed { error: e });
            let s2 = next(s1, ev1);
            let s3 = next(s2, ev2);
            &&& action_of(s1) == WorkflowAction::DeleteTask
            &&& action_of(s2) == WorkflowAction::DeleteContainer
            &&& s3.phase is Finished
            &&& s3.failure == Some(e)
            &&& s3.failed_phase == Some(WorkflowPhase::StartingTask)
            &&& s3.task_delete_attempted
            &&& s3.container_delete_attempted
        }),
{
}

/// Everything one workflow run needs: the namespace, the image, the
/// container spec, and the task's stdio redirection.
pub struct WorkflowConfig {
    pub namespace: String,
    pub image: ImageReference,
    pub container: ContainerSpec,
    pub stdio: StdioPaths,
    pub terminal: bool,
}

impl WorkflowConfig {
    /// Assembles a configuration, rejecting an incomplete container
    /// spec eagerly instead of deferring the rejection to the daemon.
    pub fn new(
        namespace: String,
        image: ImageReference,
        container: ContainerSpec,
        stdio: StdioPaths,
        terminal: bool,
    ) -> (r: Result<WorkflowConfig, LifecycleError>)
        ensures
            match r {
                Ok(c) => {
                    &&& container@.valid()
                    &&& c.namespace == namespace
                    &&& c.image == image
                    &&& c.container == container
                    &&& c.stdio == stdio
                    &&& c.terminal == terminal
                },
                Err(e) => {
                    &&& !container@.valid()
                    &&& e == LifecycleError::InvalidSpecError
                },
            },
    {
        match container.validate() {
            Err(e) => Err(e),
            Ok(_) => Ok(WorkflowConfig { namespace, image, container, stdio, terminal }),
        }
    }
}

/// A finished run's successful outcome.
#[derive(Debug)]
pub struct WorkflowSummary {
    /// The task's exit status.
    pub exit_status: u32,
    /// The task's captured standard output.
    pub output: String,
}

/// A finished run's failure, with enough context to diagnose it.
#[derive(Debug)]
pub struct WorkflowFailure {
    /// The first error of the run.
    pub error: LifecycleError,
    /// The phase the error happened in.
    pub phase: WorkflowPhase,
    /// The container id the run was working with.
    pub container_id: String,
}

/// What a step observed for the payload bookkeeping: the exit status
/// the run will report.
pub open spec fn observed_exit(s: WorkflowState, ev: WorkflowEvent, prev: Option<u32>) -> Option<
    u32,
> {
    if s.phase is AwaitingExit && ev is Exited {
        Some(ev->status)
    } else {
        prev
    }
}

/// The process id the run will report.
pub open spec fn observed_pid(s: WorkflowState, ev: WorkflowEvent, prev: Option<u32>) -> Option<
    u32,
> {
    if s.phase is StartingTask && ev is Started {
        Some(ev->pid)
    } else {
        prev
    }
}

/// The captured output the run will report.
pub open spec fn observed_output(
    s: WorkflowState,
    ev: WorkflowEvent,
    prev: Option<Seq<char>>,
) -> Option<Seq<char>> {
    if s.phase is CapturingOutput && ev is Captured {
        Some(ev->output@)
    } else {
        prev
    }
}

/// The log of swallowed cleanup errors after a step: an error observed
/// while cleaning up after an earlier failure is logged, not propagated.
pub open spec fn swallowed_after(
    s: WorkflowState,
    ev: WorkflowEvent,
    log: Seq<LifecycleError>,
) -> Seq<LifecycleError> {
    if (s.phase is RemovingTask || s.phase is RemovingContainer) && s.failure is Some
        && ev is Failed {
        log.push(ev->error)
    } else {
        log
    }
}

/// One workflow run: the configuration, the decision state, the
/// captured payloads, and the log of swallowed cleanup errors.
pub struct Orchestrator {
    pub config: WorkflowConfig,
    pub state: WorkflowState,
    /// The process id the daemon assigned at start, once known.
    pub pid: Option<u32>,
    /// The exit status the wait observed, once known.
    pub exit_status: Option<u32>,
    /// The captured standard output, once read back.
    pub output: Option<String>,
    /// Cleanup errors that were swallowed, kept for the caller's log.
    pub swallowed: Vec<LifecycleError>,
}

impl Orchestrator {
    /// The run's invariants: the decision state is well-formed, and on
    /// the successful path the payloads are present once their phase
    /// is past.
    pub open spec fn wf(self) -> bool {
        &&& state_wf(self.state)
        &&& (self.state.failure is None && (self.state.phase is CapturingOutput
            || self.state.phase is RemovingTask || self.state.phase is RemovingContainer
            || self.state.phase is Finished) ==> self.exit_status is Some)
        &&& (self.state.failure is None && (self.state.phase is RemovingTask
            || self.state.phase is RemovingContainer || self.state.phase is Finished)
            ==> self.output is Some)
    }

    /// A fresh run over the given configuration.
    pub fn new(config: WorkflowConfig) -> (o: Orchestrator)
        ensures
            o.config == config,
            o.state == initial_state(),
            o.pid is None,
            o.exit_status is None,
            o.output is None,
            o.swallowed@ == Seq::<LifecycleError>::empty(),
            o.wf(),
    {
        let o = Orchestrator {
            config,
            state: WorkflowState {
                phase: WorkflowPhase::PullingImage,
                container_created: false,
                task_created: false,
                failure: None,
                failed_phase: None,
                task_delete_attempted: false,
                container_delete_attempted: false,
            },
            pid: None,
            exit_status: None,
            output: None,
            swallowed: Vec::new(),
        };
        proof {
            assert(o.swallowed@ =~= Seq::<LifecycleError>::empty());
        }
        o
    }

    /// The call the driving process must perform next.
    pub fn next_action(&self) -> (a: WorkflowAction)
        ensures
            a == action_of(self.state),
    {
        match self.state.phase {
            WorkflowPhase::PullingImage => WorkflowAction::PullImage,
            WorkflowPhase::CreatingContainer => WorkflowAction::CreateContainer,
            WorkflowPhase::CreatingTask => WorkflowAction::CreateTask,
            WorkflowPhase::StartingTask => WorkflowAction::StartTask,
            WorkflowPhase::AwaitingExit => WorkflowAction::WaitTask,
            WorkflowPhase::CapturingOutput => WorkflowAction::CaptureOutput,
            WorkflowPhase::RemovingTask => WorkflowAction::DeleteTask,
            WorkflowPhase::RemovingContainer => WorkflowAction::DeleteContainer,
            WorkflowPhase::Finished => WorkflowAction::Report,
        }
    }

    /// Whether the run has finished and `result` may be read.
    pub fn is_finished(&self) -> (r: bool)
        ensures
            r == (self.state.phase is Finished),
    {
        matches!(self.state.phase, WorkflowPhase::Finished)
    }

    /// Records the deletion attempt the current phase stands for.
    fn note_attempt(&mut self)
        ensures
            final(self).state == note_delete_attempt(old(self).state),
            final(self).config == old(self).config,
            final(self).pid == old(self).pid,
            final(self).exit_status == old(self).exit_status,
            final(self).output == old(self).output,
            final(self).swallowed == old(self).swallowed,
    {
        if matches!(self.state.phase, WorkflowPhase::RemovingTask) {
            self.state.task_delete_attempted = true;
        } else if matches!(self.state.phase, WorkflowPhase::RemovingContainer) {
            self.state.container_delete_attempted = true;
        }
    }

    /// Handles a failed step: log a swallowed cleanup error, record
    /// the first failure, and route to whatever teardown still owes.
    fn fail_step(&mut self, e: LifecycleError)
        requires
            !(old(self).state.phase is Finished),
        ensures
            final(self).state == step_failed(old(self).state, e),
            final(self).config == old(self).config,
            final(self).pid == old(self).pid,
            final(self).exit_status == old(self).exit_status,
            final(self).output == old(self).output,
            final(self).swallowed == old(self).swallowed,
    {
        self.note_attempt();
        if self.state.failure.is_none() {
            self.state.failed_phase = Some(self.state.phase);
            self.state.failure = Some(e);
        }
        self.state.phase = if self.state.task_created && !self.state.task_delete_attempted {
            WorkflowPhase::RemovingTask
        } else if self.state.container_created && !self.state.container_delete_attempted {
            WorkflowPhase::RemovingContainer
        } else {
            WorkflowPhase::Finished
        };
    }

    /// Handles a successful step: advance along the workflow, or along
    /// whatever teardown still owes.
    fn advance(&mut self)
        requires
            !(old(self).state.phase is Finished),
        ensures
            final(self).state == step_succeeded(old(self).state),
            final(self).config == old(self).config,
            final(self).pid == old(self).pid,
            final(self).exit_status == old(self).exit_status,
            final(self).output == old(self).output,
            final(self).swallowed == old(self).swallowed,
    {
        match self.state.phase {
            WorkflowPhase::PullingImage => {
                self.state.phase = WorkflowPhase::CreatingContainer;
            },
            WorkflowPhase::CreatingContainer => {
                self.state.container_created = true;
                self.state.phase = WorkflowPhase::CreatingTask;
            },
            WorkflowPhase::CreatingTask => {
                self.state.task_created = true;
                self.state.phase = WorkflowPhase::StartingTask;
            },
            WorkflowPhase::StartingTask => {
                self.state.phase = WorkflowPhase::AwaitingExit;
            },
            WorkflowPhase::AwaitingExit => {
                self.state.phase = WorkflowPhase::CapturingOutput;
            },
            WorkflowPhase::CapturingOutput => {
                self.state.phase = WorkflowPhase::RemovingTask;
            },
            WorkflowPhase::RemovingTask | WorkflowPhase::RemovingContainer => {
                self.note_attempt();
                self.state.phase = if self.state.task_created
                    && !self.state.task_delete_attempted {
                    WorkflowPhase::RemovingTask
                } else if self.state.container_created
                    && !self.state.container_delete_attempted {
                    WorkflowPhase::RemovingContainer
                } else {
                    WorkflowPhase::Finished
                };
            },
            WorkflowPhase::Finished => {},
        }
    }

    /// Feeds the outcome of the last action into the machine. The
    /// transition is total: an event that does not fit the phase is an
    /// orchestration bug and fails the step.
    pub fn step(&mut self, ev: WorkflowEvent)
        ensures
            final(self).state == next(old(self).state, ev),
            final(self).config == old(self).config,
            final(self).pid == observed_pid(old(self).state, ev, old(self).pid),
            final(self).exit_status == observed_exit(old(self).state, ev, old(self).exit_status),
            ({
                let prev = match old(self).output {
                    Some(o) => Some(o@),
                    None => None,
                };
                let now = match final(self).output {
                    Some(o) => Some(o@),
                    None => None,
                };
                now == observed_output(old(self).state, ev, prev)
            }),
            final(self).swallowed@ == swallowed_after(old(self).state, ev, old(self).swallowed@),
            old(self).wf() ==> final(self).wf(),
    {
        proof {
            if state_wf(old(self).state) {
                lemma_next_preserves_wf(old(self).state, ev);
            }
        }
        if matches!(self.state.phase, WorkflowPhase::Finished) {
            return ;
        }
        match ev {
            WorkflowEvent::Failed { error } => {
                let cleaning = matches!(
                    self.state.phase,
                    WorkflowPhase::RemovingTask | WorkflowPhase::RemovingContainer,
                ) && self.state.failure.is_some();
                if cleaning {
                    self.swallowed.push(error);
                }
                self.fail_step(error);
            },
            WorkflowEvent::Completed => {
                if matches!(
                    self.state.phase,
                    WorkflowPhase::StartingTask
                        | WorkflowPhase::AwaitingExit
                        | WorkflowPhase::CapturingOutput,
                ) {
                    self.fail_step(LifecycleError::InvalidStateError);
                } else {
                    self.advance();
                }
            },
            WorkflowEvent::Started { pid } => {
                if matches!(self.state.phase, WorkflowPhase::StartingTask) {
                    self.pid = Some(pid);
                    self.advance();
                } else {
                    self.fail_step(LifecycleError::InvalidStateError);
                }
            },
            WorkflowEvent::Exited { status } => {
                if matches!(self.state.phase, WorkflowPhase::AwaitingExit) {
                    self.exit_status = Some(status);
                    self.advance();
                } else {
                    self.fail_step(LifecycleError::InvalidStateError);
                }
            },
            WorkflowEvent::Captured { output } => {
                if matches!(self.state.phase, WorkflowPhase::CapturingOutput) {
                    self.output = Some(output);
                    self.advance();
                } else {
                    self.fail_step(LifecycleError::InvalidStateError);
                }
            },
        }
    }

    /// The run's result once it has finished: the original failure if
    /// any step failed, with the phase and container id for context;
    /// otherwise the exit status and the captured output.
    pub fn result(&self) -> (r: Result<WorkflowSummary, WorkflowFailure>)
        requires
            self.wf(),
            self.state.phase is Finished,
        ensures
            match r {
                Ok(summary) => {
                    &&& self.state.failure is None
                    &&& Some(summary.exit_status) == self.exit_status
                    &&& self.output matches Some(o) && summary.output@ == o@
                },
                Err(f) => {
                    &&& Some(f.error) == self.state.failure
                    &&& Some(f.phase) == self.state.failed_phase
                    &&& f.container_id@ == self.config.container.id@
                },
            },
            r is Ok <==> self.state.failure is None,
    {
        match self.state.failure {
            Some(e) => {
                let phase = match self.state.failed_phase {
                    Some(p) => p,
                    None => unreached(),
                };
                Err(WorkflowFailure {
                    error: e,
                    phase,
                    container_id: self.config.container.id.clone(),
                })
            },
            None => {
                let status = match self.exit_status {
                    Some(v) => v,
                    None => unreached(),
                };
                let output = match &self.output {
                    Some(o) => o.clone(),
                    None => unreached(),
                };
                Ok(WorkflowSummary { exit_status: status, output })
            },
        }
    }

    /// The errors teardown swallowed, for the caller's log.
    pub fn swallowed_errors(&self) -> (r: &Vec<LifecycleError>)
        ensures
            r@ == self.swallowed@,
    {
        &self.swallowed
    }
}

} // verus!
