//! The client's model of the daemon's per-namespace state.
//!
//! The runtime daemon owns the real records; this model states exactly
//! how each lifecycle call changes them and which error each call
//! returns, so that the orchestration logic can be verified against
//! those semantics. Every transition is defined once at the
//! specification level; the executable state tracker is proved to
//! follow the transitions.

use vstd::prelude::*;
use crate::errors::LifecycleError;
use crate::container::{ContainerSpec, ContainerSpecView, StdioPaths};

verus! {

/// Lifecycle states of a task: created but not yet running, running,
/// or exited with a status.
#[derive(Clone, Copy, Debug, PartialEq, Eq, Structural)]
pub enum TaskPhase {
    Created,
    Running,
    Exited,
}

/// A task bound to a container.
pub struct TaskRecord {
    pub container_id: String,
    pub stdio: StdioPaths,
    pub terminal: bool,
    pub phase: TaskPhase,
    /// The process id, meaningful once the task is running.
    pub pid: u32,
    /// The exit status, meaningful once the task has exited.
    pub exit_status: u32,
}

/// A task record at the specification level.
#[verifier::ext_equal]
pub struct TaskView {
    pub container_id: Seq<char>,
    pub stdin: Seq<char>,
    pub stdout: Seq<char>,
    pub stderr: Seq<char>,
    pub terminal: bool,
    pub phase: TaskPhase,
    pub pid: u32,
    pub exit_status: u32,
}

impl View for TaskRecord {
    type V = TaskView;

    open spec fn view(&self) -> TaskView {
        TaskView {
            container_id: self.container_id@,
            stdin: self.stdio.stdin@,
            stdout: self.stdio.stdout@,
            stderr: self.stdio.stderr@,
            terminal: self.terminal,
            phase: self.phase,
            pid: self.pid,
            exit_status: self.exit_status,
        }
    }
}

/// The namespace's state at the specification level.
#[verifier::ext_equal]
pub struct StateView {
    /// Names of the images present in the content store.
    pub images: Seq<Seq<char>>,
    /// The container records, in creation order.
    pub containers: Seq<ContainerSpecView>,
    /// The task records, in creation order.
    pub tasks: Seq<TaskView>,
}

impl StateView {
    pub open spec fn empty() -> StateView {
        StateView { images: Seq::empty(), containers: Seq::empty(), tasks: Seq::empty() }
    }

    pub open spec fn has_image(self, name: Seq<char>) -> bool {
        exists|i: int| 0 <= i < self.images.len() && self.images[i] == name
    }

    pub open spec fn has_container(self, id: Seq<char>) -> bool {
        exists|i: int| 0 <= i < self.containers.len() && self.containers[i].id == id
    }

    /// The index of the container with the given id, when one exists.
    pub open spec fn container_index(self, id: Seq<char>) -> int {
        choose|i: int| 0 <= i < self.containers.len() && self.containers[i].id == id
    }

    pub open spec fn has_task(self, container_id: Seq<char>) -> bool {
        exists|i: int| 0 <= i < self.tasks.len() && self.tasks[i].container_id == container_id
    }

    /// The index of the task bound to the given container, when one exists.
    pub open spec fn task_index(self, container_id: Seq<char>) -> int {
        choose|i: int| 0 <= i < self.tasks.len() && self.tasks[i].container_id == container_id
    }

    /// The task bound to the given container, when one exists.
    pub open spec fn task_at(self, container_id: Seq<char>) -> TaskView {
        self.tasks[self.task_index(container_id)]
    }

    /// Container ids are unique, at most one task is bound to a
    /// container, and every task is bound to an existing container.
    pub open spec fn wf(self) -> bool {
        &&& (forall|i: int, j: int|
            0 <= i < j < self.containers.len() ==> self.containers[i].id != self.containers[j].id)
        &&& (forall|i: int, j: int|
            0 <= i < j < self.tasks.len()
                ==> self.tasks[i].container_id != self.tasks[j].container_id)
        &&& (forall|i: int|
            0 <= i < self.tasks.len() ==> self.has_container(#[trigger] self.tasks[i].container_id))
    }
}

/// Pulling an image makes it present in the store; re-pulling an image
/// that is already present changes nothing.
pub open spec fn pull_transition(s: StateView, image: Seq<char>) -> StateView {
    if s.has_image(image) {
        s
    } else {
        StateView { images: s.images.push(image), ..s }
    }
}

/// Creating a container: an incomplete spec is rejected, a taken id is
/// rejected, otherwise the record is appended.
pub open spec fn create_container_transition(s: StateView, c: ContainerSpecView) -> (StateView,
    Result<(), LifecycleError>) {
    if !c.valid() {
        (s, Err(LifecycleError::InvalidSpecError))
    } else if s.has_container(c.id) {
        (s, Err(LifecycleError::DuplicateContainerError))
    } else {
        (StateView { containers: s.containers.push(c), ..s }, Ok(()))
    }
}

/// Deleting a container: absent records are reported as not found, a
/// container with a task still bound is busy, otherwise the record is
/// removed.
pub open spec fn delete_container_transition(s: StateView, id: Seq<char>) -> (StateView, Result<
    (),
    LifecycleError,
>) {
    if !s.has_container(id) {
        (s, Err(LifecycleError::NotFoundError))
    } else if s.has_task(id) {
        (s, Err(LifecycleError::ContainerBusyError))
    } else {
        (StateView { containers: s.containers.remove(s.container_index(id)), ..s }, Ok(()))
    }
}

/// Creating a task binds it to an existing container that has no task
/// yet; the new task starts in the `Created` phase.
pub open spec fn create_task_transition(s: StateView, t: TaskView) -> (StateView, Result<
    (),
    LifecycleError,
>) {
    if !s.has_container(t.container_id) {
        (s, Err(LifecycleError::ContainerNotFoundError))
    } else if s.has_task(t.container_id) {
        (s, Err(LifecycleError::DuplicateTaskError))
    } else {
        (
            StateView {
                tasks: s.tasks.push(TaskView { phase: TaskPhase::Created, pid: 0, exit_status: 0, ..t }),
                ..s
            },
            Ok(()),
        )
    }
}

/// Starting a task moves it from `Created` to `Running` and records the
/// process id the daemon assigned.
pub open spec fn start_task_transition(s: StateView, container_id: Seq<char>, pid: u32) -> (
    StateView,
    Result<(), LifecycleError>,
) {
    if !s.has_task(container_id) {
        (s, Err(LifecycleError::NotFoundError))
    } else if s.task_at(container_id).phase != TaskPhase::Created {
        (s, Err(LifecycleError::InvalidStateError))
    } else {
        (
            StateView {
                tasks: s.tasks.update(
                    s.task_index(container_id),
                    TaskView { phase: TaskPhase::Running, pid, ..s.task_at(container_id) },
                ),
                ..s
            },
            Ok(()),
        )
    }
}

/// The process of a running task finishing moves the task to `Exited`
/// and fixes its exit status.
pub open spec fn exit_transition(s: StateView, container_id: Seq<char>, status: u32) -> (
    StateView,
    Result<(), LifecycleError>,
) {
    if !s.has_task(container_id) {
        (s, Err(LifecycleError::NotFoundError))
    } else if s.task_at(container_id).phase != TaskPhase::Running {
        (s, Err(LifecycleError::InvalidStateError))
    } else {
        (
            StateView {
                tasks: s.tasks.update(
                    s.task_index(container_id),
                    TaskView {
                        phase: TaskPhase::Exited,
                        exit_status: status,
                        ..s.task_at(container_id)
                    },
                ),
                ..s
            },
            Ok(()),
        )
    }
}

/// What waiting on a task observes: the exit status once the task has
/// exited, nothing yet while it is still created or running. Waiting
/// never changes the state, so once a task has exited every wait
/// observes the same terminal status.
pub open spec fn wait_observation(s: StateView, container_id: Seq<char>) -> Result<
    Option<u32>,
    LifecycleError,
> {
    if !s.has_task(container_id) {
        Err(LifecycleError::NotFoundError)
    } else if s.task_at(container_id).phase == TaskPhase::Exited {
        Ok(Some(s.task_at(container_id).exit_status))
    } else {
        Ok(None)
    }
}

/// Deleting a task: it must exist and must not be running. A task that
/// was created but never started, or that has exited, can be deleted;
/// deleting a running task is an ordering violation the orchestrator
/// must never trigger — it waits (or the task is stopped) first.
pub open spec fn delete_task_transition(s: StateView, container_id: Seq<char>) -> (StateView,
    Result<(), LifecycleError>) {
    if !s.has_task(container_id) {
        (s, Err(LifecycleError::NotFoundError))
    } else if s.task_at(container_id).phase == TaskPhase::Running {
        (s, Err(LifecycleError::TaskStillRunningError))
    } else {
        (StateView { tasks: s.tasks.remove(s.task_index(container_id)), ..s }, Ok(()))
    }
}

/// Builds the view of a task that `create_task` binds to a container.
pub open spec fn new_task_view(
    container_id: Seq<char>,
    stdin: Seq<char>,
    stdout: Seq<char>,
    stderr: Seq<char>,
    terminal: bool,
) -> TaskView {
    TaskView {
        container_id,
        stdin,
        stdout,
        stderr,
        terminal,
        phase: TaskPhase::Created,
        pid: 0,
        exit_status: 0,
    }
}

/// A container found at an index is the one `container_index` names,
/// as long as ids are unique.
proof fn lemma_container_found_is_index(s: StateView, id: Seq<char>, i: int)
    requires
        s.wf(),
        0 <= i < s.containers.len(),
        s.containers[i].id == id,
    ensures
        s.has_container(id),
        s.container_index(id) == i,
{
    assert(s.has_container(id));
    let k = s.container_index(id);
    assert(0 <= k < s.containers.len() && s.containers[k].id == id);
    if k != i {
        if k < i {
            assert(s.containers[k].id != s.containers[i].id);
        } else {
            assert(s.containers[i].id != s.containers[k].id);
        }
    }
}

/// A task found at an index is the one `task_index` names, as long as
/// at most one task is bound to a container.
proof fn lemma_task_found_is_index(s: StateView, container_id: Seq<char>, i: int)
    requires
        s.wf(),
        0 <= i < s.tasks.len(),
        s.tasks[i].container_id == container_id,
    ensures
        s.has_task(container_id),
        s.task_index(container_id) == i,
        s.task_at(container_id) == s.tasks[i],
{
    assert(s.has_task(container_id));
    let k = s.task_index(container_id);
    assert(0 <= k < s.tasks.len() && s.tasks[k].container_id == container_id);
    if k != i {
        if k < i {
            assert(s.tasks[k].container_id != s.tasks[i].container_id);
        } else {
            assert(s.tasks[i].container_id != s.tasks[k].container_id);
        }
    }
}

/// Creating a container from a valid spec whose id is free, and
/// deleting it right away with no task ever created, both succeed and
/// leave no record behind: the namespace is exactly what it was.
pub proof fn lemma_create_then_delete_restores(s: StateView, c: ContainerSpecView)
    requires
        c.valid(),
        !s.has_container(c.id),
        !s.has_task(c.id),
    ensures
        ({
            let (s1, r1) = create_container_transition(s, c);
            let (s2, r2) = delete_container_transition(s1, c.id);
            &&& r1 == Ok::<(), LifecycleError>(())
            &&& r2 == Ok::<(), LifecycleError>(())
            &&& s2 == s
        }),
{
    let (s1, r1) = create_container_transition(s, c);
    assert(s1.containers[s.containers.len() as int] == c);
    assert(s1.has_container(c.id));
    let k = s1.container_index(c.id);
    assert(0 <= k < s1.containers.len() && s1.containers[k].id == c.id);
    if k < s.containers.len() {
        assert(s.containers[k] == s1.containers[k]);
        assert(s.has_container(c.id));
    }
    let (s2, r2) = delete_container_transition(s1, c.id);
    assert(s2.containers =~= s.containers);
    assert(s2 =~= s);
}

/// Waiting on a task that has already exited observes its terminal
/// status. Waiting never changes the state, so every further wait on
/// the same task observes that same status.
pub proof fn lemma_wait_terminal_idempotent(s: StateView, container_id: Seq<char>)
    requires
        s.has_task(container_id),
        s.task_at(container_id).phase == TaskPhase::Exited,
    ensures
        wait_observation(s, container_id) == Ok::<Option<u32>, LifecycleError>(
            Some(s.task_at(container_id).exit_status),
        ),
{
}

/// Creating a container under an id that already exists is rejected as
/// a duplicate, and the namespace, in particular the pre-existing
/// container, is left untouched.
pub proof fn lemma_create_duplicate_rejected(s: StateView, c: ContainerSpecView)
    requires
        c.valid(),
        s.has_container(c.id),
    ensures
        create_container_transition(s, c).0 == s,
        create_container_transition(s, c).1 == Err::<(), LifecycleError>(
            LifecycleError::DuplicateContainerError,
        ),
{
}

/// Deleting a task before it has exited is rejected, and the task is
/// still there, still running.
pub proof fn lemma_delete_running_task_rejected(s: StateView, container_id: Seq<char>)
    requires
        s.has_task(container_id),
        s.task_at(container_id).phase == TaskPhase::Running,
    ensures
        delete_task_transition(s, container_id).0 == s,
        delete_task_transition(s, container_id).1 == Err::<(), LifecycleError>(
            LifecycleError::TaskStillRunningError,
        ),
        delete_task_transition(s, container_id).0.task_at(container_id).phase
            == TaskPhase::Running,
{
}

/// Re-pulling an image that a pull has already made present changes
/// nothing: pulling is idempotent.
pub proof fn lemma_pull_idempotent(s: StateView, image: Seq<char>)
    ensures
        pull_transition(pull_transition(s, image), image) == pull_transition(s, image),
{
    let s1 = pull_transition(s, image);
    if !s.has_image(image) {
        assert(s1.images[s.images.len() as int] == image);
        assert(s1.has_image(image));
    }
}

/// Replacing one task's phase, pid, or exit status leaves the
/// namespace well-formed: bindings and ids do not change.
proof fn lemma_update_task_preserves_wf(s_old: StateView, s_new: StateView, i: int)
    requires
        s_old.wf(),
        0 <= i < s_old.tasks.len(),
        s_new.containers == s_old.containers,
        s_new.tasks.len() == s_old.tasks.len(),
        forall|j: int|
            0 <= j < s_old.tasks.len() ==> (#[trigger] s_new.tasks[j]).container_id
                == s_old.tasks[j].container_id,
    ensures
        s_new.wf(),
{
    assert forall|t: int|
        0 <= t < s_new.tasks.len() implies s_new.has_container(
        #[trigger] s_new.tasks[t].container_id,
    ) by {
        let w = choose|w: int|
            0 <= w < s_old.containers.len() && s_old.containers[w].id
                == s_old.tasks[t].container_id;
        assert(s_new.containers[w] == s_old.containers[w]);
    }
}

/// The executable tracker of the namespace's state. It follows the
/// specification-level transitions exactly, one call per transition.
pub struct RuntimeState {
    pub images: Vec<String>,
    pub containers: Vec<ContainerSpec>,
    pub tasks: Vec<TaskRecord>,
}

impl View for RuntimeState {
    type V = StateView;

    open spec fn view(&self) -> StateView {
        StateView {
            images: self.images.deep_view(),
            containers: self.containers@.map_values(|c: ContainerSpec| c@),
            tasks: self.tasks@.map_values(|t: TaskRecord| t@),
        }
    }
}

impl RuntimeState {
    /// A fresh namespace with no images, containers, or tasks.
    pub fn new() -> (s: RuntimeState)
        ensures
            s@ == StateView::empty(),
            s@.wf(),
    {
        let s = RuntimeState { images: Vec::new(), containers: Vec::new(), tasks: Vec::new() };
        proof {
            assert(s@.images =~= Seq::<Seq<char>>::empty());
            assert(s@.containers =~= Seq::<ContainerSpecView>::empty());
            assert(s@.tasks =~= Seq::<TaskView>::empty());
            assert(s@ =~= StateView::empty());
        }
        s
    }

    /// The index of the container with the given id, if present.
    fn find_container(&self, id: &String) -> (r: Option<usize>)
        ensures
            match r {
                Some(i) => i < self@.containers.len() && self@.containers[i as int].id == id@,
                None => !self@.has_container(id@),
            },
    {
        let mut i: usize = 0;
        while i < self.containers.len()
            invariant
                i <= self.containers.len(),
                forall|j: int| 0 <= j < i ==> self@.containers[j].id != id@,
            decreases self.containers.len() - i,
        {
            if self.containers[i].id == *id {
                return Some(i);
            }
            i = i + 1;
        }
        None
    }

    /// The index of the task bound to the given container, if present.
    fn find_task(&self, container_id: &String) -> (r: Option<usize>)
        ensures
            match r {
                Some(i) => i < self@.tasks.len() && self@.tasks[i as int].container_id
                    == container_id@,
                None => !self@.has_task(container_id@),
            },
    {
        let mut i: usize = 0;
        while i < self.tasks.len()
            invariant
                i <= self.tasks.len(),
                forall|j: int| 0 <= j < i ==> self@.tasks[j].container_id != container_id@,
            decreases self.tasks.len() - i,
        {
            if self.tasks[i].container_id == *container_id {
                return Some(i);
            }
            i = i + 1;
        }
        None
    }

    /// Requests that the image be present in the content store.
    /// Re-pulling an image that is already present is a no-op.
    pub fn pull_image(&mut self, image: &String)
        ensures
            final(self)@ == pull_transition(old(self)@, image@),
            old(self)@.wf() ==> final(self)@.wf(),
    {
        let mut i: usize = 0;
        while i < self.images.len()
            invariant
                i <= self.images.len(),
                forall|j: int| 0 <= j < i ==> self@.images[j] != image@,
                *self == *old(self),
            decreases self.images.len() - i,
        {
            if self.images[i] == *image {
                proof {
                    assert(old(self)@.images[i as int] == image@);
                    assert(old(self)@.has_image(image@));
                }
                return ;
            }
            i = i + 1;
        }
        self.images.push(image.clone());
        proof {
            assert(self@.images =~= old(self)@.images.push(image@));
            assert(self@ =~= pull_transition(old(self)@, image@));
            if old(self)@.wf() {
                assert forall|t: int|
                    0 <= t < self@.tasks.len() implies self@.has_container(
                    #[trigger] self@.tasks[t].container_id,
                ) by {
                    let w = choose|w: int|
                        0 <= w < old(self)@.containers.len() && old(self)@.containers[w].id == old(
                            self,
                        )@.tasks[t].container_id;
                    assert(self@.containers[w] == old(self)@.containers[w]);
                }
            }
        }
    }

    /// Creates a container record from the spec, rejecting an invalid
    /// spec or a taken id and leaving the state unchanged in that case.
    pub fn create_container(&mut self, spec: ContainerSpec) -> (r: Result<(), LifecycleError>)
        ensures
            final(self)@ == create_container_transition(old(self)@, spec@).0,
            r == create_container_transition(old(self)@, spec@).1,
            old(self)@.wf() ==> final(self)@.wf(),
    {
        let ghost sv = spec@;
        if let Err(e) = spec.validate() {
            return Err(e);
        }
        match self.find_container(&spec.id) {
            Some(_) => Err(LifecycleError::DuplicateContainerError),
            None => {
                self.containers.push(spec);
                proof {
                    assert(self@.containers =~= old(self)@.containers.push(sv));
                    assert(self@ =~= create_container_transition(old(self)@, sv).0);
                    if old(self)@.wf() {
                        assert forall|i: int|
                            0 <= i < self@.tasks.len() implies self@.has_container(
                            #[trigger] self@.tasks[i].container_id,
                        ) by {
                            let w = choose|w: int|
                                0 <= w < old(self)@.containers.len() && old(
                                    self,
                                )@.containers[w].id == old(self)@.tasks[i].container_id;
                            assert(self@.containers[w] == old(self)@.containers[w]);
                        }
                    }
                }
                Ok(())
            },
        }
    }

    /// Deletes a container record. A missing record is reported as not
    /// found; a container with a task still bound to it is busy.
    pub fn delete_container(&mut self, id: &String) -> (r: Result<(), LifecycleError>)
        requires
            old(self)@.wf(),
        ensures
            final(self)@ == delete_container_transition(old(self)@, id@).0,
            r == delete_container_transition(old(self)@, id@).1,
            final(self)@.wf(),
    {
        match self.find_container(id) {
            None => Err(LifecycleError::NotFoundError),
            Some(i) => {
                proof {
                    lemma_container_found_is_index(old(self)@, id@, i as int);
                }
                match self.find_task(id) {
                    Some(_) => Err(LifecycleError::ContainerBusyError),
                    None => {
                        self.containers.remove(i);
                        proof {
                            assert(self@.containers =~= old(self)@.containers.remove(i as int));
                            assert(self@ =~= delete_container_transition(old(self)@, id@).0);
                            assert forall|t: int|
                                0 <= t < self@.tasks.len() implies self@.has_container(
                                #[trigger] self@.tasks[t].container_id,
                            ) by {
                                let cid = old(self)@.tasks[t].container_id;
                                let w = choose|w: int|
                                    0 <= w < old(self)@.containers.len() && old(
                                        self,
                                    )@.containers[w].id == cid;
                                assert(cid != id@);
                                if w < i as int {
                                    assert(self@.containers[w] == old(self)@.containers[w]);
                                } else {
                                    assert(self@.containers[w - 1] == old(self)@.containers[w]);
                                }
                            }
                        }
                        Ok(())
                    },
                }
            },
        }
    }

    /// Binds a new task, in the `Created` phase, to an existing
    /// container that has no task yet.
    pub fn create_task(&mut self, container_id: &String, stdio: StdioPaths, terminal: bool) -> (r:
        Result<(), LifecycleError>)
        ensures
            final(self)@ == create_task_transition(
                old(self)@,
                new_task_view(
                    container_id@,
                    stdio.stdin@,
                    stdio.stdout@,
                    stdio.stderr@,
                    terminal,
                ),
            ).0,
            r == create_task_transition(
                old(self)@,
                new_task_view(
                    container_id@,
                    stdio.stdin@,
                    stdio.stdout@,
                    stdio.stderr@,
                    terminal,
                ),
            ).1,
            old(self)@.wf() ==> final(self)@.wf(),
    {
        let ghost tv = new_task_view(
            container_id@,
            stdio.stdin@,
            stdio.stdout@,
            stdio.stderr@,
            terminal,
        );
        match self.find_container(container_id) {
            None => Err(LifecycleError::ContainerNotFoundError),
            Some(ci) => {
                match self.find_task(container_id) {
                    Some(_) => Err(LifecycleError::DuplicateTaskError),
                    None => {
                        let record = TaskRecord {
                            container_id: container_id.clone(),
                            stdio,
                            terminal,
                            phase: TaskPhase::Created,
                            pid: 0,
                            exit_status: 0,
                        };
                        self.tasks.push(record);
                        proof {
                            assert(self@.tasks =~= old(self)@.tasks.push(tv));
                            assert(self@ =~= create_task_transition(old(self)@, tv).0);
                            if old(self)@.wf() {
                                assert forall|t: int|
                                    0 <= t < self@.tasks.len() implies self@.has_container(
                                    #[trigger] self@.tasks[t].container_id,
                                ) by {
                                    if t < old(self)@.tasks.len() {
                                        let w = choose|w: int|
                                            0 <= w < old(self)@.containers.len() && old(
                                                self,
                                            )@.containers[w].id == old(self)@.tasks[t].container_id;
                                        assert(self@.containers[w] == old(self)@.containers[w]);
                                    } else {
                                        assert(self@.containers[ci as int].id == container_id@);
                                    }
                                }
                            }
                        }
                        Ok(())
                    },
                }
            },
        }
    }

    /// Starts a created task, recording the process id the daemon
    /// assigned; a task in any other phase is in an invalid state.
    pub fn start_task(&mut self, container_id: &String, pid: u32) -> (r: Result<
        (),
        LifecycleError,
    >)
        requires
            old(self)@.wf(),
        ensures
            final(self)@ == start_task_transition(old(self)@, container_id@, pid).0,
            r == start_task_transition(old(self)@, container_id@, pid).1,
            final(self)@.wf(),
    {
        match self.find_task(container_id) {
            None => Err(LifecycleError::NotFoundError),
            Some(i) => {
                proof {
                    lemma_task_found_is_index(old(self)@, container_id@, i as int);
                }
                if !matches!(self.tasks[i].phase, TaskPhase::Created) {
                    Err(LifecycleError::InvalidStateError)
                } else {
                    let t = &mut self.tasks[i];
                    t.phase = TaskPhase::Running;
                    t.pid = pid;
                    proof {
                        assert(self@.tasks =~= old(self)@.tasks.update(
                            i as int,
                            TaskView {
                                phase: TaskPhase::Running,
                                pid,
                                ..old(self)@.task_at(container_id@)
                            },
                        ));
                        assert(self@ =~= start_task_transition(old(self)@, container_id@, pid).0);
                        lemma_update_task_preserves_wf(
                            old(self)@,
                            self@,
                            i as int,
                        );
                    }
                    Ok(())
                }
            },
        }
    }

    /// Records that the process of a running task finished with the
    /// given exit status, making the task's state terminal.
    pub fn exit_task(&mut self, container_id: &String, status: u32) -> (r: Result<
        (),
        LifecycleError,
    >)
        requires
            old(self)@.wf(),
        ensures
            final(self)@ == exit_transition(old(self)@, container_id@, status).0,
            r == exit_transition(old(self)@, container_id@, status).1,
            final(self)@.wf(),
    {
        match self.find_task(container_id) {
            None => Err(LifecycleError::NotFoundError),
            Some(i) => {
                proof {
                    lemma_task_found_is_index(old(self)@, container_id@, i as int);
                }
                if !matches!(self.tasks[i].phase, TaskPhase::Running) {
                    Err(LifecycleError::InvalidStateError)
                } else {
                    let t = &mut self.tasks[i];
                    t.phase = TaskPhase::Exited;
                    t.exit_status = status;
                    proof {
                        assert(self@.tasks =~= old(self)@.tasks.update(
                            i as int,
                            TaskView {
                                phase: TaskPhase::Exited,
                                exit_status: status,
                                ..old(self)@.task_at(container_id@)
                            },
                        ));
                        assert(self@ =~= exit_transition(old(self)@, container_id@, status).0);
                        lemma_update_task_preserves_wf(
                            old(self)@,
                            self@,
                            i as int,
                        );
                    }
                    Ok(())
                }
            },
        }
    }

    /// Observes a task without blocking: the exit status once the task
    /// has exited, nothing yet otherwise. The state never changes, so
    /// after a task has exited every call observes the same status.
    pub fn wait_task(&self, container_id: &String) -> (r: Result<Option<u32>, LifecycleError>)
        requires
            self@.wf(),
        ensures
            r == wait_observation(self@, container_id@),
    {
        match self.find_task(container_id) {
            None => Err(LifecycleError::NotFoundError),
            Some(i) => {
                proof {
                    lemma_task_found_is_index(self@, container_id@, i as int);
                }
                if matches!(self.tasks[i].phase, TaskPhase::Exited) {
                    Ok(Some(self.tasks[i].exit_status))
                } else {
                    Ok(None)
                }
            },
        }
    }

    /// Deletes a task that is not running, releasing its record; a
    /// running task must be waited on (or stopped) first.
    pub fn delete_task(&mut self, container_id: &String) -> (r: Result<(), LifecycleError>)
        requires
            old(self)@.wf(),
        ensures
            final(self)@ == delete_task_transition(old(self)@, container_id@).0,
            r == delete_task_transition(old(self)@, container_id@).1,
            final(self)@.wf(),
    {
        match self.find_task(container_id) {
            None => Err(LifecycleError::NotFoundError),
            Some(i) => {
                proof {
                    lemma_task_found_is_index(old(self)@, container_id@, i as int);
                }
                if matches!(self.tasks[i].phase, TaskPhase::Running) {
                    Err(LifecycleError::TaskStillRunningError)
                } else {
                    self.tasks.remove(i);
                    proof {
                        assert(self@.tasks =~= old(self)@.tasks.remove(i as int));
                        assert(self@ =~= delete_task_transition(old(self)@, container_id@).0);
                        assert forall|t: int|
                            0 <= t < self@.tasks.len() implies self@.has_container(
                            #[trigger] self@.tasks[t].container_id,
                        ) by {
                            let u = if t < i as int {
                                t
                            } else {
                                t + 1
                            };
                            assert(self@.tasks[t] == old(self)@.tasks[u]);
                            let w = choose|w: int|
                                0 <= w < old(self)@.containers.len() && old(
                                    self,
                                )@.containers[w].id == old(self)@.tasks[u].container_id;
                            assert(self@.containers[w] == old(self)@.containers[w]);
                        }
                    }
                    Ok(())
                }
            },
        }
    }
}

} // verus!
