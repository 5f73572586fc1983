use vstd::prelude::*;

verus! {

/// Where one task of a batch stands.
#[derive(Debug, Clone, Copy, PartialEq, Eq, Structural)]
pub enum TaskState {
    Pending,
    Running,
    Succeeded,
    Failed,
}

/// What the caller is to do next.
#[derive(Debug, Clone, Copy, PartialEq, Eq, Structural)]
pub enum DispatchAction {
    /// Spawn the task with this index; it holds one store connection until it ends.
    Start(usize),
    /// Every connection is taken, or nothing is left to start: wait for a task to end.
    AwaitCompletion,
    /// Every task has ended.
    Finished,
}

/// A completion that does not match a running task.
#[derive(Debug, Clone, Copy, PartialEq, Eq, Structural)]
pub enum DispatchError {
    UnknownTask,
    TaskNotRunning,
}

/// Outcome of a batch: the indices of the tasks that succeeded and of those that failed,
/// each in ascending order.
#[derive(Debug, Clone, PartialEq, Eq)]
pub struct BatchReport {
    pub succeeded: Vec<usize>,
    pub failed: Vec<usize>,
}

/// Indices among the first `n` states that equal `state`, in ascending order.
pub open spec fn indices_in_state(states: Seq<TaskState>, state: TaskState, n: int) -> Seq<usize>
    decreases n,
{
    if n <= 0 {
        Seq::empty()
    } else {
        indices_in_state(states, state, n - 1) + if states[n - 1] == state {
            seq![(n - 1) as usize]
        } else {
            Seq::empty()
        }
    }
}

/// Starts a batch of tasks in index order, never more at once than the connection pool
/// holds, and records how each one ended.
pub struct Dispatcher {
    pool_size: usize,
    states: Vec<TaskState>,
    next: usize,
    running: usize,
    running_set: Ghost<Set<int>>,
}

impl Dispatcher {
    /// Number of tasks that may run at once.
    pub closed spec fn pool_size_spec(&self) -> nat {
        self.pool_size as nat
    }

    /// State of each task, by index.
    pub closed spec fn states(&self) -> Seq<TaskState> {
        self.states@
    }

    /// Number of tasks started so far; tasks start in index order.
    pub closed spec fn started(&self) -> nat {
        self.next as nat
    }

    /// Indices of the tasks that are running, each holding one connection.
    pub closed spec fn running_tasks(&self) -> Set<int> {
        self.running_set@
    }

    pub closed spec fn wf(&self) -> bool {
        &&& self.pool_size > 0
        &&& self.next <= self.states@.len()
        &&& forall|i: int|
            0 <= i < self.states@.len() ==> (#[trigger] self.states@[i] is Pending <==> i
                >= self.next)
        &&& forall|i: int|
            #[trigger] self.running_set@.contains(i) <==> (0 <= i < self.states@.len()
                && self.states@[i] is Running)
        &&& self.running_set@.finite()
        &&& self.running_set@.len() == self.running
        &&& self.running <= self.pool_size
    }

    /// A batch of `task_count` pending tasks, run at most `pool_size` at a time.
    pub fn new(pool_size: usize, task_count: usize) -> (r: Self)
        requires
            pool_size > 0,
        ensures
            r.wf(),
            r.pool_size_spec() == pool_size,
            r.states() == Seq::new(task_count as nat, |i: int| TaskState::Pending),
            r.started() == 0,
            r.running_tasks() == Set::<int>::empty(),
    {
        let mut states: Vec<TaskState> = Vec::new();
        let mut i: usize = 0;
        while i < task_count
            invariant
                i <= task_count,
                states@ == Seq::new(i as nat, |j: int| TaskState::Pending),
            decreases task_count - i,
        {
            states.push(TaskState::Pending);
            i = i + 1;
            assert(states@ =~= Seq::new(i as nat, |j: int| TaskState::Pending));
        }
        let r = Dispatcher {
            pool_size,
            states,
            next: 0,
            running: 0,
            running_set: Ghost(Set::empty()),
        };
        r
    }

    /// Decides the next step. While a connection is free and a task is pending, the next
    /// pending task is started; otherwise the caller waits, or the batch is finished.
    pub fn next_action(&mut self) -> (r: DispatchAction)
        requires
            old(self).wf(),
        ensures
            final(self).wf(),
            final(self).pool_size_spec() == old(self).pool_size_spec(),
            old(self).running_tasks().len() < old(self).pool_size_spec() && old(self).started()
                < old(self).states().len() ==> {
                &&& r == DispatchAction::Start(old(self).started() as usize)
                &&& final(self).states() == old(self).states().update(
                    old(self).started() as int,
                    TaskState::Running,
                )
                &&& final(self).started() == old(self).started() + 1
                &&& final(self).running_tasks() == old(self).running_tasks().insert(
                    old(self).started() as int,
                )
            },
            !(old(self).running_tasks().len() < old(self).pool_size_spec() && old(self).started()
                < old(self).states().len()) ==> {
                &&& *final(self) == *old(self)
                &&& r == if old(self).running_tasks().len() > 0 {
                    DispatchAction::AwaitCompletion
                } else {
                    DispatchAction::Finished
                }
            },
            r == DispatchAction::Finished ==> forall|i: int|
                0 <= i < final(self).states().len() ==> #[trigger] final(self).states()[i]
                    is Succeeded || final(self).states()[i] is Failed,
    {
        if self.running < self.pool_size && self.next < self.states.len() {
            let i = self.next;
            proof {
                assert(!self.running_set@.contains(i as int));
            }
            self.states.set(i, TaskState::Running);
            self.next = i + 1;
            self.running = self.running + 1;
            self.running_set = Ghost(self.running_set@.insert(i as int));
            DispatchAction::Start(i)
        } else if self.running > 0 {
            DispatchAction::AwaitCompletion
        } else {
            proof {
                assert forall|i: int| 0 <= i < self.states@.len() implies #[trigger] self.states@[i]
                    is Succeeded || self.states@[i] is Failed by {
                    if self.states@[i] is Running {
                        assert(self.running_set@.contains(i));
                    }
                }
            }
            DispatchAction::Finished
        }
    }

    /// Records that the running task `task` ended, successfully or not, which frees its
    /// connection. A task that is not running is refused and nothing changes.
    pub fn complete(&mut self, task: usize, succeeded: bool) -> (r: Result<(), DispatchError>)
        requires
            old(self).wf(),
        ensures
            final(self).wf(),
            final(self).pool_size_spec() == old(self).pool_size_spec(),
            task >= old(self).states().len() ==> r == Err::<(), _>(DispatchError::UnknownTask)
                && *final(self) == *old(self),
            task < old(self).states().len() && !(old(self).states()[task as int] is Running) ==> r
                == Err::<(), _>(DispatchError::TaskNotRunning) && *final(self) == *old(self),
            task < old(self).states().len() && old(self).states()[task as int] is Running ==> {
                &&& r is Ok
                &&& final(self).states() == old(self).states().update(
                    task as int,
                    if succeeded {
                        TaskState::Succeeded
                    } else {
                        TaskState::Failed
                    },
                )
                &&& final(self).started() == old(self).started()
                &&& final(self).running_tasks() == old(self).running_tasks().remove(task as int)
            },
    {
        if task >= self.states.len() {
            return Err(DispatchError::UnknownTask);
        }
        if self.states[task] != TaskState::Running {
            return Err(DispatchError::TaskNotRunning);
        }
        proof {
            assert(self.running_set@.contains(task as int));
        }
        let outcome = if succeeded {
            TaskState::Succeeded
        } else {
            TaskState::Failed
        };
        self.states.set(task, outcome);
        self.running = self.running - 1;
        self.running_set = Ghost(self.running_set@.remove(task as int));
        Ok(())
    }

    /// Number of tasks running now.
    pub fn running_count(&self) -> (r: usize)
        requires
            self.wf(),
        ensures
            r == self.running_tasks().len(),
    {
        self.running
    }

    /// The tasks that succeeded and those that failed, by index.
    pub fn report(&self) -> (r: BatchReport)
        requires
            self.wf(),
        ensures
            r.succeeded@ == indices_in_state(
                self.states(),
                TaskState::Succeeded,
                self.states().len() as int,
            ),
            r.failed@ == indices_in_state(
                self.states(),
                TaskState::Failed,
                self.states().len() as int,
            ),
    {
        let mut succeeded: Vec<usize> = Vec::new();
        let mut failed: Vec<usize> = Vec::new();
        let mut i: usize = 0;
        while i < self.states.len()
            invariant
                i <= self.states@.len(),
                succeeded@ == indices_in_state(self.states@, TaskState::Succeeded, i as int),
                failed@ == indices_in_state(self.states@, TaskState::Failed, i as int),
            decreases self.states@.len() - i,
        {
            let s = self.states[i];
            if s == TaskState::Succeeded {
                succeeded.push(i);
            } else if s == TaskState::Failed {
                failed.push(i);
            }
            i = i + 1;
            assert(succeeded@ =~= indices_in_state(self.states@, TaskState::Succeeded, i as int));
            assert(failed@ =~= indices_in_state(self.states@, TaskState::Failed, i as int));
        }
        BatchReport { succeeded, failed }
    }

    /// In every state a dispatcher can reach, the running tasks are exactly those marked
    /// running, and there are never more of them, hence never more open store
    /// connections, than the pool size.
    pub proof fn lemma_connection_bound(&self)
        requires
            self.wf(),
        ensures
            self.running_tasks().finite(),
            self.running_tasks().len() <= self.pool_size_spec(),
            forall|i: int|
                #[trigger] self.running_tasks().contains(i) <==> (0 <= i < self.states().len()
                    && self.states()[i] is Running),
    {
    }
}

} // verus!
