use vstd::prelude::*;

verus! {

/// Lifecycle state of a background task. `Running` carries the progress in
/// percent, from 0 to 100.
#[derive(Clone, Debug)]
pub enum TaskState {
    Waiting,
    Running(u8),
    Completed,
    Killed,
    Error(String),
}

impl TaskState {
    /// Progress never exceeds 100 %.
    pub open spec fn valid(self) -> bool {
        self matches TaskState::Running(p) ==> p <= 100
    }

    /// Completed, killed and failed tasks stay as they are.
    pub open spec fn is_terminal(self) -> bool {
        self is Completed || self is Killed || self is Error
    }

    pub fn terminal(&self) -> (r: bool)
        ensures
            r == self.is_terminal(),
    {
        match self {
            TaskState::Completed | TaskState::Killed | TaskState::Error(_) => true,
            _ => false,
        }
    }

    /// Waiting or running.
    pub fn active(&self) -> (r: bool)
        ensures
            r == !self.is_terminal(),
    {
        !self.terminal()
    }
}

#[derive(Clone, Debug)]
pub struct AudioTask {
    pub id: usize,
    pub name: String,
    pub state: TaskState,
}

/// Ids strictly increase along the list and stay below the next id to hand
/// out; every state is valid.
pub open spec fn ids_ordered(s: Seq<AudioTask>, next_id: nat) -> bool {
    &&& next_id >= 1
    &&& forall|i: int, j: int| 0 <= i < j < s.len() ==> #[trigger] s[i].id < #[trigger] s[j].id
    &&& forall|i: int| 0 <= i < s.len() ==> 1 <= #[trigger] s[i].id < next_id
    &&& forall|i: int| 0 <= i < s.len() ==> (#[trigger] s[i]).state.valid()
}

/// Index of the task with id `id` that a state change may still touch.
pub open spec fn open_task(s: Seq<AudioTask>, id: usize, i: int) -> bool {
    0 <= i < s.len() && s[i].id == id && !s[i].state.is_terminal()
}

/// `t` is `s` with the task at `i` moved to state `st`.
pub open spec fn moved_to(s: Seq<AudioTask>, t: Seq<AudioTask>, i: int, st: TaskState) -> bool {
    t == s.update(i, AudioTask { id: s[i].id, name: s[i].name, state: st })
}

/// Registry of the tasks submitted so far, in submission order. Tasks are
/// never removed.
pub struct TaskRegistry {
    tasks: Vec<AudioTask>,
    next_id: usize,
}

impl View for TaskRegistry {
    type V = Seq<AudioTask>;

    closed spec fn view(&self) -> Seq<AudioTask> {
        self.tasks@
    }
}

impl TaskRegistry {
    /// The id the next submission receives.
    pub closed spec fn next_id(&self) -> nat {
        self.next_id as nat
    }

    pub open spec fn wf(&self) -> bool {
        ids_ordered(self@, self.next_id())
    }

    pub fn new() -> (r: TaskRegistry)
        ensures
            r@ == Seq::<AudioTask>::empty(),
            r.next_id() == 1,
            r.wf(),
    {
        TaskRegistry { tasks: Vec::new(), next_id: 1 }
    }

    /// Registers a task under a fresh id, already running at 0 %. Ids are
    /// handed out 1, 2, 3, ... in submission order; `None` only once the id
    /// space is used up, and then nothing changes.
    pub fn submit(&mut self, name: String) -> (r: Option<usize>)
        requires
            old(self).wf(),
        ensures
            final(self).wf(),
            old(self).next_id() < usize::MAX ==> r == Some(old(self).next_id() as usize)
                && final(self).next_id() == old(self).next_id() + 1
                && final(self)@ == old(self)@.push(
                AudioTask { id: old(self).next_id() as usize, name, state: TaskState::Running(0) },
            ),
            old(self).next_id() >= usize::MAX ==> r is None && final(self)@ == old(self)@
                && final(self).next_id() == old(self).next_id(),
    {
        if self.next_id == usize::MAX {
            return None;
        }
        let id = self.next_id;
        self.next_id = id + 1;
        self.tasks.push(AudioTask { id, name, state: TaskState::Running(0) });
        Some(id)
    }

    /// Position of the task with id `id`, if one is registered.
    pub fn position(&self, id: usize) -> (r: Option<usize>)
        requires
            self.wf(),
        ensures
            r matches Some(i) ==> i < self@.len() && self@[i as int].id == id,
            r is None ==> forall|i: int| 0 <= i < self@.len() ==> self@[i].id != id,
    {
        let mut k: usize = 0;
        while k < self.tasks.len()
            invariant
                k <= self.tasks@.len(),
                forall|i: int| 0 <= i < k ==> self.tasks@[i].id != id,
            decreases self.tasks@.len() - k,
        {
            if self.tasks[k].id == id {
                return Some(k);
            }
            k = k + 1;
        }
        None
    }

    /// Moves the task with id `id` to `state` unless it is unknown or already
    /// terminal; tells whether it moved.
    pub fn set_state(&mut self, id: usize, state: TaskState) -> (r: bool)
        requires
            old(self).wf(),
            state.valid(),
        ensures
            final(self).wf(),
            final(self).next_id() == old(self).next_id(),
            r == exists|i: int| open_task(old(self)@, id, i),
            forall|i: int| #[trigger] open_task(old(self)@, id, i) ==> moved_to(old(self)@, final(self)@, i, state),
            !r ==> final(self)@ == old(self)@,
    {
        match self.position(id) {
            None => false,
            Some(i) => {
                if self.tasks[i].state.terminal() {
                    assert forall|j: int| !open_task(old(self)@, id, j) by {
                        if open_task(old(self)@, id, j) && j != i {
                            assert(self.tasks@[j].id != self.tasks@[i as int].id);
                        }
                    }
                    false
                } else {
                    let ghost before = self.tasks@;
                    self.tasks[i].state = state;
                    assert(open_task(before, id, i as int));
                    assert forall|j: int| #[trigger] open_task(before, id, j) implies j == i by {
                        if j != i {
                            assert(before[j].id != before[i as int].id);
                        }
                    }
                    assert(self.tasks@ =~= before.update(
                        i as int,
                        AudioTask { id: before[i as int].id, name: before[i as int].name, state },
                    ));
                    true
                }
            }
        }
    }


    /// Advisory kill: marks the task killed unless it is unknown or already
    /// terminal, in which case nothing changes. The work behind the task is
    /// not stopped by this.
    pub fn kill(&mut self, id: usize) -> (r: bool)
        requires
            old(self).wf(),
        ensures
            final(self).wf(),
            final(self).next_id() == old(self).next_id(),
            r == exists|i: int| open_task(old(self)@, id, i),
            forall|i: int| #[trigger] open_task(old(self)@, id, i) ==> moved_to(
                old(self)@,
                final(self)@,
                i,
                TaskState::Killed,
            ),
            !r ==> final(self)@ == old(self)@,
    {
        self.set_state(id, TaskState::Killed)
    }

    /// Whether some task is still waiting or running.
    pub fn has_active(&self) -> (r: bool)
        ensures
            r == exists|i: int| 0 <= i < self@.len() && !(#[trigger] self@[i]).state.is_terminal(),
    {
        let mut k: usize = 0;
        while k < self.tasks.len()
            invariant
                k <= self.tasks@.len(),
                forall|i: int| 0 <= i < k ==> (#[trigger] self.tasks@[i]).state.is_terminal(),
            decreases self.tasks@.len() - k,
        {
            if self.tasks[k].state.active() {
                assert(!self@[k as int].state.is_terminal());
                return true;
            }
            k = k + 1;
        }
        false
    }

    /// The tasks in submission order.
    pub fn tasks(&self) -> (r: &Vec<AudioTask>)
        ensures
            r@ == self@,
    {
        &self.tasks
    }
}

/// Commands the interactive side sends to the pool's command loop.
#[derive(Clone, Copy, Debug, PartialEq, Eq, Structural)]
pub enum WorkerCommand {
    Kill(usize),
    Shutdown,
}

/// What the command loop does after handling one command.
#[derive(Clone, Debug)]
pub enum PoolReply {
    /// The task was marked killed: announce its new state and log the intent.
    Killed { id: usize, name: String },
    /// The kill request met an unknown or terminal task: nothing to report.
    Ignored,
    /// Shutdown was requested: log it and leave the loop.
    Stop,
}

/// What a kill request for `id` does: a task that is registered and not yet
/// terminal is marked killed and announced under its name; otherwise nothing
/// changes and nothing is reported.
pub open spec fn kill_outcome(s: Seq<AudioTask>, t: Seq<AudioTask>, id: usize, r: PoolReply) -> bool {
    &&& (r is Killed) == exists|i: int| open_task(s, id, i)
    &&& r is Ignored ==> t == s
    &&& forall|i: int| #[trigger] open_task(s, id, i) ==> moved_to(s, t, i, TaskState::Killed)
    &&& r matches PoolReply::Killed { id: rid, name } ==> rid == id && exists|i: int|
        #[trigger] open_task(s, id, i) && s[i].name == name
    &&& !(r is Stop)
}

/// The pool's handling of a kill request for `id`.
pub fn kill_step(registry: &mut TaskRegistry, id: usize) -> (r: PoolReply)
    requires
        old(registry).wf(),
    ensures
        final(registry).wf(),
        final(registry).next_id() == old(registry).next_id(),
        kill_outcome(old(registry)@, final(registry)@, id, r),
{
    match registry.position(id) {
        Some(i) => {
            let name = registry.tasks[i].name.clone();
            let ghost before = registry@;
            if registry.kill(id) {
                proof {
                    assert(open_task(before, id, i as int));
                }
                PoolReply::Killed { id, name }
            } else {
                PoolReply::Ignored
            }
        },
        None => {
            let ghost before = registry@;
            assert(!exists|j: int| open_task(before, id, j));
            PoolReply::Ignored
        },
    }
}

/// One step of the pool's command loop: applies `cmd` to the registry and
/// says what to report.
pub fn apply_command(registry: &mut TaskRegistry, cmd: WorkerCommand) -> (r: PoolReply)
    requires
        old(registry).wf(),
    ensures
        final(registry).wf(),
        final(registry).next_id() == old(registry).next_id(),
        cmd is Shutdown ==> r is Stop && final(registry)@ == old(registry)@,
        cmd is Kill ==> kill_outcome(old(registry)@, final(registry)@, cmd->Kill_0, r),
{
    match cmd {
        WorkerCommand::Shutdown => PoolReply::Stop,
        WorkerCommand::Kill(id) => kill_step(registry, id),
    }
}

} // verus!
