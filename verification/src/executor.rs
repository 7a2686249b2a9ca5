//! A task executor that runs spawned units of concurrent work.
//!
//! A task is modelled as a script of observable effects plus a result
//! value. Spawning returns a handle immediately; the engine makes
//! progress by performing one effect per step, each step standing for
//! the stretch of work between two suspension points. Dropping a
//! non-detached handle cancels its task: cancellation is cooperative,
//! so effects already performed are not rolled back, but no further
//! effect of that task is ever observed. Detaching forfeits await and
//! cancel, and the task runs on.

use vstd::prelude::*;

verus! {

/// How far one spawned task has come.
pub enum TaskStatus {
    /// Scheduled for independent progress.
    Active,
    /// Ran its whole script; its result awaits the handle.
    Finished,
    /// Cancelled by its handle's drop; performs no further effect.
    Cancelled,
    /// Finished and its result claimed through the handle.
    Joined,
}

/// One spawned task: its status, its script of effects, how many of
/// them have been performed, and the result it delivers on completion.
pub struct Task<T> {
    status: TaskStatus,
    effects: Vec<u64>,
    done: usize,
    result: Option<T>,
}

impl<T> Task<T> {
    /// The task's status.
    pub closed spec fn status(&self) -> TaskStatus {
        self.status
    }

    /// The effects the task has not yet performed.
    pub closed spec fn remaining(&self) -> Seq<u64> {
        self.effects@.skip(self.done as int)
    }

    /// The task's whole script.
    pub closed spec fn script(&self) -> Seq<u64> {
        self.effects@
    }

    /// The result the task delivers, while not yet claimed.
    pub closed spec fn result(&self) -> Option<T> {
        self.result
    }

    /// Well-formedness: progress stays within the script, the result is
    /// held until claimed, and a finished task has run its whole script.
    pub closed spec fn wf(&self) -> bool {
        &&& self.done <= self.effects@.len()
        &&& (self.status is Active ==> self.result is Some)
        &&& (self.status is Finished ==> self.done == self.effects@.len() && self.result
            is Some)
        &&& (self.status is Joined ==> self.done == self.effects@.len())
    }
}

/// The outcome of awaiting a task handle: the task's result, or the
/// handle back while the task is still under way.
pub enum JoinOutcome<T> {
    /// The task completed and this is its result.
    Done(T),
    /// The caller suspends, keeping its handle, until the task
    /// completes.
    Waiting(Handle),
}

/// A caller-owned reference to a spawned task. Moving it into
/// [`Executor::cancel`] models dropping it; [`Handle::detach`] forfeits
/// await and cancel and lets the task run on.
pub struct Handle {
    id: usize,
}

impl Handle {
    /// Which task the handle controls.
    pub closed spec fn task_id(&self) -> usize {
        self.id
    }

    /// Which task the handle controls.
    pub fn id(&self) -> (r: usize)
        ensures
            r == self.task_id(),
    {
        self.id
    }

    /// Drops the handle without cancelling its task: a one-way
    /// conversion to a fire-and-forget task. Nothing of any executor is
    /// touched, so the task's progress is unaffected by the handle
    /// going away.
    pub fn detach(self) {
    }
}

/// An executor: the owner of the scheduling resource, modelled as the
/// set of spawned tasks plus the log of effects performed so far, in
/// order.
pub struct Executor<T> {
    tasks: Vec<Task<T>>,
    log: Vec<(usize, u64)>,
}

impl<T> Executor<T> {
    /// How many tasks have been spawned over the executor's lifetime.
    pub closed spec fn task_count(&self) -> int {
        self.tasks@.len() as int
    }

    /// The task a handle with this id controls.
    pub closed spec fn task(&self, id: int) -> Task<T> {
        self.tasks@[id]
    }

    /// Every effect performed so far, oldest first, each tagged with
    /// the task that performed it.
    pub closed spec fn performed(&self) -> Seq<(usize, u64)> {
        self.log@
    }

    /// Well-formedness of every task.
    pub open spec fn wf(&self) -> bool {
        forall|j: int| 0 <= j < self.task_count() ==> (#[trigger] self.task(j)).wf()
    }

    /// Whether the scheduler may run one more step of the task.
    pub open spec fn can_step(&self, id: int) -> bool {
        0 <= id < self.task_count() && self.task(id).status() is Active
    }

    /// Creates an executor with no tasks and an empty log.
    pub fn new() -> (ex: Executor<T>)
        ensures
            ex.wf(),
            ex.task_count() == 0,
            ex.performed() == Seq::<(usize, u64)>::empty(),
    {
        Executor { tasks: Vec::new(), log: Vec::new() }
    }

    /// The log of effects performed so far, oldest first, each tagged
    /// with the task that performed it.
    pub fn log(&self) -> (r: &Vec<(usize, u64)>)
        ensures
            r@ == self.performed(),
    {
        &self.log
    }

    /// Spawns a task and returns its handle immediately, without
    /// suspending the caller; the task is scheduled for independent
    /// progress.
    pub fn spawn(&mut self, effects: Vec<u64>, result: T) -> (h: Handle)
        requires
            old(self).wf(),
        ensures
            final(self).wf(),
            h.task_id() == old(self).task_count(),
            final(self).task_count() == old(self).task_count() + 1,
            final(self).task(h.task_id() as int).status() is Active,
            final(self).task(h.task_id() as int).remaining() == effects@,
            final(self).task(h.task_id() as int).script() == effects@,
            final(self).task(h.task_id() as int).result() == Some(result),
            final(self).performed() == old(self).performed(),
            forall|j: int|
                0 <= j < old(self).task_count() ==> (#[trigger] final(self).task(j)) == old(self).task(j),
    {
        let id: usize = self.tasks.len();
        self.tasks.push(
            Task { status: TaskStatus::Active, effects, done: 0, result: Some(result) },
        );
        proof {
            assert forall|j: int| 0 <= j < self.task_count() implies (#[trigger] self.task(
                j,
            )).wf() by {
                if j < old(self).task_count() {
                    assert(old(self).task(j).wf());
                }
            }
        }
        Handle { id }
    }

    /// Performs one step of an active task: its next effect is appended
    /// to the log, or, with the script exhausted, the task finishes and
    /// its result becomes ready for its handle.
    pub fn step(&mut self, id: usize)
        requires
            old(self).wf(),
            old(self).can_step(id as int),
        ensures
            final(self).wf(),
            final(self).task_count() == old(self).task_count(),
            old(self).task(id as int).remaining().len() > 0 ==> final(self).performed() == old(self).performed().push((id, old(self).task(id as int).remaining()[0])) && final(self).task(id as int).remaining() == old(self).task(id as int).remaining().skip(1)
                && final(self).task(id as int).status() is Active,
            old(self).task(id as int).remaining().len() == 0 ==> final(self).performed() == old(self).performed() && final(self).task(id as int).status() is Finished,
            final(self).task(id as int).script() == old(self).task(id as int).script(),
            final(self).task(id as int).result() == old(self).task(id as int).result(),
            forall|j: int|
                0 <= j < old(self).task_count() && j != id ==> (#[trigger] final(self).task(j))
                    == old(self).task(j),
    {
        let task: &Task<T> = &self.tasks[id];
        if task.done < task.effects.len() {
            let effect: u64 = task.effects[task.done];
            self.log.push((id, effect));
            let done: usize = task.done + 1;
            self.tasks[id].done = done;
        } else {
            self.tasks[id].status = TaskStatus::Finished;
        }
        proof {
            assert forall|j: int| 0 <= j < self.task_count() implies (#[trigger] self.task(
                j,
            )).wf() by {
                if j < old(self).task_count() {
                    assert(old(self).task(j).wf());
                }
            }
        }
    }

    /// Models dropping a non-detached handle: a task still under way is
    /// cancelled at its next suspension point. Effects already in the
    /// log stay — nothing is rolled back — but the task never performs
    /// another one. A task that already finished is unaffected.
    pub fn cancel(&mut self, h: Handle)
        requires
            old(self).wf(),
            h.task_id() < old(self).task_count(),
        ensures
            final(self).wf(),
            final(self).task_count() == old(self).task_count(),
            final(self).performed() == old(self).performed(),
            old(self).task(h.task_id() as int).status() is Active ==> final(self).task(
                h.task_id() as int,
            ).status() is Cancelled,
            !(old(self).task(h.task_id() as int).status() is Active) ==> final(self).task(
                h.task_id() as int,
            ) == old(self).task(h.task_id() as int),
            !final(self).can_step(h.task_id() as int),
            forall|j: int|
                0 <= j < old(self).task_count() && j != h.task_id() ==> (#[trigger] final(self).task(j)) == old(self).task(j),
    {
        let id: usize = h.id;
        let active: bool = match &self.tasks[id].status {
            TaskStatus::Active => true,
            TaskStatus::Finished => false,
            TaskStatus::Cancelled => false,
            TaskStatus::Joined => false,
        };
        if active {
            self.tasks[id].status = TaskStatus::Cancelled;
        }
        proof {
            assert forall|j: int| 0 <= j < self.task_count() implies (#[trigger] self.task(
                j,
            )).wf() by {
                if j < old(self).task_count() {
                    assert(old(self).task(j).wf());
                }
            }
        }
    }

    /// Awaits a task through its handle: the result once the task has
    /// completed, or the handle back while it is still under way — the
    /// awaiting caller suspends until then.
    pub fn join(&mut self, h: Handle) -> (r: JoinOutcome<T>)
        requires
            old(self).wf(),
            h.task_id() < old(self).task_count(),
            !(old(self).task(h.task_id() as int).status() is Cancelled),
            !(old(self).task(h.task_id() as int).status() is Joined),
        ensures
            final(self).wf(),
            final(self).task_count() == old(self).task_count(),
            final(self).performed() == old(self).performed(),
            (r is Done) <==> old(self).task(h.task_id() as int).status() is Finished,
            ((r is Done) ==> (Some(r->Done_0) == old(self).task(h.task_id() as int).result())),
            ((r is Done) ==> final(self).task(h.task_id() as int).status() is Joined),
            ((r is Waiting) ==> (r->Waiting_0.task_id() == h.task_id() && *final(self) == *old(self))),
            forall|j: int|
                0 <= j < old(self).task_count() && j != h.task_id() ==> (#[trigger] final(self).task(j)) == old(self).task(j),
    {
        let id: usize = h.id;
        let finished: bool = match &self.tasks[id].status {
            TaskStatus::Active => false,
            TaskStatus::Finished => true,
            TaskStatus::Cancelled => false,
            TaskStatus::Joined => false,
        };
        if finished {
            let result: Option<T> = self.tasks[id].result.take();
            self.tasks[id].status = TaskStatus::Joined;
            let r = JoinOutcome::Done(match result {
                Some(v) => v,
                None => vstd::pervasive::unreached(),
            });
        proof {
            assert forall|j: int| 0 <= j < self.task_count() implies (#[trigger] self.task(
                j,
            )).wf() by {
                if j < old(self).task_count() {
                    assert(old(self).task(j).wf());
                }
            }
        }
            r
        } else {
            JoinOutcome::Waiting(h)
        }
    }

    /// Runs a whole script to completion on the calling thread,
    /// suspending that thread — not the whole process — until done, and
    /// returns the result. Every effect of the script is performed, in
    /// order, tagged with a fresh task.
    pub fn block_on(&mut self, effects: Vec<u64>, result: T) -> (r: T)
        requires
            old(self).wf(),
        ensures
            final(self).wf(),
            r == result,
            final(self).task_count() == old(self).task_count() + 1,
            final(self).performed() == old(self).performed() + tag_effects(
                old(self).task_count() as usize,
                effects@,
            ),
            forall|j: int|
                0 <= j < old(self).task_count() ==> (#[trigger] final(self).task(j)) == old(self).task(j),
    {
        let ghost pre: Executor<T> = *self;
        let h: Handle = self.spawn(effects, result);
        let id: usize = h.id();
        loop
            invariant
                self.wf(),
                id == h.task_id(),
                id == pre.task_count(),
                id < self.task_count(),
                self.task_count() == pre.task_count() + 1,
                self.task(id as int).status() is Active || self.task(id as int).status()
                    is Finished,
                self.task(id as int).script() == effects@,
                self.task(id as int).result() == Some(result),
                self.task(id as int).remaining() == effects@.skip(
                    effects@.len() - self.task(id as int).remaining().len(),
                ),
                self.performed() == pre.performed() + tag_effects(id, effects@).take(
                    effects@.len() - self.task(id as int).remaining().len(),
                ),
                forall|j: int|
                    0 <= j < pre.task_count() ==> (#[trigger] self.task(j)) == pre.task(j),
            ensures
                self.wf(),
                id == h.task_id(),
                id < self.task_count(),
                self.task_count() == pre.task_count() + 1,
                self.task(id as int).status() is Finished,
                self.task(id as int).result() == Some(result),
                self.performed() == pre.performed() + tag_effects(id, effects@),
                forall|j: int|
                    0 <= j < pre.task_count() ==> (#[trigger] self.task(j)) == pre.task(j),
            decreases self.task(id as int).remaining().len() + 1, (if self.task(
                id as int,
            ).status() is Active {
                1int
            } else {
                0int
            }),
        {
            let finished: bool = match &self.tasks[id].status {
                TaskStatus::Active => false,
                TaskStatus::Finished => true,
                TaskStatus::Cancelled => false,
                TaskStatus::Joined => false,
            };
            if finished {
                proof {
                    assert(self.task(id as int).wf());
                    assert(self.task(id as int).remaining().len() == 0);
                    assert(tag_effects(id, effects@).take(effects@.len() as int) =~= tag_effects(
                        id,
                        effects@,
                    ));
                }
                break ;
            }
            proof {
                assert(self.can_step(id as int));
            }
            let ghost iter: Executor<T> = *self;
            self.step(id);
            proof {
                lemma_tag_effects_take(id, effects@, self.task(id as int).remaining().len() as int);
                assert forall|j: int| 0 <= j < pre.task_count() implies (#[trigger] self.task(j))
                    == pre.task(j) by {
                    assert(iter.task(j) == pre.task(j));
                    assert(self.task(j) == iter.task(j));
                }
                assert(self.performed() =~= pre.performed() + tag_effects(id, effects@).take(
                    effects@.len() - self.task(id as int).remaining().len(),
                ));
            }
        }
        match self.join(h) {
            JoinOutcome::Done(v) => v,
            JoinOutcome::Waiting(_) => vstd::pervasive::unreached(),
        }
    }
}

/// A runtime with an executor: the composition contract binding an
/// engine's concrete executor type for tasks yielding `T`.
pub trait RuntimeExecutor<T> {
    /// The engine's executor.
    type Executor;
}

/// The log entries a task with this id produces by performing these
/// effects in order.
pub open spec fn tag_effects(id: usize, effects: Seq<u64>) -> Seq<(usize, u64)> {
    effects.map(|j: int, e: u64| (id, e))
}

proof fn lemma_tag_effects_take(id: usize, effects: Seq<u64>, remaining: int)
    requires
        0 <= remaining <= effects.len(),
    ensures
        remaining < effects.len() ==> tag_effects(id, effects).take(
            effects.len() - remaining,
        ) == tag_effects(id, effects).take(effects.len() - (remaining + 1)).push(
            (id, effects[effects.len() - (remaining + 1)]),
        ),
{
    if remaining < effects.len() {
        let k = effects.len() - (remaining + 1);
        assert(tag_effects(id, effects).take(k + 1) =~= tag_effects(id, effects).take(k).push(
            (id, effects[k]),
        ));
    }
}

/// Law: a cancelled task is inert — the engine can never pick it for
/// another step, so no effect after its cancellation point is ever
/// observed in the log — while `detach` touches no executor state at
/// all, so a detached task's progress is unaffected by its handle's
/// drop.
pub proof fn lemma_cancelled_task_is_inert<T>(ex: Executor<T>, id: int)
    requires
        0 <= id < ex.task_count(),
        ex.task(id).status() is Cancelled,
    ensures
        !ex.can_step(id),
{
}

} // verus!
