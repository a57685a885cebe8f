//! The scheduler: round-robin over the runnable tasks, the idle task when no
//! other task can run, and the voluntary, timer and exit paths into it.
use vstd::prelude::*;
use crate::context::{
    context_switch,
    enter_user_mode,
    enter_user_mode_spec,
    switch_spec,
    Cpu,
    Registers,
};
use crate::registry::{TaskList, TIME_SLICE_TICKS};
use crate::task::{Task, TaskKind, TaskState, Value};

verus! {

/// The place `k` steps after `cur` among `n` places, wrapping around.
pub open spec fn rr_index(n: int, cur: int, k: int) -> int {
    if cur + k < n {
        cur + k
    } else {
        cur + k - n
    }
}

/// Whether task `i` may be picked by round-robin: a runnable task other than
/// the idle task and the current one.
pub open spec fn is_candidate(tasks: Seq<Task>, cur: int, i: int) -> bool {
    &&& 1 <= i < tasks.len()
    &&& i != cur
    &&& tasks[i].state == TaskState::Runnable
}

/// The least number of steps `k' >= k` after `cur` that reaches a candidate.
pub open spec fn first_candidate_from(tasks: Seq<Task>, cur: int, k: int) -> Option<int>
    decreases tasks.len() - k,
{
    if k >= tasks.len() || k < 1 {
        None
    } else if is_candidate(tasks, cur, rr_index(tasks.len() as int, cur, k)) {
        Some(k)
    } else {
        first_candidate_from(tasks, cur, k + 1)
    }
}

/// The scheduling decision: the first candidate after `cur` in round-robin
/// order, or else the idle task.
pub open spec fn next_task(tasks: Seq<Task>, cur: int) -> int {
    match first_candidate_from(tasks, cur, 1) {
        Some(k) => rr_index(tasks.len() as int, cur, k),
        None => 0,
    }
}

/// A task as it is left behind by a switch: its registers saved, and runnable
/// again if it was running.
pub open spec fn left_task(t: Task, regs: Registers) -> Task {
    Task {
        state: if t.state == TaskState::Running {
            TaskState::Runnable
        } else {
            t.state
        },
        saved: regs,
        ..t
    }
}

/// A task as it is when it takes the processor.
pub open spec fn entered_task(t: Task) -> Task {
    Task { state: TaskState::Running, started: true, ..t }
}

/// The processor once task `t` takes it: a context switch for a task that has
/// run before, the privilege transition for a user task's first run.
pub open spec fn cpu_after_dispatch(cpu: Cpu, t: Task) -> Cpu {
    if t.started {
        switch_spec(cpu, t.saved, t.address_space).1
    } else {
        match t.kind {
            TaskKind::Userspace { image, syscall_stack, user_stack, .. } => enter_user_mode_spec(
                cpu,
                syscall_stack.top,
                t.address_space,
                image.entry,
                user_stack.top,
            ),
            TaskKind::KernelThread { .. } => cpu,
        }
    }
}

/// The outcome of one scheduling decision made on `tasks` with `cur` current
/// and the processor `cpu`: `new` and `new_cpu` are the registry and processor
/// after it. The registry's other fields are kept by the caller's contract.
pub open spec fn dispatched(tasks: Seq<Task>, cur: int, cpu: Cpu, new: TaskList, new_cpu: Cpu) -> bool {
    let next = next_task(tasks, cur);
    &&& new.current == next
    &&& new.slice_ticks == 0
    &&& next == cur ==> new.tasks@ == tasks && new_cpu == cpu
    &&& next != cur ==> {
        &&& new.tasks@ == tasks.update(cur, left_task(tasks[cur], cpu.regs)).update(
            next,
            entered_task(tasks[next]),
        )
        &&& new_cpu == cpu_after_dispatch(cpu, tasks[next])
    }
}

impl TaskList {
    /// The task the scheduler picks next: the first runnable task after the
    /// current one in round-robin order, leaving out the idle task; the idle
    /// task when there is none. Never a blocked or exited task.
    pub fn select_next(&self) -> (r: usize)
        requires
            self.wf_between(),
            self.is_init(),
        ensures
            r == next_task(self.tasks@, self.current as int),
            r < self.tasks@.len(),
            r != self.current ==> self.tasks@[r as int].state == TaskState::Runnable,
            r == self.current ==> r == 0,
            self.tasks@[r as int].state != TaskState::Exited,
            self.tasks@[r as int].state != TaskState::Blocked,
    {
        let n = self.tasks.len();
        let cur = self.current;
        let mut k: usize = 1;
        while k < n
            invariant
                1 <= k <= n,
                n == self.tasks@.len(),
                cur == self.current,
                cur < n,
                first_candidate_from(self.tasks@, cur as int, 1) == first_candidate_from(
                    self.tasks@,
                    cur as int,
                    k as int,
                ),
            decreases n - k,
        {
            let i: usize = if k < n - cur {
                cur + k
            } else {
                k - (n - cur)
            };
            assert(i == rr_index(n as int, cur as int, k as int));
            if i != 0 && i != cur && self.tasks[i].state == TaskState::Runnable {
                return i;
            }
            k = k + 1;
        }
        0
    }

    /// Makes the scheduling decision and hands the processor over. The
    /// current task may have just blocked or exited.
    fn dispatch(&mut self, cpu: &mut Cpu)
        requires
            old(self).wf_between(),
            old(self).is_init(),
            old(self).tasks@[old(self).current as int].state != TaskState::Runnable,
            old(self).current == 0 ==> old(self).tasks@[0].state == TaskState::Running,
            old(cpu).in_kernel_mode(),
        ensures
            final(self).wf(),
            final(self).trampoline == old(self).trampoline,
            dispatched(old(self).tasks@, old(self).current as int, *old(cpu), *final(self), *final(cpu)),
    {
        let cur = self.current;
        let next = self.select_next();
        self.slice_ticks = 0;
        if next == cur {
            return;
        }
        let ghost t0 = self.tasks@;
        let ghost cpu0 = *cpu;
        if self.tasks[cur].state == TaskState::Running {
            self.tasks[cur].state = TaskState::Runnable;
        }
        if self.tasks[next].started {
            let to_saved = self.tasks[next].saved;
            let to_root = self.tasks[next].address_space;
            context_switch(&mut self.tasks[cur].saved, &to_saved, to_root, cpu);
        } else {
            self.tasks[cur].saved = cpu.regs;
            let root = self.tasks[next].address_space;
            match &self.tasks[next].kind {
                TaskKind::Userspace { image, syscall_stack, user_stack, .. } => {
                    enter_user_mode(cpu, syscall_stack.top, root, image.entry, user_stack.top);
                },
                TaskKind::KernelThread { .. } => {},
            }
        }
        assert(self.tasks@ =~= t0.update(cur as int, left_task(t0[cur as int], cpu0.regs)));
        assert(*cpu == cpu_after_dispatch(cpu0, t0[next as int]));
        self.tasks[next].state = TaskState::Running;
        self.tasks[next].started = true;
        self.current = next;
        assert(self.tasks@ =~= t0.update(cur as int, left_task(t0[cur as int], cpu0.regs)).update(
            next as int,
            entered_task(t0[next as int]),
        ));
    }

    /// The current task gives the processor away voluntarily.
    pub fn yield_now(&mut self, cpu: &mut Cpu)
        requires
            old(self).wf(),
            old(self).is_init(),
            old(cpu).in_kernel_mode(),
        ensures
            final(self).wf(),
            final(self).trampoline == old(self).trampoline,
            dispatched(old(self).tasks@, old(self).current as int, *old(cpu), *final(self), *final(cpu)),
    {
        self.dispatch(cpu);
    }

    /// One timer tick. While the current task is within its time slice the
    /// tick is only counted; when the slice is used up the scheduler decides as
    /// `yield_now` does.
    pub fn tick(&mut self, cpu: &mut Cpu)
        requires
            old(self).wf(),
            old(self).is_init(),
            old(cpu).in_kernel_mode(),
        ensures
            final(self).wf(),
            final(self).trampoline == old(self).trampoline,
            old(self).slice_ticks + 1 < TIME_SLICE_TICKS ==> {
                &&& final(self).tasks@ == old(self).tasks@
                &&& final(self).current == old(self).current
                &&& final(self).slice_ticks == old(self).slice_ticks + 1
                &&& *final(cpu) == *old(cpu)
            },
            old(self).slice_ticks + 1 >= TIME_SLICE_TICKS ==> dispatched(
                old(self).tasks@,
                old(self).current as int,
                *old(cpu),
                *final(self),
                *final(cpu),
            ),
    {
        if self.slice_ticks + 1 < TIME_SLICE_TICKS {
            self.slice_ticks = self.slice_ticks + 1;
        } else {
            self.dispatch(cpu);
        }
    }

    /// Ends the current kernel thread with `result`, as its trampoline does
    /// when the entry function returns, and moves on to the next task. The idle
    /// task never exits.
    pub fn exit_current(&mut self, result: Value, cpu: &mut Cpu)
        requires
            old(self).wf(),
            old(self).is_init(),
            old(self).current != 0,
            old(cpu).in_kernel_mode(),
        ensures
            final(self).wf(),
            final(self).trampoline == old(self).trampoline,
            dispatched(
                old(self).tasks@.update(
                    old(self).current as int,
                    Task {
                        state: TaskState::Exited,
                        result: Some(result),
                        ..old(self).tasks@[old(self).current as int]
                    },
                ),
                old(self).current as int,
                *old(cpu),
                *final(self),
                *final(cpu),
            ),
    {
        let cur = self.current;
        let ghost t0 = self.tasks@;
        self.tasks[cur].state = TaskState::Exited;
        self.tasks[cur].result = Some(result);
        assert(self.tasks@ =~= t0.update(
            cur as int,
            Task { state: TaskState::Exited, result: Some(result), ..t0[cur as int] },
        ));
        self.dispatch(cpu);
    }

    /// Blocks the current task and moves on to the next one. The idle task
    /// never blocks.
    pub fn block_current(&mut self, cpu: &mut Cpu)
        requires
            old(self).wf(),
            old(self).is_init(),
            old(self).current != 0,
            old(cpu).in_kernel_mode(),
        ensures
            final(self).wf(),
            final(self).trampoline == old(self).trampoline,
            dispatched(
                old(self).tasks@.update(
                    old(self).current as int,
                    Task { state: TaskState::Blocked, ..old(self).tasks@[old(self).current as int] },
                ),
                old(self).current as int,
                *old(cpu),
                *final(self),
                *final(cpu),
            ),
    {
        let cur = self.current;
        let ghost t0 = self.tasks@;
        self.tasks[cur].state = TaskState::Blocked;
        assert(self.tasks@ =~= t0.update(
            cur as int,
            Task { state: TaskState::Blocked, ..t0[cur as int] },
        ));
        self.dispatch(cpu);
    }

    /// Makes a blocked task runnable again. Returns whether task `id` was
    /// blocked; any other task is left as it is.
    pub fn unblock(&mut self, id: usize) -> (r: bool)
        requires
            old(self).wf(),
        ensures
            final(self).wf(),
            final(self).current == old(self).current,
            final(self).slice_ticks == old(self).slice_ticks,
            final(self).trampoline == old(self).trampoline,
            r == (id < old(self).tasks@.len() && old(self).tasks@[id as int].state
                == TaskState::Blocked),
            r ==> final(self).tasks@ == old(self).tasks@.update(
                id as int,
                Task { state: TaskState::Runnable, ..old(self).tasks@[id as int] },
            ),
            !r ==> final(self).tasks@ == old(self).tasks@,
    {
        if id < self.tasks.len() && self.tasks[id].state == TaskState::Blocked {
            let ghost t0 = self.tasks@;
            self.tasks[id].state = TaskState::Runnable;
            assert(self.tasks@ =~= t0.update(
                id as int,
                Task { state: TaskState::Runnable, ..t0[id as int] },
            ));
            true
        } else {
            false
        }
    }
}

/// What the search for a candidate finds: the first candidate from `k` on,
/// or none at all.
pub proof fn lemma_first_candidate(tasks: Seq<Task>, cur: int, k: int)
    requires
        1 <= k,
    ensures
        first_candidate_from(tasks, cur, k) matches Some(k0) ==> k <= k0 < tasks.len()
            && is_candidate(tasks, cur, rr_index(tasks.len() as int, cur, k0)),
        first_candidate_from(tasks, cur, k) is None ==> forall|k1: int|
            k <= k1 < tasks.len() ==> !is_candidate(
                tasks,
                cur,
                #[trigger] rr_index(tasks.len() as int, cur, k1),
            ),
    decreases tasks.len() - k,
{
    if k < tasks.len() && !is_candidate(tasks, cur, rr_index(tasks.len() as int, cur, k)) {
        lemma_first_candidate(tasks, cur, k + 1);
    }
}

/// A scheduling decision never gives the processor to a blocked or exited
/// task: the task that has it afterwards was runnable, or is the idle task
/// keeping it.
pub proof fn lemma_exited_never_dispatched(
    tasks: Seq<Task>,
    cur: int,
    cpu: Cpu,
    new: TaskList,
    new_cpu: Cpu,
)
    requires
        0 <= cur < tasks.len(),
        tasks[0].is_selectable(),
        dispatched(tasks, cur, cpu, new, new_cpu),
    ensures
        0 <= new.current < tasks.len(),
        tasks[new.current as int].state != TaskState::Exited,
        tasks[new.current as int].state != TaskState::Blocked,
        new.current != cur ==> tasks[new.current as int].state == TaskState::Runnable
            || new.current == 0,
{
    lemma_first_candidate(tasks, cur, 1);
}

} // verus!
