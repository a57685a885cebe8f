//! A task: one schedulable unit of execution, either a kernel thread or a user
//! process, with its saved registers, its stacks and its address space.
use vstd::prelude::*;
use crate::context::Registers;
use crate::memory::{EntryImage, Stack};

verus! {

/// A value handed to a kernel thread or returned by it.
#[derive(Clone, Debug, PartialEq, Eq)]
pub enum Value {
    Nothing,
    Num(u64),
    Text(String),
}

/// Where a task stands in its life.
#[derive(Clone, Copy, Debug, PartialEq, Eq, Structural)]
pub enum TaskState {
    /// Ready to run; its saved registers are valid to resume.
    Runnable,
    /// On the processor now.
    Running,
    /// Waiting for something else to wake it.
    Blocked,
    /// Finished; its result is kept in the task.
    Exited,
}

/// The two kinds of task.
#[derive(Clone, Debug)]
pub enum TaskKind {
    /// Kernel code run as `entry(arg)` from a trampoline that stores the
    /// result, marks the task exited and gives the processor away for good.
    KernelThread { entry: u64, arg: Value },
    /// A program from a boot module, run at user privilege in its own address
    /// space, with a stack for system calls, one for privilege changes, and
    /// its user stack.
    Userspace { image: EntryImage, syscall_stack: Stack, privilege_stack: Stack, user_stack: Stack },
}

pub struct Task {
    /// Identifier, fixed at creation; equal to the task's place in the registry.
    pub id: usize,
    /// A name for diagnostics only.
    pub name: String,
    pub kind: TaskKind,
    pub state: TaskState,
    /// Registers saved when the task last left the processor.
    pub saved: Registers,
    /// Whether the task has ever run. A user task that has not goes through
    /// the privilege transition instead of a context switch.
    pub started: bool,
    /// The kernel stack; no other task uses it.
    pub kstack: Stack,
    /// Root of the page table the task runs in.
    pub address_space: u64,
    /// What a kernel thread returned; present exactly when the task exited.
    pub result: Option<Value>,
}

impl Task {
    pub open spec fn is_user(&self) -> bool {
        self.kind is Userspace
    }

    /// The task's own consistency: guarded stacks, a result exactly when it
    /// has exited, and a user task that has not run waits to run.
    pub open spec fn wf(&self) -> bool {
        &&& self.kstack.wf()
        &&& (self.state == TaskState::Exited <==> self.result.is_some())
        &&& (!self.started ==> self.state == TaskState::Runnable && self.is_user())
        &&& (self.kind matches TaskKind::Userspace { syscall_stack, privilege_stack, user_stack, .. }
            ==> syscall_stack.wf() && privilege_stack.wf() && user_stack.wf())
    }

    /// Whether the scheduler may pick the task.
    pub open spec fn is_selectable(&self) -> bool {
        self.state == TaskState::Runnable || self.state == TaskState::Running
    }

    pub fn state(&self) -> (r: TaskState)
        ensures
            r == self.state,
    {
        self.state
    }

    pub fn id(&self) -> (r: usize)
        ensures
            r == self.id,
    {
        self.id
    }

    pub fn is_userspace(&self) -> (r: bool)
        ensures
            r == self.is_user(),
    {
        match &self.kind {
            TaskKind::Userspace { .. } => true,
            TaskKind::KernelThread { .. } => false,
        }
    }
}

} // verus!
