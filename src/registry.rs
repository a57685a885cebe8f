//! The task registry: every task, kept at the place given by its identifier,
//! and the spawn operations that add to it.
use vstd::prelude::*;
use crate::context::{Cpu, Registers};
use crate::memory::{AllocError, BootModules, MemoryProvider, Stack, PAGE_SIZE};
use crate::task::{Task, TaskKind, TaskState, Value};

verus! {

/// Usable pages of every stack the registry allocates for a task.
pub const STACK_PAGES: u64 = 4;

/// Pages a user task takes from the stack range: four stacks of
/// `STACK_PAGES` pages, each with its guard page.
pub const USER_TASK_PAGES: u64 = 20;

/// Timer ticks a task may run before the scheduler is asked to move on.
pub const TIME_SLICE_TICKS: u64 = 10;

/// A misuse of the registry's protocol.
#[derive(Clone, Copy, Debug, PartialEq, Eq, Structural)]
pub enum RegistryError {
    /// The bootstrap task was already set up.
    AlreadyInitialized,
}

/// Why a spawn failed.
#[derive(Clone, Copy, Debug, PartialEq, Eq, Structural)]
pub enum SpawnError {
    /// The boot loader supplied no module at the index asked for.
    ModuleNotFound,
    /// A stack or an address space could not be allocated.
    Alloc(AllocError),
}

/// All tasks, task `i` at place `i`. Task 0 is the bootstrap task, which is
/// also the idle task. Exactly one task is running once the registry is set up.
pub struct TaskList {
    pub tasks: Vec<Task>,
    /// Identifier of the running task.
    pub current: usize,
    /// Timer ticks the running task has used of its time slice.
    pub slice_ticks: u64,
    /// Address of the code that starts every kernel thread.
    pub trampoline: u64,
}

impl TaskList {
    pub open spec fn is_init(&self) -> bool {
        self.tasks@.len() > 0
    }

    /// Everything the registry keeps true, but that the current task is the
    /// running one: it may have just blocked or exited and be waiting for the
    /// scheduler to move on.
    pub open spec fn wf_between(&self) -> bool {
        &&& forall|i: int|
            0 <= i < self.tasks@.len() ==> (#[trigger] self.tasks@[i]).id == i && self.tasks@[i].wf()
        &&& self.slice_ticks < TIME_SLICE_TICKS
        &&& self.is_init() ==> {
            &&& self.current < self.tasks@.len()
            &&& forall|i: int|
                0 <= i < self.tasks@.len() && i != self.current ==> (#[trigger] self.tasks@[i]).state
                    != TaskState::Running
            &&& self.tasks@[0].is_selectable()
            &&& !self.tasks@[0].is_user()
        }
        &&& !self.is_init() ==> self.current == 0
    }

    pub open spec fn wf(&self) -> bool {
        &&& self.wf_between()
        &&& self.is_init() ==> self.tasks@[self.current as int].state == TaskState::Running
    }

    /// Identifiers of the tasks that are running.
    pub open spec fn running_ids(&self) -> Set<int> {
        Set::new(|i: int| 0 <= i < self.tasks@.len() && self.tasks@[i].state == TaskState::Running)
    }

    /// An empty registry whose kernel threads start at `trampoline`.
    pub fn new(trampoline: u64) -> (r: TaskList)
        ensures
            r.wf(),
            !r.is_init(),
            r.trampoline == trampoline,
            r.slice_ticks == 0,
    {
        TaskList { tasks: Vec::new(), current: 0, slice_ticks: 0, trampoline }
    }

    pub fn is_initialized(&self) -> (r: bool)
        ensures
            r == self.is_init(),
    {
        self.tasks.len() > 0
    }

    /// Number of tasks ever spawned, the bootstrap task included.
    pub fn len(&self) -> (r: usize)
        ensures
            r == self.tasks@.len(),
    {
        self.tasks.len()
    }

    /// Identifier of the running task.
    pub fn current(&self) -> (r: usize)
        requires
            self.wf(),
            self.is_init(),
        ensures
            r == self.current,
            self.tasks@[r as int].state == TaskState::Running,
    {
        self.current
    }

    /// The task with identifier `id`, if there is one.
    pub fn lookup(&self, id: usize) -> (r: Option<&Task>)
        ensures
            id < self.tasks@.len() ==> (r matches Some(t) && *t == self.tasks@[id as int]),
            id >= self.tasks@.len() ==> r.is_none(),
    {
        if id < self.tasks.len() {
            Some(&self.tasks[id])
        } else {
            None
        }
    }

    /// Wraps the code running now as task 0, running in `address_space` on
    /// `kstack` with `cpu`'s registers. Allowed once: a second call fails and
    /// changes nothing.
    pub fn init_bootstrap_task(
        &mut self,
        cpu: &Cpu,
        address_space: u64,
        kstack: Stack,
        name: String,
    ) -> (r: Result<(), RegistryError>)
        requires
            old(self).wf(),
            kstack.wf(),
        ensures
            final(self).wf(),
            old(self).is_init() ==> r == Err::<(), RegistryError>(RegistryError::AlreadyInitialized)
                && *final(self) == *old(self),
            !old(self).is_init() ==> {
                &&& r is Ok
                &&& final(self).tasks@.len() == 1
                &&& final(self).current == 0
                &&& final(self).slice_ticks == 0
                &&& final(self).trampoline == old(self).trampoline
                &&& final(self).tasks@[0] == (Task {
                    id: 0,
                    name,
                    kind: TaskKind::KernelThread { entry: cpu.regs.rip, arg: Value::Nothing },
                    state: TaskState::Running,
                    saved: cpu.regs,
                    started: true,
                    kstack,
                    address_space,
                    result: None,
                })
            },
    {
        if self.tasks.len() > 0 {
            return Err(RegistryError::AlreadyInitialized);
        }
        let t = Task {
            id: 0,
            name,
            kind: TaskKind::KernelThread { entry: cpu.regs.rip, arg: Value::Nothing },
            state: TaskState::Running,
            saved: cpu.regs,
            started: true,
            kstack,
            address_space,
            result: None,
        };
        self.tasks.push(t);
        self.current = 0;
        self.slice_ticks = 0;
        Ok(())
    }

    /// Creates a kernel thread that will run `entry(arg)` on a fresh kernel
    /// stack in the kernel's address space, and adds it as runnable.
    ///
    /// Fails, changing nothing, exactly when the stack range has fewer than
    /// `STACK_PAGES + 1` pages left.
    pub fn spawn_kthread(
        &mut self,
        mem: &mut MemoryProvider,
        entry: u64,
        arg: Value,
        name: String,
    ) -> (r: Result<usize, SpawnError>)
        requires
            old(self).wf(),
            old(self).is_init(),
            old(mem).wf(),
        ensures
            final(self).wf(),
            final(mem).wf(),
            old(mem).stack_pages_left() < STACK_PAGES + 1 ==> {
                &&& r == Err::<usize, SpawnError>(SpawnError::Alloc(AllocError::OutOfStackSpace))
                &&& *final(self) == *old(self)
                &&& *final(mem) == *old(mem)
            },
            old(mem).stack_pages_left() >= STACK_PAGES + 1 ==> {
                let kstack = Stack {
                    guard: old(mem).stack_next,
                    bottom: (old(mem).stack_next + PAGE_SIZE) as u64,
                    top: (old(mem).stack_next + (STACK_PAGES + 1) * PAGE_SIZE) as u64,
                };
                &&& r == Ok::<usize, SpawnError>(old(self).tasks@.len() as usize)
                &&& final(self).tasks@ == old(self).tasks@.push(
                    Task {
                        id: old(self).tasks@.len() as usize,
                        name,
                        kind: TaskKind::KernelThread { entry, arg },
                        state: TaskState::Runnable,
                        saved: Registers::kernel_entry_spec(old(self).trampoline, kstack.top),
                        started: true,
                        kstack,
                        address_space: old(self).tasks@[0].address_space,
                        result: None,
                    },
                )
                &&& final(self).current == old(self).current
                &&& final(self).slice_ticks == old(self).slice_ticks
                &&& final(self).trampoline == old(self).trampoline
                &&& final(mem).stack_next == old(mem).stack_next + (STACK_PAGES + 1) * PAGE_SIZE
                &&& final(mem).stack_end == old(mem).stack_end
                &&& final(mem).frame_next == old(mem).frame_next
                &&& final(mem).frame_end == old(mem).frame_end
            },
    {
        let kstack = match mem.alloc_stack(STACK_PAGES) {
            Ok(s) => s,
            Err(e) => {
                return Err(SpawnError::Alloc(e));
            },
        };
        let id = self.tasks.len();
        let t = Task {
            id,
            name,
            kind: TaskKind::KernelThread { entry, arg },
            state: TaskState::Runnable,
            saved: Registers::kernel_entry(self.trampoline, kstack.top),
            started: true,
            kstack,
            address_space: self.tasks[0].address_space,
            result: None,
        };
        self.tasks.push(t);
        proof {
            assert(self.tasks@[0] == old(self).tasks@[0]);
        }
        Ok(id)
    }

    /// Creates a user task from boot module `index`: a kernel stack, a
    /// system-call stack, a privilege-transition stack and a user stack, in
    /// that order, and a fresh address space. The task is added as runnable
    /// and first runs through the privilege transition.
    ///
    /// Fails, changing nothing, when the module is missing, when the stack
    /// range has fewer than `USER_TASK_PAGES` pages left, or when no frame is
    /// left for the page table, checked in that order.
    pub fn spawn_userspace(
        &mut self,
        mem: &mut MemoryProvider,
        modules: &BootModules,
        index: usize,
        name: String,
    ) -> (r: Result<usize, SpawnError>)
        requires
            old(self).wf(),
            old(self).is_init(),
            old(mem).wf(),
        ensures
            final(self).wf(),
            final(mem).wf(),
            r.is_err() ==> *final(self) == *old(self) && *final(mem) == *old(mem),
            index >= modules.modules@.len() ==> r == Err::<usize, SpawnError>(
                SpawnError::ModuleNotFound,
            ),
            index < modules.modules@.len() && old(mem).stack_pages_left() < USER_TASK_PAGES ==> r
                == Err::<usize, SpawnError>(SpawnError::Alloc(AllocError::OutOfStackSpace)),
            index < modules.modules@.len() && old(mem).stack_pages_left() >= USER_TASK_PAGES
                && old(mem).frame_end - old(mem).frame_next < PAGE_SIZE ==> r == Err::<
                usize,
                SpawnError,
            >(SpawnError::Alloc(AllocError::OutOfFrames)),
            index < modules.modules@.len() && old(mem).stack_pages_left() >= USER_TASK_PAGES
                && old(mem).frame_end - old(mem).frame_next >= PAGE_SIZE ==> {
                let image = modules.modules@[index as int];
                let base = old(mem).stack_next;
                let kstack = stack_at(base, 0);
                let user_stack = stack_at(base, 3);
                &&& r == Ok::<usize, SpawnError>(old(self).tasks@.len() as usize)
                &&& final(self).tasks@ == old(self).tasks@.push(
                    Task {
                        id: old(self).tasks@.len() as usize,
                        name,
                        kind: TaskKind::Userspace {
                            image,
                            syscall_stack: stack_at(base, 1),
                            privilege_stack: stack_at(base, 2),
                            user_stack,
                        },
                        state: TaskState::Runnable,
                        saved: Registers::user_entry_spec(image.entry, user_stack.top),
                        started: false,
                        kstack,
                        address_space: old(mem).frame_next,
                        result: None,
                    },
                )
                &&& final(self).current == old(self).current
                &&& final(self).slice_ticks == old(self).slice_ticks
                &&& final(self).trampoline == old(self).trampoline
                &&& *final(mem) == (MemoryProvider {
                    stack_next: (base + USER_TASK_PAGES * PAGE_SIZE) as u64,
                    frame_next: (old(mem).frame_next + PAGE_SIZE) as u64,
                    ..*old(mem)
                })
            },
    {
        let image = match modules.get_module(index) {
            Some(m) => m,
            None => {
                return Err(SpawnError::ModuleNotFound);
            },
        };
        let before = *mem;
        let kstack = match mem.alloc_stack(STACK_PAGES) {
            Ok(s) => s,
            Err(e) => {
                *mem = before;
                return Err(SpawnError::Alloc(e));
            },
        };
        let syscall_stack = match mem.alloc_stack(STACK_PAGES) {
            Ok(s) => s,
            Err(e) => {
                *mem = before;
                return Err(SpawnError::Alloc(e));
            },
        };
        let privilege_stack = match mem.alloc_stack(STACK_PAGES) {
            Ok(s) => s,
            Err(e) => {
                *mem = before;
                return Err(SpawnError::Alloc(e));
            },
        };
        let user_stack = match mem.alloc_stack(STACK_PAGES) {
            Ok(s) => s,
            Err(e) => {
                *mem = before;
                return Err(SpawnError::Alloc(e));
            },
        };
        let root = match mem.alloc_address_space() {
            Ok(a) => a,
            Err(e) => {
                *mem = before;
                return Err(SpawnError::Alloc(e));
            },
        };
        let id = self.tasks.len();
        let t = Task {
            id,
            name,
            kind: TaskKind::Userspace { image, syscall_stack, privilege_stack, user_stack },
            state: TaskState::Runnable,
            saved: Registers::user_entry(image.entry, user_stack.top),
            started: false,
            kstack,
            address_space: root,
            result: None,
        };
        self.tasks.push(t);
        proof {
            assert(self.tasks@[0] == old(self).tasks@[0]);
        }
        Ok(id)
    }
}

/// The `k`-th stack of `STACK_PAGES` pages, each with its guard page, laid out
/// one after another from `base`.
pub open spec fn stack_at(base: u64, k: int) -> Stack {
    let guard = base + k * (STACK_PAGES + 1) * PAGE_SIZE;
    Stack {
        guard: guard as u64,
        bottom: (guard + PAGE_SIZE) as u64,
        top: (guard + (STACK_PAGES + 1) * PAGE_SIZE) as u64,
    }
}

/// Once the bootstrap task is set up, exactly one task is running, the current
/// one. Every operation of the registry and the scheduler keeps `wf`, so this
/// holds after any sequence of spawns, yields, ticks, blocks and exits.
pub proof fn lemma_exactly_one_running(tl: TaskList)
    requires
        tl.wf(),
        tl.is_init(),
    ensures
        tl.running_ids() == set![tl.current as int],
        tl.running_ids().len() == 1,
{
    assert(tl.running_ids() =~= set![tl.current as int]);
}

} // verus!
