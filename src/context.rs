//! The machine state a task runs on, the context switch that saves one task's
//! registers and restores another's, and the one-way drop into user mode.
use vstd::prelude::*;

verus! {

/// Code segment selector of kernel mode (ring 0).
pub const KERNEL_CODE_SELECTOR: u64 = 0x08;

/// Stack segment selector of kernel mode (ring 0).
pub const KERNEL_DATA_SELECTOR: u64 = 0x10;

/// Code segment selector of user mode (ring 3, requested privilege level 3).
pub const USER_CODE_SELECTOR: u64 = 0x2b;

/// Stack segment selector of user mode (ring 3, requested privilege level 3).
pub const USER_DATA_SELECTOR: u64 = 0x23;

/// Flags register value with only the interrupt-enable flag set.
pub const RFLAGS_INTERRUPTS_ENABLED: u64 = 0x200;

/// A snapshot of the registers a task needs to resume exactly where it left
/// off: the callee-saved registers, stack and instruction pointers, flags and
/// segment selectors.
#[derive(Clone, Copy, Debug, PartialEq, Eq, Structural)]
pub struct Registers {
    pub rip: u64,
    pub rsp: u64,
    pub rbp: u64,
    pub rbx: u64,
    pub r12: u64,
    pub r13: u64,
    pub r14: u64,
    pub r15: u64,
    pub rflags: u64,
    pub cs: u64,
    pub ss: u64,
}

impl Registers {
    /// Registers that start kernel code at `rip` on the stack pointer `rsp`,
    /// with interrupts enabled and every other register zero.
    pub open spec fn kernel_entry_spec(rip: u64, rsp: u64) -> Registers {
        Registers {
            rip,
            rsp,
            rbp: 0,
            rbx: 0,
            r12: 0,
            r13: 0,
            r14: 0,
            r15: 0,
            rflags: RFLAGS_INTERRUPTS_ENABLED,
            cs: KERNEL_CODE_SELECTOR,
            ss: KERNEL_DATA_SELECTOR,
        }
    }

    /// Registers that start user code at `rip` on the stack pointer `rsp`.
    pub open spec fn user_entry_spec(rip: u64, rsp: u64) -> Registers {
        Registers {
            cs: USER_CODE_SELECTOR,
            ss: USER_DATA_SELECTOR,
            ..Self::kernel_entry_spec(rip, rsp)
        }
    }

    pub fn kernel_entry(rip: u64, rsp: u64) -> (r: Registers)
        ensures
            r == Self::kernel_entry_spec(rip, rsp),
    {
        Registers {
            rip,
            rsp,
            rbp: 0,
            rbx: 0,
            r12: 0,
            r13: 0,
            r14: 0,
            r15: 0,
            rflags: RFLAGS_INTERRUPTS_ENABLED,
            cs: KERNEL_CODE_SELECTOR,
            ss: KERNEL_DATA_SELECTOR,
        }
    }

    pub fn user_entry(rip: u64, rsp: u64) -> (r: Registers)
        ensures
            r == Self::user_entry_spec(rip, rsp),
    {
        Registers {
            rip,
            rsp,
            rbp: 0,
            rbx: 0,
            r12: 0,
            r13: 0,
            r14: 0,
            r15: 0,
            rflags: RFLAGS_INTERRUPTS_ENABLED,
            cs: USER_CODE_SELECTOR,
            ss: USER_DATA_SELECTOR,
        }
    }
}

/// The processor: its live registers, the active page-table root, and the
/// kernel stack that traps and system calls from user mode land on.
#[derive(Clone, Copy, Debug, PartialEq, Eq, Structural)]
pub struct Cpu {
    pub regs: Registers,
    pub page_table_root: u64,
    pub kernel_entry_stack: u64,
}

impl Cpu {
    pub open spec fn in_kernel_mode(&self) -> bool {
        self.regs.cs == KERNEL_CODE_SELECTOR
    }
}

/// What a context switch leaves behind: the outgoing task's saved registers
/// and the processor as the incoming task finds it.
pub open spec fn switch_spec(cpu: Cpu, to_saved: Registers, to_root: u64) -> (Registers, Cpu) {
    (cpu.regs, Cpu { regs: to_saved, page_table_root: to_root, ..cpu })
}

/// Saves the live registers into `from_saved` and resumes the task whose
/// registers are `to_saved` in the address space `to_root`. The page table is
/// reloaded only when it differs.
pub fn context_switch(from_saved: &mut Registers, to_saved: &Registers, to_root: u64, cpu: &mut Cpu)
    requires
        old(cpu).in_kernel_mode(),
    ensures
        (*final(from_saved), *final(cpu)) == switch_spec(*old(cpu), *to_saved, to_root),
{
    *from_saved = cpu.regs;
    if cpu.page_table_root != to_root {
        cpu.page_table_root = to_root;
    }
    cpu.regs = *to_saved;
}

/// The processor right after a task first enters user mode: the trap stack is
/// the task's system-call stack, its page table is active, and execution begins
/// at the image's entry point on the user stack.
pub open spec fn enter_user_mode_spec(
    cpu: Cpu,
    syscall_stack_top: u64,
    root: u64,
    entry: u64,
    user_stack_top: u64,
) -> Cpu {
    Cpu {
        regs: Registers::user_entry_spec(entry, user_stack_top),
        page_table_root: root,
        kernel_entry_stack: syscall_stack_top,
    }
}

/// Drops from kernel to user privilege for a task's first run.
pub fn enter_user_mode(
    cpu: &mut Cpu,
    syscall_stack_top: u64,
    root: u64,
    entry: u64,
    user_stack_top: u64,
)
    requires
        old(cpu).in_kernel_mode(),
    ensures
        *final(cpu) == enter_user_mode_spec(
            *old(cpu),
            syscall_stack_top,
            root,
            entry,
            user_stack_top,
        ),
        !final(cpu).in_kernel_mode(),
{
    cpu.kernel_entry_stack = syscall_stack_top;
    cpu.page_table_root = root;
    cpu.regs = Registers::user_entry(entry, user_stack_top);
}

/// Switching from a task to another and back restores the first task's
/// registers and address space exactly, whatever the other task did to the
/// processor in between, as long as it was back in kernel mode when it
/// switched away; and the other task's saved registers are what it left.
pub proof fn lemma_switch_round_trip(a_cpu: Cpu, b_saved: Registers, b_root: u64, b_cpu: Cpu)
    requires
        a_cpu.in_kernel_mode(),
        b_cpu.in_kernel_mode(),
    ensures
        ({
            let (a_saved, b_start) = switch_spec(a_cpu, b_saved, b_root);
            let (b_saved_again, a_back) = switch_spec(b_cpu, a_saved, a_cpu.page_table_root);
            &&& b_start.regs == b_saved
            &&& b_start.page_table_root == b_root
            &&& a_back.regs == a_cpu.regs
            &&& a_back.page_table_root == a_cpu.page_table_root
            &&& b_saved_again == b_cpu.regs
        }),
{
}

} // verus!
