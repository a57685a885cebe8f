use nano_core::control::{with_nxe_bit, with_write_protect_bit, CR0_WRITE_PROTECT, EFER_NXE};
use nano_core::context::{
    context_switch, enter_user_mode, Cpu, Registers, KERNEL_CODE_SELECTOR, KERNEL_DATA_SELECTOR,
    RFLAGS_INTERRUPTS_ENABLED, USER_CODE_SELECTOR, USER_DATA_SELECTOR,
};
use nano_core::memory::{AllocError, BootModules, EntryImage, MemoryProvider, Stack, PAGE_SIZE};
use nano_core::registry::{
    RegistryError, SpawnError, TaskList, STACK_PAGES, TIME_SLICE_TICKS, USER_TASK_PAGES,
};
use nano_core::task::{TaskKind, TaskState, Value};

const TRAMPOLINE: u64 = 0xffff_8000_0010_0000;
const KERNEL_ROOT: u64 = 0x1000;
const STACKS: u64 = 0xffff_fe00_0000_0000;

fn kernel_cpu() -> Cpu {
    Cpu {
        regs: Registers {
            rip: 0xffff_8000_0000_1234,
            rsp: 0xffff_8000_0020_0000,
            rbp: 7,
            rbx: 8,
            r12: 9,
            r13: 10,
            r14: 11,
            r15: 12,
            rflags: 0,
            cs: KERNEL_CODE_SELECTOR,
            ss: KERNEL_DATA_SELECTOR,
        },
        page_table_root: KERNEL_ROOT,
        kernel_entry_stack: 0,
    }
}

fn boot(stack_pages: u64, frames: u64) -> (TaskList, MemoryProvider, Cpu) {
    let cpu = kernel_cpu();
    let mut mem = MemoryProvider::new(
        STACKS,
        STACKS + stack_pages * PAGE_SIZE,
        0x10_0000,
        0x10_0000 + frames * PAGE_SIZE,
    );
    let kstack = mem.alloc_stack(STACK_PAGES).unwrap();
    let mut tl = TaskList::new(TRAMPOLINE);
    tl.init_bootstrap_task(&cpu, KERNEL_ROOT, kstack, String::from("idle")).unwrap();
    (tl, mem, cpu)
}

fn modules() -> BootModules {
    BootModules::new(vec![
        EntryImage { start: 0x20_0000, end: 0x20_4000, entry: 0x40_0000 },
        EntryImage { start: 0x30_0000, end: 0x30_2000, entry: 0x40_1000 },
    ])
}

fn running_count(tl: &TaskList) -> usize {
    (0..tl.len())
        .filter(|&i| tl.lookup(i).unwrap().state() == TaskState::Running)
        .count()
}

#[test]
fn bootstrap_task_is_running_idle() {
    let (tl, _, cpu) = boot(100, 4);
    assert!(tl.is_initialized());
    assert_eq!(tl.len(), 1);
    assert_eq!(tl.current(), 0);
    let t = tl.lookup(0).unwrap();
    assert_eq!(t.state(), TaskState::Running);
    assert_eq!(t.saved, cpu.regs);
    assert_eq!(t.address_space, KERNEL_ROOT);
    assert!(!t.is_userspace());
}

#[test]
fn bootstrap_twice_fails_and_changes_nothing() {
    let (mut tl, mut mem, cpu) = boot(100, 4);
    let other = mem.alloc_stack(STACK_PAGES).unwrap();
    let r = tl.init_bootstrap_task(&cpu, 0x9000, other, String::from("again"));
    assert_eq!(r, Err(RegistryError::AlreadyInitialized));
    assert_eq!(tl.len(), 1);
    assert_eq!(tl.lookup(0).unwrap().address_space, KERNEL_ROOT);
    assert_eq!(tl.lookup(0).unwrap().name, "idle");
}

#[test]
fn three_threads_count_to_three() {
    let (mut tl, mut mem, mut cpu) = boot(100, 4);
    let mut ids = Vec::new();
    for k in 0..3u64 {
        ids.push(tl.spawn_kthread(&mut mem, 0x5000 + k, Value::Num(k), format!("t{}", k)).unwrap());
    }
    assert_eq!(ids, vec![1, 2, 3]);
    let mut counter = 0u64;
    let mut rounds = 0;
    while ids.iter().any(|&i| tl.lookup(i).unwrap().state() != TaskState::Exited) {
        tl.yield_now(&mut cpu);
        let cur = tl.current();
        if cur != 0 {
            // the thread body: count once, then return its argument plus ten
            counter += 1;
            let arg = match &tl.lookup(cur).unwrap().kind {
                TaskKind::KernelThread { arg: Value::Num(a), .. } => *a,
                _ => panic!("not a kernel thread"),
            };
            tl.exit_current(Value::Num(arg + 10), &mut cpu);
            assert_eq!(running_count(&tl), 1);
        }
        rounds += 1;
        assert!(rounds < 20);
    }
    assert_eq!(counter, 3);
    for (k, &i) in ids.iter().enumerate() {
        let t = tl.lookup(i).unwrap();
        assert_eq!(t.state(), TaskState::Exited);
        assert_eq!(t.result, Some(Value::Num(k as u64 + 10)));
    }
    assert_eq!(tl.current(), 0);
    assert_eq!(tl.lookup(0).unwrap().state(), TaskState::Running);
}

#[test]
fn yielding_thread_alternates_with_idle() {
    let (mut tl, mut mem, mut cpu) = boot(100, 4);
    let id = tl.spawn_kthread(&mut mem, 0x5000, Value::Nothing, String::from("looper")).unwrap();
    let mut seen = Vec::new();
    for _ in 0..6 {
        tl.yield_now(&mut cpu);
        seen.push(tl.current());
    }
    assert_eq!(seen, vec![id, 0, id, 0, id, 0]);
}

#[test]
fn missing_module_is_reported_and_changes_nothing() {
    let (mut tl, mut mem, _) = boot(100, 4);
    let before = mem;
    let r = tl.spawn_userspace(&mut mem, &modules(), 5, String::from("absent"));
    assert_eq!(r, Err(SpawnError::ModuleNotFound));
    assert_eq!(tl.len(), 1);
    assert_eq!(mem, before);
}

#[test]
fn tick_within_slice_keeps_thread_running() {
    let (mut tl, mut mem, mut cpu) = boot(100, 4);
    let a = tl.spawn_kthread(&mut mem, 0x5000, Value::Nothing, String::from("a")).unwrap();
    let _b = tl.spawn_kthread(&mut mem, 0x6000, Value::Nothing, String::from("b")).unwrap();
    tl.yield_now(&mut cpu);
    assert_eq!(tl.current(), a);
    let cpu_before = cpu;
    tl.tick(&mut cpu);
    assert_eq!(tl.current(), a);
    assert_eq!(tl.lookup(a).unwrap().state(), TaskState::Running);
    assert_eq!(tl.slice_ticks, 1);
    assert_eq!(cpu, cpu_before);
}

#[test]
fn tick_at_end_of_slice_switches() {
    let (mut tl, mut mem, mut cpu) = boot(100, 4);
    let a = tl.spawn_kthread(&mut mem, 0x5000, Value::Nothing, String::from("a")).unwrap();
    let b = tl.spawn_kthread(&mut mem, 0x6000, Value::Nothing, String::from("b")).unwrap();
    tl.yield_now(&mut cpu);
    assert_eq!(tl.current(), a);
    for _ in 0..TIME_SLICE_TICKS - 1 {
        tl.tick(&mut cpu);
        assert_eq!(tl.current(), a);
    }
    tl.tick(&mut cpu);
    assert_eq!(tl.current(), b);
    assert_eq!(tl.slice_ticks, 0);
    assert_eq!(tl.lookup(a).unwrap().state(), TaskState::Runnable);
}

#[test]
fn round_robin_repeats_with_period_of_ready_set() {
    let (mut tl, mut mem, mut cpu) = boot(100, 4);
    for k in 0..4u64 {
        tl.spawn_kthread(&mut mem, 0x5000 + k, Value::Nothing, format!("t{}", k)).unwrap();
    }
    let mut seen = Vec::new();
    for _ in 0..12 {
        tl.yield_now(&mut cpu);
        seen.push(tl.current());
        assert_eq!(running_count(&tl), 1);
    }
    assert_eq!(seen, vec![1, 2, 3, 4, 1, 2, 3, 4, 1, 2, 3, 4]);
}

#[test]
fn exited_and_blocked_tasks_are_never_selected() {
    let (mut tl, mut mem, mut cpu) = boot(100, 4);
    let a = tl.spawn_kthread(&mut mem, 0x5000, Value::Nothing, String::from("a")).unwrap();
    let b = tl.spawn_kthread(&mut mem, 0x6000, Value::Nothing, String::from("b")).unwrap();
    let c = tl.spawn_kthread(&mut mem, 0x7000, Value::Nothing, String::from("c")).unwrap();
    tl.yield_now(&mut cpu);
    assert_eq!(tl.current(), a);
    tl.exit_current(Value::Text(String::from("done")), &mut cpu);
    assert_eq!(tl.current(), b);
    tl.block_current(&mut cpu);
    assert_eq!(tl.current(), c);
    for _ in 0..5 {
        let next = tl.select_next();
        assert_ne!(next, a);
        assert_ne!(next, b);
        tl.yield_now(&mut cpu);
    }
    assert!(tl.unblock(b));
    assert!(!tl.unblock(a));
    assert!(!tl.unblock(99));
    assert_eq!(tl.lookup(b).unwrap().state(), TaskState::Runnable);
    assert_eq!(
        tl.lookup(a).unwrap().result,
        Some(Value::Text(String::from("done")))
    );
}

#[test]
fn idle_runs_when_everything_else_exited() {
    let (mut tl, mut mem, mut cpu) = boot(100, 4);
    let a = tl.spawn_kthread(&mut mem, 0x5000, Value::Nothing, String::from("a")).unwrap();
    tl.yield_now(&mut cpu);
    assert_eq!(tl.current(), a);
    tl.exit_current(Value::Nothing, &mut cpu);
    assert_eq!(tl.current(), 0);
    assert_eq!(tl.select_next(), 0);
    let cpu_before = cpu;
    tl.yield_now(&mut cpu);
    assert_eq!(tl.current(), 0);
    assert_eq!(cpu, cpu_before);
}

#[test]
fn switching_away_and_back_restores_registers() {
    let (mut tl, mut mem, mut cpu) = boot(100, 4);
    let a = tl.spawn_kthread(&mut mem, 0x5000, Value::Nothing, String::from("a")).unwrap();
    let before = cpu;
    tl.yield_now(&mut cpu);
    assert_eq!(tl.current(), a);
    let kstack_top = tl.lookup(a).unwrap().kstack.top;
    assert_eq!(cpu.regs, Registers::kernel_entry(TRAMPOLINE, kstack_top));
    // the thread scribbles over every register before yielding
    cpu.regs.rbx = 0xdead;
    cpu.regs.r15 = 0xbeef;
    cpu.regs.rsp -= 64;
    let a_regs = cpu.regs;
    tl.yield_now(&mut cpu);
    assert_eq!(tl.current(), 0);
    assert_eq!(cpu.regs, before.regs);
    assert_eq!(cpu.page_table_root, before.page_table_root);
    assert_eq!(tl.lookup(a).unwrap().saved, a_regs);
}

#[test]
fn context_switch_saves_and_loads() {
    let mut cpu = kernel_cpu();
    let mut saved = Registers::kernel_entry(0, 0);
    let to = Registers::kernel_entry(0x1111, 0x2222);
    let start = cpu;
    context_switch(&mut saved, &to, 0x7000, &mut cpu);
    assert_eq!(saved, start.regs);
    assert_eq!(cpu.regs, to);
    assert_eq!(cpu.page_table_root, 0x7000);
    let mut saved_b = Registers::kernel_entry(0, 0);
    context_switch(&mut saved_b, &saved.clone(), start.page_table_root, &mut cpu);
    assert_eq!(cpu, start);
    assert_eq!(saved_b, to);
}

#[test]
fn enter_user_mode_builds_user_frame() {
    let mut cpu = kernel_cpu();
    enter_user_mode(&mut cpu, 0xaaaa_0000, 0x8000, 0x40_0000, 0xbbbb_0000);
    assert_eq!(cpu.kernel_entry_stack, 0xaaaa_0000);
    assert_eq!(cpu.page_table_root, 0x8000);
    assert_eq!(cpu.regs.rip, 0x40_0000);
    assert_eq!(cpu.regs.rsp, 0xbbbb_0000);
    assert_eq!(cpu.regs.cs, USER_CODE_SELECTOR);
    assert_eq!(cpu.regs.ss, USER_DATA_SELECTOR);
    assert_eq!(cpu.regs.rflags, RFLAGS_INTERRUPTS_ENABLED);
    assert_eq!(cpu.regs.rbx, 0);
}

#[test]
fn user_task_first_runs_through_privilege_transition() {
    let (mut tl, mut mem, mut cpu) = boot(100, 4);
    let before = mem;
    let id = tl.spawn_userspace(&mut mem, &modules(), 1, String::from("user")).unwrap();
    assert_eq!(id, 1);
    assert_eq!(mem.stack_next, before.stack_next + USER_TASK_PAGES * PAGE_SIZE);
    assert_eq!(mem.frame_next, before.frame_next + PAGE_SIZE);
    let t = tl.lookup(id).unwrap();
    assert!(t.is_userspace());
    assert!(!t.started);
    assert_eq!(t.address_space, before.frame_next);
    let (syscall_top, user_top) = match &t.kind {
        TaskKind::Userspace { syscall_stack, user_stack, image, .. } => {
            assert_eq!(image.entry, 0x40_1000);
            (syscall_stack.top, user_stack.top)
        }
        _ => panic!("not a user task"),
    };
    assert_eq!(t.kstack.guard, before.stack_next);
    tl.yield_now(&mut cpu);
    assert_eq!(tl.current(), id);
    assert_eq!(cpu.regs.rip, 0x40_1000);
    assert_eq!(cpu.regs.rsp, user_top);
    assert_eq!(cpu.regs.cs, USER_CODE_SELECTOR);
    assert_eq!(cpu.kernel_entry_stack, syscall_top);
    assert_eq!(cpu.page_table_root, before.frame_next);
    assert!(tl.lookup(id).unwrap().started);
    assert_eq!(tl.lookup(0).unwrap().state(), TaskState::Runnable);
}

#[test]
fn user_spawn_without_stack_space_changes_nothing() {
    let (mut tl, mut mem, _) = boot(5 + 12, 4);
    let before = mem;
    let r = tl.spawn_userspace(&mut mem, &modules(), 0, String::from("user"));
    assert_eq!(r, Err(SpawnError::Alloc(AllocError::OutOfStackSpace)));
    assert_eq!(mem, before);
    assert_eq!(tl.len(), 1);
}

#[test]
fn user_spawn_without_frame_changes_nothing() {
    let (mut tl, mut mem, _) = boot(100, 0);
    let before = mem;
    let r = tl.spawn_userspace(&mut mem, &modules(), 0, String::from("user"));
    assert_eq!(r, Err(SpawnError::Alloc(AllocError::OutOfFrames)));
    assert_eq!(mem, before);
    assert_eq!(tl.len(), 1);
}

#[test]
fn kthread_spawn_without_stack_space_changes_nothing() {
    let (mut tl, mut mem, _) = boot(5 + 4, 4);
    let before = mem;
    let r = tl.spawn_kthread(&mut mem, 0x5000, Value::Nothing, String::from("k"));
    assert_eq!(r, Err(SpawnError::Alloc(AllocError::OutOfStackSpace)));
    assert_eq!(mem, before);
    assert_eq!(tl.len(), 1);
}

#[test]
fn stack_allocation_layout_and_errors() {
    let mut mem = MemoryProvider::new(0x10_0000, 0x10_0000 + 6 * PAGE_SIZE, 0, PAGE_SIZE);
    assert_eq!(mem.alloc_stack(0), Err(AllocError::EmptyStack));
    assert_eq!(mem.alloc_stack(6), Err(AllocError::OutOfStackSpace));
    let s = mem.alloc_stack(2).unwrap();
    assert_eq!(
        s,
        Stack { guard: 0x10_0000, bottom: 0x10_1000, top: 0x10_3000 }
    );
    assert_eq!(s.top_unusable(), 0x10_3000);
    assert_eq!(s.top_usable(), 0x10_3000 - 16);
    assert_eq!(mem.stack_next, 0x10_3000);
    assert_eq!(mem.alloc_stack(3), Err(AllocError::OutOfStackSpace));
    assert!(mem.alloc_stack(2).is_ok());
    assert_eq!(mem.alloc_address_space(), Ok(0));
    assert_eq!(mem.alloc_address_space(), Err(AllocError::OutOfFrames));
}

#[test]
fn boot_modules_lookup() {
    let m = modules();
    assert_eq!(m.get_module(0).unwrap().entry, 0x40_0000);
    assert_eq!(m.get_module(1).unwrap().start, 0x30_0000);
    assert!(m.get_module(2).is_none());
}

#[test]
fn nxe_bit_is_set_and_others_kept() {
    assert_eq!(with_nxe_bit(0), 0x800);
    assert_eq!(with_nxe_bit(0x501), 0xd01);
    assert_eq!(with_nxe_bit(0xd01), 0xd01);
    assert_eq!(with_nxe_bit(u64::MAX), u64::MAX);
    assert_eq!(EFER_NXE, 1 << 11);
}

#[test]
fn write_protect_bit_is_set_and_others_kept() {
    assert_eq!(with_write_protect_bit(0x8000_0011), 0x8001_0011);
    assert_eq!(with_write_protect_bit(0x1_0000), 0x1_0000);
    assert_eq!(CR0_WRITE_PROTECT, 1 << 16);
}
