//! Task and scheduling core of a small single-processor kernel: guarded
//! stacks, tasks, the task registry, context switching, the first entry into
//! user mode, a round-robin scheduler with an idle task, and the control
//! register values set at boot.
pub mod memory;
pub mod context;
pub mod task;
pub mod registry;
pub mod scheduler;
pub mod fairness;
pub mod control;
