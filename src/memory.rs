//! The stack and address-space provider: guard-paged stacks and page-table
//! roots carved out of fixed virtual and physical ranges, and the boot modules
//! that user tasks are built from.
use vstd::prelude::*;

verus! {

/// Size of one page in bytes.
pub const PAGE_SIZE: u64 = 4096;

/// A stack of whole pages with one unmapped guard page below it.
///
/// The guard page spans `[guard, bottom)` and the usable stack `[bottom, top)`.
#[derive(Clone, Copy, Debug, PartialEq, Eq, Structural)]
pub struct Stack {
    pub guard: u64,
    pub bottom: u64,
    pub top: u64,
}

impl Stack {
    pub open spec fn wf(&self) -> bool {
        &&& self.bottom == self.guard + PAGE_SIZE
        &&& self.bottom < self.top
    }

    /// Number of usable pages.
    pub open spec fn pages(&self) -> int {
        (self.top - self.bottom) / (PAGE_SIZE as int)
    }

    /// The first address above the stack; the initial stack pointer.
    pub fn top_unusable(&self) -> (r: u64)
        ensures
            r == self.top,
    {
        self.top
    }

    /// The highest 16-byte aligned slot inside the stack.
    pub fn top_usable(&self) -> (r: u64)
        requires
            self.wf(),
            self.top - self.bottom >= 16,
        ensures
            r == self.top - 16,
    {
        self.top - 16
    }
}

/// A program image handed over by the boot loader: an opaque blob at a
/// physical range and the virtual address where execution starts.
#[derive(Clone, Copy, Debug, PartialEq, Eq, Structural)]
pub struct EntryImage {
    pub start: u64,
    pub end: u64,
    pub entry: u64,
}

/// The modules the boot loader supplied, in boot order.
pub struct BootModules {
    pub modules: Vec<EntryImage>,
}

impl BootModules {
    pub fn new(modules: Vec<EntryImage>) -> (r: BootModules)
        ensures
            r.modules@ == modules@,
    {
        BootModules { modules }
    }

    /// The module at `index`, or `None` when the boot loader supplied fewer.
    pub fn get_module(&self, index: usize) -> (r: Option<EntryImage>)
        ensures
            index < self.modules@.len() ==> r == Some(self.modules@[index as int]),
            index >= self.modules@.len() ==> r.is_none(),
    {
        if index < self.modules.len() {
            Some(self.modules[index])
        } else {
            None
        }
    }
}

/// Why an allocation from the provider failed.
#[derive(Clone, Copy, Debug, PartialEq, Eq, Structural)]
pub enum AllocError {
    /// A stack of zero pages was asked for.
    EmptyStack,
    /// The virtual range for stacks is used up.
    OutOfStackSpace,
    /// No physical frame is left for a page-table root.
    OutOfFrames,
}

/// Bump allocators for guarded stacks (virtual range `[stack_next, stack_end)`)
/// and for page-table root frames (physical range `[frame_next, frame_end)`).
#[derive(Clone, Copy, Debug, PartialEq, Eq, Structural)]
pub struct MemoryProvider {
    pub stack_next: u64,
    pub stack_end: u64,
    pub frame_next: u64,
    pub frame_end: u64,
}

impl MemoryProvider {
    pub open spec fn wf(&self) -> bool {
        &&& self.stack_next <= self.stack_end
        &&& self.frame_next <= self.frame_end
    }

    /// Whole pages left in the stack range.
    pub open spec fn stack_pages_left(&self) -> int {
        (self.stack_end - self.stack_next) / (PAGE_SIZE as int)
    }

    pub fn new(stack_start: u64, stack_end: u64, frame_start: u64, frame_end: u64) -> (r:
        MemoryProvider)
        requires
            stack_start <= stack_end,
            frame_start <= frame_end,
        ensures
            r.wf(),
            r == (MemoryProvider {
                stack_next: stack_start,
                stack_end,
                frame_next: frame_start,
                frame_end,
            }),
    {
        MemoryProvider { stack_next: stack_start, stack_end, frame_next: frame_start, frame_end }
    }

    /// Allocates a stack of `pages` usable pages with a guard page below it.
    ///
    /// Succeeds exactly when `pages` is positive and `pages + 1` whole pages are
    /// left; the stack then starts where the range did and the range shrinks by
    /// that much. On failure nothing changes.
    pub fn alloc_stack(&mut self, pages: u64) -> (r: Result<Stack, AllocError>)
        requires
            old(self).wf(),
        ensures
            final(self).wf(),
            final(self).stack_end == old(self).stack_end,
            final(self).frame_next == old(self).frame_next,
            final(self).frame_end == old(self).frame_end,
            pages == 0 ==> r == Err::<Stack, AllocError>(AllocError::EmptyStack),
            pages > 0 && pages + 1 > old(self).stack_pages_left() ==> r == Err::<Stack, AllocError>(
                AllocError::OutOfStackSpace,
            ),
            r.is_err() ==> *final(self) == *old(self),
            pages > 0 && pages + 1 <= old(self).stack_pages_left() ==> {
                &&& r == Ok::<Stack, AllocError>(
                    Stack {
                        guard: old(self).stack_next,
                        bottom: (old(self).stack_next + PAGE_SIZE) as u64,
                        top: (old(self).stack_next + (pages + 1) * PAGE_SIZE) as u64,
                    },
                )
                &&& final(self).stack_next == old(self).stack_next + (pages + 1) * PAGE_SIZE
                &&& final(self).stack_pages_left() == old(self).stack_pages_left() - (pages + 1)
            },
            r matches Ok(s) ==> s.wf() && s.pages() == pages,
    {
        if pages == 0 {
            return Err(AllocError::EmptyStack);
        }
        let left: u64 = (self.stack_end - self.stack_next) / PAGE_SIZE;
        if pages >= left {
            return Err(AllocError::OutOfStackSpace);
        }
        proof {
            assert((pages + 1) * PAGE_SIZE <= left * PAGE_SIZE) by (nonlinear_arith)
                requires
                    pages + 1 <= left,
            ;
            assert(left * PAGE_SIZE <= self.stack_end - self.stack_next) by (nonlinear_arith)
                requires
                    left == (self.stack_end - self.stack_next) / (PAGE_SIZE as int),
                    self.stack_end - self.stack_next >= 0,
            ;
            assert(((pages + 1) * PAGE_SIZE - PAGE_SIZE) / (PAGE_SIZE as int) == pages) by (
            nonlinear_arith);
            let x = self.stack_end - self.stack_next;
            assert((x - (pages + 1) * PAGE_SIZE) / (PAGE_SIZE as int) == x / (PAGE_SIZE as int) - (
            pages + 1)) by (nonlinear_arith)
                requires
                    x >= (pages + 1) * PAGE_SIZE,
            ;
        }
        let size: u64 = (pages + 1) * PAGE_SIZE;
        let s = Stack {
            guard: self.stack_next,
            bottom: self.stack_next + PAGE_SIZE,
            top: self.stack_next + size,
        };
        self.stack_next = self.stack_next + size;
        Ok(s)
    }

    /// Allocates one frame for the root of a fresh page table.
    ///
    /// Succeeds exactly when a whole page is left in the frame range.
    pub fn alloc_address_space(&mut self) -> (r: Result<u64, AllocError>)
        requires
            old(self).wf(),
        ensures
            final(self).wf(),
            old(self).frame_end - old(self).frame_next >= PAGE_SIZE ==> {
                &&& r == Ok::<u64, AllocError>(old(self).frame_next)
                &&& *final(self) == (MemoryProvider {
                    frame_next: (old(self).frame_next + PAGE_SIZE) as u64,
                    ..*old(self)
                })
            },
            old(self).frame_end - old(self).frame_next < PAGE_SIZE ==> {
                &&& r == Err::<u64, AllocError>(AllocError::OutOfFrames)
                &&& *final(self) == *old(self)
            },
    {
        if self.frame_end - self.frame_next < PAGE_SIZE {
            return Err(AllocError::OutOfFrames);
        }
        let root = self.frame_next;
        self.frame_next = self.frame_next + PAGE_SIZE;
        Ok(root)
    }
}

} // verus!
