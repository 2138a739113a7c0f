//! The memory controller: page tables, frame supplier and stack allocator
//! held together for callers that need stacks.
use vstd::prelude::*;
use crate::mapper::ActivePageTable;
use crate::paging::FrameAllocator;
use crate::stack_allocator::{stack_carved, Stack, StackAllocator};

verus! {

/// Everything stack allocation needs, in one place.
pub struct MemoryController<A: FrameAllocator> {
    pub active_table: ActivePageTable,
    pub frame_allocator: A,
    pub stack_allocator: StackAllocator,
}

impl<A: FrameAllocator> MemoryController<A> {
    /// Allocates a stack of `size` pages below a guard page, as
    /// [`StackAllocator::alloc_stack`] does with this controller's page tables
    /// and frames.
    pub fn alloc_stack(&mut self, size: usize) -> (r: Option<Stack>)
        requires
            old(self).stack_allocator.wf(),
            size > 0 && size + 1 <= old(self).stack_allocator.spec_range().spec_len()
                ==> old(self).frame_allocator.free_frames() >= size,
        ensures
            final(self).stack_allocator.wf(),
            size == 0 || size + 1 > old(self).stack_allocator.spec_range().spec_len() ==> r is None
                && *final(self) == *old(self),
            size > 0 && size + 1 <= old(self).stack_allocator.spec_range().spec_len()
                ==> stack_carved(
                old(self).stack_allocator.spec_range(),
                final(self).stack_allocator.spec_range(),
                old(self).active_table@,
                final(self).active_table@,
                size,
                r,
            ) && final(self).frame_allocator.free_frames() >= old(self).frame_allocator.free_frames()
                - size,
    {
        self.stack_allocator.alloc_stack(&mut self.active_table, &mut self.frame_allocator, size)
    }
}

} // verus!
