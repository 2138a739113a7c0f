//! Stacks carved from a reserved page range, each below an unmapped guard page.
use vstd::prelude::*;
use crate::entry::{PRESENT, WRITABLE};
use crate::mapper::{ActivePageTable, Mapping};
use crate::paging::{Frame, FrameAllocator, Page, PageIter, PAGE_SIZE};

verus! {

broadcast use vstd::std_specs::hash::group_hash_axioms;

/// A stack. It starts at `top`, higher in memory than `bottom`, and grows
/// down towards `bottom`.
#[derive(Debug)]
pub struct Stack {
    top: usize,
    bottom: usize,
}

impl Stack {
    #[verifier::type_invariant]
    spec fn top_above_bottom(self) -> bool {
        self.top > self.bottom
    }

    pub closed spec fn spec_top(self) -> usize {
        self.top
    }

    pub closed spec fn spec_bottom(self) -> usize {
        self.bottom
    }

    /// The stack between `bottom` and `top`; the top must lie above the bottom.
    pub fn new(top: usize, bottom: usize) -> (r: Stack)
        requires
            top > bottom,
        ensures
            r.spec_top() == top,
            r.spec_bottom() == bottom,
    {
        Stack { top, bottom }
    }

    /// Returns the address of the top of this stack.
    pub fn top(&self) -> (r: usize)
        ensures
            r == self.spec_top(),
            r > self.spec_bottom(),
    {
        proof {
            use_type_invariant(self);
        }
        self.top
    }

    /// Returns the address of the bottom of this stack.
    pub fn bottom(&self) -> (r: usize)
        ensures
            r == self.spec_bottom(),
            r < self.spec_top(),
    {
        proof {
            use_type_invariant(self);
        }
        self.bottom
    }
}

/// `after` is `before` with every page numbered `first ..= last` mapped: those
/// that were unmapped become present and writable, and every mapping that was
/// there stays as it was. Nothing else gets mapped.
pub open spec fn maps_stack_pages(
    before: Map<usize, Mapping>,
    after: Map<usize, Mapping>,
    first: int,
    last: int,
) -> bool {
    &&& after.dom() == before.dom().union(Set::new(|n: usize| first <= n <= last))
    &&& forall|n: usize|
        first <= n <= last && !before.contains_key(n) ==> (#[trigger] after[n]).flags == WRITABLE
            | PRESENT
    &&& forall|n: usize| #[trigger] before.contains_key(n) ==> after[n] == before[n]
}

/// The outcome of a stack allocation of `size` pages that fits in `range`:
/// the page after the guard page is the bottom, the stack pages are mapped,
/// and the range moves past them.
pub open spec fn stack_carved(
    range: PageIter,
    range_after: PageIter,
    before: Map<usize, Mapping>,
    after: Map<usize, Mapping>,
    size: usize,
    r: Option<Stack>,
) -> bool {
    let first = range.start.number + 1;
    let last = range.start.number + size;
    &&& r matches Some(s) && s.spec_bottom() == first * PAGE_SIZE && s.spec_top() == (last + 1)
        * PAGE_SIZE
    &&& range_after.start.number == last + 1
    &&& range_after.end == range.end
    &&& maps_stack_pages(before, after, first, last)
}

/// An allocator which allocates [Stack]s.
pub struct StackAllocator {
    range: PageIter,
}

impl StackAllocator {
    /// The pages that have not been committed to a stack yet.
    pub closed spec fn spec_range(self) -> PageIter {
        self.range
    }

    /// Creates a new stack allocator, allocating stacks in the given `page_range`.
    pub fn new(page_range: PageIter) -> (r: StackAllocator)
        requires
            page_range.wf(),
        ensures
            r.spec_range() == page_range,
            r.wf(),
    {
        StackAllocator { range: page_range }
    }

    pub closed spec fn wf(self) -> bool {
        self.range.wf()
    }

    /// Allocates a stack of `size` pages. The next page of the range becomes
    /// its guard page and is left unmapped; the `size` pages after it are mapped
    /// writable, with frames from `frame_alloc`. When the range holds fewer
    /// than `size + 1` pages, or `size` is zero, nothing is allocated and
    /// nothing changes.
    pub fn alloc_stack<A: FrameAllocator>(
        &mut self,
        active_table: &mut ActivePageTable,
        frame_alloc: &mut A,
        size: usize,
    ) -> (r: Option<Stack>)
        requires
            old(self).wf(),
            size > 0 && size + 1 <= old(self).spec_range().spec_len() ==> old(frame_alloc).free_frames()
                >= size,
        ensures
            final(self).wf(),
            size == 0 || size + 1 > old(self).spec_range().spec_len() ==> r is None && *final(self)
                == *old(self) && *final(active_table) == *old(active_table) && *final(frame_alloc)
                == *old(frame_alloc),
            size > 0 && size + 1 <= old(self).spec_range().spec_len() ==> stack_carved(
                old(self).spec_range(),
                final(self).spec_range(),
                old(active_table)@,
                final(active_table)@,
                size,
                r,
            ) && final(frame_alloc).free_frames() >= old(frame_alloc).free_frames() - size,
    {
        // zero-size stacks are nonsensical
        if size == 0 {
            return None;
        }

        let mut range = self.range.clone();

        // try to alloc stack, guard pages
        let guard_page = range.next();
        let stack_start = range.next();
        let stack_end = if size == 1 {
            stack_start
        } else {
            range.nth(size - 2)
        };

        match (guard_page, stack_start, stack_end) {
            (Some(_), Some(start), Some(end)) => {
                // writeback
                self.range = range;

                // map stack pages -> physical frames
                let mut pages = Page::range_inclusive(start, end);
                let ghost before = active_table@;
                let ghost frames_before = frame_alloc.free_frames();
                proof {
                    assert(before.dom().union(Set::new(|n: usize| start.number <= n <= start.number - 1))
                        =~= before.dom());
                }
                loop
                    invariant
                        pages.wf(),
                        pages.end == end,
                        start.number <= pages.start.number <= end.number + 1,
                        end.number == start.number + size - 1,
                        frames_before >= size,
                        frame_alloc.free_frames() >= frames_before - (pages.start.number
                            - start.number),
                        maps_stack_pages(before, active_table@, start.number as int, pages.start.number - 1),
                    ensures
                        pages.start.number == end.number + 1,
                    decreases pages.spec_len(),
                {
                    match pages.next() {
                        Some(page) => {
                            active_table.map(page, WRITABLE, frame_alloc);
                            proof {
                                assert(active_table@.dom() =~= before.dom().union(
                                    Set::new(|n: usize| start.number <= n <= page.number),
                                ));
                            }
                        },
                        None => {
                            break;
                        },
                    }
                }

                // create a new stack
                proof {
                    assert(end.number * PAGE_SIZE + PAGE_SIZE == (end.number + 1) * PAGE_SIZE)
                        by (nonlinear_arith);
                    assert((end.number + 1) * PAGE_SIZE <= (range.end.number + 1) * PAGE_SIZE)
                        by (nonlinear_arith)
                        requires end.number <= range.end.number;
                }
                let top = end.start_address() + Frame::SIZE;
                Some(Stack::new(top, start.start_address()))
            },
            _ => None,  // whoops not enough frames
        }
    }
}

} // verus!
