//! Pages, frames, page ranges and the frame supplier interface.
use vstd::prelude::*;

verus! {

/// Size in bytes of one page (and of one frame).
pub const PAGE_SIZE: usize = 4096;

/// Number of entries in one page table.
pub const ENTRY_COUNT: usize = 512;

/// A physical frame, identified by its number (start address / `PAGE_SIZE`).
#[derive(Clone, Copy, Debug, PartialEq, Eq, PartialOrd, Ord, Structural)]
pub struct Frame {
    pub number: usize,
}

/// A virtual page, identified by its number (start address / `PAGE_SIZE`).
#[derive(Clone, Copy, Debug, PartialEq, Eq, PartialOrd, Ord, Structural)]
pub struct Page {
    pub number: usize,
}

impl Frame {
    /// Size in bytes of a frame.
    pub const SIZE: usize = 4096;

    /// The frame lies below the 52-bit physical address limit and its start
    /// address fits in a `usize`.
    pub open spec fn wf(self) -> bool {
        self.number < 0x100_0000_0000 && self.number * PAGE_SIZE <= usize::MAX
    }

    pub open spec fn spec_start_address(self) -> int {
        self.number * PAGE_SIZE
    }

    /// The frame that holds physical address `address`.
    pub fn containing_address(address: usize) -> (r: Frame)
        ensures
            r.number == address / PAGE_SIZE,
    {
        Frame { number: address / PAGE_SIZE }
    }

    /// The first physical address of this frame.
    pub fn start_address(&self) -> (r: usize)
        requires
            self.wf(),
        ensures
            r == self.spec_start_address(),
    {
        self.number * PAGE_SIZE
    }
}

impl Page {
    pub open spec fn wf(self) -> bool {
        self.number * PAGE_SIZE <= usize::MAX
    }

    pub open spec fn spec_start_address(self) -> int {
        self.number * PAGE_SIZE
    }

    /// The page that holds virtual address `address`.
    pub fn containing_address(address: usize) -> (r: Page)
        ensures
            r.number == address / PAGE_SIZE,
            r.wf(),
    {
        Page { number: address / PAGE_SIZE }
    }

    /// The first virtual address of this page.
    pub fn start_address(&self) -> (r: usize)
        requires
            self.wf(),
        ensures
            r == self.spec_start_address(),
    {
        self.number * PAGE_SIZE
    }

    /// The pages from `start` to `end`, both included.
    pub fn range_inclusive(start: Page, end: Page) -> (r: PageIter)
        requires
            (end.number + 1) * PAGE_SIZE <= usize::MAX,
        ensures
            r.start == start,
            r.end == end,
            r.wf(),
    {
        PageIter { start, end }
    }
}

/// The pages `start ..= end` that have not been handed out yet, in ascending order.
/// The range is empty once `start` has passed `end`.
#[derive(Clone, Copy, Debug)]
pub struct PageIter {
    pub start: Page,
    pub end: Page,
}

impl PageIter {
    /// The address just past the last page of the range fits in a `usize`.
    pub open spec fn wf(self) -> bool {
        (self.end.number + 1) * PAGE_SIZE <= usize::MAX
    }

    /// How many pages are left.
    pub open spec fn spec_len(self) -> nat {
        if self.start.number <= self.end.number {
            (self.end.number - self.start.number + 1) as nat
        } else {
            0
        }
    }

    /// The numbers of the pages that are left, in the order they come out.
    pub open spec fn view(self) -> Seq<usize> {
        Seq::new(self.spec_len(), |i: int| (self.start.number + i) as usize)
    }

    /// Hands out the next page of the range, if any is left.
    pub fn next(&mut self) -> (r: Option<Page>)
        requires
            old(self).wf(),
        ensures
            final(self).wf(),
            final(self).end == old(self).end,
            old(self).spec_len() == 0 ==> r.is_none() && *final(self) == *old(self),
            old(self).spec_len() > 0 ==> r == Some(old(self).start) && final(self).start.number
                == old(self).start.number + 1,
            final(self)@ == if old(self).spec_len() == 0 { old(self)@ } else { old(self)@.drop_first() },
    {
        if self.start.number <= self.end.number {
            let page = self.start;
            self.start = Page { number: self.start.number + 1 };
            assert(self@ =~= old(self)@.drop_first());
            Some(page)
        } else {
            None
        }
    }

    /// Skips `n` pages and hands out the one after them. When fewer than
    /// `n + 1` pages are left, the range is used up and nothing comes out.
    pub fn nth(&mut self, n: usize) -> (r: Option<Page>)
        requires
            old(self).wf(),
        ensures
            final(self).wf(),
            final(self).end == old(self).end,
            n < old(self).spec_len() ==> r == Some(Page { number: (old(self).start.number + n) as usize })
                && final(self).start.number == old(self).start.number + n + 1,
            n >= old(self).spec_len() ==> r.is_none() && final(self).spec_len() == 0,
            final(self)@ == if n < old(self).spec_len() { old(self)@.skip(n + 1) } else { seq![] },
    {
        if self.start.number <= self.end.number && n <= self.end.number - self.start.number {
            let page = Page { number: self.start.number + n };
            self.start = Page { number: page.number + 1 };
            assert(self@ =~= old(self)@.skip(n + 1));
            Some(page)
        } else {
            if self.start.number <= self.end.number {
                self.start = Page { number: self.end.number + 1 };
            }
            assert(self@ =~= seq![]);
            None
        }
    }
}

/// A supplier of physical frames, one per call. How it picks frames is its own
/// business; it states how many it can still hand out.
pub trait FrameAllocator {
    /// How many frames this supplier can still hand out. A supplier that
    /// does not say is taken to have none to promise.
    open spec fn free_frames(&self) -> nat {
        0
    }

    /// Hands out one unused frame, or nothing when none is left.
    fn alloc_frame(&mut self) -> (r: Option<Frame>)
        ensures
            old(self).free_frames() == 0 ==> r.is_none() && final(self).free_frames() == 0,
            old(self).free_frames() > 0 ==> r.is_some() && final(self).free_frames()
                == old(self).free_frames() - 1,
            r matches Some(f) ==> f.wf(),
    ;
}

} // verus!
