//! The active address space: which virtual pages are mapped to which frames.
use vstd::prelude::*;
use std::collections::HashMap;
use crate::entry::PRESENT;
use crate::paging::{Frame, FrameAllocator, Page};

verus! {

broadcast use vstd::std_specs::hash::group_hash_axioms;

/// Where a mapped page leads: its frame and the entry flags it was mapped with.
#[derive(Clone, Copy, Debug, PartialEq, Eq, Structural)]
pub struct Mapping {
    pub frame: Frame,
    pub flags: u64,
}

/// The page tables in use, seen as a map from page number to mapping.
pub struct ActivePageTable {
    mappings: HashMap<usize, Mapping>,
}

impl ActivePageTable {
    /// The mapped pages, by page number.
    pub closed spec fn view(&self) -> Map<usize, Mapping> {
        self.mappings@
    }

    /// An address space with nothing mapped.
    pub fn new() -> (r: ActivePageTable)
        ensures
            r@ == Map::<usize, Mapping>::empty(),
    {
        ActivePageTable { mappings: HashMap::new() }
    }

    /// Where `page` is mapped, if it is.
    pub fn translate_page(&self, page: Page) -> (r: Option<Mapping>)
        ensures
            r == if self@.contains_key(page.number) {
                Some(self@[page.number])
            } else {
                None
            },
    {
        match self.mappings.get(&page.number) {
            Some(m) => Some(*m),
            None => None,
        }
    }

    /// Maps `page` to a fresh frame from `allocator`, present and with `flags`.
    /// A page that is mapped already is left as it is, and no frame is taken.
    pub fn map<A: FrameAllocator>(&mut self, page: Page, flags: u64, allocator: &mut A)
        requires
            old(self)@.contains_key(page.number) || old(allocator).free_frames() > 0,
        ensures
            old(self)@.contains_key(page.number) ==> *final(self) == *old(self) && *final(allocator)
                == *old(allocator),
            !old(self)@.contains_key(page.number) ==> final(allocator).free_frames()
                == old(allocator).free_frames() - 1 && final(self)@.dom() == old(self)@.dom().insert(
                page.number,
            ) && final(self)@[page.number].flags == flags | PRESENT && final(self)@[page.number].frame.wf()
                && forall|n: usize|
                n != page.number && old(self)@.contains_key(n) ==> #[trigger] final(self)@[n] == old(
                    self,
                )@[n],
    {
        if self.mappings.contains_key(&page.number) {
            return;
        }
        let frame = allocator.alloc_frame().unwrap();
        self.mappings.insert(page.number, Mapping { frame, flags: flags | PRESENT });
    }
}

} // verus!
