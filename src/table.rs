//! Page tables of the four-level hierarchy, reached through the recursive
//! self-mapping.
use vstd::prelude::*;
use crate::entry::{Entry, PRESENT, WRITABLE};
use crate::paging::{FrameAllocator, ENTRY_COUNT};

verus! {

/// The virtual address of the top-level table under the recursive self-mapping.
pub const ROOT_TABLE_ADDRESS: u64 = 0xffff_ffff_ffff_f000;

/// The four levels of the hierarchy, from the top down.
#[derive(Clone, Copy, Debug, PartialEq, Eq, Structural)]
pub enum TableLevel {
    Level4,
    Level3,
    Level2,
    Level1,
}

impl TableLevel {
    /// 4 for the top level down to 1 for the leaf level.
    pub open spec fn rank(self) -> nat {
        match self {
            TableLevel::Level4 => 4,
            TableLevel::Level3 => 3,
            TableLevel::Level2 => 2,
            TableLevel::Level1 => 1,
        }
    }

    /// The level below, or nothing for the leaf level.
    pub open spec fn spec_next(self) -> Option<TableLevel> {
        match self {
            TableLevel::Level4 => Some(TableLevel::Level3),
            TableLevel::Level3 => Some(TableLevel::Level2),
            TableLevel::Level2 => Some(TableLevel::Level1),
            TableLevel::Level1 => None,
        }
    }

    /// The level below, or nothing for the leaf level.
    pub fn next_level(&self) -> (r: Option<TableLevel>)
        ensures
            r == self.spec_next(),
    {
        match self {
            TableLevel::Level4 => Some(TableLevel::Level3),
            TableLevel::Level3 => Some(TableLevel::Level2),
            TableLevel::Level2 => Some(TableLevel::Level1),
            TableLevel::Level1 => None,
        }
    }
}

/// Where the subtable behind entry `index` of the table at `address` appears
/// under the recursive self-mapping: the table's address moved up by one
/// level's worth of index bits, with `index` as the page index.
/// This holds only while the top-level table maps itself.
pub open spec fn subtable_address(address: u64, index: usize) -> u64 {
    (address << 9u64) | ((index as u64) << 12u64)
}

/// One page table: 512 entries at a level of the hierarchy. The subtables
/// that present, non-huge entries lead to are held beside the entries.
pub struct Table {
    level: TableLevel,
    address: u64,
    entries: [Entry; ENTRY_COUNT],
    subtables: Vec<Option<Box<Table>>>,
}

impl Table {
    pub closed spec fn spec_level(self) -> TableLevel {
        self.level
    }

    pub closed spec fn spec_address(self) -> u64 {
        self.address
    }

    /// The entries of the table.
    pub closed spec fn view(self) -> Seq<Entry> {
        self.entries@
    }

    /// Entry `i` leads to a subtable.
    pub open spec fn has_subtable(self, i: int) -> bool {
        self.spec_level() != TableLevel::Level1 && self@[i].points_to_table()
    }

    /// The subtable behind entry `i`, if it has one.
    pub closed spec fn spec_subtable(self, i: int) -> Option<Table> {
        match self.subtables@[i] {
            Some(b) => Some(*b),
            None => None,
        }
    }

    /// Every table of the tree holds 512 entries, has a subtable exactly behind
    /// its present, non-huge entries above the leaf level, and each subtable sits
    /// one level down at the address the self-mapping gives it.
    pub closed spec fn wf(self) -> bool {
        self.tree_wf()
    }

    spec fn tree_wf(self) -> bool
        decreases self.level.rank(),
    {
        &&& self.subtables@.len() == ENTRY_COUNT
        &&& forall|i: int|
            0 <= i < ENTRY_COUNT ==> (#[trigger] self.subtables@[i] is Some <==> self.has_subtable(i))
        &&& forall|i: int|
            0 <= i < ENTRY_COUNT && #[trigger] self.subtables@[i] is Some ==> {
                let t = *self.subtables@[i]->Some_0;
                &&& self.level.spec_next() == Some(t.level)
                &&& t.level.rank() < self.level.rank()
                &&& t.address == subtable_address(self.address, i as usize)
                &&& t.tree_wf()
            }
    }

    /// What a subtable behind entry `i` is known to satisfy.
    pub open spec fn valid_subtable(self, i: int, t: Table) -> bool {
        &&& Some(t.spec_level()) == self.spec_level().spec_next()
        &&& t.spec_address() == subtable_address(self.spec_address(), i as usize)
        &&& t.wf()
    }

    proof fn lemma_subtable(self, i: int)
        requires
            self.wf(),
            0 <= i < ENTRY_COUNT,
        ensures
            self.spec_subtable(i) is Some <==> self.has_subtable(i),
            self.spec_subtable(i) matches Some(t) ==> self.valid_subtable(i, t),
    {
        assert(self.subtables@[i] is Some <==> self.has_subtable(i));
    }

    /// `after` is `self` with the subtable behind entry `i` replaced by `t`.
    pub closed spec fn replaced_subtable(self, after: Table, i: int, t: Table) -> bool {
        &&& after.level == self.level
        &&& after.address == self.address
        &&& after.entries == self.entries
        &&& after.subtables@ == self.subtables@.update(i, Some(Box::new(t)))
    }

    fn none_subtables() -> (r: Vec<Option<Box<Table>>>)
        ensures
            r@.len() == ENTRY_COUNT,
            forall|i: int| 0 <= i < ENTRY_COUNT ==> #[trigger] r@[i] is None,
    {
        let mut r: Vec<Option<Box<Table>>> = Vec::new();
        let mut i: usize = 0;
        while i < ENTRY_COUNT
            invariant
                i <= ENTRY_COUNT,
                r@.len() == i,
                forall|j: int| 0 <= j < i ==> #[trigger] r@[j] is None,
            decreases ENTRY_COUNT - i,
        {
            r.push(None);
            i = i + 1;
        }
        r
    }

    /// A table at `level`, seen at virtual `address`, with every entry unused.
    pub fn new(level: TableLevel, address: u64) -> (r: Table)
        ensures
            r.wf(),
            r.spec_level() == level,
            r.spec_address() == address,
            r@.len() == ENTRY_COUNT,
            forall|i: int| 0 <= i < ENTRY_COUNT ==> (#[trigger] r@[i]).0 == 0,
            forall|i: int| 0 <= i < ENTRY_COUNT ==> !(#[trigger] r@[i]).spec_is_present(),
    {
        let entries: [Entry; ENTRY_COUNT] = [Entry(0); ENTRY_COUNT];
        let r = Table { level, address, entries, subtables: Table::none_subtables() };
        assert forall|i: int| 0 <= i < ENTRY_COUNT implies !(#[trigger] r@[i]).spec_is_present() by {
            let v = r@[i].0;
            assert(v == 0 ==> v & 1u64 != 1u64) by (bit_vector);
        }
        r
    }

    /// The level of the table.
    pub fn level(&self) -> (r: TableLevel)
        ensures
            r == self.spec_level(),
    {
        self.level
    }

    /// The virtual address at which the table is seen.
    pub fn address(&self) -> (r: u64)
        ensures
            r == self.spec_address(),
    {
        self.address
    }

    /// Entry `index` of the table.
    pub fn entry(&self, index: usize) -> (r: Entry)
        requires
            index < ENTRY_COUNT,
        ensures
            r == self@[index as int],
    {
        self.entries[index]
    }

    /// Marks every entry of the table unused, so that nothing stale in it
    /// can be read as a mapping.
    pub fn zero(&mut self)
        ensures
            final(self).wf(),
            final(self).spec_level() == old(self).spec_level(),
            final(self).spec_address() == old(self).spec_address(),
            final(self)@.len() == ENTRY_COUNT,
            forall|i: int| 0 <= i < ENTRY_COUNT ==> (#[trigger] final(self)@[i]).0 == 0,
            forall|i: int| 0 <= i < ENTRY_COUNT ==> !(#[trigger] final(self)@[i]).spec_is_present(),
    {
        let mut i: usize = 0;
        while i < ENTRY_COUNT
            invariant
                i <= ENTRY_COUNT,
                self.level == old(self).level,
                self.address == old(self).address,
                forall|j: int| 0 <= j < i ==> (#[trigger] self.entries@[j]).0 == 0,
            decreases ENTRY_COUNT - i,
        {
            self.entries[i] = Entry::unused();
            i = i + 1;
        }
        self.subtables = Table::none_subtables();
        assert forall|i: int| 0 <= i < ENTRY_COUNT implies !(#[trigger] self@[i]).spec_is_present() by {
            let v = self@[i].0;
            assert(v == 0 ==> v & 1u64 != 1u64) by (bit_vector);
        }
    }

    /// The address of the subtable behind entry `index`, if the entry leads to
    /// one: present, no huge page, and the table above the leaf level.
    pub fn next_table_address(&self, index: usize) -> (r: Option<u64>)
        requires
            self.wf(),
            index < ENTRY_COUNT,
        ensures
            r == if self.has_subtable(index as int) {
                Some(subtable_address(self.spec_address(), index))
            } else {
                None
            },
    {
        let entry = self.entries[index];
        if self.level != TableLevel::Level1 && entry.is_present() && !entry.is_huge() {
            Some((self.address << 9u64) | ((index as u64) << 12u64))
        } else {
            None
        }
    }

    /// The subtable behind entry `index`, if the entry leads to one.
    pub fn next_table(&self, index: usize) -> (r: Option<&Table>)
        requires
            self.wf(),
            index < ENTRY_COUNT,
        ensures
            r is Some <==> self.has_subtable(index as int),
            r matches Some(t) ==> Some(*t) == self.spec_subtable(index as int) && self.valid_subtable(
                index as int,
                *t,
            ),
    {
        proof {
            self.lemma_subtable(index as int);
        }
        match &self.subtables[index] {
            Some(t) => Some(&**t),
            None => None,
        }
    }

    /// The subtable behind entry `index`, for changing, if the entry leads to one.
    pub fn next_table_mut(&mut self, index: usize) -> (r: Option<&mut Table>)
        requires
            old(self).wf(),
            index < ENTRY_COUNT,
        ensures
            r is Some <==> old(self).has_subtable(index as int),
            r matches Some(t) ==> Some(*t) == old(self).spec_subtable(index as int)
                && old(self).valid_subtable(index as int, *t)
                && old(self).replaced_subtable(*final(self), index as int, *final(t)),
            r matches Some(t) ==> (old(self).valid_subtable(index as int, *final(t)) ==> final(self).wf()),
            r is None ==> *final(self) == *old(self),
    {
        proof {
            self.lemma_subtable(index as int);
        }
        if self.subtables[index].is_none() {
            return None;
        }
        match self.subtables[index].as_mut() {
            Some(t) => Some(&mut **t),
            None => None,
        }
    }

    /// The subtable behind entry `index`, made on demand: when the entry leads
    /// nowhere yet, one frame is taken from `allocator`, the entry is pointed at
    /// it as present and writable, and the new subtable starts out zeroed. When
    /// the subtable is there already, the allocator is not consulted.
    /// A huge-page entry cannot be descended through, and the allocator must
    /// have a frame when one is needed.
    pub fn next_table_create<A: FrameAllocator>(&mut self, index: usize, allocator: &mut A) -> (r:
        &mut Table)
        requires
            old(self).wf(),
            index < ENTRY_COUNT,
            old(self).spec_level() != TableLevel::Level1,
            !(old(self)@[index as int].spec_is_present() && old(self)@[index as int].spec_is_huge()),
            old(self).has_subtable(index as int) || old(allocator).free_frames() > 0,
        ensures
            old(self).valid_subtable(index as int, *r),
            old(self).has_subtable(index as int) ==> Some(*r) == old(self).spec_subtable(index as int)
                && *final(allocator) == *old(allocator) && final(self)@ == old(self)@,
            !old(self).has_subtable(index as int) ==> final(allocator).free_frames()
                == old(allocator).free_frames() - 1 && (forall|j: int|
                0 <= j < ENTRY_COUNT ==> (#[trigger] (*r)@[j]).0 == 0),
            final(self).spec_level() == old(self).spec_level(),
            final(self).spec_address() == old(self).spec_address(),
            final(self)@.len() == ENTRY_COUNT,
            final(self).has_subtable(index as int),
            forall|j: int|
                0 <= j < ENTRY_COUNT && j != index ==> #[trigger] final(self)@[j] == old(self)@[j],
            final(self).spec_subtable(index as int) == Some(*final(r)),
            old(self).valid_subtable(index as int, *final(r)) ==> final(self).wf(),
    {
        proof {
            self.lemma_subtable(index as int);
        }
        if self.next_table_address(index).is_none() {
            let frame = allocator.alloc_frame().unwrap();
            let mut entry = self.entries[index];
            proof {
                assert(0x3u64 & 0x8000_0000_0000_0fffu64 == 0x3u64) by (bit_vector);
                assert(1u64 | 2u64 == 3u64) by (bit_vector);
            }
            entry.set(frame, PRESENT | WRITABLE);
            proof {
                let v = entry.0;
                let n = frame.number as u64;
                assert(v == (n << 12u64) | 3u64 ==> v & 1u64 == 1u64 && v & 0x80u64 != 0x80u64)
                    by (bit_vector);
            }
            self.entries[index] = entry;
            let next = self.level.next_level().unwrap();
            let table = Table::new(next, (self.address << 9u64) | ((index as u64) << 12u64));
            self.subtables[index] = Some(Box::new(table));
            proof {
                assert forall|i: int| 0 <= i < ENTRY_COUNT && #[trigger] self.subtables@[i] is Some implies {
                    let t = *self.subtables@[i]->Some_0;
                    &&& self.level.spec_next() == Some(t.level)
                    &&& t.level.rank() < self.level.rank()
                    &&& t.address == subtable_address(self.address, i as usize)
                    &&& t.tree_wf()
                } by {
                    if i != index {
                        assert(old(self).subtables@[i] is Some);
                    }
                }
                assert forall|i: int| 0 <= i < ENTRY_COUNT implies (#[trigger] self.subtables@[i] is Some
                    <==> self.has_subtable(i)) by {
                    if i != index {
                        assert(old(self).subtables@[i] is Some <==> old(self).has_subtable(i));
                    }
                }
                assert(self.tree_wf());
            }
        }
        proof {
            self.lemma_subtable(index as int);
        }
        let t = self.subtables[index].as_mut().unwrap();
        &mut **t
    }

    /// Overwrites entry `index` with `entry`, dropping any subtable behind it.
    /// Above the leaf level the new entry may not lead to a subtable: those come
    /// from `next_table_create` alone.
    pub fn set_entry(&mut self, index: usize, entry: Entry)
        requires
            old(self).wf(),
            index < ENTRY_COUNT,
            old(self).spec_level() == TableLevel::Level1 || !entry.points_to_table(),
        ensures
            final(self).wf(),
            final(self).spec_level() == old(self).spec_level(),
            final(self).spec_address() == old(self).spec_address(),
            final(self)@ == old(self)@.update(index as int, entry),
    {
        self.entries[index] = entry;
        self.subtables[index] = None;
        proof {
            assert forall|i: int| 0 <= i < ENTRY_COUNT && #[trigger] self.subtables@[i] is Some implies {
                let t = *self.subtables@[i]->Some_0;
                &&& self.level.spec_next() == Some(t.level)
                &&& t.level.rank() < self.level.rank()
                &&& t.address == subtable_address(self.address, i as usize)
                &&& t.tree_wf()
            } by {
                assert(old(self).subtables@[i] is Some);
            }
            assert forall|i: int| 0 <= i < ENTRY_COUNT implies (#[trigger] self.subtables@[i] is Some
                <==> self.has_subtable(i)) by {
                if i != index {
                    assert(old(self).subtables@[i] is Some <==> old(self).has_subtable(i));
                }
            }
            assert(self.tree_wf());
        }
    }
}

} // verus!
