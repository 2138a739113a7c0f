//! The global descriptor table, its segment descriptors and selectors, and the
//! task-state segment it points the processor at.
use vstd::prelude::*;

verus! {

/// Number of 64-bit slots in the descriptor table, the null descriptor included.
pub const GDT_SIZE: usize = 8;

/// Size in bytes of a 64-bit task-state segment.
pub const TSS_SIZE: u64 = 104;

/// Descriptor bit: a code or data segment (not a system segment).
pub const USER_SEGMENT: u64 = 1u64 << 44u64;
/// Descriptor bit: the segment is present.
pub const SEGMENT_PRESENT: u64 = 1u64 << 47u64;
/// Descriptor bit: a code segment.
pub const EXECUTABLE: u64 = 1u64 << 43u64;
/// Descriptor bit: a 64-bit code segment.
pub const LONG_MODE: u64 = 1u64 << 53u64;

/// The encoding of the kernel's 64-bit code segment descriptor.
pub open spec fn kernel_code_bits() -> u64 {
    USER_SEGMENT | SEGMENT_PRESENT | EXECUTABLE | LONG_MODE
}

/// The low word of an available 64-bit TSS descriptor for a segment at `base`:
/// limit in bits 0..16, base bits 0..24 in bits 16..40, type 0b1001 in bits
/// 40..44, present in bit 47, base bits 24..32 in bits 56..64.
pub open spec fn tss_low_bits(base: u64) -> u64 {
    SEGMENT_PRESENT | ((TSS_SIZE - 1) as u64 & 0xffff) | ((base & 0xff_ffff) << 16u64) | (0b1001u64
        << 40u64) | (((base >> 24u64) & 0xff) << 56u64)
}

/// Picks a descriptor in the table, with a requested privilege level.
#[derive(Clone, Copy, Debug, PartialEq, Eq, Structural)]
pub struct SegmentSelector(pub u16);

impl SegmentSelector {
    /// The selector of slot `index` at privilege level `rpl`.
    pub fn new(index: u16, rpl: u16) -> (r: SegmentSelector)
        requires
            index < 0x2000,
            rpl < 4,
        ensures
            r.0 == index * 8 + rpl,
    {
        proof {
            assert(index < 0x2000u16 && rpl < 4u16 ==> (index << 3u16) | rpl == index * 8 + rpl)
                by (bit_vector);
        }
        SegmentSelector((index << 3u16) | rpl)
    }
}

/// A segment descriptor: one word for code and data segments, two for system
/// segments such as the task-state segment.
#[derive(Clone, Copy, Debug, PartialEq, Eq, Structural)]
pub enum Descriptor {
    UserSegment(u64),
    SystemSegment(u64, u64),
}

impl Descriptor {
    /// The words the descriptor takes in the table, in order.
    pub open spec fn words(self) -> Seq<u64> {
        match self {
            Descriptor::UserSegment(v) => seq![v],
            Descriptor::SystemSegment(low, high) => seq![low, high],
        }
    }

    /// The kernel's 64-bit code segment.
    pub fn kernel_code_segment() -> (r: Descriptor)
        ensures
            r == Descriptor::UserSegment(kernel_code_bits()),
    {
        Descriptor::UserSegment(USER_SEGMENT | SEGMENT_PRESENT | EXECUTABLE | LONG_MODE)
    }

    /// The descriptor of a task-state segment that starts at address `base`.
    pub fn tss_segment(base: u64) -> (r: Descriptor)
        ensures
            r == Descriptor::SystemSegment(tss_low_bits(base), base >> 32u64),
    {
        let mut low: u64 = SEGMENT_PRESENT;
        low = low | ((TSS_SIZE - 1) & 0xffff);
        low = low | ((base & 0xff_ffff) << 16u64);
        low = low | (0b1001u64 << 40u64);
        low = low | (((base >> 24u64) & 0xff) << 56u64);
        Descriptor::SystemSegment(low, base >> 32u64)
    }
}

/// The global descriptor table. Slot 0 holds the null descriptor; entries are
/// added behind it once and never taken out.
pub struct Gdt {
    table: [u64; GDT_SIZE],
    next_free: usize,
}

impl Gdt {
    /// The words in use, the null descriptor first.
    pub closed spec fn view(self) -> Seq<u64> {
        self.table@.take(self.next_free as int)
    }

    pub closed spec fn wf(self) -> bool {
        &&& 1 <= self.next_free <= GDT_SIZE
        &&& self.table@[0] == 0
    }

    /// A table holding only the null descriptor.
    pub fn new() -> (r: Gdt)
        ensures
            r.wf(),
            r@ == seq![0u64],
    {
        let r = Gdt { table: [0u64; GDT_SIZE], next_free: 1 };
        assert(r@ =~= seq![0u64]);
        r
    }

    /// How many words are in use.
    pub fn len(&self) -> (r: usize)
        requires
            self.wf(),
        ensures
            r == self@.len(),
    {
        self.next_free
    }

    /// The whole table, as the processor reads it.
    pub fn table(&self) -> (r: &[u64; GDT_SIZE])
        requires
            self.wf(),
        ensures
            r@.take(self@.len() as int) == self@,
    {
        &self.table
    }

    fn push(&mut self, value: u64) -> (r: usize)
        requires
            old(self).wf(),
            old(self)@.len() < GDT_SIZE,
        ensures
            final(self).wf(),
            final(self)@ == old(self)@.push(value),
            r == old(self)@.len(),
    {
        let index = self.next_free;
        self.table[index] = value;
        self.next_free = index + 1;
        assert(self@ =~= old(self)@.push(value));
        index
    }

    /// Appends `entry` and returns the ring-0 selector of its first slot.
    /// The table must have room for it.
    pub fn add_entry(&mut self, entry: Descriptor) -> (r: SegmentSelector)
        requires
            old(self).wf(),
            old(self)@.len() + entry.words().len() <= GDT_SIZE,
        ensures
            final(self).wf(),
            final(self)@ == old(self)@ + entry.words(),
            r.0 == old(self)@.len() * 8,
    {
        let index = match entry {
            Descriptor::UserSegment(value) => self.push(value),
            Descriptor::SystemSegment(value_low, value_high) => {
                let index = self.push(value_low);
                self.push(value_high);
                index
            },
        };
        assert(self@ =~= old(self)@ + entry.words());
        SegmentSelector::new(index as u16, 0)
    }
}

/// The 64-bit task-state segment: stack pointers for privilege changes and
/// the interrupt stack table, seven alternate stacks for chosen vectors.
#[derive(Clone, Copy, Debug)]
pub struct TaskStateSegment {
    pub privilege_stack_table: [u64; 3],
    pub interrupt_stack_table: [u64; 7],
    pub iomap_base: u16,
}

impl TaskStateSegment {
    /// A segment with every stack pointer zero.
    pub fn new() -> (r: TaskStateSegment)
        ensures
            r.privilege_stack_table@ == seq![0u64, 0u64, 0u64],
            r.interrupt_stack_table@ == Seq::new(7, |i: int| 0u64),
            r.iomap_base == 0,
    {
        let r = TaskStateSegment {
            privilege_stack_table: [0u64; 3],
            interrupt_stack_table: [0u64; 7],
            iomap_base: 0,
        };
        assert(r.privilege_stack_table@ =~= seq![0u64, 0u64, 0u64]);
        assert(r.interrupt_stack_table@ =~= Seq::new(7, |i: int| 0u64));
        r
    }
}

} // verus!
