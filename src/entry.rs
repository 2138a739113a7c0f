//! One slot of a page table: a frame address and a set of flag bits.
use vstd::prelude::*;
use crate::paging::Frame;

verus! {

/// The entry maps something.
pub const PRESENT: u64 = 0x1;
/// Writes are allowed through the entry.
pub const WRITABLE: u64 = 0x2;
/// The entry maps a huge page instead of pointing to a subtable.
pub const HUGE_PAGE: u64 = 0x80;
/// The bits of an entry that hold flags.
pub const FLAGS_MASK: u64 = 0x8000_0000_0000_0fff;
/// The bits of an entry that hold the frame address.
pub const ADDRESS_MASK: u64 = 0x000f_ffff_ffff_f000;

/// A page table entry, in the processor's encoding.
#[derive(Clone, Copy, Debug, PartialEq, Eq, Structural)]
pub struct Entry(pub u64);

pub open spec fn has_flag(bits: u64, flag: u64) -> bool {
    bits & flag == flag
}

impl Entry {
    pub open spec fn spec_is_present(self) -> bool {
        has_flag(self.0, PRESENT)
    }

    pub open spec fn spec_is_huge(self) -> bool {
        has_flag(self.0, HUGE_PAGE)
    }

    /// The entry leads to a subtable: it is present and no huge page.
    pub open spec fn points_to_table(self) -> bool {
        self.spec_is_present() && !self.spec_is_huge()
    }

    /// The entry that maps nothing.
    pub fn unused() -> (r: Entry)
        ensures
            r.0 == 0,
            !r.spec_is_present(),
    {
        proof {
            assert(0u64 & 1u64 == 0) by (bit_vector);
        }
        Entry(0)
    }

    /// Whether the entry is all zero.
    pub fn is_unused(&self) -> (r: bool)
        ensures
            r == (self.0 == 0),
    {
        self.0 == 0
    }

    /// Clears the entry.
    pub fn set_unused(&mut self)
        ensures
            final(self).0 == 0,
            !final(self).spec_is_present(),
    {
        *self = Entry::unused();
    }

    /// The flag bits of the entry.
    pub fn flags(&self) -> (r: u64)
        ensures
            r == self.0 & FLAGS_MASK,
    {
        self.0 & FLAGS_MASK
    }

    /// Whether the entry is present.
    pub fn is_present(&self) -> (r: bool)
        ensures
            r == self.spec_is_present(),
    {
        self.0 & PRESENT == PRESENT
    }

    /// Whether the entry maps a huge page.
    pub fn is_huge(&self) -> (r: bool)
        ensures
            r == self.spec_is_huge(),
    {
        self.0 & HUGE_PAGE == HUGE_PAGE
    }

    /// The frame the entry points to, when it is present.
    pub fn pointed_frame(&self) -> (r: Option<Frame>)
        ensures
            r == if self.spec_is_present() {
                Some(Frame { number: ((self.0 & ADDRESS_MASK) >> 12u64) as usize })
            } else {
                None
            },
    {
        if self.is_present() {
            let a: u64 = (self.0 & ADDRESS_MASK) >> 12u64;
            proof {
                let v = self.0;
                assert((v & 0x000f_ffff_ffff_f000u64) >> 12u64 <= 0xff_ffff_ffffu64) by (bit_vector);
            }
            Some(Frame { number: a as usize })
        } else {
            None
        }
    }

    /// Points the entry at `frame`, with the flag bits `flags`.
    pub fn set(&mut self, frame: Frame, flags: u64)
        requires
            frame.number < 0x100_0000_0000,
            flags & FLAGS_MASK == flags,
        ensures
            final(self).0 == ((frame.number as u64) << 12u64) | flags,
            final(self).0 & FLAGS_MASK == flags,
            (final(self).0 & ADDRESS_MASK) >> 12u64 == frame.number,
    {
        let n: u64 = frame.number as u64;
        let v: u64 = (n << 12u64) | flags;
        proof {
            assert(n < 0x100_0000_0000u64 && flags & 0x000f_ffff_ffff_f000u64 == 0 ==> ((n << 12u64)
                | flags) & 0x000f_ffff_ffff_f000u64 == n << 12u64) by (bit_vector);
            assert(n < 0x100_0000_0000u64 ==> (n << 12u64) >> 12u64 == n) by (bit_vector);
            assert(n < 0x100_0000_0000u64 && flags & 0x000f_ffff_ffff_f000u64 == 0 ==> ((n << 12u64)
                | flags) & 0x8000_0000_0000_0fffu64 == flags & 0x8000_0000_0000_0fffu64) by (bit_vector);
            assert(flags & 0x8000_0000_0000_0fffu64 == flags ==> flags & 0x000f_ffff_ffff_f000u64 == 0)
                by (bit_vector);
        }
        *self = Entry(v);
    }
}

} // verus!
