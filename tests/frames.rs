use sparkle::entry::{Entry, HUGE_PAGE, PRESENT, WRITABLE};
use sparkle::paging::{Frame, FrameAllocator, Page, PageIter};
use sparkle::table::{Table, TableLevel, ROOT_TABLE_ADDRESS};

/// Hands out frames 100, 101, ... up to a limit, and counts the calls.
struct CountingFrames {
    next: usize,
    left: usize,
    calls: usize,
}

impl FrameAllocator for CountingFrames {
    fn alloc_frame(&mut self) -> Option<Frame> {
        self.calls += 1;
        if self.left == 0 {
            return None;
        }
        self.left -= 1;
        let f = Frame { number: self.next };
        self.next += 1;
        Some(f)
    }
}

#[test]
fn zero_marks_every_entry_unused() {
    let mut t = Table::new(TableLevel::Level1, 0x1000);
    t.set_entry(3, Entry(0x5000 | PRESENT | WRITABLE));
    t.set_entry(511, Entry(0x6000 | PRESENT));
    assert!(t.entry(3).is_present());
    t.zero();
    for i in 0..512 {
        assert!(!t.entry(i).is_present());
        assert!(t.entry(i).is_unused());
    }
}

#[test]
fn next_table_of_absent_entry_is_none() {
    let mut t = Table::new(TableLevel::Level4, ROOT_TABLE_ADDRESS);
    assert!(t.next_table(7).is_none());
    assert!(t.next_table_mut(7).is_none());
    assert_eq!(t.next_table_address(7), None);
}

#[test]
fn next_table_of_huge_page_is_none() {
    let mut t = Table::new(TableLevel::Level3, 0x1000);
    t.set_entry(1, Entry(0x4000_0000 | PRESENT | HUGE_PAGE));
    assert!(t.entry(1).is_present());
    assert!(t.entry(1).is_huge());
    assert!(t.next_table(1).is_none());
    assert!(t.next_table_mut(1).is_none());
    assert_eq!(t.next_table_address(1), None);
}

#[test]
fn next_table_create_twice_gives_same_table() {
    let mut t = Table::new(TableLevel::Level4, ROOT_TABLE_ADDRESS);
    let mut frames = CountingFrames { next: 100, left: 10, calls: 0 };
    let first = t.next_table_create(5, &mut frames).address();
    assert_eq!(first, 0xffff_ffff_ffe0_5000);
    assert_eq!(frames.calls, 1);
    let second = t.next_table_create(5, &mut frames).address();
    assert_eq!(second, first);
    assert_eq!(frames.calls, 1);
    assert_eq!(t.entry(5).pointed_frame(), Some(Frame { number: 100 }));
    assert_eq!(t.entry(5).flags(), PRESENT | WRITABLE);
    assert_eq!(t.next_table_address(5), Some(first));
}

#[test]
fn next_table_create_gives_zeroed_table_one_level_down() {
    let mut t = Table::new(TableLevel::Level2, 0x20_0000);
    let mut frames = CountingFrames { next: 7, left: 1, calls: 0 };
    let sub = t.next_table_create(3, &mut frames);
    assert_eq!(sub.level(), TableLevel::Level1);
    for i in 0..512 {
        assert!(!sub.entry(i).is_present());
    }
    sub.set_entry(9, Entry(0x9000 | PRESENT));
    let again = t.next_table(3).unwrap();
    assert!(again.entry(9).is_present());
    assert_eq!(again.address(), (0x20_0000u64 << 9) | (3 << 12));
}

#[test]
fn leaf_table_has_no_subtables() {
    let mut t = Table::new(TableLevel::Level1, 0x1000);
    t.set_entry(2, Entry(0x3000 | PRESENT | WRITABLE));
    assert!(t.next_table(2).is_none());
    assert_eq!(t.next_table_address(2), None);
}

#[test]
fn entry_set_encodes_frame_and_flags() {
    let mut e = Entry(0);
    e.set(Frame { number: 0x1234 }, PRESENT | WRITABLE);
    assert_eq!(e.0, 0x123_4003);
    assert_eq!(e.flags(), 0x3);
    assert_eq!(e.pointed_frame(), Some(Frame { number: 0x1234 }));
    e.set_unused();
    assert_eq!(e.pointed_frame(), None);
}

#[test]
fn page_range_hands_out_pages_in_order() {
    let mut r: PageIter = Page::range_inclusive(Page { number: 1 }, Page { number: 4 });
    assert_eq!(r.next(), Some(Page { number: 1 }));
    assert_eq!(r.nth(1), Some(Page { number: 3 }));
    assert_eq!(r.next(), Some(Page { number: 4 }));
    assert_eq!(r.next(), None);
    let mut s = Page::range_inclusive(Page { number: 1 }, Page { number: 2 });
    assert_eq!(s.nth(5), None);
    assert_eq!(s.next(), None);
}

#[test]
fn addresses_of_pages_and_frames() {
    assert_eq!(Page::containing_address(0x2fff), Page { number: 2 });
    assert_eq!(Page { number: 3 }.start_address(), 0x3000);
    assert_eq!(Frame::containing_address(0x5000).start_address(), 0x5000);
}
