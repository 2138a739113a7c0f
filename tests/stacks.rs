use sparkle::entry::{PRESENT, WRITABLE};
use sparkle::mapper::ActivePageTable;
use sparkle::memory::MemoryController;
use sparkle::paging::{Frame, FrameAllocator, Page};
use sparkle::stack_allocator::{Stack, StackAllocator};

struct Frames {
    next: usize,
    left: usize,
}

impl FrameAllocator for Frames {
    fn alloc_frame(&mut self) -> Option<Frame> {
        if self.left == 0 {
            return None;
        }
        self.left -= 1;
        self.next += 1;
        Some(Frame { number: self.next - 1 })
    }
}

fn pages(first: usize, last: usize) -> StackAllocator {
    StackAllocator::new(Page::range_inclusive(Page { number: first }, Page { number: last }))
}

#[test]
fn stack_keeps_top_and_bottom() {
    let s = Stack::new(0x4000, 0x2000);
    assert_eq!(s.top(), 0x4000);
    assert_eq!(s.bottom(), 0x2000);
}

#[test]
fn zero_sized_stack_is_none() {
    let mut a = pages(1, 4);
    let mut table = ActivePageTable::new();
    let mut frames = Frames { next: 50, left: 8 };
    assert!(a.alloc_stack(&mut table, &mut frames, 0).is_none());
    assert_eq!(frames.left, 8);
    let s = a.alloc_stack(&mut table, &mut frames, 1).unwrap();
    assert_eq!(s.bottom(), 0x2000);
}

#[test]
fn stack_sits_above_unmapped_guard_page() {
    let mut a = pages(1, 4);
    let mut table = ActivePageTable::new();
    let mut frames = Frames { next: 50, left: 8 };
    let s = a.alloc_stack(&mut table, &mut frames, 2).unwrap();
    assert_eq!(s.top(), 0x4000);
    assert_eq!(s.bottom(), 0x2000);
    assert!(table.translate_page(Page::containing_address(0x1000)).is_none());
    let m2 = table.translate_page(Page::containing_address(0x2000)).unwrap();
    let m3 = table.translate_page(Page::containing_address(0x3000)).unwrap();
    assert_eq!(m2.flags, WRITABLE | PRESENT);
    assert_eq!(m3.flags, WRITABLE | PRESENT);
    assert_ne!(m2.frame, m3.frame);
    assert!(table.translate_page(Page::containing_address(0x4000)).is_none());
    assert_eq!(frames.left, 6);
}

#[test]
fn failed_allocations_commit_nothing() {
    let mut a = pages(1, 2);
    let mut table = ActivePageTable::new();
    let mut frames = Frames { next: 50, left: 8 };
    assert!(a.alloc_stack(&mut table, &mut frames, 2).is_none());
    assert!(a.alloc_stack(&mut table, &mut frames, 2).is_none());
    assert_eq!(frames.left, 8);
    assert!(table.translate_page(Page { number: 2 }).is_none());
    let s = a.alloc_stack(&mut table, &mut frames, 1).unwrap();
    assert_eq!(s.bottom(), 0x2000);
    assert_eq!(s.top(), 0x3000);
    assert!(a.alloc_stack(&mut table, &mut frames, 1).is_none());
}

#[test]
fn consecutive_stacks_each_get_a_guard_page() {
    let mut a = pages(10, 20);
    let mut table = ActivePageTable::new();
    let mut frames = Frames { next: 50, left: 8 };
    let s1 = a.alloc_stack(&mut table, &mut frames, 3).unwrap();
    let s2 = a.alloc_stack(&mut table, &mut frames, 2).unwrap();
    assert_eq!((s1.bottom(), s1.top()), (11 * 4096, 14 * 4096));
    assert_eq!((s2.bottom(), s2.top()), (15 * 4096, 17 * 4096));
    assert!(table.translate_page(Page { number: 14 }).is_none());
}

#[test]
fn map_leaves_a_mapped_page_alone() {
    let mut table = ActivePageTable::new();
    let mut frames = Frames { next: 50, left: 1 };
    table.map(Page { number: 9 }, WRITABLE, &mut frames);
    let first = table.translate_page(Page { number: 9 }).unwrap();
    assert_eq!(first.frame, Frame { number: 50 });
    table.map(Page { number: 9 }, 0, &mut frames);
    assert_eq!(table.translate_page(Page { number: 9 }), Some(first));
}

#[test]
fn memory_controller_allocates_stacks() {
    let mut mc = MemoryController {
        active_table: ActivePageTable::new(),
        frame_allocator: Frames { next: 50, left: 1 },
        stack_allocator: pages(100, 101),
    };
    let s = mc.alloc_stack(1).unwrap();
    assert_eq!(s.bottom(), 101 * 4096);
    assert_eq!(s.top(), 102 * 4096);
    assert_eq!(mc.frame_allocator.left, 0);
    assert!(mc.alloc_stack(1).is_none());
}
