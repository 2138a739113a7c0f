use sparkle::gdt::{Descriptor, Gdt, SegmentSelector, TaskStateSegment};
use sparkle::interrupts::{build_gdt, double_fault_tss, IST_DOUBLE_FAULT};
use sparkle::stack_allocator::Stack;

#[test]
fn double_fault_slot_holds_stack_top() {
    let s = Stack::new(0x9000, 0x8000);
    let tss = double_fault_tss(&s);
    assert_eq!(tss.interrupt_stack_table[IST_DOUBLE_FAULT], 0x9000);
    assert_ne!(tss.interrupt_stack_table[0], 0);
    for i in 1..7 {
        assert_eq!(tss.interrupt_stack_table[i], 0);
    }
    assert_eq!(tss.privilege_stack_table, [0, 0, 0]);
}

#[test]
fn descriptor_table_holds_code_and_tss_segments() {
    let d = build_gdt(0x1234_5678_9abc_def0);
    assert_eq!(d.code_selector, SegmentSelector(8));
    assert_eq!(d.tss_selector, SegmentSelector(16));
    assert_eq!(d.gdt.len(), 4);
    let t = d.gdt.table();
    assert_eq!(t[0], 0);
    assert_eq!(t[1], 0x0020_9800_0000_0000);
    assert_eq!(t[2], 0x9a00_89bc_def0_0067);
    assert_eq!(t[3], 0x1234_5678);
}

#[test]
fn selector_encodes_index_and_privilege() {
    assert_eq!(SegmentSelector::new(2, 0), SegmentSelector(16));
    assert_eq!(SegmentSelector::new(5, 3), SegmentSelector(43));
}

#[test]
fn add_entry_appends_descriptor_words() {
    let mut g = Gdt::new();
    assert_eq!(g.len(), 1);
    let a = g.add_entry(Descriptor::UserSegment(7));
    let b = g.add_entry(Descriptor::SystemSegment(8, 9));
    let c = g.add_entry(Descriptor::UserSegment(10));
    assert_eq!((a, b, c), (SegmentSelector(8), SegmentSelector(16), SegmentSelector(32)));
    assert_eq!(&g.table()[..5], &[0, 7, 8, 9, 10]);
}

#[test]
fn tss_descriptor_of_low_base() {
    assert_eq!(Descriptor::tss_segment(0x1000), Descriptor::SystemSegment(0x0000_8900_1000_0067, 0));
    assert_eq!(Descriptor::kernel_code_segment(), Descriptor::UserSegment(0x0020_9800_0000_0000));
}

#[test]
fn new_tss_is_all_zero() {
    let t = TaskStateSegment::new();
    assert_eq!(t.interrupt_stack_table, [0; 7]);
    assert_eq!(t.iomap_base, 0);
}
