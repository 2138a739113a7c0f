//! What bring-up installs so that a double fault runs on a stack of its own:
//! the task-state segment and the descriptor table that points at it.
use vstd::prelude::*;
use crate::gdt::{
    kernel_code_bits, tss_low_bits, Descriptor, Gdt, SegmentSelector, TaskStateSegment,
};
use crate::stack_allocator::Stack;

verus! {

/// The interrupt-stack-table slot kept for the double-fault handler.
pub const IST_DOUBLE_FAULT: usize = 0;

/// The descriptor table and the selectors of the segments in it.
pub struct DescriptorTables {
    pub gdt: Gdt,
    pub code_selector: SegmentSelector,
    pub tss_selector: SegmentSelector,
}

/// The task-state segment whose double-fault slot holds the top of `stack`;
/// every other stack pointer is zero.
pub fn double_fault_tss(stack: &Stack) -> (r: TaskStateSegment)
    ensures
        r.interrupt_stack_table@ == Seq::new(7, |i: int| 0u64).update(
            IST_DOUBLE_FAULT as int,
            stack.spec_top() as u64,
        ),
        r.interrupt_stack_table@[IST_DOUBLE_FAULT as int] != 0,
        r.privilege_stack_table@ == seq![0u64, 0u64, 0u64],
        r.iomap_base == 0,
{
    let mut tss = TaskStateSegment::new();
    let top = stack.top();
    tss.interrupt_stack_table[IST_DOUBLE_FAULT] = top as u64;
    tss
}

/// The descriptor table that bring-up loads: the null descriptor, the kernel
/// code segment, then the task-state segment at `tss_base`.
pub fn build_gdt(tss_base: u64) -> (r: DescriptorTables)
    ensures
        r.gdt.wf(),
        r.gdt@ == seq![0u64, kernel_code_bits(), tss_low_bits(tss_base), tss_base >> 32u64],
        r.code_selector == SegmentSelector(8),
        r.tss_selector == SegmentSelector(16),
{
    let mut gdt = Gdt::new();
    let code_selector = gdt.add_entry(Descriptor::kernel_code_segment());
    let tss_selector = gdt.add_entry(Descriptor::tss_segment(tss_base));
    assert(gdt@ =~= seq![0u64, kernel_code_bits(), tss_low_bits(tss_base), tss_base >> 32u64]);
    DescriptorTables { gdt, code_selector, tss_selector }
}

} // verus!
