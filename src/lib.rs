//! Page tables with a recursive self-mapping, guard-paged stack allocation,
//! and the descriptor tables that route a double fault onto a known-good stack.

pub mod paging;
pub mod entry;
pub mod table;
pub mod mapper;
pub mod stack_allocator;
pub mod gdt;
pub mod memory;
pub mod interrupts;
