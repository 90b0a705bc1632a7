//! Physical and virtual memory: addresses, frames, the frame allocator and
//! the page-table walk.

pub mod addr;
pub mod memory_map;
pub mod paging;
pub mod translate;
