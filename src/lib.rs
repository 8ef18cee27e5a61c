//! Virtual-memory core of a bare-metal kernel: typed page numbers, the
//! page-table-entry model and its RISC-V encoding, atomically updated page
//! tables, and a page tree that maps and unmaps virtual page ranges.
pub mod arch;
pub mod boot;
pub mod entry;
pub mod page;
pub mod riscv64;
pub mod rng;
pub mod table;
pub mod tree;
