//! Relocatable values: data structures that can copy themselves, together with
//! their variable-sized tails, into one contiguous block.

pub mod aggregate;
pub mod compact;
pub mod compact_vec;
pub mod storage;

pub use aggregate::Pair;
pub use compact::Compact;
pub use compact_vec::CompactVec;
pub use storage::Storage;
