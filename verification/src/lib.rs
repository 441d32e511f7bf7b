//! Tamper-evident chains of blocks.
//!
//! A [`HashPointer`] owns a value and remembers the digest the value had
//! when the pointer was made; a [`Block`] chain links its blocks backwards
//! through such pointers. Changing a block after the fact leaves the digest
//! of the pointer that leads to it behind, and validating the pointer shows
//! it.

pub mod blockchain;
pub mod content;
pub mod hashptr;

pub use blockchain::{Block, BlockIterator};
pub use content::Hashable;
pub use hashptr::HashPointer;
