//! Foundation layer for an asynchronous direct-I/O engine: kernel ABI
//! descriptors, alignment-padded transfer buffers with separately tracked
//! valid length, and a fixed-capacity slot pool whose integer handles serve
//! as completion correlation tokens.
use vstd::prelude::*;

pub mod aioabi;
pub mod aligned;
pub mod buf;
pub mod pool;

pub use buf::RdBuf;
pub use buf::WrBuf;

verus! {

/// Wrapper for file offset
pub type Offset = u64;

} // verus!
