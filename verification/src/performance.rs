//! Data model of memory accounting.

use vstd::prelude::*;

verus! {

/// A point-in-time memory reading, in bytes.
#[derive(Debug, Clone, Copy)]
pub struct MemoryStats {
    pub heap_used: u64,
    pub heap_total: u64,
    pub external: u64,
}

} // verus!
