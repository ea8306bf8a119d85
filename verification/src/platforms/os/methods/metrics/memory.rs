//! RAM and swap.
use crate::metric_types::MemoryInfo;
use vstd::prelude::*;

verus! {

/// What the operating system reports of RAM and swap, in bytes.
#[derive(Debug, Clone, Copy)]
pub struct MemoryReading {
    pub total_memory: u64,
    pub used_memory: u64,
    pub free_memory: u64,
    pub available_memory: u64,
    pub total_swap: u64,
    pub used_swap: u64,
    pub free_swap: u64,
}

/// Copies the memory reading into the record.
pub fn collect_memory_metrics(sys: &MemoryReading, memory_buffer: &mut MemoryInfo)
    ensures
        final(memory_buffer).total_memory == sys.total_memory,
        final(memory_buffer).used_memory == sys.used_memory,
        final(memory_buffer).free_memory == sys.free_memory,
        final(memory_buffer).available_memory == sys.available_memory,
        final(memory_buffer).total_swap == sys.total_swap,
        final(memory_buffer).used_swap == sys.used_swap,
        final(memory_buffer).free_swap == sys.free_swap,
{
    memory_buffer.total_memory = sys.total_memory;
    memory_buffer.used_memory = sys.used_memory;
    memory_buffer.free_memory = sys.free_memory;
    memory_buffer.available_memory = sys.available_memory;
    memory_buffer.total_swap = sys.total_swap;
    memory_buffer.used_swap = sys.used_swap;
    memory_buffer.free_swap = sys.free_swap;
}

/// Prepares the memory snapshot; there is nothing to prepare.
pub fn initial_memory_snapshot() {
}

} // verus!
