//! The processor and its logical CPUs.
use crate::metric_types::{CpuListInfo, CpuThreadInfo};
use vstd::prelude::*;

verus! {

/// What the operating system reports of one logical CPU.
#[derive(Debug)]
pub struct CpuReading {
    pub frequency: u64,
    pub name: String,
    /// Bits of the `f32` usage.
    pub cpu_usage_bits: u32,
}

/// What the operating system reports of the processor.
#[derive(Debug)]
pub struct CpuReadings {
    /// Bits of the usage of all CPUs, widened to `f64`.
    pub global_cpu_usage_bits: u64,
    pub cpus: Vec<CpuReading>,
}

/// The record that a CPU reading becomes.
pub open spec fn thread_from_reading(t: CpuThreadInfo, r: CpuReading) -> bool {
    &&& t.frequency == r.frequency
    &&& t.os_name@ == r.name@
    &&& t.cpu_usage_bits == r.cpu_usage_bits
}

/// A CPU's record carries that CPU's own reading: its usage, its frequency
/// and its name.
pub proof fn lemma_thread_record_is_its_reading(t: CpuThreadInfo, r: CpuReading)
    requires
        thread_from_reading(t, r),
    ensures
        t.cpu_usage_bits == r.cpu_usage_bits,
        t.frequency == r.frequency,
        t.os_name@ == r.name@,
{
}

/// Records the processor's usage and counts and appends one record per CPU.
pub fn collect_cpus_metrics(
    sys: &CpuReadings,
    physical_core_count: usize,
    cpu_list_buffer: &mut CpuListInfo,
)
    ensures
        final(cpu_list_buffer).global_cpu_usage_bits == sys.global_cpu_usage_bits,
        final(cpu_list_buffer).threads == sys.cpus@.len(),
        final(cpu_list_buffer).physical_core_count == physical_core_count,
        final(cpu_list_buffer).cpu_cores@.len() == old(cpu_list_buffer).cpu_cores@.len()
            + sys.cpus@.len(),
        final(cpu_list_buffer).cpu_cores@.subrange(0, old(cpu_list_buffer).cpu_cores@.len() as int)
            == old(cpu_list_buffer).cpu_cores@,
        forall|i: int|
            0 <= i < sys.cpus@.len() ==> thread_from_reading(
                #[trigger] final(cpu_list_buffer).cpu_cores@[old(cpu_list_buffer).cpu_cores@.len()
                    + i],
                sys.cpus@[i],
            ),
        forall|i: int|
            0 <= i < sys.cpus@.len() ==> {
                let t = #[trigger] final(cpu_list_buffer).cpu_cores@[old(
                    cpu_list_buffer,
                ).cpu_cores@.len() + i];
                &&& t.cpu_usage_bits == sys.cpus@[i].cpu_usage_bits
                &&& t.frequency == sys.cpus@[i].frequency
                &&& t.os_name@ == sys.cpus@[i].name@
            },
{
    cpu_list_buffer.global_cpu_usage_bits = sys.global_cpu_usage_bits;
    cpu_list_buffer.threads = sys.cpus.len();
    cpu_list_buffer.physical_core_count = physical_core_count;
    let ghost start = cpu_list_buffer.cpu_cores@;
    let mut i: usize = 0;
    while i < sys.cpus.len()
        invariant
            0 <= i <= sys.cpus@.len(),
            cpu_list_buffer.global_cpu_usage_bits == sys.global_cpu_usage_bits,
            cpu_list_buffer.threads == sys.cpus@.len(),
            cpu_list_buffer.physical_core_count == physical_core_count,
            cpu_list_buffer.cpu_cores@.len() == start.len() + i,
            cpu_list_buffer.cpu_cores@.subrange(0, start.len() as int) == start,
            forall|j: int|
                0 <= j < i ==> thread_from_reading(
                    #[trigger] cpu_list_buffer.cpu_cores@[start.len() + j],
                    sys.cpus@[j],
                ),
        decreases sys.cpus@.len() - i,
    {
        let c = &sys.cpus[i];
        cpu_list_buffer.cpu_cores.push(
            CpuThreadInfo {
                frequency: c.frequency,
                os_name: c.name.clone(),
                cpu_usage_bits: c.cpu_usage_bits,
            },
        );
        proof {
            assert(cpu_list_buffer.cpu_cores@.subrange(0, start.len() as int) =~= start);
        }
        i = i + 1;
    }
}

} // verus!
