//! The decisions of the collection loop: what one cycle collects.
use crate::config::{AgentConfigFile, ProcessSortBy};
use crate::metric_types::{
    ComponentListInfo, CpuListInfo, DiskInfo, MemoryInfo, NetworkInfo, ProcessInfo,
    ProcessListInfo, ServerMetrics, SystemInfo, DEFAULT_UNKNOWN_MESSAGE,
};
use crate::metrics::{collect_disk_metrics, first_disk_at};
use crate::platforms::os::methods::metrics::components::{
    collect_components_metrics, component_from_reading, ComponentReading,
};
use crate::platforms::os::methods::metrics::cpu::{collect_cpus_metrics, thread_from_reading, CpuReadings};
use crate::platforms::os::methods::metrics::disk::DiskReading;
use crate::platforms::os::methods::metrics::memory::{collect_memory_metrics, MemoryReading};
use crate::platforms::os::methods::metrics::network::{
    candidates_traffic_fits, collect_network_metrics, main_interface_in, NetworkReading,
};
use crate::platforms::os::methods::metrics::processes::{
    finish_process_list, kept_len, sorted_desc, update_process_list_info, write_process_info,
};
use crate::platforms::os::methods::metrics::system::{collect_system_metrics, or_unknown, SystemReading};
use crate::platforms::os::methods::arguments::{refresh_context_for, RefreshKindContext};
use crate::platforms::os::methods::report_shape_matches;
use vstd::prelude::*;

verus! {

/// A system snapshot is kept when the CPU, memory, process list, the
/// exporter's own process or the system facts are wanted.
pub open spec fn needs_system_snapshot(c: AgentConfigFile) -> bool {
    ||| c.metrics.cpu.settings.enabled
    ||| c.metrics.memory.settings.enabled
    ||| c.metrics.processes.settings.enabled
    ||| c.metrics.processes.include_exporter_metrics
    ||| c.metrics.system.settings.enabled
}

/// Whether the collection loop keeps a system snapshot.
pub fn needs_system_context(config: &AgentConfigFile) -> (r: bool)
    ensures
        r == needs_system_snapshot(*config),
{
    config.metrics.cpu.settings.enabled || config.metrics.memory.settings.enabled
        || config.metrics.processes.settings.enabled
        || config.metrics.processes.include_exporter_metrics
        || config.metrics.system.settings.enabled
}

/// What the loop has at hand in one cycle besides the report buffers.
#[derive(Debug, Clone, Copy)]
pub struct CycleSources {
    pub has_system_context: bool,
    pub has_disks: bool,
    pub has_networks: bool,
    pub has_components: bool,
    pub include_exporter_metrics: bool,
    pub current_pid_known: bool,
}

/// The categories that one cycle refreshes and collects.
#[derive(Debug, Clone, Copy)]
pub struct CollectionSteps {
    pub memory: bool,
    pub cpu: bool,
    pub system: bool,
    pub processes: bool,
    pub exporter: bool,
    pub disks: bool,
    pub networks: bool,
    pub components: bool,
}

/// A category is collected when the report has a buffer for it and its data
/// source is at hand; the categories read from the system snapshot need the
/// snapshot, the process list needs a refresh plan, and the exporter's own
/// process needs the process list, the setting, a known process id and a
/// buffer of its own.
pub open spec fn steps_for(
    m: ServerMetrics,
    refresh: RefreshKindContext,
    s: CycleSources,
) -> CollectionSteps {
    let processes = s.has_system_context && m.process_list is Some
        && refresh.process_refresh_kind is Some;
    CollectionSteps {
        memory: s.has_system_context && m.memory is Some,
        cpu: s.has_system_context && m.cpu is Some,
        system: s.has_system_context && m.system is Some,
        processes,
        exporter: processes && s.include_exporter_metrics && s.current_pid_known && (
        m.process_list matches Some(p) && p.exporter_metrics is Some),
        disks: m.disk is Some && s.has_disks,
        networks: m.network is Some && s.has_networks,
        components: m.components is Some && s.has_components,
    }
}

/// Decides what one cycle collects.
pub fn plan_collection_step(
    metrics: &ServerMetrics,
    refresh: &RefreshKindContext,
    sources: &CycleSources,
) -> (r: CollectionSteps)
    ensures
        r == steps_for(*metrics, *refresh, *sources),
{
    let processes = sources.has_system_context && metrics.process_list.is_some()
        && refresh.process_refresh_kind.is_some();
    let exporter = processes && sources.include_exporter_metrics && sources.current_pid_known
        && match &metrics.process_list {
        Some(p) => p.exporter_metrics.is_some(),
        None => false,
    };
    CollectionSteps {
        memory: sources.has_system_context && metrics.memory.is_some(),
        cpu: sources.has_system_context && metrics.cpu.is_some(),
        system: sources.has_system_context && metrics.system.is_some(),
        processes,
        exporter,
        disks: metrics.disk.is_some() && sources.has_disks,
        networks: metrics.network.is_some() && sources.has_networks,
        components: metrics.components.is_some() && sources.has_components,
    }
}

/// A cycle collects a category only if the configuration enables it; and
/// when the loop was set up from the configuration, it collects every
/// enabled category.
pub proof fn lemma_collects_exactly_enabled(
    config: AgentConfigFile,
    m: ServerMetrics,
    s: CycleSources,
)
    requires
        report_shape_matches(config, m),
        s.has_system_context == needs_system_snapshot(config),
        s.has_disks == config.metrics.disks.settings.enabled,
        s.has_networks == config.metrics.network.settings.enabled,
        s.has_components == config.metrics.components.settings.enabled,
        s.include_exporter_metrics == config.metrics.processes.include_exporter_metrics,
    ensures
        ({
            let st = steps_for(m, refresh_context_for(config), s);
            &&& st.memory == config.metrics.memory.settings.enabled
            &&& st.cpu == config.metrics.cpu.settings.enabled
            &&& st.system == config.metrics.system.settings.enabled
            &&& st.processes == config.metrics.processes.settings.enabled
            &&& st.exporter == (config.metrics.processes.settings.enabled
                && config.metrics.processes.include_exporter_metrics && s.current_pid_known)
            &&& st.disks == config.metrics.disks.settings.enabled
            &&& st.networks == config.metrics.network.settings.enabled
            &&& st.components == config.metrics.components.settings.enabled
        }),
{
}

/// What the operating system reported in one cycle, for the categories the
/// cycle collects; a category that was not read is `None`.
#[derive(Debug)]
pub struct CycleReadings {
    pub memory: Option<MemoryReading>,
    pub cpu: Option<CpuReadings>,
    pub physical_core_count: usize,
    pub system: Option<SystemReading>,
    pub processes: Option<Vec<ProcessInfo>>,
    pub exporter: Option<ProcessInfo>,
    pub disks: Option<Vec<DiskReading>>,
    pub networks: Option<Vec<NetworkReading>>,
    pub components: Option<Vec<ComponentReading>>,
    /// Nanoseconds since the UNIX epoch at which the readings were taken.
    pub time: i64,
}

/// The memory record holds exactly the reading.
pub open spec fn memory_from_reading(m: MemoryInfo, r: MemoryReading) -> bool {
    &&& m.total_memory == r.total_memory
    &&& m.used_memory == r.used_memory
    &&& m.free_memory == r.free_memory
    &&& m.available_memory == r.available_memory
    &&& m.total_swap == r.total_swap
    &&& m.used_swap == r.used_swap
    &&& m.free_swap == r.free_swap
}

/// The CPU record holds exactly the reading: one entry per CPU.
pub open spec fn cpu_from_reading(c: CpuListInfo, r: CpuReadings, physical_core_count: usize) -> bool {
    &&& c.global_cpu_usage_bits == r.global_cpu_usage_bits
    &&& c.threads == r.cpus@.len()
    &&& c.physical_core_count == physical_core_count
    &&& c.cpu_cores@.len() == r.cpus@.len()
    &&& forall|i: int| 0 <= i < r.cpus@.len() ==> thread_from_reading(#[trigger] c.cpu_cores@[i], r.cpus@[i])
}

/// The system record holds exactly the reading: one entry per parent
/// distribution.
pub open spec fn system_from_reading(s: SystemInfo, r: SystemReading) -> bool {
    &&& s.name@ == or_unknown(r.name)
    &&& s.kernel_version@ == or_unknown(r.kernel_version)
    &&& s.os_version@ == or_unknown(r.os_version)
    &&& s.host_name@ == or_unknown(r.host_name)
    &&& s.kernel_long_version@ == r.kernel_long_version@
    &&& s.cpu_arch@ == r.cpu_arch@
    &&& s.distribution_id@ == r.distribution_id@
    &&& s.distribution_id_like@.len() == r.distribution_id_like@.len()
    &&& forall|i: int|
        0 <= i < r.distribution_id_like@.len() ==> (#[trigger] s.distribution_id_like@[i])@
            == r.distribution_id_like@[i]@
    &&& s.boot_time == r.boot_time
    &&& s.uptime == r.uptime
    &&& s.load_average == r.load_average
}

/// The exporter's own record holds exactly the process read for it.
pub open spec fn exporter_from_reading(e: ProcessInfo, p: ProcessInfo) -> bool {
    &&& e.name@ == p.name@
    &&& e.status == p.status
    &&& e.disk_usage == p.disk_usage
    &&& e.program_id@ == p.program_id@
    &&& e.global_cpu_usage_bits == p.global_cpu_usage_bits
    &&& e.cpu_usage_per_thread_bits == p.cpu_usage_per_thread_bits
    &&& e.memory_usage == p.memory_usage
    &&& e.virtual_memory == p.virtual_memory
    &&& e.run_time == p.run_time
    &&& e.start_time == p.start_time
    &&& e.user_id@ == p.user_id@
    &&& e.group_id@ == p.group_id@
}

/// The process list is the `limit` highest-ranking of the processes read.
pub open spec fn process_list_from_reading(
    list: Seq<ProcessInfo>,
    read: Seq<ProcessInfo>,
    by: ProcessSortBy,
    limit: usize,
) -> bool {
    &&& list.len() == kept_len(read.len(), limit as nat)
    &&& exists|full: Seq<ProcessInfo>|
        #![trigger sorted_desc(full, by)]
        {
            &&& full.to_multiset() == read.to_multiset()
            &&& sorted_desc(full, by)
            &&& list == full.take(list.len() as int)
        }
}

/// The disk record holds the disk mounted at the mount point; without one its
/// names read unknown and its sizes stay as they were.
pub open spec fn disk_from_reading(old_d: DiskInfo, d: DiskInfo, ds: Seq<DiskReading>, mount_point: Seq<char>) -> bool {
    match first_disk_at(ds, mount_point, ds.len() as int) {
        Some(i) => {
            &&& d.name@ == ds[i].name@
            &&& d.file_system@ == ds[i].file_system@
            &&& d.kind@ == ds[i].kind@
            &&& d.total_space == ds[i].total_space
            &&& d.available_space == ds[i].available_space
        },
        None => {
            &&& d.name@ == DEFAULT_UNKNOWN_MESSAGE@
            &&& d.file_system@ == DEFAULT_UNKNOWN_MESSAGE@
            &&& d.kind@ == DEFAULT_UNKNOWN_MESSAGE@
            &&& d.total_space == old_d.total_space
            &&& d.available_space == old_d.available_space
        },
    }
}

/// The network record holds the main interface; without one its name reads
/// unknown and its counters stay as they were.
pub open spec fn network_from_reading(old_n: NetworkInfo, n: NetworkInfo, rs: Seq<NetworkReading>) -> bool {
    match main_interface_in(rs, rs.len() as int) {
        Some(m) => {
            &&& n.interface_name@ == rs[m].name@
            &&& n.total_rx_bytes == rs[m].total_received
            &&& n.total_tx_bytes == rs[m].total_transmitted
            &&& n.total_rx_packets == rs[m].total_packets_received
            &&& n.total_tx_packets == rs[m].total_packets_transmitted
            &&& n.total_rx_errors == rs[m].total_errors_on_received
            &&& n.total_tx_errors == rs[m].total_errors_on_transmitted
        },
        None => {
            &&& n.interface_name@ == DEFAULT_UNKNOWN_MESSAGE@
            &&& n.total_rx_bytes == old_n.total_rx_bytes
            &&& n.total_tx_bytes == old_n.total_tx_bytes
            &&& n.total_rx_packets == old_n.total_rx_packets
            &&& n.total_tx_packets == old_n.total_tx_packets
            &&& n.total_rx_errors == old_n.total_rx_errors
            &&& n.total_tx_errors == old_n.total_tx_errors
        },
    }
}

/// The sensor record holds exactly the reading: one entry per sensor.
pub open spec fn components_from_reading(c: ComponentListInfo, rs: Seq<ComponentReading>) -> bool {
    &&& c.count == rs.len()
    &&& c.is_empty == (rs.len() == 0)
    &&& c.components@.len() == rs.len()
    &&& forall|i: int| 0 <= i < rs.len() ==> component_from_reading(#[trigger] c.components@[i], rs[i])
}

fn cycle_memory(buf: &mut Option<MemoryInfo>, reading: &Option<MemoryReading>)
    ensures
        match (*old(buf), *reading) {
            (Some(_), Some(r)) => *final(buf) matches Some(m) && memory_from_reading(m, r),
            _ => *final(buf) == *old(buf),
        },
{
    match buf {
        Some(b) => match reading {
            Some(r) => collect_memory_metrics(r, b),
            None => {},
        },
        None => {},
    }
}

fn cycle_cpu(buf: &mut Option<CpuListInfo>, reading: &Option<CpuReadings>, physical_core_count: usize)
    ensures
        match (*old(buf), *reading) {
            (Some(_), Some(r)) => *final(buf) matches Some(c) && cpu_from_reading(c, r, physical_core_count),
            _ => *final(buf) == *old(buf),
        },
{
    match buf {
        Some(b) => match reading {
            Some(r) => {
                b.clear_dynamic();
                collect_cpus_metrics(r, physical_core_count, b);
                proof {
                    assert forall|i: int| 0 <= i < r.cpus@.len() implies thread_from_reading(
                        #[trigger] b.cpu_cores@[i],
                        r.cpus@[i],
                    ) by {
                        assert(b.cpu_cores@[i] == b.cpu_cores@[0 + i]);
                    }
                }
            },
            None => {},
        },
        None => {},
    }
}

fn cycle_system(buf: &mut Option<SystemInfo>, reading: &Option<SystemReading>)
    ensures
        match (*old(buf), *reading) {
            (Some(_), Some(r)) => *final(buf) matches Some(s) && system_from_reading(s, r),
            _ => *final(buf) == *old(buf),
        },
{
    match buf {
        Some(b) => match reading {
            Some(r) => {
                b.clear_dynamic();
                collect_system_metrics(r, b);
                proof {
                    assert forall|i: int| 0 <= i < r.distribution_id_like@.len() implies (
                    #[trigger] b.distribution_id_like@[i])@ == r.distribution_id_like@[i]@ by {
                        assert(b.distribution_id_like@[i] == b.distribution_id_like@[0 + i]);
                    }
                }
            },
            None => {},
        },
        None => {},
    }
}

fn cycle_exporter(buf: &mut Option<ProcessInfo>, reading: Option<ProcessInfo>)
    ensures
        match (*old(buf), reading) {
            (Some(_), Some(p)) => *final(buf) matches Some(e) && exporter_from_reading(e, p),
            _ => *final(buf) == *old(buf),
        },
{
    match buf {
        Some(b) => match reading {
            Some(p) => {
                b.clear_dynamic();
                write_process_info(p, b);
            },
            None => {},
        },
        None => {},
    }
}

fn cycle_processes(
    buf: &mut Option<ProcessListInfo>,
    reading: Option<Vec<ProcessInfo>>,
    exporter: Option<ProcessInfo>,
    sort_by: &ProcessSortBy,
    process_limit: usize,
)
    ensures
        match (*old(buf), reading) {
            (Some(old_p), Some(read)) => *final(buf) matches Some(p) && {
                &&& process_list_from_reading(p.process_list@, read@, *sort_by, process_limit)
                &&& match (old_p.exporter_metrics, exporter) {
                    (Some(_), Some(e)) => p.exporter_metrics matches Some(x) && exporter_from_reading(x, e),
                    _ => p.exporter_metrics == old_p.exporter_metrics,
                }
            },
            _ => *final(buf) == *old(buf),
        },
{
    match buf {
        Some(b) => match reading {
            Some(read) => {
                b.clear_dynamic();
                update_process_list_info(read, &mut b.process_list);
                finish_process_list(&mut b.process_list, sort_by, process_limit);
                cycle_exporter(&mut b.exporter_metrics, exporter);
            },
            None => {},
        },
        None => {},
    }
}

fn cycle_disk(buf: &mut Option<DiskInfo>, reading: &Option<Vec<DiskReading>>, mount_point: &str)
    ensures
        match (*old(buf), *reading) {
            (Some(old_d), Some(ds)) => *final(buf) matches Some(d) && disk_from_reading(old_d, d, ds@, mount_point@),
            _ => *final(buf) == *old(buf),
        },
{
    match buf {
        Some(b) => match reading {
            Some(ds) => {
                b.clear_dynamic();
                collect_disk_metrics(ds, mount_point, b);
            },
            None => {},
        },
        None => {},
    }
}

fn cycle_network(buf: &mut Option<NetworkInfo>, reading: &Option<Vec<NetworkReading>>)
    requires
        reading matches Some(rs) ==> candidates_traffic_fits(rs@),
    ensures
        match (*old(buf), *reading) {
            (Some(old_n), Some(rs)) => *final(buf) matches Some(n) && network_from_reading(old_n, n, rs@),
            _ => *final(buf) == *old(buf),
        },
{
    match buf {
        Some(b) => match reading {
            Some(rs) => {
                b.clear_dynamic();
                collect_network_metrics(rs, b);
            },
            None => {},
        },
        None => {},
    }
}

fn cycle_components(buf: &mut Option<ComponentListInfo>, reading: &Option<Vec<ComponentReading>>)
    ensures
        match (*old(buf), *reading) {
            (Some(_), Some(rs)) => *final(buf) matches Some(c) && components_from_reading(c, rs@),
            _ => *final(buf) == *old(buf),
        },
{
    match buf {
        Some(b) => match reading {
            Some(rs) => {
                b.clear_dynamic();
                collect_components_metrics(rs, b);
                proof {
                    assert forall|i: int| 0 <= i < rs@.len() implies component_from_reading(
                        #[trigger] b.components@[i],
                        rs@[i],
                    ) by {
                        assert(b.components@[i] == b.components@[0 + i]);
                    }
                }
            },
            None => {},
        },
        None => {},
    }
}

/// One collection cycle: every category that has a record in the report and
/// a reading in this cycle is cleared and refilled from that reading alone,
/// so nothing accumulates from one report to the next; the process list is
/// ordered and cut to its limit; the exporter's own record is refilled with
/// the process list; every other record stays as it was; the report takes
/// the readings' time.
pub fn collect_cycle(
    metrics: &mut ServerMetrics,
    readings: CycleReadings,
    sort_by: &ProcessSortBy,
    process_limit: usize,
    disk_mount_point: &str,
)
    requires
        readings.networks matches Some(rs) ==> candidates_traffic_fits(rs@),
    ensures
        match (old(metrics).memory, readings.memory) {
            (Some(_), Some(r)) => final(metrics).memory matches Some(m) && memory_from_reading(m, r),
            _ => final(metrics).memory == old(metrics).memory,
        },
        match (old(metrics).cpu, readings.cpu) {
            (Some(_), Some(r)) => final(metrics).cpu matches Some(c) && cpu_from_reading(
                c,
                r,
                readings.physical_core_count,
            ),
            _ => final(metrics).cpu == old(metrics).cpu,
        },
        match (old(metrics).system, readings.system) {
            (Some(_), Some(r)) => final(metrics).system matches Some(s) && system_from_reading(s, r),
            _ => final(metrics).system == old(metrics).system,
        },
        match (old(metrics).process_list, readings.processes) {
            (Some(old_p), Some(read)) => final(metrics).process_list matches Some(p) && {
                &&& process_list_from_reading(p.process_list@, read@, *sort_by, process_limit)
                &&& match (old_p.exporter_metrics, readings.exporter) {
                    (Some(_), Some(e)) => p.exporter_metrics matches Some(x) && exporter_from_reading(x, e),
                    _ => p.exporter_metrics == old_p.exporter_metrics,
                }
            },
            _ => final(metrics).process_list == old(metrics).process_list,
        },
        match (old(metrics).disk, readings.disks) {
            (Some(old_d), Some(ds)) => final(metrics).disk matches Some(d) && disk_from_reading(
                old_d,
                d,
                ds@,
                disk_mount_point@,
            ),
            _ => final(metrics).disk == old(metrics).disk,
        },
        match (old(metrics).network, readings.networks) {
            (Some(old_n), Some(rs)) => final(metrics).network matches Some(n) && network_from_reading(
                old_n,
                n,
                rs@,
            ),
            _ => final(metrics).network == old(metrics).network,
        },
        match (old(metrics).components, readings.components) {
            (Some(_), Some(rs)) => final(metrics).components matches Some(c) && components_from_reading(
                c,
                rs@,
            ),
            _ => final(metrics).components == old(metrics).components,
        },
        final(metrics).time == readings.time,
{
    let CycleReadings {
        memory,
        cpu,
        physical_core_count,
        system,
        processes,
        exporter,
        disks,
        networks,
        components,
        time,
    } = readings;
    cycle_memory(&mut metrics.memory, &memory);
    cycle_cpu(&mut metrics.cpu, &cpu, physical_core_count);
    cycle_system(&mut metrics.system, &system);
    cycle_processes(&mut metrics.process_list, processes, exporter, sort_by, process_limit);
    cycle_disk(&mut metrics.disk, &disks, disk_mount_point);
    cycle_network(&mut metrics.network, &networks);
    cycle_components(&mut metrics.components, &components);
    metrics.time = time;
}

} // verus!
