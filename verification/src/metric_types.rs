//! The metric records that one collection cycle fills and one report carries.
//!
//! Readings that the operating system reports as floating-point numbers are
//! held here by their IEEE-754 bit patterns (`f32::to_bits`, `f64::to_bits`):
//! the library moves them and orders by them, and never computes with them.
use vstd::prelude::*;

verus! {

/// What a text field holds when the operating system does not report it.
pub const DEFAULT_UNKNOWN_MESSAGE: &'static str = "unknown";

/// Disk traffic of one process, in bytes.
#[derive(Debug, Clone, Copy)]
pub struct DiskUsage {
    pub read_bytes: u64,
    pub written_bytes: u64,
    pub total_read_bytes: u64,
    pub total_written_bytes: u64,
}

/// One process.
#[derive(Debug)]
pub struct ProcessInfo {
    pub name: String,
    pub status: String,
    pub disk_usage: DiskUsage,
    pub program_id: String,
    /// Bits of the `f32` share of all CPUs the process uses.
    pub global_cpu_usage_bits: u32,
    /// Bits of the `f32` share of one CPU the process uses.
    pub cpu_usage_per_thread_bits: u32,
    pub memory_usage: u64,
    pub virtual_memory: u64,
    pub run_time: u64,
    pub start_time: u64,
    pub user_id: String,
    pub group_id: String,
}

/// The process list and, optionally, the exporter's own process.
#[derive(Debug)]
pub struct ProcessListInfo {
    pub exporter_metrics: Option<ProcessInfo>,
    pub process_list: Vec<ProcessInfo>,
}

/// The system load averages, as `f64` bits.
#[derive(Debug, Clone, Copy)]
pub struct LoadAverage {
    pub one_bits: u64,
    pub five_bits: u64,
    pub fifteen_bits: u64,
}

/// General facts about the operating system.
#[derive(Debug)]
pub struct SystemInfo {
    pub name: String,
    pub kernel_version: String,
    pub kernel_long_version: String,
    pub distribution_id: String,
    pub distribution_id_like: Vec<String>,
    pub boot_time: u64,
    pub uptime: u64,
    pub cpu_arch: String,
    pub os_version: String,
    pub host_name: String,
    pub load_average: LoadAverage,
}

/// RAM and swap, in bytes.
#[derive(Debug, Clone, Copy)]
pub struct MemoryInfo {
    pub total_memory: u64,
    pub used_memory: u64,
    pub free_memory: u64,
    pub available_memory: u64,
    pub total_swap: u64,
    pub used_swap: u64,
    pub free_swap: u64,
}

/// One logical CPU.
#[derive(Debug)]
pub struct CpuThreadInfo {
    pub frequency: u64,
    pub os_name: String,
    /// Bits of the `f32` usage of this CPU.
    pub cpu_usage_bits: u32,
}

/// The processor as a whole and each of its logical CPUs.
#[derive(Debug)]
pub struct CpuListInfo {
    /// Bits of the `f64` usage of all CPUs together.
    pub global_cpu_usage_bits: u64,
    pub threads: usize,
    pub physical_core_count: usize,
    pub cpu_cores: Vec<CpuThreadInfo>,
}

/// One mounted file system.
#[derive(Debug)]
pub struct StorageMountPointInfo {
    pub name: String,
    pub file_system: String,
    pub kind: String,
    pub mount_point: String,
    pub total_space: u64,
    pub available_space: u64,
}

/// Every mounted file system.
#[derive(Debug)]
pub struct StorageListInfo {
    pub storage_list: Vec<StorageMountPointInfo>,
}

/// The main disk: the one mounted at the chosen mount point.
#[derive(Debug)]
pub struct DiskInfo {
    pub name: String,
    pub file_system: String,
    pub kind: String,
    pub total_space: u64,
    pub available_space: u64,
}

/// Traffic of the main network interface.
#[derive(Debug)]
pub struct NetworkInfo {
    pub interface_name: String,
    pub total_rx_bytes: u64,
    pub total_rx_packets: u64,
    pub total_rx_errors: u64,
    pub total_tx_bytes: u64,
    pub total_tx_packets: u64,
    pub total_tx_errors: u64,
}

/// One temperature sensor; temperatures are `f32` bits.
#[derive(Debug)]
pub struct ComponentInfo {
    pub id: String,
    pub name: String,
    pub temp_bits: u32,
    pub critical_temp_bits: u32,
    pub max_temp_bits: u32,
}

/// Every temperature sensor.
#[derive(Debug)]
pub struct ComponentListInfo {
    pub count: usize,
    pub is_empty: bool,
    pub components: Vec<ComponentInfo>,
}

/// One report: each category is present exactly when it is collected.
#[derive(Debug)]
pub struct ServerMetrics {
    pub system: Option<SystemInfo>,
    pub process_list: Option<ProcessListInfo>,
    pub memory: Option<MemoryInfo>,
    pub disk: Option<DiskInfo>,
    pub network: Option<NetworkInfo>,
    pub cpu: Option<CpuListInfo>,
    pub components: Option<ComponentListInfo>,
    /// Nanoseconds since the UNIX epoch at which the report was taken.
    pub time: i64,
}

impl DiskUsage {
    pub open spec fn is_zero(self) -> bool {
        &&& self.read_bytes == 0
        &&& self.written_bytes == 0
        &&& self.total_read_bytes == 0
        &&& self.total_written_bytes == 0
    }
}

impl Default for DiskUsage {
    fn default() -> (r: Self)
        ensures
            r.is_zero(),
    {
        DiskUsage { read_bytes: 0, written_bytes: 0, total_read_bytes: 0, total_written_bytes: 0 }
    }
}

impl ProcessInfo {
    /// Every text empty and every number zero.
    pub open spec fn is_blank(&self) -> bool {
        &&& self.name@.len() == 0
        &&& self.status@.len() == 0
        &&& self.disk_usage.is_zero()
        &&& self.program_id@.len() == 0
        &&& self.global_cpu_usage_bits == 0
        &&& self.cpu_usage_per_thread_bits == 0
        &&& self.memory_usage == 0
        &&& self.virtual_memory == 0
        &&& self.run_time == 0
        &&& self.start_time == 0
        &&& self.user_id@.len() == 0
        &&& self.group_id@.len() == 0
    }

    /// Empties the texts and keeps the numbers.
    pub fn clear_dynamic(&mut self)
        ensures
            final(self).name@.len() == 0,
            final(self).status@.len() == 0,
            final(self).program_id@.len() == 0,
            final(self).user_id@.len() == 0,
            final(self).group_id@.len() == 0,
            final(self).disk_usage == old(self).disk_usage,
            final(self).global_cpu_usage_bits == old(self).global_cpu_usage_bits,
            final(self).cpu_usage_per_thread_bits == old(self).cpu_usage_per_thread_bits,
            final(self).memory_usage == old(self).memory_usage,
            final(self).virtual_memory == old(self).virtual_memory,
            final(self).run_time == old(self).run_time,
            final(self).start_time == old(self).start_time,
    {
        self.name = String::new();
        self.status = String::new();
        self.program_id = String::new();
        self.user_id = String::new();
        self.group_id = String::new();
    }
}

impl Default for ProcessInfo {
    fn default() -> (r: Self)
        ensures
            r.is_blank(),
    {
        ProcessInfo {
            name: String::new(),
            status: String::new(),
            disk_usage: DiskUsage::default(),
            program_id: String::new(),
            global_cpu_usage_bits: 0,
            cpu_usage_per_thread_bits: 0,
            memory_usage: 0,
            virtual_memory: 0,
            run_time: 0,
            start_time: 0,
            user_id: String::new(),
            group_id: String::new(),
        }
    }
}

impl ProcessListInfo {
    /// Empties the process list and keeps the exporter's own record.
    pub fn clear_dynamic(&mut self)
        ensures
            final(self).process_list@.len() == 0,
            final(self).exporter_metrics == old(self).exporter_metrics,
    {
        self.process_list.clear();
    }
}

impl Default for ProcessListInfo {
    fn default() -> (r: Self)
        ensures
            r.exporter_metrics is None,
            r.process_list@.len() == 0,
    {
        ProcessListInfo { exporter_metrics: None, process_list: Vec::new() }
    }
}

impl LoadAverage {
    pub open spec fn is_zero(self) -> bool {
        self.one_bits == 0 && self.five_bits == 0 && self.fifteen_bits == 0
    }
}

impl Default for LoadAverage {
    fn default() -> (r: Self)
        ensures
            r.is_zero(),
    {
        LoadAverage { one_bits: 0, five_bits: 0, fifteen_bits: 0 }
    }
}

impl SystemInfo {
    pub open spec fn is_blank(&self) -> bool {
        &&& self.name@.len() == 0
        &&& self.kernel_version@.len() == 0
        &&& self.kernel_long_version@.len() == 0
        &&& self.distribution_id@.len() == 0
        &&& self.distribution_id_like@.len() == 0
        &&& self.boot_time == 0
        &&& self.uptime == 0
        &&& self.cpu_arch@.len() == 0
        &&& self.os_version@.len() == 0
        &&& self.host_name@.len() == 0
        &&& self.load_average.is_zero()
    }

    /// Empties the texts and the list of parent distributions; keeps the numbers.
    pub fn clear_dynamic(&mut self)
        ensures
            final(self).name@.len() == 0,
            final(self).kernel_version@.len() == 0,
            final(self).kernel_long_version@.len() == 0,
            final(self).distribution_id@.len() == 0,
            final(self).distribution_id_like@.len() == 0,
            final(self).cpu_arch@.len() == 0,
            final(self).os_version@.len() == 0,
            final(self).host_name@.len() == 0,
            final(self).boot_time == old(self).boot_time,
            final(self).uptime == old(self).uptime,
            final(self).load_average == old(self).load_average,
    {
        self.name = String::new();
        self.kernel_version = String::new();
        self.kernel_long_version = String::new();
        self.distribution_id = String::new();
        self.distribution_id_like.clear();
        self.cpu_arch = String::new();
        self.os_version = String::new();
        self.host_name = String::new();
    }
}

impl Default for SystemInfo {
    fn default() -> (r: Self)
        ensures
            r.is_blank(),
    {
        SystemInfo {
            name: String::new(),
            kernel_version: String::new(),
            kernel_long_version: String::new(),
            distribution_id: String::new(),
            distribution_id_like: Vec::new(),
            boot_time: 0,
            uptime: 0,
            cpu_arch: String::new(),
            os_version: String::new(),
            host_name: String::new(),
            load_average: LoadAverage::default(),
        }
    }
}

impl MemoryInfo {
    pub open spec fn is_blank(self) -> bool {
        &&& self.total_memory == 0
        &&& self.used_memory == 0
        &&& self.free_memory == 0
        &&& self.available_memory == 0
        &&& self.total_swap == 0
        &&& self.used_swap == 0
        &&& self.free_swap == 0
    }
}

impl Default for MemoryInfo {
    fn default() -> (r: Self)
        ensures
            r.is_blank(),
    {
        MemoryInfo {
            total_memory: 0,
            used_memory: 0,
            free_memory: 0,
            available_memory: 0,
            total_swap: 0,
            used_swap: 0,
            free_swap: 0,
        }
    }
}

impl CpuListInfo {
    pub open spec fn is_blank(&self) -> bool {
        &&& self.global_cpu_usage_bits == 0
        &&& self.threads == 0
        &&& self.physical_core_count == 0
        &&& self.cpu_cores@.len() == 0
    }

    /// Empties the per-CPU list; keeps the numbers.
    pub fn clear_dynamic(&mut self)
        ensures
            final(self).cpu_cores@.len() == 0,
            final(self).global_cpu_usage_bits == old(self).global_cpu_usage_bits,
            final(self).threads == old(self).threads,
            final(self).physical_core_count == old(self).physical_core_count,
    {
        self.cpu_cores.clear();
    }
}

impl Default for CpuListInfo {
    fn default() -> (r: Self)
        ensures
            r.is_blank(),
    {
        CpuListInfo { global_cpu_usage_bits: 0, threads: 0, physical_core_count: 0, cpu_cores: Vec::new() }
    }
}

impl StorageListInfo {
    /// Empties the list of mounted file systems.
    pub fn clear_dynamic(&mut self)
        ensures
            final(self).storage_list@.len() == 0,
    {
        self.storage_list.clear();
    }
}

impl Default for StorageListInfo {
    fn default() -> (r: Self)
        ensures
            r.storage_list@.len() == 0,
    {
        StorageListInfo { storage_list: Vec::new() }
    }
}

impl DiskInfo {
    pub open spec fn is_blank(&self) -> bool {
        &&& self.name@.len() == 0
        &&& self.file_system@.len() == 0
        &&& self.kind@.len() == 0
        &&& self.total_space == 0
        &&& self.available_space == 0
    }
}

impl DiskInfo {
    /// Empties the texts; keeps the sizes.
    pub fn clear_dynamic(&mut self)
        ensures
            final(self).name@.len() == 0,
            final(self).file_system@.len() == 0,
            final(self).kind@.len() == 0,
            final(self).total_space == old(self).total_space,
            final(self).available_space == old(self).available_space,
    {
        self.name = String::new();
        self.file_system = String::new();
        self.kind = String::new();
    }
}

impl Default for DiskInfo {
    fn default() -> (r: Self)
        ensures
            r.is_blank(),
    {
        DiskInfo {
            name: String::new(),
            file_system: String::new(),
            kind: String::new(),
            total_space: 0,
            available_space: 0,
        }
    }
}

impl NetworkInfo {
    pub open spec fn is_blank(&self) -> bool {
        &&& self.interface_name@.len() == 0
        &&& self.total_rx_bytes == 0
        &&& self.total_rx_packets == 0
        &&& self.total_rx_errors == 0
        &&& self.total_tx_bytes == 0
        &&& self.total_tx_packets == 0
        &&& self.total_tx_errors == 0
    }

    /// Empties the interface name; keeps the counters.
    pub fn clear_dynamic(&mut self)
        ensures
            final(self).interface_name@.len() == 0,
            final(self).total_rx_bytes == old(self).total_rx_bytes,
            final(self).total_rx_packets == old(self).total_rx_packets,
            final(self).total_rx_errors == old(self).total_rx_errors,
            final(self).total_tx_bytes == old(self).total_tx_bytes,
            final(self).total_tx_packets == old(self).total_tx_packets,
            final(self).total_tx_errors == old(self).total_tx_errors,
    {
        self.interface_name = String::new();
    }
}

impl Default for NetworkInfo {
    fn default() -> (r: Self)
        ensures
            r.is_blank(),
    {
        NetworkInfo {
            interface_name: String::new(),
            total_rx_bytes: 0,
            total_rx_packets: 0,
            total_rx_errors: 0,
            total_tx_bytes: 0,
            total_tx_packets: 0,
            total_tx_errors: 0,
        }
    }
}

impl ComponentListInfo {
    pub open spec fn is_blank(&self) -> bool {
        &&& self.count == 0
        &&& !self.is_empty
        &&& self.components@.len() == 0
    }

    /// Empties the sensor list; keeps the count and the emptiness flag.
    pub fn clear_dynamic(&mut self)
        ensures
            final(self).components@.len() == 0,
            final(self).count == old(self).count,
            final(self).is_empty == old(self).is_empty,
    {
        self.components.clear();
    }
}

impl Default for ComponentListInfo {
    fn default() -> (r: Self)
        ensures
            r.is_blank(),
    {
        ComponentListInfo { count: 0, is_empty: false, components: Vec::new() }
    }
}

impl Default for ServerMetrics {
    fn default() -> (r: Self)
        ensures
            r.system is None,
            r.process_list is None,
            r.memory is None,
            r.disk is None,
            r.network is None,
            r.cpu is None,
            r.components is None,
            r.time == 0,
    {
        ServerMetrics {
            system: None,
            process_list: None,
            memory: None,
            disk: None,
            network: None,
            cpu: None,
            components: None,
            time: 0,
        }
    }
}

} // verus!
