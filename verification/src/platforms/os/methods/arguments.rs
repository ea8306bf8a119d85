//! The values that one collection cycle works with.
use crate::config::{AgentConfigFile, HeaderField, ParamField, ProcessSortBy};
use crate::metric_types::{
    ComponentListInfo, CpuListInfo, MemoryInfo, NetworkInfo, ProcessListInfo, ServerMetrics,
    StorageListInfo, SystemInfo,
};
use vstd::prelude::*;

verus! {

/// The records rendered into line protocol.
#[derive(Debug)]
pub struct ToLineProtocolOptions {
    pub system: SystemInfo,
    pub memory: MemoryInfo,
    pub disk: StorageListInfo,
    pub network: NetworkInfo,
    pub cpu: CpuListInfo,
    pub components: ComponentListInfo,
    pub processes_info: ProcessListInfo,
}

impl Default for ToLineProtocolOptions {
    fn default() -> (r: Self)
        ensures
            r.system.is_blank(),
            r.memory.is_blank(),
            r.disk.storage_list@.len() == 0,
            r.network.is_blank(),
            r.cpu.is_blank(),
            r.components.is_blank(),
            r.processes_info.exporter_metrics is None,
            r.processes_info.process_list@.len() == 0,
    {
        ToLineProtocolOptions {
            system: SystemInfo::default(),
            memory: MemoryInfo::default(),
            disk: StorageListInfo::default(),
            network: NetworkInfo::default(),
            cpu: CpuListInfo::default(),
            components: ComponentListInfo::default(),
            processes_info: ProcessListInfo::default(),
        }
    }
}

/// Where and with what a report is sent.
#[derive(Debug)]
pub struct RequestBodyOptions {
    pub url: String,
    pub host: String,
    pub get_params: Vec<ParamField>,
    pub headers: Vec<HeaderField>,
}

/// How the process list is cut down.
#[derive(Debug)]
pub struct CollectProcessListOptions {
    pub sort_by: ProcessSortBy,
    pub cpu_cores: usize,
    pub process_limit: usize,
}

/// The rendered line-protocol bytes and the records they come from.
#[derive(Debug)]
pub struct LineProtocolBuffer {
    pub line_protocol_buffer: Vec<u8>,
    pub line_protocol_options: ToLineProtocolOptions,
}

impl Default for LineProtocolBuffer {
    fn default() -> (r: Self)
        ensures
            r.line_protocol_buffer@.len() == 0,
    {
        LineProtocolBuffer {
            line_protocol_buffer: Vec::new(),
            line_protocol_options: ToLineProtocolOptions::default(),
        }
    }
}

/// The buffers reused from one cycle to the next.
#[derive(Debug)]
pub struct Buffers {
    pub metrics: ServerMetrics,
    pub line_protocol: LineProtocolBuffer,
}

impl Default for Buffers {
    fn default() -> (r: Self)
        ensures
            r.metrics.system is None,
            r.metrics.process_list is None,
            r.metrics.memory is None,
            r.metrics.disk is None,
            r.metrics.network is None,
            r.metrics.cpu is None,
            r.metrics.components is None,
            r.metrics.time == 0,
            r.line_protocol.line_protocol_buffer@.len() == 0,
    {
        Buffers { metrics: ServerMetrics::default(), line_protocol: LineProtocolBuffer::default() }
    }
}

/// Which categories are collected, and the limits that apply.
#[derive(Debug, Clone, Copy)]
pub struct CommonConfigurations {
    pub memory_is_enabled: bool,
    pub system_is_enabled: bool,
    pub components_is_enabled: bool,
    pub cpu_is_enabled: bool,
    pub processes_is_enabled: bool,
    pub networks_is_enabled: bool,
    pub disks_is_enabled: bool,
    pub cpu_physical_core_count: usize,
    pub process_list_limit: usize,
}

/// When a per-process value that rarely changes is read again.
#[derive(Debug, Clone, Copy)]
pub enum UpdateMode {
    Never,
    Always,
    OnlyIfNotSet,
}

/// Which facts are read again when the processes are refreshed.
#[derive(Debug, Clone, Copy)]
pub struct ProcessRefreshPlan {
    pub user: UpdateMode,
    pub memory: bool,
    pub cpu: bool,
    pub disk_usage: bool,
}

/// Which facts are read again when the disks are refreshed.
#[derive(Debug, Clone, Copy)]
pub struct DiskRefreshPlan {
    pub kind: bool,
    pub storage: bool,
    pub io_usage: bool,
}

/// Which facts are read again when memory is refreshed.
#[derive(Debug, Clone, Copy)]
pub struct MemoryRefreshPlan {
    pub ram: bool,
    pub swap: bool,
}

/// Which facts are read again when the CPUs are refreshed.
#[derive(Debug, Clone, Copy)]
pub struct CpuRefreshPlan {
    pub cpu_usage: bool,
    pub frequency: bool,
}

/// What each refresh reads; a category without a plan is not refreshed
/// through one.
#[derive(Debug, Clone, Copy)]
pub struct RefreshKindContext {
    pub process_refresh_kind: Option<ProcessRefreshPlan>,
    pub disk_refresh_kind: Option<DiskRefreshPlan>,
    pub memory_refresh_kind: Option<MemoryRefreshPlan>,
    pub cpu_refresh_kind: Option<CpuRefreshPlan>,
}

/// Processes are refreshed for their memory, CPU and disk usage; their user
/// is read only while it is not known yet.
pub open spec fn process_refresh_plan() -> ProcessRefreshPlan {
    ProcessRefreshPlan { user: UpdateMode::OnlyIfNotSet, memory: true, cpu: true, disk_usage: true }
}

/// The refresh plans that the configuration calls for: processes are
/// refreshed through a plan exactly when the process list is enabled.
pub open spec fn refresh_context_for(config: AgentConfigFile) -> RefreshKindContext {
    RefreshKindContext {
        process_refresh_kind: if config.metrics.processes.settings.enabled {
            Some(process_refresh_plan())
        } else {
            None
        },
        disk_refresh_kind: None,
        memory_refresh_kind: None,
        cpu_refresh_kind: None,
    }
}

impl Default for RefreshKindContext {
    fn default() -> (r: Self)
        ensures
            r.process_refresh_kind is None,
            r.disk_refresh_kind is None,
            r.memory_refresh_kind is None,
            r.cpu_refresh_kind is None,
    {
        RefreshKindContext {
            process_refresh_kind: None,
            disk_refresh_kind: None,
            memory_refresh_kind: None,
            cpu_refresh_kind: None,
        }
    }
}

impl RefreshKindContext {
    /// The refresh plans that the configuration calls for.
    pub fn new(config: &AgentConfigFile) -> (r: Self)
        ensures
            r == refresh_context_for(*config),
    {
        let process_refresh_kind = if config.metrics.processes.settings.enabled {
            Some(
                ProcessRefreshPlan {
                    user: UpdateMode::OnlyIfNotSet,
                    memory: true,
                    cpu: true,
                    disk_usage: true,
                },
            )
        } else {
            None
        };
        RefreshKindContext {
            process_refresh_kind,
            disk_refresh_kind: None,
            memory_refresh_kind: None,
            cpu_refresh_kind: None,
        }
    }
}

} // verus!
