//! The exporter's configuration model and its defaults.
use vstd::prelude::*;
use vstd::string::*;

verus! {

/// Command-line arguments of the exporter.
pub struct MainCliArguments {
    /// enable debugging
    pub verbose: bool,
    /// set custom config path
    pub config: Option<String>,
}

/// The whole configuration file.
#[derive(Debug, Clone)]
pub struct AgentConfigFile {
    pub agent: AgentSection,
    pub server: ServerSection,
    pub metrics: MetricsConfig,
}

/// Per-category metric settings.
#[derive(Debug, Clone)]
pub struct MetricsConfig {
    pub cpu: CpuConfig,
    pub disks: DisksConfig,
    pub network: NetworkConfig,
    pub system: SystemConfig,
    pub components: ComponentsConfig,
    pub memory: MemoryConfig,
    pub processes: ProcessListConfig,
}

/// Settings of the process list.
#[derive(Debug, Clone)]
pub struct ProcessListConfig {
    pub settings: CommonMetricSetting,
    pub process_limit: usize,
    pub include_exporter_metrics: bool,
    pub remove_dead_processes: bool,
    pub sort_by: ProcessSortBy,
}

#[derive(Debug, Clone)]
pub struct MemoryConfig {
    pub settings: CommonMetricSetting,
}

#[derive(Debug, Clone)]
pub struct ComponentsConfig {
    pub settings: CommonMetricSetting,
}

#[derive(Debug, Clone)]
pub struct CpuConfig {
    pub settings: CommonMetricSetting,
}

#[derive(Debug, Clone)]
pub struct DisksConfig {
    pub settings: CommonMetricSetting,
    pub ignore_fs_types: Vec<String>,
    pub ignore_mount_points: Vec<String>,
}

#[derive(Debug, Clone)]
pub struct NetworkConfig {
    pub settings: CommonMetricSetting,
    pub list_type: ListType,
    pub interfaces: Vec<String>,
}

#[derive(Debug, Clone)]
pub struct SystemConfig {
    pub settings: CommonMetricSetting,
}

/// How and how often the agent reports.
#[derive(Debug, Clone)]
pub struct AgentSection {
    pub send_interval: u64,
    pub send_model: SendModel,
    pub data_type: DataType,
}

#[derive(Debug, Clone)]
pub struct ServerSection {
    pub push: SectionPushModel,
    pub pull: SectionPullModel,
}

#[derive(Debug, Clone)]
pub struct SectionPullModel {
    pub route: String,
    pub hostname: String,
    pub port: u32,
}

#[derive(Debug, Clone)]
pub struct SectionPushModel {
    pub url: String,
    pub retries_connection: Option<u32>,
    pub url_params: Vec<ParamField>,
    pub http_headers: Vec<HeaderField>,
}

/// One extra HTTP header of the push request.
#[derive(Debug, Clone)]
pub struct HeaderField {
    pub key: String,
    pub value: String,
}

/// One URL query parameter of the push request.
#[derive(Debug, Clone)]
pub struct ParamField {
    pub key: String,
    pub value: String,
}

/// Settings shared by every metric category.
#[derive(Debug, Clone, Copy)]
pub struct CommonMetricSetting {
    pub enabled: bool,
    pub override_interval: Option<u32>,
    pub override_retries_connection: Option<u32>,
}

#[derive(Debug, Clone, Copy)]
pub enum SendModel {
    Pull,
    Push,
}

#[derive(Debug, Clone, Copy)]
pub enum DataType {
    Json,
    LineProtocol,
}

#[derive(Debug, Clone, Copy)]
pub enum ListType {
    WhiteList,
    IgnoreList,
}

/// The criterion by which the process list is ordered.
#[derive(Debug, Clone, Copy)]
pub enum ProcessSortBy {
    CpuUsage,
    Memory,
    VirtualMemory,
    RunTime,
    StartTime,
}

/// The default of a metric category: enabled, with no overrides.
pub open spec fn is_default_setting(s: CommonMetricSetting) -> bool {
    &&& s.enabled
    &&& s.override_interval is None
    &&& s.override_retries_connection is None
}

impl Default for CommonMetricSetting {
    fn default() -> (r: Self)
        ensures
            is_default_setting(r),
    {
        CommonMetricSetting { enabled: true, override_interval: None, override_retries_connection: None }
    }
}

impl Default for SendModel {
    fn default() -> (r: Self)
        ensures
            r is Push,
    {
        SendModel::Push
    }
}

impl Default for DataType {
    fn default() -> (r: Self)
        ensures
            r is Json,
    {
        DataType::Json
    }
}

impl Default for ListType {
    fn default() -> (r: Self)
        ensures
            r is IgnoreList,
    {
        ListType::IgnoreList
    }
}

impl Default for ProcessSortBy {
    fn default() -> (r: Self)
        ensures
            r is CpuUsage,
    {
        ProcessSortBy::CpuUsage
    }
}

impl Default for ProcessListConfig {
    fn default() -> (r: Self)
        ensures
            is_default_setting(r.settings),
            r.process_limit == 0,
            !r.include_exporter_metrics,
            !r.remove_dead_processes,
            r.sort_by is CpuUsage,
    {
        ProcessListConfig {
            settings: CommonMetricSetting::default(),
            process_limit: 0,
            include_exporter_metrics: false,
            remove_dead_processes: false,
            sort_by: ProcessSortBy::default(),
        }
    }
}

impl Default for MemoryConfig {
    fn default() -> (r: Self)
        ensures
            is_default_setting(r.settings),
    {
        MemoryConfig { settings: CommonMetricSetting::default() }
    }
}

impl Default for ComponentsConfig {
    fn default() -> (r: Self)
        ensures
            is_default_setting(r.settings),
    {
        ComponentsConfig { settings: CommonMetricSetting::default() }
    }
}

impl Default for CpuConfig {
    fn default() -> (r: Self)
        ensures
            is_default_setting(r.settings),
    {
        CpuConfig { settings: CommonMetricSetting::default() }
    }
}

impl Default for SystemConfig {
    fn default() -> (r: Self)
        ensures
            is_default_setting(r.settings),
    {
        SystemConfig { settings: CommonMetricSetting::default() }
    }
}

impl Default for DisksConfig {
    fn default() -> (r: Self)
        ensures
            is_default_setting(r.settings),
            r.ignore_fs_types@.len() == 0,
            r.ignore_mount_points@.len() == 0,
    {
        DisksConfig {
            settings: CommonMetricSetting::default(),
            ignore_fs_types: Vec::new(),
            ignore_mount_points: Vec::new(),
        }
    }
}

impl Default for NetworkConfig {
    fn default() -> (r: Self)
        ensures
            is_default_setting(r.settings),
            r.list_type is IgnoreList,
            r.interfaces@.len() == 0,
    {
        NetworkConfig {
            settings: CommonMetricSetting::default(),
            list_type: ListType::default(),
            interfaces: Vec::new(),
        }
    }
}

impl Default for MetricsConfig {
    fn default() -> (r: Self)
        ensures
            is_default_setting(r.cpu.settings),
            is_default_setting(r.disks.settings),
            r.disks.ignore_fs_types@.len() == 0,
            r.disks.ignore_mount_points@.len() == 0,
            is_default_setting(r.network.settings),
            r.network.list_type is IgnoreList,
            r.network.interfaces@.len() == 0,
            is_default_setting(r.system.settings),
            is_default_setting(r.components.settings),
            is_default_setting(r.memory.settings),
            is_default_setting(r.processes.settings),
            r.processes.process_limit == 0,
            !r.processes.include_exporter_metrics,
            !r.processes.remove_dead_processes,
            r.processes.sort_by is CpuUsage,
    {
        MetricsConfig {
            cpu: CpuConfig::default(),
            disks: DisksConfig::default(),
            network: NetworkConfig::default(),
            system: SystemConfig::default(),
            components: ComponentsConfig::default(),
            memory: MemoryConfig::default(),
            processes: ProcessListConfig::default(),
        }
    }
}

impl Default for AgentSection {
    fn default() -> (r: Self)
        ensures
            r.send_interval == 0,
            r.send_model is Push,
            r.data_type is Json,
    {
        AgentSection { send_interval: 0, send_model: SendModel::default(), data_type: DataType::default() }
    }
}

impl Default for SectionPullModel {
    fn default() -> (r: Self)
        ensures
            r.route@.len() == 0,
            r.hostname@.len() == 0,
            r.port == 0,
    {
        SectionPullModel { route: String::new(), hostname: String::new(), port: 0 }
    }
}

impl Default for SectionPushModel {
    fn default() -> (r: Self)
        ensures
            r.url@.len() == 0,
            r.retries_connection is None,
            r.url_params@.len() == 0,
            r.http_headers@.len() == 0,
    {
        SectionPushModel {
            url: String::new(),
            retries_connection: None,
            url_params: Vec::new(),
            http_headers: Vec::new(),
        }
    }
}

impl Default for ServerSection {
    fn default() -> (r: Self)
        ensures
            r.push.url@.len() == 0,
            r.push.retries_connection is None,
            r.push.url_params@.len() == 0,
            r.push.http_headers@.len() == 0,
            r.pull.route@.len() == 0,
            r.pull.hostname@.len() == 0,
            r.pull.port == 0,
    {
        ServerSection { push: SectionPushModel::default(), pull: SectionPullModel::default() }
    }
}

impl Default for HeaderField {
    fn default() -> (r: Self)
        ensures
            r.key@.len() == 0,
            r.value@.len() == 0,
    {
        HeaderField { key: String::new(), value: String::new() }
    }
}

impl Default for ParamField {
    fn default() -> (r: Self)
        ensures
            r.key@.len() == 0,
            r.value@.len() == 0,
    {
        ParamField { key: String::new(), value: String::new() }
    }
}

/// The configuration the exporter starts from before the configuration file
/// and the environment are layered over it.
pub open spec fn is_builtin_config(c: AgentConfigFile) -> bool {
    &&& c.agent.send_interval == 10
    &&& c.agent.send_model is Push
    &&& c.agent.data_type is Json
    &&& c.server.push.url@ == "https://example.com"@
    &&& c.server.push.retries_connection is None
    &&& c.server.push.url_params@.len() == 0
    &&& c.server.push.http_headers@.len() == 0
    &&& c.server.pull.route@ == "metrics"@
    &&& c.server.pull.hostname@ == "localhost"@
    &&& c.server.pull.port == 3434
    &&& is_default_setting(c.metrics.processes.settings)
    &&& c.metrics.processes.process_limit == 5
    &&& !c.metrics.processes.include_exporter_metrics
    &&& c.metrics.processes.remove_dead_processes
    &&& c.metrics.processes.sort_by is CpuUsage
    &&& is_default_setting(c.metrics.cpu.settings)
    &&& is_default_setting(c.metrics.disks.settings)
    &&& c.metrics.disks.ignore_fs_types@.len() == 1
    &&& c.metrics.disks.ignore_fs_types@[0]@ == "tmpfs"@
    &&& c.metrics.disks.ignore_mount_points@.len() == 1
    &&& c.metrics.disks.ignore_mount_points@[0]@ == "/mnt/backup_test"@
    &&& is_default_setting(c.metrics.network.settings)
    &&& c.metrics.network.list_type is IgnoreList
    &&& c.metrics.network.interfaces@.len() == 2
    &&& c.metrics.network.interfaces@[0]@ == "lo"@
    &&& c.metrics.network.interfaces@[1]@ == "docker0"@
    &&& is_default_setting(c.metrics.system.settings)
    &&& is_default_setting(c.metrics.components.settings)
    &&& is_default_setting(c.metrics.memory.settings)
}

impl Default for AgentConfigFile {
    fn default() -> (r: Self)
        ensures
            is_builtin_config(r),
    {
        let mut ignore_fs_types: Vec<String> = Vec::new();
        ignore_fs_types.push(String::from_str("tmpfs"));
        let mut ignore_mount_points: Vec<String> = Vec::new();
        ignore_mount_points.push(String::from_str("/mnt/backup_test"));
        let mut interfaces: Vec<String> = Vec::new();
        interfaces.push(String::from_str("lo"));
        interfaces.push(String::from_str("docker0"));
        AgentConfigFile {
            agent: AgentSection {
                send_interval: 10,
                send_model: SendModel::default(),
                data_type: DataType::default(),
            },
            server: ServerSection {
                push: SectionPushModel {
                    url: String::from_str("https://example.com"),
                    retries_connection: None,
                    url_params: Vec::new(),
                    http_headers: Vec::new(),
                },
                pull: SectionPullModel {
                    route: String::from_str("metrics"),
                    hostname: String::from_str("localhost"),
                    port: 3434,
                },
            },
            metrics: MetricsConfig {
                processes: ProcessListConfig {
                    settings: CommonMetricSetting::default(),
                    process_limit: 5,
                    include_exporter_metrics: false,
                    remove_dead_processes: true,
                    sort_by: ProcessSortBy::default(),
                },
                cpu: CpuConfig { settings: CommonMetricSetting::default() },
                disks: DisksConfig {
                    settings: CommonMetricSetting::default(),
                    ignore_fs_types,
                    ignore_mount_points,
                },
                network: NetworkConfig {
                    settings: CommonMetricSetting::default(),
                    list_type: ListType::default(),
                    interfaces,
                },
                system: SystemConfig { settings: CommonMetricSetting::default() },
                components: ComponentsConfig { settings: CommonMetricSetting::default() },
                memory: MemoryConfig { settings: CommonMetricSetting::default() },
            },
        }
    }
}

/// Where the configuration file is read from: a path given on the command
/// line wins over one given in the environment, which wins over the
/// platform's default location.
pub open spec fn chosen_config_path(
    override_path: Option<Seq<char>>,
    env_path: Option<Seq<char>>,
    default_path: Seq<char>,
) -> Seq<char> {
    match override_path {
        Some(p) => p,
        None => match env_path {
            Some(p) => p,
            None => default_path,
        },
    }
}

pub open spec fn opt_view(o: Option<String>) -> Option<Seq<char>> {
    match o {
        Some(s) => Some(s@),
        None => None,
    }
}

/// Chooses the configuration file's path.
pub fn resolve_config_path(
    override_path: Option<String>,
    env_path: Option<String>,
    default_path: String,
) -> (r: String)
    ensures
        r@ == chosen_config_path(opt_view(override_path), opt_view(env_path), default_path@),
{
    match override_path {
        Some(p) => p,
        None => match env_path {
            Some(p) => p,
            None => default_path,
        },
    }
}

/// The name of the configuration file inside a configuration directory.
pub const CONFIG_FILENAME: &'static str = "config.yaml";

/// `name` inside the directory `dir`: a `/` goes between them unless `dir`
/// is empty or already ends with one.
pub open spec fn file_in_dir(dir: Seq<char>, name: Seq<char>) -> Seq<char> {
    if dir.len() == 0 {
        name
    } else if dir.last() == '/' {
        dir + name
    } else {
        dir + seq!['/'] + name
    }
}

/// The configuration path that the environment names: a full path when one
/// is given, else the configuration file inside the directory given.
pub open spec fn env_config_path(path_var: Option<Seq<char>>, dir_var: Option<Seq<char>>) -> Option<
    Seq<char>,
> {
    match path_var {
        Some(p) => Some(p),
        None => match dir_var {
            Some(d) => Some(file_in_dir(d, CONFIG_FILENAME@)),
            None => None,
        },
    }
}

/// Places `name` inside the directory `dir`.
pub fn join_file_to_dir(dir: &str, name: &str) -> (r: String)
    ensures
        r@ == file_in_dir(dir@, name@),
{
    let n = dir.unicode_len();
    let mut r = String::from_str(dir);
    if n > 0 && dir.get_char(n - 1) != '/' {
        r.append("/");
        proof {
            reveal_strlit("/");
        }
    }
    r.append(name);
    r
}

/// The configuration path that the environment names, from the values of the
/// path variable and of the directory variable; the path variable wins.
pub fn config_path_from_env(path_var: Option<String>, dir_var: Option<String>) -> (r: Option<String>)
    ensures
        opt_view(r) == env_config_path(opt_view(path_var), opt_view(dir_var)),
{
    match path_var {
        Some(p) => Some(p),
        None => match dir_var {
            Some(d) => Some(join_file_to_dir(d.as_str(), CONFIG_FILENAME)),
            None => None,
        },
    }
}

} // verus!
