use persona_exporter::config::{
    config_path_from_env, join_file_to_dir, resolve_config_path, AgentConfigFile, CommonMetricSetting, DataType, HeaderField,
    ParamField, ProcessSortBy, SendModel,
};
use persona_exporter::metric_types::{
    CpuListInfo, DiskInfo, DiskUsage, LoadAverage, NetworkInfo, ProcessInfo, ServerMetrics,
    StorageListInfo, SystemInfo, ComponentListInfo, DEFAULT_UNKNOWN_MESSAGE,
};
use persona_exporter::metrics::{collect_disk_metrics, collect_process_list_info};
use persona_exporter::paths::paths_equal;
use persona_exporter::platforms::os::collector::{
    collect_cycle, needs_system_context, plan_collection_step, CycleReadings, CycleSources,
};
use persona_exporter::platforms::os::methods::arguments::{
    RefreshKindContext, RequestBodyOptions, UpdateMode,
};
use persona_exporter::platforms::os::methods::line_content::{line_content, FieldValue};
use persona_exporter::platforms::os::methods::line_protocol::{line_protocol_plan, LineRecord};
use persona_exporter::platforms::os::methods::metrics::components::{
    collect_components_metrics, ComponentReading,
};
use persona_exporter::platforms::os::methods::metrics::cpu::{collect_cpus_metrics, CpuReading, CpuReadings};
use persona_exporter::platforms::os::methods::metrics::disk::{collect_storage_list_metrics, DiskReading};
use persona_exporter::platforms::os::methods::metrics::memory::{collect_memory_metrics, MemoryReading};
use persona_exporter::platforms::os::methods::metrics::network::{collect_network_metrics, NetworkReading};
use persona_exporter::platforms::os::methods::metrics::processes::{
    cpu_order_key_exec, finish_process_list, get_sort_closure, sort_process_list,
    update_process_list_info, write_process_info,
};
use persona_exporter::platforms::os::methods::metrics::system::{collect_system_metrics, SystemReading};
use persona_exporter::platforms::os::methods::query::build_query_params;
use persona_exporter::platforms::os::methods::{
    build_request_body, create_metrics_struct_by_config, get_host, host_from_parsed,
    plan_with_url_query, try_build_request_body,
};
use persona_exporter::text::{join, lex_compare_str, starts_with, str_equal};
use std::cmp::Ordering;

fn process(name: &str, memory: u64, cpu: f32) -> ProcessInfo {
    ProcessInfo {
        name: name.to_string(),
        status: "Sleep".to_string(),
        disk_usage: DiskUsage::default(),
        program_id: "1".to_string(),
        global_cpu_usage_bits: cpu.to_bits(),
        cpu_usage_per_thread_bits: 0,
        memory_usage: memory,
        virtual_memory: memory * 2,
        run_time: memory + 1,
        start_time: 100 - memory,
        user_id: "1000".to_string(),
        group_id: "100".to_string(),
    }
}

fn names(list: &[ProcessInfo]) -> Vec<String> {
    list.iter().map(|p| p.name.clone()).collect()
}

fn net(name: &str, rx: u64, tx: u64) -> NetworkReading {
    NetworkReading {
        name: name.to_string(),
        total_received: rx,
        total_transmitted: tx,
        total_packets_received: rx + 1,
        total_packets_transmitted: tx + 2,
        total_errors_on_received: 2,
        total_errors_on_transmitted: 3,
    }
}

#[test]
fn builtin_config_values() {
    let c = AgentConfigFile::default();
    assert_eq!(c.agent.send_interval, 10);
    assert!(matches!(c.agent.send_model, SendModel::Push));
    assert!(matches!(c.agent.data_type, DataType::Json));
    assert_eq!(c.server.push.url, "https://example.com");
    assert_eq!(c.server.pull.route, "metrics");
    assert_eq!(c.server.pull.hostname, "localhost");
    assert_eq!(c.server.pull.port, 3434);
    assert_eq!(c.metrics.processes.process_limit, 5);
    assert!(c.metrics.processes.remove_dead_processes);
    assert!(!c.metrics.processes.include_exporter_metrics);
    assert!(matches!(c.metrics.processes.sort_by, ProcessSortBy::CpuUsage));
    assert_eq!(c.metrics.disks.ignore_fs_types, vec!["tmpfs".to_string()]);
    assert_eq!(c.metrics.disks.ignore_mount_points, vec!["/mnt/backup_test".to_string()]);
    assert_eq!(c.metrics.network.interfaces, vec!["lo".to_string(), "docker0".to_string()]);
    assert!(c.metrics.cpu.settings.enabled);
    assert_eq!(c.metrics.cpu.settings.override_interval, None);
}

#[test]
fn default_metric_setting_is_enabled() {
    let s = CommonMetricSetting::default();
    assert!(s.enabled);
    assert_eq!(s.override_interval, None);
    assert_eq!(s.override_retries_connection, None);
}

#[test]
fn config_path_precedence() {
    let d = "/etc/persona-exporter/config.yaml".to_string();
    assert_eq!(
        resolve_config_path(Some("/a.yaml".to_string()), Some("/b.yaml".to_string()), d.clone()),
        "/a.yaml"
    );
    assert_eq!(resolve_config_path(None, Some("/b.yaml".to_string()), d.clone()), "/b.yaml");
    assert_eq!(resolve_config_path(None, None, d.clone()), d);
}

#[test]
fn report_buffers_follow_config() {
    let mut c = AgentConfigFile::default();
    c.metrics.memory.settings.enabled = false;
    c.metrics.processes.include_exporter_metrics = true;
    let m = create_metrics_struct_by_config(&c);
    assert!(m.memory.is_none());
    assert!(m.system.is_some());
    assert!(m.cpu.is_some());
    assert!(m.disk.is_some());
    assert!(m.network.is_some());
    assert!(m.components.is_some());
    let p = m.process_list.as_ref().unwrap();
    assert!(p.exporter_metrics.is_some());
    assert!(p.process_list.is_empty());
    assert_eq!(m.time, 0);
    c.metrics.processes.settings.enabled = false;
    let m2 = create_metrics_struct_by_config(&c);
    assert!(m2.process_list.is_none());
}

#[test]
fn refresh_plan_follows_process_setting() {
    let mut c = AgentConfigFile::default();
    let r = RefreshKindContext::new(&c);
    let plan = r.process_refresh_kind.unwrap();
    assert!(matches!(plan.user, UpdateMode::OnlyIfNotSet));
    assert!(plan.memory && plan.cpu && plan.disk_usage);
    assert!(r.disk_refresh_kind.is_none());
    c.metrics.processes.settings.enabled = false;
    assert!(RefreshKindContext::new(&c).process_refresh_kind.is_none());
}

#[test]
fn process_list_top_by_memory() {
    let mut list = vec![process("a", 10, 0.0), process("b", 30, 0.0), process("c", 20, 0.0), process("d", 5, 0.0)];
    finish_process_list(&mut list, &ProcessSortBy::Memory, 2);
    assert_eq!(names(&list), vec!["b", "c"]);
}

#[test]
fn process_list_limit_above_length_keeps_all() {
    let mut list = vec![process("a", 10, 0.0), process("b", 30, 0.0)];
    finish_process_list(&mut list, &ProcessSortBy::RunTime, 10);
    assert_eq!(names(&list), vec!["b", "a"]);
}

#[test]
fn process_list_by_start_time_and_virtual_memory() {
    let mut list = vec![process("a", 10, 0.0), process("b", 30, 0.0), process("c", 20, 0.0)];
    sort_process_list(&mut list, &ProcessSortBy::StartTime);
    assert_eq!(names(&list), vec!["a", "c", "b"]);
    sort_process_list(&mut list, &ProcessSortBy::VirtualMemory);
    assert_eq!(names(&list), vec!["b", "c", "a"]);
}

#[test]
fn process_list_by_cpu_in_total_order() {
    let mut list = vec![
        process("neg", 1, -3.5),
        process("big", 2, 75.25),
        process("zero", 3, 0.0),
        process("negzero", 4, -0.0),
        process("small", 5, 0.5),
        process("nan", 6, f32::NAN),
    ];
    finish_process_list(&mut list, &ProcessSortBy::CpuUsage, 6);
    assert_eq!(names(&list), vec!["nan", "big", "small", "zero", "negzero", "neg"]);
}

#[test]
fn cpu_order_key_agrees_with_total_cmp() {
    let values = [f32::NEG_INFINITY, -2.0, -0.0, 0.0, 1e-40, 1.0, 3.5, f32::INFINITY, f32::NAN];
    for a in values.iter() {
        for b in values.iter() {
            let ka = cpu_order_key_exec(a.to_bits());
            let kb = cpu_order_key_exec(b.to_bits());
            assert_eq!(ka.cmp(&kb), a.total_cmp(b));
        }
    }
}

#[test]
fn sort_closure_orders_descending() {
    let c = get_sort_closure(&ProcessSortBy::Memory);
    let a = process("a", 10, 0.0);
    let b = process("b", 20, 0.0);
    assert_eq!(c.compare(&b, &a), Ordering::Less);
    assert_eq!(c.compare(&a, &b), Ordering::Greater);
    assert_eq!(c.compare(&a, &a), Ordering::Equal);
}

#[test]
fn equal_ranks_keep_their_order() {
    let mut list = vec![process("x", 10, 0.0), process("y", 10, 0.0), process("z", 10, 0.0)];
    sort_process_list(&mut list, &ProcessSortBy::Memory);
    assert_eq!(names(&list), vec!["x", "y", "z"]);
}

#[test]
fn process_record_copy() {
    let mut buffer = ProcessInfo::default();
    buffer.name = "old-".to_string();
    write_process_info(process("p", 7, 1.5), &mut buffer);
    assert_eq!(buffer.name, "old-p");
    assert_eq!(buffer.status, "Sleep");
    assert_eq!(buffer.memory_usage, 7);
    assert_eq!(buffer.global_cpu_usage_bits, 1.5f32.to_bits());
    assert_eq!(buffer.user_id, "1000");
    buffer.clear_dynamic();
    assert_eq!(buffer.name, "");
    assert_eq!(buffer.memory_usage, 7);
}

#[test]
fn process_list_replaced_or_appended() {
    let mut buffer = vec![process("old", 1, 0.0)];
    update_process_list_info(vec![process("n1", 2, 0.0), process("n2", 3, 0.0)], &mut buffer);
    assert_eq!(names(&buffer), vec!["n1", "n2"]);
    collect_process_list_info(vec![process("n3", 4, 0.0)], &mut buffer);
    assert_eq!(names(&buffer), vec!["n1", "n2", "n3"]);
}

#[test]
fn main_interface_is_busiest_candidate() {
    let readings = vec![
        net("lo", 1000, 1000),
        net("eth0", 10, 20),
        net("docker0", 500, 500),
        net("wlp0s20f3", 30, 5),
        net("veth12", 900, 900),
        net("br-abc", 900, 900),
    ];
    let mut info = NetworkInfo::default();
    collect_network_metrics(&readings, &mut info);
    assert_eq!(info.interface_name, "wlp0s20f3");
    assert_eq!(info.total_rx_bytes, 30);
    assert_eq!(info.total_tx_bytes, 5);
    assert_eq!(info.total_rx_packets, 31);
    assert_eq!(info.total_tx_packets, 7);
    assert_eq!(info.total_rx_errors, 2);
    assert_eq!(info.total_tx_errors, 3);
}

#[test]
fn main_interface_tie_goes_to_last() {
    let readings = vec![net("eth0", 10, 10), net("eth1", 5, 15)];
    let mut info = NetworkInfo::default();
    collect_network_metrics(&readings, &mut info);
    assert_eq!(info.interface_name, "eth1");
}

#[test]
fn no_main_interface_is_unknown() {
    let readings = vec![net("lo", 10, 10), net("docker0", 5, 15)];
    let mut info = NetworkInfo::default();
    info.total_rx_bytes = 9;
    collect_network_metrics(&readings, &mut info);
    assert_eq!(info.interface_name, DEFAULT_UNKNOWN_MESSAGE);
    assert_eq!(info.total_rx_bytes, 9);
    info.clear_dynamic();
    assert_eq!(info.interface_name, "");
}

#[test]
fn sensors_with_missing_values() {
    let readings = vec![
        ComponentReading {
            id: Some("hwmon4_1".to_string()),
            label: "coretemp Package id 0".to_string(),
            temperature_bits: Some(84.0f32.to_bits()),
            critical_bits: Some(100.0f32.to_bits()),
            max_bits: None,
        },
        ComponentReading {
            id: None,
            label: "acpitz temp1".to_string(),
            temperature_bits: None,
            critical_bits: None,
            max_bits: Some(74.0f32.to_bits()),
        },
    ];
    let mut info = ComponentListInfo::default();
    collect_components_metrics(&readings, &mut info);
    assert_eq!(info.count, 2);
    assert!(!info.is_empty);
    assert_eq!(info.components[0].id, "hwmon4_1");
    assert_eq!(info.components[0].temp_bits, 84.0f32.to_bits());
    assert_eq!(info.components[0].max_temp_bits, 0.0f32.to_bits());
    assert_eq!(info.components[1].id, DEFAULT_UNKNOWN_MESSAGE);
    assert_eq!(info.components[1].name, "acpitz temp1");
    assert_eq!(info.components[1].max_temp_bits, 74.0f32.to_bits());
    let mut empty = ComponentListInfo::default();
    collect_components_metrics(&Vec::new(), &mut empty);
    assert_eq!(empty.count, 0);
    assert!(empty.is_empty);
}

#[test]
fn system_facts_and_parent_distributions() {
    let reading = SystemReading {
        name: Some("NixOS".to_string()),
        kernel_version: None,
        os_version: Some("26.05".to_string()),
        host_name: Some("nikita".to_string()),
        kernel_long_version: "Linux 7.0.10-zen1".to_string(),
        cpu_arch: "x86_64".to_string(),
        distribution_id: "nixos".to_string(),
        distribution_id_like: vec!["debian".to_string(), "ubuntu".to_string()],
        boot_time: 1786947931,
        uptime: 85991,
        load_average: LoadAverage { one_bits: 1.1f64.to_bits(), five_bits: 0, fifteen_bits: 0 },
    };
    let mut info = SystemInfo::default();
    collect_system_metrics(&reading, &mut info);
    assert_eq!(info.name, "NixOS");
    assert_eq!(info.kernel_version, DEFAULT_UNKNOWN_MESSAGE);
    assert_eq!(info.kernel_long_version, "Linux 7.0.10-zen1");
    assert_eq!(info.distribution_id_like, vec!["debian".to_string(), "ubuntu".to_string()]);
    assert_eq!(info.boot_time, 1786947931);
    assert_eq!(info.load_average.one_bits, 1.1f64.to_bits());
    info.clear_dynamic();
    assert!(info.distribution_id_like.is_empty());
    assert_eq!(info.uptime, 85991);
    let no_parents = SystemReading { distribution_id_like: Vec::new(), ..reading };
    let mut fresh = SystemInfo::default();
    collect_system_metrics(&no_parents, &mut fresh);
    assert!(fresh.distribution_id_like.is_empty());
}

#[test]
fn cpu_and_memory_records() {
    let readings = CpuReadings {
        global_cpu_usage_bits: 14.5f64.to_bits(),
        cpus: vec![
            CpuReading { frequency: 2400, name: "cpu0".to_string(), cpu_usage_bits: 3.0f32.to_bits() },
            CpuReading { frequency: 2600, name: "cpu1".to_string(), cpu_usage_bits: 4.0f32.to_bits() },
        ],
    };
    let mut cpu = CpuListInfo::default();
    collect_cpus_metrics(&readings, 4, &mut cpu);
    assert_eq!(cpu.threads, 2);
    assert_eq!(cpu.physical_core_count, 4);
    assert_eq!(cpu.cpu_cores[1].os_name, "cpu1");
    assert_eq!(cpu.cpu_cores[1].frequency, 2600);
    cpu.clear_dynamic();
    assert!(cpu.cpu_cores.is_empty());
    assert_eq!(cpu.threads, 2);

    let reading = MemoryReading {
        total_memory: 16,
        used_memory: 9,
        free_memory: 5,
        available_memory: 6,
        total_swap: 25,
        used_swap: 1,
        free_swap: 24,
    };
    let mut mem = persona_exporter::metric_types::MemoryInfo::default();
    collect_memory_metrics(&reading, &mut mem);
    assert_eq!(mem.total_memory, 16);
    assert_eq!(mem.free_swap, 24);
}

fn disk(name: &str, mount: &str) -> DiskReading {
    DiskReading {
        name: name.to_string(),
        file_system: "ext4".to_string(),
        kind: "SSD".to_string(),
        mount_point: mount.to_string(),
        total_space: 500,
        available_space: 86,
    }
}

#[test]
fn storage_list_records() {
    let mut info = StorageListInfo::default();
    collect_storage_list_metrics(&vec![disk("/dev/a", "/"), disk("/dev/b", "/home")], &mut info);
    assert_eq!(info.storage_list.len(), 2);
    assert_eq!(info.storage_list[1].mount_point, "/home");
    assert_eq!(info.storage_list[1].total_space, 500);
    info.clear_dynamic();
    assert!(info.storage_list.is_empty());
}

#[test]
fn disk_by_mount_point() {
    let disks = vec![disk("/dev/a", "/"), disk("/dev/nvme0n1p2", "/mnt/data/"), disk("/dev/c", "/mnt/data")];
    let mut info = DiskInfo::default();
    collect_disk_metrics(&disks, "/mnt//data", &mut info);
    assert_eq!(info.name, "/dev/nvme0n1p2");
    assert_eq!(info.file_system, "ext4");
    assert_eq!(info.total_space, 500);
    let mut missing = DiskInfo::default();
    collect_disk_metrics(&disks, "/srv", &mut missing);
    assert_eq!(missing.name, DEFAULT_UNKNOWN_MESSAGE);
    assert_eq!(missing.kind, DEFAULT_UNKNOWN_MESSAGE);
    assert_eq!(missing.total_space, 0);
}

#[test]
fn path_equality_by_components() {
    assert!(paths_equal("/mnt/data/", "/mnt/data"));
    assert!(paths_equal("/mnt//data", "/mnt/data"));
    assert!(paths_equal("a/./b", "a/b"));
    assert!(paths_equal("/.", "/"));
    assert!(!paths_equal("./a", "a"));
    assert!(!paths_equal("/a", "a"));
    assert!(!paths_equal("a/../b", "b"));
    assert!(!paths_equal("", "."));
}

#[test]
fn text_helpers() {
    assert!(starts_with("docker0", "docker"));
    assert!(!starts_with("dock", "docker"));
    assert!(str_equal("lo", "lo"));
    assert!(!str_equal("lo", "lo0"));
    assert_eq!(join(&vec!["a".to_string(), "b".to_string(), "c".to_string()], ","), "a,b,c");
    assert_eq!(join(&Vec::new(), ","), "");
    assert_eq!(lex_compare_str("abc", "abd"), -1);
    assert_eq!(lex_compare_str("abc", "ab"), 1);
    assert_eq!(lex_compare_str("ab", "ab"), 0);
}

fn param(k: &str, v: &str) -> ParamField {
    ParamField { key: k.to_string(), value: v.to_string() }
}

#[test]
fn query_params_sorted_last_wins() {
    let params = vec![param("org", "a"), param("bucket", "b"), param("precision", "ns"), param("org", "c")];
    let q = build_query_params(&params);
    let pairs: Vec<(String, String)> = q.iter().map(|p| (p.key.clone(), p.value.clone())).collect();
    assert_eq!(
        pairs,
        vec![
            ("bucket".to_string(), "b".to_string()),
            ("org".to_string(), "c".to_string()),
            ("precision".to_string(), "ns".to_string()),
        ]
    );
}

#[test]
fn request_headers_in_order() {
    let options = RequestBodyOptions {
        url: "http://localhost:8086/api/v2/write".to_string(),
        host: "localhost".to_string(),
        get_params: vec![param("org", "x")],
        headers: vec![HeaderField { key: "Authorization".to_string(), value: "Token t".to_string() }],
    };
    let plan = build_request_body(&options);
    assert_eq!(plan.url, "http://localhost:8086/api/v2/write");
    assert_eq!(plan.query.len(), 1);
    assert_eq!(plan.headers.len(), 3);
    assert_eq!(plan.headers[0].key, "host");
    assert_eq!(plan.headers[0].value, "localhost");
    assert_eq!(plan.headers[1].key, "connection");
    assert_eq!(plan.headers[1].value, "close");
    assert_eq!(plan.headers[2].key, "Authorization");
}

#[test]
fn params_follow_the_urls_own_query() {
    let options = RequestBodyOptions {
        url: "http://localhost:8086/api/v2/write?org=a".to_string(),
        host: "localhost".to_string(),
        get_params: vec![param("bucket", "b")],
        headers: Vec::new(),
    };
    let plan = build_request_body(&options);
    let pairs: Vec<(String, String)> = plan.query.iter().map(|p| (p.key.clone(), p.value.clone())).collect();
    assert_eq!(
        pairs,
        vec![("org".to_string(), "a".to_string()), ("bucket".to_string(), "b".to_string())]
    );
    assert_eq!(plan.url, "http://localhost:8086/api/v2/write?org=a");
    assert_eq!(plan.headers.len(), 2);
}

#[test]
fn plan_from_the_urls_own_pairs() {
    let options = RequestBodyOptions {
        url: "http://h/w?x=1".to_string(),
        host: "h".to_string(),
        get_params: vec![param("precision", "ns"), param("bucket", "b"), param("bucket", "c")],
        headers: vec![HeaderField { key: "Content-Type".to_string(), value: "text/plain".to_string() }],
    };
    let plan = plan_with_url_query(&options, vec![param("x", "1")]);
    let pairs: Vec<(String, String)> = plan.query.iter().map(|p| (p.key.clone(), p.value.clone())).collect();
    assert_eq!(
        pairs,
        vec![
            ("x".to_string(), "1".to_string()),
            ("bucket".to_string(), "c".to_string()),
            ("precision".to_string(), "ns".to_string()),
        ]
    );
    assert_eq!(plan.headers[2].value, "text/plain");
}

#[test]
fn request_for_text_that_is_no_url() {
    let options = RequestBodyOptions {
        url: "not a url".to_string(),
        host: "incorrect_url".to_string(),
        get_params: vec![param("bucket", "b")],
        headers: Vec::new(),
    };
    assert!(try_build_request_body(&options).is_none());
    let good = RequestBodyOptions { url: "http://h/".to_string(), ..options };
    assert!(try_build_request_body(&good).is_some());
}

#[test]
fn host_of_target_url() {
    assert_eq!(get_host("http://localhost:8086/api/v2/write"), "localhost");
    assert_eq!(get_host("https://example.com/metrics"), "example.com");
    assert_eq!(get_host("not a url"), "incorrect_url");
    assert_eq!(get_host("unix:/run/exporter.sock"), "localhost");
    assert_eq!(host_from_parsed(None), "incorrect_url");
    assert_eq!(host_from_parsed(Some(None)), "localhost");
    assert_eq!(host_from_parsed(Some(Some("h".to_string()))), "h");
}

#[test]
fn line_plan_order() {
    let mut c = AgentConfigFile::default();
    c.metrics.processes.include_exporter_metrics = true;
    let mut m = create_metrics_struct_by_config(&c);
    m.cpu.as_mut().unwrap().cpu_cores.push(persona_exporter::metric_types::CpuThreadInfo {
        frequency: 1,
        os_name: "cpu0".to_string(),
        cpu_usage_bits: 0,
    });
    m.process_list.as_mut().unwrap().process_list.push(process("p", 1, 0.0));
    m.process_list.as_mut().unwrap().process_list.push(process("q", 1, 0.0));
    let plan = line_protocol_plan(&m);
    assert_eq!(
        plan,
        vec![
            LineRecord::System,
            LineRecord::Disk,
            LineRecord::Network,
            LineRecord::Cpu,
            LineRecord::CpuCore(0),
            LineRecord::Memory,
            LineRecord::Process(0),
            LineRecord::Process(1),
            LineRecord::ExporterProcess,
        ]
    );
    assert_eq!(LineRecord::CpuCore(0).measurement_name(), "metrics_cpu_cores");
    assert_eq!(LineRecord::ExporterProcess.measurement_name(), "metrics_exporter_monitoring");
    let empty = ServerMetrics::default();
    assert!(line_protocol_plan(&empty).is_empty());
}

#[test]
fn cycle_collects_enabled_categories() {
    let mut c = AgentConfigFile::default();
    c.metrics.network.settings.enabled = false;
    c.metrics.processes.include_exporter_metrics = true;
    assert!(needs_system_context(&c));
    let m = create_metrics_struct_by_config(&c);
    let refresh = RefreshKindContext::new(&c);
    let sources = CycleSources {
        has_system_context: true,
        has_disks: true,
        has_networks: false,
        has_components: true,
        include_exporter_metrics: true,
        current_pid_known: true,
    };
    let steps = plan_collection_step(&m, &refresh, &sources);
    assert!(steps.memory && steps.cpu && steps.system && steps.processes && steps.exporter);
    assert!(steps.disks && steps.components);
    assert!(!steps.networks);
    let no_pid = CycleSources { current_pid_known: false, ..sources };
    assert!(!plan_collection_step(&m, &refresh, &no_pid).exporter);
}

#[test]
fn no_system_context_when_nothing_needs_it() {
    let mut c = AgentConfigFile::default();
    c.metrics.cpu.settings.enabled = false;
    c.metrics.memory.settings.enabled = false;
    c.metrics.processes.settings.enabled = false;
    c.metrics.system.settings.enabled = false;
    assert!(!needs_system_context(&c));
    c.metrics.processes.include_exporter_metrics = true;
    assert!(needs_system_context(&c));
}

#[test]
fn line_content_of_network_and_process() {
    let c = AgentConfigFile::default();
    let mut m = create_metrics_struct_by_config(&c);
    m.time = 1787033923350927711;
    {
        let n = m.network.as_mut().unwrap();
        n.interface_name = "wlp0s20f3".to_string();
        n.total_rx_bytes = 7457014974;
    }
    m.process_list.as_mut().unwrap().process_list.push(process("gdbus", 10133504, 0.25));
    let net_line = line_content(&m, &LineRecord::Network);
    assert_eq!(net_line.measurement, "metrics_network");
    assert_eq!(net_line.time, 1787033923350927711);
    assert_eq!(net_line.tags.len(), 1);
    assert_eq!(net_line.tags[0].key, "interface_name");
    assert_eq!(net_line.tags[0].value, "wlp0s20f3");
    assert_eq!(net_line.fields.len(), 6);
    assert_eq!(net_line.fields[0].key, "total_rx_bytes");
    assert!(matches!(net_line.fields[0].value, FieldValue::Unsigned(7457014974)));
    let p_line = line_content(&m, &LineRecord::Process(0));
    assert_eq!(p_line.measurement, "metrics_process_list");
    assert_eq!(p_line.tags[0].value, "gdbus");
    assert_eq!(p_line.fields.len(), 13);
    assert!(matches!(&p_line.fields[0].value, FieldValue::Text(s) if s == "Sleep"));
    assert!(matches!(p_line.fields[1].value, FieldValue::Float32Bits(b) if b == 0.25f32.to_bits()));
    assert!(matches!(p_line.fields[3].value, FieldValue::Unsigned(10133504)));
    for record in line_protocol_plan(&m).iter() {
        let content = line_content(&m, record);
        assert!(!content.fields.is_empty());
    }
}

#[test]
fn system_line_joins_parent_distributions() {
    let c = AgentConfigFile::default();
    let mut m = create_metrics_struct_by_config(&c);
    m.system.as_mut().unwrap().distribution_id_like = vec!["debian".to_string(), "ubuntu".to_string()];
    let line = line_content(&m, &LineRecord::System);
    assert_eq!(line.fields[4].key, "distribution_id_like");
    assert!(matches!(&line.fields[4].value, FieldValue::Text(s) if s == "debian,ubuntu"));
}

fn empty_cycle(time: i64) -> CycleReadings {
    CycleReadings {
        memory: None,
        cpu: None,
        physical_core_count: 4,
        system: None,
        processes: None,
        exporter: None,
        disks: None,
        networks: None,
        components: None,
        time,
    }
}

fn two_cpus() -> CpuReadings {
    CpuReadings {
        global_cpu_usage_bits: 10.0f64.to_bits(),
        cpus: vec![
            CpuReading { frequency: 2400, name: "cpu0".to_string(), cpu_usage_bits: 1.0f32.to_bits() },
            CpuReading { frequency: 2600, name: "cpu1".to_string(), cpu_usage_bits: 2.0f32.to_bits() },
        ],
    }
}

#[test]
fn each_cycle_replaces_the_previous_report() {
    let mut c = AgentConfigFile::default();
    c.metrics.processes.include_exporter_metrics = true;
    let mut m = create_metrics_struct_by_config(&c);
    let mut first = empty_cycle(1);
    first.cpu = Some(two_cpus());
    first.processes = Some(vec![process("a", 10, 0.0), process("b", 30, 0.0), process("c", 20, 0.0)]);
    first.exporter = Some(process("exporter", 7, 0.0));
    first.disks = Some(vec![disk("/dev/a", "/"), disk("/dev/b", "/home")]);
    first.networks = Some(vec![net("eth0", 10, 20)]);
    collect_cycle(&mut m, first, &ProcessSortBy::Memory, 2, "/");
    assert_eq!(names(&m.process_list.as_ref().unwrap().process_list), vec!["b", "c"]);
    assert_eq!(m.time, 1);

    let mut second = empty_cycle(2);
    second.cpu = Some(two_cpus());
    second.processes = Some(vec![process("d", 1, 0.0)]);
    second.exporter = Some(process("exporter", 8, 0.0));
    second.disks = Some(vec![disk("/dev/a", "/")]);
    second.networks = Some(vec![net("eth0", 11, 21)]);
    collect_cycle(&mut m, second, &ProcessSortBy::Memory, 2, "/");
    let p = m.process_list.as_ref().unwrap();
    assert_eq!(names(&p.process_list), vec!["d"]);
    assert_eq!(p.exporter_metrics.as_ref().unwrap().name, "exporter");
    assert_eq!(p.exporter_metrics.as_ref().unwrap().memory_usage, 8);
    let cpu = m.cpu.as_ref().unwrap();
    assert_eq!(cpu.cpu_cores.len(), 2);
    assert_eq!(cpu.threads, 2);
    assert_eq!(cpu.physical_core_count, 4);
    assert_eq!(m.disk.as_ref().unwrap().name, "/dev/a");
    assert_eq!(m.network.as_ref().unwrap().interface_name, "eth0");
    assert_eq!(m.network.as_ref().unwrap().total_rx_bytes, 11);
    assert_eq!(m.time, 2);
}

#[test]
fn categories_without_a_reading_stay_as_they_were() {
    let c = AgentConfigFile::default();
    let mut m = create_metrics_struct_by_config(&c);
    let mut first = empty_cycle(5);
    first.memory = Some(MemoryReading {
        total_memory: 16,
        used_memory: 9,
        free_memory: 5,
        available_memory: 6,
        total_swap: 25,
        used_swap: 1,
        free_swap: 24,
    });
    first.networks = Some(vec![net("lo", 10, 10)]);
    collect_cycle(&mut m, first, &ProcessSortBy::Memory, 5, "/");
    assert_eq!(m.memory.as_ref().unwrap().used_memory, 9);
    assert_eq!(m.network.as_ref().unwrap().interface_name, DEFAULT_UNKNOWN_MESSAGE);
    collect_cycle(&mut m, empty_cycle(6), &ProcessSortBy::Memory, 5, "/");
    assert_eq!(m.memory.as_ref().unwrap().used_memory, 9);
    assert_eq!(m.network.as_ref().unwrap().interface_name, DEFAULT_UNKNOWN_MESSAGE);
    assert!(m.process_list.as_ref().unwrap().process_list.is_empty());
    assert_eq!(m.time, 6);
}

#[test]
fn missing_main_disk_reads_unknown() {
    let c = AgentConfigFile::default();
    let mut m = create_metrics_struct_by_config(&c);
    let mut cycle = empty_cycle(1);
    cycle.disks = Some(vec![disk("/dev/b", "/home")]);
    collect_cycle(&mut m, cycle, &ProcessSortBy::Memory, 5, "/");
    assert_eq!(m.disk.as_ref().unwrap().name, DEFAULT_UNKNOWN_MESSAGE);
    assert_eq!(m.disk.as_ref().unwrap().kind, DEFAULT_UNKNOWN_MESSAGE);
}

#[test]
fn config_path_from_environment() {
    assert_eq!(
        config_path_from_env(Some("/etc/pe.yaml".to_string()), Some("/srv".to_string())),
        Some("/etc/pe.yaml".to_string())
    );
    assert_eq!(config_path_from_env(None, Some("/srv/pe".to_string())), Some("/srv/pe/config.yaml".to_string()));
    assert_eq!(config_path_from_env(None, Some("/srv/pe/".to_string())), Some("/srv/pe/config.yaml".to_string()));
    assert_eq!(config_path_from_env(None, None), None);
    assert_eq!(join_file_to_dir("", "config.yaml"), "config.yaml");
}

#[test]
fn disk_line_measurement() {
    assert_eq!(LineRecord::Disk.measurement_name(), "metrics_storage_mount_point");
}
