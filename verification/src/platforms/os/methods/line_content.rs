//! What each line of a report holds: its measurement, its tags and its
//! fields, in order.
use crate::metric_types::{
    ComponentInfo, CpuListInfo, CpuThreadInfo, DiskInfo, MemoryInfo, NetworkInfo, ProcessInfo,
    ServerMetrics, SystemInfo,
};
use crate::platforms::os::methods::line_protocol::{
    component_lines, component_part, core_lines, cpu_part, disk_part, line_plan, measurement,
    memory_part, network_part, process_lines, process_part, system_part, LineRecord,
};
use crate::text::{join, seq_join, string_views};
use vstd::prelude::*;
use vstd::string::*;

verus! {

/// The value of one field; floating-point values by their bits.
#[derive(Debug)]
pub enum FieldValue {
    Text(String),
    Unsigned(u64),
    Float64Bits(u64),
    Float32Bits(u32),
}

/// The value of one field, texts as characters.
pub enum FieldView {
    Text(Seq<char>),
    Unsigned(u64),
    Float64Bits(u64),
    Float32Bits(u32),
}

#[derive(Debug)]
pub struct LineTag {
    pub key: String,
    pub value: String,
}

#[derive(Debug)]
pub struct LineField {
    pub key: String,
    pub value: FieldValue,
}

/// One line: measurement, tags, fields and the report's time stamp.
#[derive(Debug)]
pub struct LineContent {
    pub measurement: String,
    pub tags: Vec<LineTag>,
    pub fields: Vec<LineField>,
    pub time: i64,
}

pub open spec fn field_view(v: FieldValue) -> FieldView {
    match v {
        FieldValue::Text(s) => FieldView::Text(s@),
        FieldValue::Unsigned(u) => FieldView::Unsigned(u),
        FieldValue::Float64Bits(b) => FieldView::Float64Bits(b),
        FieldValue::Float32Bits(b) => FieldView::Float32Bits(b),
    }
}

pub open spec fn tags_view(ts: Seq<LineTag>) -> Seq<(Seq<char>, Seq<char>)> {
    ts.map_values(|t: LineTag| (t.key@, t.value@))
}

pub open spec fn fields_view(fs: Seq<LineField>) -> Seq<(Seq<char>, FieldView)> {
    fs.map_values(|f: LineField| (f.key@, field_view(f.value)))
}

pub open spec fn system_tags(s: SystemInfo) -> Seq<(Seq<char>, Seq<char>)> {
    seq![("host_name"@, s.host_name@)]
}

pub open spec fn system_fields(s: SystemInfo) -> Seq<(Seq<char>, FieldView)> {
    seq![
        ("name"@, FieldView::Text(s.name@)),
        ("kernel_version"@, FieldView::Text(s.kernel_version@)),
        ("kernel_long_version"@, FieldView::Text(s.kernel_long_version@)),
        ("distribution_id"@, FieldView::Text(s.distribution_id@)),
        ("distribution_id_like"@, FieldView::Text(seq_join(string_views(s.distribution_id_like@), ","@))),
        ("boot_time"@, FieldView::Unsigned(s.boot_time)),
        ("uptime"@, FieldView::Unsigned(s.uptime)),
        ("cpu_arch"@, FieldView::Text(s.cpu_arch@)),
        ("os_version"@, FieldView::Text(s.os_version@)),
        ("load_average_one"@, FieldView::Float64Bits(s.load_average.one_bits)),
        ("load_average_five"@, FieldView::Float64Bits(s.load_average.five_bits)),
        ("load_average_fifteen"@, FieldView::Float64Bits(s.load_average.fifteen_bits)),
    ]
}

pub open spec fn disk_tags(d: DiskInfo) -> Seq<(Seq<char>, Seq<char>)> {
    seq![("name"@, d.name@)]
}

pub open spec fn disk_fields(d: DiskInfo) -> Seq<(Seq<char>, FieldView)> {
    seq![
        ("file_system"@, FieldView::Text(d.file_system@)),
        ("kind"@, FieldView::Text(d.kind@)),
        ("total_space"@, FieldView::Unsigned(d.total_space)),
        ("available_space"@, FieldView::Unsigned(d.available_space)),
    ]
}

pub open spec fn network_tags(n: NetworkInfo) -> Seq<(Seq<char>, Seq<char>)> {
    seq![("interface_name"@, n.interface_name@)]
}

pub open spec fn network_fields(n: NetworkInfo) -> Seq<(Seq<char>, FieldView)> {
    seq![
        ("total_rx_bytes"@, FieldView::Unsigned(n.total_rx_bytes)),
        ("total_rx_packets"@, FieldView::Unsigned(n.total_rx_packets)),
        ("total_rx_errors"@, FieldView::Unsigned(n.total_rx_errors)),
        ("total_tx_bytes"@, FieldView::Unsigned(n.total_tx_bytes)),
        ("total_tx_packets"@, FieldView::Unsigned(n.total_tx_packets)),
        ("total_tx_errors"@, FieldView::Unsigned(n.total_tx_errors)),
    ]
}

pub open spec fn cpu_fields(c: CpuListInfo) -> Seq<(Seq<char>, FieldView)> {
    seq![
        ("global_cpu_usage"@, FieldView::Float64Bits(c.global_cpu_usage_bits)),
        ("threads"@, FieldView::Unsigned(c.threads as u64)),
        ("physical_core_count"@, FieldView::Unsigned(c.physical_core_count as u64)),
    ]
}

pub open spec fn core_tags(c: CpuThreadInfo) -> Seq<(Seq<char>, Seq<char>)> {
    seq![("os_name"@, c.os_name@)]
}

pub open spec fn core_fields(c: CpuThreadInfo) -> Seq<(Seq<char>, FieldView)> {
    seq![
        ("frequency"@, FieldView::Unsigned(c.frequency)),
        ("cpu_usage"@, FieldView::Float32Bits(c.cpu_usage_bits)),
    ]
}

pub open spec fn memory_fields(m: MemoryInfo) -> Seq<(Seq<char>, FieldView)> {
    seq![
        ("total_memory"@, FieldView::Unsigned(m.total_memory)),
        ("used_memory"@, FieldView::Unsigned(m.used_memory)),
        ("free_memory"@, FieldView::Unsigned(m.free_memory)),
        ("available_memory"@, FieldView::Unsigned(m.available_memory)),
        ("total_swap"@, FieldView::Unsigned(m.total_swap)),
        ("used_swap"@, FieldView::Unsigned(m.used_swap)),
        ("free_swap"@, FieldView::Unsigned(m.free_swap)),
    ]
}

pub open spec fn component_tags(c: ComponentInfo) -> Seq<(Seq<char>, Seq<char>)> {
    seq![("id"@, c.id@), ("name"@, c.name@)]
}

pub open spec fn component_fields(c: ComponentInfo) -> Seq<(Seq<char>, FieldView)> {
    seq![
        ("temp"@, FieldView::Float32Bits(c.temp_bits)),
        ("critical_temp"@, FieldView::Float32Bits(c.critical_temp_bits)),
        ("max_temp"@, FieldView::Float32Bits(c.max_temp_bits)),
    ]
}

pub open spec fn process_tags(p: ProcessInfo) -> Seq<(Seq<char>, Seq<char>)> {
    seq![("name"@, p.name@), ("program_id"@, p.program_id@)]
}

pub open spec fn process_fields(p: ProcessInfo) -> Seq<(Seq<char>, FieldView)> {
    seq![
        ("status"@, FieldView::Text(p.status@)),
        ("global_cpu_usage"@, FieldView::Float32Bits(p.global_cpu_usage_bits)),
        ("cpu_usage_per_thread"@, FieldView::Float32Bits(p.cpu_usage_per_thread_bits)),
        ("memory_usage"@, FieldView::Unsigned(p.memory_usage)),
        ("virtual_memory"@, FieldView::Unsigned(p.virtual_memory)),
        ("run_time"@, FieldView::Unsigned(p.run_time)),
        ("start_time"@, FieldView::Unsigned(p.start_time)),
        ("read_bytes"@, FieldView::Unsigned(p.disk_usage.read_bytes)),
        ("written_bytes"@, FieldView::Unsigned(p.disk_usage.written_bytes)),
        ("total_read_bytes"@, FieldView::Unsigned(p.disk_usage.total_read_bytes)),
        ("total_written_bytes"@, FieldView::Unsigned(p.disk_usage.total_written_bytes)),
        ("user_id"@, FieldView::Text(p.user_id@)),
        ("group_id"@, FieldView::Text(p.group_id@)),
    ]
}

/// The record that a line renders is in the report.
pub open spec fn record_in_report(m: ServerMetrics, r: LineRecord) -> bool {
    match r {
        LineRecord::System => m.system is Some,
        LineRecord::Disk => m.disk is Some,
        LineRecord::Network => m.network is Some,
        LineRecord::Cpu => m.cpu is Some,
        LineRecord::CpuCore(i) => m.cpu matches Some(c) && i < c.cpu_cores@.len(),
        LineRecord::Memory => m.memory is Some,
        LineRecord::Component(i) => m.components matches Some(c) && i < c.components@.len(),
        LineRecord::Process(i) => m.process_list matches Some(p) && i < p.process_list@.len(),
        LineRecord::ExporterProcess => m.process_list matches Some(p) && p.exporter_metrics is Some,
    }
}

/// Every record of `s` is in the report.
pub open spec fn all_in_report(m: ServerMetrics, s: Seq<LineRecord>) -> bool {
    forall|i: int| 0 <= i < s.len() ==> record_in_report(m, #[trigger] s[i])
}

proof fn lemma_all_in_concat(m: ServerMetrics, a: Seq<LineRecord>, b: Seq<LineRecord>)
    requires
        all_in_report(m, a),
        all_in_report(m, b),
    ensures
        all_in_report(m, a + b),
{
    assert forall|i: int| 0 <= i < (a + b).len() implies record_in_report(m, #[trigger] (a + b)[i]) by {
        if i < a.len() {
            assert((a + b)[i] == a[i]);
        } else {
            assert((a + b)[i] == b[i - a.len()]);
        }
    }
}

proof fn lemma_parts_in_report(m: ServerMetrics)
    ensures
        all_in_report(m, system_part(m)),
        all_in_report(m, disk_part(m)),
        all_in_report(m, network_part(m)),
        all_in_report(m, cpu_part(m)),
        all_in_report(m, memory_part(m)),
        all_in_report(m, component_part(m)),
        all_in_report(m, process_part(m)),
{
    if let Some(c) = m.cpu {
        let n = c.cpu_cores@.len();
        let s = seq![LineRecord::Cpu] + core_lines(n);
        assert forall|i: int| 0 <= i < s.len() implies record_in_report(m, #[trigger] s[i]) by {
            if i > 0 {
                assert(s[i] == core_lines(n)[i - 1]);
                assert(core_lines(n)[i - 1] == LineRecord::CpuCore((i - 1) as usize));
            }
        }
    }
    if let Some(c) = m.components {
        let n = c.components@.len();
        assert forall|i: int| 0 <= i < n implies record_in_report(m, #[trigger] component_lines(n)[i]) by {
            assert(component_lines(n)[i] == LineRecord::Component(i as usize));
        }
    }
    if let Some(p) = m.process_list {
        let n = p.process_list@.len();
        let tail = if p.exporter_metrics is Some {
            seq![LineRecord::ExporterProcess]
        } else {
            seq![]
        };
        assert forall|i: int| 0 <= i < n implies record_in_report(m, #[trigger] process_lines(n)[i]) by {
            assert(process_lines(n)[i] == LineRecord::Process(i as usize));
        }
        assert(all_in_report(m, tail));
        lemma_all_in_concat(m, process_lines(n), tail);
    }
}

/// Every line that the plan of a report lists renders a record of that
/// report.
pub proof fn lemma_plan_lines_are_in_report(m: ServerMetrics)
    ensures
        all_in_report(m, line_plan(m)),
{
    lemma_parts_in_report(m);
    lemma_all_in_concat(m, system_part(m), disk_part(m));
    lemma_all_in_concat(m, system_part(m) + disk_part(m), network_part(m));
    lemma_all_in_concat(m, system_part(m) + disk_part(m) + network_part(m), cpu_part(m));
    lemma_all_in_concat(
        m,
        system_part(m) + disk_part(m) + network_part(m) + cpu_part(m),
        memory_part(m),
    );
    lemma_all_in_concat(
        m,
        system_part(m) + disk_part(m) + network_part(m) + cpu_part(m) + memory_part(m),
        component_part(m),
    );
    lemma_all_in_concat(
        m,
        system_part(m) + disk_part(m) + network_part(m) + cpu_part(m) + memory_part(m)
            + component_part(m),
        process_part(m),
    );
}

/// The tags of a line.
pub open spec fn line_tags(m: ServerMetrics, r: LineRecord) -> Seq<(Seq<char>, Seq<char>)> {
    match r {
        LineRecord::System => system_tags(m.system->0),
        LineRecord::Disk => disk_tags(m.disk->0),
        LineRecord::Network => network_tags(m.network->0),
        LineRecord::Cpu => seq![],
        LineRecord::CpuCore(i) => core_tags(m.cpu->0.cpu_cores@[i as int]),
        LineRecord::Memory => seq![],
        LineRecord::Component(i) => component_tags(m.components->0.components@[i as int]),
        LineRecord::Process(i) => process_tags(m.process_list->0.process_list@[i as int]),
        LineRecord::ExporterProcess => process_tags(m.process_list->0.exporter_metrics->0),
    }
}

/// The fields of a line.
pub open spec fn line_fields(m: ServerMetrics, r: LineRecord) -> Seq<(Seq<char>, FieldView)> {
    match r {
        LineRecord::System => system_fields(m.system->0),
        LineRecord::Disk => disk_fields(m.disk->0),
        LineRecord::Network => network_fields(m.network->0),
        LineRecord::Cpu => cpu_fields(m.cpu->0),
        LineRecord::CpuCore(i) => core_fields(m.cpu->0.cpu_cores@[i as int]),
        LineRecord::Memory => memory_fields(m.memory->0),
        LineRecord::Component(i) => component_fields(m.components->0.components@[i as int]),
        LineRecord::Process(i) => process_fields(m.process_list->0.process_list@[i as int]),
        LineRecord::ExporterProcess => process_fields(m.process_list->0.exporter_metrics->0),
    }
}

fn tag(key: &str, value: &String) -> (t: LineTag)
    ensures
        t.key@ == key@,
        t.value@ == value@,
{
    LineTag { key: String::from_str(key), value: value.clone() }
}

fn text_field(key: &str, value: &String) -> (f: LineField)
    ensures
        f.key@ == key@,
        field_view(f.value) == FieldView::Text(value@),
{
    LineField { key: String::from_str(key), value: FieldValue::Text(value.clone()) }
}

fn unsigned_field(key: &str, value: u64) -> (f: LineField)
    ensures
        f.key@ == key@,
        field_view(f.value) == FieldView::Unsigned(value),
{
    LineField { key: String::from_str(key), value: FieldValue::Unsigned(value) }
}

fn f64_field(key: &str, bits: u64) -> (f: LineField)
    ensures
        f.key@ == key@,
        field_view(f.value) == FieldView::Float64Bits(bits),
{
    LineField { key: String::from_str(key), value: FieldValue::Float64Bits(bits) }
}

fn f32_field(key: &str, bits: u32) -> (f: LineField)
    ensures
        f.key@ == key@,
        field_view(f.value) == FieldView::Float32Bits(bits),
{
    LineField { key: String::from_str(key), value: FieldValue::Float32Bits(bits) }
}

fn system_content(s: &SystemInfo) -> (r: (Vec<LineTag>, Vec<LineField>))
    ensures
        tags_view(r.0@) == system_tags(*s),
        fields_view(r.1@) == system_fields(*s),
{
    let mut tags: Vec<LineTag> = Vec::new();
    tags.push(tag("host_name", &s.host_name));
    let mut fields: Vec<LineField> = Vec::new();
    fields.push(text_field("name", &s.name));
    fields.push(text_field("kernel_version", &s.kernel_version));
    fields.push(text_field("kernel_long_version", &s.kernel_long_version));
    fields.push(text_field("distribution_id", &s.distribution_id));
    let like = join(&s.distribution_id_like, ",");
    fields.push(text_field("distribution_id_like", &like));
    fields.push(unsigned_field("boot_time", s.boot_time));
    fields.push(unsigned_field("uptime", s.uptime));
    fields.push(text_field("cpu_arch", &s.cpu_arch));
    fields.push(text_field("os_version", &s.os_version));
    fields.push(f64_field("load_average_one", s.load_average.one_bits));
    fields.push(f64_field("load_average_five", s.load_average.five_bits));
    fields.push(f64_field("load_average_fifteen", s.load_average.fifteen_bits));
    proof {
        assert(tags_view(tags@) =~= system_tags(*s));
        assert(fields_view(fields@) =~= system_fields(*s));
    }
    (tags, fields)
}

fn disk_content(d: &DiskInfo) -> (r: (Vec<LineTag>, Vec<LineField>))
    ensures
        tags_view(r.0@) == disk_tags(*d),
        fields_view(r.1@) == disk_fields(*d),
{
    let mut tags: Vec<LineTag> = Vec::new();
    tags.push(tag("name", &d.name));
    let mut fields: Vec<LineField> = Vec::new();
    fields.push(text_field("file_system", &d.file_system));
    fields.push(text_field("kind", &d.kind));
    fields.push(unsigned_field("total_space", d.total_space));
    fields.push(unsigned_field("available_space", d.available_space));
    proof {
        assert(tags_view(tags@) =~= disk_tags(*d));
        assert(fields_view(fields@) =~= disk_fields(*d));
    }
    (tags, fields)
}

fn network_content(n: &NetworkInfo) -> (r: (Vec<LineTag>, Vec<LineField>))
    ensures
        tags_view(r.0@) == network_tags(*n),
        fields_view(r.1@) == network_fields(*n),
{
    let mut tags: Vec<LineTag> = Vec::new();
    tags.push(tag("interface_name", &n.interface_name));
    let mut fields: Vec<LineField> = Vec::new();
    fields.push(unsigned_field("total_rx_bytes", n.total_rx_bytes));
    fields.push(unsigned_field("total_rx_packets", n.total_rx_packets));
    fields.push(unsigned_field("total_rx_errors", n.total_rx_errors));
    fields.push(unsigned_field("total_tx_bytes", n.total_tx_bytes));
    fields.push(unsigned_field("total_tx_packets", n.total_tx_packets));
    fields.push(unsigned_field("total_tx_errors", n.total_tx_errors));
    proof {
        assert(tags_view(tags@) =~= network_tags(*n));
        assert(fields_view(fields@) =~= network_fields(*n));
    }
    (tags, fields)
}

fn cpu_content(c: &CpuListInfo) -> (r: (Vec<LineTag>, Vec<LineField>))
    ensures
        tags_view(r.0@) == Seq::<(Seq<char>, Seq<char>)>::empty(),
        fields_view(r.1@) == cpu_fields(*c),
{
    let tags: Vec<LineTag> = Vec::new();
    let mut fields: Vec<LineField> = Vec::new();
    fields.push(f64_field("global_cpu_usage", c.global_cpu_usage_bits));
    fields.push(unsigned_field("threads", c.threads as u64));
    fields.push(unsigned_field("physical_core_count", c.physical_core_count as u64));
    proof {
        assert(tags_view(tags@) =~= Seq::<(Seq<char>, Seq<char>)>::empty());
        assert(fields_view(fields@) =~= cpu_fields(*c));
    }
    (tags, fields)
}

fn core_content(c: &CpuThreadInfo) -> (r: (Vec<LineTag>, Vec<LineField>))
    ensures
        tags_view(r.0@) == core_tags(*c),
        fields_view(r.1@) == core_fields(*c),
{
    let mut tags: Vec<LineTag> = Vec::new();
    tags.push(tag("os_name", &c.os_name));
    let mut fields: Vec<LineField> = Vec::new();
    fields.push(unsigned_field("frequency", c.frequency));
    fields.push(f32_field("cpu_usage", c.cpu_usage_bits));
    proof {
        assert(tags_view(tags@) =~= core_tags(*c));
        assert(fields_view(fields@) =~= core_fields(*c));
    }
    (tags, fields)
}

fn memory_content(m: &MemoryInfo) -> (r: (Vec<LineTag>, Vec<LineField>))
    ensures
        tags_view(r.0@) == Seq::<(Seq<char>, Seq<char>)>::empty(),
        fields_view(r.1@) == memory_fields(*m),
{
    let tags: Vec<LineTag> = Vec::new();
    let mut fields: Vec<LineField> = Vec::new();
    fields.push(unsigned_field("total_memory", m.total_memory));
    fields.push(unsigned_field("used_memory", m.used_memory));
    fields.push(unsigned_field("free_memory", m.free_memory));
    fields.push(unsigned_field("available_memory", m.available_memory));
    fields.push(unsigned_field("total_swap", m.total_swap));
    fields.push(unsigned_field("used_swap", m.used_swap));
    fields.push(unsigned_field("free_swap", m.free_swap));
    proof {
        assert(tags_view(tags@) =~= Seq::<(Seq<char>, Seq<char>)>::empty());
        assert(fields_view(fields@) =~= memory_fields(*m));
    }
    (tags, fields)
}

fn component_content(c: &ComponentInfo) -> (r: (Vec<LineTag>, Vec<LineField>))
    ensures
        tags_view(r.0@) == component_tags(*c),
        fields_view(r.1@) == component_fields(*c),
{
    let mut tags: Vec<LineTag> = Vec::new();
    tags.push(tag("id", &c.id));
    tags.push(tag("name", &c.name));
    let mut fields: Vec<LineField> = Vec::new();
    fields.push(f32_field("temp", c.temp_bits));
    fields.push(f32_field("critical_temp", c.critical_temp_bits));
    fields.push(f32_field("max_temp", c.max_temp_bits));
    proof {
        assert(tags_view(tags@) =~= component_tags(*c));
        assert(fields_view(fields@) =~= component_fields(*c));
    }
    (tags, fields)
}

fn process_content(p: &ProcessInfo) -> (r: (Vec<LineTag>, Vec<LineField>))
    ensures
        tags_view(r.0@) == process_tags(*p),
        fields_view(r.1@) == process_fields(*p),
{
    let mut tags: Vec<LineTag> = Vec::new();
    tags.push(tag("name", &p.name));
    tags.push(tag("program_id", &p.program_id));
    let mut fields: Vec<LineField> = Vec::new();
    fields.push(text_field("status", &p.status));
    fields.push(f32_field("global_cpu_usage", p.global_cpu_usage_bits));
    fields.push(f32_field("cpu_usage_per_thread", p.cpu_usage_per_thread_bits));
    fields.push(unsigned_field("memory_usage", p.memory_usage));
    fields.push(unsigned_field("virtual_memory", p.virtual_memory));
    fields.push(unsigned_field("run_time", p.run_time));
    fields.push(unsigned_field("start_time", p.start_time));
    fields.push(unsigned_field("read_bytes", p.disk_usage.read_bytes));
    fields.push(unsigned_field("written_bytes", p.disk_usage.written_bytes));
    fields.push(unsigned_field("total_read_bytes", p.disk_usage.total_read_bytes));
    fields.push(unsigned_field("total_written_bytes", p.disk_usage.total_written_bytes));
    fields.push(text_field("user_id", &p.user_id));
    fields.push(text_field("group_id", &p.group_id));
    proof {
        assert(tags_view(tags@) =~= process_tags(*p));
        assert(fields_view(fields@) =~= process_fields(*p));
    }
    (tags, fields)
}

/// The content of one line of the report: the record's measurement name, its
/// tags and fields, and the report's time stamp.
pub fn line_content(metrics: &ServerMetrics, record: &LineRecord) -> (c: LineContent)
    requires
        record_in_report(*metrics, *record),
    ensures
        c.measurement@ == measurement(*record),
        tags_view(c.tags@) == line_tags(*metrics, *record),
        fields_view(c.fields@) == line_fields(*metrics, *record),
        c.time == metrics.time,
{
    let (tags, fields) = match record {
        LineRecord::System => system_content(metrics.system.as_ref().unwrap()),
        LineRecord::Disk => disk_content(metrics.disk.as_ref().unwrap()),
        LineRecord::Network => network_content(metrics.network.as_ref().unwrap()),
        LineRecord::Cpu => cpu_content(metrics.cpu.as_ref().unwrap()),
        LineRecord::CpuCore(i) => core_content(&metrics.cpu.as_ref().unwrap().cpu_cores[*i]),
        LineRecord::Memory => memory_content(metrics.memory.as_ref().unwrap()),
        LineRecord::Component(i) => component_content(
            &metrics.components.as_ref().unwrap().components[*i],
        ),
        LineRecord::Process(i) => process_content(
            &metrics.process_list.as_ref().unwrap().process_list[*i],
        ),
        LineRecord::ExporterProcess => process_content(
            metrics.process_list.as_ref().unwrap().exporter_metrics.as_ref().unwrap(),
        ),
    };
    LineContent { measurement: record.measurement_name(), tags, fields, time: metrics.time }
}

} // verus!
