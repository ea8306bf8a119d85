//! Which line-protocol lines a report becomes, in which order, and under
//! which measurement names.
use crate::metric_types::ServerMetrics;
use vstd::prelude::*;
use vstd::string::*;

verus! {

/// One line of a report: the record it renders, each list entry by its
/// position in the list.
#[derive(Debug, Clone, Copy, PartialEq, Eq)]
pub enum LineRecord {
    System,
    Disk,
    Network,
    Cpu,
    CpuCore(usize),
    Memory,
    Component(usize),
    Process(usize),
    ExporterProcess,
}

/// The measurement name under which a record is written.
pub open spec fn measurement(r: LineRecord) -> Seq<char> {
    match r {
        LineRecord::System => "metrics_system"@,
        LineRecord::Disk => "metrics_storage_mount_point"@,
        LineRecord::Network => "metrics_network"@,
        LineRecord::Cpu => "metrics_cpu"@,
        LineRecord::CpuCore(_) => "metrics_cpu_cores"@,
        LineRecord::Memory => "metrics_memory"@,
        LineRecord::Component(_) => "metrics_component_list"@,
        LineRecord::Process(_) => "metrics_process_list"@,
        LineRecord::ExporterProcess => "metrics_exporter_monitoring"@,
    }
}

impl LineRecord {
    /// The measurement name of the record.
    pub fn measurement_name(&self) -> (r: String)
        ensures
            r@ == measurement(*self),
    {
        match self {
            LineRecord::System => String::from_str("metrics_system"),
            LineRecord::Disk => String::from_str("metrics_storage_mount_point"),
            LineRecord::Network => String::from_str("metrics_network"),
            LineRecord::Cpu => String::from_str("metrics_cpu"),
            LineRecord::CpuCore(_) => String::from_str("metrics_cpu_cores"),
            LineRecord::Memory => String::from_str("metrics_memory"),
            LineRecord::Component(_) => String::from_str("metrics_component_list"),
            LineRecord::Process(_) => String::from_str("metrics_process_list"),
            LineRecord::ExporterProcess => String::from_str("metrics_exporter_monitoring"),
        }
    }
}

pub open spec fn core_lines(n: nat) -> Seq<LineRecord> {
    Seq::new(n, |i: int| LineRecord::CpuCore(i as usize))
}

pub open spec fn component_lines(n: nat) -> Seq<LineRecord> {
    Seq::new(n, |i: int| LineRecord::Component(i as usize))
}

pub open spec fn process_lines(n: nat) -> Seq<LineRecord> {
    Seq::new(n, |i: int| LineRecord::Process(i as usize))
}

pub open spec fn system_part(m: ServerMetrics) -> Seq<LineRecord> {
    if m.system is Some {
        seq![LineRecord::System]
    } else {
        seq![]
    }
}

pub open spec fn disk_part(m: ServerMetrics) -> Seq<LineRecord> {
    if m.disk is Some {
        seq![LineRecord::Disk]
    } else {
        seq![]
    }
}

pub open spec fn network_part(m: ServerMetrics) -> Seq<LineRecord> {
    if m.network is Some {
        seq![LineRecord::Network]
    } else {
        seq![]
    }
}

pub open spec fn cpu_part(m: ServerMetrics) -> Seq<LineRecord> {
    match m.cpu {
        Some(c) => seq![LineRecord::Cpu] + core_lines(c.cpu_cores@.len()),
        None => seq![],
    }
}

pub open spec fn memory_part(m: ServerMetrics) -> Seq<LineRecord> {
    if m.memory is Some {
        seq![LineRecord::Memory]
    } else {
        seq![]
    }
}

pub open spec fn component_part(m: ServerMetrics) -> Seq<LineRecord> {
    match m.components {
        Some(c) => component_lines(c.components@.len()),
        None => seq![],
    }
}

pub open spec fn process_part(m: ServerMetrics) -> Seq<LineRecord> {
    match m.process_list {
        Some(p) => process_lines(p.process_list@.len()) + (if p.exporter_metrics is Some {
            seq![LineRecord::ExporterProcess]
        } else {
            seq![]
        }),
        None => seq![],
    }
}

/// The lines of a report: the system record, the main disk, the
/// network record, the CPU record and then each CPU, the memory record, each
/// sensor, each listed process and last the exporter's own process; a
/// category that the report lacks contributes nothing.
pub open spec fn line_plan(m: ServerMetrics) -> Seq<LineRecord> {
    system_part(m) + disk_part(m) + network_part(m) + cpu_part(m) + memory_part(m)
        + component_part(m) + process_part(m)
}

/// Every listed entry of a report gets its own line: each CPU, each sensor
/// and each listed process of the report appears in the plan, and every such
/// line names an entry that the report has.
pub proof fn lemma_every_entry_has_a_line(m: ServerMetrics)
    ensures
        m.cpu matches Some(c) ==> forall|i: int|
            0 <= i < c.cpu_cores@.len() ==> #[trigger] line_plan(m).contains(
                LineRecord::CpuCore(i as usize),
            ),
        m.components matches Some(c) ==> forall|i: int|
            0 <= i < c.components@.len() ==> #[trigger] line_plan(m).contains(
                LineRecord::Component(i as usize),
            ),
        m.process_list matches Some(p) ==> forall|i: int|
            0 <= i < p.process_list@.len() ==> #[trigger] line_plan(m).contains(
                LineRecord::Process(i as usize),
            ),
        forall|k: int|
            0 <= k < line_plan(m).len() ==> match #[trigger] line_plan(m)[k] {
                LineRecord::CpuCore(i) => m.cpu matches Some(c) && i < c.cpu_cores@.len(),
                LineRecord::Component(i) => m.components matches Some(c) && i < c.components@.len(),
                LineRecord::Process(i) => m.process_list matches Some(p) && i
                    < p.process_list@.len(),
                _ => true,
            },
{
    let a = system_part(m) + disk_part(m) + network_part(m);
    let b = a + cpu_part(m) + memory_part(m);
    let c = b + component_part(m);
    assert(line_plan(m) == c + process_part(m));
    if let Some(cp) = m.cpu {
        assert forall|i: int| 0 <= i < cp.cpu_cores@.len() implies #[trigger] line_plan(m).contains(
            LineRecord::CpuCore(i as usize),
        ) by {
            assert(line_plan(m)[a.len() + 1 + i] == LineRecord::CpuCore(i as usize));
        }
    }
    if let Some(co) = m.components {
        assert forall|i: int| 0 <= i < co.components@.len() implies #[trigger] line_plan(m).contains(
            LineRecord::Component(i as usize),
        ) by {
            assert(line_plan(m)[b.len() + i] == LineRecord::Component(i as usize));
        }
    }
    if let Some(p) = m.process_list {
        assert forall|i: int| 0 <= i < p.process_list@.len() implies #[trigger] line_plan(m).contains(
            LineRecord::Process(i as usize),
        ) by {
            assert(line_plan(m)[c.len() + i] == LineRecord::Process(i as usize));
        }
    }
    assert forall|k: int| 0 <= k < line_plan(m).len() implies match #[trigger] line_plan(m)[k] {
        LineRecord::CpuCore(i) => m.cpu matches Some(c) && i < c.cpu_cores@.len(),
        LineRecord::Component(i) => m.components matches Some(c) && i < c.components@.len(),
        LineRecord::Process(i) => m.process_list matches Some(p) && i < p.process_list@.len(),
        _ => true,
    } by {
        if k < a.len() {
        } else if k < a.len() + cpu_part(m).len() {
            if m.cpu is Some && k > a.len() {
                assert(line_plan(m)[k] == cpu_part(m)[k - a.len()]);
            }
        } else if k < b.len() {
        } else if k < c.len() {
            assert(line_plan(m)[k] == component_part(m)[k - b.len()]);
        } else {
            assert(line_plan(m)[k] == process_part(m)[k - c.len()]);
        }
    }
}

fn push_core_lines(out: &mut Vec<LineRecord>, n: usize)
    ensures
        final(out)@ == old(out)@ + core_lines(n as nat),
{
    let ghost start = out@;
    let mut i: usize = 0;
    while i < n
        invariant
            0 <= i <= n,
            out@ == start + core_lines(i as nat),
        decreases n - i,
    {
        out.push(LineRecord::CpuCore(i));
        proof {
            assert(core_lines((i + 1) as nat) =~= core_lines(i as nat).push(LineRecord::CpuCore(i)));
        }
        i = i + 1;
    }
}

fn push_component_lines(out: &mut Vec<LineRecord>, n: usize)
    ensures
        final(out)@ == old(out)@ + component_lines(n as nat),
{
    let ghost start = out@;
    let mut i: usize = 0;
    while i < n
        invariant
            0 <= i <= n,
            out@ == start + component_lines(i as nat),
        decreases n - i,
    {
        out.push(LineRecord::Component(i));
        proof {
            assert(component_lines((i + 1) as nat) =~= component_lines(i as nat).push(
                LineRecord::Component(i),
            ));
        }
        i = i + 1;
    }
}

fn push_process_lines(out: &mut Vec<LineRecord>, n: usize)
    ensures
        final(out)@ == old(out)@ + process_lines(n as nat),
{
    let ghost start = out@;
    let mut i: usize = 0;
    while i < n
        invariant
            0 <= i <= n,
            out@ == start + process_lines(i as nat),
        decreases n - i,
    {
        out.push(LineRecord::Process(i));
        proof {
            assert(process_lines((i + 1) as nat) =~= process_lines(i as nat).push(
                LineRecord::Process(i),
            ));
        }
        i = i + 1;
    }
}

fn push_system_part(out: &mut Vec<LineRecord>, metrics: &ServerMetrics)
    ensures
        final(out)@ == old(out)@ + system_part(*metrics),
{
    if metrics.system.is_some() {
        out.push(LineRecord::System);
    }
    proof {
        assert(final(out)@ =~= old(out)@ + system_part(*metrics));
    }
}

fn push_disk_part(out: &mut Vec<LineRecord>, metrics: &ServerMetrics)
    ensures
        final(out)@ == old(out)@ + disk_part(*metrics),
{
    if metrics.disk.is_some() {
        out.push(LineRecord::Disk);
    }
    proof {
        assert(final(out)@ =~= old(out)@ + disk_part(*metrics));
    }
}

fn push_network_part(out: &mut Vec<LineRecord>, metrics: &ServerMetrics)
    ensures
        final(out)@ == old(out)@ + network_part(*metrics),
{
    if metrics.network.is_some() {
        out.push(LineRecord::Network);
    }
    proof {
        assert(final(out)@ =~= old(out)@ + network_part(*metrics));
    }
}

fn push_cpu_part(out: &mut Vec<LineRecord>, metrics: &ServerMetrics)
    ensures
        final(out)@ == old(out)@ + cpu_part(*metrics),
{
    if let Some(cpu) = &metrics.cpu {
        out.push(LineRecord::Cpu);
        push_core_lines(out, cpu.cpu_cores.len());
    }
    proof {
        assert(final(out)@ =~= old(out)@ + cpu_part(*metrics));
    }
}

fn push_memory_part(out: &mut Vec<LineRecord>, metrics: &ServerMetrics)
    ensures
        final(out)@ == old(out)@ + memory_part(*metrics),
{
    if metrics.memory.is_some() {
        out.push(LineRecord::Memory);
    }
    proof {
        assert(final(out)@ =~= old(out)@ + memory_part(*metrics));
    }
}

fn push_component_part(out: &mut Vec<LineRecord>, metrics: &ServerMetrics)
    ensures
        final(out)@ == old(out)@ + component_part(*metrics),
{
    if let Some(components) = &metrics.components {
        push_component_lines(out, components.components.len());
    }
    proof {
        assert(final(out)@ =~= old(out)@ + component_part(*metrics));
    }
}

fn push_process_part(out: &mut Vec<LineRecord>, metrics: &ServerMetrics)
    ensures
        final(out)@ == old(out)@ + process_part(*metrics),
{
    if let Some(processes) = &metrics.process_list {
        push_process_lines(out, processes.process_list.len());
        if processes.exporter_metrics.is_some() {
            out.push(LineRecord::ExporterProcess);
        }
    }
    proof {
        assert(final(out)@ =~= old(out)@ + process_part(*metrics));
    }
}

/// The lines that a report becomes, in order.
pub fn line_protocol_plan(metrics: &ServerMetrics) -> (r: Vec<LineRecord>)
    ensures
        r@ == line_plan(*metrics),
        metrics.cpu matches Some(c) ==> forall|i: int|
            0 <= i < c.cpu_cores@.len() ==> #[trigger] r@.contains(LineRecord::CpuCore(i as usize)),
        metrics.components matches Some(c) ==> forall|i: int|
            0 <= i < c.components@.len() ==> #[trigger] r@.contains(
                LineRecord::Component(i as usize),
            ),
        metrics.process_list matches Some(p) ==> forall|i: int|
            0 <= i < p.process_list@.len() ==> #[trigger] r@.contains(
                LineRecord::Process(i as usize),
            ),
{
    let mut out: Vec<LineRecord> = Vec::new();
    push_system_part(&mut out, metrics);
    push_disk_part(&mut out, metrics);
    push_network_part(&mut out, metrics);
    push_cpu_part(&mut out, metrics);
    push_memory_part(&mut out, metrics);
    push_component_part(&mut out, metrics);
    push_process_part(&mut out, metrics);
    proof {
        assert(out@ =~= line_plan(*metrics));
        lemma_every_entry_has_a_line(*metrics);
    }
    out
}

} // verus!
