//! General facts about the operating system.
use crate::metric_types::{LoadAverage, SystemInfo, DEFAULT_UNKNOWN_MESSAGE};
use vstd::prelude::*;
use vstd::string::*;

verus! {

/// What the operating system reports of itself; a name it may not know is
/// absent.
#[derive(Debug)]
pub struct SystemReading {
    pub name: Option<String>,
    pub kernel_version: Option<String>,
    pub os_version: Option<String>,
    pub host_name: Option<String>,
    pub kernel_long_version: String,
    pub cpu_arch: String,
    pub distribution_id: String,
    pub distribution_id_like: Vec<String>,
    pub boot_time: u64,
    pub uptime: u64,
    pub load_average: LoadAverage,
}

/// A name that is not reported reads as unknown.
pub open spec fn or_unknown(s: Option<String>) -> Seq<char> {
    match s {
        Some(v) => v@,
        None => DEFAULT_UNKNOWN_MESSAGE@,
    }
}

fn append_or_unknown(buffer: &mut String, value: &Option<String>)
    ensures
        final(buffer)@ == old(buffer)@ + or_unknown(*value),
{
    match value {
        Some(v) => buffer.append(v.as_str()),
        None => buffer.append(DEFAULT_UNKNOWN_MESSAGE),
    }
}

/// Appends a copy of each item, in order.
pub fn append_all(list: &mut Vec<String>, items: &Vec<String>)
    ensures
        final(list)@.len() == old(list)@.len() + items@.len(),
        final(list)@.subrange(0, old(list)@.len() as int) == old(list)@,
        forall|i: int|
            0 <= i < items@.len() ==> (#[trigger] final(list)@[old(list)@.len() + i])@
                == items@[i]@,
{
    let ghost start = list@;
    let mut i: usize = 0;
    while i < items.len()
        invariant
            0 <= i <= items@.len(),
            list@.len() == start.len() + i,
            list@.subrange(0, start.len() as int) == start,
            forall|j: int| 0 <= j < i ==> (#[trigger] list@[start.len() + j])@ == items@[j]@,
        decreases items@.len() - i,
    {
        list.push(items[i].clone());
        proof {
            assert(list@.subrange(0, start.len() as int) =~= start);
        }
        i = i + 1;
    }
}

/// Appends the operating system's names to the record, appends each parent
/// distribution as an entry of its own, and records the times and load
/// averages.
pub fn collect_system_metrics(sys: &SystemReading, system_metrics_buffer: &mut SystemInfo)
    ensures
        final(system_metrics_buffer).name@ == old(system_metrics_buffer).name@ + or_unknown(
            sys.name,
        ),
        final(system_metrics_buffer).kernel_version@ == old(system_metrics_buffer).kernel_version@
            + or_unknown(sys.kernel_version),
        final(system_metrics_buffer).os_version@ == old(system_metrics_buffer).os_version@
            + or_unknown(sys.os_version),
        final(system_metrics_buffer).host_name@ == old(system_metrics_buffer).host_name@
            + or_unknown(sys.host_name),
        final(system_metrics_buffer).kernel_long_version@ == old(
            system_metrics_buffer,
        ).kernel_long_version@ + sys.kernel_long_version@,
        final(system_metrics_buffer).cpu_arch@ == old(system_metrics_buffer).cpu_arch@
            + sys.cpu_arch@,
        final(system_metrics_buffer).distribution_id@ == old(system_metrics_buffer).distribution_id@
            + sys.distribution_id@,
        final(system_metrics_buffer).distribution_id_like@.len() == old(
            system_metrics_buffer,
        ).distribution_id_like@.len() + sys.distribution_id_like@.len(),
        final(system_metrics_buffer).distribution_id_like@.subrange(
            0,
            old(system_metrics_buffer).distribution_id_like@.len() as int,
        ) == old(system_metrics_buffer).distribution_id_like@,
        forall|i: int|
            #![trigger final(system_metrics_buffer).distribution_id_like@[old(system_metrics_buffer).distribution_id_like@.len() + i]]
            0 <= i < sys.distribution_id_like@.len() ==> final(system_metrics_buffer).distribution_id_like@[old(system_metrics_buffer).distribution_id_like@.len() + i]@
                == sys.distribution_id_like@[i]@,
        final(system_metrics_buffer).boot_time == sys.boot_time,
        final(system_metrics_buffer).uptime == sys.uptime,
        final(system_metrics_buffer).load_average == sys.load_average,
{
    append_or_unknown(&mut system_metrics_buffer.name, &sys.name);
    append_or_unknown(&mut system_metrics_buffer.kernel_version, &sys.kernel_version);
    append_or_unknown(&mut system_metrics_buffer.os_version, &sys.os_version);
    append_or_unknown(&mut system_metrics_buffer.host_name, &sys.host_name);
    system_metrics_buffer.kernel_long_version.append(sys.kernel_long_version.as_str());
    system_metrics_buffer.cpu_arch.append(sys.cpu_arch.as_str());
    system_metrics_buffer.distribution_id.append(sys.distribution_id.as_str());
    append_all(&mut system_metrics_buffer.distribution_id_like, &sys.distribution_id_like);
    system_metrics_buffer.boot_time = sys.boot_time;
    system_metrics_buffer.uptime = sys.uptime;
    system_metrics_buffer.load_average = sys.load_average;
}

} // verus!
