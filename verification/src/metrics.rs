//! Collection into a single chosen disk record, and into a process list that
//! grows.
use crate::metric_types::{DiskInfo, ProcessInfo, DEFAULT_UNKNOWN_MESSAGE};
use crate::paths::{paths_equal, same_path};
use crate::platforms::os::methods::metrics::disk::DiskReading;
use vstd::prelude::*;
use vstd::string::*;

verus! {

/// The first of the first `n` disks mounted at `mount_point`.
pub open spec fn first_disk_at(ds: Seq<DiskReading>, mount_point: Seq<char>, n: int) -> Option<int>
    decreases n,
{
    if n <= 0 {
        None
    } else {
        match first_disk_at(ds, mount_point, n - 1) {
            Some(i) => Some(i),
            None => if same_path(ds[n - 1].mount_point@, mount_point) {
                Some(n - 1)
            } else {
                None
            },
        }
    }
}

/// The disk found is mounted at the mount point and no earlier disk is.
pub proof fn lemma_first_disk_at(ds: Seq<DiskReading>, mount_point: Seq<char>, n: int)
    requires
        0 <= n <= ds.len(),
    ensures
        match first_disk_at(ds, mount_point, n) {
            Some(i) => 0 <= i < n && same_path(ds[i].mount_point@, mount_point) && forall|j: int|
                0 <= j < i ==> !same_path(#[trigger] ds[j].mount_point@, mount_point),
            None => forall|j: int|
                0 <= j < n ==> !same_path(#[trigger] ds[j].mount_point@, mount_point),
        },
    decreases n,
{
    if n > 0 {
        lemma_first_disk_at(ds, mount_point, n - 1);
    }
}

/// Fills the disk record from the first disk mounted at `mount_point`: its
/// names are appended and its sizes recorded; without such a disk the names
/// are marked unknown and the sizes stay.
pub fn collect_disk_metrics(disks: &Vec<DiskReading>, mount_point: &str, disk_buffer: &mut DiskInfo)
    ensures
        match first_disk_at(disks@, mount_point@, disks@.len() as int) {
            Some(i) => {
                &&& final(disk_buffer).name@ == old(disk_buffer).name@ + disks@[i].name@
                &&& final(disk_buffer).file_system@ == old(disk_buffer).file_system@
                    + disks@[i].file_system@
                &&& final(disk_buffer).kind@ == old(disk_buffer).kind@ + disks@[i].kind@
                &&& final(disk_buffer).total_space == disks@[i].total_space
                &&& final(disk_buffer).available_space == disks@[i].available_space
            },
            None => {
                &&& final(disk_buffer).name@ == old(disk_buffer).name@ + DEFAULT_UNKNOWN_MESSAGE@
                &&& final(disk_buffer).file_system@ == old(disk_buffer).file_system@
                    + DEFAULT_UNKNOWN_MESSAGE@
                &&& final(disk_buffer).kind@ == old(disk_buffer).kind@ + DEFAULT_UNKNOWN_MESSAGE@
                &&& final(disk_buffer).total_space == old(disk_buffer).total_space
                &&& final(disk_buffer).available_space == old(disk_buffer).available_space
            },
        },
{
    let mut i: usize = 0;
    while i < disks.len() && !paths_equal(disks[i].mount_point.as_str(), mount_point)
        invariant
            0 <= i <= disks@.len(),
            first_disk_at(disks@, mount_point@, i as int) is None,
        decreases disks@.len() - i,
    {
        i = i + 1;
    }
    let found: Option<usize> = if i < disks.len() {
        proof {
            assert(first_disk_at(disks@, mount_point@, i + 1) == Some(i as int));
            lemma_first_disk_stays(disks@, mount_point@, i + 1, disks@.len() as int);
        }
        Some(i)
    } else {
        None
    };
    match found {
        Some(f) => {
            let disk = &disks[f];
            disk_buffer.name.append(disk.name.as_str());
            disk_buffer.file_system.append(disk.file_system.as_str());
            disk_buffer.kind.append(disk.kind.as_str());
            disk_buffer.total_space = disk.total_space;
            disk_buffer.available_space = disk.available_space;
        },
        None => {
            disk_buffer.name.append(DEFAULT_UNKNOWN_MESSAGE);
            disk_buffer.file_system.append(DEFAULT_UNKNOWN_MESSAGE);
            disk_buffer.kind.append(DEFAULT_UNKNOWN_MESSAGE);
        },
    }
}

/// Once found among the first `m` disks, the first match stays the first
/// among more.
proof fn lemma_first_disk_stays(ds: Seq<DiskReading>, mount_point: Seq<char>, m: int, n: int)
    requires
        0 <= m <= n,
        first_disk_at(ds, mount_point, m) is Some,
    ensures
        first_disk_at(ds, mount_point, n) == first_disk_at(ds, mount_point, m),
    decreases n - m,
{
    if m < n {
        lemma_first_disk_stays(ds, mount_point, m, n - 1);
    }
}

/// Appends the processes read in this cycle to the list.
pub fn collect_process_list_info(processes: Vec<ProcessInfo>, process_list_buffer: &mut Vec<ProcessInfo>)
    ensures
        final(process_list_buffer)@ == old(process_list_buffer)@ + processes@,
{
    let mut processes = processes;
    process_list_buffer.append(&mut processes);
}

} // verus!
