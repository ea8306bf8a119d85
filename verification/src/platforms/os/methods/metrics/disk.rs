//! Mounted file systems.
use crate::metric_types::{StorageListInfo, StorageMountPointInfo};
use vstd::prelude::*;

verus! {

/// What the operating system reports of one mounted file system.
#[derive(Debug)]
pub struct DiskReading {
    pub name: String,
    pub file_system: String,
    pub kind: String,
    pub mount_point: String,
    pub total_space: u64,
    pub available_space: u64,
}

/// The record that a disk reading becomes.
pub open spec fn mount_point_from_reading(m: StorageMountPointInfo, r: DiskReading) -> bool {
    &&& m.name@ == r.name@
    &&& m.file_system@ == r.file_system@
    &&& m.kind@ == r.kind@
    &&& m.mount_point@ == r.mount_point@
    &&& m.total_space == r.total_space
    &&& m.available_space == r.available_space
}

/// Appends one record per mounted file system.
pub fn collect_storage_list_metrics(disks: &Vec<DiskReading>, disk_buffer: &mut StorageListInfo)
    ensures
        final(disk_buffer).storage_list@.len() == old(disk_buffer).storage_list@.len()
            + disks@.len(),
        final(disk_buffer).storage_list@.subrange(0, old(disk_buffer).storage_list@.len() as int)
            == old(disk_buffer).storage_list@,
        forall|i: int|
            0 <= i < disks@.len() ==> mount_point_from_reading(
                #[trigger] final(disk_buffer).storage_list@[old(disk_buffer).storage_list@.len()
                    + i],
                disks@[i],
            ),
{
    let ghost start = disk_buffer.storage_list@;
    let mut i: usize = 0;
    while i < disks.len()
        invariant
            0 <= i <= disks@.len(),
            disk_buffer.storage_list@.len() == start.len() + i,
            disk_buffer.storage_list@.subrange(0, start.len() as int) == start,
            forall|j: int|
                0 <= j < i ==> mount_point_from_reading(
                    #[trigger] disk_buffer.storage_list@[start.len() + j],
                    disks@[j],
                ),
        decreases disks@.len() - i,
    {
        let d = &disks[i];
        disk_buffer.storage_list.push(
            StorageMountPointInfo {
                name: d.name.clone(),
                file_system: d.file_system.clone(),
                kind: d.kind.clone(),
                mount_point: d.mount_point.clone(),
                total_space: d.total_space,
                available_space: d.available_space,
            },
        );
        proof {
            assert(disk_buffer.storage_list@.subrange(0, start.len() as int) =~= start);
        }
        i = i + 1;
    }
}

} // verus!
