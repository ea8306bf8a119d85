//! The process list: how it is filled, ordered and cut to its limit.
use crate::config::ProcessSortBy;
use crate::metric_types::ProcessInfo;
use std::cmp::Ordering;
use vstd::multiset::*;
use vstd::prelude::*;
use vstd::seq_lib::*;
use vstd::string::*;

verus! {

broadcast use {
    vstd::seq_lib::to_multiset_build,
    vstd::seq_lib::to_multiset_insert,
    vstd::seq_lib::to_multiset_len,
    vstd::seq_lib::group_to_multiset_ensures,
    vstd::multiset::group_multiset_axioms,
};

/// The position of an `f32` bit pattern in IEEE-754 `totalOrder`, the order of
/// `f32::total_cmp`: a pattern without the sign bit ranks by its value, one with
/// the sign bit ranks below every such pattern, the larger its magnitude bits the
/// lower.
pub open spec fn cpu_order_key(bits: u32) -> int {
    if bits < 0x8000_0000 {
        bits as int
    } else {
        -1 - (bits - 0x8000_0000)
    }
}

/// The quantity by which `by` ranks a process: the larger, the earlier.
pub open spec fn sort_key(p: ProcessInfo, by: ProcessSortBy) -> int {
    match by {
        ProcessSortBy::Memory => p.memory_usage as int,
        ProcessSortBy::VirtualMemory => p.virtual_memory as int,
        ProcessSortBy::RunTime => p.run_time as int,
        ProcessSortBy::StartTime => p.start_time as int,
        ProcessSortBy::CpuUsage => cpu_order_key(p.global_cpu_usage_bits),
    }
}

/// Every process ranks at least as high as every process after it.
pub open spec fn sorted_desc(s: Seq<ProcessInfo>, by: ProcessSortBy) -> bool {
    forall|i: int, j: int| 0 <= i < j < s.len() ==> sort_key(s[i], by) >= sort_key(s[j], by)
}

/// `a` ranks at least as high as `b` under `by`, read off the fields: resident
/// memory, virtual memory, run time or start time, the larger the higher; the
/// CPU share in IEEE-754 total order.
pub open spec fn outranks_by_field(a: ProcessInfo, b: ProcessInfo, by: ProcessSortBy) -> bool {
    match by {
        ProcessSortBy::Memory => a.memory_usage >= b.memory_usage,
        ProcessSortBy::VirtualMemory => a.virtual_memory >= b.virtual_memory,
        ProcessSortBy::RunTime => a.run_time >= b.run_time,
        ProcessSortBy::StartTime => a.start_time >= b.start_time,
        ProcessSortBy::CpuUsage => cpu_order_key(a.global_cpu_usage_bits) >= cpu_order_key(
            b.global_cpu_usage_bits,
        ),
    }
}

/// The rank under each criterion is the criterion's own field: ranking at
/// least as high is having at least as much of it.
pub proof fn lemma_rank_is_the_field(a: ProcessInfo, b: ProcessInfo, by: ProcessSortBy)
    ensures
        (sort_key(a, by) >= sort_key(b, by)) == outranks_by_field(a, b, by),
{
}

/// A list sorted under a criterion runs from the most of that criterion's
/// field to the least: by memory, every process uses at least as much
/// resident memory as every later one, and so on for each criterion.
pub proof fn lemma_sorted_by_field(s: Seq<ProcessInfo>, by: ProcessSortBy)
    requires
        sorted_desc(s, by),
    ensures
        forall|i: int, j: int|
            0 <= i < j < s.len() ==> outranks_by_field(#[trigger] s[i], #[trigger] s[j], by),
{
    assert forall|i: int, j: int| 0 <= i < j < s.len() implies outranks_by_field(
        #[trigger] s[i],
        #[trigger] s[j],
        by,
    ) by {
        lemma_rank_is_the_field(s[i], s[j], by);
    }
}

/// The number of processes that a list of `n` keeps under `limit`.
pub open spec fn kept_len(n: nat, limit: nat) -> nat {
    if limit < n {
        limit
    } else {
        n
    }
}

/// The CPU order is a strict total order on bit patterns, as `f32::total_cmp`
/// is: two patterns rank level only when they are equal; among patterns
/// without the sign bit the larger pattern ranks higher, and among patterns
/// with it the larger pattern ranks lower, below every pattern without it.
pub proof fn lemma_cpu_order_total(a: u32, b: u32)
    ensures
        (cpu_order_key(a) == cpu_order_key(b)) == (a == b),
        a < 0x8000_0000 && b < 0x8000_0000 ==> (cpu_order_key(a) < cpu_order_key(b)) == (a < b),
        a >= 0x8000_0000 && b >= 0x8000_0000 ==> (cpu_order_key(a) < cpu_order_key(b)) == (b < a),
        a >= 0x8000_0000 && b < 0x8000_0000 ==> cpu_order_key(a) < cpu_order_key(b),
{
}

/// Computes `cpu_order_key`.
pub fn cpu_order_key_exec(bits: u32) -> (k: i64)
    ensures
        k == cpu_order_key(bits),
{
    if bits < 0x8000_0000 {
        bits as i64
    } else {
        -1 - ((bits - 0x8000_0000) as i64)
    }
}

/// Computes `sort_key`.
pub fn sort_key_exec(p: &ProcessInfo, by: &ProcessSortBy) -> (k: i128)
    ensures
        k == sort_key(*p, *by),
{
    match by {
        ProcessSortBy::Memory => p.memory_usage as i128,
        ProcessSortBy::VirtualMemory => p.virtual_memory as i128,
        ProcessSortBy::RunTime => p.run_time as i128,
        ProcessSortBy::StartTime => p.start_time as i128,
        ProcessSortBy::CpuUsage => cpu_order_key_exec(p.global_cpu_usage_bits) as i128,
    }
}

/// The ordering that a `ProcessSortBy` selects: descending by the chosen
/// quantity, the CPU share in IEEE-754 total order.
#[derive(Debug, Clone, Copy)]
pub struct ProcessComparator {
    pub sort_by: ProcessSortBy,
}

impl ProcessComparator {
    /// `Less` when `a` ranks above `b`, `Greater` when below, `Equal` when level.
    pub fn compare(&self, a: &ProcessInfo, b: &ProcessInfo) -> (o: Ordering)
        ensures
            (o == Ordering::Less) == (sort_key(*a, self.sort_by) > sort_key(*b, self.sort_by)),
            (o == Ordering::Equal) == (sort_key(*a, self.sort_by) == sort_key(*b, self.sort_by)),
            (o == Ordering::Greater) == (sort_key(*a, self.sort_by) < sort_key(*b, self.sort_by)),
    {
        let ka = sort_key_exec(a, &self.sort_by);
        let kb = sort_key_exec(b, &self.sort_by);
        if kb < ka {
            Ordering::Less
        } else if kb == ka {
            Ordering::Equal
        } else {
            Ordering::Greater
        }
    }
}

/// The ordering by which the process list is sorted.
pub fn get_sort_closure(sort_by: &ProcessSortBy) -> (c: ProcessComparator)
    ensures
        c.sort_by == *sort_by,
{
    ProcessComparator { sort_by: *sort_by }
}

/// Sorts the list from the highest-ranking process down.
pub fn sort_process_list(list: &mut Vec<ProcessInfo>, sort_by: &ProcessSortBy)
    ensures
        final(list)@.to_multiset() == old(list)@.to_multiset(),
        sorted_desc(final(list)@, *sort_by),
{
    let ghost orig = list@;
    let mut sorted: Vec<ProcessInfo> = Vec::new();
    proof {
        assert(sorted@.to_multiset() =~= Multiset::empty());
    }
    while list.len() > 0
        invariant
            sorted@.to_multiset().add(list@.to_multiset()) == orig.to_multiset(),
            sorted_desc(sorted@, *sort_by),
        decreases list.len(),
    {
        let ghost before = list@;
        let p = list.pop().unwrap();
        proof {
            assert(before == list@.push(p));
        }
        let k = sort_key_exec(&p, sort_by);
        let mut i: usize = 0;
        while i < sorted.len() && sort_key_exec(&sorted[i], sort_by) > k
            invariant
                0 <= i <= sorted.len(),
                forall|j: int| 0 <= j < i ==> sort_key(#[trigger] sorted@[j], *sort_by) > k,
            decreases sorted.len() - i,
        {
            i = i + 1;
        }
        let ghost old_sorted = sorted@;
        sorted.insert(i, p);
        proof {
            assert(sorted@ == old_sorted.insert(i as int, p));
            assert forall|a: int, b: int| 0 <= a < b < sorted@.len() implies sort_key(
                sorted@[a],
                *sort_by,
            ) >= sort_key(sorted@[b], *sort_by) by {
                if b < i {
                } else if b == i {
                } else if a < i {
                    assert(sorted@[b] == old_sorted[b - 1]);
                    assert(sort_key(old_sorted[b - 1], *sort_by) <= k) by {
                        if i < old_sorted.len() {
                            assert(sort_key(old_sorted[i as int], *sort_by) <= k);
                        }
                    }
                } else if a == i {
                    assert(sorted@[b] == old_sorted[b - 1]);
                    assert(sort_key(old_sorted[i as int], *sort_by) <= k);
                } else {
                    assert(sorted@[a] == old_sorted[a - 1]);
                    assert(sorted@[b] == old_sorted[b - 1]);
                }
            }
            assert(sorted@.to_multiset().add(list@.to_multiset()) =~= orig.to_multiset());
        }
    }
    proof {
        assert(list@.len() == 0);
        assert(list@.to_multiset().len() == 0);
        assert(list@.to_multiset() =~= Multiset::empty());
        assert(sorted@.to_multiset() =~= orig.to_multiset());
    }
    *list = sorted;
}

/// Orders the process list by the configured criterion and keeps the
/// `process_limit` highest-ranking processes.
pub fn finish_process_list(
    list: &mut Vec<ProcessInfo>,
    sort_by: &ProcessSortBy,
    process_limit: usize,
)
    ensures
        final(list)@.len() == kept_len(old(list)@.len(), process_limit as nat),
        exists|full: Seq<ProcessInfo>|
            #![trigger sorted_desc(full, *sort_by)]
            {
                &&& full.to_multiset() == old(list)@.to_multiset()
                &&& sorted_desc(full, *sort_by)
                &&& final(list)@ == full.take(final(list)@.len() as int)
            },
        forall|i: int, j: int|
            0 <= i < j < final(list)@.len() ==> outranks_by_field(
                #[trigger] final(list)@[i],
                #[trigger] final(list)@[j],
                *sort_by,
            ),
        forall|i: int, p: ProcessInfo|
            #![trigger final(list)@[i], old(list)@.to_multiset().count(p)]
            0 <= i < final(list)@.len() && final(list)@.to_multiset().count(p) < old(
                list,
            )@.to_multiset().count(p) ==> outranks_by_field(final(list)@[i], p, *sort_by),
{
    let ghost orig = list@;
    sort_process_list(list, sort_by);
    let ghost full = list@;
    proof {
        vstd::seq_lib::to_multiset_len(full);
        vstd::seq_lib::to_multiset_len(old(list)@);
    }
    list.truncate(process_limit);
    proof {
        assert(list@ == full.take(list@.len() as int));
        assert(sorted_desc(full, *sort_by));
        lemma_sorted_by_field(full, *sort_by);
        assert forall|i: int, j: int| 0 <= i < j < list@.len() implies outranks_by_field(
            #[trigger] list@[i],
            #[trigger] list@[j],
            *sort_by,
        ) by {
            assert(list@[i] == full[i] && list@[j] == full[j]);
        }
        assert forall|i: int, p: ProcessInfo|
            #![trigger list@[i], orig.to_multiset().count(p)]
            0 <= i < list@.len() && list@.to_multiset().count(p) < orig.to_multiset().count(
                p,
            ) implies outranks_by_field(list@[i], p, *sort_by) by {
            lemma_kept_outrank_dropped(orig, full, list@, *sort_by, p, i);
            lemma_rank_is_the_field(list@[i], p, *sort_by);
        }
    }
}

/// Every process that the limit cut away ranks no higher than every process
/// that was kept.
pub proof fn lemma_kept_outrank_dropped(
    orig: Seq<ProcessInfo>,
    full: Seq<ProcessInfo>,
    kept: Seq<ProcessInfo>,
    by: ProcessSortBy,
    dropped: ProcessInfo,
    i: int,
)
    requires
        full.to_multiset() == orig.to_multiset(),
        sorted_desc(full, by),
        kept.len() <= full.len(),
        kept == full.take(kept.len() as int),
        kept.to_multiset().count(dropped) < orig.to_multiset().count(dropped),
        0 <= i < kept.len(),
    ensures
        sort_key(kept[i], by) >= sort_key(dropped, by),
{
    let rest = full.skip(kept.len() as int);
    assert(full == kept + rest);
    lemma_multiset_commutative(kept, rest);
    assert(rest.to_multiset().count(dropped) > 0);
    to_multiset_contains(rest, dropped);
    let m = choose|m: int| 0 <= m < rest.len() && rest[m] == dropped;
    assert(full[kept.len() + m] == dropped);
    assert(full[i] == kept[i]);
}

/// Copies one process's record into the buffer: the numbers and the status
/// are replaced, the texts are appended.
pub fn write_process_info(process: ProcessInfo, buffer: &mut ProcessInfo)
    ensures
        final(buffer).status == process.status,
        final(buffer).disk_usage == process.disk_usage,
        final(buffer).global_cpu_usage_bits == process.global_cpu_usage_bits,
        final(buffer).cpu_usage_per_thread_bits == process.cpu_usage_per_thread_bits,
        final(buffer).memory_usage == process.memory_usage,
        final(buffer).virtual_memory == process.virtual_memory,
        final(buffer).run_time == process.run_time,
        final(buffer).start_time == process.start_time,
        final(buffer).name@ == old(buffer).name@ + process.name@,
        final(buffer).program_id@ == old(buffer).program_id@ + process.program_id@,
        final(buffer).user_id@ == old(buffer).user_id@ + process.user_id@,
        final(buffer).group_id@ == old(buffer).group_id@ + process.group_id@,
{
    buffer.disk_usage = process.disk_usage;
    buffer.global_cpu_usage_bits = process.global_cpu_usage_bits;
    buffer.cpu_usage_per_thread_bits = process.cpu_usage_per_thread_bits;
    buffer.memory_usage = process.memory_usage;
    buffer.virtual_memory = process.virtual_memory;
    buffer.run_time = process.run_time;
    buffer.start_time = process.start_time;
    buffer.name.append(process.name.as_str());
    buffer.program_id.append(process.program_id.as_str());
    buffer.user_id.append(process.user_id.as_str());
    buffer.group_id.append(process.group_id.as_str());
    buffer.status = process.status;
}

/// Replaces the process list by the processes read in this cycle.
pub fn update_process_list_info(processes: Vec<ProcessInfo>, process_list_buffer: &mut Vec<ProcessInfo>)
    ensures
        final(process_list_buffer)@ == processes@,
{
    let mut processes = processes;
    process_list_buffer.clear();
    process_list_buffer.append(&mut processes);
}

} // verus!
