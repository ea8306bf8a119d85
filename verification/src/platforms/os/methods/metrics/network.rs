//! The main network interface and its traffic.
use crate::metric_types::{NetworkInfo, DEFAULT_UNKNOWN_MESSAGE};
use crate::text::{is_prefix, starts_with, str_equal};
use vstd::prelude::*;
use vstd::string::*;

verus! {

/// What the operating system reports of one network interface.
#[derive(Debug)]
pub struct NetworkReading {
    pub name: String,
    pub total_received: u64,
    pub total_transmitted: u64,
    pub total_packets_received: u64,
    pub total_packets_transmitted: u64,
    pub total_errors_on_received: u64,
    pub total_errors_on_transmitted: u64,
}

/// Loopback, bridge, docker and virtual-ethernet interfaces are never the
/// main interface.
pub open spec fn is_candidate_interface(name: Seq<char>) -> bool {
    &&& name != "lo"@
    &&& !is_prefix("br-"@, name)
    &&& !is_prefix("docker"@, name)
    &&& !is_prefix("veth"@, name)
}

/// Bytes received and sent by the interface.
pub open spec fn traffic(r: NetworkReading) -> int {
    r.total_received + r.total_transmitted
}

/// The traffic of every candidate interface fits in a `u64`.
pub open spec fn candidates_traffic_fits(rs: Seq<NetworkReading>) -> bool {
    forall|i: int|
        0 <= i < rs.len() && is_candidate_interface(#[trigger] rs[i].name@) ==> traffic(rs[i])
            <= u64::MAX
}

/// Among the first `n` readings, the candidate with the most traffic; of
/// several with the most, the last.
pub open spec fn main_interface_in(rs: Seq<NetworkReading>, n: int) -> Option<int>
    decreases n,
{
    if n <= 0 {
        None
    } else {
        let prev = main_interface_in(rs, n - 1);
        if is_candidate_interface(rs[n - 1].name@) && (prev is None || traffic(rs[n - 1]) >= traffic(
            rs[prev->0],
        )) {
            Some(n - 1)
        } else {
            prev
        }
    }
}

/// The main interface: a candidate, with at least the traffic of every
/// candidate, and with more than every candidate after it.
pub proof fn lemma_main_interface_is_busiest(rs: Seq<NetworkReading>, n: int)
    requires
        0 <= n <= rs.len(),
    ensures
        match main_interface_in(rs, n) {
            Some(m) => {
                &&& 0 <= m < n
                &&& is_candidate_interface(rs[m].name@)
                &&& forall|j: int|
                    0 <= j < n && is_candidate_interface(#[trigger] rs[j].name@) ==> traffic(rs[j])
                        <= traffic(rs[m])
                &&& forall|j: int|
                    m < j < n && is_candidate_interface(#[trigger] rs[j].name@) ==> traffic(rs[j])
                        < traffic(rs[m])
            },
            None => forall|j: int| 0 <= j < n ==> !is_candidate_interface(#[trigger] rs[j].name@),
        },
    decreases n,
{
    if n > 0 {
        lemma_main_interface_is_busiest(rs, n - 1);
    }
}

/// The main interface is the candidate that moved the most bytes, received
/// and sent together: no candidate moved more, and every candidate after it
/// moved fewer; with no main interface there is no candidate at all.
pub proof fn lemma_main_interface_moves_most_bytes(rs: Seq<NetworkReading>)
    ensures
        match main_interface_in(rs, rs.len() as int) {
            Some(m) => {
                &&& 0 <= m < rs.len()
                &&& is_candidate_interface(rs[m].name@)
                &&& forall|j: int|
                    0 <= j < rs.len() && is_candidate_interface(#[trigger] rs[j].name@)
                        ==> rs[j].total_received + rs[j].total_transmitted <= rs[m].total_received
                        + rs[m].total_transmitted
                &&& forall|j: int|
                    m < j < rs.len() && is_candidate_interface(#[trigger] rs[j].name@)
                        ==> rs[j].total_received + rs[j].total_transmitted < rs[m].total_received
                        + rs[m].total_transmitted
            },
            None => forall|j: int| 0 <= j < rs.len() ==> !is_candidate_interface(#[trigger] rs[j].name@),
        },
{
    lemma_main_interface_is_busiest(rs, rs.len() as int);
}

/// Whether the interface may be the main one.
pub fn is_candidate_name(name: &str) -> (r: bool)
    ensures
        r == is_candidate_interface(name@),
{
    !str_equal(name, "lo") && !starts_with(name, "br-") && !starts_with(name, "docker")
        && !starts_with(name, "veth")
}

/// The position of the main interface among the readings.
pub fn select_main_interface(readings: &Vec<NetworkReading>) -> (r: Option<usize>)
    requires
        candidates_traffic_fits(readings@),
    ensures
        match r {
            Some(i) => main_interface_in(readings@, readings@.len() as int) == Some(i as int),
            None => main_interface_in(readings@, readings@.len() as int) is None,
        },
{
    let mut best: Option<usize> = None;
    let mut best_traffic: u64 = 0;
    let mut i: usize = 0;
    while i < readings.len()
        invariant
            0 <= i <= readings@.len(),
            candidates_traffic_fits(readings@),
            match best {
                Some(b) => {
                    &&& main_interface_in(readings@, i as int) == Some(b as int)
                    &&& b < i
                    &&& best_traffic == traffic(readings@[b as int])
                },
                None => main_interface_in(readings@, i as int) is None,
            },
        decreases readings@.len() - i,
    {
        let r = &readings[i];
        if is_candidate_name(r.name.as_str()) {
            let t = r.total_received + r.total_transmitted;
            if best.is_none() || t >= best_traffic {
                best = Some(i);
                best_traffic = t;
            }
        }
        i = i + 1;
    }
    best
}

/// Fills the network record from the main interface, or marks the interface
/// unknown when there is none; the name is appended to the buffer's.
pub fn collect_network_metrics(readings: &Vec<NetworkReading>, network_info_buffer: &mut NetworkInfo)
    requires
        candidates_traffic_fits(readings@),
    ensures
        match main_interface_in(readings@, readings@.len() as int) {
            Some(m) => {
                &&& is_candidate_interface(readings@[m].name@)
                &&& forall|j: int|
                    0 <= j < readings@.len() && is_candidate_interface(#[trigger] readings@[j].name@)
                        ==> readings@[j].total_received + readings@[j].total_transmitted
                        <= readings@[m].total_received + readings@[m].total_transmitted
                &&& final(network_info_buffer).interface_name@ == old(
                    network_info_buffer,
                ).interface_name@ + readings@[m].name@
                &&& final(network_info_buffer).total_rx_bytes == readings@[m].total_received
                &&& final(network_info_buffer).total_tx_bytes == readings@[m].total_transmitted
                &&& final(network_info_buffer).total_rx_packets
                    == readings@[m].total_packets_received
                &&& final(network_info_buffer).total_tx_packets
                    == readings@[m].total_packets_transmitted
                &&& final(network_info_buffer).total_rx_errors
                    == readings@[m].total_errors_on_received
                &&& final(network_info_buffer).total_tx_errors
                    == readings@[m].total_errors_on_transmitted
            },
            None => {
                &&& final(network_info_buffer).interface_name@ == old(
                    network_info_buffer,
                ).interface_name@ + DEFAULT_UNKNOWN_MESSAGE@
                &&& final(network_info_buffer).total_rx_bytes == old(
                    network_info_buffer,
                ).total_rx_bytes
                &&& final(network_info_buffer).total_tx_bytes == old(
                    network_info_buffer,
                ).total_tx_bytes
                &&& final(network_info_buffer).total_rx_packets == old(
                    network_info_buffer,
                ).total_rx_packets
                &&& final(network_info_buffer).total_tx_packets == old(
                    network_info_buffer,
                ).total_tx_packets
                &&& final(network_info_buffer).total_rx_errors == old(
                    network_info_buffer,
                ).total_rx_errors
                &&& final(network_info_buffer).total_tx_errors == old(
                    network_info_buffer,
                ).total_tx_errors
            },
        },
{
    let main = select_main_interface(readings);
    proof {
        lemma_main_interface_is_busiest(readings@, readings@.len() as int);
    }
    match main {
        Some(m) => {
            let data = &readings[m];
            network_info_buffer.interface_name.append(data.name.as_str());
            network_info_buffer.total_rx_bytes = data.total_received;
            network_info_buffer.total_tx_bytes = data.total_transmitted;
            network_info_buffer.total_rx_packets = data.total_packets_received;
            network_info_buffer.total_tx_packets = data.total_packets_transmitted;
            network_info_buffer.total_rx_errors = data.total_errors_on_received;
            network_info_buffer.total_tx_errors = data.total_errors_on_transmitted;
        },
        None => {
            network_info_buffer.interface_name.append(DEFAULT_UNKNOWN_MESSAGE);
        },
    }
}

} // verus!
