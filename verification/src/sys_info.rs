//! Network accounting: which interfaces count, the byte totals over the
//! counted interfaces, and the sampler that turns successive totals into the
//! byte deltas from which the speeds are computed.

use vstd::multiset::Multiset;
use vstd::prelude::*;

use crate::text::{chars_equal, chars_of, contains_chars, has_prefix, has_substring, starts_with_chars};

verus! {

broadcast use vstd::seq_lib::group_to_multiset_ensures;

// ---------------------------------------------------------------------------
// Interfaces that are not counted
// ---------------------------------------------------------------------------

/// Loopback, virtual switch and container interfaces, whose traffic is not the
/// machine's own network traffic.
pub open spec fn skipped_interface(name: Seq<char>) -> bool {
    ||| has_substring(name, seq!['L', 'o', 'o', 'p', 'b', 'a', 'c', 'k'])
    ||| has_prefix(name, seq!['l', 'o'])
    ||| has_substring(name, seq!['v', 'E', 't', 'h', 'e', 'r', 'n', 'e', 't'])
    ||| has_substring(name, seq!['H', 'y', 'p', 'e', 'r', '-', 'V'])
    ||| has_substring(name, seq!['v', 'e', 't', 'h'])
    ||| has_substring(name, seq!['d', 'o', 'c', 'k', 'e', 'r'])
    ||| has_substring(name, seq!['v', 'n', 'i', 'c'])
}

/// Whether an interface is left out of the traffic totals.
pub fn should_skip_interface(name: &str) -> (skip: bool)
    ensures
        skip == skipped_interface(name@),
        ((exists|i: int| 0 <= i && i + 8 <= name@.len() && #[trigger] name@.subrange(i, i + 8) == seq!['L', 'o', 'o', 'p', 'b', 'a', 'c', 'k']) || (exists|i: int| 0 <= i && i + 9 <= name@.len() && #[trigger] name@.subrange(i, i + 9) == seq!['v', 'E', 't', 'h', 'e', 'r', 'n', 'e', 't']) || (exists|i: int| 0 <= i && i + 7 <= name@.len() && #[trigger] name@.subrange(i, i + 7) == seq!['H', 'y', 'p', 'e', 'r', '-', 'V']) || (exists|i: int| 0 <= i && i + 4 <= name@.len() && #[trigger] name@.subrange(i, i + 4) == seq!['v', 'e', 't', 'h']) || (exists|i: int| 0 <= i && i + 6 <= name@.len() && #[trigger] name@.subrange(i, i + 6) == seq!['d', 'o', 'c', 'k', 'e', 'r']) || (exists|i: int| 0 <= i && i + 4 <= name@.len() && #[trigger] name@.subrange(i, i + 4) == seq!['v', 'n', 'i', 'c']) || (2 <= name@.len() && name@.subrange(0, 2) == seq!['l', 'o'])) ==> skip,
        !((exists|i: int| 0 <= i && i + 8 <= name@.len() && #[trigger] name@.subrange(i, i + 8) == seq!['L', 'o', 'o', 'p', 'b', 'a', 'c', 'k']) || (exists|i: int| 0 <= i && i + 9 <= name@.len() && #[trigger] name@.subrange(i, i + 9) == seq!['v', 'E', 't', 'h', 'e', 'r', 'n', 'e', 't']) || (exists|i: int| 0 <= i && i + 7 <= name@.len() && #[trigger] name@.subrange(i, i + 7) == seq!['H', 'y', 'p', 'e', 'r', '-', 'V']) || (exists|i: int| 0 <= i && i + 4 <= name@.len() && #[trigger] name@.subrange(i, i + 4) == seq!['v', 'e', 't', 'h']) || (exists|i: int| 0 <= i && i + 6 <= name@.len() && #[trigger] name@.subrange(i, i + 6) == seq!['d', 'o', 'c', 'k', 'e', 'r']) || (exists|i: int| 0 <= i && i + 4 <= name@.len() && #[trigger] name@.subrange(i, i + 4) == seq!['v', 'n', 'i', 'c']) || (2 <= name@.len() && name@.subrange(0, 2) == seq!['l', 'o'])) ==> !skip,
{
    proof {
        lemma_skipped_interfaces_are_exactly_the_virtual_ones(name@);
    }
    let n = chars_of(name);
    let loopback: [char; 8] = ['L', 'o', 'o', 'p', 'b', 'a', 'c', 'k'];
    let lo: [char; 2] = ['l', 'o'];
    let vethernet: [char; 9] = ['v', 'E', 't', 'h', 'e', 'r', 'n', 'e', 't'];
    let hyperv: [char; 7] = ['H', 'y', 'p', 'e', 'r', '-', 'V'];
    let veth: [char; 4] = ['v', 'e', 't', 'h'];
    let docker: [char; 6] = ['d', 'o', 'c', 'k', 'e', 'r'];
    let vnic: [char; 4] = ['v', 'n', 'i', 'c'];
    assert(loopback@ =~= seq!['L', 'o', 'o', 'p', 'b', 'a', 'c', 'k']);
    assert(lo@ =~= seq!['l', 'o']);
    assert(vethernet@ =~= seq!['v', 'E', 't', 'h', 'e', 'r', 'n', 'e', 't']);
    assert(hyperv@ =~= seq!['H', 'y', 'p', 'e', 'r', '-', 'V']);
    assert(veth@ =~= seq!['v', 'e', 't', 'h']);
    assert(docker@ =~= seq!['d', 'o', 'c', 'k', 'e', 'r']);
    assert(vnic@ =~= seq!['v', 'n', 'i', 'c']);
    let s = n.as_slice();
    contains_chars(s, &loopback) || starts_with_chars(s, &lo) || contains_chars(s, &vethernet)
        || contains_chars(s, &hyperv) || contains_chars(s, &veth) || contains_chars(s, &docker)
        || contains_chars(s, &vnic)
}

/// The interfaces left out of the totals are exactly those whose name contains
/// "Loopback", "vEthernet", "Hyper-V", "veth", "docker" or "vnic", or begins
/// with "lo"; every other interface (such as "Ethernet 2" or "Wi-Fi") is counted.
pub proof fn lemma_skipped_interfaces_are_exactly_the_virtual_ones(name: Seq<char>)
    ensures
        ((exists|i: int| 0 <= i && i + 8 <= name.len() && #[trigger] name.subrange(i, i + 8) == seq!['L', 'o', 'o', 'p', 'b', 'a', 'c', 'k']) || (exists|i: int| 0 <= i && i + 9 <= name.len() && #[trigger] name.subrange(i, i + 9) == seq!['v', 'E', 't', 'h', 'e', 'r', 'n', 'e', 't']) || (exists|i: int| 0 <= i && i + 7 <= name.len() && #[trigger] name.subrange(i, i + 7) == seq!['H', 'y', 'p', 'e', 'r', '-', 'V']) || (exists|i: int| 0 <= i && i + 4 <= name.len() && #[trigger] name.subrange(i, i + 4) == seq!['v', 'e', 't', 'h']) || (exists|i: int| 0 <= i && i + 6 <= name.len() && #[trigger] name.subrange(i, i + 6) == seq!['d', 'o', 'c', 'k', 'e', 'r']) || (exists|i: int| 0 <= i && i + 4 <= name.len() && #[trigger] name.subrange(i, i + 4) == seq!['v', 'n', 'i', 'c']) || (2 <= name.len() && name.subrange(0, 2) == seq!['l', 'o'])) ==> skipped_interface(name),
        !((exists|i: int| 0 <= i && i + 8 <= name.len() && #[trigger] name.subrange(i, i + 8) == seq!['L', 'o', 'o', 'p', 'b', 'a', 'c', 'k']) || (exists|i: int| 0 <= i && i + 9 <= name.len() && #[trigger] name.subrange(i, i + 9) == seq!['v', 'E', 't', 'h', 'e', 'r', 'n', 'e', 't']) || (exists|i: int| 0 <= i && i + 7 <= name.len() && #[trigger] name.subrange(i, i + 7) == seq!['H', 'y', 'p', 'e', 'r', '-', 'V']) || (exists|i: int| 0 <= i && i + 4 <= name.len() && #[trigger] name.subrange(i, i + 4) == seq!['v', 'e', 't', 'h']) || (exists|i: int| 0 <= i && i + 6 <= name.len() && #[trigger] name.subrange(i, i + 6) == seq!['d', 'o', 'c', 'k', 'e', 'r']) || (exists|i: int| 0 <= i && i + 4 <= name.len() && #[trigger] name.subrange(i, i + 4) == seq!['v', 'n', 'i', 'c']) || (2 <= name.len() && name.subrange(0, 2) == seq!['l', 'o'])) ==> !skipped_interface(name),
{
    if skipped_interface(name) {
        if has_substring(name, seq!['L', 'o', 'o', 'p', 'b', 'a', 'c', 'k']) {
            let i = choose|i: int| crate::text::occurs_at(name, seq!['L', 'o', 'o', 'p', 'b', 'a', 'c', 'k'], i);
            assert(name.subrange(i, i + 8) == seq!['L', 'o', 'o', 'p', 'b', 'a', 'c', 'k']);
        }
        if has_substring(name, seq!['v', 'E', 't', 'h', 'e', 'r', 'n', 'e', 't']) {
            let i = choose|i: int| crate::text::occurs_at(name, seq!['v', 'E', 't', 'h', 'e', 'r', 'n', 'e', 't'], i);
            assert(name.subrange(i, i + 9) == seq!['v', 'E', 't', 'h', 'e', 'r', 'n', 'e', 't']);
        }
        if has_substring(name, seq!['H', 'y', 'p', 'e', 'r', '-', 'V']) {
            let i = choose|i: int| crate::text::occurs_at(name, seq!['H', 'y', 'p', 'e', 'r', '-', 'V'], i);
            assert(name.subrange(i, i + 7) == seq!['H', 'y', 'p', 'e', 'r', '-', 'V']);
        }
        if has_substring(name, seq!['v', 'e', 't', 'h']) {
            let i = choose|i: int| crate::text::occurs_at(name, seq!['v', 'e', 't', 'h'], i);
            assert(name.subrange(i, i + 4) == seq!['v', 'e', 't', 'h']);
        }
        if has_substring(name, seq!['d', 'o', 'c', 'k', 'e', 'r']) {
            let i = choose|i: int| crate::text::occurs_at(name, seq!['d', 'o', 'c', 'k', 'e', 'r'], i);
            assert(name.subrange(i, i + 6) == seq!['d', 'o', 'c', 'k', 'e', 'r']);
        }
        if has_substring(name, seq!['v', 'n', 'i', 'c']) {
            let i = choose|i: int| crate::text::occurs_at(name, seq!['v', 'n', 'i', 'c'], i);
            assert(name.subrange(i, i + 4) == seq!['v', 'n', 'i', 'c']);
        }

    }
    if (exists|i: int| 0 <= i && i + 8 <= name.len() && #[trigger] name.subrange(i, i + 8) == seq!['L', 'o', 'o', 'p', 'b', 'a', 'c', 'k']) {
        let i = choose|i: int| 0 <= i && i + 8 <= name.len() && #[trigger] name.subrange(i, i + 8) == seq!['L', 'o', 'o', 'p', 'b', 'a', 'c', 'k'];
        assert(crate::text::occurs_at(name, seq!['L', 'o', 'o', 'p', 'b', 'a', 'c', 'k'], i));
    }
    if (exists|i: int| 0 <= i && i + 9 <= name.len() && #[trigger] name.subrange(i, i + 9) == seq!['v', 'E', 't', 'h', 'e', 'r', 'n', 'e', 't']) {
        let i = choose|i: int| 0 <= i && i + 9 <= name.len() && #[trigger] name.subrange(i, i + 9) == seq!['v', 'E', 't', 'h', 'e', 'r', 'n', 'e', 't'];
        assert(crate::text::occurs_at(name, seq!['v', 'E', 't', 'h', 'e', 'r', 'n', 'e', 't'], i));
    }
    if (exists|i: int| 0 <= i && i + 7 <= name.len() && #[trigger] name.subrange(i, i + 7) == seq!['H', 'y', 'p', 'e', 'r', '-', 'V']) {
        let i = choose|i: int| 0 <= i && i + 7 <= name.len() && #[trigger] name.subrange(i, i + 7) == seq!['H', 'y', 'p', 'e', 'r', '-', 'V'];
        assert(crate::text::occurs_at(name, seq!['H', 'y', 'p', 'e', 'r', '-', 'V'], i));
    }
    if (exists|i: int| 0 <= i && i + 4 <= name.len() && #[trigger] name.subrange(i, i + 4) == seq!['v', 'e', 't', 'h']) {
        let i = choose|i: int| 0 <= i && i + 4 <= name.len() && #[trigger] name.subrange(i, i + 4) == seq!['v', 'e', 't', 'h'];
        assert(crate::text::occurs_at(name, seq!['v', 'e', 't', 'h'], i));
    }
    if (exists|i: int| 0 <= i && i + 6 <= name.len() && #[trigger] name.subrange(i, i + 6) == seq!['d', 'o', 'c', 'k', 'e', 'r']) {
        let i = choose|i: int| 0 <= i && i + 6 <= name.len() && #[trigger] name.subrange(i, i + 6) == seq!['d', 'o', 'c', 'k', 'e', 'r'];
        assert(crate::text::occurs_at(name, seq!['d', 'o', 'c', 'k', 'e', 'r'], i));
    }
    if (exists|i: int| 0 <= i && i + 4 <= name.len() && #[trigger] name.subrange(i, i + 4) == seq!['v', 'n', 'i', 'c']) {
        let i = choose|i: int| 0 <= i && i + 4 <= name.len() && #[trigger] name.subrange(i, i + 4) == seq!['v', 'n', 'i', 'c'];
        assert(crate::text::occurs_at(name, seq!['v', 'n', 'i', 'c'], i));
    }

}

// ---------------------------------------------------------------------------
// Traffic totals over the counted interfaces
// ---------------------------------------------------------------------------

/// One interface's name with its received and transmitted byte counts.
pub struct InterfaceCounters {
    pub name: String,
    pub received: u64,
    pub transmitted: u64,
}

impl View for InterfaceCounters {
    type V = (Seq<char>, u64, u64);

    open spec fn view(&self) -> (Seq<char>, u64, u64) {
        (self.name@, self.received, self.transmitted)
    }
}

/// The plain values of a list of interface counters.
pub open spec fn counters_view(entries: Seq<InterfaceCounters>) -> Seq<(Seq<char>, u64, u64)> {
    entries.map_values(|e: InterfaceCounters| e@)
}

/// Bytes received over the counted interfaces of a listing.
pub open spec fn received_total(entries: Seq<(Seq<char>, u64, u64)>) -> int
    decreases entries.len(),
{
    if entries.len() == 0 {
        0
    } else {
        let e = entries.last();
        received_total(entries.drop_last()) + if skipped_interface(e.0) {
            0
        } else {
            e.1 as int
        }
    }
}

/// Bytes transmitted over the counted interfaces of a listing.
pub open spec fn transmitted_total(entries: Seq<(Seq<char>, u64, u64)>) -> int
    decreases entries.len(),
{
    if entries.len() == 0 {
        0
    } else {
        let e = entries.last();
        transmitted_total(entries.drop_last()) + if skipped_interface(e.0) {
            0
        } else {
            e.2 as int
        }
    }
}

/// The totals as `(received, transmitted)` when both fit in a `u64`, and
/// `None` when one of them does not.
pub open spec fn totals_if_representable(received: int, transmitted: int) -> Option<(u64, u64)> {
    if received <= u64::MAX && transmitted <= u64::MAX {
        Some((received as u64, transmitted as u64))
    } else {
        None
    }
}

/// Totals of a listing in which each interface occurs once per counter entry.
pub open spec fn listing_totals(entries: Seq<(Seq<char>, u64, u64)>) -> Option<(u64, u64)> {
    totals_if_representable(received_total(entries), transmitted_total(entries))
}

/// A listing whose entries are exactly the given collection of counters.
pub open spec fn is_listing_of(
    entries: Seq<(Seq<char>, u64, u64)>,
    counters: Multiset<(Seq<char>, u64, u64)>,
) -> bool {
    entries.to_multiset() == counters
}

/// The totals over a collection of counters, whatever order it is listed in
/// (well defined by `lemma_totals_order_independent`).
pub open spec fn collection_totals(counters: Multiset<(Seq<char>, u64, u64)>) -> Option<(u64, u64)> {
    listing_totals(choose|entries: Seq<(Seq<char>, u64, u64)>| is_listing_of(entries, counters))
}

/// A longer prefix of a listing never has smaller totals.
pub proof fn lemma_totals_prefix_monotone(entries: Seq<(Seq<char>, u64, u64)>, i: int)
    requires
        0 <= i <= entries.len(),
    ensures
        received_total(entries.take(i)) <= received_total(entries),
        transmitted_total(entries.take(i)) <= transmitted_total(entries),
    decreases entries.len() - i,
{
    if i < entries.len() {
        lemma_totals_prefix_monotone(entries, i + 1);
        assert(entries.take(i + 1).drop_last() =~= entries.take(i));
    } else {
        assert(entries.take(i) =~= entries);
    }
}

/// Taking one entry out of a listing lowers the totals by that entry's counts.
pub proof fn lemma_totals_remove(entries: Seq<(Seq<char>, u64, u64)>, i: int)
    requires
        0 <= i < entries.len(),
    ensures
        received_total(entries) == received_total(entries.remove(i)) + if skipped_interface(
            entries[i].0,
        ) {
            0
        } else {
            entries[i].1 as int
        },
        transmitted_total(entries) == transmitted_total(entries.remove(i)) + if skipped_interface(
            entries[i].0,
        ) {
            0
        } else {
            entries[i].2 as int
        },
    decreases entries.len(),
{
    if i < entries.len() - 1 {
        lemma_totals_remove(entries.drop_last(), i);
        assert(entries.remove(i).drop_last() =~= entries.drop_last().remove(i));
        assert(entries.remove(i).last() == entries.last());
    } else {
        assert(entries.remove(i) =~= entries.drop_last());
    }
}

/// The totals do not depend on the order in which the interfaces are listed:
/// two listings with the same entries have the same totals.
pub proof fn lemma_totals_order_independent(
    a: Seq<(Seq<char>, u64, u64)>,
    b: Seq<(Seq<char>, u64, u64)>,
)
    requires
        a.to_multiset() == b.to_multiset(),
    ensures
        received_total(a) == received_total(b),
        transmitted_total(a) == transmitted_total(b),
        listing_totals(a) == listing_totals(b),
    decreases a.len(),
{
    broadcast use vstd::multiset::group_multiset_axioms;

    if a.len() == 0 {
        assert(b.to_multiset().len() == 0);
        assert(b.len() == 0);
    } else {
        let x = a.last();
        assert(a.contains(x)) by {
            assert(a[a.len() - 1] == x);
        }
        assert(a.to_multiset().count(x) > 0);
        assert(b.contains(x));
        let j = choose|j: int| 0 <= j < b.len() && b[j] == x;
        let a1 = a.drop_last();
        let b1 = b.remove(j);
        assert(a.remove(a.len() - 1) =~= a1);
        assert(a1.to_multiset() == a.to_multiset().remove(x));
        assert(b1.to_multiset() == b.to_multiset().remove(x));
        lemma_totals_order_independent(a1, b1);
        lemma_totals_remove(b, j);
    }
}

/// The totals of a listing are the totals of the collection it lists.
pub proof fn lemma_listing_totals_are_collection_totals(entries: Seq<(Seq<char>, u64, u64)>)
    ensures
        listing_totals(entries) == collection_totals(entries.to_multiset()),
{
    let counters = entries.to_multiset();
    assert(is_listing_of(entries, counters));
    let chosen = choose|e: Seq<(Seq<char>, u64, u64)>| is_listing_of(e, counters);
    lemma_totals_order_independent(entries, chosen);
}

/// Sums the received and transmitted bytes of the counted interfaces; `None`
/// when a sum exceeds the range of `u64`.
pub fn sum_counted_traffic(entries: &[InterfaceCounters]) -> (totals: Option<(u64, u64)>)
    ensures
        totals == listing_totals(counters_view(entries@)),
{
    let ghost view = counters_view(entries@);
    let mut received: u64 = 0;
    let mut transmitted: u64 = 0;
    let mut i: usize = 0;
    while i < entries.len()
        invariant
            view == counters_view(entries@),
            0 <= i <= entries@.len(),
            received == received_total(view.take(i as int)),
            transmitted == transmitted_total(view.take(i as int)),
        decreases entries@.len() - i,
    {
        let e = &entries[i];
        assert(view.take(i + 1).drop_last() =~= view.take(i as int));
        assert(view[i as int] == e@);
        if !should_skip_interface(e.name.as_str()) {
            match (received.checked_add(e.received), transmitted.checked_add(e.transmitted)) {
                (Some(r), Some(t)) => {
                    received = r;
                    transmitted = t;
                },
                _ => {
                    proof {
                        lemma_totals_prefix_monotone(view, i + 1);
                    }
                    return None;
                },
            }
        }
        i = i + 1;
    }
    assert(view.take(entries@.len() as int) =~= view);
    Some((received, transmitted))
}

// ---------------------------------------------------------------------------
// The operating system's interface list
// ---------------------------------------------------------------------------

/// `sysinfo::Networks`, the list of network interfaces, carried as an opaque value.
#[verifier::external_type_specification]
#[verifier::external_body]
pub struct ExNetworks(sysinfo::Networks);

/// `sysinfo::NetworkData`, one interface's counters, opaque; declared because
/// `Networks` dereferences to a map of them.
#[verifier::external_type_specification]
#[verifier::external_body]
pub struct ExNetworkData(sysinfo::NetworkData);

/// What a `sysinfo::Networks` holds: for each network interface, its name with
/// the total number of bytes it has received and transmitted (as
/// `NetworkData::total_received` and `NetworkData::total_transmitted` report
/// them).
pub uninterp spec fn network_counters(networks: sysinfo::Networks) -> Multiset<(Seq<char>, u64, u64)>;

/// Lists the interfaces of `networks`: walks the map that `Networks::list`
/// returns (in the hash map's order) and gives each interface's name with
/// `NetworkData::total_received()` and `NetworkData::total_transmitted()`. The contract
/// claims that the entries are exactly those of `network_counters(networks)`,
/// each once, and nothing about their order.
#[verifier::external_body]
fn list_network_counters(networks: &sysinfo::Networks) -> (entries: Vec<InterfaceCounters>)
    ensures
        is_listing_of(counters_view(entries@), network_counters(*networks)),
{
    networks.list().iter().map(
        |(name, data)|
            InterfaceCounters {
                name: name.clone(),
                received: data.total_received(),
                transmitted: data.total_transmitted(),
            },
    ).collect()
}

/// The cumulative received and transmitted bytes summed over all interfaces
/// that are not skipped; `None` when a sum exceeds the range of `u64`.
pub fn get_current_net_totals(networks: &sysinfo::Networks) -> (totals: Option<(u64, u64)>)
    ensures
        totals == collection_totals(network_counters(*networks)),
{
    let entries = list_network_counters(networks);
    let totals = sum_counted_traffic(entries.as_slice());
    proof {
        lemma_listing_totals_are_collection_totals(counters_view(entries@));
    }
    totals
}

// ---------------------------------------------------------------------------
// Turning successive totals into deltas
// ---------------------------------------------------------------------------

/// Below this many nanoseconds between two samples no speed is computed
/// (one millisecond; the guard against dividing by a vanishing interval).
/// A duration is shorter than this exactly when its `as_secs_f64()` is below
/// `0.001`, since `as_secs_f64` divides the nanoseconds by 10^9 with correct
/// rounding.
pub const MIN_SAMPLE_INTERVAL_NANOS: u128 = 1_000_000;

/// The totals seen at the previous sample.
pub struct NetSampler {
    pub prev_received: u64,
    pub prev_transmitted: u64,
}

/// `current - previous`, or zero when the counter went down.
pub open spec fn counter_delta(current: u64, previous: u64) -> u64 {
    if current >= previous {
        (current - previous) as u64
    } else {
        0
    }
}

impl NetSampler {
    /// A sampler whose first interval starts at the given totals.
    pub fn new(received: u64, transmitted: u64) -> (sampler: NetSampler)
        ensures
            sampler.prev_received == received,
            sampler.prev_transmitted == transmitted,
    {
        NetSampler { prev_received: received, prev_transmitted: transmitted }
    }

    /// Takes the totals seen now, `elapsed_nanos` after the previous sample.
    ///
    /// Under a millisecond it returns `None` (the speeds are zero) and keeps
    /// the previous totals; otherwise it returns the received and transmitted
    /// deltas (zero for a counter that went down) and remembers the new totals.
    /// The caller divides the deltas by the elapsed time.
    pub fn sample(&mut self, received: u64, transmitted: u64, elapsed_nanos: u128) -> (deltas:
        Option<(u64, u64)>)
        ensures
            elapsed_nanos < MIN_SAMPLE_INTERVAL_NANOS ==> {
                &&& deltas is None
                &&& *final(self) == *old(self)
            },
            elapsed_nanos >= MIN_SAMPLE_INTERVAL_NANOS ==> {
                &&& deltas == Some(
                    (
                        counter_delta(received, old(self).prev_received),
                        counter_delta(transmitted, old(self).prev_transmitted),
                    ),
                )
                &&& final(self).prev_received == received
                &&& final(self).prev_transmitted == transmitted
            },
    {
        if elapsed_nanos < MIN_SAMPLE_INTERVAL_NANOS {
            return None;
        }
        let delta_received = received.saturating_sub(self.prev_received);
        let delta_transmitted = transmitted.saturating_sub(self.prev_transmitted);
        self.prev_received = received;
        self.prev_transmitted = transmitted;
        Some((delta_received, delta_transmitted))
    }
}

/// For counters that only grow, the deltas of two successive samples add up
/// to the delta across both intervals.
pub proof fn lemma_deltas_add_up(previous: u64, middle: u64, current: u64)
    requires
        previous <= middle <= current,
    ensures
        counter_delta(middle, previous) + counter_delta(current, middle) == counter_delta(
            current,
            previous,
        ),
{
}

// ---------------------------------------------------------------------------
// Display unit of speeds
// ---------------------------------------------------------------------------

/// The unit in which speeds are shown.
#[derive(Clone, Copy, Debug, PartialEq, Eq, Structural)]
pub enum SpeedUnit {
    /// Kilobytes per second.
    Kb,
    /// Megabytes per second.
    Mb,
    /// Bytes, kilobytes or megabytes, by magnitude.
    Auto,
}

/// The unit that a unit setting selects: `"kb"`, `"mb"`, anything else automatic.
pub open spec fn speed_unit_named(unit: Seq<char>) -> SpeedUnit {
    if unit == seq!['k', 'b'] {
        SpeedUnit::Kb
    } else if unit == seq!['m', 'b'] {
        SpeedUnit::Mb
    } else {
        SpeedUnit::Auto
    }
}

/// The name under which a unit is stored and shown.
pub open spec fn speed_unit_name(unit: SpeedUnit) -> Seq<char> {
    match unit {
        SpeedUnit::Kb => seq!['k', 'b'],
        SpeedUnit::Mb => seq!['m', 'b'],
        SpeedUnit::Auto => seq!['a', 'u', 't', 'o'],
    }
}

/// The name of a unit, as the settings window shows it.
pub fn speed_unit_to_string(unit: SpeedUnit) -> (name: &'static str)
    ensures
        name@ == speed_unit_name(unit),
{
    match unit {
        SpeedUnit::Kb => {
            proof {
                reveal_strlit("kb");
            }
            "kb"
        },
        SpeedUnit::Mb => {
            proof {
                reveal_strlit("mb");
            }
            "mb"
        },
        SpeedUnit::Auto => {
            proof {
                reveal_strlit("auto");
            }
            "auto"
        },
    }
}

/// A unit's name reads back as that unit.
pub proof fn lemma_speed_unit_name_round_trip(unit: SpeedUnit)
    ensures
        speed_unit_named(speed_unit_name(unit)) == unit,
{
    assert(seq!['a', 'u', 't', 'o'] != seq!['k', 'b']);
    assert(seq!['a', 'u', 't', 'o'] != seq!['m', 'b']);
    assert(seq!['m', 'b'] != seq!['k', 'b']) by {
        assert(seq!['m', 'b'][0] != seq!['k', 'b'][0]);
    }
}

/// Reads a unit setting.
pub fn speed_unit_from_str(unit: &str) -> (u: SpeedUnit)
    ensures
        u == speed_unit_named(unit@),
{
    let chars = chars_of(unit);
    let kb: [char; 2] = ['k', 'b'];
    let mb: [char; 2] = ['m', 'b'];
    assert(kb@ =~= seq!['k', 'b']);
    assert(mb@ =~= seq!['m', 'b']);
    if chars_equal(chars.as_slice(), &kb) {
        SpeedUnit::Kb
    } else if chars_equal(chars.as_slice(), &mb) {
        SpeedUnit::Mb
    } else {
        SpeedUnit::Auto
    }
}

} // verus!
