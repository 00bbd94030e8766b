//! Received and transmitted bytes per interval, over all interfaces.

use vstd::prelude::*;
use sysinfo::Networks;
use crate::metrics::counter::{
    counter_delta, delta, law_sums_ignore_order, modulus, sum_firsts, sum_seconds, wrapping_totals,
};
use crate::metrics::sys::{
    interface_totals, network_interface_totals, networks_new_with_refreshed_list, networks_refresh,
};

verus! {

/// `rx` is the total received byte count of the interfaces that `networks`
/// holds, added up with 64-bit wrap-around.
pub open spec fn received_total_is(networks: Networks, rx: u64) -> bool {
    exists|v: Seq<(u64, u64)>|
        #![trigger v.to_multiset()]
        v.to_multiset() == interface_totals(networks) && rx == sum_firsts(v) % modulus()
}

/// `tx` is the total transmitted byte count of the interfaces that
/// `networks` holds, added up with 64-bit wrap-around.
pub open spec fn transmitted_total_is(networks: Networks, tx: u64) -> bool {
    exists|v: Seq<(u64, u64)>|
        #![trigger v.to_multiset()]
        v.to_multiset() == interface_totals(networks) && tx == sum_seconds(v) % modulus()
}

/// The totals are determined by what the interfaces hold: two readings of
/// the same value agree, whatever order the interfaces were listed in.
pub proof fn law_network_totals_determined(networks: Networks, a: u64, b: u64, c: u64, d: u64)
    requires
        received_total_is(networks, a),
        received_total_is(networks, b),
        transmitted_total_is(networks, c),
        transmitted_total_is(networks, d),
    ensures
        a == b,
        c == d,
{
    let v1 = choose|v: Seq<(u64, u64)>|
        #![trigger v.to_multiset()]
        v.to_multiset() == interface_totals(networks) && a == sum_firsts(v) % modulus();
    let v2 = choose|v: Seq<(u64, u64)>|
        #![trigger v.to_multiset()]
        v.to_multiset() == interface_totals(networks) && b == sum_firsts(v) % modulus();
    law_sums_ignore_order(v1, v2);
    let v3 = choose|v: Seq<(u64, u64)>|
        #![trigger v.to_multiset()]
        v.to_multiset() == interface_totals(networks) && c == sum_seconds(v) % modulus();
    let v4 = choose|v: Seq<(u64, u64)>|
        #![trigger v.to_multiset()]
        v.to_multiset() == interface_totals(networks) && d == sum_seconds(v) % modulus();
    law_sums_ignore_order(v3, v4);
}

/// Turns the interfaces' ever-growing byte counters into per-interval
/// amounts.
pub struct NetworkCollector {
    networks: Networks,
    prev_rx: u64,
    prev_tx: u64,
}

impl NetworkCollector {
    /// The interfaces as last read.
    pub closed spec fn networks(self) -> Networks {
        self.networks
    }

    /// The received total at the last reading.
    pub closed spec fn prev_rx(self) -> u64 {
        self.prev_rx
    }

    /// The transmitted total at the last reading.
    pub closed spec fn prev_tx(self) -> u64 {
        self.prev_tx
    }

    /// Both totals added up over the interfaces of `networks`.
    fn aggregate(networks: &Networks) -> (r: (u64, u64))
        ensures
            received_total_is(*networks, r.0),
            transmitted_total_is(*networks, r.1),
    {
        let totals = network_interface_totals(networks);
        let r = wrapping_totals(&totals);
        assert(totals@.to_multiset() == interface_totals(*networks));
        r
    }

    /// Reads the interfaces and remembers their totals as the starting point.
    pub fn new() -> (c: Self)
        ensures
            received_total_is(c.networks(), c.prev_rx()),
            transmitted_total_is(c.networks(), c.prev_tx()),
    {
        let networks = networks_new_with_refreshed_list();
        let (rx, tx) = Self::aggregate(&networks);
        NetworkCollector { networks, prev_rx: rx, prev_tx: tx }
    }

    /// Reads the interfaces again and answers how many bytes were received
    /// since the last received reading (zero when the total went down).
    pub fn collect_rx(&mut self) -> (d: u64)
        ensures
            received_total_is(final(self).networks(), final(self).prev_rx()),
            d == delta(final(self).prev_rx(), old(self).prev_rx()),
            final(self).prev_tx() == old(self).prev_tx(),
    {
        networks_refresh(&mut self.networks);
        let (rx, _) = Self::aggregate(&self.networks);
        let d = counter_delta(rx, self.prev_rx);
        self.prev_rx = rx;
        d
    }

    /// Reads the interfaces again and answers how many bytes were
    /// transmitted since the last transmitted reading (zero when the total
    /// went down).
    pub fn collect_tx(&mut self) -> (d: u64)
        ensures
            transmitted_total_is(final(self).networks(), final(self).prev_tx()),
            d == delta(final(self).prev_tx(), old(self).prev_tx()),
            final(self).prev_rx() == old(self).prev_rx(),
    {
        networks_refresh(&mut self.networks);
        let (_, tx) = Self::aggregate(&self.networks);
        let d = counter_delta(tx, self.prev_tx);
        self.prev_tx = tx;
        d
    }
}

} // verus!
