//! Bytes read and written per interval over all processes, and the space
//! used on all disks.

use vstd::prelude::*;
use sysinfo::{Disks, System};
use crate::metrics::counter::{
    clamp64, counter_delta, delta, law_sums_ignore_order, modulus, space_totals, sum_firsts, sum_seconds, used_space,
    wrapping_totals,
};
use crate::metrics::sys::{
    disk_space_list, disk_spaces, disks_new_with_refreshed_list, disks_refresh, process_disk_totals,
    process_disk_usage, system_new_all, system_refresh_all,
};

verus! {

/// `read` is the total read byte count of the processes that `sys` holds,
/// added up with 64-bit wrap-around.
pub open spec fn read_total_is(sys: System, read: u64) -> bool {
    exists|v: Seq<(u64, u64)>|
        #![trigger v.to_multiset()]
        v.to_multiset() == process_disk_totals(sys) && read == sum_firsts(v) % modulus()
}

/// `written` is the total written byte count of the processes that `sys`
/// holds, added up with 64-bit wrap-around.
pub open spec fn written_total_is(sys: System, written: u64) -> bool {
    exists|v: Seq<(u64, u64)>|
        #![trigger v.to_multiset()]
        v.to_multiset() == process_disk_totals(sys) && written == sum_seconds(v) % modulus()
}

/// The totals are determined by what the process table holds: two
/// readings of the same value agree, whatever order the processes were
/// listed in.
pub proof fn law_disk_io_totals_determined(sys: System, a: u64, b: u64, c: u64, d: u64)
    requires
        read_total_is(sys, a),
        read_total_is(sys, b),
        written_total_is(sys, c),
        written_total_is(sys, d),
    ensures
        a == b,
        c == d,
{
    let v1 = choose|v: Seq<(u64, u64)>|
        #![trigger v.to_multiset()]
        v.to_multiset() == process_disk_totals(sys) && a == sum_firsts(v) % modulus();
    let v2 = choose|v: Seq<(u64, u64)>|
        #![trigger v.to_multiset()]
        v.to_multiset() == process_disk_totals(sys) && b == sum_firsts(v) % modulus();
    law_sums_ignore_order(v1, v2);
    let v3 = choose|v: Seq<(u64, u64)>|
        #![trigger v.to_multiset()]
        v.to_multiset() == process_disk_totals(sys) && c == sum_seconds(v) % modulus();
    let v4 = choose|v: Seq<(u64, u64)>|
        #![trigger v.to_multiset()]
        v.to_multiset() == process_disk_totals(sys) && d == sum_seconds(v) % modulus();
    law_sums_ignore_order(v3, v4);
}

/// Turns the processes' ever-growing disk counters into per-interval
/// amounts, and sums up the space of the disks.
pub struct DiskCollector {
    sys: System,
    disks: Disks,
    prev_read: u64,
    prev_write: u64,
}

impl DiskCollector {
    /// The system as last read.
    pub closed spec fn system(self) -> System {
        self.sys
    }

    /// The disks as last read.
    pub closed spec fn disks(self) -> Disks {
        self.disks
    }

    /// The read total at the last read reading.
    pub closed spec fn prev_read(self) -> u64 {
        self.prev_read
    }

    /// The written total at the last written reading.
    pub closed spec fn prev_write(self) -> u64 {
        self.prev_write
    }

    /// Both totals added up over the processes of `sys`.
    fn aggregate(sys: &System) -> (r: (u64, u64))
        ensures
            read_total_is(*sys, r.0),
            written_total_is(*sys, r.1),
    {
        let totals = process_disk_usage(sys);
        let r = wrapping_totals(&totals);
        assert(totals@.to_multiset() == process_disk_totals(*sys));
        r
    }

    /// Reads the system and the disks, and remembers the processes' totals
    /// as the starting point.
    pub fn new() -> (c: Self)
        ensures
            read_total_is(c.system(), c.prev_read()),
            written_total_is(c.system(), c.prev_write()),
    {
        let mut sys = system_new_all();
        system_refresh_all(&mut sys);
        let disks = disks_new_with_refreshed_list();
        let (read, write) = Self::aggregate(&sys);
        DiskCollector { sys, disks, prev_read: read, prev_write: write }
    }

    /// Reads the system again and answers how many bytes the processes read
    /// since the last read reading (zero when the total went down).
    pub fn collect_read(&mut self) -> (d: u64)
        ensures
            read_total_is(final(self).system(), final(self).prev_read()),
            d == delta(final(self).prev_read(), old(self).prev_read()),
            final(self).prev_write() == old(self).prev_write(),
            final(self).disks() == old(self).disks(),
    {
        system_refresh_all(&mut self.sys);
        let (read, _) = Self::aggregate(&self.sys);
        let d = counter_delta(read, self.prev_read);
        self.prev_read = read;
        d
    }

    /// Answers how many bytes the processes wrote since the last written
    /// reading (zero when the total went down), from the system as the last
    /// read reading left it: it does not read the system again.
    pub fn collect_write(&mut self) -> (d: u64)
        ensures
            written_total_is(final(self).system(), final(self).prev_write()),
            d == delta(final(self).prev_write(), old(self).prev_write()),
            final(self).system() == old(self).system(),
            final(self).prev_read() == old(self).prev_read(),
            final(self).disks() == old(self).disks(),
    {
        let (_, write) = Self::aggregate(&self.sys);
        let d = counter_delta(write, self.prev_write);
        self.prev_write = write;
        d
    }

    /// Reads the disks again and answers their used and total space in
    /// bytes, each summed with a stop at the largest 64-bit value; the used
    /// space of a disk is its total less its available space, at least zero.
    pub fn collect_space(&mut self) -> (r: (u64, u64))
        ensures
            r.0 == clamp64(used_space(disk_spaces(final(self).disks()))),
            r.1 == clamp64(sum_firsts(disk_spaces(final(self).disks()))),
            final(self).system() == old(self).system(),
            final(self).prev_read() == old(self).prev_read(),
            final(self).prev_write() == old(self).prev_write(),
    {
        disks_refresh(&mut self.disks);
        let list = disk_space_list(&self.disks);
        space_totals(&list)
    }
}

} // verus!
