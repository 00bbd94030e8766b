//! The parts of `sysinfo` that the collectors use, with what this library
//! assumes of them.
//!
//! Refreshing reads the machine's state, so nothing is assumed of what a
//! refresh leaves behind. What the readers return is a function of the
//! value they read, and is named here.

use vstd::prelude::*;
use vstd::multiset::Multiset;
use sysinfo::{Disks, Networks, System};

verus! {

#[verifier::external_type_specification]
#[verifier::external_body]
pub struct ExSystem(sysinfo::System);

#[verifier::external_type_specification]
#[verifier::external_body]
pub struct ExNetworks(sysinfo::Networks);

#[verifier::external_type_specification]
#[verifier::external_body]
pub struct ExDisks(sysinfo::Disks);

#[verifier::external_type_specification]
#[verifier::external_body]
pub struct ExNetworkData(sysinfo::NetworkData);

#[verifier::external_type_specification]
#[verifier::external_body]
pub struct ExDisk(sysinfo::Disk);

/// What a `Networks` value holds: for each interface, its total received
/// and total transmitted byte counts.
pub uninterp spec fn interface_totals(networks: Networks) -> Multiset<(u64, u64)>;

/// What the process table of a `System` value holds: for each process, its
/// total read and total written byte counts.
pub uninterp spec fn process_disk_totals(sys: System) -> Multiset<(u64, u64)>;

/// What a `Disks` value holds: for each disk in list order, its total and
/// available space in bytes.
pub uninterp spec fn disk_spaces(disks: Disks) -> Seq<(u64, u64)>;

/// `Networks::new_with_refreshed_list`: the machine's interfaces, read now.
/// Nothing is assumed of what it holds.
#[verifier::external_body]
pub(crate) fn networks_new_with_refreshed_list() -> Networks {
    Networks::new_with_refreshed_list()
}

/// `Networks::refresh(true)`: reads the interfaces' counters again and drops
/// interfaces that went away. Nothing is assumed of what it leaves.
#[verifier::external_body]
pub(crate) fn networks_refresh(networks: &mut Networks) {
    networks.refresh(true)
}

/// Iterating a `&Networks` with `NetworkData::total_received` and
/// `NetworkData::total_transmitted`: one pair per interface, in the hash
/// map's order, which is not stated; as a multiset the pairs are what the
/// value holds.
#[verifier::external_body]
pub(crate) fn network_interface_totals(networks: &Networks) -> (r: Vec<(u64, u64)>)
    ensures
        r@.to_multiset() == interface_totals(*networks),
{
    networks.iter().map(|(_, data)| (data.total_received(), data.total_transmitted())).collect()
}

/// `System::new_all`: a system value with everything read now. Nothing is
/// assumed of what it holds.
#[verifier::external_body]
pub(crate) fn system_new_all() -> System {
    System::new_all()
}

/// `System::refresh_all`: reads everything again. Nothing is assumed of
/// what it leaves.
#[verifier::external_body]
pub(crate) fn system_refresh_all(sys: &mut System) {
    sys.refresh_all()
}

/// `System::processes` with `Process::disk_usage`: one (total read, total
/// written) pair per process, in the hash map's order, which is not
/// stated; as a multiset the pairs are what the value holds.
#[verifier::external_body]
pub(crate) fn process_disk_usage(sys: &System) -> (r: Vec<(u64, u64)>)
    ensures
        r@.to_multiset() == process_disk_totals(*sys),
{
    sys.processes().values().map(
        |p| {
            let usage = p.disk_usage();
            (usage.total_read_bytes, usage.total_written_bytes)
        },
    ).collect()
}

/// `Disks::new_with_refreshed_list`: the machine's disks, read now. Nothing
/// is assumed of what it holds.
#[verifier::external_body]
pub(crate) fn disks_new_with_refreshed_list() -> Disks {
    Disks::new_with_refreshed_list()
}

/// `Disks::refresh(true)`: reads the disks again and drops disks that went
/// away. Nothing is assumed of what it leaves.
#[verifier::external_body]
pub(crate) fn disks_refresh(disks: &mut Disks) {
    disks.refresh(true)
}

/// `Disks::list` with `Disk::total_space` and `Disk::available_space`: one
/// (total, available) pair per disk, in list order.
#[verifier::external_body]
pub(crate) fn disk_space_list(disks: &Disks) -> (r: Vec<(u64, u64)>)
    ensures
        r@ == disk_spaces(*disks),
{
    disks.list().iter().map(|d| (d.total_space(), d.available_space())).collect()
}

} // verus!
