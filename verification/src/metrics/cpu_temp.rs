//! Choice of the thermal zones whose temperature stands for the CPU.
//!
//! The caller lists the zones under the thermal sysfs directory and reads
//! their files; the choice among them is made here.

use vstd::prelude::*;
use crate::text::{
    ascii_lower, ascii_lower_seq, chars_of, contains, has_infix, has_prefix, is_white_space,
    law_trim_keeps_inner_stretch, starts_with, to_ascii_lowercase, trim, trimmed,
};

verus! {

/// One entry of the thermal sysfs directory, as the caller found it.
#[derive(Debug)]
pub struct ThermalZoneEntry {
    /// The entry's file name, when it is valid UTF-8.
    pub zone_name: Option<String>,
    /// The path of the entry's `temp` file.
    pub temp_path: String,
    /// Whether that `temp` file exists.
    pub temp_exists: bool,
    /// The content of the entry's `type` file; empty when it cannot be read.
    pub zone_type: String,
}

/// The entry is a thermal zone with a temperature file.
pub open spec fn is_zone_with_temp(e: ThermalZoneEntry) -> bool {
    &&& e.zone_name matches Some(name)
    &&& has_prefix(name@, "thermal_zone"@)
    &&& e.temp_exists
}

/// The zone's type names a CPU, a package or a system on chip, in any case
/// and with surrounding whitespace ignored.
pub open spec fn is_cpu_type(zone_type: Seq<char>) -> bool {
    let t = ascii_lower_seq(trimmed(zone_type));
    has_infix(t, "cpu"@) || has_infix(t, "package"@) || has_infix(t, "soc"@)
}

/// The temperature paths of the zones with a temperature file, in order;
/// with `cpu_only`, of those whose type is CPU-like only.
pub open spec fn zone_temp_paths(es: Seq<ThermalZoneEntry>, cpu_only: bool) -> Seq<Seq<char>>
    decreases es.len(),
{
    if es.len() == 0 {
        Seq::empty()
    } else {
        let rest = zone_temp_paths(es.drop_last(), cpu_only);
        let e = es.last();
        if is_zone_with_temp(e) && (!cpu_only || is_cpu_type(e.zone_type@)) {
            rest.push(e.temp_path@)
        } else {
            rest
        }
    }
}

/// The zones that stand for the CPU: the CPU-like ones when there are any,
/// else every zone with a temperature file.
pub open spec fn selected_zone_paths(es: Seq<ThermalZoneEntry>) -> Seq<Seq<char>> {
    let preferred = zone_temp_paths(es, true);
    if preferred.len() == 0 {
        zone_temp_paths(es, false)
    } else {
        preferred
    }
}

/// The views of a list of paths.
pub open spec fn paths_view(ps: Seq<String>) -> Seq<Seq<char>> {
    Seq::new(ps.len(), |i: int| ps[i]@)
}

/// Whether the entry is a zone with a temperature file.
pub fn zone_with_temp(e: &ThermalZoneEntry) -> (b: bool)
    ensures
        b == is_zone_with_temp(*e),
{
    match &e.zone_name {
        Some(name) => {
            let n = chars_of(name.as_str());
            let p = chars_of("thermal_zone");
            starts_with(&n, &p) && e.temp_exists
        },
        None => false,
    }
}

/// Whether a zone type is CPU-like.
pub fn cpu_type(zone_type: &String) -> (b: bool)
    ensures
        b == is_cpu_type(zone_type@),
{
    let t = trim(zone_type.as_str());
    let lower = to_ascii_lowercase(&chars_of(t.as_str()));
    contains(&lower, &chars_of("cpu")) || contains(&lower, &chars_of("package")) || contains(
        &lower,
        &chars_of("soc"),
    )
}

/// Chooses the temperature files that stand for the CPU among the entries
/// of the thermal sysfs directory.
pub fn select_zone_paths(entries: &Vec<ThermalZoneEntry>) -> (r: Vec<String>)
    ensures
        paths_view(r@) == selected_zone_paths(entries@),
{
    let mut preferred: Vec<String> = Vec::new();
    let mut fallback: Vec<String> = Vec::new();
    let mut i: usize = 0;
    while i < entries.len()
        invariant
            i <= entries@.len(),
            paths_view(preferred@) == zone_temp_paths(entries@.take(i as int), true),
            paths_view(fallback@) == zone_temp_paths(entries@.take(i as int), false),
        decreases entries.len() - i,
    {
        let e = &entries[i];
        proof {
            assert(entries@.take(i + 1).drop_last() =~= entries@.take(i as int));
            assert(entries@.take(i + 1).last() == entries@[i as int]);
        }
        if zone_with_temp(e) {
            let ghost old_fallback = fallback@;
            fallback.push(e.temp_path.clone());
            assert(paths_view(fallback@) =~= paths_view(old_fallback).push(e.temp_path@));
            if cpu_type(&e.zone_type) {
                let ghost old_preferred = preferred@;
                preferred.push(e.temp_path.clone());
                assert(paths_view(preferred@) =~= paths_view(old_preferred).push(e.temp_path@));
            }
        }
        i = i + 1;
    }
    assert(entries@.take(entries@.len() as int) =~= entries@);
    if preferred.len() == 0 {
        fallback
    } else {
        preferred
    }
}

/// The entry is kept among the zones read, with `cpu_only` or without.
pub open spec fn kept(e: ThermalZoneEntry, cpu_only: bool) -> bool {
    is_zone_with_temp(e) && (!cpu_only || is_cpu_type(e.zone_type@))
}

proof fn lemma_zone_paths_from_entries(es: Seq<ThermalZoneEntry>, cpu_only: bool)
    ensures
        forall|k: int|
            0 <= k < zone_temp_paths(es, cpu_only).len() ==> exists|i: int|
                0 <= i < es.len() && kept(#[trigger] es[i], cpu_only) && es[i].temp_path@
                    == #[trigger] zone_temp_paths(es, cpu_only)[k],
        (zone_temp_paths(es, cpu_only).len() == 0) <==> (forall|i: int|
            0 <= i < es.len() ==> !kept(#[trigger] es[i], cpu_only)),
    decreases es.len(),
{
    if es.len() > 0 {
        let p = es.drop_last();
        lemma_zone_paths_from_entries(p, cpu_only);
        let rest = zone_temp_paths(p, cpu_only);
        let r = zone_temp_paths(es, cpu_only);
        assert forall|k: int| 0 <= k < r.len() implies exists|i: int|
            0 <= i < es.len() && kept(#[trigger] es[i], cpu_only) && es[i].temp_path@ == #[trigger] r[k] by {
            if k < rest.len() {
                assert(r[k] == rest[k]);
                let i = choose|i: int|
                    0 <= i < p.len() && kept(#[trigger] p[i], cpu_only) && p[i].temp_path@
                        == rest[k];
                assert(es[i] == p[i]);
            } else {
                assert(es[es.len() - 1] == es.last());
            }
        }
        if r.len() == 0 {
            assert forall|i: int| 0 <= i < es.len() implies !kept(#[trigger] es[i], cpu_only) by {
                if i < p.len() {
                    assert(es[i] == p[i]);
                } else {
                    assert(es[i] == es.last());
                }
            }
        } else if rest.len() == 0 {
            assert(kept(es.last(), cpu_only));
            assert(es[es.len() - 1] == es.last());
        } else {
            let i = choose|i: int| 0 <= i < p.len() && kept(#[trigger] p[i], cpu_only) && p[i].temp_path@ == rest[0];
            assert(es[i] == p[i]);
        }
    }
}

/// Only zones with a temperature file are read; when some of them are of
/// a CPU-like type, only those are read; when none is, all of them are.
pub proof fn law_cpu_zones_preferred(es: Seq<ThermalZoneEntry>)
    ensures
        forall|k: int|
            0 <= k < selected_zone_paths(es).len() ==> exists|i: int|
                0 <= i < es.len() && is_zone_with_temp(#[trigger] es[i]) && es[i].temp_path@
                    == #[trigger] selected_zone_paths(es)[k],
        (exists|i: int| 0 <= i < es.len() && #[trigger] kept(es[i], true)) ==> forall|k: int|
            0 <= k < selected_zone_paths(es).len() ==> exists|i: int|
                0 <= i < es.len() && kept(#[trigger] es[i], true) && es[i].temp_path@
                    == #[trigger] selected_zone_paths(es)[k],
        (forall|i: int| 0 <= i < es.len() ==> !#[trigger] kept(es[i], true))
            ==> selected_zone_paths(es) == zone_temp_paths(es, false),
{
    lemma_zone_paths_from_entries(es, true);
    lemma_zone_paths_from_entries(es, false);
}

/// A word that marks a zone type as CPU-like: `cpu`, `package` or `soc`,
/// in any letter case.
pub open spec fn is_cpu_word(w: Seq<char>) -> bool {
    ||| ascii_lower_seq(w) == "cpu"@
    ||| ascii_lower_seq(w) == "package"@
    ||| ascii_lower_seq(w) == "soc"@
}

proof fn lemma_lower_keeps_solid(c: char)
    requires
        !is_white_space(ascii_lower(c)),
    ensures
        !is_white_space(c),
{
}

proof fn lemma_lower_subrange(t: Seq<char>, i: int, n: int)
    requires
        0 <= i <= i + n <= t.len(),
    ensures
        ascii_lower_seq(t).subrange(i, i + n) == ascii_lower_seq(t.subrange(i, i + n)),
{
    assert(ascii_lower_seq(t).subrange(i, i + n) =~= ascii_lower_seq(t.subrange(i, i + n)));
}

/// A zone type is CPU-like whenever `cpu`, `package` or `soc` occurs in
/// it, in any letter case, whatever surrounds it.
pub proof fn law_cpu_word_makes_cpu_type(a: Seq<char>, w: Seq<char>, b: Seq<char>)
    requires
        is_cpu_word(w),
    ensures
        is_cpu_type(a + w + b),
{
    reveal_strlit("cpu");
    reveal_strlit("package");
    reveal_strlit("soc");
    let x = a + w + b;
    let n = a.len() as int;
    let m = w.len() as int;
    assert("cpu"@.len() == 3 && "package"@.len() == 7 && "soc"@.len() == 3);
    assert(ascii_lower_seq(w).len() == m);
    assert(m > 0);
    assert(ascii_lower_seq(w)[0] == ascii_lower(w[0]));
    assert(ascii_lower_seq(w)[m - 1] == ascii_lower(w[m - 1]));
    lemma_lower_keeps_solid(w[0]);
    lemma_lower_keeps_solid(w[m - 1]);
    assert(x[n] == w[0]);
    assert(x[n + m - 1] == w[m - 1]);
    let (j, e) = law_trim_keeps_inner_stretch(x);
    assert(j <= n) by {
        if j > n {
            assert(is_white_space(x[n]));
        }
    }
    assert(e >= n + m) by {
        if e < n + m {
            assert(is_white_space(x[n + m - 1]));
        }
    }
    let t = trimmed(x);
    assert(t.subrange(n - j, n - j + m) =~= w);
    lemma_lower_subrange(t, n - j, m);
    let l = ascii_lower_seq(t);
    let k = n - j;
    if ascii_lower_seq(w) == "cpu"@ {
        assert(l.subrange(k, k + "cpu"@.len()) == "cpu"@);
    } else if ascii_lower_seq(w) == "package"@ {
        assert(l.subrange(k, k + "package"@.len()) == "package"@);
    } else {
        assert(l.subrange(k, k + "soc"@.len()) == "soc"@);
    }
}

/// Nothing else is CPU-like: a CPU-like zone type holds `cpu`, `package`
/// or `soc`, in some letter case, somewhere in it.
pub proof fn law_cpu_type_holds_cpu_word(t: Seq<char>)
    requires
        is_cpu_type(t),
    ensures
        exists|i: int, n: int| 0 <= i && i + n <= t.len() && is_cpu_word(#[trigger] t.subrange(i, i + n)),
{
    let (j, e) = law_trim_keeps_inner_stretch(t);
    let tt = trimmed(t);
    let l = ascii_lower_seq(tt);
    let p = if has_infix(l, "cpu"@) {
        "cpu"@
    } else if has_infix(l, "package"@) {
        "package"@
    } else {
        "soc"@
    };
    assert(has_infix(l, p));
    let i = choose|i: int| 0 <= i && i + p.len() <= l.len() && #[trigger] l.subrange(i, i + p.len()) == p;
    let n = p.len() as int;
    lemma_lower_subrange(tt, i, n);
    assert(tt.subrange(i, i + n) =~= t.subrange(j + i, j + i + n));
    assert(is_cpu_word(t.subrange(j + i, j + i + n)));
}

/// A zone with a temperature file is exactly an entry named
/// `thermal_zone` followed by anything, whose `temp` file exists.
pub proof fn law_thermal_zone_names(e: ThermalZoneEntry)
    ensures
        is_zone_with_temp(e) <==> (e.temp_exists && e.zone_name is Some && exists|k: Seq<char>|
            e.zone_name->0@ == "thermal_zone"@ + k),
{
    if let Some(name) = e.zone_name {
        let p = "thermal_zone"@;
        if has_prefix(name@, p) {
            let k = name@.skip(p.len() as int);
            assert(name@ =~= p + k);
        }
        if exists|k: Seq<char>| name@ == p + k {
            let k = choose|k: Seq<char>| name@ == p + k;
            assert(name@.subrange(0, p.len() as int) =~= p);
        }
    }
}

/// The temperature files read for the CPU temperature.
pub struct CpuTempCollector {
    thermal_zone_paths: Vec<String>,
}

impl CpuTempCollector {
    /// The paths currently read.
    pub closed spec fn paths(self) -> Seq<Seq<char>> {
        paths_view(self.thermal_zone_paths@)
    }

    /// A collector that reads the zones chosen among `entries`, the listing
    /// of the thermal sysfs directory.
    pub fn new(entries: &Vec<ThermalZoneEntry>) -> (c: Self)
        ensures
            c.paths() == selected_zone_paths(entries@),
    {
        CpuTempCollector { thermal_zone_paths: select_zone_paths(entries) }
    }

    /// Whether no zone is known, so that the directory has to be listed
    /// again before reading.
    pub fn needs_discovery(&self) -> (b: bool)
        ensures
            b == (self.paths().len() == 0),
    {
        self.thermal_zone_paths.len() == 0
    }

    /// Chooses the zones again from a fresh listing of the directory.
    pub fn rediscover(&mut self, entries: &Vec<ThermalZoneEntry>)
        ensures
            final(self).paths() == selected_zone_paths(entries@),
    {
        self.thermal_zone_paths = select_zone_paths(entries);
    }

    /// The temperature files to read, in order.
    pub fn thermal_zone_paths(&self) -> (r: &Vec<String>)
        ensures
            paths_view(r@) == self.paths(),
    {
        &self.thermal_zone_paths
    }
}

} // verus!
