//! Sums of per-item byte counters and the deltas between two readings.

use vstd::prelude::*;
use vstd::arithmetic::div_mod::{lemma_add_mod_noop, lemma_mod_sub_multiples_vanish, lemma_small_mod};

verus! {

/// The modulus of 64-bit wrapping arithmetic.
pub open spec fn modulus() -> int {
    0x1_0000_0000_0000_0000
}

/// The first components of `s`, added up.
pub open spec fn sum_firsts(s: Seq<(u64, u64)>) -> int
    decreases s.len(),
{
    if s.len() == 0 {
        0
    } else {
        sum_firsts(s.drop_last()) + s.last().0
    }
}

/// The second components of `s`, added up.
pub open spec fn sum_seconds(s: Seq<(u64, u64)>) -> int
    decreases s.len(),
{
    if s.len() == 0 {
        0
    } else {
        sum_seconds(s.drop_last()) + s.last().1
    }
}

/// The growth of a counter from `prev` to `now`, zero when it went down.
pub open spec fn delta(now: u64, prev: u64) -> u64 {
    if now >= prev {
        (now - prev) as u64
    } else {
        0
    }
}

/// A sum clamped at the largest 64-bit value.
pub open spec fn clamp64(x: int) -> int {
    if x > u64::MAX {
        u64::MAX as int
    } else {
        x
    }
}

/// The used and total space of a list of disks given as (total, available)
/// pairs; each disk's used space is its total less its available space,
/// at least zero, and both sums stop at the largest 64-bit value.
pub open spec fn used_space(s: Seq<(u64, u64)>) -> int
    decreases s.len(),
{
    if s.len() == 0 {
        0
    } else {
        used_space(s.drop_last()) + delta(s.last().0, s.last().1)
    }
}

proof fn lemma_wrap_step(a: int, x: u64)
    requires
        0 <= a,
    ensures
        (a + x) % modulus() == (if (a % modulus()) + x > u64::MAX {
            (a % modulus()) + x - modulus()
        } else {
            (a % modulus()) + x
        }),
{
    let m = modulus();
    lemma_add_mod_noop(a, x as int, m);
    lemma_small_mod(x as nat, m as nat);
    let w = a % m;
    assert(0 <= w < m);
    if w + x > u64::MAX {
        lemma_mod_sub_multiples_vanish(w + x, m);
        lemma_small_mod((w + x - m) as nat, m as nat);
    } else {
        lemma_small_mod((w + x) as nat, m as nat);
    }
}

/// The two components of `pairs` added up with 64-bit wrap-around.
pub fn wrapping_totals(pairs: &Vec<(u64, u64)>) -> (r: (u64, u64))
    ensures
        r.0 == sum_firsts(pairs@) % modulus(),
        r.1 == sum_seconds(pairs@) % modulus(),
{
    let mut first: u64 = 0;
    let mut second: u64 = 0;
    let mut i: usize = 0;
    while i < pairs.len()
        invariant
            i <= pairs@.len(),
            first == sum_firsts(pairs@.take(i as int)) % modulus(),
            second == sum_seconds(pairs@.take(i as int)) % modulus(),
            sum_firsts(pairs@.take(i as int)) >= 0,
            sum_seconds(pairs@.take(i as int)) >= 0,
        decreases pairs.len() - i,
    {
        let (a, b) = pairs[i];
        proof {
            let t = pairs@.take(i + 1);
            assert(t.drop_last() =~= pairs@.take(i as int));
            assert(t.last() == pairs@[i as int]);
            lemma_wrap_step(sum_firsts(pairs@.take(i as int)), a);
            lemma_wrap_step(sum_seconds(pairs@.take(i as int)), b);
        }
        first = first.wrapping_add(a);
        second = second.wrapping_add(b);
        i = i + 1;
    }
    assert(pairs@.take(pairs@.len() as int) =~= pairs@);
    (first, second)
}

/// The used and total space of a list of disks given as (total, available)
/// pairs, both sums clamped at the largest 64-bit value.
pub fn space_totals(disks: &Vec<(u64, u64)>) -> (r: (u64, u64))
    ensures
        r.0 == clamp64(used_space(disks@)),
        r.1 == clamp64(sum_firsts(disks@)),
{
    let mut used: u64 = 0;
    let mut total: u64 = 0;
    let mut i: usize = 0;
    while i < disks.len()
        invariant
            i <= disks@.len(),
            used == clamp64(used_space(disks@.take(i as int))),
            total == clamp64(sum_firsts(disks@.take(i as int))),
            used_space(disks@.take(i as int)) >= 0,
            sum_firsts(disks@.take(i as int)) >= 0,
        decreases disks.len() - i,
    {
        let (size, available) = disks[i];
        proof {
            let t = disks@.take(i + 1);
            assert(t.drop_last() =~= disks@.take(i as int));
            assert(t.last() == disks@[i as int]);
        }
        total = total.saturating_add(size);
        used = used.saturating_add(size.saturating_sub(available));
        i = i + 1;
    }
    assert(disks@.take(disks@.len() as int) =~= disks@);
    (used, total)
}

/// The growth of a counter from `prev` to `now`, zero when it went down.
pub fn counter_delta(now: u64, prev: u64) -> (d: u64)
    ensures
        d == delta(now, prev),
{
    now.saturating_sub(prev)
}

/// The per-interval amounts reported for a series of counter readings.
pub open spec fn deltas_sum(rs: Seq<u64>) -> int
    decreases rs.len(),
{
    if rs.len() <= 1 {
        0
    } else {
        deltas_sum(rs.drop_last()) + delta(rs.last(), rs[rs.len() - 2])
    }
}

/// A per-interval amount never exceeds the counter's new value, and is zero
/// when the counter went down.
pub proof fn law_delta_bounded(now: u64, prev: u64)
    ensures
        delta(now, prev) <= now,
        now < prev ==> delta(now, prev) == 0,
        now >= prev ==> prev + delta(now, prev) == now,
{
}

proof fn lemma_sums_remove(s: Seq<(u64, u64)>, k: int)
    requires
        0 <= k < s.len(),
    ensures
        sum_firsts(s) == sum_firsts(s.remove(k)) + s[k].0,
        sum_seconds(s) == sum_seconds(s.remove(k)) + s[k].1,
    decreases s.len(),
{
    if k == s.len() - 1 {
        assert(s.remove(k) =~= s.drop_last());
    } else {
        lemma_sums_remove(s.drop_last(), k);
        assert(s.remove(k).drop_last() =~= s.drop_last().remove(k));
        assert(s.remove(k).last() == s.last());
        assert(s.drop_last()[k] == s[k]);
    }
}

/// Sums do not depend on the order of the items: two lists holding the
/// same items, each as often, have the same sums.
pub proof fn law_sums_ignore_order(v1: Seq<(u64, u64)>, v2: Seq<(u64, u64)>)
    requires
        v1.to_multiset() == v2.to_multiset(),
    ensures
        sum_firsts(v1) == sum_firsts(v2),
        sum_seconds(v1) == sum_seconds(v2),
    decreases v1.len(),
{
    broadcast use vstd::seq_lib::group_to_multiset_ensures;

    if v1.len() == 0 {
        assert(v2.to_multiset().len() == 0);
        assert(v2 =~= Seq::<(u64, u64)>::empty());
    } else {
        let x = v1.last();
        let p = v1.drop_last();
        assert(p.push(x) =~= v1);
        assert(v1.to_multiset() =~= p.to_multiset().insert(x));
        assert(v2.to_multiset().count(x) > 0);
        assert(v2.contains(x));
        let k = choose|k: int| 0 <= k < v2.len() && v2[k] == x;
        let q = v2.remove(k);
        assert(q.to_multiset() =~= v2.to_multiset().remove(x));
        assert(p.to_multiset().insert(x).remove(x) =~= p.to_multiset());
        law_sums_ignore_order(p, q);
        lemma_sums_remove(v2, k);
    }
}

/// Each disk adds its own share to the sums: its total space to the
/// total, and its total less its available space (zero when the
/// available space is the larger) to the used space.
pub proof fn law_space_sums_per_disk(s: Seq<(u64, u64)>, d: (u64, u64))
    ensures
        sum_firsts(s.push(d)) == sum_firsts(s) + d.0,
        sum_seconds(s.push(d)) == sum_seconds(s) + d.1,
        sum_seconds(Seq::empty()) == 0,
        used_space(s.push(d)) == used_space(s) + (if d.0 >= d.1 {
            d.0 - d.1
        } else {
            0
        }),
        sum_firsts(Seq::empty()) == 0,
        used_space(Seq::empty()) == 0,
{
    assert(s.push(d).drop_last() =~= s);
}

/// The sums over two lists of disks taken together are the sums over each
/// list added up, whatever the order.
pub proof fn law_space_sums_additive(s1: Seq<(u64, u64)>, s2: Seq<(u64, u64)>)
    ensures
        sum_firsts(s1 + s2) == sum_firsts(s1) + sum_firsts(s2),
        sum_seconds(s1 + s2) == sum_seconds(s1) + sum_seconds(s2),
        used_space(s1 + s2) == used_space(s1) + used_space(s2),
        used_space(s1 + s2) == used_space(s2 + s1),
        sum_firsts(s1 + s2) == sum_firsts(s2 + s1),
{
    lemma_sums_concat(s1, s2);
    lemma_sums_concat(s2, s1);
}

proof fn lemma_sums_concat(s1: Seq<(u64, u64)>, s2: Seq<(u64, u64)>)
    ensures
        sum_firsts(s1 + s2) == sum_firsts(s1) + sum_firsts(s2),
        sum_seconds(s1 + s2) == sum_seconds(s1) + sum_seconds(s2),
        used_space(s1 + s2) == used_space(s1) + used_space(s2),
    decreases s2.len(),
{
    if s2.len() == 0 {
        assert(s1 + s2 =~= s1);
    } else {
        lemma_sums_concat(s1, s2.drop_last());
        assert((s1 + s2).drop_last() =~= s1 + s2.drop_last());
        assert((s1 + s2).last() == s2.last());
    }
}

/// The used space of a list of disks never exceeds their total space, so
/// neither do the clamped sums.
pub proof fn law_used_within_total(s: Seq<(u64, u64)>)
    ensures
        used_space(s) <= sum_firsts(s),
        clamp64(used_space(s)) <= clamp64(sum_firsts(s)),
    decreases s.len(),
{
    if s.len() > 0 {
        law_used_within_total(s.drop_last());
    }
}

/// While a counter only grows, the per-interval amounts reported for its
/// readings add up to its growth from the first reading to the last.
pub proof fn law_deltas_add_up(rs: Seq<u64>)
    requires
        rs.len() > 0,
        forall|i: int, j: int| 0 <= i <= j < rs.len() ==> rs[i] <= rs[j],
    ensures
        deltas_sum(rs) == rs.last() - rs[0],
    decreases rs.len(),
{
    if rs.len() > 1 {
        let p = rs.drop_last();
        assert forall|i: int, j: int| 0 <= i <= j < p.len() implies p[i] <= p[j] by {
            assert(p[i] == rs[i] && p[j] == rs[j]);
        }
        law_deltas_add_up(p);
        assert(p.last() == rs[rs.len() - 2]);
        assert(p[0] == rs[0]);
        assert(rs[rs.len() - 2] <= rs[rs.len() - 1]);
    }
}

} // verus!
