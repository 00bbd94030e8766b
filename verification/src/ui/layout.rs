//! Row counts and labels of the dashboard, from plain values.

use vstd::prelude::*;
use vstd::utf8::{decode_utf8, encode_utf8, is_char_boundary};
use vstd::string::StringSliceAdditionalSpecFns;

verus! {

/// The height of the CPU panel for `cores` cores: the core count cut to 16
/// bits, as a cast does, plus three (the total row and the borders),
/// stopping at the largest 16-bit value.
pub open spec fn cpu_panel_height(cores: nat) -> int {
    let h = (cores % 0x10000) as int + 3;
    if h > u16::MAX {
        u16::MAX as int
    } else {
        h
    }
}

/// The number of rows drawn in the CPU panel: the total row and one per
/// core, as far as the panel's inner height allows.
pub open spec fn visible_cpu_rows(cores: nat, inner_height: nat) -> nat {
    if cores + 1 <= inner_height {
        cores + 1
    } else {
        inner_height
    }
}

/// The device identifier as the dashboard shows it: its first twelve bytes
/// followed by `...` when it is longer than twelve bytes, else all of it.
pub open spec fn short_id(id: Seq<char>) -> Seq<char> {
    if encode_utf8(id).len() > 12 {
        decode_utf8(encode_utf8(id).take(12)) + "..."@
    } else {
        id
    }
}

/// The CPU panel shows the total row and one row per core, cut to the
/// panel's inner height: never more rows than either allows, and all the
/// rows that both allow.
pub proof fn law_cpu_rows_fit(cores: nat, inner_height: nat)
    ensures
        visible_cpu_rows(cores, inner_height) <= cores + 1,
        visible_cpu_rows(cores, inner_height) <= inner_height,
        visible_cpu_rows(cores, inner_height) == cores + 1 || visible_cpu_rows(cores, inner_height)
            == inner_height,
{
}

/// The CPU panel is three rows taller than the core count, as long as the
/// count and the height fit in 16 bits.
pub proof fn law_cpu_panel_height(cores: nat)
    ensures
        cores + 3 <= u16::MAX ==> cpu_panel_height(cores) == cores + 3,
        0 <= cpu_panel_height(cores) <= u16::MAX,
{
}

/// The height of the CPU panel for `cores` cores.
pub fn cpu_panel_rows(cores: usize) -> (h: u16)
    ensures
        h == cpu_panel_height(cores as nat),
{
    assert((cores as u16) == cores % 0x10000) by (bit_vector);
    (cores as u16).saturating_add(3)
}

/// The number of rows drawn in a CPU panel of the given inner height.
pub fn cpu_rows_shown(cores: usize, inner_height: u16) -> (n: usize)
    requires
        cores < usize::MAX,
    ensures
        n == visible_cpu_rows(cores as nat, inner_height as nat),
{
    let wanted = cores + 1;
    let height = inner_height as usize;
    if wanted <= height {
        wanted
    } else {
        height
    }
}

/// The device identifier as the dashboard shows it. An identifier longer
/// than twelve bytes must have a character boundary at byte twelve.
pub fn short_device_id(id: &String) -> (r: String)
    requires
        encode_utf8(id@).len() <= usize::MAX,
        encode_utf8(id@).len() > 12 ==> is_char_boundary(encode_utf8(id@), 12),
    ensures
        r@ == short_id(id@),
{
    let s = id.as_str();
    if s.len() > 12 {
        let (head, _) = s.split_at(12);
        proof {
            vstd::utf8::encode_utf8_decode_utf8(head@);
            assert(head.spec_bytes() == encode_utf8(head@));
            assert(encode_utf8(id@).take(12) =~= encode_utf8(id@).subrange(0, 12));
        }
        String::from_str(head).concat("...")
    } else {
        id.clone()
    }
}

} // verus!
