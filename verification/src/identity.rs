//! The device identifier and host name reported with every snapshot.
//!
//! The caller reads the candidate sources (machine id file, host name file,
//! environment, the system call's buffer); the choice among them is made
//! here.

use vstd::prelude::*;
use vstd::utf8::{decode_utf8, valid_utf8};
use crate::text::{law_trim_idempotent, trim, trimmed};

verus! {

/// The view of an optional text.
pub open spec fn opt_view(o: Option<String>) -> Option<Seq<char>> {
    match o {
        Some(s) => Some(s@),
        None => None,
    }
}

/// A source's text without surrounding whitespace, when something remains.
pub open spec fn usable(o: Option<Seq<char>>) -> Option<Seq<char>> {
    match o {
        Some(s) => if trimmed(s).len() > 0 {
            Some(trimmed(s))
        } else {
            None
        },
        None => None,
    }
}

/// The device identifier: the machine id, else the `HOSTNAME` variable,
/// each trimmed and used only when something remains, else
/// `unknown-device`.
pub open spec fn device_id_from(machine_id: Option<Seq<char>>, env_hostname: Option<Seq<char>>) -> Seq<
    char,
> {
    match usable(machine_id) {
        Some(id) => id,
        None => match usable(env_hostname) {
            Some(h) => h,
            None => "unknown-device"@,
        },
    }
}

/// The host name: the system's, else the host name file, else the
/// `HOSTNAME` variable, the last two trimmed and used only when something
/// remains, else `unknown-host`.
pub open spec fn hostname_from(
    system: Option<Seq<char>>,
    hostname_file: Option<Seq<char>>,
    env_hostname: Option<Seq<char>>,
) -> Seq<char> {
    match system {
        Some(h) => h,
        None => match usable(hostname_file) {
            Some(h) => h,
            None => match usable(env_hostname) {
                Some(h) => h,
                None => "unknown-host"@,
            },
        },
    }
}

/// The index of the first zero byte, or the length when there is none.
pub open spec fn nul_position(b: Seq<u8>) -> int
    decreases b.len(),
{
    if b.len() == 0 {
        0
    } else if b[0] == 0 {
        0
    } else {
        1 + nul_position(b.drop_first())
    }
}

/// The host name held in the buffer the system call filled: the bytes
/// before the first zero, when they are UTF-8 and something remains of
/// them once trimmed.
pub open spec fn hostname_in_buffer(b: Seq<u8>) -> Option<Seq<char>> {
    let bytes = b.take(nul_position(b));
    if !valid_utf8(bytes) {
        None
    } else if trimmed(decode_utf8(bytes)).len() == 0 {
        None
    } else {
        Some(trimmed(decode_utf8(bytes)))
    }
}

/// `std::str::from_utf8`: the bytes as text when they are valid UTF-8
/// (as vstd's `valid_utf8` defines it), with the characters that they
/// encode; `None` otherwise.
#[verifier::external_body]
fn str_from_utf8(bytes: &[u8]) -> (r: Option<&str>)
    ensures
        r is Some <==> valid_utf8(bytes@),
        r matches Some(s) ==> s@ == decode_utf8(bytes@),
{
    std::str::from_utf8(bytes).ok()
}

/// A candidate text trimmed, when something remains of it.
pub fn usable_text(o: &Option<String>) -> (r: Option<String>)
    ensures
        opt_view(r) == usable(opt_view(*o)),
{
    match o {
        Some(s) => {
            let t = trim(s.as_str());
            if t.as_str().unicode_len() > 0 {
                Some(t)
            } else {
                None
            }
        },
        None => None,
    }
}

/// Chooses the device identifier from the machine id file's content and
/// the `HOSTNAME` environment variable, each `None` when it could not be
/// read.
pub fn choose_device_id(machine_id: &Option<String>, env_hostname: &Option<String>) -> (r: String)
    ensures
        r@ == device_id_from(opt_view(*machine_id), opt_view(*env_hostname)),
{
    match usable_text(machine_id) {
        Some(id) => id,
        None => match usable_text(env_hostname) {
            Some(h) => h,
            None => String::from_str("unknown-device"),
        },
    }
}

/// Chooses the host name from the system's host name, the host name
/// file's content and the `HOSTNAME` environment variable, each `None` when
/// it could not be read.
pub fn choose_hostname(
    system: &Option<String>,
    hostname_file: &Option<String>,
    env_hostname: &Option<String>,
) -> (r: String)
    ensures
        r@ == hostname_from(opt_view(*system), opt_view(*hostname_file), opt_view(*env_hostname)),
{
    match system {
        Some(h) => h.clone(),
        None => match usable_text(hostname_file) {
            Some(h) => h,
            None => match usable_text(env_hostname) {
                Some(h) => h,
                None => String::from_str("unknown-host"),
            },
        },
    }
}

proof fn lemma_nul_position(b: Seq<u8>, k: int)
    requires
        0 <= k <= b.len(),
        forall|i: int| 0 <= i < k ==> #[trigger] b[i] != 0,
        k == b.len() || b[k] == 0,
    ensures
        nul_position(b) == k,
    decreases k,
{
    if k > 0 {
        assert(b[0] != 0);
        let t = b.drop_first();
        assert forall|i: int| 0 <= i < k - 1 implies #[trigger] t[i] != 0 by {
            assert(t[i] == b[i + 1]);
        }
        if k < b.len() {
            assert(t[k - 1] == b[k]);
        }
        lemma_nul_position(t, k - 1);
    }
}

/// The host name held in the buffer that the host name system call
/// filled.
pub fn hostname_from_buffer(buffer: &[u8]) -> (r: Option<String>)
    ensures
        opt_view(r) == hostname_in_buffer(buffer@),
{
    let n = buffer.len();
    let mut k: usize = 0;
    while k < n && buffer[k] != 0
        invariant
            n == buffer@.len(),
            k <= n,
            forall|i: int| 0 <= i < k ==> #[trigger] buffer@[i] != 0,
        decreases n - k,
    {
        k = k + 1;
    }
    proof {
        lemma_nul_position(buffer@, k as int);
    }
    let (head, _) = buffer.split_at(k);
    assert(head@ == buffer@.take(k as int));
    match str_from_utf8(head) {
        Some(s) => {
            let t = trim(s);
            if t.as_str().unicode_len() > 0 {
                Some(t)
            } else {
                None
            }
        },
        None => None,
    }
}

/// The machine id wins whenever something remains of it once trimmed,
/// whatever the environment holds; only when it is missing or blank does
/// the `HOSTNAME` variable count; only when both are missing or blank is
/// the identifier `unknown-device`.
pub proof fn law_device_id_sources_in_order(m: Option<Seq<char>>, e: Option<Seq<char>>)
    ensures
        m is Some && trimmed(m->0).len() > 0 ==> device_id_from(m, e) == trimmed(m->0),
        (m is None || trimmed(m->0).len() == 0) && e is Some && trimmed(e->0).len() > 0
            ==> device_id_from(m, e) == trimmed(e->0),
        (m is None || trimmed(m->0).len() == 0) && (e is None || trimmed(e->0).len() == 0)
            ==> device_id_from(m, e) == "unknown-device"@,
{
}

/// The system's host name wins whenever there is one; else the host name
/// file, when something remains of it once trimmed; else the `HOSTNAME`
/// variable likewise; else `unknown-host`.
pub proof fn law_hostname_sources_in_order(
    sys: Option<Seq<char>>,
    f: Option<Seq<char>>,
    e: Option<Seq<char>>,
)
    ensures
        sys is Some ==> hostname_from(sys, f, e) == sys->0,
        sys is None && f is Some && trimmed(f->0).len() > 0 ==> hostname_from(sys, f, e)
            == trimmed(f->0),
        sys is None && (f is None || trimmed(f->0).len() == 0) && e is Some && trimmed(e->0).len()
            > 0 ==> hostname_from(sys, f, e) == trimmed(e->0),
        sys is None && (f is None || trimmed(f->0).len() == 0) && (e is None || trimmed(e->0).len()
            == 0) ==> hostname_from(sys, f, e) == "unknown-host"@,
{
}

/// Only the bytes before the first zero count: two buffers that agree up
/// to and including a zero byte hold the same host name.
pub proof fn law_buffer_bytes_after_zero_ignored(b1: Seq<u8>, b2: Seq<u8>, k: int)
    requires
        0 <= k < b1.len(),
        k < b2.len(),
        b1.take(k + 1) == b2.take(k + 1),
        b1[k] == 0,
    ensures
        hostname_in_buffer(b1) == hostname_in_buffer(b2),
{
    let j = choose_first_zero(b1, 0, k);
    assert forall|i: int| 0 <= i <= k implies #[trigger] b2[i] == b1[i] by {
        assert(b1.take(k + 1)[i] == b1[i]);
        assert(b2.take(k + 1)[i] == b2[i]);
    }
    assert(b2[j] == 0);
    assert forall|i: int| 0 <= i < j implies #[trigger] b2[i] != 0 by {
        assert(b2[i] == b1[i]);
    }
    lemma_nul_position(b1, j);
    lemma_nul_position(b2, j);
    assert(b1.take(j) =~= b2.take(j)) by {
        assert forall|i: int| 0 <= i < j implies b1.take(j)[i] == b2.take(j)[i] by {
            assert(b2[i] == b1[i]);
        }
    }
}

proof fn choose_first_zero(b: Seq<u8>, i: int, k: int) -> (j: int)
    requires
        0 <= i <= k < b.len(),
        b[k] == 0,
        forall|x: int| 0 <= x < i ==> #[trigger] b[x] != 0,
    ensures
        i <= j <= k,
        b[j] == 0,
        forall|x: int| 0 <= x < j ==> #[trigger] b[x] != 0,
    decreases k - i,
{
    if b[i] == 0 {
        i
    } else {
        choose_first_zero(b, i + 1, k)
    }
}

/// A name the dashboard and the stream can show: not empty, and with no
/// whitespace around it.
pub open spec fn is_clean_name(s: Seq<char>) -> bool {
    s.len() > 0 && trimmed(s) == s
}

proof fn lemma_usable_is_clean(o: Option<Seq<char>>)
    ensures
        usable(o) matches Some(s) ==> is_clean_name(s),
{
    if let Some(s) = o {
        law_trim_idempotent(s);
    }
}

proof fn lemma_literal_is_clean(lit: Seq<char>)
    requires
        lit.len() > 0,
        !crate::text::is_white_space(lit[0]),
        !crate::text::is_white_space(lit.last()),
    ensures
        is_clean_name(lit),
{
    assert(crate::text::trim_start_seq(lit) == lit);
    assert(crate::text::trim_end_seq(lit) == lit);
}

/// The device identifier is never empty and never has whitespace around
/// it, whatever the sources held.
pub proof fn law_device_id_is_clean(machine_id: Option<Seq<char>>, env_hostname: Option<Seq<char>>)
    ensures
        is_clean_name(device_id_from(machine_id, env_hostname)),
{
    lemma_usable_is_clean(machine_id);
    lemma_usable_is_clean(env_hostname);
    reveal_strlit("unknown-device");
    lemma_literal_is_clean("unknown-device"@);
}

/// The host name taken from the system call's buffer is never empty and
/// never has whitespace around it.
pub proof fn law_buffer_hostname_is_clean(b: Seq<u8>)
    ensures
        hostname_in_buffer(b) matches Some(h) ==> is_clean_name(h),
{
    let bytes = b.take(nul_position(b));
    if valid_utf8(bytes) {
        law_trim_idempotent(decode_utf8(bytes));
    }
}

/// The host name is never empty and never has whitespace around it, when
/// the system's host name, if any, is such a name (as the one taken from
/// the system call's buffer is).
pub proof fn law_hostname_is_clean(
    system: Option<Seq<char>>,
    hostname_file: Option<Seq<char>>,
    env_hostname: Option<Seq<char>>,
)
    requires
        system matches Some(h) ==> is_clean_name(h),
    ensures
        is_clean_name(hostname_from(system, hostname_file, env_hostname)),
{
    lemma_usable_is_clean(hostname_file);
    lemma_usable_is_clean(env_hostname);
    reveal_strlit("unknown-host");
    lemma_literal_is_clean("unknown-host"@);
}

} // verus!
