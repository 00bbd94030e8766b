//! Character-level text helpers with their specifications: Unicode
//! whitespace trimming, ASCII lower-casing, prefix and substring tests.

use vstd::prelude::*;

verus! {

/// Unicode `White_Space` code points, the set that `char::is_whitespace`
/// and `str::trim` use.
pub open spec fn is_white_space(c: char) -> bool {
    ||| ('\u{9}' <= c && c <= '\u{d}')
    ||| c == ' '
    ||| c == '\u{85}'
    ||| c == '\u{a0}'
    ||| c == '\u{1680}'
    ||| ('\u{2000}' <= c && c <= '\u{200a}')
    ||| c == '\u{2028}'
    ||| c == '\u{2029}'
    ||| c == '\u{202f}'
    ||| c == '\u{205f}'
    ||| c == '\u{3000}'
}

/// `s` without its leading whitespace.
pub open spec fn trim_start_seq(s: Seq<char>) -> Seq<char>
    decreases s.len(),
{
    if s.len() > 0 && is_white_space(s[0]) {
        trim_start_seq(s.drop_first())
    } else {
        s
    }
}

/// `s` without its trailing whitespace.
pub open spec fn trim_end_seq(s: Seq<char>) -> Seq<char>
    decreases s.len(),
{
    if s.len() > 0 && is_white_space(s.last()) {
        trim_end_seq(s.drop_last())
    } else {
        s
    }
}

/// `s` without leading and trailing whitespace.
pub open spec fn trimmed(s: Seq<char>) -> Seq<char> {
    trim_end_seq(trim_start_seq(s))
}

/// The ASCII lower-case form of one character; other characters are kept.
pub open spec fn ascii_lower(c: char) -> char {
    if 'A' <= c && c <= 'Z' {
        ((c as u32) + 32) as char
    } else {
        c
    }
}

/// The ASCII lower-case form of a text.
pub open spec fn ascii_lower_seq(s: Seq<char>) -> Seq<char> {
    Seq::new(s.len(), |i: int| ascii_lower(s[i]))
}

/// `p` is a prefix of `s`.
pub open spec fn has_prefix(s: Seq<char>, p: Seq<char>) -> bool {
    p.len() <= s.len() && s.subrange(0, p.len() as int) == p
}

/// `p` occurs in `s` as a contiguous piece.
pub open spec fn has_infix(s: Seq<char>, p: Seq<char>) -> bool {
    exists|i: int| 0 <= i && i + p.len() <= s.len() && #[trigger] s.subrange(i, i + p.len()) == p
}

proof fn lemma_trim_start_shape(s: Seq<char>)
    ensures
        trim_start_seq(s).len() <= s.len(),
        trim_start_seq(s) == s.subrange(s.len() - trim_start_seq(s).len(), s.len() as int),
        trim_start_seq(s).len() == 0 || !is_white_space(trim_start_seq(s)[0]),
    decreases s.len(),
{
    if s.len() > 0 && is_white_space(s[0]) {
        lemma_trim_start_shape(s.drop_first());
        let t = trim_start_seq(s.drop_first());
        assert(s.drop_first().subrange(s.len() - 1 - t.len(), s.len() - 1) =~= s.subrange(
            s.len() - t.len(),
            s.len() as int,
        ));
    } else {
        assert(s.subrange(0, s.len() as int) =~= s);
    }
}

proof fn lemma_trim_end_shape(s: Seq<char>)
    ensures
        trim_end_seq(s).len() <= s.len(),
        trim_end_seq(s) == s.subrange(0, trim_end_seq(s).len() as int),
        trim_end_seq(s).len() == 0 || !is_white_space(trim_end_seq(s).last()),
    decreases s.len(),
{
    if s.len() > 0 && is_white_space(s.last()) {
        lemma_trim_end_shape(s.drop_last());
        let t = trim_end_seq(s.drop_last());
        assert(s.drop_last().subrange(0, t.len() as int) =~= s.subrange(0, t.len() as int));
    } else {
        assert(s.subrange(0, s.len() as int) =~= s);
    }
}

/// Trimming a text leaves no whitespace at either end of it, and trimming
/// again changes nothing.
pub proof fn law_trim_idempotent(s: Seq<char>)
    ensures
        trimmed(s).len() == 0 || (!is_white_space(trimmed(s)[0]) && !is_white_space(
            trimmed(s).last(),
        )),
        trimmed(trimmed(s)) == trimmed(s),
{
    lemma_trim_start_shape(s);
    let t = trim_start_seq(s);
    lemma_trim_end_shape(t);
    let r = trim_end_seq(t);
    if r.len() > 0 {
        assert(r[0] == t[0]);
        assert(trim_start_seq(r) == r);
        assert(trim_end_seq(r) == r);
    } else {
        assert(trim_start_seq(r) == r);
    }
}

/// Whether one character is Unicode whitespace.
pub fn white_space(c: char) -> (b: bool)
    ensures
        b == is_white_space(c),
{
    ('\u{9}' <= c && c <= '\u{d}') || c == ' ' || c == '\u{85}' || c == '\u{a0}' || c
        == '\u{1680}' || ('\u{2000}' <= c && c <= '\u{200a}') || c == '\u{2028}' || c
        == '\u{2029}' || c == '\u{202f}' || c == '\u{205f}' || c == '\u{3000}'
}

/// The characters of a text, in order.
pub fn chars_of(s: &str) -> (v: Vec<char>)
    ensures
        v@ == s@,
{
    let n = s.unicode_len();
    let mut v: Vec<char> = Vec::new();
    let mut i: usize = 0;
    while i < n
        invariant
            n == s@.len(),
            i <= n,
            v@ == s@.subrange(0, i as int),
        decreases n - i,
    {
        let c = s.get_char(i);
        v.push(c);
        i = i + 1;
        assert(v@ =~= s@.subrange(0, i as int));
    }
    assert(v@ =~= s@);
    v
}

proof fn lemma_trim_start(s: Seq<char>, k: int)
    requires
        0 <= k <= s.len(),
        forall|i: int| 0 <= i < k ==> is_white_space(#[trigger] s[i]),
        k == s.len() || !is_white_space(s[k]),
    ensures
        trim_start_seq(s) == s.subrange(k, s.len() as int),
    decreases k,
{
    if k == 0 {
        assert(s.subrange(0, s.len() as int) =~= s);
        if s.len() > 0 {
            assert(!is_white_space(s[0]));
        }
    } else {
        assert(is_white_space(s[0]));
        let t = s.drop_first();
        assert forall|i: int| 0 <= i < k - 1 implies is_white_space(#[trigger] t[i]) by {
            assert(t[i] == s[i + 1]);
        }
        if k < s.len() {
            assert(t[k - 1] == s[k]);
        }
        lemma_trim_start(t, k - 1);
        assert(t.subrange(k - 1, t.len() as int) =~= s.subrange(k, s.len() as int));
    }
}

proof fn lemma_trim_end(s: Seq<char>, e: int)
    requires
        0 <= e <= s.len(),
        forall|i: int| e <= i < s.len() ==> is_white_space(#[trigger] s[i]),
        e == 0 || !is_white_space(s[e - 1]),
    ensures
        trim_end_seq(s) == s.subrange(0, e),
    decreases s.len() - e,
{
    if e == s.len() {
        assert(s.subrange(0, e) =~= s);
        if s.len() > 0 {
            assert(!is_white_space(s.last()));
        }
    } else {
        assert(is_white_space(s[s.len() - 1]));
        let t = s.drop_last();
        assert forall|i: int| e <= i < t.len() implies is_white_space(#[trigger] t[i]) by {
            assert(t[i] == s[i]);
        }
        if e > 0 {
            assert(t[e - 1] == s[e - 1]);
        }
        lemma_trim_end(t, e);
        assert(t.subrange(0, e) =~= s.subrange(0, e));
    }
}

/// When `j..e` is the stretch of `s` between its leading and trailing
/// whitespace, trimming gives exactly that stretch.
pub proof fn lemma_trimmed_is(s: Seq<char>, j: int, e: int)
    requires
        0 <= j <= e <= s.len(),
        forall|i: int| 0 <= i < j ==> is_white_space(#[trigger] s[i]),
        forall|i: int| e <= i < s.len() ==> is_white_space(#[trigger] s[i]),
        j < e ==> !is_white_space(s[j]) && !is_white_space(s[e - 1]),
    ensures
        trimmed(s) == s.subrange(j, e),
{
    if j < e {
        lemma_trim_start(s, j);
        let t = s.subrange(j, s.len() as int);
        assert forall|i: int| e - j <= i < t.len() implies is_white_space(#[trigger] t[i]) by {
            assert(t[i] == s[i + j]);
        }
        assert(t[e - j - 1] == s[e - 1]);
        lemma_trim_end(t, e - j);
        assert(t.subrange(0, e - j) =~= s.subrange(j, e));
    } else {
        assert forall|i: int| 0 <= i < s.len() implies is_white_space(#[trigger] s[i]) by {
            if i >= e {
            } else {
            }
        }
        lemma_trim_start(s, s.len() as int);
        let t = s.subrange(s.len() as int, s.len() as int);
        assert(t.len() == 0);
        assert(trim_end_seq(t) == t);
        assert(t =~= s.subrange(j, e));
    }
}

proof fn first_solid(s: Seq<char>, i: int) -> (k: int)
    requires
        0 <= i <= s.len(),
        forall|j: int| 0 <= j < i ==> is_white_space(#[trigger] s[j]),
    ensures
        i <= k <= s.len(),
        forall|j: int| 0 <= j < k ==> is_white_space(#[trigger] s[j]),
        k == s.len() || !is_white_space(s[k]),
    decreases s.len() - i,
{
    if i == s.len() || !is_white_space(s[i]) {
        i
    } else {
        first_solid(s, i + 1)
    }
}

proof fn last_solid(s: Seq<char>, lo: int, e: int) -> (r: int)
    requires
        0 <= lo <= e <= s.len(),
        forall|j: int| e <= j < s.len() ==> is_white_space(#[trigger] s[j]),
        lo < s.len() ==> !is_white_space(s[lo]),
    ensures
        lo <= r <= e,
        forall|j: int| r <= j < s.len() ==> is_white_space(#[trigger] s[j]),
        r == lo || !is_white_space(s[r - 1]),
        lo < s.len() ==> lo < r,
    decreases e - lo,
{
    if e == lo || !is_white_space(s[e - 1]) {
        e
    } else {
        last_solid(s, lo, e - 1)
    }
}

/// Trimming keeps the stretch between the leading and the trailing
/// whitespace of a text: it gives `s[j..e]`, everything before `j` and
/// from `e` on is whitespace, and the kept stretch neither starts nor ends
/// with whitespace.
pub proof fn law_trim_keeps_inner_stretch(s: Seq<char>) -> (r: (int, int))
    ensures
        0 <= r.0 <= r.1 <= s.len(),
        trimmed(s) == s.subrange(r.0, r.1),
        forall|i: int| 0 <= i < r.0 ==> is_white_space(#[trigger] s[i]),
        forall|i: int| r.1 <= i < s.len() ==> is_white_space(#[trigger] s[i]),
        r.0 < r.1 ==> !is_white_space(s[r.0]) && !is_white_space(s[r.1 - 1]),
{
    let j = first_solid(s, 0);
    let e = last_solid(s, j, s.len() as int);
    lemma_trimmed_is(s, j, e);
    (j, e)
}

/// Whitespace around a text does not change what trimming gives.
pub proof fn law_trim_ignores_outer_whitespace(p: Seq<char>, s: Seq<char>, q: Seq<char>)
    requires
        forall|i: int| 0 <= i < p.len() ==> is_white_space(#[trigger] p[i]),
        forall|i: int| 0 <= i < q.len() ==> is_white_space(#[trigger] q[i]),
    ensures
        trimmed(p + s + q) == trimmed(s),
{
    let (j, e) = law_trim_keeps_inner_stretch(s);
    let x = p + s + q;
    let n = p.len() as int;
    assert forall|i: int| 0 <= i < n + j implies is_white_space(#[trigger] x[i]) by {
        if i < n {
            assert(x[i] == p[i]);
        } else {
            assert(x[i] == s[i - n]);
        }
    }
    assert forall|i: int| n + e <= i < x.len() implies is_white_space(#[trigger] x[i]) by {
        if i < n + s.len() {
            assert(x[i] == s[i - n]);
        } else {
            assert(x[i] == q[i - n - s.len()]);
        }
    }
    if j < e {
        assert(x[n + j] == s[j]);
        assert(x[n + e - 1] == s[e - 1]);
    }
    lemma_trimmed_is(x, n + j, n + e);
    assert(x.subrange(n + j, n + e) =~= s.subrange(j, e));
}

/// Trimming a text whose first and last characters are not whitespace
/// changes nothing.
pub proof fn law_trim_keeps_solid_text(s: Seq<char>)
    requires
        s.len() > 0 ==> !is_white_space(s[0]) && !is_white_space(s.last()),
    ensures
        trimmed(s) == s,
{
    lemma_trimmed_is(s, 0, s.len() as int);
    assert(s.subrange(0, s.len() as int) =~= s);
}

/// The text without leading and trailing Unicode whitespace, as `str::trim`
/// gives it.
pub fn trim(s: &str) -> (r: String)
    ensures
        r@ == trimmed(s@),
{
    let cs = chars_of(s);
    let n = cs.len();
    let mut k: usize = 0;
    while k < n && white_space(cs[k])
        invariant
            n == cs@.len(),
            k <= n,
            forall|i: int| 0 <= i < k ==> is_white_space(#[trigger] cs@[i]),
        decreases n - k,
    {
        k = k + 1;
    }
    let mut e: usize = n;
    while e > k && white_space(cs[e - 1])
        invariant
            n == cs@.len(),
            k <= e <= n,
            forall|i: int| e <= i < n ==> is_white_space(#[trigger] cs@[i]),
        decreases e - k,
    {
        e = e - 1;
    }
    proof {
        let sv = s@;
        lemma_trim_start(sv, k as int);
        let t = sv.subrange(k as int, sv.len() as int);
        assert forall|i: int| e - k <= i < t.len() implies is_white_space(#[trigger] t[i]) by {
            assert(t[i] == sv[i + k]);
        }
        if e > k {
            assert(t[e - k - 1] == sv[e - 1]);
        }
        lemma_trim_end(t, e - k);
        assert(t.subrange(0, e - k) =~= sv.subrange(k as int, e as int));
    }
    let piece = s.substring_char(k, e);
    String::from_str(piece)
}

/// Whether `p` is a prefix of `s`.
pub fn starts_with(s: &Vec<char>, p: &Vec<char>) -> (b: bool)
    ensures
        b == has_prefix(s@, p@),
{
    if p.len() > s.len() {
        return false;
    }
    let mut i: usize = 0;
    while i < p.len()
        invariant
            p@.len() <= s@.len(),
            i <= p@.len(),
            forall|j: int| 0 <= j < i ==> s@[j] == p@[j],
        decreases p.len() - i,
    {
        if s[i] != p[i] {
            assert(s@.subrange(0, p@.len() as int)[i as int] != p@[i as int]);
            return false;
        }
        i = i + 1;
    }
    assert(s@.subrange(0, p@.len() as int) =~= p@);
    true
}

/// Whether `p` occurs in `s` at position `at`.
fn occurs_at(s: &Vec<char>, p: &Vec<char>, at: usize) -> (b: bool)
    requires
        at + p@.len() <= s@.len(),
    ensures
        b == (s@.subrange(at as int, at + p@.len()) == p@),
{
    let n = s.len();
    let mut i: usize = 0;
    while i < p.len()
        invariant
            n == s@.len(),
            at + p@.len() <= s@.len(),
            i <= p@.len(),
            forall|j: int| 0 <= j < i ==> s@[at + j] == p@[j],
        decreases p.len() - i,
    {
        if s[at + i] != p[i] {
            assert(s@.subrange(at as int, at + p@.len())[i as int] != p@[i as int]);
            return false;
        }
        i = i + 1;
    }
    assert(s@.subrange(at as int, at + p@.len()) =~= p@);
    true
}

/// Whether `p` occurs in `s`, as `str::contains` answers for text patterns.
pub fn contains(s: &Vec<char>, p: &Vec<char>) -> (b: bool)
    ensures
        b == has_infix(s@, p@),
{
    if p.len() > s.len() {
        return false;
    }
    let last = s.len() - p.len();
    let mut at: usize = 0;
    while at <= last
        invariant
            last + p@.len() == s@.len(),
            at <= last + 1,
            forall|i: int| 0 <= i < at ==> #[trigger] s@.subrange(i, i + p@.len()) != p@,
        decreases last + 1 - at,
    {
        if occurs_at(s, p, at) {
            return true;
        }
        if at == last {
            return false;
        }
        at = at + 1;
    }
    false
}

/// The ASCII lower-case form of one character.
pub fn lower_char(c: char) -> (r: char)
    ensures
        r == ascii_lower(c),
{
    if 'A' <= c && c <= 'Z' {
        let u: u8 = (c as u32) as u8;
        let l: u8 = u + 32;
        l as char
    } else {
        c
    }
}

/// The ASCII lower-case form of a text, as `str::to_ascii_lowercase` gives it.
pub fn to_ascii_lowercase(s: &Vec<char>) -> (r: Vec<char>)
    ensures
        r@ == ascii_lower_seq(s@),
{
    let mut r: Vec<char> = Vec::new();
    let mut i: usize = 0;
    while i < s.len()
        invariant
            i <= s@.len(),
            r@ == ascii_lower_seq(s@.subrange(0, i as int)),
        decreases s.len() - i,
    {
        let c = lower_char(s[i]);
        r.push(c);
        i = i + 1;
        assert(r@ =~= ascii_lower_seq(s@.subrange(0, i as int)));
    }
    assert(s@.subrange(0, s@.len() as int) =~= s@);
    r
}

} // verus!
