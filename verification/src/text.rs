//! Character-level text helpers: white-space trimming, repeated prefix
//! stripping and concatenation, each stated over `Seq<char>`.

use vstd::prelude::*;
use vstd::string::*;

verus! {

/// Whether `c` has the Unicode `White_Space` property (the set that
/// `str::trim` removes).
pub open spec fn is_white_space(c: char) -> bool {
    let n = c as u32;
    ||| (0x9 <= n && n <= 0xd)
    ||| n == 0x20
    ||| n == 0x85
    ||| n == 0xa0
    ||| n == 0x1680
    ||| (0x2000 <= n && n <= 0x200a)
    ||| n == 0x2028
    ||| n == 0x2029
    ||| n == 0x202f
    ||| n == 0x205f
    ||| n == 0x3000
}

/// `s` without its leading white space.
pub open spec fn trim_start_seq(s: Seq<char>) -> Seq<char>
    decreases s.len(),
{
    if s.len() > 0 && is_white_space(s[0]) {
        trim_start_seq(s.drop_first())
    } else {
        s
    }
}

/// `s` without its trailing white space.
pub open spec fn trim_end_seq(s: Seq<char>) -> Seq<char>
    decreases s.len(),
{
    if s.len() > 0 && is_white_space(s.last()) {
        trim_end_seq(s.drop_last())
    } else {
        s
    }
}

/// `s` without leading and trailing white space.
pub open spec fn trimmed(s: Seq<char>) -> Seq<char> {
    trim_end_seq(trim_start_seq(s))
}

/// Whether `s` begins with `p`.
pub open spec fn starts_with(s: Seq<char>, p: Seq<char>) -> bool {
    p.len() <= s.len() && s.take(p.len() as int) == p
}

/// `s` with every leading copy of the non-empty pattern `p` removed, one
/// after the other; an empty pattern removes nothing.
pub open spec fn strip_all_prefixes(s: Seq<char>, p: Seq<char>) -> Seq<char>
    decreases s.len(),
{
    if p.len() > 0 && starts_with(s, p) {
        strip_all_prefixes(s.skip(p.len() as int), p)
    } else {
        s
    }
}

/// Executable test of the `White_Space` property.
pub fn white_space(c: char) -> (r: bool)
    ensures
        r == is_white_space(c),
{
    let n: u32 = c as u32;
    (0x9 <= n && n <= 0xd) || n == 0x20 || n == 0x85 || n == 0xa0 || n == 0x1680 || (0x2000 <= n
        && n <= 0x200a) || n == 0x2028 || n == 0x2029 || n == 0x202f || n == 0x205f || n == 0x3000
}

/// `s` with leading and trailing white space removed.
pub fn trim(s: &str) -> (r: &str)
    ensures
        r@ == trimmed(s@),
{
    let n = s.unicode_len();
    let mut i: usize = 0;
    assert(s@.skip(0) =~= s@);
    while i < n
        invariant
            n == s@.len(),
            i <= n,
            trim_start_seq(s@) == trim_start_seq(s@.skip(i as int)),
        ensures
            i <= n,
            i == n || !is_white_space(s@[i as int]),
            trim_start_seq(s@) == trim_start_seq(s@.skip(i as int)),
        decreases n - i,
    {
        if !white_space(s.get_char(i)) {
            break;
        }
        assert(s@.skip(i as int).drop_first() =~= s@.skip(i + 1));
        i = i + 1;
    }
    let ghost front = s@.skip(i as int);
    assert(trim_start_seq(front) == front) by {
        if front.len() > 0 {
            assert(front[0] == s@[i as int]);
        }
    }
    let mut j: usize = n;
    while j > i
        invariant
            n == s@.len(),
            i <= j <= n,
            trim_end_seq(front) == trim_end_seq(s@.subrange(i as int, j as int)),
            front == s@.subrange(i as int, n as int),
        ensures
            i <= j <= n,
            j == i || !is_white_space(s@[j - 1]),
            trim_end_seq(front) == trim_end_seq(s@.subrange(i as int, j as int)),
        decreases j - i,
    {
        if !white_space(s.get_char(j - 1)) {
            break;
        }
        assert(s@.subrange(i as int, j as int).drop_last() =~= s@.subrange(i as int, j - 1));
        j = j - 1;
    }
    assert(front =~= s@.subrange(i as int, n as int));
    let ghost mid = s@.subrange(i as int, j as int);
    assert(trim_end_seq(mid) == mid) by {
        if mid.len() > 0 {
            assert(mid.last() == s@[j - 1]);
        }
    }
    s.substring_char(i, j)
}

/// Whether `p` occurs in `s` at character position `at`.
fn occurs_at(s: &str, n: usize, at: usize, p: &str, m: usize) -> (r: bool)
    requires
        n == s@.len(),
        m == p@.len(),
        at <= n,
    ensures
        r == starts_with(s@.skip(at as int), p@),
{
    if m > n - at {
        return false;
    }
    let mut k: usize = 0;
    while k < m
        invariant
            n == s@.len(),
            m == p@.len(),
            at + m <= n,
            k <= m,
            forall|t: int| 0 <= t < k ==> s@[at + t] == p@[t],
        decreases m - k,
    {
        if s.get_char(at + k) != p.get_char(k) {
            assert(s@.skip(at as int).take(m as int)[k as int] != p@[k as int]);
            return false;
        }
        k = k + 1;
    }
    assert(s@.skip(at as int).take(m as int) =~= p@);
    true
}

/// `s` with every leading copy of `p` removed (`str::trim_start_matches`
/// with a string pattern).
pub fn trim_start_matches<'a>(s: &'a str, p: &str) -> (r: &'a str)
    ensures
        r@ == strip_all_prefixes(s@, p@),
{
    let n = s.unicode_len();
    let m = p.unicode_len();
    if m == 0 {
        return s;
    }
    let mut i: usize = 0;
    assert(s@.skip(0) =~= s@);
    loop
        invariant
            n == s@.len(),
            m == p@.len(),
            m > 0,
            i <= n,
            strip_all_prefixes(s@, p@) == strip_all_prefixes(s@.skip(i as int), p@),
        ensures
            i <= n,
            !starts_with(s@.skip(i as int), p@),
            strip_all_prefixes(s@, p@) == strip_all_prefixes(s@.skip(i as int), p@),
        decreases n - i,
    {
        if !occurs_at(s, n, i, p, m) {
            break;
        }
        assert(s@.skip(i as int).skip(m as int) =~= s@.skip(i + m));
        i = i + m;
    }
    assert(s@.skip(i as int) =~= s@.subrange(i as int, n as int));
    s.substring_char(i, n)
}

/// `a` followed by `b`.
pub fn concatenate(a: &str, b: &str) -> (r: String)
    ensures
        r@ == a@ + b@,
{
    let mut r = String::from_str(a);
    r.append(b);
    r
}

/// Stripping every leading copy of a non-empty pattern removes a whole
/// number of copies of it from the front and nothing else: the result is the
/// rest of the text after them, and it does not begin with the pattern.
pub proof fn strip_all_prefixes_removes_copies(s: Seq<char>, p: Seq<char>)
    requires
        p.len() > 0,
    ensures
        ({
            let r = strip_all_prefixes(s, p);
            let d = s.len() - r.len();
            &&& r.len() <= s.len()
            &&& r == s.skip(d)
            &&& !starts_with(r, p)
            &&& d % (p.len() as int) == 0
            &&& forall|i: int| 0 <= i < d ==> s[i] == p[i % (p.len() as int)]
        }),
    decreases s.len(),
{
    let m = p.len() as int;
    if starts_with(s, p) {
        let t = s.skip(m);
        strip_all_prefixes_removes_copies(t, p);
        let r = strip_all_prefixes(s, p);
        assert(r == strip_all_prefixes(t, p));
        let dt = t.len() - r.len();
        let d = s.len() - r.len();
        assert(d == m + dt);
        assert(r =~= s.skip(d));
        vstd::arithmetic::div_mod::lemma_mod_add_multiples_vanish(dt, m);
        assert forall|i: int| 0 <= i < d implies s[i] == p[i % m] by {
            if i < m {
                vstd::arithmetic::div_mod::lemma_small_mod(i as nat, m as nat);
                assert(s.take(m)[i] == s[i]);
            } else {
                assert(s[i] == t[i - m]);
                vstd::arithmetic::div_mod::lemma_mod_add_multiples_vanish(i - m, m);
            }
        }
    } else {
        assert(s.skip(0) =~= s);
    }
}

/// Trimming the start removes only white space, and what is left is either
/// empty or begins with a character that is not white space.
pub proof fn trim_start_removes_white_space(s: Seq<char>)
    ensures
        ({
            let r = trim_start_seq(s);
            let d = s.len() - r.len();
            &&& r.len() <= s.len()
            &&& r == s.skip(d)
            &&& forall|k: int| 0 <= k < d ==> is_white_space(s[k])
            &&& r.len() > 0 ==> !is_white_space(r[0])
        }),
    decreases s.len(),
{
    if s.len() > 0 && is_white_space(s[0]) {
        let t = s.drop_first();
        trim_start_removes_white_space(t);
        let r = trim_start_seq(s);
        let d = s.len() - r.len();
        assert(r =~= s.skip(d));
        assert forall|k: int| 0 <= k < d implies is_white_space(s[k]) by {
            if k > 0 {
                assert(s[k] == t[k - 1]);
            }
        }
    } else {
        assert(s.skip(0) =~= s);
    }
}

/// Trimming the end removes only white space, and what is left is either
/// empty or ends with a character that is not white space.
pub proof fn trim_end_removes_white_space(s: Seq<char>)
    ensures
        ({
            let r = trim_end_seq(s);
            &&& r.len() <= s.len()
            &&& r == s.take(r.len() as int)
            &&& forall|k: int| r.len() <= k < s.len() ==> is_white_space(s[k])
            &&& r.len() > 0 ==> !is_white_space(r.last())
        }),
    decreases s.len(),
{
    if s.len() > 0 && is_white_space(s.last()) {
        let t = s.drop_last();
        trim_end_removes_white_space(t);
        let r = trim_end_seq(s);
        assert(r =~= s.take(r.len() as int));
        assert forall|k: int| r.len() <= k < s.len() implies is_white_space(s[k]) by {
            if k < s.len() - 1 {
                assert(s[k] == t[k]);
            }
        }
    } else {
        assert(s.take(s.len() as int) =~= s);
    }
}

/// Trimming keeps a contiguous part of the text: everything before it and
/// after it is white space, and the part neither begins nor ends with white
/// space.
pub proof fn trimmed_keeps_the_core(s: Seq<char>)
    ensures
        exists|i: int, j: int|
            0 <= i <= j <= s.len() && trimmed(s) == s.subrange(i, j) && (forall|k: int|
                0 <= k < i ==> is_white_space(s[k])) && (forall|k: int|
                j <= k < s.len() ==> is_white_space(s[k])) && (i < j ==> !is_white_space(s[i])
                && !is_white_space(s[j - 1])),
{
    trim_start_removes_white_space(s);
    let a = trim_start_seq(s);
    trim_end_removes_white_space(a);
    let r = trimmed(s);
    let i = s.len() - a.len();
    let j = i + r.len();
    assert(r =~= s.subrange(i, j));
    assert forall|k: int| j <= k < s.len() implies is_white_space(s[k]) by {
        assert(s[k] == a[k - i]);
    }
    if i < j {
        assert(s[i] == a[0]);
        assert(r[0] == a[0]);
        assert(s[j - 1] == r.last());
    }
}

} // verus!
