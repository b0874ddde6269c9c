//! Small verified string helpers shared by the request and response code.

use vstd::prelude::*;

verus! {

/// Whether `s` begins with `p`.
pub fn has_prefix(s: &str, p: &str) -> (r: bool)
    ensures
        r == p@.is_prefix_of(s@),
{
    let n = p.unicode_len();
    let m = s.unicode_len();
    if n > m {
        return false;
    }
    let mut i: usize = 0;
    while i < n
        invariant
            i <= n <= m,
            n == p@.len(),
            m == s@.len(),
            forall|j: int| 0 <= j < i ==> s@[j] == p@[j],
        decreases n - i,
    {
        if s.get_char(i) != p.get_char(i) {
            assert(s@.subrange(0, n as int)[i as int] != p@[i as int]);
            return false;
        }
        i = i + 1;
    }
    assert(p@ =~= s@.subrange(0, n as int));
    true
}

/// Whether `a` and `b` hold the same characters.
pub fn same_text(a: &str, b: &str) -> (r: bool)
    ensures
        r == (a@ == b@),
{
    if a.unicode_len() != b.unicode_len() {
        return false;
    }
    let r = has_prefix(a, b);
    if r {
        assert(a@ =~= b@) by {
            assert(a@.subrange(0, b@.len() as int) =~= a@);
        }
    }
    r
}

/// Whether some entry of `list` holds exactly the characters of `t`.
pub fn list_contains(list: &Vec<String>, t: &str) -> (r: bool)
    ensures
        r == exists|i: int| 0 <= i < list@.len() && (#[trigger] list@[i])@ == t@,
{
    let mut i: usize = 0;
    while i < list.len()
        invariant
            i <= list@.len(),
            forall|j: int| 0 <= j < i ==> (#[trigger] list@[j])@ != t@,
        decreases list@.len() - i,
    {
        if same_text(list[i].as_str(), t) {
            return true;
        }
        i = i + 1;
    }
    false
}

/// The part of `s` before the first `stop` character (all of `s` when it
/// holds none).
pub open spec fn prefix_until(s: Seq<char>, stop: char) -> Seq<char>
    decreases s.len(),
{
    if s.len() == 0 {
        s
    } else if s[0] == stop {
        Seq::empty()
    } else {
        seq![s[0]] + prefix_until(s.drop_first(), stop)
    }
}

proof fn lemma_prefix_until(s: Seq<char>, stop: char, k: int)
    requires
        0 <= k <= s.len(),
        forall|j: int| 0 <= j < k ==> s[j] != stop,
    ensures
        k == s.len() ==> prefix_until(s, stop) == s,
        k < s.len() && s[k] == stop ==> prefix_until(s, stop) == s.subrange(0, k),
    decreases k,
{
    if k > 0 {
        lemma_prefix_until(s.drop_first(), stop, k - 1);
        if k == s.len() {
            assert(seq![s[0]] + s.drop_first() =~= s);
        }
        if k < s.len() && s[k] == stop {
            assert(seq![s[0]] + s.drop_first().subrange(0, k - 1) =~= s.subrange(0, k));
        }
    } else {
        if k < s.len() && s[k] == stop {
            assert(s.subrange(0, 0) =~= Seq::<char>::empty());
        }
    }
}

/// The part of `value` before the first `stop` character.
pub fn text_until(value: &str, stop: char) -> (r: String)
    ensures
        r@ == prefix_until(value@, stop),
{
    let n = value.unicode_len();
    let mut k: usize = 0;
    while k < n
        invariant
            k <= n,
            n == value@.len(),
            forall|j: int| 0 <= j < k ==> value@[j] != stop,
        decreases n - k,
    {
        if value.get_char(k) == stop {
            proof {
                lemma_prefix_until(value@, stop, k as int);
            }
            return String::from_str(value.substring_char(0, k));
        }
        k = k + 1;
    }
    proof {
        lemma_prefix_until(value@, stop, k as int);
    }
    String::from_str(value)
}

/// Whether `pat` occurs somewhere in `s`.
pub open spec fn occurs_in(pat: Seq<char>, s: Seq<char>) -> bool {
    exists|i: int| 0 <= i <= s.len() && #[trigger] pat.is_prefix_of(s.subrange(i, s.len() as int))
}

/// Whether `pat` occurs somewhere in `s`.
pub fn text_contains(s: &str, pat: &str) -> (r: bool)
    ensures
        r == occurs_in(pat@, s@),
{
    let n = s.unicode_len();
    let mut i: usize = 0;
    while i < n
        invariant
            i <= n,
            n == s@.len(),
            forall|j: int| 0 <= j < i ==> !(#[trigger] pat@.is_prefix_of(s@.subrange(j, n as int))),
        decreases n - i,
    {
        if has_prefix(s.substring_char(i, n), pat) {
            return true;
        }
        i = i + 1;
    }
    if has_prefix(s.substring_char(n, n), pat) {
        return true;
    }
    assert forall|j: int| 0 <= j <= s@.len() implies !(#[trigger] pat@.is_prefix_of(s@.subrange(j, s@.len() as int))) by {}
    false
}

} // verus!
