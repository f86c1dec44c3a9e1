//! Small verified string helpers shared by the token and guard layers.
use vstd::prelude::*;

verus! {

/// Whether `c` has the Unicode `White_Space` property.
pub uninterp spec fn whitespace_char(c: char) -> bool;

/// Relies on `char::is_whitespace`: the answer depends on the character alone,
/// and the ASCII space is white space.
#[verifier::external_body]
fn is_whitespace(c: char) -> (r: bool)
    ensures
        r == whitespace_char(c),
        c == ' ' ==> r,
{
    c.is_whitespace()
}

/// Relies on `String::push`: appends one character.
#[verifier::external_body]
pub(crate) fn push_char(s: &mut String, c: char)
    ensures
        final(s)@ == old(s)@.push(c),
{
    s.push(c)
}

/// The characters of `s` that are not white space, in order.
pub open spec fn without_whitespace(s: Seq<char>) -> Seq<char>
    decreases s.len(),
{
    if s.len() == 0 {
        Seq::empty()
    } else if whitespace_char(s.last()) {
        without_whitespace(s.drop_last())
    } else {
        without_whitespace(s.drop_last()).push(s.last())
    }
}

/// Removes every white-space character from `s`.
pub fn strip_whitespace(s: &str) -> (r: String)
    ensures
        r@ == without_whitespace(s@),
{
    let n = s.unicode_len();
    let mut out = String::new();
    let mut i: usize = 0;
    while i < n
        invariant
            n == s@.len(),
            i <= n,
            out@ == without_whitespace(s@.subrange(0, i as int)),
        decreases n - i,
    {
        let c = s.get_char(i);
        proof {
            let pre = s@.subrange(0, i as int + 1);
            assert(pre.drop_last() =~= s@.subrange(0, i as int));
            assert(pre.last() == c);
        }
        if !is_whitespace(c) {
            push_char(&mut out, c);
        }
        i = i + 1;
    }
    assert(s@.subrange(0, n as int) =~= s@);
    out
}

/// Whether `s` holds `pat` starting at position `at`.
pub open spec fn occurs_at(s: Seq<char>, pat: Seq<char>, at: int) -> bool {
    0 <= at && at + pat.len() <= s.len() && s.subrange(at, at + pat.len()) == pat
}

/// Whether the text `s` starts at `at` with `pat`, checked one character at a time.
pub fn matches_at(s: &str, n: usize, pat: &str, m: usize, at: usize) -> (r: bool)
    requires
        n == s@.len(),
        m == pat@.len(),
    ensures
        r == occurs_at(s@, pat@, at as int),
{
    if at > n || m > n - at {
        return false;
    }
    let mut j: usize = 0;
    while j < m
        invariant
            at + m <= n,
            n == s@.len(),
            m == pat@.len(),
            j <= m,
            forall|k: int| 0 <= k < j ==> s@[at + k] == pat@[k],
        decreases m - j,
    {
        if s.get_char(at + j) != pat.get_char(j) {
            assert(s@.subrange(at as int, at + m)[j as int] != pat@[j as int]);
            return false;
        }
        j = j + 1;
    }
    assert(s@.subrange(at as int, at + m) =~= pat@);
    true
}

/// Position of the last occurrence of `pat` in `s`, if any.
pub open spec fn last_occurrence(s: Seq<char>, pat: Seq<char>) -> Option<int> {
    if exists|at: int| occurs_at(s, pat, at) {
        Some(choose|at: int| occurs_at(s, pat, at) && forall|b: int| #[trigger] occurs_at(s, pat, b) ==> b <= at)
    } else {
        None
    }
}

/// What follows the last occurrence of `pat` in `s`; all of `s` where `pat`
/// does not occur.
pub open spec fn after_last(s: Seq<char>, pat: Seq<char>) -> Seq<char> {
    match last_occurrence(s, pat) {
        Some(at) => s.subrange(at + pat.len(), s.len() as int),
        None => s,
    }
}

/// The text after the last occurrence of `pat` in `s`, or `s` itself when
/// `pat` does not occur.
pub fn text_after_last(s: &str, pat: &str) -> (r: String)
    requires
        pat@.len() > 0,
    ensures
        r@ == after_last(s@, pat@),
{
    let n = s.unicode_len();
    let m = pat.unicode_len();
    if m > n {
        assert(!exists|at: int| occurs_at(s@, pat@, at));
        return s.to_owned();
    }
    let mut at: usize = n - m + 1;
    while at > 0
        invariant
            n == s@.len(),
            m == pat@.len(),
            0 < m <= n,
            at <= n - m + 1,
            forall|b: int| at <= b && occurs_at(s@, pat@, b) ==> false,
        decreases at,
    {
        at = at - 1;
        if matches_at(s, n, pat, m, at) {
            proof {
                assert(occurs_at(s@, pat@, at as int));
                assert forall|b: int| #[trigger] occurs_at(s@, pat@, b) implies b <= at by {
                    if b > at {
                        assert(at + 1 <= b);
                    }
                }
                let c = choose|c: int| occurs_at(s@, pat@, c) && forall|b: int| #[trigger] occurs_at(s@, pat@, b) ==> b <= c;
                assert(c <= at && at <= c);
            }
            let rest = s.substring_char(at + m, n);
            return rest.to_owned();
        }
    }
    assert(!exists|b: int| occurs_at(s@, pat@, b));
    s.to_owned()
}

} // verus!
