//! Character-level text handling: the whitespace predicate, scanning
//! functions over character sequences, and whitespace trimming as applied to
//! handshake names, name changes and chat lines.

use vstd::prelude::*;

verus! {

/// Whether a character counts as whitespace. The result of
/// `char::is_whitespace` (the Unicode `White_Space` property), a function of
/// the character alone.
pub uninterp spec fn is_space_char(c: char) -> bool;

/// Relies on char::is_whitespace: true exactly when the character has the
/// Unicode `White_Space` property; the result depends on the character alone.
#[verifier::external_body]
pub(crate) fn is_space(c: char) -> (r: bool)
    ensures
        r == is_space_char(c),
{
    c.is_whitespace()
}

/// Relies on String's FromIterator over characters: collecting yields the
/// string holding exactly the given characters in order.
#[verifier::external_body]
pub(crate) fn chars_to_string(v: &Vec<char>) -> (r: String)
    ensures
        r@ == v@,
{
    v.iter().collect()
}

/// The first position at or after `i` holding a non-whitespace character, or
/// `s.len()` when every remaining character is whitespace.
pub open spec fn next_non_space(s: Seq<char>, i: int) -> int
    decreases s.len() - i,
{
    if i < 0 || i >= s.len() {
        s.len() as int
    } else if !is_space_char(s[i]) {
        i
    } else {
        next_non_space(s, i + 1)
    }
}

/// The first position at or after `i` holding a whitespace character, or
/// `s.len()` when every remaining character is non-whitespace.
pub open spec fn next_space(s: Seq<char>, i: int) -> int
    decreases s.len() - i,
{
    if i < 0 || i >= s.len() {
        s.len() as int
    } else if is_space_char(s[i]) {
        i
    } else {
        next_space(s, i + 1)
    }
}

/// One past the last non-whitespace character of `s`, or `0` when `s` holds
/// only whitespace.
pub open spec fn trim_end(s: Seq<char>) -> int
    decreases s.len(),
{
    if s.len() == 0 {
        0
    } else if !is_space_char(s.last()) {
        s.len() as int
    } else {
        trim_end(s.drop_last())
    }
}

/// `s` with leading and trailing whitespace removed.
pub open spec fn trim_spec(s: Seq<char>) -> Seq<char> {
    if trim_end(s) == 0 {
        Seq::empty()
    } else {
        s.subrange(next_non_space(s, 0), trim_end(s))
    }
}

pub proof fn lemma_next_non_space(s: Seq<char>, i: int)
    requires
        0 <= i <= s.len(),
    ensures
        i <= next_non_space(s, i) <= s.len(),
        forall|j: int| i <= j < next_non_space(s, i) ==> is_space_char(s[j]),
        next_non_space(s, i) < s.len() ==> !is_space_char(s[next_non_space(s, i)]),
    decreases s.len() - i,
{
    if i < s.len() && is_space_char(s[i]) {
        lemma_next_non_space(s, i + 1);
    }
}

pub proof fn lemma_next_space(s: Seq<char>, i: int)
    requires
        0 <= i <= s.len(),
    ensures
        i <= next_space(s, i) <= s.len(),
        forall|j: int| i <= j < next_space(s, i) ==> !is_space_char(s[j]),
        next_space(s, i) < s.len() ==> is_space_char(s[next_space(s, i)]),
    decreases s.len() - i,
{
    if i < s.len() && !is_space_char(s[i]) {
        lemma_next_space(s, i + 1);
    }
}

pub proof fn lemma_trim_end(s: Seq<char>)
    ensures
        0 <= trim_end(s) <= s.len(),
        forall|j: int| trim_end(s) <= j < s.len() ==> is_space_char(s[j]),
        trim_end(s) > 0 ==> !is_space_char(s[trim_end(s) - 1]),
    decreases s.len(),
{
    if s.len() > 0 && is_space_char(s.last()) {
        lemma_trim_end(s.drop_last());
        assert(forall|j: int| 0 <= j < s.len() - 1 ==> s[j] == s.drop_last()[j]);
    }
}

/// Returns the input with leading and trailing whitespace removed, the exact
/// treatment a handshake name, a name change, or a chat line receives.
pub fn trim_str(s: &str) -> (r: String)
    ensures
        r@ == trim_spec(s@),
{
    let n = s.unicode_len();
    let mut e: usize = n;
    proof {
        assert(s@.take(n as int) =~= s@);
    }
    loop
        invariant
            e <= n,
            n == s@.len(),
            trim_end(s@) == trim_end(s@.take(e as int)),
        ensures
            e <= n,
            n == s@.len(),
            trim_end(s@) == e as int,
            e > 0 ==> !is_space_char(s@[e as int - 1]),
        decreases e,
    {
        if e == 0 {
            proof {
                assert(s@.take(0) =~= Seq::<char>::empty());
            }
            break;
        }
        let c = s.get_char(e - 1);
        proof {
            assert(s@.take(e as int).last() == s@[e as int - 1]);
        }
        if !is_space(c) {
            break;
        }
        proof {
            assert(s@.take(e as int).drop_last() =~= s@.take(e as int - 1));
        }
        e = e - 1;
    }
    if e == 0 {
        return String::new();
    }
    let mut b: usize = 0;
    loop
        invariant
            b <= e,
            0 < e <= n,
            n == s@.len(),
            trim_end(s@) == e as int,
            !is_space_char(s@[e as int - 1]),
            next_non_space(s@, 0) == next_non_space(s@, b as int),
        ensures
            b < e <= n,
            n == s@.len(),
            trim_end(s@) == e as int,
            next_non_space(s@, 0) == b as int,
        decreases e - b,
    {
        if b == e {
            // cannot happen: the character at e - 1 is not whitespace, so the
            // scan stops strictly before e
            proof {
                lemma_next_non_space(s@, 0);
                lemma_next_non_space(s@, b as int);
                assert(false);
            }
            break;
        }
        let c = s.get_char(b);
        if !is_space(c) {
            break;
        }
        b = b + 1;
    }
    let t = s.substring_char(b, e);
    t.to_owned()
}

} // verus!
