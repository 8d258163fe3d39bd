//! Small verified string helpers shared by the rest of the crate:
//! character-by-character equality, a push wrapper, and whitespace trimming.

use vstd::prelude::*;

verus! {

/// String equality with an exact contract, checked character by character.
pub fn str_eq(a: &str, b: &str) -> (r: bool)
    ensures
        r == (a@ == b@),
{
    let na = a.unicode_len();
    let nb = b.unicode_len();
    if na != nb {
        return false;
    }
    let mut i: usize = 0;
    while i < na
        invariant
            0 <= i <= na,
            na == a@.len(),
            na == b@.len(),
            forall|j: int| 0 <= j < i ==> a@[j] == b@[j],
        decreases na - i,
    {
        let ca = a.get_char(i);
        let cb = b.get_char(i);
        if ca != cb {
            return false;
        }
        i += 1;
    }
    proof {
        assert(a@ =~= b@);
    }
    true
}

/// Relies on String::push: appends the one character to the end of the string.
#[verifier::external_body]
pub fn push_char(s: &mut String, c: char)
    ensures
        final(s)@ == old(s)@ + seq![c],
{
    s.push(c);
}

/// An ASCII whitespace character: space, tab, line feed, form feed or
/// carriage return.
pub open spec fn is_space(c: char) -> bool {
    c == ' ' || c == '\t' || c == '\n' || c == '\r' || c as u32 == 12
}

/// The sequence with its leading whitespace removed.
pub open spec fn trim_start_spec(s: Seq<char>) -> Seq<char>
    decreases s.len(),
{
    if s.len() > 0 && is_space(s[0]) {
        trim_start_spec(s.drop_first())
    } else {
        s
    }
}

/// The sequence with its trailing whitespace removed.
pub open spec fn trim_end_spec(s: Seq<char>) -> Seq<char>
    decreases s.len(),
{
    if s.len() > 0 && is_space(s.last()) {
        trim_end_spec(s.drop_last())
    } else {
        s
    }
}

/// The sequence with leading and trailing whitespace removed.
pub open spec fn trim_spec(s: Seq<char>) -> Seq<char> {
    trim_end_spec(trim_start_spec(s))
}

proof fn lemma_trim_start_skip(s: Seq<char>, a: int)
    requires
        0 <= a <= s.len(),
        forall|k: int| 0 <= k < a ==> is_space(#[trigger] s[k]),
        a < s.len() ==> !is_space(s[a]),
    ensures
        trim_start_spec(s) == s.skip(a),
    decreases a,
{
    if a == 0 {
        assert(s.skip(0) =~= s);
    } else {
        lemma_trim_start_skip(s.drop_first(), a - 1);
        assert(s.drop_first().skip(a - 1) =~= s.skip(a));
    }
}

proof fn lemma_trim_end_take(s: Seq<char>, b: int)
    requires
        0 <= b <= s.len(),
        forall|k: int| b <= k < s.len() ==> is_space(#[trigger] s[k]),
        b > 0 ==> !is_space(s[b - 1]),
    ensures
        trim_end_spec(s) == s.take(b),
    decreases s.len() - b,
{
    if b == s.len() {
        assert(s.take(b) =~= s);
        if s.len() > 0 {
            assert(!is_space(s.last()));
        }
    } else {
        lemma_trim_end_take(s.drop_last(), b);
        assert(s.drop_last().take(b) =~= s.take(b));
    }
}

/// The slice of the input between its leading and trailing whitespace.
pub fn trim_str<'a>(s: &'a str) -> (r: &'a str)
    ensures
        r@ == trim_spec(s@),
{
    let n = s.unicode_len();
    let mut a: usize = 0;
    while a < n && is_space_exec(s.get_char(a))
        invariant
            0 <= a <= n,
            n == s@.len(),
            forall|k: int| 0 <= k < a ==> is_space(#[trigger] s@[k]),
        decreases n - a,
    {
        a += 1;
    }
    let mut b: usize = n;
    while b > a && is_space_exec(s.get_char(b - 1))
        invariant
            a <= b <= n,
            n == s@.len(),
            a < n ==> !is_space(s@[a as int]),
            forall|k: int| b <= k < n ==> is_space(#[trigger] s@[k]),
        decreases b,
    {
        b -= 1;
    }
    let r = s.substring_char(a, b);
    proof {
        lemma_trim_start_skip(s@, a as int);
        if a == n {
            assert(s@.skip(a as int) =~= Seq::<char>::empty());
            assert(trim_end_spec(Seq::<char>::empty()) =~= Seq::<char>::empty());
            assert(r@ =~= Seq::<char>::empty());
        } else {
            let t = s@.skip(a as int);
            assert(forall|k: int| (b - a) <= k < t.len() ==> is_space(#[trigger] t[k]));
            if b > a {
                assert(!is_space(t[b - a - 1]));
            } else {
                assert(!is_space(t[0]));
            }
            lemma_trim_end_take(t, b - a);
            assert(t.take(b - a) =~= s@.subrange(a as int, b as int));
        }
    }
    r
}

/// Executable test for [`is_space`].
pub fn is_space_exec(c: char) -> (r: bool)
    ensures
        r == is_space(c),
{
    c == ' ' || c == '\t' || c == '\n' || c == '\r' || c as u32 == 12
}

} // verus!
