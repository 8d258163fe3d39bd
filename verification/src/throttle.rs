//! The 24-hour update-check throttle.
//!
//! The time of the last check is persisted as a plain unsigned decimal
//! number of seconds since the epoch. On each poll the persisted text and the
//! current time decide whether a check is due: it is when at least 24 hours
//! have passed — and when the file is absent or unparseable, the throttle
//! fails open and treats the check as due.

use vstd::prelude::*;
use crate::strutil::{push_char, trim_spec, trim_str};

verus! {

/// Seconds in 24 hours: the least gap between two background update checks.
pub const UPDATE_CHECK_INTERVAL_SECS: u64 = 86400;

/// An ASCII decimal digit.
pub open spec fn is_digit(c: char) -> bool {
    48 <= c as u32 && c as u32 <= 57
}

/// The numeric value of a decimal digit character.
pub open spec fn digit_val(c: char) -> int {
    c as u32 - 48
}

/// Every character is a decimal digit.
pub open spec fn all_digits(s: Seq<char>) -> bool {
    forall|i: int| 0 <= i < s.len() ==> is_digit(#[trigger] s[i])
}

/// The value of a digit string read as a decimal number.
pub open spec fn dec_val(s: Seq<char>) -> int
    decreases s.len(),
{
    if s.len() == 0 {
        0
    } else {
        dec_val(s.drop_last()) * 10 + digit_val(s.last())
    }
}

/// Plain unsigned decimal: the parse succeeds exactly on a nonempty string
/// of decimal digits whose value fits in a `u64`.
pub open spec fn parse_u64_spec(s: Seq<char>) -> Option<u64> {
    if s.len() > 0 && all_digits(s) && dec_val(s) <= u64::MAX {
        Option::Some(dec_val(s) as u64)
    } else {
        Option::None
    }
}

proof fn lemma_dec_val_nonneg(s: Seq<char>)
    requires
        all_digits(s),
    ensures
        dec_val(s) >= 0,
    decreases s.len(),
{
    if s.len() > 0 {
        assert(all_digits(s.drop_last()));
        lemma_dec_val_nonneg(s.drop_last());
    }
}

proof fn lemma_dec_val_grows(s: Seq<char>, i: int)
    requires
        all_digits(s),
        0 <= i <= s.len(),
    ensures
        dec_val(s.take(i)) <= dec_val(s),
    decreases s.len() - i,
{
    if i == s.len() {
        assert(s.take(i) =~= s);
    } else {
        assert(all_digits(s.take(i)));
        lemma_dec_val_nonneg(s.take(i));
        assert(s.take(i + 1).drop_last() =~= s.take(i));
        assert(s.take(i + 1).last() == s[i]);
        lemma_dec_val_grows(s, i + 1);
    }
}

/// Parses a plain unsigned decimal number: exactly [`parse_u64_spec`].
pub fn parse_u64(s: &str) -> (r: Option<u64>)
    ensures
        r == parse_u64_spec(s@),
{
    let n = s.unicode_len();
    if n == 0 {
        return None;
    }
    let mut acc: u64 = 0;
    let mut i: usize = 0;
    while i < n
        invariant
            0 <= i <= n,
            n == s@.len(),
            all_digits(s@.take(i as int)),
            acc == dec_val(s@.take(i as int)),
        decreases n - i,
    {
        let c = s.get_char(i);
        let u = c as u32;
        if !(48 <= u && u <= 57) {
            return None;
        }
        let d = (u - 48) as u64;
        proof {
            assert(s@.take(i + 1).drop_last() =~= s@.take(i as int));
            assert(s@.take(i + 1).last() == s@[i as int]);
            assert(all_digits(s@.take(i + 1)));
        }
        let step = match acc.checked_mul(10) {
            Some(m) => m.checked_add(d),
            None => None,
        };
        match step {
            Some(a) => {
                acc = a;
            },
            None => {
                proof {
                    if all_digits(s@) && dec_val(s@) <= u64::MAX {
                        lemma_dec_val_grows(s@, i + 1);
                    }
                }
                return None;
            },
        }
        i += 1;
    }
    proof {
        assert(s@.take(n as int) =~= s@);
    }
    Some(acc)
}

/// The throttle decision on the persisted text and the current time: a check
/// is due when the file is absent, when its trimmed content is not a plain
/// decimal `u64`, or when at least 24 hours have passed since the recorded
/// timestamp.
pub open spec fn throttle_due(content: Option<Seq<char>>, now: u64) -> bool {
    match content {
        Option::None => true,
        Option::Some(s) => match parse_u64_spec(trim_spec(s)) {
            Option::None => true,
            Option::Some(ts) => now as int - ts as int >= UPDATE_CHECK_INTERVAL_SECS,
        },
    }
}

/// Decides whether an update check is due, given the persisted file content
/// (`None` where the file is absent or unreadable) and the current time in
/// seconds since the epoch: exactly [`throttle_due`].
pub fn should_check_for_updates(content: Option<&str>, now: u64) -> (r: bool)
    ensures
        r == throttle_due(content.deep_view(), now),
{
    match content {
        None => true,
        Some(s) => {
            let t = trim_str(s);
            match parse_u64(t) {
                None => true,
                Some(ts) => now >= ts && now - ts >= UPDATE_CHECK_INTERVAL_SECS,
            }
        },
    }
}

/// The digit character for a value below 10.
pub open spec fn digit_char(d: int) -> char
    recommends
        0 <= d < 10,
{
    ((48 + d) as u8) as char
}

/// The decimal representation of a nonnegative number, most significant
/// digit first, without leading zeros (a single `0` for zero).
pub open spec fn dec_str_of(n: int) -> Seq<char>
    recommends
        n >= 0,
    decreases n,
{
    if n < 10 {
        seq![digit_char(n)]
    } else {
        dec_str_of(n / 10) + seq![digit_char(n % 10)]
    }
}

proof fn lemma_dec_str_parses(n: int)
    requires
        0 <= n,
    ensures
        dec_str_of(n).len() >= 1,
        all_digits(dec_str_of(n)),
        dec_val(dec_str_of(n)) == n,
    decreases n,
{
    if n < 10 {
        let s = dec_str_of(n);
        assert(s == seq![digit_char(n)]);
        assert(s.len() == 1);
        assert(s.drop_last() =~= Seq::<char>::empty());
        assert(s.last() == digit_char(n));
        assert(dec_val(s) == dec_val(Seq::<char>::empty()) * 10 + digit_val(digit_char(n)));
        assert(dec_val(Seq::<char>::empty()) == 0);
        assert(digit_val(digit_char(n)) == n);
    } else {
        lemma_dec_str_parses(n / 10);
        let s = dec_str_of(n);
        assert(s == dec_str_of(n / 10) + seq![digit_char(n % 10)]);
        assert(s.len() == dec_str_of(n / 10).len() + 1);
        assert(s.drop_last() =~= dec_str_of(n / 10));
        assert(s.last() == digit_char(n % 10));
        assert(digit_val(digit_char(n % 10)) == n % 10);
        vstd::arithmetic::div_mod::lemma_fundamental_div_mod(n, 10);
        assert(dec_val(s) == (n / 10) * 10 + n % 10);
        assert(all_digits(s));
    }
}

/// Renders a timestamp as plain unsigned decimal text — exactly what
/// [`parse_u64_spec`] reads back as the same value, so a persisted timestamp
/// is never misread.
pub fn format_timestamp(n: u64) -> (r: String)
    ensures
        r@ == dec_str_of(n as int),
        parse_u64_spec(r@) == Option::Some(n),
{
    proof {
        lemma_dec_str_parses(n as int);
    }
    let mut digits: Vec<char> = Vec::new();
    let mut m: u64 = n;
    if m == 0 {
        let mut out = String::new();
        push_char(&mut out, '0');
        proof {
            assert(out@ =~= dec_str_of(0));
        }
        return out;
    }
    while m > 0
        invariant
            m > 0 ==> dec_str_of(n as int) == dec_str_of(m as int) + digits@.reverse(),
            m == 0 ==> dec_str_of(n as int) == digits@.reverse(),
        decreases m,
    {
        let d = (m % 10) as u32;
        let c = ((48 + d) as u8) as char;
        proof {
            assert(c == digit_char((m % 10) as int));
            assert(digits@.push(c).reverse() =~= seq![c] + digits@.reverse());
            if m >= 10 {
                assert(dec_str_of(m as int) == dec_str_of(m as int / 10) + seq![
                    digit_char(m as int % 10),
                ]);
                assert(dec_str_of(m as int / 10) + (seq![c] + digits@.reverse())
                    =~= (dec_str_of(m as int / 10) + seq![c]) + digits@.reverse());
            } else {
                assert(dec_str_of(m as int) =~= seq![c]);
                assert(seq![c] + digits@.reverse() =~= dec_str_of(m as int) + digits@.reverse());
            }
        }
        digits.push(c);
        m = m / 10;
    }
    let len = digits.len();
    let mut out = String::new();
    let mut i: usize = len;
    while i > 0
        invariant
            0 <= i <= len,
            len == digits@.len(),
            dec_str_of(n as int) == digits@.reverse(),
            out@ == digits@.reverse().take((len - i) as int),
        decreases i,
    {
        i -= 1;
        let c = digits[i];
        push_char(&mut out, c);
        proof {
            assert(digits@.reverse()[(len - i - 1) as int] == digits@[i as int]);
            assert(digits@.reverse().take((len - i) as int) =~= digits@.reverse().take(
                (len - i - 1) as int,
            ) + seq![digits@[i as int]]);
        }
    }
    proof {
        assert(digits@.reverse().take(len as int) =~= digits@.reverse());
    }
    out
}

} // verus!
