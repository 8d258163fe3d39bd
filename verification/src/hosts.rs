//! The origin allow-list.
//!
//! The list of permitted hosts comes either from an environment override — a
//! comma-separated list whose entries are trimmed and matched exactly — or,
//! absent that, from the built-in default of the production host and
//! localhost. Reading the environment is the host glue's business; parsing
//! the value is decided and verified here.

use vstd::prelude::*;
use crate::strutil::{trim_spec, trim_str};

verus! {

/// The comma-separated fields of a string, in order. The empty string has
/// one empty field; a trailing comma yields a trailing empty field.
pub open spec fn split_commas(s: Seq<char>) -> Seq<Seq<char>>
    decreases s.len(),
{
    if s.len() == 0 {
        seq![Seq::<char>::empty()]
    } else if s.last() == ',' {
        split_commas(s.drop_last()).push(Seq::<char>::empty())
    } else {
        let rest = split_commas(s.drop_last());
        rest.update(rest.len() - 1, rest.last().push(s.last()))
    }
}

proof fn lemma_split_commas_nonempty(s: Seq<char>)
    ensures
        split_commas(s).len() >= 1,
    decreases s.len(),
{
    if s.len() > 0 {
        lemma_split_commas_nonempty(s.drop_last());
    }
}

/// The allow-list read from an override value: its comma-separated fields,
/// each trimmed of surrounding whitespace.
pub open spec fn hosts_of(s: Seq<char>) -> Seq<Seq<char>> {
    split_commas(s).map_values(|f: Seq<char>| trim_spec(f))
}

/// The built-in allow-list: the production host and localhost.
pub open spec fn default_hosts() -> Seq<Seq<char>> {
    seq!["hackerai.co"@, "localhost"@]
}

/// The allow-list used when no environment override is set.
pub fn default_allowed_hosts() -> (r: Vec<String>)
    ensures
        r.deep_view() == default_hosts(),
{
    let mut v: Vec<String> = Vec::new();
    v.push(String::from_str("hackerai.co"));
    v.push(String::from_str("localhost"));
    proof {
        assert(v.deep_view() =~= default_hosts());
    }
    v
}

/// Splits a comma-separated allow-list value and trims each entry:
/// exactly [`hosts_of`].
pub fn parse_allowed_hosts(s: &str) -> (r: Vec<String>)
    ensures
        r.deep_view() == hosts_of(s@),
{
    let n = s.unicode_len();
    let mut out: Vec<String> = Vec::new();
    let ghost mut fields: Seq<Seq<char>> = Seq::empty();
    let mut st: usize = 0;
    let mut pos: usize = 0;
    proof {
        assert(s@.take(0) =~= Seq::<char>::empty());
        assert(s@.subrange(0, 0) =~= Seq::<char>::empty());
        assert(fields.push(s@.subrange(0, 0)) =~~= split_commas(s@.take(0)));
        assert(out.deep_view() =~~= fields.map_values(|f: Seq<char>| trim_spec(f)));
    }
    while pos < n
        invariant
            0 <= st <= pos <= n,
            n == s@.len(),
            split_commas(s@.take(pos as int)) == fields.push(s@.subrange(st as int, pos as int)),
            out.deep_view() == fields.map_values(|f: Seq<char>| trim_spec(f)),
        decreases n - pos,
    {
        let c = s.get_char(pos);
        proof {
            assert(s@.take(pos + 1).drop_last() =~= s@.take(pos as int));
            assert(s@.take(pos + 1).last() == s@[pos as int]);
            lemma_split_commas_nonempty(s@.take(pos as int));
        }
        if c == ',' {
            let field = s.substring_char(st, pos);
            let trimmed = String::from_str(trim_str(field));
            let ghost out_before = out.deep_view();
            out.push(trimmed);
            proof {
                let cur = s@.subrange(st as int, pos as int);
                let tr = |f: Seq<char>| trim_spec(f);
                assert(split_commas(s@.take(pos + 1)) =~~= fields.push(cur).push(
                    Seq::<char>::empty(),
                ));
                assert(out.deep_view() =~~= out_before.push(trim_spec(cur)));
                fields = fields.push(cur);
                assert(out.deep_view() =~~= fields.map_values(tr));
                assert(s@.subrange(pos + 1, pos + 1) =~= Seq::<char>::empty());
            }
            st = pos + 1;
        } else {
            proof {
                let rest = split_commas(s@.take(pos as int));
                let cur = s@.subrange(st as int, pos as int);
                assert(rest.last() == cur);
                assert(cur.push(s@[pos as int]) =~= s@.subrange(st as int, pos + 1));
                assert(split_commas(s@.take(pos + 1)) =~= fields.push(
                    s@.subrange(st as int, pos + 1),
                ));
            }
        }
        pos += 1;
    }
    let field = s.substring_char(st, n);
    let trimmed = String::from_str(trim_str(field));
    let ghost out_before = out.deep_view();
    out.push(trimmed);
    proof {
        let cur = s@.subrange(st as int, n as int);
        let tr = |f: Seq<char>| trim_spec(f);
        assert(s@.take(n as int) =~= s@);
        assert(out.deep_view() =~~= out_before.push(trim_spec(cur)));
        fields = fields.push(cur);
        assert(out.deep_view() =~~= fields.map_values(tr));
        assert(fields.map_values(tr) =~~= hosts_of(s@));
    }
    out
}

} // verus!
