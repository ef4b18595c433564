//! Interpretation of the target lists that users type (`web,mobile`, `all`, ...).

use vstd::prelude::*;
use crate::text::{lowercase_of, str_chars};
use crate::types::{target_of_lowercase, IconTarget};

verus! {

/// A character with ASCII upper-case letters mapped to lower case.
pub open spec fn ascii_lower(c: char) -> char {
    if 'A' <= c <= 'Z' {
        ((c as u32) + 32) as char
    } else {
        c
    }
}

/// Whether a name is `all`, ignoring ASCII case (`str::eq_ignore_ascii_case`).
pub open spec fn is_all_keyword(s: Seq<char>) -> bool {
    s.len() == 3 && ascii_lower(s[0]) == 'a' && ascii_lower(s[1]) == 'l' && ascii_lower(s[2]) == 'l'
}

fn lower_ascii_char(c: char) -> (r: char)
    ensures
        r == ascii_lower(c),
{
    if 'A' <= c && c <= 'Z' {
        let u = (c as u32) + 32;
        assert(u <= 0x7f);
        let b = u as u8;
        b as char
    } else {
        c
    }
}

/// Whether a name is `all`, ignoring ASCII case.
pub fn is_all(s: &str) -> (r: bool)
    ensures
        r == is_all_keyword(s@),
{
    let cs = str_chars(s);
    cs.len() == 3 && lower_ascii_char(cs[0]) == 'a' && lower_ascii_char(cs[1]) == 'l'
        && lower_ascii_char(cs[2]) == 'l'
}

/// The three targets, in their usual order.
pub open spec fn all_targets() -> Seq<IconTarget> {
    seq![IconTarget::Web, IconTarget::Mobile, IconTarget::Desktop]
}

fn every_target() -> (r: Vec<IconTarget>)
    ensures
        r@ == all_targets(),
{
    let mut v: Vec<IconTarget> = Vec::new();
    v.push(IconTarget::Web);
    v.push(IconTarget::Mobile);
    v.push(IconTarget::Desktop);
    assert(v@ =~= all_targets());
    v
}

/// The targets named in a list, in order, skipping names that are not targets.
pub open spec fn named_targets(names: Seq<Seq<char>>) -> Seq<IconTarget>
    decreases names.len(),
{
    if names.len() == 0 {
        seq![]
    } else {
        let acc = named_targets(names.drop_last());
        match target_of_lowercase(lowercase_of(names.last())) {
            Some(t) => acc.push(t),
            None => acc,
        }
    }
}

/// The characters of each string of a sequence.
pub open spec fn names_view(v: Seq<String>) -> Seq<Seq<char>> {
    v.map_values(|s: String| s@)
}

/// The targets named in a list, in order; names that are not targets are skipped.
pub fn parse_target_names(names: &Vec<String>) -> (r: Vec<IconTarget>)
    ensures
        r@ == named_targets(names_view(names@)),
{
    let mut out: Vec<IconTarget> = Vec::new();
    let mut i: usize = 0;
    while i < names.len()
        invariant
            i <= names.len(),
            out@ == named_targets(names_view(names@.take(i as int))),
        decreases names.len() - i,
    {
        let parsed = IconTarget::from_str_val(names[i].as_str());
        match parsed {
            Some(t) => out.push(t),
            None => {},
        }
        assert(names_view(names@.take(i + 1)).drop_last() =~= names_view(names@.take(i as int)));
        i = i + 1;
    }
    assert(names@.take(names.len() as int) =~= names@);
    out
}

/// A target list read front to back: the targets named so far, or `None` once `all`
/// has been seen.
pub open spec fn scan_targets(names: Seq<Seq<char>>) -> Option<Seq<IconTarget>>
    decreases names.len(),
{
    if names.len() == 0 {
        Some(seq![])
    } else {
        match scan_targets(names.drop_last()) {
            None => None,
            Some(acc) => if is_all_keyword(names.last()) {
                None
            } else {
                match target_of_lowercase(lowercase_of(names.last())) {
                    Some(t) => Some(acc.push(t)),
                    None => Some(acc),
                }
            },
        }
    }
}

/// The targets of the command line's target list: all three as soon as `all` appears,
/// else the named targets in order, or all three when none is named.
pub open spec fn command_line_targets(names: Seq<Seq<char>>) -> Seq<IconTarget> {
    match scan_targets(names) {
        None => all_targets(),
        Some(ts) => if ts.len() == 0 {
            all_targets()
        } else {
            ts
        },
    }
}

proof fn lemma_scan_none_stays(names: Seq<Seq<char>>, n: int)
    requires
        0 <= n <= names.len(),
        scan_targets(names.take(n)) is None,
    ensures
        scan_targets(names) is None,
    decreases names.len() - n,
{
    if n < names.len() {
        assert(names.take(n + 1).drop_last() =~= names.take(n));
        lemma_scan_none_stays(names, n + 1);
    } else {
        assert(names.take(n) =~= names);
    }
}

/// The targets of a command-line target list such as `web,mobile` or `all`.
pub fn cli_targets(names: &Vec<String>) -> (r: Vec<IconTarget>)
    ensures
        r@ == command_line_targets(names_view(names@)),
{
    let mut out: Vec<IconTarget> = Vec::new();
    let mut i: usize = 0;
    while i < names.len()
        invariant
            i <= names.len(),
            scan_targets(names_view(names@.take(i as int))) == Some(out@),
        decreases names.len() - i,
    {
        assert(names_view(names@.take(i + 1)).drop_last() =~= names_view(names@.take(i as int)));
        if is_all(names[i].as_str()) {
            proof {
                assert(names_view(names@).take(i + 1) =~= names_view(names@.take(i + 1)));
                lemma_scan_none_stays(names_view(names@), i + 1);
            }
            return every_target();
        }
        let parsed = IconTarget::from_str_val(names[i].as_str());
        match parsed {
            Some(t) => out.push(t),
            None => {},
        }
        i = i + 1;
    }
    assert(names@.take(names.len() as int) =~= names@);
    if out.len() == 0 {
        every_target()
    } else {
        out
    }
}

} // verus!
