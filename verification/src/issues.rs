//! Lists of validation issues and the message builders they share.
use vstd::prelude::*;
use vstd::string::*;
use crate::text::{decimal, push_decimal};

verus! {

/// The texts of a list of strings.
pub open spec fn views(v: Seq<String>) -> Seq<Seq<char>> {
    v.map_values(|s: String| s@)
}

/// A one-message list when `c` holds, else the empty list.
pub open spec fn flag(c: bool, m: Seq<char>) -> Seq<Seq<char>> {
    if c { seq![m] } else { seq![] }
}

/// `prefix`, then the decimal rendering of `n`, then `suffix`.
pub open spec fn with_number(prefix: Seq<char>, n: nat, suffix: Seq<char>) -> Seq<char> {
    prefix + decimal(n) + suffix
}

/// Appends one issue.
pub fn push_issue(issues: &mut Vec<String>, m: String)
    ensures
        views(final(issues)@) == views(old(issues)@).push(m@),
{
    issues.push(m);
    assert(views(issues@) =~= views(old(issues)@).push(m@));
}

/// Appends every issue of `more`, in order.
pub fn append_issues(issues: &mut Vec<String>, more: Vec<String>)
    ensures
        views(final(issues)@) == views(old(issues)@) + views(more@),
{
    let mut more = more;
    let ghost orig = views(issues@);
    let ghost extra = views(more@);
    issues.append(&mut more);
    assert(views(issues@) =~= orig + extra);
}

/// `prefix`, the decimal rendering of `n`, then `suffix`, as a string.
pub fn number_message(prefix: &str, n: usize, suffix: &str) -> (m: String)
    ensures
        m@ == with_number(prefix@, n as nat, suffix@),
{
    let mut m = String::from_str(prefix);
    push_decimal(&mut m, n);
    m.append(suffix);
    m
}

/// A message of a part of a report is a message of the whole report.
pub proof fn lemma_contains_in_concat(a: Seq<Seq<char>>, b: Seq<Seq<char>>, c: Seq<Seq<char>>, x: Seq<char>)
    requires
        b.contains(x),
    ensures
        (a + b).contains(x),
        (b + c).contains(x),
        (a + b + c).contains(x),
{
    let k = choose|k: int| 0 <= k < b.len() && b[k] == x;
    assert((a + b)[a.len() + k] == x);
    assert((b + c)[k] == x);
    assert((a + b + c)[a.len() + k] == x);
}

} // verus!
