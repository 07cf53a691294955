//! Character-sequence helpers shared by the configuration logic: building
//! strings from pieces, decimal rendering, searching and splitting.
use vstd::prelude::*;
use vstd::string::*;
use crate::unicode::{char_is_whitespace, is_whitespace};

verus! {

/// Appends one character to a string (`String::push`).
#[verifier::external_body]
pub(crate) fn push_char(s: &mut String, c: char)
    ensures
        final(s)@ == old(s)@.push(c),
{
    s.push(c);
}

/// The characters of `s`, in order.
pub fn chars_of(s: &str) -> (v: Vec<char>)
    ensures
        v@ == s@,
{
    let mut v: Vec<char> = Vec::new();
    for c in it: s.chars()
        invariant
            v@ == it.seq().take(it.index() as int),
            it.seq() == s@,
    {
        v.push(c);
    }
    v
}

/// Appends every character of `v` to `s`.
pub fn push_chars(s: &mut String, v: &[char])
    ensures
        final(s)@ == old(s)@ + v@,
{
    let n = v.len();
    for i in 0..n
        invariant
            n == v@.len(),
            s@ == old(s)@ + v@.take(i as int),
    {
        push_char(s, v[i]);
        assert(v@.take(i + 1) == v@.take(i as int).push(v@[i as int]));
    }
    assert(v@.take(n as int) == v@);
}

/// A string holding exactly the characters of `v`.
pub fn string_of(v: &[char]) -> (s: String)
    ensures
        s@ == v@,
{
    let mut s = String::new();
    push_chars(&mut s, v);
    s
}

/// The character of a decimal digit.
pub open spec fn digit_char(d: nat) -> char {
    if d == 0 { '0' }
    else if d == 1 { '1' }
    else if d == 2 { '2' }
    else if d == 3 { '3' }
    else if d == 4 { '4' }
    else if d == 5 { '5' }
    else if d == 6 { '6' }
    else if d == 7 { '7' }
    else if d == 8 { '8' }
    else { '9' }
}

/// The decimal rendering of `n`, most significant digit first, with no
/// leading zeros (`"0"` for zero).
pub open spec fn decimal(n: nat) -> Seq<char>
    decreases n,
{
    if n < 10 {
        seq![digit_char(n)]
    } else {
        decimal(n / 10).push(digit_char(n % 10))
    }
}

fn digit(d: usize) -> (c: char)
    requires
        d < 10,
    ensures
        c == digit_char(d as nat),
{
    if d == 0 { '0' }
    else if d == 1 { '1' }
    else if d == 2 { '2' }
    else if d == 3 { '3' }
    else if d == 4 { '4' }
    else if d == 5 { '5' }
    else if d == 6 { '6' }
    else if d == 7 { '7' }
    else if d == 8 { '8' }
    else { '9' }
}

/// Appends the decimal rendering of `n` to `s`.
pub fn push_decimal(s: &mut String, n: usize)
    ensures
        final(s)@ == old(s)@ + decimal(n as nat),
    decreases n,
{
    if n < 10 {
        push_char(s, digit(n));
        assert(old(s)@.push(digit_char(n as nat)) == old(s)@ + decimal(n as nat));
    } else {
        push_decimal(s, n / 10);
        push_char(s, digit(n % 10));
        assert(old(s)@ + decimal((n / 10) as nat) + seq![digit_char((n % 10) as nat)]
            == old(s)@ + decimal(n as nat));
    }
}

/// `needle` occurs in `hay` starting at position `i`.
pub open spec fn occurs_at(hay: Seq<char>, needle: Seq<char>, i: int) -> bool {
    0 <= i && i + needle.len() <= hay.len() && hay.subrange(i, i + needle.len()) == needle
}

/// The first position at or after `from` where `needle` occurs in `hay`.
pub open spec fn first_occurrence_from(hay: Seq<char>, needle: Seq<char>, from: int) -> Option<int>
    decreases hay.len() + 1 - from,
{
    if from + needle.len() > hay.len() {
        None
    } else if occurs_at(hay, needle, from) {
        Some(from)
    } else {
        first_occurrence_from(hay, needle, from + 1)
    }
}

/// The first position where `needle` occurs in `hay` (`str::find`).
pub open spec fn find(hay: Seq<char>, needle: Seq<char>) -> Option<int> {
    first_occurrence_from(hay, needle, 0)
}

/// A found position lies at or after `from`, and `needle` occurs there.
pub proof fn lemma_first_occurrence(hay: Seq<char>, needle: Seq<char>, from: int)
    requires
        0 <= from,
    ensures
        first_occurrence_from(hay, needle, from) matches Some(k) ==> from <= k && occurs_at(hay, needle, k)
            && k + needle.len() <= hay.len(),
        first_occurrence_from(hay, needle, from) matches Some(k) ==> forall|j: int| from <= j < k ==> !#[trigger] occurs_at(hay, needle, j),
        first_occurrence_from(hay, needle, from) is None ==> forall|j: int| from <= j ==> !#[trigger] occurs_at(hay, needle, j),
    decreases hay.len() + 1 - from,
{
    if from + needle.len() > hay.len() {
    } else if occurs_at(hay, needle, from) {
    } else {
        lemma_first_occurrence(hay, needle, from + 1);
    }
}

/// A found position lies within `hay`.
pub proof fn lemma_find(hay: Seq<char>, needle: Seq<char>)
    ensures
        find(hay, needle) matches Some(k) ==> 0 <= k && k + needle.len() <= hay.len() && occurs_at(hay, needle, k),
{
    lemma_first_occurrence(hay, needle, 0);
}

fn occurs_at_exec(hay: &[char], needle: &[char], i: usize) -> (r: bool)
    requires
        i + needle@.len() <= hay@.len(),
    ensures
        r == occurs_at(hay@, needle@, i as int),
{
    let n = needle.len();
    let hl = hay.len();
    for k in 0..n
        invariant
            n == needle@.len(),
            hl == hay@.len(),
            i + n <= hl,
            forall|m: int| 0 <= m < k ==> hay@[i + m] == needle@[m],
    {
        if hay[i + k] != needle[k] {
            assert(hay@.subrange(i as int, i + n)[k as int] != needle@[k as int]);
            return false;
        }
    }
    assert(hay@.subrange(i as int, i + n) =~= needle@);
    true
}

/// The first position at or after `from` where `needle` occurs in `hay`.
pub fn find_from(hay: &[char], needle: &[char], from: usize) -> (r: Option<usize>)
    ensures
        r matches Some(i) ==> first_occurrence_from(hay@, needle@, from as int) == Some(i as int),
        r is None ==> first_occurrence_from(hay@, needle@, from as int) is None,
{
    if needle.len() > hay.len() {
        return None;
    }
    let last = hay.len() - needle.len();
    if from > last {
        return None;
    }
    let mut i = from;
    while i <= last
        invariant_except_break
            last + needle@.len() == hay@.len(),
            from <= i <= last,
            first_occurrence_from(hay@, needle@, from as int) == first_occurrence_from(hay@, needle@, i as int),
        ensures
            first_occurrence_from(hay@, needle@, from as int) is None,
        decreases last + 1 - i,
    {
        if occurs_at_exec(hay, needle, i) {
            return Some(i);
        }
        if i == last {
            assert(first_occurrence_from(hay@, needle@, i + 1) is None);
            break;
        }
        i = i + 1;
    }
    None
}

/// The first position where `needle` occurs in `hay`.
pub fn find_in(hay: &[char], needle: &[char]) -> (r: Option<usize>)
    ensures
        r matches Some(i) ==> find(hay@, needle@) == Some(i as int),
        r is None ==> find(hay@, needle@) is None,
{
    find_from(hay, needle, 0)
}

/// The elements of `v` from `lo` (inclusive) to `hi` (exclusive).
pub fn slice_chars(v: &[char], lo: usize, hi: usize) -> (r: Vec<char>)
    requires
        lo <= hi <= v@.len(),
    ensures
        r@ == v@.subrange(lo as int, hi as int),
{
    let mut r: Vec<char> = Vec::new();
    for k in lo..hi
        invariant
            hi <= v@.len(),
            r@ == v@.subrange(lo as int, k as int),
    {
        r.push(v[k]);
        assert(v@.subrange(lo as int, k + 1) == v@.subrange(lo as int, k as int).push(v@[k as int]));
    }
    r
}

/// Whether two character sequences are equal.
pub fn chars_eq(a: &[char], b: &[char]) -> (r: bool)
    ensures
        r == (a@ == b@),
{
    if a.len() != b.len() {
        return false;
    }
    let n = a.len();
    for k in 0..n
        invariant
            n == a@.len(),
            n == b@.len(),
            forall|m: int| 0 <= m < k ==> a@[m] == b@[m],
    {
        if a[k] != b[k] {
            return false;
        }
    }
    assert(a@ =~= b@);
    true
}

/// No key of the keyed list `m` appears twice: the list stands for a map.
pub open spec fn distinct_keys<V>(m: Seq<(String, V)>) -> bool {
    forall|i: int, j: int| 0 <= i < j < m.len() ==> m[i].0@ != m[j].0@
}

/// `s` without its leading whitespace.
pub open spec fn trim_start(s: Seq<char>) -> Seq<char>
    decreases s.len(),
{
    if s.len() > 0 && char_is_whitespace(s[0]) {
        trim_start(s.drop_first())
    } else {
        s
    }
}

/// `s` without its trailing whitespace.
pub open spec fn trim_end(s: Seq<char>) -> Seq<char>
    decreases s.len(),
{
    if s.len() > 0 && char_is_whitespace(s.last()) {
        trim_end(s.drop_last())
    } else {
        s
    }
}

/// `s` without leading and trailing whitespace (`str::trim`).
pub open spec fn trim(s: Seq<char>) -> Seq<char> {
    trim_end(trim_start(s))
}

/// `v` without leading and trailing whitespace.
pub fn trim_chars(v: &[char]) -> (r: Vec<char>)
    ensures
        r@ == trim(v@),
{
    let n = v.len();
    let mut lo: usize = 0;
    assert(v@.skip(0) =~= v@);
    while lo < n && is_whitespace(v[lo])
        invariant
            n == v@.len(),
            lo <= n,
            trim_start(v@) == trim_start(v@.skip(lo as int)),
        decreases n - lo,
    {
        assert(v@.skip(lo as int).drop_first() =~= v@.skip(lo + 1));
        lo = lo + 1;
    }
    let t = slice_chars(v, lo, n);
    assert(t@ =~= v@.skip(lo as int));
    assert(trim_start(v@) == t@);
    let mut hi: usize = n - lo;
    assert(t@.take(hi as int) =~= t@);
    while hi > 0 && is_whitespace(t[hi - 1])
        invariant
            hi <= t@.len(),
            trim_end(t@) == trim_end(t@.take(hi as int)),
        decreases hi,
    {
        assert(t@.take(hi as int).drop_last() =~= t@.take(hi - 1));
        hi = hi - 1;
    }
    let r = slice_chars(&t, 0, hi);
    assert(r@ =~= t@.take(hi as int));
    r
}

/// The texts of a list of character vectors.
pub open spec fn texts(v: Seq<Vec<char>>) -> Seq<Seq<char>> {
    v.map_values(|x: Vec<char>| x@)
}

/// The pieces of `s` between occurrences of `c` (`str::split`), empty
/// pieces included.
pub open spec fn split_on(s: Seq<char>, c: char) -> Seq<Seq<char>>
    decreases s.len(),
{
    match find(s, seq![c]) {
        None => seq![s],
        Some(i) => {
            proof { lemma_find(s, seq![c]); }
            seq![s.take(i)] + split_on(s.skip(i + 1), c)
        },
    }
}

/// The pieces of `v` between occurrences of `c`.
pub fn split_chars(v: &[char], c: char) -> (r: Vec<Vec<char>>)
    ensures
        texts(r@) == split_on(v@, c),
{
    let sep: Vec<char> = vec![c];
    assert(sep@ =~= seq![c]);
    let mut cur = slice_chars(v, 0, v.len());
    assert(cur@ =~= v@);
    let mut out: Vec<Vec<char>> = Vec::new();
    loop
        invariant_except_break
            sep@ == seq![c],
            texts(out@) + split_on(cur@, c) == split_on(v@, c),
        ensures
            texts(out@) == split_on(v@, c),
        decreases cur@.len(),
    {
        match find_in(&cur, &sep) {
            None => {
                let ghost prev = texts(out@);
                out.push(cur);
                assert(texts(out@) =~= prev + seq![cur@]);
                break;
            },
            Some(i) => {
                proof { lemma_find(cur@, sep@); }
                let cl = cur.len();
                let piece = slice_chars(&cur, 0, i);
                let next = slice_chars(&cur, i + 1, cl);
                let ghost prev = texts(out@);
                assert(split_on(cur@, c) == seq![piece@] + split_on(next@, c));
                out.push(piece);
                assert(texts(out@) =~= prev.push(piece@));
                assert(texts(out@) + split_on(next@, c) =~= prev + (seq![piece@] + split_on(next@, c)));
                cur = next;
            },
        }
    }
    out
}

} // verus!
