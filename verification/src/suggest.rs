//! Suggestions for mistyped command names: edit distance, extraction of the
//! unknown variant from a deserializer message, and the best-match search.
use vstd::prelude::*;
use vstd::string::*;
use vstd::utf8::encode_utf8;
use crate::text::{
    chars_eq, chars_of, find, find_in, lemma_find, push_chars, slice_chars, split_chars, split_on, string_of,
    texts, trim, trim_chars,
};
use crate::unicode::{all_ascii, ascii_lower, lowercase, to_lowercase};

verus! {

broadcast use vstd::slice::group_slice_axioms;

/// The smaller of two naturals.
pub open spec fn min_nat(x: nat, y: nat) -> nat {
    if x <= y { x } else { y }
}

/// The Levenshtein distance between `a` and `b`: the least number of
/// single-character insertions, deletions and substitutions that turn `a`
/// into `b`.
pub open spec fn edit_distance(a: Seq<char>, b: Seq<char>) -> nat
    decreases a.len() + b.len(),
{
    if a.len() == 0 {
        b.len()
    } else if b.len() == 0 {
        a.len()
    } else {
        let cost: nat = if a.last() == b.last() { 0 } else { 1 };
        min_nat(
            min_nat(edit_distance(a.drop_last(), b) + 1, edit_distance(a, b.drop_last()) + 1),
            edit_distance(a.drop_last(), b.drop_last()) + cost,
        )
    }
}

/// The edit distance never exceeds the longer length.
pub proof fn lemma_edit_distance_bound(a: Seq<char>, b: Seq<char>)
    ensures
        edit_distance(a, b) <= if a.len() >= b.len() { a.len() } else { b.len() },
    decreases a.len() + b.len(),
{
    if a.len() != 0 && b.len() != 0 {
        lemma_edit_distance_bound(a.drop_last(), b.drop_last());
    }
}

/// A text is at distance zero from itself.
pub proof fn law_edit_distance_identity(a: Seq<char>)
    ensures
        edit_distance(a, a) == 0,
    decreases a.len(),
{
    if a.len() != 0 {
        law_edit_distance_identity(a.drop_last());
    }
}

/// The distance from `a` to `b` is the distance from `b` to `a`.
pub proof fn law_edit_distance_symmetric(a: Seq<char>, b: Seq<char>)
    ensures
        edit_distance(a, b) == edit_distance(b, a),
    decreases a.len() + b.len(),
{
    if a.len() != 0 && b.len() != 0 {
        law_edit_distance_symmetric(a.drop_last(), b);
        law_edit_distance_symmetric(a, b.drop_last());
        law_edit_distance_symmetric(a.drop_last(), b.drop_last());
    }
}

/// Levenshtein distance between the character sequences of `a` and `b`.
pub fn levenshtein(a: &str, b: &str) -> (d: usize)
    ensures
        d == edit_distance(a@, b@),
{
    let ac = chars_of(a);
    let bc = chars_of(b);
    let n = ac.len();
    let m = bc.len();
    // Row 0: distance from the empty prefix of `a` to each prefix of `b`.
    let mut prev: Vec<usize> = Vec::new();
    for j in 0..m
        invariant
            m == bc@.len(),
            prev@.len() == j,
            forall|k: int| 0 <= k < j ==> #[trigger] prev@[k] == k,
    {
        prev.push(j);
    }
    prev.push(m);
    let row_len = prev.len();
    assert(forall|k: int| 0 <= k <= m ==> prev@[k] == edit_distance(ac@.take(0), bc@.take(k))) by {
        assert forall|k: int| 0 <= k <= m implies prev@[k] == edit_distance(ac@.take(0), bc@.take(k)) by {
            assert(ac@.take(0).len() == 0);
        }
    }
    for i in 0..n
        invariant
            n == ac@.len(),
            m == bc@.len(),
            row_len == m + 1,
            prev@.len() == m + 1,
            forall|k: int| 0 <= k <= m ==> #[trigger] prev@[k] == edit_distance(ac@.take(i as int), bc@.take(k)),
    {
        let mut cur: Vec<usize> = Vec::new();
        cur.push(i + 1);
        proof {
            assert(bc@.take(0).len() == 0);
        }
        for j in 1..m + 1
            invariant
                n == ac@.len(),
                m == bc@.len(),
                i < n,
                row_len == m + 1,
                prev@.len() == m + 1,
                forall|k: int| 0 <= k <= m ==> #[trigger] prev@[k] == edit_distance(ac@.take(i as int), bc@.take(k)),
                cur@.len() == j,
                forall|k: int| 0 <= k < j ==> #[trigger] cur@[k] == edit_distance(ac@.take(i + 1), bc@.take(k)),
        {
            let ghost ai = ac@.take(i + 1);
            let ghost bj = bc@.take(j as int);
            proof {
                assert(ai.drop_last() == ac@.take(i as int));
                assert(bj.drop_last() == bc@.take(j - 1));
                assert(ai.last() == ac@[i as int]);
                assert(bj.last() == bc@[j - 1]);
                lemma_edit_distance_bound(ac@.take(i as int), bc@.take(j as int));
                lemma_edit_distance_bound(ai, bc@.take(j - 1));
                lemma_edit_distance_bound(ac@.take(i as int), bc@.take(j - 1));
            }
            let cost: usize = if ac[i] == bc[j - 1] { 0 } else { 1 };
            // min(deletion, insertion) == min(prev[j], cur[j - 1]) + 1
            let lower = if prev[j] <= cur[j - 1] { prev[j] } else { cur[j - 1] };
            let first = lower + 1;
            let sub = prev[j - 1] + cost;
            let best = if first <= sub { first } else { sub };
            cur.push(best);
        }
        prev = cur;
    }
    assert(ac@.take(n as int) == ac@);
    assert(bc@.take(m as int) == bc@);
    prev[m]
}


/// The texts of an optional string.
pub open spec fn opt_text(o: Option<String>) -> Option<Seq<char>> {
    match o {
        Some(s) => Some(s@),
        None => None,
    }
}

/// The texts enclosed by successive pairs of backticks, left to right.
pub open spec fn backtick_tokens(s: Seq<char>) -> Seq<Seq<char>>
    decreases s.len(),
{
    match find(s, seq!['`']) {
        None => seq![],
        Some(o) => {
            let r = s.skip(o + 1);
            match find(r, seq!['`']) {
                None => seq![],
                Some(c) => {
                    proof {
                        lemma_find(s, seq!['`']);
                        lemma_find(r, seq!['`']);
                    }
                    seq![r.take(c)] + backtick_tokens(r.skip(c + 1))
                },
            }
        },
    }
}

/// `ts` without the entries equal to `x`.
pub open spec fn without(ts: Seq<Seq<char>>, x: Seq<char>) -> Seq<Seq<char>>
    decreases ts.len(),
{
    if ts.len() == 0 {
        seq![]
    } else if ts.last() == x {
        without(ts.drop_last(), x)
    } else {
        without(ts.drop_last(), x).push(ts.last())
    }
}

/// `ts` with each entry kept only at its first occurrence.
pub open spec fn dedup(ts: Seq<Seq<char>>) -> Seq<Seq<char>>
    decreases ts.len(),
{
    if ts.len() == 0 {
        seq![]
    } else if dedup(ts.drop_last()).contains(ts.last()) {
        dedup(ts.drop_last())
    } else {
        dedup(ts.drop_last()).push(ts.last())
    }
}

/// The entries of `ts` joined by `sep`.
pub open spec fn join(ts: Seq<Seq<char>>, sep: Seq<char>) -> Seq<char>
    decreases ts.len(),
{
    if ts.len() == 0 {
        seq![]
    } else if ts.len() == 1 {
        ts[0]
    } else {
        join(ts.drop_last(), sep) + sep + ts.last()
    }
}

/// The looser reading of an "unknown ..." message: the first backtick-quoted
/// text after the word "unknown".
pub open spec fn loose_unknown(e: Seq<char>) -> Option<Seq<char>> {
    match find(e, "unknown"@) {
        Some(p) => match find(e.skip(p), seq!['`']) {
            Some(b) => {
                let rest = e.skip(p + b + 1);
                match find(rest, seq!['`']) {
                    Some(end) => Some(rest.take(end)),
                    None => None,
                }
            },
            None => None,
        },
        None => None,
    }
}

/// The unknown variant named by a deserializer error message. When the
/// message also quotes other names (the expected variants), they follow the
/// unknown name after "||", comma-separated, each once, in order of first
/// appearance.
pub open spec fn unknown_variant(e: Seq<char>) -> Option<Seq<char>> {
    let needle = "unknown variant `"@;
    match find(e, needle) {
        Some(start) => {
            let rest = e.skip(start + needle.len());
            match find(rest, seq!['`']) {
                Some(end) => {
                    let unknown = rest.take(end);
                    let variants = without(backtick_tokens(e), unknown);
                    if variants.len() > 0 {
                        Some(unknown + "||"@ + join(dedup(variants), seq![',']))
                    } else {
                        Some(unknown)
                    }
                },
                None => loose_unknown(e),
            }
        },
        None => loose_unknown(e),
    }
}

fn tokens_without(e: &Vec<char>, unknown: &Vec<char>) -> (r: Vec<Vec<char>>)
    ensures
        texts(r@) == without(backtick_tokens(e@), unknown@),
{
    let tick: Vec<char> = vec!['`'];
    assert(tick@ =~= seq!['`']);
    let mut cur = slice_chars(e, 0, e.len());
    assert(cur@ =~= e@);
    let mut out: Vec<Vec<char>> = Vec::new();
    let ghost mut seen: Seq<Seq<char>> = seq![];
    loop
        invariant
            tick@ == seq!['`'],
            seen + backtick_tokens(cur@) == backtick_tokens(e@),
            texts(out@) == without(seen, unknown@),
        ensures
            texts(out@) == without(backtick_tokens(e@), unknown@),
        decreases cur@.len(),
    {
        match find_in(&cur, &tick) {
            None => {
                assert(seen =~= backtick_tokens(e@));
                break;
            },
            Some(o) => {
                proof { lemma_find(cur@, tick@); }
                let cl = cur.len();
                let r = slice_chars(&cur, o + 1, cl);
                match find_in(&r, &tick) {
                    None => {
                        assert(seen =~= backtick_tokens(e@));
                        break;
                    },
                    Some(c) => {
                        proof { lemma_find(r@, tick@); }
                        let tok = slice_chars(&r, 0, c);
                        let next = slice_chars(&r, c + 1, r.len());
                        proof {
                            assert(backtick_tokens(cur@) == seq![tok@] + backtick_tokens(next@));
                            assert(seen.push(tok@).drop_last() =~= seen);
                        }
                        if !chars_eq(&tok, unknown) {
                            out.push(tok);
                        }
                        proof {
                            assert(seen.push(tok@) + backtick_tokens(next@) =~= seen + (seq![tok@] + backtick_tokens(next@)));
                            seen = seen.push(tok@);
                        }
                        assert(texts(out@) =~= without(seen, unknown@));
                        cur = next;
                    },
                }
            },
        }
    }
    out
}

fn contains_chars(v: &Vec<Vec<char>>, x: &Vec<char>) -> (b: bool)
    ensures
        b == texts(v@).contains(x@),
{
    let n = v.len();
    for k in 0..n
        invariant
            n == v@.len(),
            forall|m: int| 0 <= m < k ==> v@[m]@ != x@,
    {
        if chars_eq(&v[k], x) {
            assert(texts(v@)[k as int] == x@);
            return true;
        }
    }
    assert(!texts(v@).contains(x@)) by {
        if texts(v@).contains(x@) {
            let m = choose|m: int| 0 <= m < texts(v@).len() && texts(v@)[m] == x@;
            assert(v@[m]@ == x@);
        }
    }
    false
}

fn copy_chars(v: &Vec<char>) -> (r: Vec<char>)
    ensures
        r@ == v@,
{
    let r = slice_chars(v, 0, v.len());
    assert(r@ =~= v@);
    r
}

fn dedup_exec(v: &Vec<Vec<char>>) -> (r: Vec<Vec<char>>)
    ensures
        texts(r@) == dedup(texts(v@)),
{
    let n = v.len();
    let mut out: Vec<Vec<char>> = Vec::new();
    assert(texts(v@).take(0) =~= Seq::<Seq<char>>::empty());
    for k in 0..n
        invariant
            n == v@.len(),
            texts(out@) == dedup(texts(v@).take(k as int)),
    {
        let ghost pre = texts(v@).take(k as int);
        let ghost cur = texts(v@).take(k + 1);
        assert(cur.drop_last() =~= pre);
        assert(cur.last() == v@[k as int]@);
        if !contains_chars(&out, &v[k]) {
            out.push(copy_chars(&v[k]));
            assert(texts(out@) =~= dedup(pre).push(v@[k as int]@));
        }
    }
    assert(texts(v@).take(n as int) =~= texts(v@));
    out
}

fn join_exec(v: &Vec<Vec<char>>, sep: char) -> (r: Vec<char>)
    ensures
        r@ == join(texts(v@), seq![sep]),
{
    let n = v.len();
    let mut out: Vec<char> = Vec::new();
    assert(texts(v@).take(0) =~= Seq::<Seq<char>>::empty());
    for k in 0..n
        invariant
            n == v@.len(),
            out@ == join(texts(v@).take(k as int), seq![sep]),
    {
        let ghost pre = texts(v@).take(k as int);
        let ghost cur = texts(v@).take(k + 1);
        assert(cur.drop_last() =~= pre);
        if k > 0 {
            out.push(sep);
        }
        let item = &v[k];
        let m = item.len();
        let ghost before = out@;
        for t in 0..m
            invariant
                m == item@.len(),
                out@ == before + item@.take(t as int),
        {
            out.push(item[t]);
            assert(item@.take(t + 1) =~= item@.take(t as int).push(item@[t as int]));
        }
        assert(item@.take(m as int) =~= item@);
        if k == 0 {
            assert(out@ =~= join(cur, seq![sep]));
        } else {
            assert(out@ =~= join(cur, seq![sep]));
        }
    }
    assert(texts(v@).take(n as int) =~= texts(v@));
    out
}

fn loose_unknown_exec(e: &Vec<char>) -> (r: Option<String>)
    ensures
        opt_text(r) == loose_unknown(e@),
{
    let word = chars_of("unknown");
    let tick: Vec<char> = vec!['`'];
    assert(tick@ =~= seq!['`']);
    match find_in(e, &word) {
        Some(p) => {
            proof { lemma_find(e@, word@); }
            let tail = slice_chars(e, p, e.len());
            match find_in(&tail, &tick) {
                Some(b) => {
                    proof { lemma_find(tail@, tick@); }
                    let rest = slice_chars(e, p + b + 1, e.len());
                    assert(rest@ =~= e@.skip(p + b + 1));
                    match find_in(&rest, &tick) {
                        Some(end) => {
                            proof { lemma_find(rest@, tick@); }
                            Some(string_of(&slice_chars(&rest, 0, end)))
                        },
                        None => None,
                    }
                },
                None => None,
            }
        },
        None => None,
    }
}

/// The unknown variant that a deserializer error message names, with the
/// message's other backtick-quoted names (the expected variants) appended
/// after "||" when there are any.
pub fn extract_unknown_variant(err: &str) -> (r: Option<String>)
    ensures
        opt_text(r) == unknown_variant(err@),
{
    let e = chars_of(err);
    let needle = chars_of("unknown variant `");
    let tick: Vec<char> = vec!['`'];
    assert(tick@ =~= seq!['`']);
    match find_in(&e, &needle) {
        Some(start) => {
            proof { lemma_find(e@, needle@); }
            let el = e.len();
            let rest = slice_chars(&e, start + needle.len(), el);
            match find_in(&rest, &tick) {
                Some(end) => {
                    proof { lemma_find(rest@, tick@); }
                    let unknown = slice_chars(&rest, 0, end);
                    let variants = tokens_without(&e, &unknown);
                    if variants.len() > 0 {
                        let unique = dedup_exec(&variants);
                        let joined = join_exec(&unique, ',');
                        let mut out = string_of(&unknown);
                        out.append("||");
                        push_chars(&mut out, &joined);
                        return Some(out);
                    }
                    Some(string_of(&unknown))
                },
                None => loose_unknown_exec(&e),
            }
        },
        None => loose_unknown_exec(&e),
    }
}

/// Names that are deprecated, with the names that replace them.
pub open spec fn deprecated_replacement(name: Seq<char>) -> Option<Seq<char>> {
    if name == "stack_windows"@ {
        Some("toggle_stack"@)
    } else if name == "unstack_windows"@ {
        Some("toggle_stack"@)
    } else if name == "toggle_tile_orientation"@ {
        Some("toggle_orientation"@)
    } else {
        None
    }
}

/// The trimmed, non-empty pieces of `pieces`, in order.
pub open spec fn clean(pieces: Seq<Seq<char>>) -> Seq<Seq<char>>
    decreases pieces.len(),
{
    if pieces.len() == 0 {
        seq![]
    } else if trim(pieces.last()).len() > 0 {
        clean(pieces.drop_last()).push(trim(pieces.last()))
    } else {
        clean(pieces.drop_last())
    }
}

/// The name to match, case-folded by `lower`, and, when the query carries
/// its own candidates after "||", those candidates (comma-separated,
/// trimmed, non-empty).
pub open spec fn split_query_by(u: Seq<char>, lower: spec_fn(Seq<char>) -> Seq<char>) -> (Seq<char>, Option<Seq<Seq<char>>>) {
    match find(u, seq!['|', '|']) {
        Some(idx) => (lower(u.take(idx)), Some(clean(split_on(u.skip(idx + 2), ',')))),
        None => (lower(u), None),
    }
}

/// `split_query_by` with Unicode case folding.
pub open spec fn split_query(u: Seq<char>) -> (Seq<char>, Option<Seq<Seq<char>>>) {
    split_query_by(u, |t: Seq<char>| lowercase(t))
}

/// The edit distance from `token` to each candidate case-folded by `lower`.
pub open spec fn distances_by(token: Seq<char>, cands: Seq<Seq<char>>, lower: spec_fn(Seq<char>) -> Seq<char>) -> Seq<nat> {
    cands.map_values(|c: Seq<char>| edit_distance(token, lower(c)))
}

/// The edit distance from `token` to each lowercased candidate.
pub open spec fn distances(token: Seq<char>, cands: Seq<Seq<char>>) -> Seq<nat> {
    distances_by(token, cands, |t: Seq<char>| lowercase(t))
}

/// An ASCII text case-folded: `A`..`Z` to `a`..`z`.
pub open spec fn ascii_lower_text(t: Seq<char>) -> Seq<char> {
    t.map_values(|c: char| ascii_lower(c))
}

/// The position of the first smallest entry.
pub open spec fn first_minimum(ds: Seq<nat>) -> Option<int>
    decreases ds.len(),
{
    if ds.len() == 0 {
        None
    } else {
        match first_minimum(ds.drop_last()) {
            None => Some(ds.len() - 1),
            Some(k) => if ds.last() < ds[k] { Some(ds.len() - 1) } else { Some(k) },
        }
    }
}

/// How far a candidate may be from the query and still be suggested: half
/// its length in UTF-8 bytes, and at least 3.
pub open spec fn suggestion_threshold(cand: Seq<char>) -> nat {
    let half = encode_utf8(cand).len() / 2;
    if half > 3 { half } else { 3 }
}

/// The suggestion for a mistyped command name `u` (possibly carrying its own
/// candidates after "||"; otherwise `builtin` are the candidates), with case
/// folded by `lower`: the closest candidate, when close enough, with its
/// replacement if it is deprecated; else, when the name itself is
/// deprecated, its replacement.
pub open spec fn suggestion_by(u: Seq<char>, builtin: Seq<Seq<char>>, lower: spec_fn(Seq<char>) -> Seq<char>) -> Option<(Seq<char>, Option<Seq<char>>)> {
    let token = split_query_by(u, lower).0;
    let cands = match split_query_by(u, lower).1 {
        Some(c) => c,
        None => builtin,
    };
    let ds = distances_by(token, cands, lower);
    let close = match first_minimum(ds) {
        Some(k) => ds[k] <= suggestion_threshold(cands[k]),
        None => false,
    };
    if close {
        let k = first_minimum(ds)->0;
        Some((cands[k], deprecated_replacement(cands[k])))
    } else {
        match deprecated_replacement(token) {
            Some(r) => Some((r, None)),
            None => None,
        }
    }
}

/// `suggestion_by` with Unicode case folding.
pub open spec fn suggestion(u: Seq<char>, builtin: Seq<Seq<char>>) -> Option<(Seq<char>, Option<Seq<char>>)> {
    suggestion_by(u, builtin, |t: Seq<char>| lowercase(t))
}

/// The candidates a query is matched against: its own after "||", else
/// `builtin`.
pub open spec fn query_candidates(u: Seq<char>, builtin: Seq<Seq<char>>) -> Seq<Seq<char>> {
    match split_query(u).1 {
        Some(c) => c,
        None => builtin,
    }
}

/// An ASCII query whose candidates are ASCII too.
pub open spec fn ascii_query(u: Seq<char>, builtin: Seq<Seq<char>>) -> bool {
    &&& all_ascii(u)
    &&& forall|i: int| 0 <= i < query_candidates(u, builtin).len() ==> all_ascii(#[trigger] query_candidates(u, builtin)[i])
}

/// `suggestion` of an ASCII query over ASCII candidates, stated without the
/// Unicode tables.
pub open spec fn ascii_suggestion(u: Seq<char>, builtin: Seq<Seq<char>>) -> Option<(Seq<char>, Option<Seq<char>>)> {
    suggestion_by(u, builtin, |t: Seq<char>| ascii_lower_text(t))
}

fn replacement_of(name: &[char]) -> (r: Option<String>)
    ensures
        opt_text(r) == deprecated_replacement(name@),
{
    if chars_eq(name, &chars_of("stack_windows")) {
        Some(String::from_str("toggle_stack"))
    } else if chars_eq(name, &chars_of("unstack_windows")) {
        Some(String::from_str("toggle_stack"))
    } else if chars_eq(name, &chars_of("toggle_tile_orientation")) {
        Some(String::from_str("toggle_orientation"))
    } else {
        None
    }
}

fn clean_exec(pieces: &Vec<Vec<char>>) -> (r: Vec<String>)
    ensures
        r@.map_values(|x: String| x@) == clean(texts(pieces@)),
{
    let n = pieces.len();
    let mut out: Vec<String> = Vec::new();
    assert(texts(pieces@).take(0) =~= Seq::<Seq<char>>::empty());
    for k in 0..n
        invariant
            n == pieces@.len(),
            out@.map_values(|x: String| x@) == clean(texts(pieces@).take(k as int)),
    {
        let ghost pre = texts(pieces@).take(k as int);
        let ghost cur = texts(pieces@).take(k + 1);
        assert(cur.drop_last() =~= pre);
        assert(cur.last() == pieces@[k as int]@);
        let t = trim_chars(&pieces[k]);
        if t.len() > 0 {
            let ghost before = out@.map_values(|x: String| x@);
            out.push(string_of(&t));
            assert(out@.map_values(|x: String| x@) =~= before.push(t@));
        }
    }
    assert(texts(pieces@).take(n as int) =~= texts(pieces@));
    out
}

fn copy_strings(v: &Vec<String>) -> (r: Vec<String>)
    ensures
        r@.map_values(|x: String| x@) == v@.map_values(|x: String| x@),
{
    let n = v.len();
    let mut out: Vec<String> = Vec::new();
    for k in 0..n
        invariant
            n == v@.len(),
            out@.len() == k,
            forall|m: int| 0 <= m < k ==> #[trigger] out@[m]@ == v@[m]@,
    {
        let c = v[k].clone();
        out.push(c);
    }
    assert(out@.map_values(|x: String| x@) =~= v@.map_values(|x: String| x@));
    out
}

/// The suggestion for a mistyped command name: `unknown` is the name (as
/// `extract_unknown_variant` gives it, possibly carrying candidates after
/// "||"), `builtin` the known command names to fall back on. Returns the
/// suggested name and, when that name is deprecated, its replacement.
pub fn suggest_similar_command(unknown: &str, builtin: &Vec<String>) -> (r: Option<(String, Option<String>)>)
    ensures
        match r {
            Some((name, repl)) => suggestion(unknown@, builtin@.map_values(|x: String| x@)) == Some((name@, opt_text(repl))),
            None => suggestion(unknown@, builtin@.map_values(|x: String| x@)) is None,
        },
        ascii_query(unknown@, builtin@.map_values(|x: String| x@)) ==> suggestion(unknown@, builtin@.map_values(|x: String| x@))
            == ascii_suggestion(unknown@, builtin@.map_values(|x: String| x@)),
{
    let u = chars_of(unknown);
    let bars: Vec<char> = vec!['|', '|'];
    assert(bars@ =~= seq!['|', '|']);
    let ghost bview = builtin@.map_values(|x: String| x@);
    let (token, cands) = match find_in(&u, &bars) {
        Some(idx) => {
            proof { lemma_find(u@, bars@); }
            let ul = u.len();
            let head = string_of(&slice_chars(&u, 0, idx));
            let rest = slice_chars(&u, idx + 2, ul);
            (to_lowercase(head.as_str()), clean_exec(&split_chars(&rest, ',')))
        },
        None => (to_lowercase(unknown), copy_strings(builtin)),
    };
    let ghost cview = cands@.map_values(|x: String| x@);
    let ghost ascii = ascii_query(unknown@, bview);
    assert(token@ == split_query(unknown@).0);
    assert(ascii ==> token@ == split_query_by(unknown@, |t: Seq<char>| ascii_lower_text(t)).0) by {
        if ascii {
            match find(unknown@, seq!['|', '|']) {
                Some(idx) => {
                    assert(all_ascii(unknown@.take(idx)));
                },
                None => {},
            }
        }
    }
    assert(cview == match split_query(unknown@).1 { Some(c) => c, None => bview });
    let ghost ds = distances(token@, cview);
    let n = cands.len();
    let mut best: Option<(usize, usize)> = None;
    assert(ds.take(0) =~= Seq::<nat>::empty());
    for k in 0..n
        invariant
            n == cands@.len(),
            cview == cands@.map_values(|x: String| x@),
            ds == distances(token@, cview),
            ascii == ascii_query(unknown@, bview),
            cview == query_candidates(unknown@, bview),
            ascii ==> forall|j: int| 0 <= j < k ==> lowercase(#[trigger] cview[j]) == ascii_lower_text(cview[j]),
            match best {
                Some((b, d)) => first_minimum(ds.take(k as int)) == Some(b as int) && d == ds[b as int] && b < k,
                None => first_minimum(ds.take(k as int)) is None,
            },
    {
        let lc = to_lowercase(cands[k].as_str());
        assert(ascii ==> all_ascii(cview[k as int]));
        let d = levenshtein(token.as_str(), lc.as_str());
        assert(ds.take(k + 1).drop_last() =~= ds.take(k as int));
        best = match best {
            None => Some((k, d)),
            Some((b, bd)) => if d < bd { Some((k, d)) } else { Some((b, bd)) },
        };
    }
    assert(ds.take(n as int) =~= ds);
    proof {
        if ascii {
            let f = |t: Seq<char>| ascii_lower_text(t);
            assert(distances_by(token@, cview, |t: Seq<char>| lowercase(t)) =~= distances_by(token@, cview, f));
            assert(suggestion(unknown@, bview) == ascii_suggestion(unknown@, bview));
        }
    }
    match best {
        Some((b, d)) => {
            let len = cands[b].as_str().as_bytes().len();
            let half = len / 2;
            let threshold = if half > 3 { half } else { 3 };
            assert(len == encode_utf8(cview[b as int]).len());
            assert(threshold == suggestion_threshold(cview[b as int]));
            if d <= threshold {
                let name = cands[b].clone();
                let repl = replacement_of(&chars_of(name.as_str()));
                assert(name@ == cview[b as int]);
                return Some((name, repl));
            }
            assert(!(ds[b as int] <= suggestion_threshold(cview[b as int])));
        },
        None => {},
    }
    match replacement_of(&chars_of(token.as_str())) {
        Some(r) => Some((r, None)),
        None => None,
    }
}

/// The message that reports a configuration that failed to parse: the
/// parser's `msg`, followed by a "Did you mean" hint when `msg` names an
/// unknown variant that is close to a candidate.
pub open spec fn parse_error_text(msg: Seq<char>, builtin: Seq<Seq<char>>) -> Seq<char> {
    match unknown_variant(msg) {
        Some(tok) => match suggestion(tok, builtin) {
            Some((s, Some(repl))) => msg + "\nDid you mean `"@ + s + "`? Note: `"@ + s + "` is deprecated; use `"@
                + repl + "` instead."@,
            Some((s, None)) => msg + "\nDid you mean `"@ + s + "`?"@,
            None => msg,
        },
        None => msg,
    }
}

/// The message for a configuration that failed to parse with message `msg`.
pub fn parse_error_message(msg: &str, builtin: &Vec<String>) -> (r: String)
    ensures
        r@ == parse_error_text(msg@, builtin@.map_values(|x: String| x@)),
{
    let mut out = String::from_str(msg);
    match extract_unknown_variant(msg) {
        Some(tok) => match suggest_similar_command(tok.as_str(), builtin) {
            Some((s, Some(repl))) => {
                out.append("\nDid you mean `");
                out.append(s.as_str());
                out.append("`? Note: `");
                out.append(s.as_str());
                out.append("` is deprecated; use `");
                out.append(repl.as_str());
                out.append("` instead.");
            },
            Some((s, None)) => {
                out.append("\nDid you mean `");
                out.append(s.as_str());
                out.append("`?");
            },
            None => {},
        },
        None => {},
    }
    out
}

} // verus!
