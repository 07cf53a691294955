//! Key-binding text: expanding named modifier combinations and normalizing
//! the spelling of hotkeys.
use vstd::prelude::*;
use vstd::string::*;
use vstd::utf8::encode_utf8;
use crate::text::{distinct_keys, chars_eq, chars_of, find, find_in, lemma_find, push_char, push_chars, slice_chars};
use crate::unicode::{all_ascii, ascii_alpha, ascii_lower, char_is_alphabetic, is_alphabetic, lowercase, to_lowercase};

verus! {

broadcast use vstd::slice::group_slice_axioms;

/// `c` in ASCII upper case (`char::to_ascii_uppercase`).
pub open spec fn ascii_upper(c: char) -> char {
    if 'a' <= c && c <= 'z' { ((c as u32) - 32) as char } else { c }
}

/// The spelling a hotkey word takes, given the word in lower case: a
/// one-byte word in upper case, the arrow names (any case) as
/// `ArrowUp`/`ArrowDown`/`ArrowLeft`/`ArrowRight`, any other word unchanged.
pub open spec fn token_with(word: Seq<char>, lower: Seq<char>) -> Seq<char> {
    if encode_utf8(word).len() == 1 {
        word.map_values(|c: char| ascii_upper(c))
    } else if lower == "up"@ {
        "ArrowUp"@
    } else if lower == "down"@ {
        "ArrowDown"@
    } else if lower == "left"@ {
        "ArrowLeft"@
    } else if lower == "right"@ {
        "ArrowRight"@
    } else {
        word
    }
}

/// The spelling a hotkey word takes, its case folded by Unicode.
pub open spec fn hotkey_token(word: Seq<char>) -> Seq<char> {
    token_with(word, lowercase(word))
}

/// The spelling of a pending word, nothing for an empty one.
pub open spec fn flush_word(word: Seq<char>) -> Seq<char> {
    if word.len() == 0 { seq![] } else { hotkey_token(word) }
}

/// Reading `s` left to right: the text written so far, and the word of
/// alphabetic characters still being collected.
pub open spec fn hotkey_scan(s: Seq<char>) -> (Seq<char>, Seq<char>)
    decreases s.len(),
{
    if s.len() == 0 {
        (seq![], seq![])
    } else {
        let (out, word) = hotkey_scan(s.drop_last());
        let c = s.last();
        if char_is_alphabetic(c) {
            (out, word.push(c))
        } else {
            (out + flush_word(word) + seq![c], seq![])
        }
    }
}

/// A hotkey text with every maximal run of alphabetic characters respelled
/// by `hotkey_token`, all other characters kept in place.
pub open spec fn normalized_hotkey(s: Seq<char>) -> Seq<char> {
    hotkey_scan(s).0 + flush_word(hotkey_scan(s).1)
}

/// The spelling of a pending word of an ASCII text, nothing for an empty one.
pub open spec fn ascii_flush_word(word: Seq<char>) -> Seq<char> {
    if word.len() == 0 { seq![] } else { token_with(word, word.map_values(|c: char| ascii_lower(c))) }
}

/// `hotkey_scan` for an ASCII text: its letters are its alphabetic
/// characters, and case folds `A`..`Z` to `a`..`z`.
pub open spec fn ascii_hotkey_scan(s: Seq<char>) -> (Seq<char>, Seq<char>)
    decreases s.len(),
{
    if s.len() == 0 {
        (seq![], seq![])
    } else {
        let (out, word) = ascii_hotkey_scan(s.drop_last());
        let c = s.last();
        if ascii_alpha(c) {
            (out, word.push(c))
        } else {
            (out + ascii_flush_word(word) + seq![c], seq![])
        }
    }
}

/// `normalized_hotkey` of an ASCII text, stated without the Unicode tables.
pub open spec fn ascii_normalized_hotkey(s: Seq<char>) -> Seq<char> {
    ascii_hotkey_scan(s).0 + ascii_flush_word(ascii_hotkey_scan(s).1)
}

fn ascii_upper_exec(c: char) -> (u: char)
    ensures
        u == ascii_upper(c),
{
    if 'a' <= c && c <= 'z' {
        let b = (c as u8) - 32;
        assert((c as u32) == (c as u8) as u32);
        b as char
    } else {
        c
    }
}

fn token_exec(word: &Vec<char>) -> (t: Vec<char>)
    ensures
        t@ == hotkey_token(word@),
        all_ascii(word@) ==> t@ == token_with(word@, word@.map_values(|c: char| ascii_lower(c))),
{
    let w = crate::text::string_of(word);
    if w.as_str().as_bytes().len() == 1 {
        let n = word.len();
        let mut t: Vec<char> = Vec::new();
        for k in 0..n
            invariant
                n == word@.len(),
                t@ == word@.take(k as int).map_values(|c: char| ascii_upper(c)),
        {
            t.push(ascii_upper_exec(word[k]));
            assert(word@.take(k + 1).map_values(|c: char| ascii_upper(c))
                =~= word@.take(k as int).map_values(|c: char| ascii_upper(c)).push(ascii_upper(word@[k as int])));
        }
        assert(word@.take(n as int) =~= word@);
        return t;
    }
    let lower = chars_of(to_lowercase(w.as_str()).as_str());
    if chars_eq(&lower, &chars_of("up")) {
        chars_of("ArrowUp")
    } else if chars_eq(&lower, &chars_of("down")) {
        chars_of("ArrowDown")
    } else if chars_eq(&lower, &chars_of("left")) {
        chars_of("ArrowLeft")
    } else if chars_eq(&lower, &chars_of("right")) {
        chars_of("ArrowRight")
    } else {
        slice_chars(word, 0, word.len())
    }
}

/// Normalizes the spelling of a hotkey: single letters in upper case and
/// `up`/`down`/`left`/`right` as `ArrowUp`/`ArrowDown`/`ArrowLeft`/`ArrowRight`.
pub fn normalize_hotkey_string(key: &str) -> (r: String)
    ensures
        r@ == normalized_hotkey(key@),
        all_ascii(key@) ==> r@ == ascii_normalized_hotkey(key@),
{
    let cs = chars_of(key);
    let n = cs.len();
    let mut out = String::new();
    let mut word: Vec<char> = Vec::new();
    assert(cs@.take(0) =~= Seq::<char>::empty());
    for k in 0..n
        invariant
            n == cs@.len(),
            cs@ == key@,
            (out@, word@) == hotkey_scan(cs@.take(k as int)),
            all_ascii(cs@) ==> (out@, word@) == ascii_hotkey_scan(cs@.take(k as int)) && all_ascii(word@),
    {
        let c = cs[k];
        assert(cs@.take(k + 1).drop_last() =~= cs@.take(k as int));
        assert(cs@.take(k + 1).last() == c);
        assert(all_ascii(cs@) ==> (c as u32) < 128);
        if is_alphabetic(c) {
            word.push(c);
        } else {
            if word.len() > 0 {
                let t = token_exec(&word);
                push_chars(&mut out, &t);
            } else {
                assert(out@ + flush_word(word@) =~= out@);
            }
            push_char(&mut out, c);
            word = Vec::new();
        }
    }
    assert(cs@.take(n as int) =~= cs@);
    if word.len() > 0 {
        let t = token_exec(&word);
        push_chars(&mut out, &t);
    } else {
        assert(out@ + flush_word(word@) =~= out@);
    }
    out
}

/// The value bound to `name` among named modifier combinations (the first
/// entry with that name).
pub open spec fn combination_value(combos: Seq<(Seq<char>, Seq<char>)>, name: Seq<char>) -> Option<Seq<char>>
    decreases combos.len(),
{
    if combos.len() == 0 {
        None
    } else if combos[0].0 == name {
        Some(combos[0].1)
    } else {
        combination_value(combos.drop_first(), name)
    }
}

/// The texts of named modifier combinations.
pub open spec fn combination_texts(combos: Seq<(String, String)>) -> Seq<(Seq<char>, Seq<char>)> {
    combos.map_values(|p: (String, String)| (p.0@, p.1@))
}

/// A key text whose part before the first `" + "` names a modifier
/// combination, with that name replaced by its value; any other key unchanged.
pub open spec fn expanded_key(key: Seq<char>, combos: Seq<(Seq<char>, Seq<char>)>) -> Seq<char> {
    match find(key, " + "@) {
        Some(pos) => match combination_value(combos, key.take(pos)) {
            Some(value) => value + " + "@ + key.skip(pos + " + "@.len()),
            None => key,
        },
        None => key,
    }
}

fn lookup_combination(combos: &Vec<(String, String)>, name: &Vec<char>) -> (r: Option<String>)
    ensures
        match r {
            Some(v) => combination_value(combination_texts(combos@), name@) == Some(v@),
            None => combination_value(combination_texts(combos@), name@) is None,
        },
{
    let n = combos.len();
    let ghost all = combination_texts(combos@);
    assert(all.skip(0) =~= all);
    for k in 0..n
        invariant
            n == combos@.len(),
            all == combination_texts(combos@),
            combination_value(all, name@) == combination_value(all.skip(k as int), name@),
    {
        let ghost rest = all.skip(k as int);
        assert(rest[0] == (combos@[k as int].0@, combos@[k as int].1@));
        if chars_eq(&chars_of(combos[k].0.as_str()), name) {
            return Some(combos[k].1.clone());
        }
        assert(rest.drop_first() =~= all.skip(k + 1));
    }
    assert(all.skip(n as int).len() == 0);
    None
}

/// Expands a named modifier combination at the start of `key`: when the
/// text before the first `" + "` is the name of a combination, it is
/// replaced by the combination's value.
pub fn expand_modifier_combinations(key: &str, combinations: &Vec<(String, String)>) -> (r: String)
    requires
        distinct_keys(combinations@),
    ensures
        r@ == expanded_key(key@, combination_texts(combinations@)),
{
    let cs = chars_of(key);
    let sep = chars_of(" + ");
    match find_in(&cs, &sep) {
        Some(pos) => {
            proof { lemma_find(cs@, sep@); }
            let cl = cs.len();
            let name = slice_chars(&cs, 0, pos);
            match lookup_combination(combinations, &name) {
                Some(value) => {
                    let mut out = value;
                    out.append(" + ");
                    push_chars(&mut out, &slice_chars(&cs, pos + sep.len(), cl));
                    out
                },
                None => key.to_owned(),
            }
        },
        None => key.to_owned(),
    }
}

/// The key spec a binding is stored under: modifier combinations expanded,
/// then the spelling normalized.
pub fn resolve_key_spec(key: &str, combinations: &Vec<(String, String)>) -> (r: String)
    requires
        distinct_keys(combinations@),
    ensures
        r@ == normalized_hotkey(expanded_key(key@, combination_texts(combinations@))),
{
    let expanded = expand_modifier_combinations(key, combinations);
    normalize_hotkey_string(expanded.as_str())
}

/// The key spec of every binding of a `[keys]` table, in order: each key
/// with its modifier combination expanded and its spelling normalized.
pub fn resolve_key_specs(keys: &Vec<String>, combinations: &Vec<(String, String)>) -> (specs: Vec<String>)
    requires
        distinct_keys(combinations@),
    ensures
        specs@.len() == keys@.len(),
        forall|i: int| 0 <= i < keys@.len() ==> #[trigger] specs@[i]@
            == normalized_hotkey(expanded_key(keys@[i]@, combination_texts(combinations@))),
{
    let mut specs: Vec<String> = Vec::new();
    for i in 0..keys.len()
        invariant
            specs@.len() == i,
            distinct_keys(combinations@),
            forall|j: int| 0 <= j < i ==> #[trigger] specs@[j]@
                == normalized_hotkey(expanded_key(keys@[j]@, combination_texts(combinations@))),
    {
        specs.push(resolve_key_spec(keys[i].as_str(), combinations));
    }
    specs
}

} // verus!
