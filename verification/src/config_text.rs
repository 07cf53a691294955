//! The key bindings of a configuration text: the text parsed with the `toml`
//! crate, the `[keys]` table read as bindings and migrated from legacy
//! spellings, and each key spelled as a key spec.
use vstd::prelude::*;
use vstd::string::*;
use crate::bindings::{
    binding_view, is_legacy_resize, legacy_view, lemma_migration_views, migrate_legacy_resize_bindings,
    migrated_binding, migrated_view, BindingValue,
};
use crate::suggest::{parse_error_message, parse_error_text};
use crate::workspace_rules::opt_view;
use crate::text::{chars_eq, chars_of, distinct_keys};
use crate::hotkeys::{combination_texts, expanded_key, normalized_hotkey, resolve_key_spec};

verus! {

/// A value of the `[keys]` table as the document holds it: a string, a
/// table (each entry with its string value, if the value is a string), or
/// anything else.
#[derive(Clone, Debug)]
pub enum KeyValue {
    Text(String),
    Table(Vec<(String, Option<String>)>),
    Other,
}

/// A `[keys]` value as (kind, text, entries): kind 0 a string, 1 a table,
/// 2 anything else.
pub open spec fn key_value_view(v: KeyValue) -> (u8, Seq<char>, Seq<(Seq<char>, Option<Seq<char>>)>) {
    match v {
        KeyValue::Text(t) => (0, t@, Seq::empty()),
        KeyValue::Table(e) => (1, Seq::empty(), e@.map_values(|p: (String, Option<String>)| (p.0@, opt_view(p.1)))),
        KeyValue::Other => (2, Seq::empty(), Seq::empty()),
    }
}

/// The view of a `[keys]` value: (kind, text, entries).
pub type KeyView = (u8, Seq<char>, Seq<(Seq<char>, Option<Seq<char>>)>);

/// A top-level value of a configuration document: a table (its entries read
/// as `[keys]` values are read) or anything else.
#[derive(Clone, Debug)]
pub enum DocValue {
    Table(Vec<(String, KeyValue)>),
    Other,
}

/// A top-level value as (kind, entries): kind 1 a table, 2 anything else.
pub open spec fn doc_value_view(v: DocValue) -> (u8, Seq<(Seq<char>, KeyView)>) {
    match v {
        DocValue::Table(t) => (1, t@.map_values(|p: (String, KeyValue)| (p.0@, key_value_view(p.1)))),
        DocValue::Other => (2, Seq::empty()),
    }
}

/// A parsed document: each top-level name with its value, or the error text.
pub open spec fn document_view(r: Result<Vec<(String, DocValue)>, String>) -> Result<
    Seq<(Seq<char>, (u8, Seq<(Seq<char>, KeyView)>))>,
    Seq<char>,
> {
    match r {
        Ok(d) => Ok(d@.map_values(|p: (String, DocValue)| (p.0@, doc_value_view(p.1)))),
        Err(e) => Err(e@),
    }
}

/// What the `toml` crate makes of a configuration text: the error message
/// (`Display` of `toml::de::Error`) when the text is not TOML, else the
/// top-level entries in the order the crate's table keeps them.
pub uninterp spec fn toml_document(text: Seq<char>) -> Result<Seq<(Seq<char>, (u8, Seq<(Seq<char>, KeyView)>))>, Seq<char>>;

/// Parses `text` with `toml::from_str` into a table and converts it to
/// plain values, telling the `toml::Value` variants apart. Claimed of the
/// toml crate: the outcome depends on the text alone.
#[verifier::external_body]
fn parse_document(text: &str) -> (r: Result<Vec<(String, DocValue)>, String>)
    ensures
        document_view(r) == toml_document(text@),
{
    let doc = toml::from_str::<toml::Table>(text).map_err(|e| e.to_string())?;
    Ok(doc.iter().map(|(n, v)| (n.clone(), match v {
        toml::Value::Table(t) => DocValue::Table(t.iter().map(|(k, v)| (k.clone(), match v {
            toml::Value::String(s) => KeyValue::Text(s.clone()),
            toml::Value::Table(e) => KeyValue::Table(e.iter().map(|(a, b)| (a.clone(), b.as_str().map(str::to_owned))).collect()),
            _ => KeyValue::Other,
        })).collect()),
        _ => DocValue::Other,
    })).collect())
}

/// The entries of the first top-level table named `name`; nothing when the
/// document has no such entry or it is not a table.
pub open spec fn table_of(doc: Seq<(Seq<char>, (u8, Seq<(Seq<char>, KeyView)>))>, name: Seq<char>) -> Option<Seq<(Seq<char>, KeyView)>>
    decreases doc.len(),
{
    if doc.len() == 0 {
        None
    } else if doc[0].0 == name {
        if doc[0].1.0 == 1 { Some(doc[0].1.1) } else { None }
    } else {
        table_of(doc.drop_first(), name)
    }
}

/// The `[keys]` table of a configuration text, or the parser's message.
pub open spec fn toml_keys(text: Seq<char>) -> Result<Option<Seq<(Seq<char>, KeyView)>>, Seq<char>> {
    match toml_document(text) {
        Ok(d) => Ok(table_of(d, "keys"@)),
        Err(e) => Err(e),
    }
}

/// The position of the first top-level entry named `name`, if it is a table.
fn find_table(doc: &Vec<(String, DocValue)>, name: &str) -> (r: Option<usize>)
    ensures
        match r {
            Some(i) => i < doc@.len() && doc@[i as int].1 is Table
                && table_of(doc@.map_values(|p: (String, DocValue)| (p.0@, doc_value_view(p.1))), name@)
                    == Some(doc_value_view(doc@[i as int].1).1),
            None => table_of(doc@.map_values(|p: (String, DocValue)| (p.0@, doc_value_view(p.1))), name@) is None,
        },
{
    let ghost all = doc@.map_values(|p: (String, DocValue)| (p.0@, doc_value_view(p.1)));
    let target = chars_of(name);
    assert(all.skip(0) =~= all);
    for k in 0..doc.len()
        invariant
            all == doc@.map_values(|p: (String, DocValue)| (p.0@, doc_value_view(p.1))),
            target@ == name@,
            table_of(all, name@) == table_of(all.skip(k as int), name@),
    {
        let ghost rest = all.skip(k as int);
        assert(rest[0] == all[k as int]);
        if chars_eq(&chars_of(doc[k].0.as_str()), &target) {
            return match &doc[k].1 {
                DocValue::Table(_) => Some(k),
                DocValue::Other => None,
            };
        }
        assert(rest.drop_first() =~= all.skip(k + 1));
    }
    assert(all.skip(doc@.len() as int).len() == 0);
    None
}

/// The binding a `[keys]` value stands for: a string is a bare command name;
/// a table of exactly one entry with a string value is a command with its
/// argument; anything else is some other binding.
pub open spec fn binding_of_key(v: KeyView) -> (u8, Seq<char>, Seq<char>) {
    if v.0 == 0 {
        (0, v.1, Seq::empty())
    } else if v.0 == 1 && v.2.len() == 1 && v.2[0].1 is Some {
        (1, v.2[0].0, v.2[0].1->0)
    } else {
        (2, Seq::empty(), Seq::empty())
    }
}

/// See [`binding_of_key`].
pub fn binding_of(v: &KeyValue) -> (b: BindingValue)
    ensures
        binding_view(b) == binding_of_key(key_value_view(*v)),
{
    match v {
        KeyValue::Text(t) => BindingValue::Text(t.clone()),
        KeyValue::Table(e) => {
            if e.len() == 1 {
                match &e[0].1 {
                    Some(a) => BindingValue::Entry { command: e[0].0.clone(), argument: a.clone() },
                    None => BindingValue::Other,
                }
            } else {
                BindingValue::Other
            }
        },
        KeyValue::Other => BindingValue::Other,
    }
}

/// Some binding of the parsed table is a legacy resize binding.
pub open spec fn any_legacy(ks: Seq<(Seq<char>, KeyView)>) -> bool {
    exists|i: int| 0 <= i < ks.len() && #[trigger] legacy_view(binding_of_key(ks[i].1))
}

/// `after` is the parsed table `keys` with every binding read and migrated,
/// names kept, and `migrated` tells whether a legacy binding was rewritten.
pub open spec fn migrated_table(
    keys: Option<Seq<(Seq<char>, KeyView)>>,
    after: Option<Vec<(String, BindingValue)>>,
    migrated: bool,
) -> bool {
    match keys {
        None => after is None && !migrated,
        Some(ks) => after matches Some(a) && a@.len() == ks.len()
            && (forall|i: int| #![trigger a@[i]] 0 <= i < ks.len() ==> a@[i].0@ == ks[i].0
                && binding_view(a@[i].1) == migrated_view(binding_of_key(ks[i].1)))
            && migrated == any_legacy(ks),
    }
}

/// Reads the `[keys]` table of a configuration text and rewrites its legacy
/// resize bindings; a text that is not TOML gives the parser's message, with
/// a "Did you mean" hint where one applies (`builtin`: the known command
/// names).
pub fn migrate_config_text(text: &str, builtin: &Vec<String>) -> (r: Result<(Option<Vec<(String, BindingValue)>>, bool), String>)
    ensures
        match r {
            Ok((after, migrated)) => toml_keys(text@) matches Ok(keys) && migrated_table(keys, after, migrated),
            Err(e) => toml_keys(text@) matches Err(msg) && e@ == parse_error_text(msg, builtin@.map_values(|x: String| x@)),
        },
{
    let doc = match parse_document(text) {
        Err(msg) => return Err(parse_error_message(msg.as_str(), builtin)),
        Ok(doc) => doc,
    };
    match find_table(&doc, "keys") {
        None => Ok((None, false)),
        Some(ix) => {
            let entries = match &doc[ix].1 {
                DocValue::Table(t) => t,
                DocValue::Other => {
                    proof { assert(false); }
                    return Ok((None, false));
                },
            };
            let ghost ks = entries@.map_values(|p: (String, KeyValue)| (p.0@, key_value_view(p.1)));
            let n = entries.len();
            let mut names: Vec<String> = Vec::new();
            let mut values: Vec<BindingValue> = Vec::new();
            let mut i: usize = 0;
            while i < n
                invariant
                    n == entries@.len(),
                    i <= n,
                    ks == entries@.map_values(|p: (String, KeyValue)| (p.0@, key_value_view(p.1))),
                    names@.len() == i,
                    values@.len() == i,
                    forall|j: int| 0 <= j < i ==> (#[trigger] names@[j])@ == ks[j].0,
                    forall|j: int| 0 <= j < i ==> binding_view(#[trigger] values@[j]) == binding_of_key(ks[j].1),
                decreases n - i,
            {
                let name = entries[i].0.clone();
                let value = binding_of(&entries[i].1);
                assert(ks[i as int] == (entries@[i as int].0@, key_value_view(entries@[i as int].1)));
                names.push(name);
                values.push(value);
                i = i + 1;
            }
            let ghost before = values@;
            let mut table = Some(values);
            let migrated = migrate_legacy_resize_bindings(&mut table);
            let mut rest = match table {
                Some(v) => v,
                None => Vec::new(),
            };
            let ghost after = rest@;
            proof {
                assert forall|j: int| 0 <= j < n implies
                    binding_view(#[trigger] after[j]) == migrated_view(binding_of_key(ks[j].1)) by {
                    assert(migrated_binding(before[j], after[j]));
                    lemma_migration_views(before[j], after[j]);
                }
                if migrated {
                    let j = choose|j: int| 0 <= j < n && #[trigger] is_legacy_resize(before[j]);
                    lemma_migration_views(before[j], after[j]);
                    assert(legacy_view(binding_of_key(ks[j].1)));
                }
                if any_legacy(ks) {
                    let j = choose|j: int| 0 <= j < n && #[trigger] legacy_view(binding_of_key(ks[j].1));
                    lemma_migration_views(before[j], after[j]);
                    assert(is_legacy_resize(before[j]));
                }
            }
            let mut out: Vec<(String, BindingValue)> = Vec::new();
            for i in 0..n
                invariant
                    n == names@.len(),
                    n == after.len(),
                    rest@ == after.skip(i as int),
                    out@.len() == i,
                    forall|j: int| #![trigger out@[j]] 0 <= j < i ==> out@[j].0@ == names@[j]@ && out@[j].1 == after[j],
            {
                let v = rest.remove(0);
                out.push((names[i].clone(), v));
                assert(after.skip(i + 1) =~= after.skip(i as int).remove(0));
            }
            proof {
                assert(ks.len() == n);
                assert forall|j: int| #![trigger out@[j]] 0 <= j < ks.len() implies out@[j].0@ == ks[j].0
                    && binding_view(out@[j].1) == migrated_view(binding_of_key(ks[j].1)) by {
                    assert(names@[j]@ == ks[j].0);
                    assert(binding_view(after[j]) == migrated_view(binding_of_key(ks[j].1)));
                }
                assert(migrated == any_legacy(ks));
                assert(migrated_table(Some(ks), Some(out), migrated));
            }
            Ok((Some(out), migrated))
        },
    }
}

/// Some combination in `c` is named `n`.
pub open spec fn has_name(c: Seq<(Seq<char>, Seq<char>)>, n: Seq<char>) -> bool {
    exists|i: int| 0 <= i < c.len() && #[trigger] c[i].0 == n
}

/// The named modifier combinations of a `[modifier_combinations]` table:
/// its entries with string values, in order, the first of each name.
pub open spec fn combos_from(entries: Seq<(Seq<char>, KeyView)>) -> Seq<(Seq<char>, Seq<char>)>
    decreases entries.len(),
{
    if entries.len() == 0 {
        Seq::empty()
    } else {
        let rest = combos_from(entries.drop_last());
        let e = entries.last();
        if e.1.0 == 0 && !has_name(rest, e.0) { rest.push((e.0, e.1.1)) } else { rest }
    }
}

/// The named modifier combinations of a configuration text.
pub open spec fn text_combos(text: Seq<char>) -> Seq<(Seq<char>, Seq<char>)> {
    match toml_document(text) {
        Ok(d) => match table_of(d, "modifier_combinations"@) {
            Some(e) => combos_from(e),
            None => Seq::empty(),
        },
        Err(_) => Seq::empty(),
    }
}

fn has_name_exec(c: &Vec<(String, String)>, n: &String) -> (b: bool)
    ensures
        b == has_name(combination_texts(c@), n@),
{
    let target = chars_of(n.as_str());
    let ghost ct = combination_texts(c@);
    for k in 0..c.len()
        invariant
            ct == combination_texts(c@),
            target@ == n@,
            forall|j: int| 0 <= j < k ==> ct[j].0 != n@,
    {
        if chars_eq(&chars_of(c[k].0.as_str()), &target) {
            assert(ct[k as int].0 == n@);
            return true;
        }
    }
    false
}

/// The combinations of a `[modifier_combinations]` table; no name repeats.
fn combinations_of(entries: &Vec<(String, KeyValue)>) -> (r: Vec<(String, String)>)
    ensures
        combination_texts(r@) == combos_from(entries@.map_values(|p: (String, KeyValue)| (p.0@, key_value_view(p.1)))),
        distinct_keys(r@),
{
    let ghost ev = entries@.map_values(|p: (String, KeyValue)| (p.0@, key_value_view(p.1)));
    let mut r: Vec<(String, String)> = Vec::new();
    for k in 0..entries.len()
        invariant
            ev == entries@.map_values(|p: (String, KeyValue)| (p.0@, key_value_view(p.1))),
            combination_texts(r@) == combos_from(ev.take(k as int)),
            distinct_keys(r@),
    {
        assert(ev.take(k + 1).drop_last() =~= ev.take(k as int));
        assert(ev.take(k + 1).last() == ev[k as int]);
        match &entries[k].1 {
            KeyValue::Text(v) => {
                if !has_name_exec(&r, &entries[k].0) {
                    let ghost before = r@;
                    let name = entries[k].0.clone();
                    let value = v.clone();
                    r.push((name, value));
                    assert(combination_texts(r@) =~= combination_texts(before).push((name@, value@)));
                    assert forall|i: int, j: int| 0 <= i < j < r@.len() implies r@[i].0@ != r@[j].0@ by {
                        if j == r@.len() - 1 {
                            assert(combination_texts(before)[i].0 == before[i].0@);
                        }
                    }
                }
            },
            _ => {},
        }
    }
    assert(ev.take(entries@.len() as int) =~= ev);
    r
}

/// The key bindings of a configuration text, each under its key spec: the
/// `[keys]` name with its `[modifier_combinations]` combination expanded and
/// its spelling normalized, the binding read and migrated. A text that is
/// not TOML gives the parser's message, with a "Did you mean" hint where one
/// applies.
pub fn config_key_specs(text: &str, builtin: &Vec<String>) -> (r: Result<Vec<(String, BindingValue)>, String>)
    ensures
        match r {
            Ok(v) => toml_keys(text@) matches Ok(keys) && match keys {
                None => v@.len() == 0,
                Some(ks) => v@.len() == ks.len() && forall|i: int| #![trigger v@[i]] 0 <= i < ks.len()
                    ==> v@[i].0@ == normalized_hotkey(expanded_key(ks[i].0, text_combos(text@)))
                    && binding_view(v@[i].1) == migrated_view(binding_of_key(ks[i].1)),
            },
            Err(e) => toml_keys(text@) matches Err(msg) && e@ == parse_error_text(msg, builtin@.map_values(|x: String| x@)),
        },
{
    let after = match migrate_config_text(text, builtin) {
        Err(e) => return Err(e),
        Ok((None, _)) => return Ok(Vec::new()),
        Ok((Some(a), _)) => a,
    };
    let doc = match parse_document(text) {
        Ok(doc) => doc,
        Err(_) => {
            proof { assert(false); }
            return Ok(Vec::new());
        },
    };
    let combos = match find_table(&doc, "modifier_combinations") {
        Some(ix) => match &doc[ix].1 {
            DocValue::Table(t) => combinations_of(t),
            DocValue::Other => Vec::new(),
        },
        None => Vec::new(),
    };
    assert(combination_texts(combos@) == text_combos(text@));
    let ghost orig = after@;
    let n = after.len();
    let mut rest = after;
    let mut out: Vec<(String, BindingValue)> = Vec::new();
    for i in 0..n
        invariant
            n == orig.len(),
            rest@ == orig.skip(i as int),
            out@.len() == i,
            distinct_keys(combos@),
            combination_texts(combos@) == text_combos(text@),
            forall|j: int| #![trigger out@[j]] 0 <= j < i ==> out@[j].0@
                == normalized_hotkey(expanded_key(orig[j].0@, text_combos(text@))) && out@[j].1 == orig[j].1,
    {
        assert(rest@[0] == orig[i as int]);
        let (name, binding) = rest.remove(0);
        let spec = resolve_key_spec(name.as_str(), &combos);
        out.push((spec, binding));
        assert(orig.skip(i + 1) =~= orig.skip(i as int).remove(0));
    }
    Ok(out)
}

} // verus!
