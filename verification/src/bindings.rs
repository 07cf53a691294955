//! Key-binding tables as read from a configuration file.
use vstd::prelude::*;
use vstd::string::*;
use crate::text::{chars_eq, chars_of};

verus! {

/// A value bound to a key in the `[keys]` table, as far as rewriting old
/// spellings needs to see it.
#[derive(Clone, Debug)]
pub enum BindingValue {
    /// A bare command name (`key = "name"`).
    Text(String),
    /// A one-entry table naming a command and its argument
    /// (`key = { name = "argument" }`).
    Entry { command: String, argument: String },
    /// Any other value.
    Other,
}

/// A bare resize command from before resize commands took an orientation.
pub open spec fn is_legacy_resize(v: BindingValue) -> bool {
    match v {
        BindingValue::Text(t) => t@ == "resize_window_grow"@ || t@ == "resize_window_shrink"@,
        _ => false,
    }
}

fn legacy_resize(v: &BindingValue) -> (b: bool)
    ensures
        b == is_legacy_resize(*v),
{
    match v {
        BindingValue::Text(t) => {
            let cs = chars_of(t.as_str());
            chars_eq(&cs, &chars_of("resize_window_grow")) || chars_eq(&cs, &chars_of("resize_window_shrink"))
        },
        _ => false,
    }
}

/// Rewrites the bare `resize_window_grow` / `resize_window_shrink` bindings
/// of a `[keys]` table into `{ <command> = "horizontal" }`, leaving every
/// other binding as it was. `keys` is `None` when the document has no
/// `[keys]` table. Returns whether anything was rewritten.
/// The rewrite of one binding: a legacy resize name becomes
/// `{ <name> = "horizontal" }`; anything else stays as it was.
pub open spec fn migrated_binding(b: BindingValue, a: BindingValue) -> bool {
    if is_legacy_resize(b) {
        a matches BindingValue::Entry { command, argument }
            && (b matches BindingValue::Text(t) && command@ == t@)
            && argument@ == "horizontal"@
    } else {
        a == b
    }
}

/// `after` is the table `before` with every legacy resize binding rewritten,
/// and `migrated_any` says whether there was one.
pub open spec fn migration(before: Option<Vec<BindingValue>>, after: Option<Vec<BindingValue>>, migrated_any: bool) -> bool {
    match before {
        None => after is None && !migrated_any,
        Some(b) => after matches Some(a) && a@.len() == b@.len()
            && migrated_any == (exists|i: int| 0 <= i < b@.len() && #[trigger] is_legacy_resize(b@[i]))
            && forall|i: int| 0 <= i < b@.len() ==> #[trigger] migrated_binding(b@[i], a@[i]),
    }
}

/// Rewrites the bare `resize_window_grow` / `resize_window_shrink` bindings
/// of a `[keys]` table into `{ <command> = "horizontal" }`, leaving every
/// other binding as it was. `keys` is `None` when the document has no
/// `[keys]` table. Returns whether anything was rewritten.
pub fn migrate_legacy_resize_bindings(keys: &mut Option<Vec<BindingValue>>) -> (migrated_any: bool)
    ensures
        migration(*old(keys), *final(keys), migrated_any),
{
    match keys {
        None => false,
        Some(table) => {
            let n = table.len();
            let ghost before = table@;
            let mut migrated_any = false;
            for i in 0..n
                invariant
                    n == before.len(),
                    table@.len() == n,
                    migrated_any == (exists|j: int| 0 <= j < i && #[trigger] is_legacy_resize(before[j])),
                    forall|j: int| i <= j < n ==> table@[j] == before[j],
                    forall|j: int| 0 <= j < i ==> #[trigger] migrated_binding(before[j], table@[j]),
            {
                if legacy_resize(&table[i]) {
                    let command = match &table[i] {
                        BindingValue::Text(t) => t.clone(),
                        _ => String::new(),
                    };
                    table.set(i, BindingValue::Entry { command, argument: String::from_str("horizontal") });
                    migrated_any = true;
                    assert(is_legacy_resize(before[i as int]));
                }
            }
            migrated_any
        },
    }
}

/// A binding as (kind, text, argument): a bare name is kind 0 with the
/// name; a one-entry table is kind 1 with its command and argument; any
/// other value is kind 2 with empty texts.
pub open spec fn binding_view(b: BindingValue) -> (u8, Seq<char>, Seq<char>) {
    match b {
        BindingValue::Text(t) => (0, t@, Seq::empty()),
        BindingValue::Entry { command, argument } => (1, command@, argument@),
        BindingValue::Other => (2, Seq::empty(), Seq::empty()),
    }
}

/// A legacy resize binding, seen by its view.
pub open spec fn legacy_view(b: (u8, Seq<char>, Seq<char>)) -> bool {
    b.0 == 0 && (b.1 == "resize_window_grow"@ || b.1 == "resize_window_shrink"@)
}

/// The view of a binding after migration.
pub open spec fn migrated_view(b: (u8, Seq<char>, Seq<char>)) -> (u8, Seq<char>, Seq<char>) {
    if legacy_view(b) { (1, b.1, "horizontal"@) } else { b }
}

/// Migration, seen through the views of the bindings.
pub proof fn lemma_migration_views(b: BindingValue, a: BindingValue)
    ensures
        is_legacy_resize(b) == legacy_view(binding_view(b)),
        migrated_binding(b, a) ==> binding_view(a) == migrated_view(binding_view(b)),
{
}

/// Migrating a table that was already migrated rewrites nothing and reports
/// nothing: the migration is idempotent.
pub proof fn law_migration_idempotent(
    before: Option<Vec<BindingValue>>,
    once: Option<Vec<BindingValue>>,
    first: bool,
    twice: Option<Vec<BindingValue>>,
    second: bool,
)
    requires
        migration(before, once, first),
        migration(once, twice, second),
    ensures
        !second,
        once is Some ==> twice is Some && twice.unwrap()@ == once.unwrap()@,
        once is None ==> twice is None,
{
    if let Some(b) = before {
        let a = once.unwrap();
        assert forall|i: int| 0 <= i < a@.len() implies !#[trigger] is_legacy_resize(a@[i]) by {
            assert(migrated_binding(b@[i], a@[i]));
        }
        let c = twice.unwrap();
        assert forall|i: int| 0 <= i < a@.len() implies c@[i] == a@[i] by {
            assert(migrated_binding(a@[i], c@[i]));
        }
        assert(c@ =~= a@);
    }
}

/// The key specs a deserialized configuration keeps: the recorded ones, or,
/// when none were recorded but key bindings exist, one spec per binding
/// (`keys_as_specs`, the bindings written back as text, in order).
pub fn key_specs_or_keys<T>(key_specs: Vec<(String, T)>, keys_as_specs: Vec<(String, T)>) -> (r: Vec<(String, T)>)
    ensures
        r == if key_specs@.len() == 0 && keys_as_specs@.len() > 0 { keys_as_specs } else { key_specs },
{
    if key_specs.len() == 0 && keys_as_specs.len() > 0 { keys_as_specs } else { key_specs }
}

} // verus!
