//! Validation of the `[virtual_workspaces]` table and its app rules.
use vstd::prelude::*;
use vstd::string::*;
use crate::issues::{append_issues, flag, number_message, push_issue, views, with_number};
use crate::number::{is_finite, is_finite_bits, le, le_bits, within, within_bits, ONE_BITS, ZERO_BITS};
use crate::settings::{
    AppRulePosition, AppRuleSize, AppWorkspaceRule, VirtualWorkspaceSettings, WorkspaceSelector,
    MAX_WORKSPACES,
};
use crate::text::{decimal, push_decimal};
use crate::issues::lemma_contains_in_concat;

verus! {

/// The error message (`Display` of `regex::Error`) that building `pattern` as
/// a case-insensitive regular expression gives, or `None` when it builds.
pub uninterp spec fn title_regex_error(pattern: Seq<char>) -> Option<Seq<char>>;

/// Builds `pattern` with `regex::RegexBuilder`, case-insensitively, and
/// reports its error text. Claimed of the regex crate: the outcome depends on
/// the pattern alone.
#[verifier::external_body]
fn build_title_regex(pattern: &str) -> (r: Option<String>)
    ensures
        match r {
            Some(e) => title_regex_error(pattern@) == Some(e@),
            None => title_regex_error(pattern@) is None,
        },
{
    match regex::RegexBuilder::new(pattern).case_insensitive(true).build() {
        Ok(_) => None,
        Err(error) => Some(error.to_string()),
    }
}

/// The fields of a rule that must not repeat across rules.
#[derive(Clone, Copy, Debug, PartialEq, Eq, Structural)]
pub enum MatchField {
    AppId,
    AppName,
    TitleRegex,
    TitleSubstring,
    AxRole,
    AxSubrole,
}

/// The texts of optional strings.
pub open spec fn opt_view(o: Option<String>) -> Option<Seq<char>> {
    match o {
        Some(s) => Some(s@),
        None => None,
    }
}

/// The regex outcomes handed in, by rule.
pub open spec fn outcome_views(errs: Seq<Option<String>>) -> Seq<Option<Seq<char>>> {
    errs.map_values(|o: Option<String>| opt_view(o))
}

/// The rule names something more specific than its app.
pub open spec fn has_specific_match(r: AppWorkspaceRule) -> bool {
    r.app_name is Some || r.title_regex is Some || r.title_substring is Some || r.ax_role is Some
        || r.ax_subrole is Some
}

/// The rule names nothing to match on.
pub open spec fn matches_nothing(r: AppWorkspaceRule) -> bool {
    (match r.app_id {
        Some(id) => id@.len() == 0,
        None => true,
    }) && r.app_name is None && r.title_regex is None && r.title_substring is None
        && r.ax_role is None && r.ax_subrole is None
}

/// A non-empty optional text, or `None`.
pub open spec fn non_empty(o: Option<String>) -> Option<Seq<char>> {
    match o {
        Some(s) => if s@.len() > 0 { Some(s@) } else { None },
        None => None,
    }
}

/// The value a rule claims for `field`, if that field takes part in the
/// duplicate check: an app id only when it is the rule's sole matcher, a
/// title regex only when it builds, the other fields when non-empty (app
/// names always).
pub open spec fn rule_key(r: AppWorkspaceRule, field: MatchField, regex_error: Option<Seq<char>>) -> Option<Seq<char>> {
    match field {
        MatchField::AppId => if has_specific_match(r) { None } else { non_empty(r.app_id) },
        MatchField::AppName => opt_view(r.app_name),
        MatchField::TitleRegex => if regex_error is None { non_empty(r.title_regex) } else { None },
        MatchField::TitleSubstring => non_empty(r.title_substring),
        MatchField::AxRole => non_empty(r.ax_role),
        MatchField::AxSubrole => non_empty(r.ax_subrole),
    }
}

/// Rule `i` claims a value for `field` that an earlier rule already claimed.
#[verifier::opaque]
pub open spec fn duplicated(
    rules: Seq<AppWorkspaceRule>,
    errs: Seq<Option<Seq<char>>>,
    i: int,
    field: MatchField,
) -> bool {
    &&& rule_key(rules[i], field, errs[i]) is Some
    &&& exists|j: int| 0 <= j < i && #[trigger] rule_key(rules[j], field, errs[j]) == rule_key(rules[i], field, errs[i])
}

/// "App rule {i}{tail}"
pub open spec fn rule_msg(i: nat, tail: Seq<char>) -> Seq<char> {
    with_number("App rule "@, i, tail)
}

/// "Duplicate {field} '{value}' in rule {i}"
pub open spec fn duplicate_msg(field: Seq<char>, value: Seq<char>, i: nat) -> Seq<char> {
    "Duplicate "@ + field + " '"@ + value + "' in rule "@ + decimal(i)
}

/// The position's coordinates are finite and within `[0, 1]`.
pub open spec fn position_in_unit_square(p: AppRulePosition) -> bool {
    is_finite_bits(p.x.bits) && is_finite_bits(p.y.bits) && within_bits(p.x.bits, ZERO_BITS, ONE_BITS)
        && within_bits(p.y.bits, ZERO_BITS, ONE_BITS)
}

/// A given dimension that is not a finite positive number.
pub open spec fn bad_dimension(d: Option<crate::number::ConfigFloat>) -> bool {
    match d {
        Some(v) => !is_finite_bits(v.bits) || le_bits(v.bits, ZERO_BITS),
        None => false,
    }
}

#[verifier::opaque]
pub open spec fn workspace_issues(r: AppWorkspaceRule, i: nat, count: nat) -> Seq<Seq<char>> {
    match r.workspace {
        Some(WorkspaceSelector::Index(idx)) => flag(
            idx >= count,
            with_number(rule_msg(i, " references workspace "@) + decimal(idx as nat) + " but only "@, count,
                " workspaces will be created"@),
        ),
        _ => seq![],
    }
}

#[verifier::opaque]
pub open spec fn position_issues(r: AppWorkspaceRule, i: nat) -> Seq<Seq<char>> {
    match r.position {
        Some(p) => flag(!position_in_unit_square(p), rule_msg(i, " position x and y must be finite values between 0 and 1"@))
            + flag(!r.floating, rule_msg(i, " specifies position, but position only applies when floating = true"@)),
        None => seq![],
    }
}

#[verifier::opaque]
pub open spec fn size_issues(r: AppWorkspaceRule, i: nat) -> Seq<Seq<char>> {
    match r.size {
        Some(sz) => flag(sz.w is None && sz.h is None, rule_msg(i, " size must specify at least one of w or h"@))
            + flag(bad_dimension(sz.w) || bad_dimension(sz.h), rule_msg(i, " size dimensions must be finite positive values"@)),
        None => seq![],
    }
}

#[verifier::opaque]
pub open spec fn app_id_issues(rules: Seq<AppWorkspaceRule>, errs: Seq<Option<Seq<char>>>, i: int) -> Seq<Seq<char>> {
    match rules[i].app_id {
        Some(id) => flag(
            id@.len() > 0 && !id@.contains('.'),
            rule_msg(i as nat, " has suspicious app_id '"@) + id@ + "' (should be bundle identifier like 'com.example.app')"@,
        ) + flag(duplicated(rules, errs, i, MatchField::AppId), duplicate_msg("app_id"@, id@, i as nat)),
        None => seq![],
    }
}

#[verifier::opaque]
pub open spec fn app_name_issues(rules: Seq<AppWorkspaceRule>, errs: Seq<Option<Seq<char>>>, i: int) -> Seq<Seq<char>> {
    match rules[i].app_name {
        Some(name) => flag(duplicated(rules, errs, i, MatchField::AppName), duplicate_msg("app_name"@, name@, i as nat)),
        None => seq![],
    }
}

#[verifier::opaque]
pub open spec fn title_regex_issues(rules: Seq<AppWorkspaceRule>, errs: Seq<Option<Seq<char>>>, i: int) -> Seq<Seq<char>> {
    match rules[i].title_regex {
        Some(re) => if re@.len() == 0 {
            seq![rule_msg(i as nat, " has empty title_regex"@)]
        } else {
            match errs[i] {
                Some(e) => seq![rule_msg(i as nat, " has invalid title_regex '"@) + re@ + "': "@ + e],
                None => flag(duplicated(rules, errs, i, MatchField::TitleRegex), duplicate_msg("title_regex"@, re@, i as nat)),
            }
        },
        None => seq![],
    }
}

#[verifier::opaque]
pub open spec fn manage_issues(r: AppWorkspaceRule, i: nat) -> Seq<Seq<char>> {
    flag(
        r.manage == Some(false) && (r.workspace is Some || r.floating || r.position is Some || r.size is Some || r.focus),
        rule_msg(i, " sets manage = false, so its workspace, floating, position, size, and focus effects are ignored"@),
    )
}

/// The issues of a matcher that must be non-empty and unique: `value` is the
/// matcher, `empty_tail` the message tail for an empty one.
#[verifier::opaque]
pub open spec fn unique_text_issues(
    rules: Seq<AppWorkspaceRule>,
    errs: Seq<Option<Seq<char>>>,
    i: int,
    value: Option<String>,
    field: MatchField,
    field_name: Seq<char>,
    empty_tail: Seq<char>,
) -> Seq<Seq<char>> {
    match value {
        Some(t) => if t@.len() == 0 {
            seq![rule_msg(i as nat, empty_tail)]
        } else {
            flag(duplicated(rules, errs, i, field), duplicate_msg(field_name, t@, i as nat))
        },
        None => seq![],
    }
}

/// The issues of rule `i`, in the order they are reported.
#[verifier::opaque]
pub open spec fn rule_issues(s: VirtualWorkspaceSettings, errs: Seq<Option<Seq<char>>>, i: int) -> Seq<Seq<char>> {
    let rules = s.app_rules@;
    let r = rules[i];
    let n = i as nat;
    flag(matches_nothing(r), rule_msg(n, " has no app_id, app_name, title_regex, or title_substring specified"@))
        + workspace_issues(r, n, s.default_workspace_count as nat)
        + position_issues(r, n)
        + size_issues(r, n)
        + app_id_issues(rules, errs, i)
        + app_name_issues(rules, errs, i)
        + title_regex_issues(rules, errs, i)
        + manage_issues(r, n)
        + unique_text_issues(rules, errs, i, r.title_substring, MatchField::TitleSubstring, "title_substring"@, " has empty title_substring"@)
        + unique_text_issues(rules, errs, i, r.ax_role, MatchField::AxRole, "ax_role"@, " has empty ax_role"@)
        + unique_text_issues(rules, errs, i, r.ax_subrole, MatchField::AxSubrole, "ax_subrole"@, " has empty ax_subrole"@)
}

/// The issues of the first `n` rules.
pub open spec fn rules_issues(s: VirtualWorkspaceSettings, errs: Seq<Option<Seq<char>>>, n: nat) -> Seq<Seq<char>>
    decreases n,
{
    if n == 0 {
        seq![]
    } else {
        rules_issues(s, errs, (n - 1) as nat) + rule_issues(s, errs, n - 1)
    }
}

/// The issues with the workspace counts.
pub open spec fn count_issues(s: VirtualWorkspaceSettings) -> Seq<Seq<char>> {
    let count = s.default_workspace_count;
    flag(count == 0, "default_workspace_count must be at least 1"@)
        + flag(count > MAX_WORKSPACES, with_number("default_workspace_count should not exceed "@, MAX_WORKSPACES as nat, " for performance reasons"@))
        + flag(s.workspace_names@.len() > count, "More workspace names provided than default_workspace_count"@)
        + flag(s.default_workspace >= count,
            with_number("default_workspace ("@, s.default_workspace as nat, ") must be less than default_workspace_count ("@)
                + decimal(count as nat) + ")"@)
}

/// Every issue of the settings, given the outcome of building each rule's
/// title regex.
pub open spec fn workspace_settings_issues(s: VirtualWorkspaceSettings, errs: Seq<Option<Seq<char>>>) -> Seq<Seq<char>> {
    count_issues(s) + rules_issues(s, errs, s.app_rules@.len())
}

/// What building a rule's title regex gives, for a non-empty one.
pub open spec fn regex_outcome(r: AppWorkspaceRule) -> Option<Seq<char>> {
    match r.title_regex {
        Some(re) => if re@.len() > 0 { title_regex_error(re@) } else { None },
        None => None,
    }
}

fn opt_str(o: &Option<String>) -> (r: Option<&String>)
    ensures
        match r {
            Some(s) => o == Some(*s),
            None => o is None,
        },
{
    match o {
        Some(s) => Some(s),
        None => None,
    }
}

fn non_empty_exec(o: &Option<String>) -> (r: Option<&String>)
    ensures
        match r {
            Some(s) => non_empty(*o) == Some(s@),
            None => non_empty(*o) is None,
        },
{
    match o {
        Some(s) => if !s.as_str().is_empty() { Some(s) } else { None },
        None => None,
    }
}

fn rule_key_exec<'a>(r: &'a AppWorkspaceRule, field: MatchField, err: &Option<String>) -> (k: Option<&'a String>)
    ensures
        match k {
            Some(s) => rule_key(*r, field, opt_view(*err)) == Some(s@),
            None => rule_key(*r, field, opt_view(*err)) is None,
        },
{
    match field {
        MatchField::AppId => {
            let specific = r.app_name.is_some() || r.title_regex.is_some() || r.title_substring.is_some()
                || r.ax_role.is_some() || r.ax_subrole.is_some();
            if specific { None } else { non_empty_exec(&r.app_id) }
        },
        MatchField::AppName => match &r.app_name {
            Some(s) => Some(s),
            None => None,
        },
        MatchField::TitleRegex => if err.is_none() { non_empty_exec(&r.title_regex) } else { None },
        MatchField::TitleSubstring => non_empty_exec(&r.title_substring),
        MatchField::AxRole => non_empty_exec(&r.ax_role),
        MatchField::AxSubrole => non_empty_exec(&r.ax_subrole),
    }
}

fn duplicated_exec(rules: &Vec<AppWorkspaceRule>, errs: &Vec<Option<String>>, i: usize, field: MatchField) -> (d: bool)
    requires
        i < rules@.len(),
        rules@.len() == errs@.len(),
    ensures
        d == duplicated(rules@, outcome_views(errs@), i as int, field),
{
    proof { reveal(duplicated); }
    let ghost ev = outcome_views(errs@);
    assert(ev[i as int] == opt_view(errs@[i as int]));
    let key = rule_key_exec(&rules[i], field, &errs[i]);
    match key {
        None => false,
        Some(k) => {
            for j in 0..i
                invariant
                    i < rules@.len(),
                    rules@.len() == errs@.len(),
                    ev == outcome_views(errs@),
                    rule_key(rules@[i as int], field, ev[i as int]) == Some(k@),
                    forall|m: int| 0 <= m < j ==> #[trigger] rule_key(rules@[m], field, ev[m]) != Some(k@),
            {
                assert(ev[j as int] == opt_view(errs@[j as int]));
                let kj = rule_key_exec(&rules[j], field, &errs[j]);
                match kj {
                    Some(x) => {
                        if *x == *k {
                            assert(rule_key(rules@[j as int], field, ev[j as int]) == rule_key(rules@[i as int], field, ev[i as int]));
                            proof { reveal(duplicated); }
                            return true;
                        }
                    },
                    None => {},
                }
            }
            false
        },
    }
}

fn rule_message(i: usize, tail: &str) -> (m: String)
    ensures
        m@ == rule_msg(i as nat, tail@),
{
    number_message("App rule ", i, tail)
}

fn duplicate_message(field: &str, value: &String, i: usize) -> (m: String)
    ensures
        m@ == duplicate_msg(field@, value@, i as nat),
{
    let mut m = String::from_str("Duplicate ");
    m.append(field);
    m.append(" '");
    m.append(value.as_str());
    m.append("' in rule ");
    push_decimal(&mut m, i);
    m
}

fn push_flag(issues: &mut Vec<String>, c: bool, m: String)
    ensures
        views(final(issues)@) == views(old(issues)@) + flag(c, m@),
{
    if c {
        push_issue(issues, m);
    } else {
        assert(views(old(issues)@) + flag(c, m@) =~= views(old(issues)@));
    }
}

fn position_ok(p: &AppRulePosition) -> (b: bool)
    ensures
        b == position_in_unit_square(*p),
{
    is_finite(p.x.bits) && is_finite(p.y.bits) && within(p.x.bits, ZERO_BITS, ONE_BITS)
        && within(p.y.bits, ZERO_BITS, ONE_BITS)
}

fn bad_dimension_exec(d: &Option<crate::number::ConfigFloat>) -> (b: bool)
    ensures
        b == bad_dimension(*d),
{
    match d {
        Some(v) => !is_finite(v.bits) || le(v.bits, ZERO_BITS),
        None => false,
    }
}

fn workspace_issues_exec(r: &AppWorkspaceRule, i: usize, count: usize) -> (v: Vec<String>)
    ensures
        views(v@) == workspace_issues(*r, i as nat, count as nat),
{
    proof { reveal(workspace_issues); }
    let mut v: Vec<String> = Vec::new();
    match &r.workspace {
        Some(WorkspaceSelector::Index(idx)) => {
            let mut m = rule_message(i, " references workspace ");
            push_decimal(&mut m, *idx);
            m.append(" but only ");
            push_decimal(&mut m, count);
            m.append(" workspaces will be created");
            push_flag(&mut v, *idx >= count, m);
        },
        _ => {},
    }
    assert(views(v@) =~= workspace_issues(*r, i as nat, count as nat));
    v
}

fn position_and_size_issues(r: &AppWorkspaceRule, i: usize) -> (v: Vec<String>)
    ensures
        views(v@) == position_issues(*r, i as nat) + size_issues(*r, i as nat),
{
    proof { reveal(position_issues); reveal(size_issues); }
    let mut v: Vec<String> = Vec::new();
    match &r.position {
        Some(p) => {
            push_flag(&mut v, !position_ok(p), rule_message(i, " position x and y must be finite values between 0 and 1"));
            push_flag(&mut v, !r.floating, rule_message(i, " specifies position, but position only applies when floating = true"));
        },
        None => {},
    }
    let ghost after_position = views(v@);
    assert(after_position =~= position_issues(*r, i as nat));
    match &r.size {
        Some(sz) => {
            push_flag(&mut v, sz.w.is_none() && sz.h.is_none(), rule_message(i, " size must specify at least one of w or h"));
            push_flag(&mut v, bad_dimension_exec(&sz.w) || bad_dimension_exec(&sz.h), rule_message(i, " size dimensions must be finite positive values"));
        },
        None => {},
    }
    assert(views(v@) =~= position_issues(*r, i as nat) + size_issues(*r, i as nat));
    v
}

fn has_dot(s: &String) -> (b: bool)
    ensures
        b == s@.contains('.'),
{
    let cs = crate::text::chars_of(s.as_str());
    let n = cs.len();
    for k in 0..n
        invariant
            n == cs@.len(),
            cs@ == s@,
            forall|m: int| 0 <= m < k ==> cs@[m] != '.',
    {
        if cs[k] == '.' {
            return true;
        }
    }
    false
}

fn id_and_name_issues(rules: &Vec<AppWorkspaceRule>, errs: &Vec<Option<String>>, i: usize) -> (v: Vec<String>)
    requires
        i < rules@.len(),
        rules@.len() == errs@.len(),
    ensures
        views(v@) == app_id_issues(rules@, outcome_views(errs@), i as int)
            + app_name_issues(rules@, outcome_views(errs@), i as int)
            + title_regex_issues(rules@, outcome_views(errs@), i as int),
{
    proof { reveal(app_id_issues); reveal(app_name_issues); reveal(title_regex_issues); }
    let ghost ev = outcome_views(errs@);
    let r = &rules[i];
    let mut v: Vec<String> = Vec::new();
    match &r.app_id {
        Some(id) => {
            let mut m = rule_message(i, " has suspicious app_id '");
            m.append(id.as_str());
            m.append("' (should be bundle identifier like 'com.example.app')");
            push_flag(&mut v, !id.as_str().is_empty() && !has_dot(id), m);
            push_flag(&mut v, duplicated_exec(rules, errs, i, MatchField::AppId), duplicate_message("app_id", id, i));
        },
        None => {},
    }
    let ghost a = views(v@);
    assert(a =~= app_id_issues(rules@, ev, i as int));
    match &r.app_name {
        Some(name) => {
            push_flag(&mut v, duplicated_exec(rules, errs, i, MatchField::AppName), duplicate_message("app_name", name, i));
        },
        None => {},
    }
    let ghost b = views(v@);
    assert(b =~= a + app_name_issues(rules@, ev, i as int));
    match &r.title_regex {
        Some(re) => {
            if re.as_str().is_empty() {
                push_issue(&mut v, rule_message(i, " has empty title_regex"));
            } else {
                assert(ev[i as int] == opt_view(errs@[i as int]));
                match &errs[i] {
                    Some(e) => {
                        let mut m = rule_message(i, " has invalid title_regex '");
                        m.append(re.as_str());
                        m.append("': ");
                        m.append(e.as_str());
                        push_issue(&mut v, m);
                    },
                    None => {
                        push_flag(&mut v, duplicated_exec(rules, errs, i, MatchField::TitleRegex), duplicate_message("title_regex", re, i));
                    },
                }
            }
        },
        None => {},
    }
    assert(views(v@) =~= b + title_regex_issues(rules@, ev, i as int));
    v
}

fn unique_text_issues_exec(
    rules: &Vec<AppWorkspaceRule>,
    errs: &Vec<Option<String>>,
    i: usize,
    value: &Option<String>,
    field: MatchField,
    field_name: &str,
    empty_tail: &str,
) -> (v: Vec<String>)
    requires
        i < rules@.len(),
        rules@.len() == errs@.len(),
    ensures
        views(v@) == unique_text_issues(rules@, outcome_views(errs@), i as int, *value, field, field_name@, empty_tail@),
{
    proof { reveal(unique_text_issues); }
    let mut v: Vec<String> = Vec::new();
    match value {
        Some(t) => {
            if t.as_str().is_empty() {
                push_issue(&mut v, rule_message(i, empty_tail));
            } else {
                push_flag(&mut v, duplicated_exec(rules, errs, i, field), duplicate_message(field_name, t, i));
            }
        },
        None => {},
    }
    assert(views(v@) =~= unique_text_issues(rules@, outcome_views(errs@), i as int, *value, field, field_name@, empty_tail@));
    v
}

fn rule_issues_exec(s: &VirtualWorkspaceSettings, errs: &Vec<Option<String>>, i: usize) -> (v: Vec<String>)
    requires
        i < s.app_rules@.len(),
        s.app_rules@.len() == errs@.len(),
    ensures
        views(v@) == rule_issues(*s, outcome_views(errs@), i as int),
{
    proof { reveal(rule_issues); }
    let ghost ev = outcome_views(errs@);
    let rules = &s.app_rules;
    let r = &rules[i];
    let ghost n = i as nat;
    let mut v: Vec<String> = Vec::new();
    let no_app_id = match &r.app_id {
        Some(id) => id.as_str().is_empty(),
        None => true,
    };
    let nothing = no_app_id && r.app_name.is_none() && r.title_regex.is_none() && r.title_substring.is_none()
        && r.ax_role.is_none() && r.ax_subrole.is_none();
    assert(nothing == matches_nothing(*r));
    push_flag(&mut v, nothing, rule_message(i, " has no app_id, app_name, title_regex, or title_substring specified"));
    let ghost p0 = views(v@);
    append_issues(&mut v, workspace_issues_exec(r, i, s.default_workspace_count));
    append_issues(&mut v, position_and_size_issues(r, i));
    let ghost p1 = views(v@);
    assert(p1 == p0 + workspace_issues(*r, n, s.default_workspace_count as nat) + position_issues(*r, n) + size_issues(*r, n));
    append_issues(&mut v, id_and_name_issues(rules, errs, i));
    let ghost p2 = views(v@);
    assert(p2 == p1 + app_id_issues(rules@, ev, i as int) + app_name_issues(rules@, ev, i as int) + title_regex_issues(rules@, ev, i as int));
    let manage_off = match r.manage {
        Some(m) => !m,
        None => false,
    };
    let ignored = manage_off && (r.workspace.is_some() || r.floating || r.position.is_some() || r.size.is_some() || r.focus);
    proof { reveal(manage_issues); }
    push_flag(&mut v, ignored,
        rule_message(i, " sets manage = false, so its workspace, floating, position, size, and focus effects are ignored"));
    let ghost p3 = views(v@);
    assert(p3 == p2 + manage_issues(*r, n));
    append_issues(&mut v, unique_text_issues_exec(rules, errs, i, &r.title_substring, MatchField::TitleSubstring, "title_substring", " has empty title_substring"));
    append_issues(&mut v, unique_text_issues_exec(rules, errs, i, &r.ax_role, MatchField::AxRole, "ax_role", " has empty ax_role"));
    append_issues(&mut v, unique_text_issues_exec(rules, errs, i, &r.ax_subrole, MatchField::AxSubrole, "ax_subrole", " has empty ax_subrole"));
    v
}

fn count_issues_exec(s: &VirtualWorkspaceSettings) -> (v: Vec<String>)
    ensures
        views(v@) == count_issues(*s),
{
    let count = s.default_workspace_count;
    let mut v: Vec<String> = Vec::new();
    push_flag(&mut v, count == 0, String::from_str("default_workspace_count must be at least 1"));
    push_flag(&mut v, count > MAX_WORKSPACES,
        number_message("default_workspace_count should not exceed ", MAX_WORKSPACES, " for performance reasons"));
    push_flag(&mut v, s.workspace_names.len() > count,
        String::from_str("More workspace names provided than default_workspace_count"));
    let mut m = number_message("default_workspace (", s.default_workspace, ") must be less than default_workspace_count (");
    push_decimal(&mut m, count);
    m.append(")");
    push_flag(&mut v, s.default_workspace >= count, m);
    assert(views(v@) =~= count_issues(*s));
    v
}

impl VirtualWorkspaceSettings {
    /// The problems with these settings, given what building each rule's
    /// title regex gave (`regex_errors[i]` is the error text for rule `i`;
    /// it is read only for a rule with a non-empty `title_regex`).
    pub fn validate_with_regex_results(&self, regex_errors: &Vec<Option<String>>) -> (issues: Vec<String>)
        requires
            regex_errors@.len() == self.app_rules@.len(),
        ensures
            views(issues@) == workspace_settings_issues(*self, outcome_views(regex_errors@)),
    {
        let mut issues = count_issues_exec(self);
        let n = self.app_rules.len();
        let ghost ev = outcome_views(regex_errors@);
        for i in 0..n
            invariant
                n == self.app_rules@.len(),
                regex_errors@.len() == n,
                ev == outcome_views(regex_errors@),
                views(issues@) == count_issues(*self) + rules_issues(*self, ev, i as nat),
        {
            append_issues(&mut issues, rule_issues_exec(self, regex_errors, i));
            assert(views(issues@) =~= count_issues(*self) + rules_issues(*self, ev, (i + 1) as nat));
        }
        issues
    }

    /// The problems with these settings, in the order they are reported.
    pub fn validate(&self) -> (issues: Vec<String>)
        ensures
            views(issues@) == workspace_settings_issues(*self, self.app_rules@.map_values(|r: AppWorkspaceRule| regex_outcome(r))),
    {
        let n = self.app_rules.len();
        let mut errs: Vec<Option<String>> = Vec::new();
        for i in 0..n
            invariant
                n == self.app_rules@.len(),
                errs@.len() == i,
                forall|k: int| 0 <= k < i ==> #[trigger] opt_view(errs@[k]) == regex_outcome(self.app_rules@[k]),
        {
            let outcome = match &self.app_rules[i].title_regex {
                Some(re) => if !re.as_str().is_empty() { build_title_regex(re.as_str()) } else { None },
                None => None,
            };
            errs.push(outcome);
        }
        assert(outcome_views(errs@) =~= self.app_rules@.map_values(|r: AppWorkspaceRule| regex_outcome(r)));
        self.validate_with_regex_results(&errs)
    }
}

/// The issues of every rule up to `n` are among the issues of the first `n`
/// rules.
proof fn lemma_rule_issue_reported(s: VirtualWorkspaceSettings, errs: Seq<Option<Seq<char>>>, n: nat, i: int, x: Seq<char>)
    requires
        0 <= i < n,
        rule_issues(s, errs, i).contains(x),
    ensures
        rules_issues(s, errs, n).contains(x),
    decreases n,
{
    if i == n - 1 {
        lemma_contains_in_concat(rules_issues(s, errs, (n - 1) as nat), rule_issues(s, errs, i), seq![], x);
    } else {
        lemma_rule_issue_reported(s, errs, (n - 1) as nat, i, x);
        lemma_contains_in_concat(seq![], rules_issues(s, errs, (n - 1) as nat), rule_issues(s, errs, n - 1), x);
    }
}

/// An app rule that sends windows to a workspace index at or past the
/// number of workspaces that will be created is reported, naming the rule,
/// the index and that number (whatever the regex outcomes).
pub proof fn law_rule_beyond_workspace_count_reported(s: VirtualWorkspaceSettings, errs: Seq<Option<Seq<char>>>, i: int, idx: usize)
    requires
        0 <= i < s.app_rules@.len(),
        s.app_rules@[i].workspace == Some(WorkspaceSelector::Index(idx)),
        idx >= s.default_workspace_count,
    ensures
        workspace_settings_issues(s, errs).contains(
            "App rule "@ + decimal(i as nat) + " references workspace "@ + decimal(idx as nat) + " but only "@
                + decimal(s.default_workspace_count as nat) + " workspaces will be created"@,
        ),
{
    reveal(workspace_issues);
    reveal(rule_issues);
    let r = s.app_rules@[i];
    let n = i as nat;
    let m = "App rule "@ + decimal(i as nat) + " references workspace "@ + decimal(idx as nat) + " but only "@
        + decimal(s.default_workspace_count as nat) + " workspaces will be created"@;
    let w = workspace_issues(r, n, s.default_workspace_count as nat);
    assert(w[0] == m);
    assert(w.contains(m));
    let rules = s.app_rules@;
    let a = flag(matches_nothing(r), rule_msg(n, " has no app_id, app_name, title_regex, or title_substring specified"@));
    let c = position_issues(r, n)
        + size_issues(r, n)
        + app_id_issues(rules, errs, i)
        + app_name_issues(rules, errs, i)
        + title_regex_issues(rules, errs, i)
        + manage_issues(r, n)
        + unique_text_issues(rules, errs, i, r.title_substring, MatchField::TitleSubstring, "title_substring"@, " has empty title_substring"@)
        + unique_text_issues(rules, errs, i, r.ax_role, MatchField::AxRole, "ax_role"@, " has empty ax_role"@)
        + unique_text_issues(rules, errs, i, r.ax_subrole, MatchField::AxSubrole, "ax_subrole"@, " has empty ax_subrole"@);
    lemma_contains_in_concat(a, w, c, m);
    assert(rule_issues(s, errs, i) =~= a + w + c);
    lemma_rule_issue_reported(s, errs, s.app_rules@.len(), i, m);
    lemma_contains_in_concat(count_issues(s), rules_issues(s, errs, s.app_rules@.len()), seq![], m);
}

/// An issue of one of the parts of rule `i`'s report is reported by
/// validation.
proof fn lemma_rule_part_reported(s: VirtualWorkspaceSettings, errs: Seq<Option<Seq<char>>>, i: int, x: Seq<char>)
    requires
        0 <= i < s.app_rules@.len(),
        workspace_issues(s.app_rules@[i], i as nat, s.default_workspace_count as nat).contains(x)
            || position_issues(s.app_rules@[i], i as nat).contains(x)
            || size_issues(s.app_rules@[i], i as nat).contains(x)
            || manage_issues(s.app_rules@[i], i as nat).contains(x),
    ensures
        workspace_settings_issues(s, errs).contains(x),
{
    reveal(rule_issues);
    let rules = s.app_rules@;
    let r = rules[i];
    let n = i as nat;
    let p1 = flag(matches_nothing(r), rule_msg(n, " has no app_id, app_name, title_regex, or title_substring specified"@));
    let p2 = workspace_issues(r, n, s.default_workspace_count as nat);
    let p3 = position_issues(r, n);
    let p4 = size_issues(r, n);
    let p5 = app_id_issues(rules, errs, i);
    let p6 = app_name_issues(rules, errs, i);
    let p7 = title_regex_issues(rules, errs, i);
    let p8 = manage_issues(r, n);
    let p9 = unique_text_issues(rules, errs, i, r.title_substring, MatchField::TitleSubstring, "title_substring"@, " has empty title_substring"@);
    let p10 = unique_text_issues(rules, errs, i, r.ax_role, MatchField::AxRole, "ax_role"@, " has empty ax_role"@);
    let p11 = unique_text_issues(rules, errs, i, r.ax_subrole, MatchField::AxSubrole, "ax_subrole"@, " has empty ax_subrole"@);
    let q2 = p1 + p2;
    let q3 = q2 + p3;
    let q4 = q3 + p4;
    let q8 = q4 + p5 + p6 + p7 + p8;
    assert(rule_issues(s, errs, i) == q8 + p9 + p10 + p11);
    if p2.contains(x) {
        lemma_contains_in_concat(p1, p2, seq![], x);
    }
    if q2.contains(x) || p3.contains(x) {
        if q2.contains(x) {
            lemma_contains_in_concat(seq![], q2, p3, x);
        } else {
            lemma_contains_in_concat(q2, p3, seq![], x);
        }
    }
    if q3.contains(x) || p4.contains(x) {
        if q3.contains(x) {
            lemma_contains_in_concat(seq![], q3, p4, x);
        } else {
            lemma_contains_in_concat(q3, p4, seq![], x);
        }
    }
    if q4.contains(x) {
        lemma_contains_in_concat(seq![], q4, p5, x);
        lemma_contains_in_concat(seq![], q4 + p5, p6, x);
        lemma_contains_in_concat(seq![], q4 + p5 + p6, p7, x);
        lemma_contains_in_concat(seq![], q4 + p5 + p6 + p7, p8, x);
    }
    if p8.contains(x) {
        lemma_contains_in_concat(q4 + p5 + p6 + p7, p8, seq![], x);
    }
    assert(q8.contains(x));
    lemma_contains_in_concat(seq![], q8, p9, x);
    lemma_contains_in_concat(seq![], q8 + p9, p10, x);
    lemma_contains_in_concat(seq![], q8 + p9 + p10, p11, x);
    lemma_rule_issue_reported(s, errs, s.app_rules@.len(), i, x);
    lemma_contains_in_concat(count_issues(s), rules_issues(s, errs, s.app_rules@.len()), seq![], x);
}

/// A rule that turns management off but still asks for a workspace,
/// floating, a position, a size or focus is reported as having those
/// effects ignored.
pub proof fn law_unmanaged_rule_effects_reported(s: VirtualWorkspaceSettings, errs: Seq<Option<Seq<char>>>, i: int)
    requires
        0 <= i < s.app_rules@.len(),
        s.app_rules@[i].manage == Some(false),
        s.app_rules@[i].workspace is Some || s.app_rules@[i].floating || s.app_rules@[i].position is Some
            || s.app_rules@[i].size is Some || s.app_rules@[i].focus,
    ensures
        workspace_settings_issues(s, errs).contains("App rule "@ + decimal(i as nat)
            + " sets manage = false, so its workspace, floating, position, size, and focus effects are ignored"@),
{
    reveal(manage_issues);
    let m = "App rule "@ + decimal(i as nat)
        + " sets manage = false, so its workspace, floating, position, size, and focus effects are ignored"@;
    assert(manage_issues(s.app_rules@[i], i as nat)[0] == m);
    lemma_rule_part_reported(s, errs, i, m);
}

/// A position is reported when a coordinate is not a finite number within
/// `[0, 1]`, and when the rule does not float the window.
pub proof fn law_bad_position_reported(s: VirtualWorkspaceSettings, errs: Seq<Option<Seq<char>>>, i: int, p: AppRulePosition)
    requires
        0 <= i < s.app_rules@.len(),
        s.app_rules@[i].position == Some(p),
    ensures
        !(is_finite_bits(p.x.bits) && is_finite_bits(p.y.bits) && le_bits(ZERO_BITS, p.x.bits) && le_bits(p.x.bits, ONE_BITS)
            && le_bits(ZERO_BITS, p.y.bits) && le_bits(p.y.bits, ONE_BITS))
            ==> workspace_settings_issues(s, errs).contains("App rule "@ + decimal(i as nat)
            + " position x and y must be finite values between 0 and 1"@),
        !s.app_rules@[i].floating ==> workspace_settings_issues(s, errs).contains("App rule "@ + decimal(i as nat)
            + " specifies position, but position only applies when floating = true"@),
{
    reveal(position_issues);
    let r = s.app_rules@[i];
    let n = i as nat;
    let m1 = "App rule "@ + decimal(i as nat) + " position x and y must be finite values between 0 and 1"@;
    let m2 = "App rule "@ + decimal(i as nat) + " specifies position, but position only applies when floating = true"@;
    let f1 = flag(!position_in_unit_square(p), m1);
    let f2 = flag(!r.floating, m2);
    assert(position_issues(r, n) == f1 + f2);
    if f1.len() > 0 {
        assert(f1[0] == m1);
        lemma_contains_in_concat(seq![], f1, f2, m1);
        lemma_rule_part_reported(s, errs, i, m1);
    }
    if f2.len() > 0 {
        assert(f2[0] == m2);
        lemma_contains_in_concat(f1, f2, seq![], m2);
        lemma_rule_part_reported(s, errs, i, m2);
    }
}

/// A size is reported when it gives neither dimension, and when a given
/// dimension is not a finite positive number.
pub proof fn law_bad_size_reported(s: VirtualWorkspaceSettings, errs: Seq<Option<Seq<char>>>, i: int, sz: AppRuleSize)
    requires
        0 <= i < s.app_rules@.len(),
        s.app_rules@[i].size == Some(sz),
    ensures
        sz.w is None && sz.h is None ==> workspace_settings_issues(s, errs).contains("App rule "@ + decimal(i as nat)
            + " size must specify at least one of w or h"@),
        (sz.w matches Some(w) && (!is_finite_bits(w.bits) || le_bits(w.bits, ZERO_BITS)))
            || (sz.h matches Some(h) && (!is_finite_bits(h.bits) || le_bits(h.bits, ZERO_BITS)))
            ==> workspace_settings_issues(s, errs).contains("App rule "@ + decimal(i as nat)
            + " size dimensions must be finite positive values"@),
{
    reveal(size_issues);
    let r = s.app_rules@[i];
    let n = i as nat;
    let m1 = "App rule "@ + decimal(i as nat) + " size must specify at least one of w or h"@;
    let m2 = "App rule "@ + decimal(i as nat) + " size dimensions must be finite positive values"@;
    let f1 = flag(sz.w is None && sz.h is None, m1);
    let f2 = flag(bad_dimension(sz.w) || bad_dimension(sz.h), m2);
    assert(size_issues(r, n) == f1 + f2);
    if f1.len() > 0 {
        assert(f1[0] == m1);
        lemma_contains_in_concat(seq![], f1, f2, m1);
        lemma_rule_part_reported(s, errs, i, m1);
    }
    if f2.len() > 0 {
        assert(f2[0] == m2);
        lemma_contains_in_concat(f1, f2, seq![], m2);
        lemma_rule_part_reported(s, errs, i, m2);
    }
}

} // verus!
