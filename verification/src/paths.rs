//! Where rift keeps its files.
use vstd::prelude::*;
use vstd::string::*;
use crate::text::push_char;
use crate::settings::MenuBarSettings;

verus! {

/// `base` with the relative path `part` appended (`PathBuf::push`): a `/`
/// goes between them unless `base` is empty or already ends with one.
pub open spec fn path_join(base: Seq<char>, part: Seq<char>) -> Seq<char> {
    if base.len() == 0 || base.last() == '/' {
        base + part
    } else {
        base.push('/') + part
    }
}

/// The home directory as the `dirs` crate finds it (the `HOME` variable, or
/// the user database), as text. It depends on the environment, so nothing is
/// claimed of it.
#[verifier::external_body]
fn home_dir_text() -> Option<String> {
    dirs::home_dir().map(|p| p.to_string_lossy().into_owned())
}

/// The home directory `found`, or `/tmp` when none was found.
pub fn home_or_tmp(found: Option<String>) -> (r: String)
    ensures
        r@ == match found {
            Some(h) => h@,
            None => "/tmp"@,
        },
{
    match found {
        Some(h) => h,
        None => String::from_str("/tmp"),
    }
}

/// The home directory, or `/tmp` when none is known. Which one depends on
/// the environment; `home_or_tmp` states the choice for each outcome.
fn home_dir() -> String {
    home_or_tmp(home_dir_text())
}

/// `base` joined with the relative path `part`.
pub fn join_path(base: &str, part: &str) -> (r: String)
    requires
        part@.len() == 0 || part@[0] != '/',
    ensures
        r@ == path_join(base@, part@),
{
    let mut r = String::from_str(base);
    let cs = crate::text::chars_of(base);
    if cs.len() > 0 && cs[cs.len() - 1] != '/' {
        push_char(&mut r, '/');
    }
    r.append(part);
    r
}

/// Rift's data directory under the home directory `home`.
pub fn data_dir_in(home: &str) -> (r: String)
    ensures
        r@ == path_join(home@, ".rift"@),
{
    proof { reveal_strlit(".rift"); }
    join_path(home, ".rift")
}

/// The saved-layout file under the home directory `home`.
pub fn restore_file_in(home: &str) -> (r: String)
    ensures
        r@ == path_join(path_join(home@, ".rift"@), "layout.ron"@),
{
    proof { reveal_strlit("layout.ron"); }
    let d = data_dir_in(home);
    join_path(d.as_str(), "layout.ron")
}

/// The configuration file under the home directory `home`.
pub fn config_file_in(home: &str) -> (r: String)
    ensures
        r@ == path_join(path_join(path_join(home@, ".config"@), "rift"@), "config.toml"@),
{
    proof {
        reveal_strlit(".config");
        reveal_strlit("rift");
        reveal_strlit("config.toml");
    }
    let a = join_path(home, ".config");
    let b = join_path(a.as_str(), "rift");
    join_path(b.as_str(), "config.toml")
}

/// Rift's data directory: `.rift` under the home directory.
pub fn data_dir() -> (r: String)
    ensures
        exists|home: Seq<char>| r@ == path_join(home, ".rift"@),
{
    let h = home_dir();
    data_dir_in(h.as_str())
}

/// The saved-layout file: `.rift/layout.ron` under the home directory.
pub fn restore_file() -> (r: String)
    ensures
        exists|home: Seq<char>| r@ == path_join(path_join(home, ".rift"@), "layout.ron"@),
{
    let h = home_dir();
    restore_file_in(h.as_str())
}

/// The configuration file: `.config/rift/config.toml` under the home
/// directory.
pub fn config_file() -> (r: String)
    ensures
        exists|home: Seq<char>| r@ == path_join(path_join(path_join(home, ".config"@), "rift"@), "config.toml"@),
{
    let h = home_dir();
    config_file_in(h.as_str())
}

/// Whether the first component of the path `p` is `~`.
pub open spec fn starts_with_tilde(p: Seq<char>) -> bool {
    p.len() > 0 && p[0] == '~' && (p.len() == 1 || p[1] == '/')
}

/// The path that `Path::strip_prefix("~")` leaves of `p`: the path that,
/// joined onto `~`, gives back `p` (as std documents), with its separators
/// normalised as std's path components do.
pub uninterp spec fn path_after_tilde(p: Seq<char>) -> Seq<char>;

/// `s` is a plain relative path: not empty, no leading, trailing or doubled
/// separator, and no `.` component.
pub open spec fn clean_relative(s: Seq<char>) -> bool {
    &&& s.len() > 0
    &&& s[0] != '/' && s.last() != '/'
    &&& forall|i: int| 0 <= i < s.len() - 1 ==> !(s[i] == '/' && #[trigger] s[i + 1] == '/')
    &&& forall|i: int| 0 <= i < s.len() && #[trigger] s[i] == '.' ==> !((i == 0 || s[i - 1] == '/')
        && (i == s.len() - 1 || s[i + 1] == '/'))
}

/// `p` is `~/` followed by a plain relative path.
pub open spec fn tilde_then_clean(p: Seq<char>) -> bool {
    p.len() > 2 && p[0] == '~' && p[1] == '/' && clean_relative(p.skip(2))
}

/// The default layout folder, `~/.config/rift/layouts`, is `~/` followed
/// by a plain relative path, so it resolves to the home directory joined
/// with `.config/rift/layouts`.
pub proof fn law_default_layout_folder_is_plain()
    ensures
        tilde_then_clean("~/.config/rift/layouts"@),
        "~/.config/rift/layouts"@.skip(2) == ".config/rift/layouts"@,
{
    reveal_strlit("~/.config/rift/layouts");
    reveal_strlit(".config/rift/layouts");
    let p = "~/.config/rift/layouts"@;
    let s = p.skip(2);
    assert(s =~= ".config/rift/layouts"@);
    let t = ".config/rift/layouts"@;
    assert(t[0] == '.' && t[1] == 'c' && t[2] == 'o' && t[3] == 'n' && t[4] == 'f' && t[5] == 'i' && t[6] == 'g');
    assert(t[7] == '/' && t[8] == 'r' && t[9] == 'i' && t[10] == 'f' && t[11] == 't' && t[12] == '/');
    assert(t[13] == 'l' && t[14] == 'a' && t[15] == 'y' && t[16] == 'o' && t[17] == 'u' && t[18] == 't');
    assert(t[19] == 's' && t.len() == 20);
    assert(clean_relative(s));
}

/// `Path::strip_prefix("~")`: the rest of `folder` after a leading `~`
/// component. `Path::starts_with` matches whole components only, so there is
/// a rest exactly when the first component is `~`; the rest depends on
/// `folder` alone. How it normalises separators is not written out here; the
/// rest is named `path_after_tilde`. For `~/` followed by a plain relative
/// path (repeated separators and `.` components are what path components
/// normalise away), the rest is that path as written.
#[verifier::external_body]
fn strip_tilde(folder: &str) -> (r: Option<String>)
    ensures
        r is Some <==> starts_with_tilde(folder@),
        r matches Some(x) ==> x@ == path_after_tilde(folder@),
        tilde_then_clean(folder@) ==> r is Some && r->0@ == folder@.skip(2),
{
    std::path::Path::new(folder).strip_prefix("~").ok().map(|p| p.to_string_lossy().into_owned())
}

impl MenuBarSettings {
    /// `layout_folder` with a leading `~` replaced by the home directory
    /// `home`; unchanged when it has no `~` component or no home is known.
    pub fn resolved_layout_folder_in(&self, home: Option<&str>) -> (r: String)
        ensures
            !starts_with_tilde(self.layout_folder@) ==> r@ == self.layout_folder@,
            home is None ==> r@ == self.layout_folder@,
            starts_with_tilde(self.layout_folder@) && home is Some
                ==> r@ == path_join(home.unwrap()@, path_after_tilde(self.layout_folder@)),
            tilde_then_clean(self.layout_folder@) && home is Some
                ==> r@ == path_join(home.unwrap()@, self.layout_folder@.skip(2)),
    {
        match strip_tilde(self.layout_folder.as_str()) {
            None => self.layout_folder.clone(),
            Some(rest) => match home {
                Some(h) => {
                    let mut r = String::from_str(h);
                    let cs = crate::text::chars_of(h);
                    if cs.len() > 0 && cs[cs.len() - 1] != '/' {
                        push_char(&mut r, '/');
                    }
                    r.append(rest.as_str());
                    assert(r@ == path_join(h@, rest@));
                    r
                },
                None => self.layout_folder.clone(),
            },
        }
    }

    /// `layout_folder` with a leading `~` replaced by the home directory.
    pub fn resolved_layout_folder(&self) -> (r: String)
        ensures
            !starts_with_tilde(self.layout_folder@) ==> r@ == self.layout_folder@,
            starts_with_tilde(self.layout_folder@) ==> r@ == self.layout_folder@
                || exists|home: Seq<char>| r@ == path_join(home, path_after_tilde(self.layout_folder@)),
            tilde_then_clean(self.layout_folder@) ==> r@ == self.layout_folder@
                || exists|home: Seq<char>| r@ == path_join(home, self.layout_folder@.skip(2)),
    {
        match home_dir_text() {
            Some(h) => self.resolved_layout_folder_in(Some(h.as_str())),
            None => self.resolved_layout_folder_in(None),
        }
    }
}

} // verus!
