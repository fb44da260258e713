//! Where an installation puts the program and its manual page.

use crate::text::{chars_of, same_text};
use vstd::prelude::*;

verus! {

/// The path that `Path::join` makes of `base` and `tail`, as text.
pub uninterp spec fn joined_path(base: Seq<char>, tail: Seq<char>) -> Seq<char>;

/// Whether `Path::starts_with` finds the path `base` at the head of `path`.
pub uninterp spec fn path_begins(path: Seq<char>, base: Seq<char>) -> bool;

/// The final component of `path` as `Path::file_name` gives it, as text.
pub uninterp spec fn last_component(path: Seq<char>) -> Option<Seq<char>>;

/// The path without its final component as `Path::parent` gives it, as text.
pub uninterp spec fn parent_path(path: Seq<char>) -> Option<Seq<char>>;

/// `Path::join` on paths given as text: the result is the platform's join of
/// the two arguments, and depends on them alone.
#[verifier::external_body]
fn join_path(base: &str, tail: &str) -> (r: String)
    ensures
        r@ == joined_path(base@, tail@),
{
    std::path::Path::new(base).join(tail).to_string_lossy().into_owned()
}

/// `Path::starts_with` on paths given as text: the answer depends on the two
/// arguments alone.
#[verifier::external_body]
fn path_starts_with(path: &str, base: &str) -> (r: bool)
    ensures
        r == path_begins(path@, base@),
{
    std::path::Path::new(path).starts_with(base)
}

/// `Path::file_name` on a path given as text: the final component, where
/// the path has one, depending on the argument alone.
#[verifier::external_body]
fn file_name_of(path: &str) -> (r: Option<String>)
    ensures
        r is Some <==> last_component(path@) is Some,
        r matches Some(name) ==> last_component(path@) == Some(name@),
{
    match std::path::Path::new(path).file_name() {
        Some(name) => Some(name.to_string_lossy().into_owned()),
        None => None,
    }
}

/// `Path::parent` on a path given as text: the path without its final
/// component, where there is one, depending on the argument alone.
#[verifier::external_body]
fn parent_of(path: &str) -> (r: Option<String>)
    ensures
        r is Some <==> parent_path(path@) is Some,
        r matches Some(parent) ==> parent_path(path@) == Some(parent@),
{
    match std::path::Path::new(path).parent() {
        Some(parent) => Some(parent.to_string_lossy().into_owned()),
        None => None,
    }
}

/// The directories of one installation.
#[derive(Debug, PartialEq, Eq)]
pub struct Config {
    /// Where the program goes.
    pub install_dir: String,
    /// Where the manual page goes.
    pub man_dir: String,
    /// Where the project's sources are.
    pub project_dir: String,
}

/// The project directory as seen from `current`: its parent when `current`
/// is the project's `scripts` directory, `current` itself otherwise.
pub open spec fn project_dir_for(current: Seq<char>) -> Seq<char> {
    if last_component(current) == Some("scripts"@) {
        match parent_path(current) {
            Some(parent) => parent,
            None => current,
        }
    } else {
        current
    }
}

/// The text of `chosen`, or `fallback` where nothing was chosen.
pub open spec fn chosen_or(chosen: Option<String>, fallback: Seq<char>) -> Seq<char> {
    match chosen {
        Some(text) => text@,
        None => fallback,
    }
}

/// Whether a file mode lets anybody execute the file.
pub open spec fn mode_is_executable(mode: u32) -> bool {
    mode & 0o111 != 0
}

/// Tests whether a file mode lets anybody execute the file.
pub fn is_executable_mode(mode: u32) -> (r: bool)
    ensures
        r == mode_is_executable(mode),
{
    mode & 0o111 != 0
}

impl Config {
    /// The configuration that the surroundings ask for: the project
    /// directory as seen from the current directory, and the two target
    /// directories as chosen, or `/usr/local/bin` and
    /// `/usr/local/share/man/man1` where nothing was chosen.
    pub fn new(current_dir: &str, install_dir: Option<String>, man_dir: Option<String>) -> (r:
        Config)
        ensures
            r.project_dir@ == project_dir_for(current_dir@),
            r.install_dir@ == chosen_or(install_dir, "/usr/local/bin"@),
            r.man_dir@ == chosen_or(man_dir, "/usr/local/share/man/man1"@),
    {
        let in_scripts = match file_name_of(current_dir) {
            Some(name) => same_text(&chars_of(name.as_str()), &chars_of("scripts")),
            None => false,
        };
        let project_dir = if in_scripts {
            match parent_of(current_dir) {
                Some(parent) => parent,
                None => current_dir.to_owned(),
            }
        } else {
            current_dir.to_owned()
        };
        let install_dir = match install_dir {
            Some(chosen) => chosen,
            None => "/usr/local/bin".to_owned(),
        };
        let man_dir = match man_dir {
            Some(chosen) => chosen,
            None => "/usr/local/share/man/man1".to_owned(),
        };
        Config { install_dir, man_dir, project_dir }
    }

    /// Moves the installation under `prefix`: programs to its `bin`, manual
    /// pages to its `share/man/man1`. The project directory stays.
    pub fn set_prefix(&mut self, prefix: &str)
        ensures
            final(self).install_dir@ == joined_path(prefix@, "bin"@),
            final(self).man_dir@ == joined_path(prefix@, "share/man/man1"@),
            final(self).project_dir == old(self).project_dir,
    {
        self.install_dir = join_path(prefix, "bin");
        self.man_dir = join_path(prefix, "share/man/man1");
    }

    /// Moves the installation into the user's own tree under `home`:
    /// programs to `.local/bin`, manual pages to `.local/share/man/man1`.
    /// The project directory stays.
    pub fn set_user_install(&mut self, home: &str)
        ensures
            final(self).install_dir@ == joined_path(home@, ".local/bin"@),
            final(self).man_dir@ == joined_path(home@, ".local/share/man/man1"@),
            final(self).project_dir == old(self).project_dir,
    {
        self.install_dir = join_path(home, ".local/bin");
        self.man_dir = join_path(home, ".local/share/man/man1");
    }

    /// Whether the installation has to move into the user's own tree: the
    /// program would go under `/usr`, and the user `effective_uid` is not root.
    pub fn needs_user_install(&self, effective_uid: u32) -> (r: bool)
        ensures
            r == (path_begins(self.install_dir@, "/usr"@) && effective_uid != 0),
    {
        path_starts_with(self.install_dir.as_str(), "/usr") && effective_uid != 0
    }
}

} // verus!
