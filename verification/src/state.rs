//! The snapshot of an update check, and where it is kept.

use crate::json::{empty_object, is_null, null_value, object_keys};
use vstd::prelude::*;
use vstd::string::*;

verus! {

/// A scalar of the producer, kept as a type tag and the value's text. Neither
/// part is interpreted here.
#[derive(Debug)]
pub struct PyType {
    pub py_type: String,
    pub value: String,
}

/// What the last update check found.
#[derive(Debug)]
pub struct State {
    pub last_update: PyType,
    pub criteria_settings: serde_json::Value,
    pub thresholds: serde_json::Value,
    pub available_updates: Vec<String>,
    pub matched_criteria: serde_json::Value,
    pub state: PyType,
}

impl PyType {
    /// The tag and the value as plain text.
    pub open spec fn pair(&self) -> (Seq<char>, Seq<char>) {
        (self.py_type@, self.value@)
    }
}

impl State {
    /// The snapshot that stands for "nothing known": the code `UNKNOWN`, no
    /// tags, no updates, no matched criteria, and `null` for the settings and
    /// thresholds.
    pub open spec fn is_default(&self) -> bool {
        &&& self.last_update.pair() == (Seq::<char>::empty(), Seq::<char>::empty())
        &&& is_null(self.criteria_settings)
        &&& is_null(self.thresholds)
        &&& self.available_updates@.len() == 0
        &&& object_keys(self.matched_criteria) == Some(Seq::<Seq<char>>::empty())
        &&& self.state.pair() == (Seq::<char>::empty(), "UNKNOWN"@)
    }
}

/// The snapshot used when none was stored.
pub fn default_state() -> (s: State)
    ensures
        s.is_default(),
{
    State {
        last_update: PyType { py_type: String::new(), value: String::new() },
        criteria_settings: null_value(),
        thresholds: null_value(),
        available_updates: Vec::new(),
        matched_criteria: empty_object(),
        state: PyType { py_type: String::new(), value: String::from_str("UNKNOWN") },
    }
}

/// What the loader hands on: the stored snapshot if one could be read, else
/// the default.
pub fn state_or_default(stored: Option<State>) -> (s: State)
    ensures
        stored matches Some(t) ==> s == t,
        stored is None ==> s.is_default(),
{
    match stored {
        Some(t) => t,
        None => default_state(),
    }
}

/// The directory in which the snapshot is kept when no state directory is
/// configured and no home directory is known: a relative path.
pub open spec fn fallback_dir() -> Seq<char> {
    ".local/state/siun"@
}

/// The directory of the snapshot: the configured state directory if there is
/// one, else the fallback below the home directory. Where the home directory
/// is missing or empty, the fallback stands alone and the path is relative.
pub open spec fn state_dir_of(state_home: Option<Seq<char>>, home: Option<Seq<char>>) -> Seq<char> {
    match state_home {
        Some(dir) => dir,
        None => match home {
            Some(h) => if h.len() == 0 {
                fallback_dir()
            } else {
                h + "/.local/state/siun"@
            },
            None => fallback_dir(),
        },
    }
}

/// Computes the directory of the snapshot from the two settings of the
/// environment, each absent or given. Nothing is created or read.
pub fn state_dir(state_home: Option<String>, home: Option<String>) -> (dir: String)
    ensures
        dir@ == state_dir_of(
            match state_home { Some(s) => Some(s@), None => None },
            match home { Some(h) => Some(h@), None => None },
        ),
{
    match state_home {
        Some(dir) => dir,
        None => match home {
            Some(h) => {
                if h.as_str().unicode_len() == 0 {
                    String::from_str(".local/state/siun")
                } else {
                    h.concat("/.local/state/siun")
                }
            },
            None => String::from_str(".local/state/siun"),
        },
    }
}

/// A file's path inside a directory: the two with one separator between
/// them, unless the directory is empty or ends in a separator already.
pub open spec fn file_in(dir: Seq<char>, name: Seq<char>) -> Seq<char> {
    if dir.len() == 0 || dir.last() == '/' {
        dir + name
    } else {
        dir + seq!['/'] + name
    }
}

/// The path of the snapshot's file for the two settings of the environment.
pub open spec fn state_file_of(state_home: Option<Seq<char>>, home: Option<Seq<char>>) -> Seq<
    char,
> {
    file_in(state_dir_of(state_home, home), "state.json"@)
}

/// The name of the snapshot's file inside its directory.
pub fn state_file_name() -> (name: &'static str)
    ensures
        name@ == "state.json"@,
{
    "state.json"
}

/// Computes the path of the snapshot's file. Nothing is created or read.
pub fn state_file_path(state_home: Option<String>, home: Option<String>) -> (path: String)
    ensures
        path@ == state_file_of(
            match state_home { Some(s) => Some(s@), None => None },
            match home { Some(h) => Some(h@), None => None },
        ),
{
    let mut path = state_dir(state_home, home);
    let n = path.as_str().unicode_len();
    if n > 0 && path.as_str().get_char(n - 1) != '/' {
        path.append("/");
        proof {
            reveal_strlit("/");
            assert("/"@ =~= seq!['/']);
        }
    }
    path.append(state_file_name());
    path
}

/// Without a configured state directory and without a home directory, unset
/// or empty, the snapshot is looked for below the working directory: neither
/// the directory nor the file's path begins with a separator.
pub proof fn lemma_missing_home_gives_relative_path(home: Option<Seq<char>>)
    requires
        home matches Some(h) ==> h.len() == 0,
    ensures
        state_dir_of(None, home) == ".local/state/siun"@,
        state_file_of(None, home) == ".local/state/siun/state.json"@,
        state_dir_of(None, home).first() != '/',
        state_file_of(None, home).first() != '/',
{
    reveal_strlit(".local/state/siun");
    reveal_strlit("state.json");
    reveal_strlit(".local/state/siun/state.json");
    assert(state_file_of(None, home) =~= ".local/state/siun/state.json"@);
}

/// With a home directory and no configured state directory, the snapshot's
/// directory is the fallback below the home directory.
pub proof fn lemma_home_gives_path_below_home(home: Seq<char>)
    requires
        home.len() > 0,
    ensures
        state_dir_of(None, Some(home)) == home + seq!['/'] + fallback_dir(),
        state_file_of(None, Some(home)) == home + seq!['/'] + fallback_dir() + seq!['/']
            + "state.json"@,
{
    reveal_strlit(".local/state/siun");
    reveal_strlit("/.local/state/siun");
    assert("/.local/state/siun"@ =~= seq!['/'] + fallback_dir());
    assert(home + "/.local/state/siun"@ =~= home + seq!['/'] + fallback_dir());
}

} // verus!
