//! The four directories of a profile and the paths made from them.

use crate::text::last_char;
use vstd::prelude::*;
use vstd::string::StringExecFns;

verus! {

/// One of the four directories that make up a profile.
#[derive(Clone, Copy, Debug, PartialEq, Eq, Structural)]
pub enum Target {
    /// The configuration directory.
    Config,
    /// The data directory.
    Data,
    /// The state directory.
    State,
    /// The cache directory.
    Cache,
}

/// How many directories make up a profile.
pub const TARGET_COUNT: usize = 4;

/// The targets in the order in which they are planned and worked on.
pub open spec fn all_targets() -> Seq<Target> {
    seq![Target::Config, Target::Data, Target::State, Target::Cache]
}

/// `relative` below `base`: the two are set side by side, with a `/` between
/// them unless `base` is empty or already ends in one.
pub open spec fn joined(base: Seq<char>, relative: Seq<char>) -> Seq<char> {
    if base.len() == 0 || base.last() == '/' {
        base + relative
    } else {
        base + seq!['/'] + relative
    }
}

/// `path` marked with `extension`: a `.` and the extension are appended to
/// the path as it stands. An empty extension marks nothing and leaves the
/// path as it is.
pub open spec fn marked(path: Seq<char>, extension: Seq<char>) -> Seq<char> {
    if extension.len() == 0 {
        path
    } else {
        path + seq!['.'] + extension
    }
}

/// The directory of every target below `home`, in the order of `all_targets`.
pub open spec fn directories_below(home: Seq<char>) -> Seq<Seq<char>> {
    Seq::new(all_targets().len(), |i: int| all_targets()[i].directory_spec(home))
}

/// What each of `paths` holds.
pub open spec fn texts(paths: Seq<String>) -> Seq<Seq<char>> {
    Seq::new(paths.len(), |i: int| paths[i]@)
}

impl Target {
    /// Where the target lies, seen from the home directory.
    pub open spec fn relative_path_spec(self) -> Seq<char> {
        match self {
            Target::Config => ".config/nvim"@,
            Target::Data => ".local/share/nvim"@,
            Target::State => ".local/state/nvim"@,
            Target::Cache => ".cache/nvim"@,
        }
    }

    /// Where the target lies for the user whose home directory is `home`.
    pub open spec fn directory_spec(self, home: Seq<char>) -> Seq<char> {
        joined(home, self.relative_path_spec())
    }

    /// Where the target lies, seen from the home directory.
    pub fn relative_path(self) -> (path: &'static str)
        ensures
            path@ == self.relative_path_spec(),
    {
        match self {
            Target::Config => ".config/nvim",
            Target::Data => ".local/share/nvim",
            Target::State => ".local/state/nvim",
            Target::Cache => ".cache/nvim",
        }
    }

    /// Where the target lies for the user whose home directory is `home`.
    pub fn directory(self, home: &str) -> (path: String)
        ensures
            path@ == self.directory_spec(home@),
    {
        join(home, self.relative_path())
    }
}

/// The targets in the order in which they are planned and worked on.
pub fn targets() -> (all: [Target; 4])
    ensures
        all@ == all_targets(),
{
    let all = [Target::Config, Target::Data, Target::State, Target::Cache];
    assert(all@ =~= all_targets());
    all
}

/// Sets `relative` below `base`.
pub fn join(base: &str, relative: &str) -> (path: String)
    ensures
        path@ == joined(base@, relative@),
{
    let mut path = String::from_str(base);
    match last_char(base) {
        None => {},
        Some(last) => {
            if last != '/' {
                path.append("/");
                proof {
                    reveal_strlit("/");
                    assert("/"@ =~= seq!['/']);
                }
            }
        },
    }
    path.append(relative);
    path
}

/// Marks `path` with `extension`.
pub fn marked_path(path: &str, extension: &str) -> (marked_path: String)
    ensures
        marked_path@ == marked(path@, extension@),
{
    let mut marked_path = String::from_str(path);
    if !extension.is_empty() {
        marked_path.append(".");
        proof {
            reveal_strlit(".");
            assert("."@ =~= seq!['.']);
        }
        marked_path.append(extension);
    }
    marked_path
}

/// The directory of every target for the user whose home directory is `home`.
pub fn target_directories(home: &str) -> (directories: Vec<String>)
    ensures
        texts(directories@) == directories_below(home@),
{
    let all = targets();
    let mut directories: Vec<String> = Vec::new();
    let mut i: usize = 0;
    while i < 4
        invariant
            i <= 4,
            all@ == all_targets(),
            directories@.len() == i,
            forall|k: int| 0 <= k < i ==> directories@[k]@ == all_targets()[k].directory_spec(home@),
        decreases 4 - i,
    {
        directories.push(all[i].directory(home));
        i += 1;
    }
    assert(texts(directories@) =~= directories_below(home@));
    directories
}

} // verus!
