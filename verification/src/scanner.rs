//! Which directories the search for virtual environments walks into, and
//! which files mark an environment. Walking the filesystem is left to the caller.
use vstd::prelude::*;
use crate::text::{chars_of, contains_chars, contains_seq, list_contains, str_eq};

verus! {

broadcast use vstd::string::group_string_axioms;

/// Directories that never hold environments worth finding and would slow the walk.
pub open spec fn skipped_dir_names() -> Seq<Seq<char>> {
    seq![
        "node_modules"@,
        "__pycache__"@,
        ".git"@,
        ".hg"@,
        ".svn"@,
        "target"@,
        ".tox"@,
        ".mypy_cache"@,
        ".pytest_cache"@,
        ".ruff_cache"@,
        "dist"@,
        "build"@,
        ".cargo"@,
        ".cache"@,
        "Trash"@,
        "snap"@,
    ]
}

/// The names of the directories the walk skips.
pub fn skipped_dirs() -> (r: Vec<String>)
    ensures
        r.deep_view() == skipped_dir_names(),
{
    let r = vec![
        "node_modules".to_owned(),
        "__pycache__".to_owned(),
        ".git".to_owned(),
        ".hg".to_owned(),
        ".svn".to_owned(),
        "target".to_owned(),
        ".tox".to_owned(),
        ".mypy_cache".to_owned(),
        ".pytest_cache".to_owned(),
        ".ruff_cache".to_owned(),
        "dist".to_owned(),
        "build".to_owned(),
        ".cargo".to_owned(),
        ".cache".to_owned(),
        "Trash".to_owned(),
        "snap".to_owned(),
    ];
    assert(r.deep_view() =~= skipped_dir_names());
    r
}

/// Whether the walk enters (or, for a file, looks at) an entry: files always;
/// directories unless their name is skipped or their path lies in a trash folder
/// (`/Trash/` or `/.Trash` in the path).
pub open spec fn descends(name: Seq<char>, is_dir: bool, path: Seq<char>) -> bool {
    !is_dir || (!skipped_dir_names().contains(name) && !contains_seq(path, "/Trash/"@)
        && !contains_seq(path, "/.Trash"@))
}

/// Decides whether the walk enters an entry with this name, kind and path.
pub fn should_descend(name: &str, is_dir: bool, path: &str) -> (r: bool)
    ensures
        r == descends(name@, is_dir, path@),
{
    if !is_dir {
        return true;
    }
    let skipped = skipped_dirs();
    if list_contains(&skipped, name) {
        return false;
    }
    let p = chars_of(path);
    let trash = chars_of("/Trash/");
    let dot_trash = chars_of("/.Trash");
    !contains_chars(&p, &trash) && !contains_chars(&p, &dot_trash)
}

/// Whether an entry is the `pyvenv.cfg` file that marks its directory as a
/// virtual environment.
pub fn is_venv_marker(is_file: bool, name: &str) -> (r: bool)
    ensures
        r == (is_file && name@ == "pyvenv.cfg"@),
{
    is_file && str_eq(name, "pyvenv.cfg")
}

/// The walk never enters a directory named after a tool's cache, build output
/// or version-control store (`node_modules`, `__pycache__`, `.git`, `.hg`,
/// `.svn`, `target`, `.tox`, `.mypy_cache`, `.pytest_cache`, `.ruff_cache`,
/// `dist`, `build`, `.cargo`, `.cache`, `Trash`, `snap`), wherever it lies.
pub proof fn lemma_walk_skips_tool_dirs(name: Seq<char>, path: Seq<char>)
    requires
        name == "node_modules"@
        || name == "__pycache__"@
        || name == ".git"@
        || name == ".hg"@
        || name == ".svn"@
        || name == "target"@
        || name == ".tox"@
        || name == ".mypy_cache"@
        || name == ".pytest_cache"@
        || name == ".ruff_cache"@
        || name == "dist"@
        || name == "build"@
        || name == ".cargo"@
        || name == ".cache"@
        || name == "Trash"@
        || name == "snap"@,
    ensures
        !descends(name, true, path),
{
    reveal_strlit("node_modules");
    reveal_strlit("__pycache__");
    reveal_strlit(".git");
    reveal_strlit(".hg");
    reveal_strlit(".svn");
    reveal_strlit("target");
    reveal_strlit(".tox");
    reveal_strlit(".mypy_cache");
    reveal_strlit(".pytest_cache");
    reveal_strlit(".ruff_cache");
    reveal_strlit("dist");
    reveal_strlit("build");
    reveal_strlit(".cargo");
    reveal_strlit(".cache");
    reveal_strlit("Trash");
    reveal_strlit("snap");
    let d = skipped_dir_names();
    assert(d[0] == "node_modules"@ && d[1] == "__pycache__"@ && d[2] == ".git"@ && d[3] == ".hg"@);
    assert(d[4] == ".svn"@ && d[5] == "target"@ && d[6] == ".tox"@ && d[7] == ".mypy_cache"@);
    assert(d[8] == ".pytest_cache"@ && d[9] == ".ruff_cache"@ && d[10] == "dist"@ && d[11] == "build"@);
    assert(d[12] == ".cargo"@ && d[13] == ".cache"@ && d[14] == "Trash"@ && d[15] == "snap"@);
}

/// Files are always looked at, and any other directory is entered unless its
/// path lies in a trash folder.
pub proof fn lemma_walk_enters_other_dirs(name: Seq<char>, is_dir: bool, path: Seq<char>)
    requires
        !is_dir || (
        name != "node_modules"@
        && name != "__pycache__"@
        && name != ".git"@
        && name != ".hg"@
        && name != ".svn"@
        && name != "target"@
        && name != ".tox"@
        && name != ".mypy_cache"@
        && name != ".pytest_cache"@
        && name != ".ruff_cache"@
        && name != "dist"@
        && name != "build"@
        && name != ".cargo"@
        && name != ".cache"@
        && name != "Trash"@
        && name != "snap"@
        && !contains_seq(path, "/Trash/"@) && !contains_seq(path, "/.Trash"@)),
    ensures
        descends(name, is_dir, path),
{
    let d = skipped_dir_names();
    if is_dir && d.contains(name) {
        let k = choose|k: int| 0 <= k < d.len() && d[k] == name;
        assert(d[0] == "node_modules"@ && d[1] == "__pycache__"@ && d[2] == ".git"@ && d[3] == ".hg"@);
        assert(d[4] == ".svn"@ && d[5] == "target"@ && d[6] == ".tox"@ && d[7] == ".mypy_cache"@);
        assert(d[8] == ".pytest_cache"@ && d[9] == ".ruff_cache"@ && d[10] == "dist"@ && d[11] == "build"@);
        assert(d[12] == ".cargo"@ && d[13] == ".cache"@ && d[14] == "Trash"@ && d[15] == "snap"@);
    }
}

} // verus!
