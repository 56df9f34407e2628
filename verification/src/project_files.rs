//! Checks made before serving a project's configuration file.
use vstd::prelude::*;
use crate::text::list_contains;

verus! {

broadcast use vstd::string::group_string_axioms;

/// The configuration files of a project that may be read.
pub open spec fn allowed_project_files() -> Seq<Seq<char>> {
    seq![
        "requirements.txt"@,
        "requirements-dev.txt"@,
        "requirements_dev.txt"@,
        "pyproject.toml"@,
        "setup.py"@,
        "setup.cfg"@,
        "Pipfile"@,
        "environment.yml"@,
    ]
}

/// The names of the configuration files that may be read.
pub fn project_file_names() -> (r: Vec<String>)
    ensures
        r.deep_view() == allowed_project_files(),
{
    let r = vec![
        "requirements.txt".to_owned(),
        "requirements-dev.txt".to_owned(),
        "requirements_dev.txt".to_owned(),
        "pyproject.toml".to_owned(),
        "setup.py".to_owned(),
        "setup.cfg".to_owned(),
        "Pipfile".to_owned(),
        "environment.yml".to_owned(),
    ];
    assert(r.deep_view() =~= allowed_project_files());
    r
}

/// Only known configuration file names may be read; anything else is refused
/// with `File not allowed`.
pub fn check_project_file(filename: &str) -> (r: Result<(), String>)
    ensures
        r is Ok <==> allowed_project_files().contains(filename@),
        r matches Err(e) ==> e@ == "File not allowed"@,
{
    let allowed = project_file_names();
    if list_contains(&allowed, filename) {
        Ok(())
    } else {
        Err("File not allowed".to_owned())
    }
}

/// The files that may be read are exactly the requirement files
/// (`requirements.txt`, `requirements-dev.txt`, `requirements_dev.txt`),
/// `pyproject.toml`, `setup.py`, `setup.cfg`, `Pipfile` and `environment.yml`.
pub proof fn lemma_allowed_project_files(name: Seq<char>)
    ensures
        allowed_project_files().contains(name) <==> (
        name == "requirements.txt"@
        || name == "requirements-dev.txt"@
        || name == "requirements_dev.txt"@
        || name == "pyproject.toml"@
        || name == "setup.py"@
        || name == "setup.cfg"@
        || name == "Pipfile"@
        || name == "environment.yml"@),
{
    let a = allowed_project_files();
    assert(a[0] == "requirements.txt"@);
    assert(a[1] == "requirements-dev.txt"@);
    assert(a[2] == "requirements_dev.txt"@);
    assert(a[3] == "pyproject.toml"@);
    assert(a[4] == "setup.py"@);
    assert(a[5] == "setup.cfg"@);
    assert(a[6] == "Pipfile"@);
    assert(a[7] == "environment.yml"@);
    if a.contains(name) {
        let k = choose|k: int| 0 <= k < a.len() && a[k] == name;
        assert(a[k] == name);
    }
}

} // verus!
