//! The records the cache stores and the views hand out.
use vstd::prelude::*;

verus! {

/// An indexed virtual environment.
pub struct Venv {
    pub id: i64,
    pub path: String,
    pub project_path: String,
    pub python_version: String,
    pub python_executable: String,
    pub venv_name: String,
    pub last_modified: String,
    pub scanned_at: String,
    pub package_count: i64,
    pub size_bytes: i64,
    /// Comma-separated: requirements.txt,pyproject.toml,...
    pub config_files: String,
}

/// A package installed in a virtual environment.
pub struct Package {
    pub id: i64,
    pub venv_id: i64,
    pub name: String,
    pub version: String,
    pub summary: Option<String>,
}

/// A dependency declared by a package.
pub struct Dependency {
    pub id: i64,
    pub package_id: i64,
    pub requires_raw: String,
    pub dep_name: String,
    pub version_spec: Option<String>,
    pub extra: Option<String>,
}

/// A package found by a search, with the environment it lives in.
pub struct PackageSearchResult {
    pub package_name: String,
    pub package_version: String,
    pub venv_path: String,
    pub project_path: String,
    pub python_version: String,
    pub venv_name: String,
    pub venv_id: i64,
    pub package_id: i64,
}

/// Overall state of the cache.
pub struct ScanStatus {
    pub has_data: bool,
    pub venv_count: i64,
    pub package_count: i64,
    pub total_size_bytes: i64,
    pub last_scan: Option<String>,
}

/// A progress report sent while scanning.
pub struct ScanProgress {
    pub total_found: usize,
    pub current: usize,
    pub current_path: String,
    pub phase: String,
}

/// The outcome of checking one package against PyPI.
pub struct PypiVersionInfo {
    pub package_name: String,
    pub installed_version: String,
    pub latest_version: Option<String>,
    pub is_outdated: bool,
    pub error: Option<String>,
}

/// One row of the consolidated export: a venv, one of its packages (if any)
/// and one of that package's dependencies (if any), denormalized so that each
/// row can be analyzed on its own.
pub struct ExportRow {
    pub venv_id: i64,
    pub venv_path: String,
    pub project_path: String,
    pub python_version: String,
    pub python_executable: String,
    pub venv_name: String,
    pub last_modified: String,
    pub scanned_at: String,
    pub config_files: String,
    pub package_count: i64,
    pub venv_size_bytes: i64,
    pub package_id: Option<i64>,
    pub package_name: Option<String>,
    pub package_version: Option<String>,
    pub package_summary: Option<String>,
    pub dependency_id: Option<i64>,
    pub dependency_name: Option<String>,
    pub dependency_version_spec: Option<String>,
    pub dependency_extra: Option<String>,
    pub dependency_requires_raw: Option<String>,
}

/// The status of a cache holding `venv_count` environments and
/// `package_count` packages: it has data exactly when some environment is
/// indexed.
pub fn scan_status(
    venv_count: i64,
    package_count: i64,
    total_size_bytes: i64,
    last_scan: Option<String>,
) -> (r: ScanStatus)
    ensures
        r.has_data == (venv_count > 0),
        r.venv_count == venv_count,
        r.package_count == package_count,
        r.total_size_bytes == total_size_bytes,
        r.last_scan == last_scan,
{
    ScanStatus { has_data: venv_count > 0, venv_count, package_count, total_size_bytes, last_scan }
}

} // verus!
