//! The terminal interface: parsed arguments, errors, and the tables it prints.
use vstd::prelude::*;
use crate::disk_usage::{bytes_text, format_bytes};
use crate::export::ExportFormat;
use crate::models::{Dependency, Package, PackageSearchResult, ScanStatus, Venv};
use crate::numfmt::{bool_string, bool_text, dec_int, dec_nat, i64_text, push_decimal, push_signed};
use crate::service::ScanSummary;
use crate::table::{render_table, rows_fit, shows_under, table_text};


verus! {

broadcast use vstd::string::group_string_axioms;

/// How the program starts: the GUI (possibly with demo data) or a terminal command.
pub enum StartupMode {
    Gui { demo: bool },
    Cli(CliArgs),
}

/// Arguments of `sheepdog cli`.
pub struct CliArgs {
    /// Emit JSON instead of a human-readable table.
    pub json: bool,
    /// Use in-memory demo data.
    pub demo: bool,
    pub command: CliCommand,
}

/// The terminal commands.
pub enum CliCommand {
    /// Show cache status.
    Status,
    /// Scan for virtual environments and rebuild the cache.
    Scan { root_path: Option<String> },
    /// List indexed virtual environments.
    List,
    /// List packages for a virtual environment.
    Packages { venv_id: i64 },
    /// Search packages across all virtual environments.
    Search { query: String },
    /// List dependencies for a package.
    Deps { package_id: i64 },
    /// Export the consolidated venv/package/dependency table.
    Export { format: ExportFormat, output: Option<String> },
}

/// An error reported by a terminal command, with the process exit code.
pub struct CliError {
    message: String,
    code: i32,
}

/// The contents of a `CliError`.
pub ghost struct CliErrorSpec {
    pub message: Seq<char>,
    pub code: i32,
}

impl View for CliError {
    type V = CliErrorSpec;

    closed spec fn view(&self) -> CliErrorSpec {
        CliErrorSpec { message: self.message@, code: self.code }
    }
}

impl CliError {
    /// An error with this message and exit code 1.
    pub fn new(message: String) -> (r: CliError)
        ensures
            r@ == (CliErrorSpec { message: message@, code: 1 }),
    {
        CliError { message, code: 1 }
    }

    /// The exit code.
    pub fn code(&self) -> (r: i32)
        ensures
            r == self@.code,
    {
        self.code
    }

    /// The message shown to the user.
    pub fn message(&self) -> (r: &str)
        ensures
            r@ == self@.message,
    {
        self.message.as_str()
    }
}

impl vstd::std_specs::convert::FromSpecImpl<String> for CliError {
    open spec fn obeys_from_spec() -> bool {
        true
    }

    closed spec fn from_spec(v: String) -> CliError {
        CliError { message: v, code: 1 }
    }
}

/// Converting a message into an error gives that message with exit code 1.
pub proof fn lemma_error_from_message(message: String)
    ensures
        <CliError as vstd::std_specs::convert::FromSpec<String>>::from_spec(message)@ == (CliErrorSpec {
            message: message@,
            code: 1,
        }),
{
}

impl From<String> for CliError {
    fn from(error: String) -> (r: CliError) {
        CliError { message: error, code: 1 }
    }
}

pub open spec fn locked_message() -> Seq<char> {
    "Sheepdog database is locked; close Sheepdog or wait for the current scan to finish"@
}

/// The message for a database error: a fixed explanation when the database
/// is busy (locked by another connection), otherwise the error's own text.
pub fn format_sqlite_error(busy: bool, description: String) -> (r: String)
    ensures
        r@ == if busy {
            locked_message()
        } else {
            description@
        },
{
    if busy {
        "Sheepdog database is locked; close Sheepdog or wait for the current scan to finish".to_owned()
    } else {
        description
    }
}

pub open spec fn missing_venv_message(venv_id: i64) -> Seq<char> {
    "No virtual environment found with id "@ + dec_int(venv_id as int)
}

pub open spec fn missing_package_message(package_id: i64) -> Seq<char> {
    "No package found with id "@ + dec_int(package_id as int)
}

/// Succeeds when the environment `venv_id` exists; otherwise an error naming it.
pub fn ensure_venv_exists(exists: bool, venv_id: i64) -> (r: Result<(), CliError>)
    ensures
        exists <==> r is Ok,
        r matches Err(e) ==> e@ == (CliErrorSpec { message: missing_venv_message(venv_id), code: 1 }),
{
    if exists {
        Ok(())
    } else {
        let mut m = "No virtual environment found with id ".to_owned();
        push_signed(&mut m, venv_id);
        Err(CliError::new(m))
    }
}

/// Succeeds when the package `package_id` exists; otherwise an error naming it.
pub fn ensure_package_exists(exists: bool, package_id: i64) -> (r: Result<(), CliError>)
    ensures
        exists <==> r is Ok,
        r matches Err(e) ==> e@ == (CliErrorSpec {
            message: missing_package_message(package_id),
            code: 1,
        }),
{
    if exists {
        Ok(())
    } else {
        let mut m = "No package found with id ".to_owned();
        push_signed(&mut m, package_id);
        Err(CliError::new(m))
    }
}

// ── Tables ─────────────────────────────────────────────────────────────────

pub open spec fn opt_or(v: Option<String>, d: Seq<char>) -> Seq<char> {
    match v {
        Some(s) => s@,
        None => d,
    }
}

fn opt_or_exec(v: &Option<String>, d: &str) -> (r: String)
    ensures
        r@ == opt_or(*v, d@),
{
    match v {
        Some(s) => s.clone(),
        None => d.to_owned(),
    }
}

fn opt_or_empty(v: &Option<String>) -> (r: String)
    ensures
        r@ == opt_or(*v, seq![]),
{
    match v {
        Some(s) => s.clone(),
        None => String::new(),
    }
}

pub open spec fn status_headers() -> Seq<Seq<char>> {
    seq!["has_data"@, "venvs"@, "packages"@, "disk_size"@, "last_scan"@]
}

pub open spec fn status_cells(s: ScanStatus) -> Seq<Seq<char>> {
    seq![
        bool_text(s.has_data),
        dec_int(s.venv_count as int),
        dec_int(s.package_count as int),
        bytes_text((s.total_size_bytes as u64) as nat),
        opt_or(s.last_scan, "-"@),
    ]
}

/// The status table: one row with the cache's counters.
pub fn status_table(status: &ScanStatus) -> (r: String)
    ensures
        r@ == table_text(status_headers(), seq![status_cells(*status)]),
{
    let headers = vec![
        "has_data".to_owned(),
        "venvs".to_owned(),
        "packages".to_owned(),
        "disk_size".to_owned(),
        "last_scan".to_owned(),
    ];
    let row = vec![
        bool_string(status.has_data),
        i64_text(status.venv_count),
        i64_text(status.package_count),
        format_bytes(status.total_size_bytes as u64),
        opt_or_exec(&status.last_scan, "-"),
    ];
    let rows = vec![row];
    assert(headers.deep_view() =~= status_headers());
    assert(rows.deep_view() =~= seq![status_cells(*status)]) by {
        assert(rows@[0].deep_view() =~= status_cells(*status));
    }
    render_table(&headers, &rows)
}

pub open spec fn summary_headers() -> Seq<Seq<char>> {
    seq!["root"@, "discovered"@, "indexed"@]
}

pub open spec fn summary_cells(s: ScanSummary) -> Seq<Seq<char>> {
    seq![s.root_path@, dec_nat(s.discovered as nat), dec_nat(s.indexed as nat)]
}

fn usize_text(n: usize) -> (r: String)
    ensures
        r@ == dec_nat(n as nat),
{
    let mut s = String::new();
    push_decimal(&mut s, n as u64);
    assert(s@ =~= dec_nat(n as nat));
    s
}

/// The scan summary table: root path, environments found and indexed.
pub fn scan_summary_table(summary: &ScanSummary) -> (r: String)
    ensures
        r@ == table_text(summary_headers(), seq![summary_cells(*summary)]),
{
    let headers = vec!["root".to_owned(), "discovered".to_owned(), "indexed".to_owned()];
    let row = vec![
        summary.root_path.clone(),
        usize_text(summary.discovered),
        usize_text(summary.indexed),
    ];
    let rows = vec![row];
    assert(headers.deep_view() =~= summary_headers());
    assert(rows.deep_view() =~= seq![summary_cells(*summary)]) by {
        assert(rows@[0].deep_view() =~= summary_cells(*summary));
    }
    render_table(&headers, &rows)
}

pub open spec fn venv_headers() -> Seq<Seq<char>> {
    seq![
        "id"@,
        "project"@,
        "venv"@,
        "python"@,
        "packages"@,
        "disk_size"@,
        "scanned_at"@,
    ]
}

pub open spec fn venv_cells(v: Venv) -> Seq<Seq<char>> {
    seq![
        dec_int(v.id as int),
        v.project_path@,
        v.venv_name@,
        v.python_version@,
        dec_int(v.package_count as int),
        bytes_text((v.size_bytes as u64) as nat),
        v.scanned_at@,
    ]
}

/// The table of environments, one row each.
pub fn venvs_table(venvs: &Vec<Venv>) -> (r: String)
    ensures
        r@ == table_text(venv_headers(), venvs@.map_values(|v: Venv| venv_cells(v))),
{
    let headers = vec![
        "id".to_owned(),
        "project".to_owned(),
        "venv".to_owned(),
        "python".to_owned(),
        "packages".to_owned(),
        "disk_size".to_owned(),
        "scanned_at".to_owned(),
    ];
    let mut rows: Vec<Vec<String>> = Vec::new();
    let n = venvs.len();
    let mut i: usize = 0;
    while i < n
        invariant
            i <= n == venvs.len(),
            rows.deep_view() == venvs@.subrange(0, i as int).map_values(|v: Venv| venv_cells(v)),
        decreases n - i,
    {
        let v = &venvs[i];
        let row = vec![
            i64_text(v.id),
            v.project_path.clone(),
            v.venv_name.clone(),
            v.python_version.clone(),
            i64_text(v.package_count),
            format_bytes(v.size_bytes as u64),
            v.scanned_at.clone(),
        ];
        assert(row.deep_view() =~= venv_cells(*v));
        let ghost before = rows.deep_view();
        rows.push(row);
        assert(rows.deep_view() =~= before.push(venv_cells(*v)));
        assert(rows.deep_view() =~= venvs@.subrange(0, i + 1).map_values(|v: Venv| venv_cells(v)));
        i += 1;
    }
    assert(venvs@.subrange(0, n as int) =~= venvs@);
    assert(headers.deep_view() =~= venv_headers());
    assert(rows_fit(headers.deep_view(), rows.deep_view()));
    render_table(&headers, &rows)
}

pub open spec fn package_headers() -> Seq<Seq<char>> {
    seq!["id"@, "name"@, "version"@, "summary"@]
}

pub open spec fn package_cells(p: Package) -> Seq<Seq<char>> {
    seq![dec_int(p.id as int), p.name@, p.version@, opt_or(p.summary, seq![])]
}

/// The table of packages, one row each.
pub fn packages_table(packages: &Vec<Package>) -> (r: String)
    ensures
        r@ == table_text(package_headers(), packages@.map_values(|p: Package| package_cells(p))),
{
    let headers = vec!["id".to_owned(), "name".to_owned(), "version".to_owned(), "summary".to_owned()];
    let mut rows: Vec<Vec<String>> = Vec::new();
    let n = packages.len();
    let mut i: usize = 0;
    while i < n
        invariant
            i <= n == packages.len(),
            rows.deep_view() == packages@.subrange(0, i as int).map_values(
                |p: Package| package_cells(p),
            ),
        decreases n - i,
    {
        let p = &packages[i];

        let row = vec![
            i64_text(p.id),
            p.name.clone(),
            p.version.clone(),
            opt_or_empty(&p.summary),
        ];
        assert(row.deep_view() =~= package_cells(*p));
        let ghost before = rows.deep_view();
        rows.push(row);
        assert(rows.deep_view() =~= before.push(package_cells(*p)));
        assert(rows.deep_view() =~= packages@.subrange(0, i + 1).map_values(
            |p: Package| package_cells(p),
        ));
        i += 1;
    }
    assert(packages@.subrange(0, n as int) =~= packages@);
    assert(headers.deep_view() =~= package_headers());
    assert(rows_fit(headers.deep_view(), rows.deep_view()));
    render_table(&headers, &rows)
}

pub open spec fn search_headers() -> Seq<Seq<char>> {
    seq!["pkg_id"@, "venv_id"@, "name"@, "version"@, "venv"@, "project"@]
}

pub open spec fn search_cells(r: PackageSearchResult) -> Seq<Seq<char>> {
    seq![
        dec_int(r.package_id as int),
        dec_int(r.venv_id as int),
        r.package_name@,
        r.package_version@,
        r.venv_name@,
        r.project_path@,
    ]
}

/// The table of search results, one row each.
pub fn search_results_table(results: &Vec<PackageSearchResult>) -> (r: String)
    ensures
        r@ == table_text(
            search_headers(),
            results@.map_values(|x: PackageSearchResult| search_cells(x)),
        ),
{
    let headers = vec![
        "pkg_id".to_owned(),
        "venv_id".to_owned(),
        "name".to_owned(),
        "version".to_owned(),
        "venv".to_owned(),
        "project".to_owned(),
    ];
    let mut rows: Vec<Vec<String>> = Vec::new();
    let n = results.len();
    let mut i: usize = 0;
    while i < n
        invariant
            i <= n == results.len(),
            rows.deep_view() == results@.subrange(0, i as int).map_values(
                |x: PackageSearchResult| search_cells(x),
            ),
        decreases n - i,
    {
        let x = &results[i];
        let row = vec![
            i64_text(x.package_id),
            i64_text(x.venv_id),
            x.package_name.clone(),
            x.package_version.clone(),
            x.venv_name.clone(),
            x.project_path.clone(),
        ];
        assert(row.deep_view() =~= search_cells(*x));
        let ghost before = rows.deep_view();
        rows.push(row);
        assert(rows.deep_view() =~= before.push(search_cells(*x)));
        assert(rows.deep_view() =~= results@.subrange(0, i + 1).map_values(
            |x: PackageSearchResult| search_cells(x),
        ));
        i += 1;
    }
    assert(results@.subrange(0, n as int) =~= results@);
    assert(headers.deep_view() =~= search_headers());
    assert(rows_fit(headers.deep_view(), rows.deep_view()));
    render_table(&headers, &rows)
}

pub open spec fn dependency_headers() -> Seq<Seq<char>> {
    seq!["id"@, "name"@, "version_spec"@, "extra"@, "raw"@]
}

pub open spec fn dependency_cells(d: Dependency) -> Seq<Seq<char>> {
    seq![
        dec_int(d.id as int),
        d.dep_name@,
        opt_or(d.version_spec, seq![]),
        opt_or(d.extra, seq![]),
        d.requires_raw@,
    ]
}

/// The table of dependencies, one row each.
pub fn dependencies_table(deps: &Vec<Dependency>) -> (r: String)
    ensures
        r@ == table_text(dependency_headers(), deps@.map_values(|d: Dependency| dependency_cells(d))),
{
    let headers = vec![
        "id".to_owned(),
        "name".to_owned(),
        "version_spec".to_owned(),
        "extra".to_owned(),
        "raw".to_owned(),
    ];
    let mut rows: Vec<Vec<String>> = Vec::new();
    let n = deps.len();
    let mut i: usize = 0;
    while i < n
        invariant
            i <= n == deps.len(),
            rows.deep_view() == deps@.subrange(0, i as int).map_values(
                |d: Dependency| dependency_cells(d),
            ),
        decreases n - i,
    {
        let d = &deps[i];

        let row = vec![
            i64_text(d.id),
            d.dep_name.clone(),
            opt_or_empty(&d.version_spec),
            opt_or_empty(&d.extra),
            d.requires_raw.clone(),
        ];
        assert(row.deep_view() =~= dependency_cells(*d));
        let ghost before = rows.deep_view();
        rows.push(row);
        assert(rows.deep_view() =~= before.push(dependency_cells(*d)));
        assert(rows.deep_view() =~= deps@.subrange(0, i + 1).map_values(
            |d: Dependency| dependency_cells(d),
        ));
        i += 1;
    }
    assert(deps@.subrange(0, n as int) =~= deps@);
    assert(headers.deep_view() =~= dependency_headers());
    assert(rows_fit(headers.deep_view(), rows.deep_view()));
    render_table(&headers, &rows)
}

/// Each column of the environment list shows the field its header names:
/// `id`, `project`, `venv` (the environment's directory name), `python` (its
/// version), `packages`, `disk_size` and `scanned_at`.
pub proof fn lemma_venv_table_columns(v: Venv)
    ensures
        shows_under(venv_headers(), venv_cells(v), "id"@, dec_int(v.id as int)),
        shows_under(venv_headers(), venv_cells(v), "project"@, v.project_path@),
        shows_under(venv_headers(), venv_cells(v), "venv"@, v.venv_name@),
        shows_under(venv_headers(), venv_cells(v), "python"@, v.python_version@),
        shows_under(venv_headers(), venv_cells(v), "packages"@, dec_int(v.package_count as int)),
        shows_under(
            venv_headers(),
            venv_cells(v),
            "disk_size"@,
            bytes_text((v.size_bytes as u64) as nat),
        ),
        shows_under(venv_headers(), venv_cells(v), "scanned_at"@, v.scanned_at@),
{
    reveal_strlit("id");
    reveal_strlit("project");
    reveal_strlit("venv");
    reveal_strlit("python");
    reveal_strlit("packages");
    reveal_strlit("disk_size");
    reveal_strlit("scanned_at");
    let h = venv_headers();
    assert(h[0] == "id"@ && h[1] == "project"@ && h[2] == "venv"@ && h[3] == "python"@);
    assert(h[4] == "packages"@ && h[5] == "disk_size"@ && h[6] == "scanned_at"@);
}

/// Each column of the search results shows the field its header names:
/// `pkg_id` the package's id, `venv_id` its environment's id, then `name`,
/// `version`, `venv` and `project`.
pub proof fn lemma_search_table_columns(r: PackageSearchResult)
    ensures
        shows_under(search_headers(), search_cells(r), "pkg_id"@, dec_int(r.package_id as int)),
        shows_under(search_headers(), search_cells(r), "venv_id"@, dec_int(r.venv_id as int)),
        shows_under(search_headers(), search_cells(r), "name"@, r.package_name@),
        shows_under(search_headers(), search_cells(r), "version"@, r.package_version@),
        shows_under(search_headers(), search_cells(r), "venv"@, r.venv_name@),
        shows_under(search_headers(), search_cells(r), "project"@, r.project_path@),
{
    reveal_strlit("pkg_id");
    reveal_strlit("venv_id");
    reveal_strlit("name");
    reveal_strlit("version");
    reveal_strlit("venv");
    reveal_strlit("project");
    let h = search_headers();
    assert(h[0] == "pkg_id"@ && h[1] == "venv_id"@ && h[2] == "name"@ && h[3] == "version"@ && h[4] == "venv"@ && h[5] == "project"@);
    assert(h[1].len() != "pkg_id"@.len());
    assert(h[2].len() != "pkg_id"@.len());
    assert(h[3].len() != "pkg_id"@.len());
    assert(h[4].len() != "pkg_id"@.len());
    assert(h[5].len() != "pkg_id"@.len());
    assert(h[0].len() != "venv_id"@.len());
    assert(h[2].len() != "venv_id"@.len());
    assert(h[3][2] != "venv_id"@[2]);
    assert(h[4].len() != "venv_id"@.len());
    assert(h[5][0] != "venv_id"@[0]);
    assert(h[0].len() != "name"@.len());
    assert(h[1].len() != "name"@.len());
    assert(h[3].len() != "name"@.len());
    assert(h[4][0] != "name"@[0]);
    assert(h[5].len() != "name"@.len());
    assert(h[0].len() != "version"@.len());
    assert(h[1][2] != "version"@[2]);
    assert(h[2].len() != "version"@.len());
    assert(h[4].len() != "version"@.len());
    assert(h[5][0] != "version"@[0]);
    assert(h[0].len() != "venv"@.len());
    assert(h[1].len() != "venv"@.len());
    assert(h[2][0] != "venv"@[0]);
    assert(h[3].len() != "venv"@.len());
    assert(h[5].len() != "venv"@.len());
    assert(h[0].len() != "project"@.len());
    assert(h[1][0] != "project"@[0]);
    assert(h[2].len() != "project"@.len());
    assert(h[3][0] != "project"@[0]);
    assert(h[4].len() != "project"@.len());
}

/// Each column of the package list shows the field its header names: `id`,
/// `name`, `version`, and `summary` (empty when there is none).
pub proof fn lemma_package_table_columns(p: Package)
    ensures
        shows_under(package_headers(), package_cells(p), "id"@, dec_int(p.id as int)),
        shows_under(package_headers(), package_cells(p), "name"@, p.name@),
        shows_under(package_headers(), package_cells(p), "version"@, p.version@),
        shows_under(package_headers(), package_cells(p), "summary"@, opt_or(p.summary, seq![])),
{
    reveal_strlit("id");
    reveal_strlit("name");
    reveal_strlit("version");
    reveal_strlit("summary");
    let h = package_headers();
    assert(h[0] == "id"@ && h[1] == "name"@ && h[2] == "version"@ && h[3] == "summary"@);
    assert(h[1].len() != "id"@.len());
    assert(h[2].len() != "id"@.len());
    assert(h[3].len() != "id"@.len());
    assert(h[0].len() != "name"@.len());
    assert(h[2].len() != "name"@.len());
    assert(h[3].len() != "name"@.len());
    assert(h[0].len() != "version"@.len());
    assert(h[1].len() != "version"@.len());
    assert(h[3][0] != "version"@[0]);
    assert(h[0].len() != "summary"@.len());
    assert(h[1].len() != "summary"@.len());
    assert(h[2][0] != "summary"@[0]);
}

/// Each column of the dependency list shows the field its header names: `id`,
/// `name`, `version_spec` and `extra` (empty when absent), and `raw`.
pub proof fn lemma_dependency_table_columns(d: Dependency)
    ensures
        shows_under(dependency_headers(), dependency_cells(d), "id"@, dec_int(d.id as int)),
        shows_under(dependency_headers(), dependency_cells(d), "name"@, d.dep_name@),
        shows_under(dependency_headers(), dependency_cells(d), "version_spec"@, opt_or(d.version_spec, seq![])),
        shows_under(dependency_headers(), dependency_cells(d), "extra"@, opt_or(d.extra, seq![])),
        shows_under(dependency_headers(), dependency_cells(d), "raw"@, d.requires_raw@),
{
    reveal_strlit("id");
    reveal_strlit("name");
    reveal_strlit("version_spec");
    reveal_strlit("extra");
    reveal_strlit("raw");
    let h = dependency_headers();
    assert(h[0] == "id"@ && h[1] == "name"@ && h[2] == "version_spec"@ && h[3] == "extra"@ && h[4] == "raw"@);
    assert(h[1].len() != "id"@.len());
    assert(h[2].len() != "id"@.len());
    assert(h[3].len() != "id"@.len());
    assert(h[4].len() != "id"@.len());
    assert(h[0].len() != "name"@.len());
    assert(h[2].len() != "name"@.len());
    assert(h[3].len() != "name"@.len());
    assert(h[4].len() != "name"@.len());
    assert(h[0].len() != "version_spec"@.len());
    assert(h[1].len() != "version_spec"@.len());
    assert(h[3].len() != "version_spec"@.len());
    assert(h[4].len() != "version_spec"@.len());
    assert(h[0].len() != "extra"@.len());
    assert(h[1].len() != "extra"@.len());
    assert(h[2].len() != "extra"@.len());
    assert(h[4].len() != "extra"@.len());
    assert(h[0].len() != "raw"@.len());
    assert(h[1].len() != "raw"@.len());
    assert(h[2].len() != "raw"@.len());
    assert(h[3].len() != "raw"@.len());
}

/// Each column of the status table shows the counter its header names.
pub proof fn lemma_status_table_columns(st: ScanStatus)
    ensures
        shows_under(status_headers(), status_cells(st), "has_data"@, bool_text(st.has_data)),
        shows_under(status_headers(), status_cells(st), "venvs"@, dec_int(st.venv_count as int)),
        shows_under(status_headers(), status_cells(st), "packages"@, dec_int(st.package_count as int)),
        shows_under(status_headers(), status_cells(st), "disk_size"@, bytes_text((st.total_size_bytes as u64) as nat)),
        shows_under(status_headers(), status_cells(st), "last_scan"@, opt_or(st.last_scan, "-"@)),
{
    reveal_strlit("has_data");
    reveal_strlit("venvs");
    reveal_strlit("packages");
    reveal_strlit("disk_size");
    reveal_strlit("last_scan");
    let h = status_headers();
    assert(h[0] == "has_data"@ && h[1] == "venvs"@ && h[2] == "packages"@ && h[3] == "disk_size"@ && h[4] == "last_scan"@);
    assert(h[1].len() != "has_data"@.len());
    assert(h[2][0] != "has_data"@[0]);
    assert(h[3].len() != "has_data"@.len());
    assert(h[4].len() != "has_data"@.len());
    assert(h[0].len() != "venvs"@.len());
    assert(h[2].len() != "venvs"@.len());
    assert(h[3].len() != "venvs"@.len());
    assert(h[4].len() != "venvs"@.len());
    assert(h[0][0] != "packages"@[0]);
    assert(h[1].len() != "packages"@.len());
    assert(h[3].len() != "packages"@.len());
    assert(h[4].len() != "packages"@.len());
    assert(h[0].len() != "disk_size"@.len());
    assert(h[1].len() != "disk_size"@.len());
    assert(h[2].len() != "disk_size"@.len());
    assert(h[4][0] != "disk_size"@[0]);
    assert(h[0].len() != "last_scan"@.len());
    assert(h[1].len() != "last_scan"@.len());
    assert(h[2].len() != "last_scan"@.len());
    assert(h[3][0] != "last_scan"@[0]);
}

/// Each column of the scan summary shows what its header names.
pub proof fn lemma_summary_table_columns(sm: ScanSummary)
    ensures
        shows_under(summary_headers(), summary_cells(sm), "root"@, sm.root_path@),
        shows_under(summary_headers(), summary_cells(sm), "discovered"@, dec_nat(sm.discovered as nat)),
        shows_under(summary_headers(), summary_cells(sm), "indexed"@, dec_nat(sm.indexed as nat)),
{
    reveal_strlit("root");
    reveal_strlit("discovered");
    reveal_strlit("indexed");
    let h = summary_headers();
    assert(h[0] == "root"@ && h[1] == "discovered"@ && h[2] == "indexed"@);
    assert(h[1].len() != "root"@.len());
    assert(h[2].len() != "root"@.len());
    assert(h[0].len() != "discovered"@.len());
    assert(h[2].len() != "discovered"@.len());
    assert(h[0].len() != "indexed"@.len());
    assert(h[1].len() != "indexed"@.len());
}

} // verus!
