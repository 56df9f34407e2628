use sheepdog::cli::{
    dependencies_table, ensure_package_exists, ensure_venv_exists, format_sqlite_error,
    packages_table, scan_summary_table, search_results_table, status_table, venvs_table, CliError,
};
use sheepdog::models::{scan_status, Dependency, Package, PackageSearchResult, Venv};
use sheepdog::service::{demo_scan_summary, ScanSummary};
use sheepdog::table::render_table;

fn s(x: &str) -> String {
    x.to_string()
}

#[test]
fn cli_errors_carry_message_and_code() {
    let e = CliError::new(s("boom"));
    assert_eq!(e.code(), 1);
    assert_eq!(e.message(), "boom");
    let f: CliError = s("other").into();
    assert_eq!(f.message(), "other");
    assert_eq!(f.code(), 1);
}

#[test]
fn missing_ids_are_reported() {
    assert!(ensure_venv_exists(true, 3).is_ok());
    let e = ensure_venv_exists(false, 42).unwrap_err();
    assert_eq!(e.message(), "No virtual environment found with id 42");
    assert!(ensure_package_exists(true, 1).is_ok());
    let e = ensure_package_exists(false, -7).unwrap_err();
    assert_eq!(e.message(), "No package found with id -7");
}

#[test]
fn busy_database_gets_a_friendly_message() {
    assert_eq!(
        format_sqlite_error(true, s("database is locked")),
        "Sheepdog database is locked; close Sheepdog or wait for the current scan to finish"
    );
    assert_eq!(format_sqlite_error(false, s("no such table: venvs")), "no such table: venvs");
}

#[test]
fn empty_tables_say_no_results() {
    assert_eq!(render_table(&vec![s("a")], &vec![]), "No results.\n");
    assert_eq!(packages_table(&vec![]), "No results.\n");
}

#[test]
fn tables_pad_columns_to_the_widest_cell() {
    let t = render_table(
        &vec![s("id"), s("name")],
        &vec![vec![s("1"), s("requests")], vec![s("12345"), s("x")]],
    );
    assert_eq!(t, "id     name    \n-----  --------\n1      requests\n12345  x       \n");
}

#[test]
fn short_rows_leave_columns_out() {
    let t = render_table(&vec![s("a"), s("b")], &vec![vec![s("x")]]);
    assert_eq!(t, "a  b\n-  -\nx\n");
}

#[test]
fn status_table_shows_counts_and_size() {
    let status = scan_status(2, 30, 3 * 1024 * 1024, None);
    assert!(status.has_data);
    let t = status_table(&status);
    assert_eq!(
        t,
        "has_data  venvs  packages  disk_size  last_scan\n--------  -----  --------  ---------  ---------\ntrue      2      30        3.0 MB     -        \n"
    );
    assert!(!scan_status(0, 0, 0, None).has_data);
}

#[test]
fn list_tables_have_one_row_per_item() {
    let venv = Venv {
        id: 1,
        path: s("/p/.venv"),
        project_path: s("/p"),
        python_version: s("3.12.3"),
        python_executable: s("/p/.venv/bin/python"),
        venv_name: s(".venv"),
        last_modified: s(""),
        scanned_at: s("2026-03-27 19:30:00"),
        package_count: 5,
        size_bytes: 2048,
        config_files: s(""),
    };
    let t = venvs_table(&vec![venv]);
    assert_eq!(t.lines().count(), 3);
    assert!(t.contains("2.0 KB"));
    let pkg = Package { id: 9, venv_id: 1, name: s("rich"), version: s("13.9.4"), summary: None };
    assert_eq!(packages_table(&vec![pkg]), "id  name  version  summary\n--  ----  -------  -------\n9   rich  13.9.4          \n");
    let r = PackageSearchResult {
        package_name: s("rich"),
        package_version: s("13.9.4"),
        venv_path: s("/p/.venv"),
        project_path: s("/p"),
        python_version: s("3.12.3"),
        venv_name: s(".venv"),
        venv_id: 1,
        package_id: 9,
    };
    assert!(search_results_table(&vec![r]).starts_with("pkg_id  venv_id  name  version  venv   project\n"));
    let d = Dependency {
        id: 4,
        package_id: 9,
        requires_raw: s("pygments<3.0.0,>=2.13.0"),
        dep_name: s("pygments"),
        version_spec: Some(s("<3.0.0,>=2.13.0")),
        extra: None,
    };
    assert!(dependencies_table(&vec![d]).contains("pygments  <3.0.0,>=2.13.0"));
}

#[test]
fn scan_summaries() {
    let status = scan_status(15, 200, 10, Some(s("2026-03-27 19:30:00")));
    let summary = demo_scan_summary(&status);
    assert_eq!(summary.root_path, "demo");
    assert_eq!(summary.discovered, 15);
    assert_eq!(summary.indexed, 15);
    let t = scan_summary_table(&ScanSummary { root_path: s("/home/u"), discovered: 3, indexed: 2 });
    assert_eq!(t, "root     discovered  indexed\n-------  ----------  -------\n/home/u  3           2      \n");
}
