use sheepdog::demo::{demo_python_executable, demo_size_bytes, demo_venv_path, demo_venvs};
use sheepdog::indexing::{join_config_files, parse_requirements};
use sheepdog::project_files::check_project_file;
use sheepdog::scanner::{is_venv_marker, should_descend};
use sheepdog::service::{indexing_progress, scanning_progress, ScanTally};

fn s(x: &str) -> String {
    x.to_string()
}

#[test]
fn skipped_directories_are_not_entered() {
    assert!(!should_descend("node_modules", true, "/home/u/app/node_modules"));
    assert!(!should_descend(".git", true, "/home/u/app/.git"));
    assert!(!should_descend("snap", true, "/home/u/snap"));
    assert!(!should_descend("files", true, "/home/u/.local/share/Trash/files"));
    assert!(!should_descend("x", true, "/home/u/.Trash-1000/x"));
    assert!(should_descend("project", true, "/home/u/project"));
    assert!(should_descend("node_modules", false, "/home/u/node_modules"));
}

#[test]
fn pyvenv_cfg_marks_an_environment() {
    assert!(is_venv_marker(true, "pyvenv.cfg"));
    assert!(!is_venv_marker(false, "pyvenv.cfg"));
    assert!(!is_venv_marker(true, "pyvenv.cfg.bak"));
}

#[test]
fn only_known_project_files_are_served() {
    assert!(check_project_file("requirements.txt").is_ok());
    assert!(check_project_file("Pipfile").is_ok());
    assert_eq!(check_project_file("../../etc/passwd"), Err(s("File not allowed")));
    assert_eq!(check_project_file("pipfile"), Err(s("File not allowed")));
}

#[test]
fn indexing_helpers() {
    assert_eq!(join_config_files(&vec![s("requirements.txt"), s("pyproject.toml")]), "requirements.txt,pyproject.toml");
    assert_eq!(join_config_files(&vec![]), "");
    let reqs = parse_requirements(&vec![s("idna <4,>=2.5"), s("PySocks!=1.5.7,>=1.5.6 ; extra == \"socks\"")]);
    assert_eq!(reqs.len(), 2);
    assert_eq!(reqs[0].name, "idna");
    assert_eq!(reqs[1].name, "PySocks");
    assert_eq!(reqs[1].version_spec.as_deref(), Some("!=1.5.7,>=1.5.6"));
    assert_eq!(reqs[1].extra.as_deref(), Some("socks"));
}

#[test]
fn progress_and_tally() {
    let p = scanning_progress();
    assert_eq!(p.phase, "scanning");
    assert_eq!(p.current_path, "Scanning filesystem...");
    let q = indexing_progress(5, 0, &s("/a/.venv"));
    assert_eq!((q.total_found, q.current, q.phase.as_str()), (5, 1, "indexing"));
    let mut t = ScanTally::new(3);
    t.record(true);
    t.record(false);
    t.record(true);
    let summary = t.summary(s("/root"));
    assert_eq!((summary.discovered, summary.indexed), (3, 2));
}

#[test]
fn demo_data_is_stable() {
    let venvs = demo_venvs();
    assert_eq!(venvs.len(), 15);
    assert_eq!(venvs[0].project, "/home/user/projects/web-dashboard");
    assert!(venvs[0].packages.iter().any(|(n, v)| n == "requests" && v == "2.32.3"));
    assert_eq!(venvs.iter().map(|v| v.packages.len()).sum::<usize>(), 161);
    assert!(venvs.iter().any(|v| v.packages.iter().any(|(n, _)| n == "Pillow")));
    assert_eq!(demo_venv_path(&venvs[0]), "/home/user/projects/web-dashboard/.venv");
    assert_eq!(demo_python_executable(&venvs[1]), "/home/user/projects/ml-pipeline/venv/bin/python");
    assert_eq!(demo_size_bytes(0), 120 * 1024 * 1024);
    assert_eq!(demo_size_bytes(2), (120 + 146) * 1024 * 1024);
}

#[test]
fn search_pattern_matches_anywhere() {
    assert_eq!(sheepdog::indexing::search_pattern("req"), "%req%");
    assert_eq!(sheepdog::indexing::search_pattern(""), "%%");
}
