use sheepdog::parser::{
    is_dist_info_dir, is_python_lib_dir,
    extract_extra, parse_metadata_text, parse_pyvenv_cfg_text, parse_requires_dist,
    pyvenv_config_from_entries, pyvenv_entries,
};

fn req(raw: &str) -> (String, Option<String>, Option<String>) {
    let r = parse_requires_dist(raw);
    (r.name, r.version_spec, r.extra)
}

fn s(x: &str) -> String {
    x.to_string()
}

#[test]
fn requirement_with_comparison_operators() {
    assert_eq!(req("anyio >=3.5.0,<5"), (s("anyio"), Some(s(">=3.5.0,<5")), None));
    assert_eq!(req("  pkg==1.0  "), (s("pkg"), Some(s("==1.0")), None));
    assert_eq!(req("a~=1.4"), (s("a"), Some(s("~=1.4")), None));
    assert_eq!(req("b!=2"), (s("b"), Some(s("!=2")), None));
}

#[test]
fn requirement_with_extra_marker() {
    assert_eq!(req("aiohttp ; extra == \"aiohttp\""), (s("aiohttp"), None, Some(s("aiohttp"))));
    assert_eq!(req("bar; extra == 'speedups'"), (s("bar"), None, Some(s("speedups"))));
}

#[test]
fn requirement_with_parenthesized_constraint() {
    assert_eq!(
        req("numpy (>=1.21) ; extra == \"datalib\""),
        (s("numpy"), Some(s(">=1.21")), Some(s("datalib")))
    );
    assert_eq!(req("foo ((>=2))"), (s("foo"), Some(s(">=2")), None));
}

#[test]
fn empty_constraint_is_dropped() {
    assert_eq!(req("foo ()"), (s("foo"), None, None));
    assert_eq!(req("requests"), (s("requests"), None, None));
}

#[test]
fn markers_without_extra_give_no_extra() {
    assert_eq!(
        req("tomli>=1.1.0 ; python_version < \"3.11\""),
        (s("tomli"), Some(s(">=1.1.0")), None)
    );
    assert_eq!(req("x ; extra"), (s("x"), None, None));
}

#[test]
fn extract_extra_reads_quoted_name() {
    assert_eq!(extract_extra("extra == \"socks\""), Some(s("socks")));
    assert_eq!(extract_extra("extra == 'socks'"), Some(s("socks")));
    assert_eq!(extract_extra("extra == \"unterminated"), None);
    assert_eq!(extract_extra("sys_platform == \"win32\""), None);
}

#[test]
fn extra_is_the_value_compared_with_extra() {
    assert_eq!(
        req("pytest>=6 ; python_version >= \"3.8\" and extra == \"test\""),
        (s("pytest"), Some(s(">=6")), Some(s("test")))
    );
    assert_eq!(extract_extra("python_version >= '3.8' and extra=='docs'"), Some(s("docs")));
    assert_eq!(extract_extra("extra   ==   \"dev\" or extra == \"test\""), Some(s("dev")));
    assert_eq!(extract_extra("extra == test"), None);
    assert_eq!(extract_extra("extra"), None);
    assert_eq!(extract_extra("extra != \"test\""), Some(s("test")));
    assert_eq!(extract_extra("extras == \"y\""), Some(s("y")));
    assert_eq!(extract_extra("python_version >= \"3.8\" and extra != 'x'"), Some(s("3.8")));
}

#[test]
fn requirement_laws_hold_on_examples() {
    for raw in [
        "  foo>=1 ; extra == \"x\"  ",
        "bar (==2.0) ; python_version < \"3.9\"",
        "baz",
        "qux ; extra == 'speed' ",
    ] {
        let a = parse_requires_dist(raw);
        let b = parse_requires_dist(raw.trim());
        assert_eq!((a.name.clone(), a.version_spec.clone(), a.extra.clone()), (b.name, b.version_spec, b.extra));
        assert_eq!(a.name.trim(), a.name);
        assert!(!a.name.contains(';') && !a.name.contains('('));
        if let Some(v) = &a.version_spec {
            assert!(!v.is_empty());
        }
        if a.extra.is_some() {
            let (_, marker) = raw.trim().split_once(';').unwrap();
            assert!(marker.contains("extra"));
        }
    }
}

#[test]
fn metadata_headers_are_read_until_the_body() {
    let text = "Metadata-Version: 2.1\nName: requests\nVersion: 2.32.3\nSummary:  Python HTTP for Humans. \nRequires-Dist: charset-normalizer <4,>=2\nRequires-Dist: idna <4,>=2.5\n\nName: not-a-header\nRequires-Dist: nope\n";
    let p = parse_metadata_text(text).unwrap();
    assert_eq!(p.name, "requests");
    assert_eq!(p.version, "2.32.3");
    assert_eq!(p.summary.as_deref(), Some("Python HTTP for Humans."));
    assert_eq!(p.requires_dist, vec![s("charset-normalizer <4,>=2"), s("idna <4,>=2.5")]);
}

#[test]
fn metadata_defaults_and_requirements() {
    let p = parse_metadata_text("Name: tiny\r\nSummary: x\r\n").unwrap();
    assert_eq!(p.name, "tiny");
    assert_eq!(p.version, "unknown");
    assert_eq!(p.summary.as_deref(), Some("x"));
    assert!(p.requires_dist.is_empty());
    assert!(parse_metadata_text("Version: 1.0\nSummary: no name\n").is_none());
    assert!(parse_metadata_text("\nName: after-blank\n").is_none());
    assert!(parse_metadata_text("").is_none());
}

#[test]
fn pyvenv_cfg_fields() {
    let text = "home = /usr/bin\ninclude-system-site-packages = false\nversion = 3.12.3\nexecutable = /usr/bin/python3.12\ncommand = /usr/bin/python3 -m venv /x/.venv\n";
    let c = parse_pyvenv_cfg_text(text);
    assert_eq!(c.version, "3.12.3");
    assert_eq!(c.executable, "/usr/bin/python3.12");
    assert_eq!(c.home, "/usr/bin");
    assert!(!c.include_system_site_packages);
}

#[test]
fn pyvenv_cfg_fallbacks_and_case() {
    let c = parse_pyvenv_cfg_text("Home = /opt/py\nVERSION = 3.11.2\ninclude-system-site-packages = true\n");
    assert_eq!(c.version, "3.11.2");
    assert_eq!(c.executable, "/opt/py");
    assert_eq!(c.home, "/opt/py");
    assert!(c.include_system_site_packages);
    let empty = parse_pyvenv_cfg_text("no equals here\n");
    assert_eq!(empty.version, "");
    assert_eq!(empty.executable, "");
    assert_eq!(empty.home, "");
    assert!(!empty.include_system_site_packages);
}

#[test]
fn pyvenv_cfg_later_lines_override() {
    let c = parse_pyvenv_cfg_text("version = 3.10\nversion = 3.12\nkey = a = b\n");
    assert_eq!(c.version, "3.12");
    let entries = pyvenv_entries("key = a = b\nx\n");
    assert_eq!(entries, vec![(s("key"), s("a = b"))]);
    let c2 = pyvenv_config_from_entries(&vec![(s("executable"), s("/e")), (s("home"), s("/h"))]);
    assert_eq!(c2.executable, "/e");
    assert_eq!(c2.home, "/h");
}

#[test]
fn package_metadata_locations() {
    assert!(is_python_lib_dir("python3.12"));
    assert!(!is_python_lib_dir("site-python"));
    assert!(is_dist_info_dir("requests-2.32.3.dist-info", true));
    assert!(!is_dist_info_dir("requests-2.32.3.dist-info", false));
    assert!(!is_dist_info_dir("requests", true));
    assert!(!is_dist_info_dir("requests-2.32.3.egg-info", true));
}
