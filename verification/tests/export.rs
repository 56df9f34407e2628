use sheepdog::export::{
    csv_cell, export_columns, export_file_name, export_message, export_target, export_timestamp,
    export_values,
    optional_to_string, rows_to_csv, ExportFormat, ExportTarget,
};
use sheepdog::models::ExportRow;

fn export_row_with_values(package_summary: Option<String>) -> ExportRow {
    ExportRow {
        venv_id: 1,
        venv_path: "/tmp/project/.venv".to_string(),
        project_path: "/tmp/project".to_string(),
        python_version: "3.13.5".to_string(),
        python_executable: "/tmp/project/.venv/bin/python".to_string(),
        venv_name: ".venv".to_string(),
        last_modified: "2026-03-15 10:30".to_string(),
        scanned_at: "2026-03-27 19:30:00".to_string(),
        config_files: "requirements.txt,pyproject.toml".to_string(),
        package_count: 1,
        venv_size_bytes: 42 * 1024 * 1024,
        package_id: Some(2),
        package_name: Some("requests".to_string()),
        package_version: Some("2.32.3".to_string()),
        package_summary,
        dependency_id: None,
        dependency_name: None,
        dependency_version_spec: None,
        dependency_extra: None,
        dependency_requires_raw: None,
    }
}

#[test]
fn csv_export_includes_stable_header() {
    let csv = rows_to_csv(&[export_row_with_values(None)]);
    assert!(csv.starts_with(&format!("{}\n", export_columns().join(","))));
    assert!(csv.contains("requests"));
}

#[test]
fn csv_export_escapes_commas_quotes_and_newlines() {
    let csv = rows_to_csv(&[export_row_with_values(Some("Hello, \"world\"\nNext".to_string()))]);

    assert!(csv.contains("\"requirements.txt,pyproject.toml\""));
    assert!(csv.contains("\"Hello, \"\"world\"\"\nNext\""));
}

#[test]
fn csv_export_exact_text() {
    let csv = rows_to_csv(&[export_row_with_values(None)]);
    let expected = "venv_id,venv_path,project_path,python_version,python_executable,venv_name,last_modified,scanned_at,config_files,package_count,venv_size_bytes,package_id,package_name,package_version,package_summary,dependency_id,dependency_name,dependency_version_spec,dependency_extra,dependency_requires_raw\n1,/tmp/project/.venv,/tmp/project,3.13.5,/tmp/project/.venv/bin/python,.venv,2026-03-15 10:30,2026-03-27 19:30:00,\"requirements.txt,pyproject.toml\",1,44040192,2,requests,2.32.3,,,,,,\n";
    assert_eq!(csv, expected);
}

#[test]
fn csv_export_of_no_rows_is_only_the_header() {
    let csv = rows_to_csv(&[]);
    assert_eq!(csv, format!("{}\n", export_columns().join(",")));
    assert_eq!(export_columns().len(), 20);
}

#[test]
fn csv_cells_quote_only_when_needed() {
    assert_eq!(csv_cell("plain".to_string()), "plain");
    assert_eq!(csv_cell("".to_string()), "");
    assert_eq!(csv_cell("a,b".to_string()), "\"a,b\"");
    assert_eq!(csv_cell("say \"hi\"".to_string()), "\"say \"\"hi\"\"\"");
    assert_eq!(csv_cell("cr\r".to_string()), "\"cr\r\"");
}

/// Reads one cell back the way a CSV reader does.
fn read_cell(t: &str) -> String {
    if t.len() >= 2 && t.starts_with('"') && t.ends_with('"') {
        t[1..t.len() - 1].replace("\"\"", "\"")
    } else {
        t.to_string()
    }
}

#[test]
fn csv_cells_read_back_unchanged() {
    for v in ["", "x", "\"", "\"\"", "a,\"b\"\nc", "\"quoted\"", "tail\""] {
        assert_eq!(read_cell(&csv_cell(v.to_string())), v);
    }
}

#[test]
fn export_values_follow_column_order() {
    let values = export_values(&export_row_with_values(Some("s".to_string())));
    assert_eq!(values.len(), export_columns().len());
    assert_eq!(values[0], "1");
    assert_eq!(values[10], "44040192");
    assert_eq!(values[14], "s");
    assert_eq!(values[15], "");
    assert_eq!(optional_to_string(Some(-5)), "-5");
    assert_eq!(optional_to_string(None), "");
}

#[test]
fn export_files_and_targets() {
    assert_eq!(ExportFormat::Csv.extension(), "csv");
    assert_eq!(ExportFormat::Json.extension(), "json");
    assert_eq!(
        export_file_name("2026-03-27T19-30-00", ExportFormat::Json),
        "sheepdog-consolidated-2026-03-27T19-30-00.json"
    );
    assert!(matches!(export_target(Some("-".to_string())), ExportTarget::Stdout));
    assert!(matches!(export_target(Some("out.csv".to_string())), ExportTarget::File(p) if p == "out.csv"));
    assert!(matches!(export_target(None), ExportTarget::Timestamped));
    assert_eq!(export_message(3, "out.csv"), "Exported 3 rows to out.csv");
}

/// An RFC 4180 reader: records end at a line break outside quotes.
fn read_csv(text: &str) -> Vec<Vec<String>> {
    let chars: Vec<char> = text.chars().collect();
    let mut records = Vec::new();
    let mut fields: Vec<String> = Vec::new();
    let mut field = String::new();
    let mut quoted = false;
    let mut i = 0;
    while i < chars.len() {
        let c = chars[i];
        if quoted {
            if c == '"' {
                if i + 1 < chars.len() && chars[i + 1] == '"' {
                    field.push('"');
                    i += 1;
                } else {
                    quoted = false;
                }
            } else {
                field.push(c);
            }
        } else if c == ',' {
            fields.push(std::mem::take(&mut field));
        } else if c == '\n' {
            fields.push(std::mem::take(&mut field));
            records.push(std::mem::take(&mut fields));
        } else if c == '"' && field.is_empty() {
            quoted = true;
        } else {
            field.push(c);
        }
        i += 1;
    }
    if !field.is_empty() || !fields.is_empty() {
        fields.push(field);
        records.push(fields);
    }
    records
}

#[test]
fn csv_export_reads_back_as_records() {
    let rows = vec![
        export_row_with_values(Some("Hello, \"world\"\nNext".to_string())),
        export_row_with_values(None),
    ];
    let records = read_csv(&rows_to_csv(&rows));
    assert_eq!(records.len(), 3);
    assert_eq!(records[0], export_columns());
    assert_eq!(records[1], export_values(&rows[0]));
    assert_eq!(records[2], export_values(&rows[1]));
    assert_eq!(records[1][14], "Hello, \"world\"\nNext");
}

#[test]
fn export_timestamp_pads_each_field() {
    assert_eq!(export_timestamp(2026, 3, 7, 9, 5, 0), "2026-03-07T09-05-00");
    assert_eq!(export_timestamp(987, 12, 31, 23, 59, 59), "0987-12-31T23-59-59");
}
