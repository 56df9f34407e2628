//! The consolidated CSV export and the naming of export files.
use vstd::prelude::*;
use crate::models::ExportRow;
use crate::table::shows_under;
use crate::numfmt::{dec_int, dec_nat, i64_text, padded, push_decimal, push_padded};
use crate::text::{chars_of, push_all, push_char, str_eq};

verus! {

broadcast use vstd::string::group_string_axioms;

/// Output format of an export.
#[derive(Clone, Copy, PartialEq, Eq)]
pub enum ExportFormat {
    Csv,
    Json,
}

pub open spec fn extension_of(f: ExportFormat) -> Seq<char> {
    match f {
        ExportFormat::Csv => "csv"@,
        ExportFormat::Json => "json"@,
    }
}

impl ExportFormat {
    /// File extension used for this format.
    pub fn extension(self) -> (r: &'static str)
        ensures
            r@ == extension_of(self),
    {
        match self {
            ExportFormat::Csv => "csv",
            ExportFormat::Json => "json",
        }
    }
}

// ── CSV cells ──────────────────────────────────────────────────────────────

/// Characters that force a CSV cell to be quoted.
pub open spec fn csv_special(c: char) -> bool {
    c == ',' || c == '"' || c == '\n' || c == '\r'
}

pub open spec fn needs_quotes(v: Seq<char>) -> bool {
    exists|i: int| 0 <= i < v.len() && csv_special(#[trigger] v[i])
}

/// `v` with every `"` doubled.
pub open spec fn double_quotes(v: Seq<char>) -> Seq<char>
    decreases v.len(),
{
    if v.len() == 0 {
        seq![]
    } else if v[0] == '"' {
        seq!['"', '"'] + double_quotes(v.drop_first())
    } else {
        seq![v[0]] + double_quotes(v.drop_first())
    }
}

/// The CSV form of one value: quoted, with inner quotes doubled, when it holds
/// a comma, a quote or a line break; unchanged otherwise.
pub open spec fn csv_cell_text(v: Seq<char>) -> Seq<char> {
    if needs_quotes(v) {
        seq!['"'] + double_quotes(v) + seq!['"']
    } else {
        v
    }
}

/// `t` with every `""` read back as `"`.
pub open spec fn undouble_quotes(t: Seq<char>) -> Seq<char>
    decreases t.len(),
{
    if t.len() == 0 {
        seq![]
    } else if t.len() >= 2 && t[0] == '"' && t[1] == '"' {
        seq!['"'] + undouble_quotes(t.skip(2))
    } else {
        seq![t[0]] + undouble_quotes(t.skip(1))
    }
}

/// How a CSV reader reads one cell back.
pub open spec fn read_csv_cell(t: Seq<char>) -> Seq<char> {
    if t.len() >= 2 && t[0] == '"' && t.last() == '"' {
        undouble_quotes(t.subrange(1, t.len() - 1))
    } else {
        t
    }
}

proof fn lemma_undouble_double(v: Seq<char>)
    ensures
        undouble_quotes(double_quotes(v)) == v,
    decreases v.len(),
{
    if v.len() > 0 {
        lemma_undouble_double(v.drop_first());
        let d = double_quotes(v);
        if v[0] == '"' {
            assert(d.skip(2) =~= double_quotes(v.drop_first()));
        } else {
            assert(d.skip(1) =~= double_quotes(v.drop_first()));
        }
        assert(undouble_quotes(d) =~= v);
    }
}

/// Every value comes back unchanged when its CSV cell is read.
pub proof fn lemma_csv_cell_round_trip(v: Seq<char>)
    ensures
        read_csv_cell(csv_cell_text(v)) == v,
{
    if needs_quotes(v) {
        let t = csv_cell_text(v);
        lemma_undouble_double(v);
        assert(t.subrange(1, t.len() - 1) =~= double_quotes(v));
    } else {
        if v.len() >= 2 && v[0] == '"' {
            assert(csv_special(v[0]));
        }
    }
}

/// Quotes a value for CSV when it holds a comma, a quote or a line break.
pub fn csv_cell(value: String) -> (r: String)
    ensures
        r@ == csv_cell_text(value@),
{
    let v = chars_of(value.as_str());
    let n = v.len();
    let mut special = false;
    let mut i: usize = 0;
    while i < n
        invariant
            i <= n == v.len(),
            v@ == value@,
            special == (exists|j: int| 0 <= j < i && csv_special(#[trigger] v@[j])),
        decreases n - i,
    {
        let c = v[i];
        if c == ',' || c == '"' || c == '\n' || c == '\r' {
            special = true;
        }
        i += 1;
    }
    if !special {
        return value;
    }
    let mut out = String::new();
    push_char(&mut out, '"');
    let mut k: usize = 0;
    assert(v@.skip(0) =~= v@);
    while k < n
        invariant
            k <= n == v.len(),
            v@ == value@,
            out@ + double_quotes(v@.skip(k as int)) == seq!['"'] + double_quotes(v@),
        decreases n - k,
    {
        let ghost before = out@;
        assert(v@.skip(k as int).drop_first() =~= v@.skip(k + 1));
        if v[k] == '"' {
            push_char(&mut out, '"');
            push_char(&mut out, '"');
            assert(before + double_quotes(v@.skip(k as int)) =~= out@ + double_quotes(
                v@.skip(k + 1),
            ));
        } else {
            push_char(&mut out, v[k]);
            assert(before + double_quotes(v@.skip(k as int)) =~= out@ + double_quotes(
                v@.skip(k + 1),
            ));
        }
        k += 1;
    }
    assert(v@.skip(n as int) =~= Seq::<char>::empty());
    assert(out@ =~= seq!['"'] + double_quotes(v@));
    push_char(&mut out, '"');
    out
}

// ── Rows ───────────────────────────────────────────────────────────────────

pub open spec fn opt_int_text(v: Option<i64>) -> Seq<char> {
    match v {
        Some(x) => dec_int(x as int),
        None => seq![],
    }
}

pub open spec fn opt_text(v: Option<String>) -> Seq<char> {
    match v {
        Some(s) => s@,
        None => seq![],
    }
}

/// The 20 values of a row, in the order of the export columns.
pub open spec fn row_values(row: ExportRow) -> Seq<Seq<char>> {
    seq![
        dec_int(row.venv_id as int),
        row.venv_path@,
        row.project_path@,
        row.python_version@,
        row.python_executable@,
        row.venv_name@,
        row.last_modified@,
        row.scanned_at@,
        row.config_files@,
        dec_int(row.package_count as int),
        dec_int(row.venv_size_bytes as int),
        opt_int_text(row.package_id),
        opt_text(row.package_name),
        opt_text(row.package_version),
        opt_text(row.package_summary),
        opt_int_text(row.dependency_id),
        opt_text(row.dependency_name),
        opt_text(row.dependency_version_spec),
        opt_text(row.dependency_extra),
        opt_text(row.dependency_requires_raw),
    ]
}

/// The names of the export columns, in order.
pub open spec fn export_header() -> Seq<Seq<char>> {
    seq![
        "venv_id"@,
        "venv_path"@,
        "project_path"@,
        "python_version"@,
        "python_executable"@,
        "venv_name"@,
        "last_modified"@,
        "scanned_at"@,
        "config_files"@,
        "package_count"@,
        "venv_size_bytes"@,
        "package_id"@,
        "package_name"@,
        "package_version"@,
        "package_summary"@,
        "dependency_id"@,
        "dependency_name"@,
        "dependency_version_spec"@,
        "dependency_extra"@,
        "dependency_requires_raw"@,
    ]
}

/// Each exported value stands under the column that names its field: for
/// every row, the value at the position of `dependency_version_spec` is the
/// row's version constraint (empty when absent), the one at `dependency_extra`
/// its extra, and so on for each of the columns.
pub proof fn lemma_export_values_under_their_columns(row: ExportRow)
    ensures
        shows_under(export_header(), row_values(row), "venv_id"@, dec_int(row.venv_id as int)),
        shows_under(export_header(), row_values(row), "venv_path"@, row.venv_path@),
        shows_under(export_header(), row_values(row), "project_path"@, row.project_path@),
        shows_under(export_header(), row_values(row), "python_version"@, row.python_version@),
        shows_under(export_header(), row_values(row), "python_executable"@, row.python_executable@),
        shows_under(export_header(), row_values(row), "venv_name"@, row.venv_name@),
        shows_under(export_header(), row_values(row), "last_modified"@, row.last_modified@),
        shows_under(export_header(), row_values(row), "scanned_at"@, row.scanned_at@),
        shows_under(export_header(), row_values(row), "config_files"@, row.config_files@),
        shows_under(export_header(), row_values(row), "package_count"@, dec_int(row.package_count as int)),
        shows_under(export_header(), row_values(row), "venv_size_bytes"@, dec_int(row.venv_size_bytes as int)),
        shows_under(export_header(), row_values(row), "package_id"@, opt_int_text(row.package_id)),
        shows_under(export_header(), row_values(row), "package_name"@, opt_text(row.package_name)),
        shows_under(export_header(), row_values(row), "package_version"@, opt_text(row.package_version)),
        shows_under(export_header(), row_values(row), "package_summary"@, opt_text(row.package_summary)),
        shows_under(export_header(), row_values(row), "dependency_id"@, opt_int_text(row.dependency_id)),
        shows_under(export_header(), row_values(row), "dependency_name"@, opt_text(row.dependency_name)),
        shows_under(export_header(), row_values(row), "dependency_version_spec"@, opt_text(row.dependency_version_spec)),
        shows_under(export_header(), row_values(row), "dependency_extra"@, opt_text(row.dependency_extra)),
        shows_under(export_header(), row_values(row), "dependency_requires_raw"@, opt_text(row.dependency_requires_raw)),
{
    reveal_strlit("venv_id");
    reveal_strlit("venv_path");
    reveal_strlit("project_path");
    reveal_strlit("python_version");
    reveal_strlit("python_executable");
    reveal_strlit("venv_name");
    reveal_strlit("last_modified");
    reveal_strlit("scanned_at");
    reveal_strlit("config_files");
    reveal_strlit("package_count");
    reveal_strlit("venv_size_bytes");
    reveal_strlit("package_id");
    reveal_strlit("package_name");
    reveal_strlit("package_version");
    reveal_strlit("package_summary");
    reveal_strlit("dependency_id");
    reveal_strlit("dependency_name");
    reveal_strlit("dependency_version_spec");
    reveal_strlit("dependency_extra");
    reveal_strlit("dependency_requires_raw");
    let h = export_header();
    assert(h[0] == "venv_id"@);
    assert(h[1] == "venv_path"@);
    assert(h[2] == "project_path"@);
    assert(h[3] == "python_version"@);
    assert(h[4] == "python_executable"@);
    assert(h[5] == "venv_name"@);
    assert(h[6] == "last_modified"@);
    assert(h[7] == "scanned_at"@);
    assert(h[8] == "config_files"@);
    assert(h[9] == "package_count"@);
    assert(h[10] == "venv_size_bytes"@);
    assert(h[11] == "package_id"@);
    assert(h[12] == "package_name"@);
    assert(h[13] == "package_version"@);
    assert(h[14] == "package_summary"@);
    assert(h[15] == "dependency_id"@);
    assert(h[16] == "dependency_name"@);
    assert(h[17] == "dependency_version_spec"@);
    assert(h[18] == "dependency_extra"@);
    assert(h[19] == "dependency_requires_raw"@);
    assert(h[1].len() != "venv_id"@.len());
    assert(h[2].len() != "venv_id"@.len());
    assert(h[3].len() != "venv_id"@.len());
    assert(h[4].len() != "venv_id"@.len());
    assert(h[5].len() != "venv_id"@.len());
    assert(h[6].len() != "venv_id"@.len());
    assert(h[7].len() != "venv_id"@.len());
    assert(h[8].len() != "venv_id"@.len());
    assert(h[9].len() != "venv_id"@.len());
    assert(h[10].len() != "venv_id"@.len());
    assert(h[11].len() != "venv_id"@.len());
    assert(h[12].len() != "venv_id"@.len());
    assert(h[13].len() != "venv_id"@.len());
    assert(h[14].len() != "venv_id"@.len());
    assert(h[15].len() != "venv_id"@.len());
    assert(h[16].len() != "venv_id"@.len());
    assert(h[17].len() != "venv_id"@.len());
    assert(h[18].len() != "venv_id"@.len());
    assert(h[19].len() != "venv_id"@.len());
    assert(h[0].len() != "venv_path"@.len());
    assert(h[2].len() != "venv_path"@.len());
    assert(h[3].len() != "venv_path"@.len());
    assert(h[4].len() != "venv_path"@.len());
    assert(h[5][5] != "venv_path"@[5]);
    assert(h[6].len() != "venv_path"@.len());
    assert(h[7].len() != "venv_path"@.len());
    assert(h[8].len() != "venv_path"@.len());
    assert(h[9].len() != "venv_path"@.len());
    assert(h[10].len() != "venv_path"@.len());
    assert(h[11].len() != "venv_path"@.len());
    assert(h[12].len() != "venv_path"@.len());
    assert(h[13].len() != "venv_path"@.len());
    assert(h[14].len() != "venv_path"@.len());
    assert(h[15].len() != "venv_path"@.len());
    assert(h[16].len() != "venv_path"@.len());
    assert(h[17].len() != "venv_path"@.len());
    assert(h[18].len() != "venv_path"@.len());
    assert(h[19].len() != "venv_path"@.len());
    assert(h[0].len() != "project_path"@.len());
    assert(h[1].len() != "project_path"@.len());
    assert(h[3].len() != "project_path"@.len());
    assert(h[4].len() != "project_path"@.len());
    assert(h[5].len() != "project_path"@.len());
    assert(h[6].len() != "project_path"@.len());
    assert(h[7].len() != "project_path"@.len());
    assert(h[8][0] != "project_path"@[0]);
    assert(h[9].len() != "project_path"@.len());
    assert(h[10].len() != "project_path"@.len());
    assert(h[11].len() != "project_path"@.len());
    assert(h[12][1] != "project_path"@[1]);
    assert(h[13].len() != "project_path"@.len());
    assert(h[14].len() != "project_path"@.len());
    assert(h[15].len() != "project_path"@.len());
    assert(h[16].len() != "project_path"@.len());
    assert(h[17].len() != "project_path"@.len());
    assert(h[18].len() != "project_path"@.len());
    assert(h[19].len() != "project_path"@.len());
    assert(h[0].len() != "python_version"@.len());
    assert(h[1].len() != "python_version"@.len());
    assert(h[2].len() != "python_version"@.len());
    assert(h[4].len() != "python_version"@.len());
    assert(h[5].len() != "python_version"@.len());
    assert(h[6].len() != "python_version"@.len());
    assert(h[7].len() != "python_version"@.len());
    assert(h[8].len() != "python_version"@.len());
    assert(h[9].len() != "python_version"@.len());
    assert(h[10].len() != "python_version"@.len());
    assert(h[11].len() != "python_version"@.len());
    assert(h[12].len() != "python_version"@.len());
    assert(h[13].len() != "python_version"@.len());
    assert(h[14].len() != "python_version"@.len());
    assert(h[15].len() != "python_version"@.len());
    assert(h[16].len() != "python_version"@.len());
    assert(h[17].len() != "python_version"@.len());
    assert(h[18].len() != "python_version"@.len());
    assert(h[19].len() != "python_version"@.len());
    assert(h[0].len() != "python_executable"@.len());
    assert(h[1].len() != "python_executable"@.len());
    assert(h[2].len() != "python_executable"@.len());
    assert(h[3].len() != "python_executable"@.len());
    assert(h[5].len() != "python_executable"@.len());
    assert(h[6].len() != "python_executable"@.len());
    assert(h[7].len() != "python_executable"@.len());
    assert(h[8].len() != "python_executable"@.len());
    assert(h[9].len() != "python_executable"@.len());
    assert(h[10].len() != "python_executable"@.len());
    assert(h[11].len() != "python_executable"@.len());
    assert(h[12].len() != "python_executable"@.len());
    assert(h[13].len() != "python_executable"@.len());
    assert(h[14].len() != "python_executable"@.len());
    assert(h[15].len() != "python_executable"@.len());
    assert(h[16].len() != "python_executable"@.len());
    assert(h[17].len() != "python_executable"@.len());
    assert(h[18].len() != "python_executable"@.len());
    assert(h[19].len() != "python_executable"@.len());
    assert(h[0].len() != "venv_name"@.len());
    assert(h[1][5] != "venv_name"@[5]);
    assert(h[2].len() != "venv_name"@.len());
    assert(h[3].len() != "venv_name"@.len());
    assert(h[4].len() != "venv_name"@.len());
    assert(h[6].len() != "venv_name"@.len());
    assert(h[7].len() != "venv_name"@.len());
    assert(h[8].len() != "venv_name"@.len());
    assert(h[9].len() != "venv_name"@.len());
    assert(h[10].len() != "venv_name"@.len());
    assert(h[11].len() != "venv_name"@.len());
    assert(h[12].len() != "venv_name"@.len());
    assert(h[13].len() != "venv_name"@.len());
    assert(h[14].len() != "venv_name"@.len());
    assert(h[15].len() != "venv_name"@.len());
    assert(h[16].len() != "venv_name"@.len());
    assert(h[17].len() != "venv_name"@.len());
    assert(h[18].len() != "venv_name"@.len());
    assert(h[19].len() != "venv_name"@.len());
    assert(h[0].len() != "last_modified"@.len());
    assert(h[1].len() != "last_modified"@.len());
    assert(h[2].len() != "last_modified"@.len());
    assert(h[3].len() != "last_modified"@.len());
    assert(h[4].len() != "last_modified"@.len());
    assert(h[5].len() != "last_modified"@.len());
    assert(h[7].len() != "last_modified"@.len());
    assert(h[8].len() != "last_modified"@.len());
    assert(h[9][0] != "last_modified"@[0]);
    assert(h[10].len() != "last_modified"@.len());
    assert(h[11].len() != "last_modified"@.len());
    assert(h[12].len() != "last_modified"@.len());
    assert(h[13].len() != "last_modified"@.len());
    assert(h[14].len() != "last_modified"@.len());
    assert(h[15][0] != "last_modified"@[0]);
    assert(h[16].len() != "last_modified"@.len());
    assert(h[17].len() != "last_modified"@.len());
    assert(h[18].len() != "last_modified"@.len());
    assert(h[19].len() != "last_modified"@.len());
    assert(h[0].len() != "scanned_at"@.len());
    assert(h[1].len() != "scanned_at"@.len());
    assert(h[2].len() != "scanned_at"@.len());
    assert(h[3].len() != "scanned_at"@.len());
    assert(h[4].len() != "scanned_at"@.len());
    assert(h[5].len() != "scanned_at"@.len());
    assert(h[6].len() != "scanned_at"@.len());
    assert(h[8].len() != "scanned_at"@.len());
    assert(h[9].len() != "scanned_at"@.len());
    assert(h[10].len() != "scanned_at"@.len());
    assert(h[11][0] != "scanned_at"@[0]);
    assert(h[12].len() != "scanned_at"@.len());
    assert(h[13].len() != "scanned_at"@.len());
    assert(h[14].len() != "scanned_at"@.len());
    assert(h[15].len() != "scanned_at"@.len());
    assert(h[16].len() != "scanned_at"@.len());
    assert(h[17].len() != "scanned_at"@.len());
    assert(h[18].len() != "scanned_at"@.len());
    assert(h[19].len() != "scanned_at"@.len());
    assert(h[0].len() != "config_files"@.len());
    assert(h[1].len() != "config_files"@.len());
    assert(h[2][0] != "config_files"@[0]);
    assert(h[3].len() != "config_files"@.len());
    assert(h[4].len() != "config_files"@.len());
    assert(h[5].len() != "config_files"@.len());
    assert(h[6].len() != "config_files"@.len());
    assert(h[7].len() != "config_files"@.len());
    assert(h[9].len() != "config_files"@.len());
    assert(h[10].len() != "config_files"@.len());
    assert(h[11].len() != "config_files"@.len());
    assert(h[12][0] != "config_files"@[0]);
    assert(h[13].len() != "config_files"@.len());
    assert(h[14].len() != "config_files"@.len());
    assert(h[15].len() != "config_files"@.len());
    assert(h[16].len() != "config_files"@.len());
    assert(h[17].len() != "config_files"@.len());
    assert(h[18].len() != "config_files"@.len());
    assert(h[19].len() != "config_files"@.len());
    assert(h[0].len() != "package_count"@.len());
    assert(h[1].len() != "package_count"@.len());
    assert(h[2].len() != "package_count"@.len());
    assert(h[3].len() != "package_count"@.len());
    assert(h[4].len() != "package_count"@.len());
    assert(h[5].len() != "package_count"@.len());
    assert(h[6][0] != "package_count"@[0]);
    assert(h[7].len() != "package_count"@.len());
    assert(h[8].len() != "package_count"@.len());
    assert(h[10].len() != "package_count"@.len());
    assert(h[11].len() != "package_count"@.len());
    assert(h[12].len() != "package_count"@.len());
    assert(h[13].len() != "package_count"@.len());
    assert(h[14].len() != "package_count"@.len());
    assert(h[15][0] != "package_count"@[0]);
    assert(h[16].len() != "package_count"@.len());
    assert(h[17].len() != "package_count"@.len());
    assert(h[18].len() != "package_count"@.len());
    assert(h[19].len() != "package_count"@.len());
    assert(h[0].len() != "venv_size_bytes"@.len());
    assert(h[1].len() != "venv_size_bytes"@.len());
    assert(h[2].len() != "venv_size_bytes"@.len());
    assert(h[3].len() != "venv_size_bytes"@.len());
    assert(h[4].len() != "venv_size_bytes"@.len());
    assert(h[5].len() != "venv_size_bytes"@.len());
    assert(h[6].len() != "venv_size_bytes"@.len());
    assert(h[7].len() != "venv_size_bytes"@.len());
    assert(h[8].len() != "venv_size_bytes"@.len());
    assert(h[9].len() != "venv_size_bytes"@.len());
    assert(h[11].len() != "venv_size_bytes"@.len());
    assert(h[12].len() != "venv_size_bytes"@.len());
    assert(h[13][0] != "venv_size_bytes"@[0]);
    assert(h[14][0] != "venv_size_bytes"@[0]);
    assert(h[15].len() != "venv_size_bytes"@.len());
    assert(h[16][0] != "venv_size_bytes"@[0]);
    assert(h[17].len() != "venv_size_bytes"@.len());
    assert(h[18].len() != "venv_size_bytes"@.len());
    assert(h[19].len() != "venv_size_bytes"@.len());
    assert(h[0].len() != "package_id"@.len());
    assert(h[1].len() != "package_id"@.len());
    assert(h[2].len() != "package_id"@.len());
    assert(h[3].len() != "package_id"@.len());
    assert(h[4].len() != "package_id"@.len());
    assert(h[5].len() != "package_id"@.len());
    assert(h[6].len() != "package_id"@.len());
    assert(h[7][0] != "package_id"@[0]);
    assert(h[8].len() != "package_id"@.len());
    assert(h[9].len() != "package_id"@.len());
    assert(h[10].len() != "package_id"@.len());
    assert(h[12].len() != "package_id"@.len());
    assert(h[13].len() != "package_id"@.len());
    assert(h[14].len() != "package_id"@.len());
    assert(h[15].len() != "package_id"@.len());
    assert(h[16].len() != "package_id"@.len());
    assert(h[17].len() != "package_id"@.len());
    assert(h[18].len() != "package_id"@.len());
    assert(h[19].len() != "package_id"@.len());
    assert(h[0].len() != "package_name"@.len());
    assert(h[1].len() != "package_name"@.len());
    assert(h[2][1] != "package_name"@[1]);
    assert(h[3].len() != "package_name"@.len());
    assert(h[4].len() != "package_name"@.len());
    assert(h[5].len() != "package_name"@.len());
    assert(h[6].len() != "package_name"@.len());
    assert(h[7].len() != "package_name"@.len());
    assert(h[8][0] != "package_name"@[0]);
    assert(h[9].len() != "package_name"@.len());
    assert(h[10].len() != "package_name"@.len());
    assert(h[11].len() != "package_name"@.len());
    assert(h[13].len() != "package_name"@.len());
    assert(h[14].len() != "package_name"@.len());
    assert(h[15].len() != "package_name"@.len());
    assert(h[16].len() != "package_name"@.len());
    assert(h[17].len() != "package_name"@.len());
    assert(h[18].len() != "package_name"@.len());
    assert(h[19].len() != "package_name"@.len());
    assert(h[0].len() != "package_version"@.len());
    assert(h[1].len() != "package_version"@.len());
    assert(h[2].len() != "package_version"@.len());
    assert(h[3].len() != "package_version"@.len());
    assert(h[4].len() != "package_version"@.len());
    assert(h[5].len() != "package_version"@.len());
    assert(h[6].len() != "package_version"@.len());
    assert(h[7].len() != "package_version"@.len());
    assert(h[8].len() != "package_version"@.len());
    assert(h[9].len() != "package_version"@.len());
    assert(h[10][0] != "package_version"@[0]);
    assert(h[11].len() != "package_version"@.len());
    assert(h[12].len() != "package_version"@.len());
    assert(h[14][8] != "package_version"@[8]);
    assert(h[15].len() != "package_version"@.len());
    assert(h[16][0] != "package_version"@[0]);
    assert(h[17].len() != "package_version"@.len());
    assert(h[18].len() != "package_version"@.len());
    assert(h[19].len() != "package_version"@.len());
    assert(h[0].len() != "package_summary"@.len());
    assert(h[1].len() != "package_summary"@.len());
    assert(h[2].len() != "package_summary"@.len());
    assert(h[3].len() != "package_summary"@.len());
    assert(h[4].len() != "package_summary"@.len());
    assert(h[5].len() != "package_summary"@.len());
    assert(h[6].len() != "package_summary"@.len());
    assert(h[7].len() != "package_summary"@.len());
    assert(h[8].len() != "package_summary"@.len());
    assert(h[9].len() != "package_summary"@.len());
    assert(h[10][0] != "package_summary"@[0]);
    assert(h[11].len() != "package_summary"@.len());
    assert(h[12].len() != "package_summary"@.len());
    assert(h[13][8] != "package_summary"@[8]);
    assert(h[15].len() != "package_summary"@.len());
    assert(h[16][0] != "package_summary"@[0]);
    assert(h[17].len() != "package_summary"@.len());
    assert(h[18].len() != "package_summary"@.len());
    assert(h[19].len() != "package_summary"@.len());
    assert(h[0].len() != "dependency_id"@.len());
    assert(h[1].len() != "dependency_id"@.len());
    assert(h[2].len() != "dependency_id"@.len());
    assert(h[3].len() != "dependency_id"@.len());
    assert(h[4].len() != "dependency_id"@.len());
    assert(h[5].len() != "dependency_id"@.len());
    assert(h[6][0] != "dependency_id"@[0]);
    assert(h[7].len() != "dependency_id"@.len());
    assert(h[8].len() != "dependency_id"@.len());
    assert(h[9][0] != "dependency_id"@[0]);
    assert(h[10].len() != "dependency_id"@.len());
    assert(h[11].len() != "dependency_id"@.len());
    assert(h[12].len() != "dependency_id"@.len());
    assert(h[13].len() != "dependency_id"@.len());
    assert(h[14].len() != "dependency_id"@.len());
    assert(h[16].len() != "dependency_id"@.len());
    assert(h[17].len() != "dependency_id"@.len());
    assert(h[18].len() != "dependency_id"@.len());
    assert(h[19].len() != "dependency_id"@.len());
    assert(h[0].len() != "dependency_name"@.len());
    assert(h[1].len() != "dependency_name"@.len());
    assert(h[2].len() != "dependency_name"@.len());
    assert(h[3].len() != "dependency_name"@.len());
    assert(h[4].len() != "dependency_name"@.len());
    assert(h[5].len() != "dependency_name"@.len());
    assert(h[6].len() != "dependency_name"@.len());
    assert(h[7].len() != "dependency_name"@.len());
    assert(h[8].len() != "dependency_name"@.len());
    assert(h[9].len() != "dependency_name"@.len());
    assert(h[10][0] != "dependency_name"@[0]);
    assert(h[11].len() != "dependency_name"@.len());
    assert(h[12].len() != "dependency_name"@.len());
    assert(h[13][0] != "dependency_name"@[0]);
    assert(h[14][0] != "dependency_name"@[0]);
    assert(h[15].len() != "dependency_name"@.len());
    assert(h[17].len() != "dependency_name"@.len());
    assert(h[18].len() != "dependency_name"@.len());
    assert(h[19].len() != "dependency_name"@.len());
    assert(h[0].len() != "dependency_version_spec"@.len());
    assert(h[1].len() != "dependency_version_spec"@.len());
    assert(h[2].len() != "dependency_version_spec"@.len());
    assert(h[3].len() != "dependency_version_spec"@.len());
    assert(h[4].len() != "dependency_version_spec"@.len());
    assert(h[5].len() != "dependency_version_spec"@.len());
    assert(h[6].len() != "dependency_version_spec"@.len());
    assert(h[7].len() != "dependency_version_spec"@.len());
    assert(h[8].len() != "dependency_version_spec"@.len());
    assert(h[9].len() != "dependency_version_spec"@.len());
    assert(h[10].len() != "dependency_version_spec"@.len());
    assert(h[11].len() != "dependency_version_spec"@.len());
    assert(h[12].len() != "dependency_version_spec"@.len());
    assert(h[13].len() != "dependency_version_spec"@.len());
    assert(h[14].len() != "dependency_version_spec"@.len());
    assert(h[15].len() != "dependency_version_spec"@.len());
    assert(h[16].len() != "dependency_version_spec"@.len());
    assert(h[18].len() != "dependency_version_spec"@.len());
    assert(h[19][11] != "dependency_version_spec"@[11]);
    assert(h[0].len() != "dependency_extra"@.len());
    assert(h[1].len() != "dependency_extra"@.len());
    assert(h[2].len() != "dependency_extra"@.len());
    assert(h[3].len() != "dependency_extra"@.len());
    assert(h[4].len() != "dependency_extra"@.len());
    assert(h[5].len() != "dependency_extra"@.len());
    assert(h[6].len() != "dependency_extra"@.len());
    assert(h[7].len() != "dependency_extra"@.len());
    assert(h[8].len() != "dependency_extra"@.len());
    assert(h[9].len() != "dependency_extra"@.len());
    assert(h[10].len() != "dependency_extra"@.len());
    assert(h[11].len() != "dependency_extra"@.len());
    assert(h[12].len() != "dependency_extra"@.len());
    assert(h[13].len() != "dependency_extra"@.len());
    assert(h[14].len() != "dependency_extra"@.len());
    assert(h[15].len() != "dependency_extra"@.len());
    assert(h[16].len() != "dependency_extra"@.len());
    assert(h[17].len() != "dependency_extra"@.len());
    assert(h[19].len() != "dependency_extra"@.len());
    assert(h[0].len() != "dependency_requires_raw"@.len());
    assert(h[1].len() != "dependency_requires_raw"@.len());
    assert(h[2].len() != "dependency_requires_raw"@.len());
    assert(h[3].len() != "dependency_requires_raw"@.len());
    assert(h[4].len() != "dependency_requires_raw"@.len());
    assert(h[5].len() != "dependency_requires_raw"@.len());
    assert(h[6].len() != "dependency_requires_raw"@.len());
    assert(h[7].len() != "dependency_requires_raw"@.len());
    assert(h[8].len() != "dependency_requires_raw"@.len());
    assert(h[9].len() != "dependency_requires_raw"@.len());
    assert(h[10].len() != "dependency_requires_raw"@.len());
    assert(h[11].len() != "dependency_requires_raw"@.len());
    assert(h[12].len() != "dependency_requires_raw"@.len());
    assert(h[13].len() != "dependency_requires_raw"@.len());
    assert(h[14].len() != "dependency_requires_raw"@.len());
    assert(h[15].len() != "dependency_requires_raw"@.len());
    assert(h[16].len() != "dependency_requires_raw"@.len());
    assert(h[17][11] != "dependency_requires_raw"@[11]);
    assert(h[18].len() != "dependency_requires_raw"@.len());
}

/// The pieces joined with `sep` between neighbours.
pub open spec fn join(parts: Seq<Seq<char>>, sep: Seq<char>) -> Seq<char>
    decreases parts.len(),
{
    if parts.len() == 0 {
        seq![]
    } else if parts.len() == 1 {
        parts[0]
    } else {
        join(parts.drop_last(), sep) + sep + parts.last()
    }
}

/// The CSV line of a row (without the line break).
pub open spec fn row_line(row: ExportRow) -> Seq<char> {
    join(row_values(row).map_values(|v: Seq<char>| csv_cell_text(v)), seq![','])
}

/// The lines of all rows, each followed by a line break.
pub open spec fn body_text(rows: Seq<ExportRow>) -> Seq<char>
    decreases rows.len(),
{
    if rows.len() == 0 {
        seq![]
    } else {
        body_text(rows.drop_last()) + row_line(rows.last()) + seq!['\n']
    }
}

/// The whole CSV document: the header line, then one line per row, each line
/// ending with a line break.
pub open spec fn csv_text(rows: Seq<ExportRow>) -> Seq<char> {
    join(export_header(), seq![',']) + seq!['\n'] + body_text(rows)
}

/// The export columns, in the order every CSV consumer relies on.
pub fn export_columns() -> (r: Vec<String>)
    ensures
        r.deep_view() == export_header(),
{
    let r = vec![
        "venv_id".to_owned(),
        "venv_path".to_owned(),
        "project_path".to_owned(),
        "python_version".to_owned(),
        "python_executable".to_owned(),
        "venv_name".to_owned(),
        "last_modified".to_owned(),
        "scanned_at".to_owned(),
        "config_files".to_owned(),
        "package_count".to_owned(),
        "venv_size_bytes".to_owned(),
        "package_id".to_owned(),
        "package_name".to_owned(),
        "package_version".to_owned(),
        "package_summary".to_owned(),
        "dependency_id".to_owned(),
        "dependency_name".to_owned(),
        "dependency_version_spec".to_owned(),
        "dependency_extra".to_owned(),
        "dependency_requires_raw".to_owned(),
    ];
    assert(r.deep_view() =~= export_header());
    r
}

/// An optional integer as text; empty when absent.
pub fn optional_to_string(value: Option<i64>) -> (r: String)
    ensures
        r@ == opt_int_text(value),
{
    match value {
        Some(v) => i64_text(v),
        None => String::new(),
    }
}

fn opt_string_or_empty(value: &Option<String>) -> (r: String)
    ensures
        r@ == opt_text(*value),
{
    match value {
        Some(s) => s.as_str().to_owned(),
        None => String::new(),
    }
}

/// The values of a row as text, in column order.
pub fn export_values(row: &ExportRow) -> (r: Vec<String>)
    ensures
        r.deep_view() == row_values(*row),
{
    let r = vec![
        i64_text(row.venv_id),
        row.venv_path.as_str().to_owned(),
        row.project_path.as_str().to_owned(),
        row.python_version.as_str().to_owned(),
        row.python_executable.as_str().to_owned(),
        row.venv_name.as_str().to_owned(),
        row.last_modified.as_str().to_owned(),
        row.scanned_at.as_str().to_owned(),
        row.config_files.as_str().to_owned(),
        i64_text(row.package_count),
        i64_text(row.venv_size_bytes),
        optional_to_string(row.package_id),
        opt_string_or_empty(&row.package_name),
        opt_string_or_empty(&row.package_version),
        opt_string_or_empty(&row.package_summary),
        optional_to_string(row.dependency_id),
        opt_string_or_empty(&row.dependency_name),
        opt_string_or_empty(&row.dependency_version_spec),
        opt_string_or_empty(&row.dependency_extra),
        opt_string_or_empty(&row.dependency_requires_raw),
    ];
    assert(r.deep_view() =~= row_values(*row));
    r
}

/// Appends the pieces joined by `sep` to `s`.
pub fn push_joined(s: &mut String, parts: &Vec<String>, sep: char)
    ensures
        final(s)@ == old(s)@ + join(parts.deep_view(), seq![sep]),
{
    let n = parts.len();
    let ghost ps = parts.deep_view();
    let mut i: usize = 0;
    while i < n
        invariant
            i <= n == parts.len(),
            ps == parts.deep_view(),
            s@ == old(s)@ + join(ps.subrange(0, i as int), seq![sep]),
        decreases n - i,
    {
        let ghost before = s@;
        if i > 0 {
            push_char(s, sep);
        }
        s.append(parts[i].as_str());
        proof {
            let pre = ps.subrange(0, i + 1);
            assert(pre.drop_last() =~= ps.subrange(0, i as int));
            if i == 0 {
                assert(join(pre, seq![sep]) == pre[0]);
            }
            assert(s@ =~= old(s)@ + join(pre, seq![sep]));
        }
        i += 1;
    }
    assert(ps.subrange(0, n as int) =~= ps);
}

/// The CSV line of one row (without the line break).
fn csv_line(row: &ExportRow) -> (r: String)
    ensures
        r@ == row_line(*row),
{
    let values = export_values(row);
    let mut cells: Vec<String> = Vec::new();
    let n = values.len();
    let mut i: usize = 0;
    while i < n
        invariant
            i <= n == values.len(),
            values.deep_view() == row_values(*row),
            cells.deep_view() == values.deep_view().subrange(0, i as int).map_values(
                |v: Seq<char>| csv_cell_text(v),
            ),
        decreases n - i,
    {
        let ghost before = cells.deep_view();
        let cell = csv_cell(values[i].as_str().to_owned());
        assert(cell@ == csv_cell_text(values.deep_view()[i as int]));
        cells.push(cell);
        assert(cells.deep_view() =~= before.push(cell@));
        assert(cells.deep_view() =~= values.deep_view().subrange(0, i + 1).map_values(
            |v: Seq<char>| csv_cell_text(v),
        ));
        i += 1;
    }
    assert(values.deep_view().subrange(0, n as int) =~= values.deep_view());
    let mut out = String::new();
    push_joined(&mut out, &cells, ',');
    assert(Seq::<char>::empty() + row_line(*row) =~= row_line(*row));
    out
}

/// Renders rows as CSV: the header line, then one line per row, each line
/// ending with a line break.
pub fn rows_to_csv(rows: &[ExportRow]) -> (r: String)
    ensures
        r@ == csv_text(rows@),
{
    let mut out = String::new();
    let columns = export_columns();
    push_joined(&mut out, &columns, ',');
    push_char(&mut out, '\n');
    let ghost head = out@;
    assert(head =~= join(export_header(), seq![',']) + seq!['\n']);
    let n = rows.len();
    let mut i: usize = 0;
    while i < n
        invariant
            i <= n == rows@.len(),
            head == join(export_header(), seq![',']) + seq!['\n'],
            out@ == head + body_text(rows@.subrange(0, i as int)),
        decreases n - i,
    {
        let line = csv_line(&rows[i]);
        out.append(line.as_str());
        push_char(&mut out, '\n');
        proof {
            let pre = rows@.subrange(0, i + 1);
            assert(pre.drop_last() =~= rows@.subrange(0, i as int));
            assert(out@ =~= head + body_text(pre));
        }
        i += 1;
    }
    assert(rows@.subrange(0, n as int) =~= rows@);
    out
}

/// The CSV export always begins with the header line.
pub proof fn lemma_csv_starts_with_header(rows: Seq<ExportRow>)
    ensures
        ({
            let h = join(export_header(), seq![',']) + seq!['\n'];
            csv_text(rows).subrange(0, h.len() as int) == h
        }),
{
    let h = join(export_header(), seq![',']) + seq!['\n'];
    assert(csv_text(rows).subrange(0, h.len() as int) =~= h);
}

// ── Reading the export back ────────────────────────────────────────────────

/// A CSV reader (RFC 4180): fields are separated by `,`, records end at a line
/// break; a field that starts with `"` runs to the next lone `"`, with `""`
/// standing for one `"` and commas and line breaks inside taken literally.
/// `field` is the field being read, `quoted` whether it is inside quotes,
/// `fields` the finished fields of the current record, `records` the finished
/// records.
pub open spec fn read_csv_from(
    t: Seq<char>,
    field: Seq<char>,
    quoted: bool,
    fields: Seq<Seq<char>>,
    records: Seq<Seq<Seq<char>>>,
) -> Seq<Seq<Seq<char>>>
    decreases t.len(),
{
    if t.len() == 0 {
        if field.len() == 0 && fields.len() == 0 {
            records
        } else {
            records.push(fields.push(field))
        }
    } else if quoted {
        if t[0] == '"' {
            if t.len() >= 2 && t[1] == '"' {
                read_csv_from(t.skip(2), field.push('"'), true, fields, records)
            } else {
                read_csv_from(t.skip(1), field, false, fields, records)
            }
        } else {
            read_csv_from(t.skip(1), field.push(t[0]), true, fields, records)
        }
    } else if t[0] == ',' {
        read_csv_from(t.skip(1), seq![], false, fields.push(field), records)
    } else if t[0] == '\n' {
        read_csv_from(t.skip(1), seq![], false, seq![], records.push(fields.push(field)))
    } else if t[0] == '"' && field.len() == 0 {
        read_csv_from(t.skip(1), field, true, fields, records)
    } else {
        read_csv_from(t.skip(1), field.push(t[0]), false, fields, records)
    }
}

/// The records of a CSV text.
pub open spec fn read_csv(t: Seq<char>) -> Seq<Seq<Seq<char>>> {
    read_csv_from(t, seq![], false, seq![], seq![])
}

/// What may follow a cell: nothing, a comma or a line break.
pub open spec fn ends_cell(tt: Seq<char>) -> bool {
    tt.len() == 0 || tt[0] == ',' || tt[0] == '\n'
}

proof fn lemma_read_plain(
    v: Seq<char>,
    tt: Seq<char>,
    field: Seq<char>,
    fields: Seq<Seq<char>>,
    records: Seq<Seq<Seq<char>>>,
)
    requires
        !needs_quotes(v),
        field.len() > 0 || v.len() == 0 || v[0] != '"',
    ensures
        read_csv_from(v + tt, field, false, fields, records) == read_csv_from(
            tt,
            field + v,
            false,
            fields,
            records,
        ),
    decreases v.len(),
{
    if v.len() > 0 {
        let rest = v.drop_first();
        assert((v + tt).skip(1) =~= rest + tt);
        assert((v + tt)[0] == v[0]);
        assert(!csv_special(v[0]));
        assert(!needs_quotes(rest)) by {
            if needs_quotes(rest) {
                let i = choose|i: int| 0 <= i < rest.len() && csv_special(#[trigger] rest[i]);
                assert(v[i + 1] == rest[i]);
            }
        }
        lemma_read_plain(rest, tt, field.push(v[0]), fields, records);
        assert(field.push(v[0]) + rest =~= field + v);
    } else {
        assert(v + tt =~= tt);
        assert(field + v =~= field);
    }
}

proof fn lemma_read_quoted(
    v: Seq<char>,
    tt: Seq<char>,
    field: Seq<char>,
    fields: Seq<Seq<char>>,
    records: Seq<Seq<Seq<char>>>,
)
    requires
        ends_cell(tt),
    ensures
        read_csv_from(double_quotes(v) + seq!['"'] + tt, field, true, fields, records)
            == read_csv_from(tt, field + v, false, fields, records),
    decreases v.len(),
{
    let t = double_quotes(v) + seq!['"'] + tt;
    if v.len() == 0 {
        assert(t =~= seq!['"'] + tt);
        assert(t.skip(1) =~= tt);
        assert(field + v =~= field);
    } else {
        let rest = v.drop_first();
        lemma_read_quoted(rest, tt, field.push(v[0]), fields, records);
        assert(field.push(v[0]) + rest =~= field + v);
        if v[0] == '"' {
            assert(t =~= seq!['"', '"'] + (double_quotes(rest) + seq!['"'] + tt));
            assert(t.skip(2) =~= double_quotes(rest) + seq!['"'] + tt);
        } else {
            assert(t =~= seq![v[0]] + (double_quotes(rest) + seq!['"'] + tt));
            assert(t.skip(1) =~= double_quotes(rest) + seq!['"'] + tt);
        }
    }
}

/// Reading one cell, from the start of a field, gives back its value.
proof fn lemma_read_cell(
    v: Seq<char>,
    tt: Seq<char>,
    fields: Seq<Seq<char>>,
    records: Seq<Seq<Seq<char>>>,
)
    requires
        ends_cell(tt),
    ensures
        read_csv_from(csv_cell_text(v) + tt, seq![], false, fields, records) == read_csv_from(
            tt,
            v,
            false,
            fields,
            records,
        ),
{
    if needs_quotes(v) {
        let t = csv_cell_text(v) + tt;
        assert(t =~= seq!['"'] + (double_quotes(v) + seq!['"'] + tt));
        assert(t.skip(1) =~= double_quotes(v) + seq!['"'] + tt);
        lemma_read_quoted(v, tt, seq![], fields, records);
        assert(Seq::<char>::empty() + v =~= v);
    } else {
        if v.len() > 0 && v[0] == '"' {
            assert(csv_special(v[0]));
        }
        lemma_read_plain(v, tt, seq![], fields, records);
        assert(Seq::<char>::empty() + v =~= v);
    }
}

/// `join` seen from the front.
proof fn lemma_join_front(parts: Seq<Seq<char>>, sep: Seq<char>)
    requires
        parts.len() >= 2,
    ensures
        join(parts, sep) == parts[0] + sep + join(parts.drop_first(), sep),
    decreases parts.len(),
{
    let df = parts.drop_first();
    if parts.len() > 2 {
        lemma_join_front(parts.drop_last(), sep);
        assert(parts.drop_last().drop_first() =~= df.drop_last());
        assert(df.last() == parts.last());
        assert(parts.drop_last()[0] == parts[0]);
        assert(join(df, sep) == join(df.drop_last(), sep) + sep + df.last());
        assert(join(parts, sep) == join(parts.drop_last(), sep) + sep + parts.last());
        assert(join(parts, sep) =~= parts[0] + sep + join(df, sep));
    } else {
        assert(parts.drop_last() =~= seq![parts[0]]);
        assert(df =~= seq![parts[1]]);
        assert(join(parts.drop_last(), sep) == parts[0]);
        assert(join(df, sep) == parts[1]);
        assert(join(parts, sep) =~= parts[0] + sep + join(df, sep));
    }
}

/// Reading a line of cells gives back the values, as the fields of the record.
proof fn lemma_read_line(
    vals: Seq<Seq<char>>,
    tt: Seq<char>,
    fields: Seq<Seq<char>>,
    records: Seq<Seq<Seq<char>>>,
)
    requires
        vals.len() >= 1,
        tt.len() == 0 || tt[0] == '\n',
    ensures
        read_csv_from(
            join(vals.map_values(|v: Seq<char>| csv_cell_text(v)), seq![',']) + tt,
            seq![],
            false,
            fields,
            records,
        ) == read_csv_from(tt, vals.last(), false, fields + vals.drop_last(), records),
    decreases vals.len(),
{
    let cells = vals.map_values(|v: Seq<char>| csv_cell_text(v));
    if vals.len() == 1 {
        assert(join(cells, seq![',']) == cells[0]);
        lemma_read_cell(vals[0], tt, fields, records);
        assert(fields + vals.drop_last() =~= fields);
    } else {
        lemma_join_front(cells, seq![',']);
        let rest_vals = vals.drop_first();
        let rest_cells = rest_vals.map_values(|v: Seq<char>| csv_cell_text(v));
        assert(cells.drop_first() =~= rest_cells);
        let after = seq![','] + join(rest_cells, seq![',']) + tt;
        assert(join(cells, seq![',']) + tt =~= cells[0] + after);
        lemma_read_cell(vals[0], after, fields, records);
        assert(after.skip(1) =~= join(rest_cells, seq![',']) + tt);
        lemma_read_line(rest_vals, tt, fields.push(vals[0]), records);
        assert(fields.push(vals[0]) + rest_vals.drop_last() =~= fields + vals.drop_last());
        assert(rest_vals.last() == vals.last());
    }
}

/// `body_text` seen from the front.
proof fn lemma_body_front(rows: Seq<ExportRow>)
    requires
        rows.len() >= 1,
    ensures
        body_text(rows) == row_line(rows[0]) + seq!['\n'] + body_text(rows.drop_first()),
    decreases rows.len(),
{
    let df = rows.drop_first();
    if rows.len() > 1 {
        lemma_body_front(rows.drop_last());
        assert(rows.drop_last().drop_first() =~= df.drop_last());
        assert(df.last() == rows.last());
        assert(rows.drop_last()[0] == rows[0]);
        assert(body_text(df) == body_text(df.drop_last()) + row_line(df.last()) + seq!['\n']);
        assert(body_text(rows) == body_text(rows.drop_last()) + row_line(rows.last()) + seq![
            '\n',
        ]);
        assert(body_text(rows) =~= row_line(rows[0]) + seq!['\n'] + body_text(df));
    } else {
        assert(rows.drop_last().len() == 0);
        assert(df.len() == 0);
        assert(body_text(rows.drop_last()) == Seq::<char>::empty());
        assert(body_text(df) == Seq::<char>::empty());
        assert(body_text(rows) =~= row_line(rows[0]) + seq!['\n'] + body_text(df));
    }
}

/// Reading the row lines gives one record per row, with the row's values.
proof fn lemma_read_body(rows: Seq<ExportRow>, records: Seq<Seq<Seq<char>>>)
    ensures
        read_csv_from(body_text(rows), seq![], false, seq![], records) == records + rows.map_values(
            |r: ExportRow| row_values(r),
        ),
    decreases rows.len(),
{
    if rows.len() == 0 {
        assert(records + rows.map_values(|r: ExportRow| row_values(r)) =~= records);
    } else {
        lemma_body_front(rows);
        let vals = row_values(rows[0]);
        let rest = body_text(rows.drop_first());
        let tt = seq!['\n'] + rest;
        assert(body_text(rows) =~= row_line(rows[0]) + tt);
        lemma_read_line(vals, tt, seq![], records);
        assert(tt.skip(1) =~= rest);
        assert(Seq::<Seq<char>>::empty() + vals.drop_last() =~= vals.drop_last());
        assert(vals.drop_last().push(vals.last()) =~= vals);
        lemma_read_body(rows.drop_first(), records.push(vals));
        assert(records.push(vals) + rows.drop_first().map_values(|r: ExportRow| row_values(r))
            =~= records + rows.map_values(|r: ExportRow| row_values(r)));
    }
}

proof fn lemma_header_cells_plain()
    ensures
        export_header().map_values(|v: Seq<char>| csv_cell_text(v)) == export_header(),
{
    reveal_strlit("venv_id");
    reveal_strlit("venv_path");
    reveal_strlit("project_path");
    reveal_strlit("python_version");
    reveal_strlit("python_executable");
    reveal_strlit("venv_name");
    reveal_strlit("last_modified");
    reveal_strlit("scanned_at");
    reveal_strlit("config_files");
    reveal_strlit("package_count");
    reveal_strlit("venv_size_bytes");
    reveal_strlit("package_id");
    reveal_strlit("package_name");
    reveal_strlit("package_version");
    reveal_strlit("package_summary");
    reveal_strlit("dependency_id");
    reveal_strlit("dependency_name");
    reveal_strlit("dependency_version_spec");
    reveal_strlit("dependency_extra");
    reveal_strlit("dependency_requires_raw");
    let h = export_header();
    assert forall|i: int| 0 <= i < h.len() implies !needs_quotes(#[trigger] h[i]) by {
        if needs_quotes(h[i]) {
            let j = choose|j: int| 0 <= j < h[i].len() && csv_special(#[trigger] h[i][j]);
        }
    }
    assert(h.map_values(|v: Seq<char>| csv_cell_text(v)) =~= h);
}

/// A CSV reader reads the export back as the header record followed by one
/// record per row holding exactly that row's values, in column order, whatever
/// commas, quotes or line breaks the values contain.
pub proof fn lemma_csv_reads_back(rows: Seq<ExportRow>)
    ensures
        read_csv(csv_text(rows)) == seq![export_header()] + rows.map_values(
            |r: ExportRow| row_values(r),
        ),
{
    lemma_header_cells_plain();
    let h = export_header();
    let body = body_text(rows);
    let tt = seq!['\n'] + body;
    assert(csv_text(rows) =~= join(h.map_values(|v: Seq<char>| csv_cell_text(v)), seq![','])
        + tt);
    lemma_read_line(h, tt, seq![], seq![]);
    assert(tt.skip(1) =~= body);
    assert(Seq::<Seq<char>>::empty() + h.drop_last() =~= h.drop_last());
    assert(h.drop_last().push(h.last()) =~= h);
    lemma_read_body(rows, seq![].push(h));
    assert(Seq::<Seq<Seq<char>>>::empty().push(h) =~= seq![h]);
}

// ── Export files ───────────────────────────────────────────────────────────

/// Where an export goes.
pub enum ExportTarget {
    /// Standard output (the path `-`).
    Stdout,
    /// The given file.
    File(String),
    /// A new file named after the current time.
    Timestamped,
}

/// Where `output` sends an export: `-` means standard output, any other path a
/// file, and no path a timestamped file.
pub fn export_target(output: Option<String>) -> (r: ExportTarget)
    ensures
        match output {
            Some(p) => if p@ == "-"@ {
                r is Stdout
            } else {
                r == ExportTarget::File(p)
            },
            None => r is Timestamped,
        },
{
    match output {
        Some(p) => if str_eq(p.as_str(), "-") {
            ExportTarget::Stdout
        } else {
            ExportTarget::File(p)
        },
        None => ExportTarget::Timestamped,
    }
}

pub open spec fn export_file_prefix() -> Seq<char> {
    "sheepdog-consolidated-"@
}

/// The local time written into an export file's name: `YYYY-MM-DDTHH-MM-SS`,
/// each field zero-padded.
pub open spec fn timestamp_text(year: nat, month: nat, day: nat, hour: nat, minute: nat, second: nat) -> Seq<
    char,
> {
    padded(year, 4) + seq!['-'] + padded(month, 2) + seq!['-'] + padded(day, 2) + seq!['T']
        + padded(hour, 2) + seq!['-'] + padded(minute, 2) + seq!['-'] + padded(second, 2)
}

/// The timestamp of an export file name for the given local date and time.
pub fn export_timestamp(year: u32, month: u32, day: u32, hour: u32, minute: u32, second: u32) -> (r:
    String)
    requires
        year <= 9999,
        1 <= month <= 12,
        1 <= day <= 31,
        hour <= 23,
        minute <= 59,
        second <= 60,
    ensures
        r@ == timestamp_text(
            year as nat,
            month as nat,
            day as nat,
            hour as nat,
            minute as nat,
            second as nat,
        ),
{
    let mut s = String::new();
    push_padded(&mut s, year as u64, 4);
    push_char(&mut s, '-');
    push_padded(&mut s, month as u64, 2);
    push_char(&mut s, '-');
    push_padded(&mut s, day as u64, 2);
    push_char(&mut s, 'T');
    push_padded(&mut s, hour as u64, 2);
    push_char(&mut s, '-');
    push_padded(&mut s, minute as u64, 2);
    push_char(&mut s, '-');
    push_padded(&mut s, second as u64, 2);
    assert(s@ =~= timestamp_text(
        year as nat,
        month as nat,
        day as nat,
        hour as nat,
        minute as nat,
        second as nat,
    ));
    s
}

/// The name of a timestamped export file.
pub fn export_file_name(timestamp: &str, format: ExportFormat) -> (r: String)
    ensures
        r@ == export_file_prefix() + timestamp@ + seq!['.'] + extension_of(format),
{
    let mut s = "sheepdog-consolidated-".to_owned();
    s.append(timestamp);
    push_char(&mut s, '.');
    s.append(format.extension());
    s
}

/// The message printed after writing an export file.
pub fn export_message(rows: usize, path: &str) -> (r: String)
    ensures
        r@ == "Exported "@ + dec_nat(rows as nat) + " rows to "@ + path@,
{
    let mut s = "Exported ".to_owned();
    push_decimal(&mut s, rows as u64);
    s.append(" rows to ");
    s.append(path);
    s
}

} // verus!
