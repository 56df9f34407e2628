//! Plain-text tables for the terminal.
//!
//! Each column is as wide as the longest header or cell in it, measured in
//! UTF-8 bytes; cells are left-aligned and padded with spaces up to that width
//! counted in characters (as `{:<width$}` does); columns are separated by two
//! spaces and the header is underlined with dashes.
use vstd::prelude::*;
use crate::text::{chars_of, push_char};

verus! {

broadcast use vstd::string::group_string_axioms;

/// A row of `cells` shows `value` under the column headed `name`: the row has a
/// cell for each header, some header is `name`, and every column headed `name`
/// holds `value`.
pub open spec fn shows_under(
    headers: Seq<Seq<char>>,
    cells: Seq<Seq<char>>,
    name: Seq<char>,
    value: Seq<char>,
) -> bool {
    &&& cells.len() == headers.len()
    &&& headers.contains(name)
    &&& forall|j: int| 0 <= j < headers.len() && headers[j] == name ==> cells[j] == value
}

/// The length of a text in UTF-8 bytes (what `str::len` gives).
pub open spec fn byte_len(s: Seq<char>) -> usize {
    vstd::utf8::encode_utf8(s).len() as usize
}

/// Width of column `j` after the header and the given rows.
pub open spec fn column_width(headers: Seq<Seq<char>>, rows: Seq<Seq<Seq<char>>>, j: int) -> usize
    decreases rows.len(),
{
    if rows.len() == 0 {
        byte_len(headers[j])
    } else {
        let w = column_width(headers, rows.drop_last(), j);
        let r = rows.last();
        if j < r.len() && byte_len(r[j]) > w {
            byte_len(r[j])
        } else {
            w
        }
    }
}

pub open spec fn spaces(n: nat) -> Seq<char> {
    Seq::new(n, |i: int| ' ')
}

pub open spec fn dashes(n: nat) -> Seq<char> {
    Seq::new(n, |i: int| '-')
}

/// A cell padded with spaces to `width` characters.
pub open spec fn padded(cell: Seq<char>, width: nat) -> Seq<char> {
    if cell.len() < width {
        cell + spaces((width - cell.len()) as nat)
    } else {
        cell
    }
}

/// One line of a table, without its line break.
pub open spec fn table_row(cells: Seq<Seq<char>>, widths: Seq<usize>) -> Seq<char>
    decreases cells.len(),
{
    if cells.len() == 0 {
        seq![]
    } else {
        let i = cells.len() - 1;
        table_row(cells.drop_last(), widths) + (if i > 0 {
            seq![' ', ' ']
        } else {
            seq![]
        }) + padded(cells[i], widths[i] as nat)
    }
}

/// The dash cells that underline the header.
pub open spec fn rule_cells(widths: Seq<usize>) -> Seq<Seq<char>> {
    widths.map_values(|w: usize| dashes(w as nat))
}

/// The lines of the data rows, each followed by a line break.
pub open spec fn data_rows(rows: Seq<Seq<Seq<char>>>, widths: Seq<usize>) -> Seq<char>
    decreases rows.len(),
{
    if rows.len() == 0 {
        seq![]
    } else {
        data_rows(rows.drop_last(), widths) + table_row(rows.last(), widths) + seq!['\n']
    }
}

pub open spec fn no_results() -> Seq<char> {
    "No results.\n"@
}

/// The widths of all columns.
pub open spec fn column_widths(headers: Seq<Seq<char>>, rows: Seq<Seq<Seq<char>>>) -> Seq<usize> {
    Seq::new(headers.len(), |j: int| column_width(headers, rows, j))
}

/// The text of a table with these headers and rows.
pub open spec fn table_text(headers: Seq<Seq<char>>, rows: Seq<Seq<Seq<char>>>) -> Seq<char> {
    if rows.len() == 0 {
        no_results()
    } else {
        let w = column_widths(headers, rows);
        table_row(headers, w) + seq!['\n'] + table_row(rule_cells(w), w) + seq!['\n'] + data_rows(
            rows,
            w,
        )
    }
}

/// Rows that fit under the headers (no row has more cells than there are headers).
pub open spec fn rows_fit(headers: Seq<Seq<char>>, rows: Seq<Seq<Seq<char>>>) -> bool {
    forall|i: int| 0 <= i < rows.len() ==> (#[trigger] rows[i]).len() <= headers.len()
}

/// Appends `cell` padded with spaces to `width` characters.
fn push_padded(s: &mut String, cell: &str, width: usize)
    ensures
        final(s)@ == old(s)@ + padded(cell@, width as nat),
{
    let chars = chars_of(cell);
    s.append(cell);
    let n = chars.len();
    if n < width {
        let mut k = n;
        while k < width
            invariant
                n <= k <= width,
                n == cell@.len(),
                s@ == old(s)@ + cell@ + spaces((k - n) as nat),
            decreases width - k,
        {
            push_char(s, ' ');
            k += 1;
            assert(s@ =~= old(s)@ + cell@ + spaces((k - n) as nat));
        }
    } else {
        assert(s@ == old(s)@ + padded(cell@, width as nat));
    }
}

/// Appends one table line (without line break).
fn push_row(s: &mut String, cells: &Vec<String>, widths: &Vec<usize>)
    requires
        cells.len() <= widths.len(),
    ensures
        final(s)@ == old(s)@ + table_row(cells.deep_view(), widths@),
{
    let n = cells.len();
    let ghost cs = cells.deep_view();
    let mut i: usize = 0;
    while i < n
        invariant
            i <= n == cells.len() <= widths.len(),
            cs == cells.deep_view(),
            s@ == old(s)@ + table_row(cs.subrange(0, i as int), widths@),
        decreases n - i,
    {
        let ghost before = s@;
        if i > 0 {
            push_char(s, ' ');
            push_char(s, ' ');
        }
        push_padded(s, cells[i].as_str(), widths[i]);
        proof {
            let pre = cs.subrange(0, i + 1);
            assert(pre.drop_last() =~= cs.subrange(0, i as int));
            assert(pre[i as int] == cells@[i as int]@);
            assert(s@ =~= old(s)@ + table_row(pre, widths@));
        }
        i += 1;
    }
    assert(cs.subrange(0, n as int) =~= cs);
}

/// Appends the dash line that underlines the header (without line break).
fn push_rule(s: &mut String, widths: &Vec<usize>)
    ensures
        final(s)@ == old(s)@ + table_row(rule_cells(widths@), widths@),
{
    let n = widths.len();
    let ghost cs = rule_cells(widths@);
    let mut i: usize = 0;
    while i < n
        invariant
            i <= n == widths.len(),
            cs == rule_cells(widths@),
            s@ == old(s)@ + table_row(cs.subrange(0, i as int), widths@),
        decreases n - i,
    {
        if i > 0 {
            push_char(s, ' ');
            push_char(s, ' ');
        }
        let w = widths[i];
        let ghost mid = s@;
        let mut k: usize = 0;
        while k < w
            invariant
                k <= w,
                s@ == mid + dashes(k as nat),
            decreases w - k,
        {
            push_char(s, '-');
            k += 1;
            assert(s@ =~= mid + dashes(k as nat));
        }
        proof {
            let pre = cs.subrange(0, i + 1);
            assert(pre.drop_last() =~= cs.subrange(0, i as int));
            assert(pre[i as int] == dashes(w as nat));
            assert(padded(dashes(w as nat), w as nat) == dashes(w as nat));
            assert(s@ =~= old(s)@ + table_row(pre, widths@));
        }
        i += 1;
    }
    assert(cs.subrange(0, n as int) =~= cs);
}

/// The column widths for `headers` and `rows`.
fn widths_of(headers: &Vec<String>, rows: &Vec<Vec<String>>) -> (w: Vec<usize>)
    requires
        rows_fit(headers.deep_view(), rows.deep_view()),
    ensures
        w@ == column_widths(headers.deep_view(), rows.deep_view()),
{
    let ghost hs = headers.deep_view();
    let ghost rs = rows.deep_view();
    let h = headers.len();
    let mut w: Vec<usize> = Vec::new();
    let mut j: usize = 0;
    while j < h
        invariant
            j <= h == headers.len(),
            hs == headers.deep_view(),
            w@.len() == j,
            forall|k: int| 0 <= k < j ==> w@[k] == column_width(hs, rs.subrange(0, 0), k),
        decreases h - j,
    {
        w.push(headers[j].as_str().len());
        j += 1;
    }
    let n = rows.len();
    let mut i: usize = 0;
    while i < n
        invariant
            i <= n == rows.len(),
            hs == headers.deep_view(),
            rs == rows.deep_view(),
            rows_fit(hs, rs),
            w@.len() == h == hs.len(),
            forall|k: int| 0 <= k < h ==> w@[k] == column_width(hs, rs.subrange(0, i as int), k),
        decreases n - i,
    {
        let row = &rows[i];
        let m = row.len();
        assert(rs[i as int].len() <= h);
        let ghost prev = w@;
        let mut k: usize = 0;
        while k < m
            invariant
                k <= m == row.len() <= h,
                i < n == rows.len(),
                row == rows@[i as int],
                w@.len() == h,
                prev.len() == h,
                forall|x: int| k <= x < h ==> w@[x] == prev[x],
                forall|x: int|
                    0 <= x < k ==> w@[x] == (if byte_len(row@[x]@) > prev[x] {
                        byte_len(row@[x]@)
                    } else {
                        prev[x]
                    }),
            decreases m - k,
        {
            let len = row[k].as_str().len();
            if len > w[k] {
                w.set(k, len);
            }
            k += 1;
        }
        proof {
            let pre = rs.subrange(0, i + 1);
            assert(pre.drop_last() =~= rs.subrange(0, i as int));
            assert(pre.last() == rs[i as int]);
            assert forall|x: int| 0 <= x < h implies w@[x] == column_width(hs, pre, x) by {
                if x < m {
                    assert(rs[i as int][x] == row@[x]@);
                }
            }
        }
        i += 1;
    }
    assert(rs.subrange(0, n as int) =~= rs);
    assert(w@ =~= column_widths(hs, rs));
    w
}

/// Renders a table; `No results.` when there are no rows.
pub fn render_table(headers: &Vec<String>, rows: &Vec<Vec<String>>) -> (r: String)
    requires
        rows_fit(headers.deep_view(), rows.deep_view()),
    ensures
        r@ == table_text(headers.deep_view(), rows.deep_view()),
{
    let mut s = String::new();
    if rows.len() == 0 {
        s.append("No results.\n");
        assert(s@ =~= no_results());
        return s;
    }
    let widths = widths_of(headers, rows);
    push_row(&mut s, headers, &widths);
    push_char(&mut s, '\n');
    push_rule(&mut s, &widths);
    push_char(&mut s, '\n');
    let ghost head = s@;
    let ghost rs = rows.deep_view();
    let n = rows.len();
    let mut i: usize = 0;
    while i < n
        invariant
            i <= n == rows.len(),
            rs == rows.deep_view(),
            rows_fit(headers.deep_view(), rs),
            widths@.len() == headers.len(),
            s@ == head + data_rows(rs.subrange(0, i as int), widths@),
        decreases n - i,
    {
        assert(rs[i as int].len() <= headers.len());
        assert(rows@[i as int].deep_view() == rs[i as int]);
        push_row(&mut s, &rows[i], &widths);
        push_char(&mut s, '\n');
        proof {
            let pre = rs.subrange(0, i + 1);
            assert(pre.drop_last() =~= rs.subrange(0, i as int));
            assert(s@ =~= head + data_rows(pre, widths@));
        }
        i += 1;
    }
    assert(rs.subrange(0, n as int) =~= rs);
    s
}

} // verus!
