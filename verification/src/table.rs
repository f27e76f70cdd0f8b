use vstd::prelude::*;
use crate::text::{chars_of, joined, lemma_joined_push};

verus! {

/// The text of every cell, row by row.
pub open spec fn cell_texts(rows: Seq<Vec<String>>) -> Seq<Seq<Seq<char>>> {
    rows.map_values(|r: Vec<String>| r@.map_values(|s: String| s@))
}

/// Width of column `j`: the widest of `start` and of the column's cells
/// (counted in characters) over the given rows.
pub open spec fn col_width(start: int, cells: Seq<Seq<Seq<char>>>, j: int) -> int
    decreases cells.len(),
{
    if cells.len() == 0 {
        start
    } else {
        let w = col_width(start, cells.drop_last(), j);
        let r = cells.last();
        if j < r.len() && r[j].len() > w {
            r[j].len() as int
        } else {
            w
        }
    }
}

/// Each column is as wide as its header (counted in bytes) or its widest
/// cell (counted in characters), whichever is wider.
pub open spec fn column_widths(headers: Seq<&str>, cells: Seq<Seq<Seq<char>>>) -> Seq<int> {
    Seq::new(headers.len(), |j: int| col_width(headers[j].len() as int, cells, j))
}

/// `s` filled with spaces on the right up to `w` characters.
pub open spec fn padded(s: Seq<char>, w: int) -> Seq<char> {
    if s.len() < w {
        s + Seq::new((w - s.len()) as nat, |i: int| ' ')
    } else {
        s
    }
}

/// A rule of `w` dashes.
pub open spec fn dashes(w: int) -> Seq<char> {
    Seq::new(w as nat, |i: int| '-')
}

/// One line of the table: the cells, each padded to its column's width,
/// two spaces apart.
pub open spec fn render_cells(cells: Seq<Seq<char>>, widths: Seq<int>) -> Seq<char> {
    joined(Seq::new(cells.len(), |j: int| padded(cells[j], widths[j])), "  "@)
}

/// The lines of a table: a header line, a rule of dashes under each
/// column, then one line per row; or a single "(no rows)" line when there
/// are no rows.
pub open spec fn table_lines(headers: Seq<&str>, rows: Seq<Vec<String>>) -> Seq<Seq<char>> {
    if rows.len() == 0 {
        seq!["(no rows)"@]
    } else {
        let cells = cell_texts(rows);
        let w = column_widths(headers, cells);
        seq![
            render_cells(headers.map_values(|h: &str| h@), w),
            joined(Seq::new(headers.len(), |j: int| dashes(w[j])), "  "@),
        ] + cells.map_values(|r: Seq<Seq<char>>| render_cells(r, w))
    }
}

proof fn lemma_col_width_step(start: int, cells: Seq<Seq<Seq<char>>>, i: int, j: int)
    requires
        0 <= i < cells.len(),
    ensures
        col_width(start, cells.take(i + 1), j) == {
            let w = col_width(start, cells.take(i), j);
            if j < cells[i].len() && cells[i][j].len() > w {
                cells[i][j].len() as int
            } else {
                w
            }
        },
{
    assert(cells.take(i + 1).drop_last() =~= cells.take(i));
}

proof fn lemma_col_width_bounds(start: int, cells: Seq<Seq<Seq<char>>>, j: int, k: int)
    requires
        0 <= k < cells.len(),
        j < cells[k].len(),
    ensures
        col_width(start, cells, j) >= cells[k][j].len(),
    decreases cells.len(),
{
    if k < cells.len() - 1 {
        assert(cells.drop_last()[k] == cells[k]);
        lemma_col_width_bounds(start, cells.drop_last(), j, k);
    }
}

/// Sum of a sequence of widths.
pub open spec fn width_sum(ws: Seq<int>) -> int
    decreases ws.len(),
{
    if ws.len() == 0 {
        0
    } else {
        width_sum(ws.drop_last()) + ws.last()
    }
}

proof fn lemma_joined_len(parts: Seq<Seq<char>>, sep: Seq<char>, ws: Seq<int>)
    requires
        parts.len() == ws.len(),
        parts.len() > 0,
        forall|j: int| 0 <= j < parts.len() ==> (#[trigger] parts[j]).len() == ws[j],
    ensures
        joined(parts, sep).len() == width_sum(ws) + sep.len() * (parts.len() - 1),
    decreases parts.len(),
{
    if parts.len() == 1 {
        assert(ws.drop_last() =~= Seq::<int>::empty());
        assert(width_sum(ws.drop_last()) == 0);
        assert(width_sum(ws) == ws[0]);
        assert(joined(parts, sep) == parts[0]);
        assert(sep.len() * (parts.len() - 1) == 0);
    } else {
        assert forall|j: int| 0 <= j < parts.drop_last().len() implies (#[trigger] parts.drop_last()[j]).len()
            == ws.drop_last()[j] by {
            assert(parts.drop_last()[j] == parts[j]);
        }
        lemma_joined_len(parts.drop_last(), sep, ws.drop_last());
        assert(joined(parts, sep) == joined(parts.drop_last(), sep) + sep + parts.last());
        assert(parts.last().len() == ws.last());
        assert(sep.len() * (parts.len() - 1) == sep.len() * (parts.len() - 2) + sep.len())
            by (nonlinear_arith);
    }
}

/// A data row with a cell in every column is exactly as long as the rule
/// under the headers: the columns line up.
pub proof fn lemma_full_rows_align(headers: Seq<&str>, rows: Seq<Vec<String>>, r: int)
    requires
        0 <= r < rows.len(),
        rows[r]@.len() == headers.len(),
        headers.len() > 0,
    ensures
        table_lines(headers, rows)[r + 2].len() == table_lines(headers, rows)[1].len(),
{
    let cells = cell_texts(rows);
    let w = column_widths(headers, cells);
    let row = cells[r];
    assert(row.len() == headers.len());
    assert forall|j: int| 0 <= j < w.len() implies w[j] >= 0 && row[j].len() <= w[j] by {
        lemma_col_width_bounds(headers[j].len() as int, cells, j, r);
        assert(col_width(headers[j].len() as int, cells, j) >= 0) by {
            lemma_col_width_nonneg(headers[j].len() as int, cells, j);
        }
    }
    let row_parts = Seq::new(row.len(), |j: int| padded(row[j], w[j]));
    let rule_parts = Seq::new(headers.len(), |j: int| dashes(w[j]));
    assert forall|j: int| 0 <= j < row_parts.len() implies (#[trigger] row_parts[j]).len() == w[j] by {
        if row[j].len() < w[j] {
            assert(row_parts[j].len() == row[j].len() + (w[j] - row[j].len()));
        }
    }
    lemma_joined_len(row_parts, "  "@, w);
    lemma_joined_len(rule_parts, "  "@, w);
    assert(table_lines(headers, rows)[r + 2] == render_cells(row, w));
}

proof fn lemma_col_width_nonneg(start: int, cells: Seq<Seq<Seq<char>>>, j: int)
    requires
        start >= 0,
    ensures
        col_width(start, cells, j) >= 0,
    decreases cells.len(),
{
    if cells.len() > 0 {
        lemma_col_width_nonneg(start, cells.drop_last(), j);
    }
}

/// Appends `n` copies of the one-character string `unit`.
fn append_repeated(s: &mut String, unit: &str, n: usize)
    requires
        unit@.len() == 1,
    ensures
        final(s)@ == old(s)@ + Seq::new(n as nat, |i: int| unit@[0]),
{
    let ghost start = s@;
    let mut k: usize = 0;
    while k < n
        invariant
            k <= n,
            unit@.len() == 1,
            s@ == start + Seq::new(k as nat, |i: int| unit@[0]),
        decreases n - k,
    {
        s.append(unit);
        k += 1;
        assert(s@ =~= start + Seq::new(k as nat, |i: int| unit@[0]));
    }
}

/// Renders one line: each cell padded to its column's width, two spaces
/// apart.
fn render_line(cells: &Vec<String>, widths: &Vec<usize>) -> (r: String)
    requires
        cells@.len() <= widths@.len(),
    ensures
        r@ == render_cells(
            cells@.map_values(|s: String| s@),
            widths@.map_values(|w: usize| w as int),
        ),
{
    let ghost texts = cells@.map_values(|s: String| s@);
    let ghost ws = widths@.map_values(|w: usize| w as int);
    let ghost parts = Seq::new(texts.len(), |j: int| padded(texts[j], ws[j]));
    let mut r = String::new();
    let mut j: usize = 0;
    while j < cells.len()
        invariant
            j <= cells@.len(),
            cells@.len() <= widths@.len(),
            texts == cells@.map_values(|s: String| s@),
            ws == widths@.map_values(|w: usize| w as int),
            parts == Seq::new(texts.len(), |j: int| padded(texts[j], ws[j])),
            r@ == joined(parts.take(j as int), "  "@),
        decreases cells@.len() - j,
    {
        proof {
            lemma_joined_push(parts, "  "@, j as int);
            reveal_strlit(" ");
        }
        if j > 0 {
            r.append("  ");
        }
        let cell = cells[j].as_str();
        r.append(cell);
        let n = chars_of(cell).len();
        let w = widths[j];
        if n < w {
            append_repeated(&mut r, " ", w - n);
        }
        proof {
            assert(parts[j as int] =~= padded(texts[j as int], ws[j as int]));
            if n < w {
                assert(padded(texts[j as int], ws[j as int]) =~= cells@[j as int]@ + Seq::new(
                    (w - n) as nat,
                    |i: int| " "@[0],
                ));
            }
        }
        j += 1;
    }
    proof {
        assert(parts.take(cells@.len() as int) =~= parts);
    }
    r
}

/// Lays out rows under headers as aligned text columns, the way the
/// command line prints lists. Each row has at most as many cells as there
/// are headers.
pub fn format_table(headers: &[&str], rows: &[Vec<String>]) -> (lines: Vec<String>)
    requires
        forall|i: int| 0 <= i < rows@.len() ==> (#[trigger] rows@[i])@.len() <= headers@.len(),
    ensures
        lines@.map_values(|l: String| l@) == table_lines(headers@, rows@),
{
    let mut lines: Vec<String> = Vec::new();
    if rows.len() == 0 {
        lines.push("(no rows)".to_owned());
        assert(lines@.map_values(|l: String| l@) =~= table_lines(headers@, rows@));
        return lines;
    }
    let ghost cells = cell_texts(rows@);
    // Start each column at its header's length in bytes.
    let mut widths: Vec<usize> = Vec::new();
    let mut header_cells: Vec<String> = Vec::new();
    let mut j: usize = 0;
    while j < headers.len()
        invariant
            j <= headers@.len(),
            widths@.len() == j,
            header_cells@.len() == j,
            forall|k: int| 0 <= k < j ==> #[trigger] widths@[k] == headers@[k].len(),
            forall|k: int| 0 <= k < j ==> (#[trigger] header_cells@[k])@ == headers@[k]@,
        decreases headers@.len() - j,
    {
        widths.push(headers[j].len());
        header_cells.push(headers[j].to_owned());
        j += 1;
    }
    // Widen each column to its widest cell.
    let mut i: usize = 0;
    while i < rows.len()
        invariant
            i <= rows@.len(),
            cells == cell_texts(rows@),
            forall|a: int| 0 <= a < rows@.len() ==> (#[trigger] rows@[a])@.len() <= headers@.len(),
            widths@.len() == headers@.len(),
            forall|k: int|
                0 <= k < headers@.len() ==> #[trigger] widths@[k] == col_width(
                    headers@[k].len() as int,
                    cells.take(i as int),
                    k,
                ),
        decreases rows@.len() - i,
    {
        let row = &rows[i];
        let mut idx: usize = 0;
        while idx < row.len()
            invariant
                i < rows@.len(),
                row == rows@[i as int],
                idx <= row@.len(),
                row@.len() <= headers@.len(),
                cells == cell_texts(rows@),
                widths@.len() == headers@.len(),
                forall|k: int|
                    0 <= k < headers@.len() ==> #[trigger] widths@[k] == if k < idx {
                        col_width(headers@[k].len() as int, cells.take(i + 1), k)
                    } else {
                        col_width(headers@[k].len() as int, cells.take(i as int), k)
                    },
            decreases row@.len() - idx,
        {
            proof {
                lemma_col_width_step(headers@[idx as int].len() as int, cells, i as int, idx as int);
                assert(cells[i as int][idx as int] == row@[idx as int]@);
            }
            let n = chars_of(row[idx].as_str()).len();
            let old_w = widths[idx];
            if n > old_w {
                widths.set(idx, n);
            }
            idx += 1;
        }
        proof {
            assert forall|k: int| 0 <= k < headers@.len() implies #[trigger] widths@[k] == col_width(
                headers@[k].len() as int,
                cells.take(i + 1),
                k,
            ) by {
                lemma_col_width_step(headers@[k].len() as int, cells, i as int, k);
            }
        }
        i += 1;
    }
    let ghost ws = widths@.map_values(|w: usize| w as int);
    proof {
        assert(cells.take(rows@.len() as int) =~= cells);
        assert(ws =~= column_widths(headers@, cells));
        assert(header_cells@.map_values(|s: String| s@) =~= headers@.map_values(|h: &str| h@));
    }
    lines.push(render_line(&header_cells, &widths));
    // The rule under the headers.
    let ghost rule_parts = Seq::new(headers@.len(), |k: int| dashes(ws[k]));
    let mut rule = String::new();
    let mut k: usize = 0;
    while k < widths.len()
        invariant
            k <= widths@.len(),
            widths@.len() == headers@.len(),
            ws == widths@.map_values(|w: usize| w as int),
            rule_parts == Seq::new(headers@.len(), |k: int| dashes(ws[k])),
            rule@ == joined(rule_parts.take(k as int), "  "@),
        decreases widths@.len() - k,
    {
        proof {
            lemma_joined_push(rule_parts, "  "@, k as int);
            reveal_strlit("-");
        }
        if k > 0 {
            rule.append("  ");
        }
        let ghost before = rule@;
        append_repeated(&mut rule, "-", widths[k]);
        proof {
            assert(rule@ =~= before + dashes(ws[k as int]));
        }
        k += 1;
    }
    proof {
        assert(rule_parts.take(widths@.len() as int) =~= rule_parts);
    }
    lines.push(rule);
    let mut r: usize = 0;
    while r < rows.len()
        invariant
            r <= rows@.len(),
            cells == cell_texts(rows@),
            forall|a: int| 0 <= a < rows@.len() ==> (#[trigger] rows@[a])@.len() <= headers@.len(),
            widths@.len() == headers@.len(),
            ws == widths@.map_values(|w: usize| w as int),
            ws == column_widths(headers@, cells),
            lines@.len() == r + 2,
            lines@[0]@ == render_cells(headers@.map_values(|h: &str| h@), ws),
            lines@[1]@ == joined(Seq::new(headers@.len(), |k: int| dashes(ws[k])), "  "@),
            forall|a: int| 0 <= a < r ==> (#[trigger] lines@[a + 2])@ == render_cells(cells[a], ws),
        decreases rows@.len() - r,
    {
        let line = render_line(&rows[r], &widths);
        proof {
            assert(rows@[r as int]@.map_values(|s: String| s@) == cells[r as int]);
        }
        lines.push(line);
        r += 1;
    }
    proof {
        let want = table_lines(headers@, rows@);
        let got = lines@.map_values(|l: String| l@);
        assert(got.len() == want.len());
        assert forall|a: int| 0 <= a < got.len() implies got[a] == want[a] by {
            if a >= 2 {
                assert(lines@[(a - 2) + 2]@ == render_cells(cells[a - 2], ws));
            }
        }
        assert(got =~= want);
    }
    lines
}

} // verus!
