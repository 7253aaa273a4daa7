//! Box-drawn text tables for the performance report.
//!
//! Column widths count bytes of the header and cell text; cells are padded to their
//! column's width counting characters, as Rust's `{:<width$}` and `{:>width$}` do.
use vstd::prelude::*;
use vstd::std_specs::iter::IteratorSpec;
use vstd::utf8::encode_utf8;

verus! {

/// `s` written `n` times.
pub open spec fn repeat_text(s: Seq<char>, n: nat) -> Seq<char>
    decreases n,
{
    if n == 0 {
        Seq::empty()
    } else {
        repeat_text(s, (n - 1) as nat) + s
    }
}

/// The parts with `sep` between each two of them.
pub open spec fn join_with(parts: Seq<Seq<char>>, sep: Seq<char>) -> Seq<char>
    decreases parts.len(),
{
    if parts.len() == 0 {
        Seq::empty()
    } else if parts.len() == 1 {
        parts[0]
    } else {
        join_with(parts.drop_last(), sep) + sep + parts.last()
    }
}

/// `n` spaces, none when `n` is not positive.
pub open spec fn spaces(n: int) -> Seq<char> {
    Seq::new(
        if n > 0 {
            n as nat
        } else {
            0
        },
        |i: int| ' ',
    )
}

/// `s` followed by spaces up to `width` characters (`{:<width$}`).
pub open spec fn pad_end(s: Seq<char>, width: int) -> Seq<char> {
    s + spaces(width - s.len())
}

/// Spaces up to `width` characters followed by `s` (`{:>width$}`).
pub open spec fn pad_start(s: Seq<char>, width: int) -> Seq<char> {
    spaces(width - s.len()) + s
}

/// The vertical bar between and around cells.
pub open spec fn bar() -> Seq<char> {
    seq!['\u{2502}']
}

/// A cell with its text left-aligned (`right == false`) or right-aligned, between
/// one space of margin on each side.
pub open spec fn cell_text(s: Seq<char>, width: int, right: bool) -> Seq<char> {
    seq![' '] + (if right {
        pad_start(s, width)
    } else {
        pad_end(s, width)
    }) + seq![' ']
}

pub open spec fn min_len(a: nat, b: nat) -> nat {
    if a < b {
        a
    } else {
        b
    }
}

/// A separator line: `left`, then for each column `fill` written `width + 2` times
/// with `mid` between columns, then `right`.
pub open spec fn spec_row_separator(
    widths: Seq<usize>,
    left: Seq<char>,
    mid: Seq<char>,
    right: Seq<char>,
    fill: Seq<char>,
) -> Seq<char> {
    left + join_with(
        Seq::new(widths.len(), |i: int| repeat_text(fill, (widths[i] + 2) as nat)),
        mid,
    ) + right
}

/// A row of cells, one per column while both cells and widths last; cells are
/// right-aligned from column `first_right` on.
pub open spec fn spec_row(cells: Seq<String>, widths: Seq<usize>, first_right: int) -> Seq<char> {
    bar() + join_with(
        Seq::new(
            min_len(cells.len(), widths.len()),
            |i: int| cell_text(cells[i]@, widths[i] as int, i >= first_right),
        ),
        bar(),
    ) + bar()
}

proof fn lemma_join_step(parts: Seq<Seq<char>>, sep: Seq<char>, i: int)
    requires
        0 <= i < parts.len(),
    ensures
        join_with(parts.take(i + 1), sep) == if i == 0 {
            parts[0]
        } else {
            join_with(parts.take(i), sep) + sep + parts[i]
        },
{
    let t = parts.take(i + 1);
    assert(t.drop_last() =~= parts.take(i));
    assert(t.last() == parts[i]);
    if i == 0 {
        assert(t.len() == 1);
    }
}

/// The number of characters of `s`, counted no further than `cap`.
fn char_count_capped(s: &str, cap: usize) -> (r: usize)
    ensures
        r as int == if s@.len() < cap {
            s@.len() as int
        } else {
            cap as int
        },
{
    let mut it = s.chars();
    let mut n: usize = 0;
    while n < cap
        invariant
            n <= cap,
            n <= s@.len(),
            it.remaining() == s@.skip(n as int),
        decreases cap - n,
    {
        match it.next() {
            Some(_) => {
                n = n + 1;
            },
            None => {
                return n;
            },
        }
    }
    n
}

/// Appends `n` spaces.
fn push_spaces(out: &mut String, n: usize)
    ensures
        final(out)@ == old(out)@ + spaces(n as int),
{
    let mut k: usize = 0;
    while k < n
        invariant
            k <= n,
            out@ == old(out)@ + spaces(k as int),
        decreases n - k,
    {
        proof {
            reveal_strlit(" ");
        }
        let ghost before = out@;
        out.append(" ");
        assert(out@ =~= old(out)@ + spaces((k + 1) as int)) by {
            assert(spaces((k + 1) as int) =~= spaces(k as int) + seq![' ']);
        }
        k = k + 1;
    }
}

/// Appends one cell: a space, the text padded to `width` characters, a space.
fn push_cell(out: &mut String, cell: &str, width: usize, right: bool)
    ensures
        final(out)@ == old(out)@ + cell_text(cell@, width as int, right),
{
    let shown = char_count_capped(cell, width);
    let pad = width - shown;
    proof {
        reveal_strlit(" ");
        assert(spaces(pad as int) =~= spaces(width - cell@.len()));
    }
    out.append(" ");
    if right {
        push_spaces(out, pad);
        out.append(cell);
    } else {
        out.append(cell);
        push_spaces(out, pad);
    }
    out.append(" ");
    assert(out@ =~= old(out)@ + cell_text(cell@, width as int, right));
}

/// A table row, cells right-aligned from column `first_right` on.
fn render_row(cells: &[String], widths: &[usize], first_right: usize) -> (r: String)
    ensures
        r@ == spec_row(cells@, widths@, first_right as int),
{
    let n = if cells.len() < widths.len() {
        cells.len()
    } else {
        widths.len()
    };
    let ghost parts = Seq::new(
        min_len(cells@.len(), widths@.len()),
        |i: int| cell_text(cells@[i]@, widths@[i] as int, i >= first_right),
    );
    proof {
        reveal_strlit("\u{2502}");
    }
    let mut out = String::new();
    out.append("\u{2502}");
    let mut i: usize = 0;
    assert(parts.take(0) =~= Seq::<Seq<char>>::empty());
    while i < n
        invariant
            n == parts.len(),
            n <= cells@.len(),
            n <= widths@.len(),
            i <= n,
            parts == Seq::new(
                min_len(cells@.len(), widths@.len()),
                |i: int| cell_text(cells@[i]@, widths@[i] as int, i >= first_right),
            ),
            out@ == bar() + join_with(parts.take(i as int), bar()),
        decreases n - i,
    {
        proof {
            reveal_strlit("\u{2502}");
            lemma_join_step(parts, bar(), i as int);
        }
        if i > 0 {
            out.append("\u{2502}");
        }
        push_cell(&mut out, cells[i].as_str(), widths[i], i >= first_right);
        assert(out@ =~= bar() + join_with(parts.take(i + 1), bar()));
        i = i + 1;
    }
    assert(parts.take(n as int) =~= parts);
    out.append("\u{2502}");
    out
}

/// A separator line of the table (`┌─┬─┐`, `├─┼─┤` or `└─┴─┘` with `fill` `─`).
pub fn row_separator(widths: &[usize], left: &str, mid: &str, right: &str, fill: &str) -> (r:
    String)
    ensures
        r@ == spec_row_separator(widths@, left@, mid@, right@, fill@),
{
    let ghost parts = Seq::new(widths@.len(), |i: int| repeat_text(fill@, (widths@[i] + 2) as nat));
    let mut out = String::new();
    out.append(left);
    let mut i: usize = 0;
    assert(parts.take(0) =~= Seq::<Seq<char>>::empty());
    while i < widths.len()
        invariant
            i <= widths@.len(),
            parts == Seq::new(widths@.len(), |i: int| repeat_text(fill@, (widths@[i] + 2) as nat)),
            out@ == left@ + join_with(parts.take(i as int), mid@),
        decreases widths@.len() - i,
    {
        proof {
            lemma_join_step(parts, mid@, i as int);
        }
        if i > 0 {
            out.append(mid);
        }
        let ghost start = out@;
        let w = widths[i];
        let mut k: usize = 0;
        while k < w
            invariant
                k <= w,
                out@ == start + repeat_text(fill@, k as nat),
            decreases w - k,
        {
            out.append(fill);
            k = k + 1;
        }
        out.append(fill);
        out.append(fill);
        proof {
            assert(repeat_text(fill@, (w + 2) as nat) == repeat_text(fill@, (w + 1) as nat)
                + fill@);
            assert(repeat_text(fill@, (w + 1) as nat) == repeat_text(fill@, w as nat) + fill@);
        }
        assert(out@ =~= left@ + join_with(parts.take(i + 1), mid@));
        i = i + 1;
    }
    assert(parts.take(widths@.len() as int) =~= parts);
    out.append(right);
    out
}

/// A row with every cell left-aligned (the header row).
pub fn data_row(cells: &[String], widths: &[usize]) -> (r: String)
    ensures
        r@ == spec_row(cells@, widths@, cells@.len() as int),
{
    render_row(cells, widths, cells.len())
}

/// A data row: the first cell (the symbol) left-aligned, the rest (numbers)
/// right-aligned.
pub fn right_data_row(cells: &[String], widths: &[usize]) -> (r: String)
    ensures
        r@ == spec_row(cells@, widths@, 1),
{
    render_row(cells, widths, 1)
}

/// The length of a cell's text in bytes (`String::len`).
pub open spec fn byte_len(s: String) -> nat {
    encode_utf8(s@).len()
}

/// The width of column `col`: the longest, in bytes, of its header and of the cells
/// of that column in `rows`.
pub open spec fn column_width(headers: Seq<String>, rows: Seq<Vec<String>>, col: int) -> nat
    decreases rows.len(),
{
    if rows.len() == 0 {
        byte_len(headers[col])
    } else {
        let w = column_width(headers, rows.drop_last(), col);
        let last = rows.last()@;
        if col < last.len() && byte_len(last[col]) > w {
            byte_len(last[col])
        } else {
            w
        }
    }
}

/// Every row has no more cells than there are headers.
pub open spec fn rows_fit_headers(headers: Seq<String>, rows: Seq<Vec<String>>) -> bool {
    forall|k: int| 0 <= k < rows.len() ==> (#[trigger] rows[k])@.len() <= headers.len()
}

/// The column widths of a table.
pub fn column_widths(headers: &[String], rows: &[Vec<String>]) -> (r: Vec<usize>)
    requires
        rows_fit_headers(headers@, rows@),
    ensures
        r@.len() == headers@.len(),
        forall|i: int| 0 <= i < headers@.len() ==> r@[i] == column_width(headers@, rows@, i),
{
    let mut widths: Vec<usize> = Vec::new();
    let mut i: usize = 0;
    while i < headers.len()
        invariant
            i <= headers@.len(),
            widths@.len() == i,
            forall|j: int| 0 <= j < i ==> widths@[j] == byte_len(headers@[j]),
        decreases headers@.len() - i,
    {
        widths.push(headers[i].as_str().as_bytes().len());
        i = i + 1;
    }
    assert forall|j: int| 0 <= j < headers@.len() implies widths@[j] == column_width(
        headers@,
        rows@.take(0),
        j,
    ) by {
        assert(rows@.take(0).len() == 0);
    }
    let mut k: usize = 0;
    while k < rows.len()
        invariant
            k <= rows@.len(),
            rows_fit_headers(headers@, rows@),
            widths@.len() == headers@.len(),
            forall|j: int|
                0 <= j < headers@.len() ==> widths@[j] == column_width(headers@, rows@.take(k as int), j),
        decreases rows@.len() - k,
    {
        let row = &rows[k];
        let ghost before = widths@;
        proof {
            assert(rows@.take(k + 1).drop_last() =~= rows@.take(k as int));
            assert(rows@.take(k + 1).last() == rows@[k as int]);
            assert(row@.len() <= headers@.len());
        }
        let mut j: usize = 0;
        while j < row.len()
            invariant
                j <= row@.len(),
                row@.len() <= headers@.len(),
                *row == rows@[k as int],
                k < rows@.len(),
                rows@.take(k + 1).drop_last() == rows@.take(k as int),
                rows@.take(k + 1).last() == rows@[k as int],
                widths@.len() == headers@.len(),
                before.len() == headers@.len(),
                forall|c: int|
                    0 <= c < headers@.len() ==> #[trigger] before[c] == column_width(
                        headers@,
                        rows@.take(k as int),
                        c,
                    ),
                forall|c: int|
                    0 <= c < j ==> #[trigger] widths@[c] == column_width(headers@, rows@.take(k + 1), c),
                forall|c: int| j <= c < headers@.len() ==> #[trigger] widths@[c] == before[c],
            decreases row@.len() - j,
        {
            let bytes = row[j].as_str().as_bytes();
            let l = bytes.len();
            assert(l == byte_len(row@[j as int]));
            assert(rows@.take(k + 1).last()@[j as int] == row@[j as int]);
            assert(widths@[j as int] == before[j as int]);
            assert(before[j as int] == column_width(headers@, rows@.take(k as int), j as int));
            if l > widths[j] {
                widths.set(j, l);
            }
            assert(widths@[j as int] == column_width(headers@, rows@.take(k + 1), j as int));
            j = j + 1;
        }
        proof {
            assert forall|c: int| 0 <= c < headers@.len() implies widths@[c] == column_width(
                headers@,
                rows@.take(k + 1),
                c,
            ) by {
                if c >= row@.len() {
                    assert(widths@[c] == before[c]);
                }
            }
        }
        k = k + 1;
    }
    assert(rows@.take(rows@.len() as int) =~= rows@);
    widths
}

/// The widths of all columns of a table, in order.
pub open spec fn spec_column_widths(headers: Seq<String>, rows: Seq<Vec<String>>) -> Seq<usize> {
    Seq::new(headers.len(), |i: int| column_width(headers, rows, i) as usize)
}

/// The line shown in place of the data rows when there are none.
pub open spec fn empty_table_note() -> Seq<char> {
    "  No completed cycles yet."@
}

/// The lines of a table: the top border, the header row, the header separator, the
/// data rows (or a note that there are none), the bottom border.
pub open spec fn spec_table_lines(headers: Seq<String>, rows: Seq<Vec<String>>) -> Seq<Seq<char>> {
    let w = spec_column_widths(headers, rows);
    let dash = "\u{2500}"@;
    seq![
        spec_row_separator(w, "\u{250c}"@, "\u{252c}"@, "\u{2510}"@, dash),
        spec_row(headers, w, headers.len() as int),
        spec_row_separator(w, "\u{251c}"@, "\u{253c}"@, "\u{2524}"@, dash),
    ] + (if rows.len() == 0 {
        seq![empty_table_note()]
    } else {
        Seq::new(rows.len(), |k: int| spec_row(rows[k]@, w, 1))
    }) + seq![spec_row_separator(w, "\u{2514}"@, "\u{2534}"@, "\u{2518}"@, dash)]
}

/// Renders a table: headers on top, one right-aligned row per entry of `rows`.
pub fn render_table(headers: &[String], rows: &[Vec<String>]) -> (r: Vec<String>)
    requires
        rows_fit_headers(headers@, rows@),
    ensures
        r@.len() == spec_table_lines(headers@, rows@).len(),
        forall|i: int| 0 <= i < r@.len() ==> #[trigger] r@[i]@ == spec_table_lines(headers@, rows@)[i],
{
    let widths = column_widths(headers, rows);
    let ghost w = spec_column_widths(headers@, rows@);
    assert(widths@ =~= w);
    let mut lines: Vec<String> = Vec::new();
    lines.push(row_separator(widths.as_slice(), "\u{250c}", "\u{252c}", "\u{2510}", "\u{2500}"));
    lines.push(data_row(headers, widths.as_slice()));
    lines.push(row_separator(widths.as_slice(), "\u{251c}", "\u{253c}", "\u{2524}", "\u{2500}"));
    if rows.len() == 0 {
        lines.push("  No completed cycles yet.".to_owned());
    } else {
        let mut k: usize = 0;
        while k < rows.len()
            invariant
                k <= rows@.len(),
                widths@ == w,
                lines@.len() == 3 + k,
                forall|i: int|
                    0 <= i < 3 ==> #[trigger] lines@[i]@ == spec_table_lines(headers@, rows@)[i],
                forall|i: int| 3 <= i < 3 + k ==> #[trigger] lines@[i]@ == spec_row(rows@[i - 3]@, w, 1),
            decreases rows@.len() - k,
        {
            lines.push(right_data_row(rows[k].as_slice(), widths.as_slice()));
            k = k + 1;
        }
    }
    lines.push(row_separator(widths.as_slice(), "\u{2514}", "\u{2534}", "\u{2518}", "\u{2500}"));
    proof {
        let spec_lines = spec_table_lines(headers@, rows@);
        assert forall|i: int| 0 <= i < lines@.len() implies #[trigger] lines@[i]@ == spec_lines[i] by {
            let dash = "\u{2500}"@;
            let top = seq![
                spec_row_separator(w, "\u{250c}"@, "\u{252c}"@, "\u{2510}"@, dash),
                spec_row(headers@, w, headers@.len() as int),
                spec_row_separator(w, "\u{251c}"@, "\u{253c}"@, "\u{2524}"@, dash),
            ];
            let middle = if rows@.len() == 0 {
                seq![empty_table_note()]
            } else {
                Seq::new(rows@.len(), |k: int| spec_row(rows@[k]@, w, 1))
            };
            let bottom = seq![spec_row_separator(w, "\u{2514}"@, "\u{2534}"@, "\u{2518}"@, dash)];
            assert(spec_lines == top + middle + bottom);
            if i < 3 {
                assert(spec_lines[i] == top[i]);
                assert(lines@[i]@ == top[i]);
            } else if i < 3 + middle.len() {
                assert(spec_lines[i] == middle[i - 3]);
                if rows@.len() == 0 {
                    assert(lines@[i]@ == middle[i - 3]);
                } else {
                    assert(lines@[i]@ == spec_row(rows@[i - 3]@, w, 1));
                    assert(lines@[i]@ == middle[i - 3]);
                }
            } else {
                assert(spec_lines[i] == bottom[0]);
                assert(lines@[i]@ == bottom[0]);
            }
        }
    }
    lines
}

proof fn lemma_repeat_len(s: Seq<char>, n: nat)
    ensures
        repeat_text(s, n).len() == n * s.len(),
    decreases n,
{
    if n > 0 {
        let m = (n - 1) as nat;
        lemma_repeat_len(s, m);
        assert(repeat_text(s, n) == repeat_text(s, m) + s);
        assert(n * s.len() == m * s.len() + s.len()) by (nonlinear_arith)
            requires
                n == m + 1,
        ;
    } else {
        assert(n * s.len() == 0) by (nonlinear_arith)
            requires
                n == 0,
        ;
    }
}

proof fn lemma_join_same_lengths(
    p: Seq<Seq<char>>,
    q: Seq<Seq<char>>,
    sep_p: Seq<char>,
    sep_q: Seq<char>,
)
    requires
        p.len() == q.len(),
        sep_p.len() == sep_q.len(),
        forall|i: int| 0 <= i < p.len() ==> (#[trigger] p[i]).len() == q[i].len(),
    ensures
        join_with(p, sep_p).len() == join_with(q, sep_q).len(),
    decreases p.len(),
{
    if p.len() > 1 {
        let p2 = p.drop_last();
        let q2 = q.drop_last();
        assert forall|i: int| 0 <= i < p2.len() implies (#[trigger] p2[i]).len() == q2[i].len() by {
            assert(p2[i] == p[i]);
            assert(q2[i] == q[i]);
        }
        lemma_join_same_lengths(p2, q2, sep_p, sep_q);
        assert(p.last().len() == q.last().len());
    }
}

/// A row whose cells all fit their columns is exactly as long as the border lines
/// drawn with single-character pieces: the table's columns line up.
pub proof fn lemma_rows_align_with_borders(
    cells: Seq<String>,
    widths: Seq<usize>,
    first_right: int,
    left: Seq<char>,
    mid: Seq<char>,
    right: Seq<char>,
    fill: Seq<char>,
)
    requires
        cells.len() == widths.len(),
        forall|i: int| 0 <= i < cells.len() ==> (#[trigger] cells[i])@.len() <= widths[i],
        left.len() == 1,
        mid.len() == 1,
        right.len() == 1,
        fill.len() == 1,
    ensures
        spec_row(cells, widths, first_right).len() == spec_row_separator(
            widths,
            left,
            mid,
            right,
            fill,
        ).len(),
{
    let p = Seq::new(
        min_len(cells.len(), widths.len()),
        |i: int| cell_text(cells[i]@, widths[i] as int, i >= first_right),
    );
    let q = Seq::new(widths.len(), |i: int| repeat_text(fill, (widths[i] + 2) as nat));
    assert forall|i: int| 0 <= i < p.len() implies (#[trigger] p[i]).len() == q[i].len() by {
        lemma_repeat_len(fill, (widths[i] + 2) as nat);
        assert(cells[i]@.len() <= widths[i]);
        assert(spaces(widths[i] - cells[i]@.len()).len() == widths[i] - cells[i]@.len());
    }
    lemma_join_same_lengths(p, q, bar(), mid);
}

/// Every column is at least as wide as its header and as each of its cells.
pub proof fn lemma_columns_fit_text(headers: Seq<String>, rows: Seq<Vec<String>>, col: int)
    requires
        0 <= col < headers.len(),
    ensures
        column_width(headers, rows, col) >= byte_len(headers[col]),
        forall|k: int|
            0 <= k < rows.len() && col < (#[trigger] rows[k])@.len() ==> column_width(headers, rows, col)
                >= byte_len(rows[k]@[col]),
    decreases rows.len(),
{
    if rows.len() > 0 {
        let front = rows.drop_last();
        lemma_columns_fit_text(headers, front, col);
        assert forall|k: int|
            0 <= k < rows.len() && col < (#[trigger] rows[k])@.len() implies column_width(
            headers,
            rows,
            col,
        ) >= byte_len(rows[k]@[col]) by {
            if k < rows.len() - 1 {
                assert(rows[k] == front[k]);
            }
        }
    }
}

} // verus!
