use nonthok_cashflow::report::{column_widths, data_row, render_table, right_data_row, row_separator};

fn strings(v: &[&str]) -> Vec<String> {
    v.iter().map(|s| s.to_string()).collect()
}

#[test]
fn separator_lines() {
    assert_eq!(row_separator(&[1, 2], "┌", "┬", "┐", "─"), "┌───┬────┐");
    assert_eq!(row_separator(&[], "└", "┴", "┘", "─"), "└┘");
}

#[test]
fn rows_pad_cells() {
    let widths = [4, 3];
    assert_eq!(data_row(&strings(&["ab", "c"]), &widths), "│ ab   │ c   │");
    assert_eq!(right_data_row(&strings(&["ab", "c"]), &widths), "│ ab   │   c │");
    // Cells longer than their column are not cut.
    assert_eq!(data_row(&strings(&["abcdef"]), &[2]), "│ abcdef │");
    // Extra cells without a width are dropped.
    assert_eq!(data_row(&strings(&["a", "b"]), &[1]), "│ a │");
}

#[test]
fn widths_take_the_longest_text() {
    let headers = strings(&["Underlying", "Days"]);
    let rows = vec![strings(&["BAC", "12345"]), strings(&["SPYXXXXXXXXX", "1"])];
    assert_eq!(column_widths(&headers, &rows), vec![12, 5]);
}

#[test]
fn whole_table() {
    let headers = strings(&["Sym", "P&L"]);
    let rows = vec![strings(&["BAC", "+12.50"])];
    let lines = render_table(&headers, &rows);
    assert_eq!(
        lines,
        vec![
            "┌─────┬────────┐",
            "│ Sym │ P&L    │",
            "├─────┼────────┤",
            "│ BAC │ +12.50 │",
            "└─────┴────────┘",
        ]
    );
    let empty = render_table(&headers, &[]);
    assert_eq!(empty[3], "  No completed cycles yet.");
    assert_eq!(empty.len(), 5);
}

#[test]
fn table_lines_line_up() {
    let headers = strings(&["Underlying", "Cycles", "Total Premium $"]);
    let rows = vec![strings(&["BAC", "3", "212.40"]), strings(&["SPY", "12", "1040.00"])];
    let lines = render_table(&headers, &rows);
    let width = lines[0].chars().count();
    for line in &lines {
        assert_eq!(line.chars().count(), width, "{line}");
    }
}
