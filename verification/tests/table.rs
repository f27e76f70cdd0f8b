use plandb::table::format_table;

fn row(cells: &[&str]) -> Vec<String> {
    cells.iter().map(|c| c.to_string()).collect()
}

#[test]
fn empty_table_says_no_rows() {
    assert_eq!(format_table(&["ID", "NAME"], &[]), vec!["(no rows)".to_string()]);
}

#[test]
fn columns_are_padded_to_widest_cell() {
    let lines = format_table(&["ID", "NAME", "KIND"], &[row(&["a-1", "x", "code"]), row(&["b", "longer", ""])]);
    assert_eq!(
        lines,
        vec![
            "ID   NAME    KIND".to_string(),
            "---  ------  ----".to_string(),
            "a-1  x       code".to_string(),
            "b    longer      ".to_string(),
        ]
    );
}

#[test]
fn short_rows_render_only_their_cells() {
    let lines = format_table(&["A", "B"], &[row(&["1"]), row(&["22", "333"])]);
    assert_eq!(lines, vec!["A   B  ".to_string(), "--  ---".to_string(), "1 ".to_string(), "22  333".to_string()]);
}

#[test]
fn widths_count_characters_of_cells() {
    let lines = format_table(&["N"], &[row(&["äö"])]);
    assert_eq!(lines, vec!["N ".to_string(), "--".to_string(), "äö".to_string()]);
}

#[test]
fn full_rows_line_up_with_the_rule() {
    let lines = format_table(
        &["ID", "NAME", "SIZE"],
        &[row(&["t-1", "design", "12"]), row(&["t-22", "x", ""]), row(&["t-3", "ünïcode", "7"])],
    );
    let rule_len = lines[1].chars().count();
    for line in &lines[2..] {
        assert_eq!(line.chars().count(), rule_len);
    }
    assert_eq!(lines[1], "----  -------  ----");
}
