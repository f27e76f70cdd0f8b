use plandb::split::split_str;

#[test]
fn critical_path_ids() {
    assert_eq!(split_str("t-a > t-b > t-c", " > "), vec!["t-a", "t-b", "t-c"]);
}

#[test]
fn single_id_is_one_part() {
    assert_eq!(split_str("t-only", " > "), vec!["t-only"]);
    assert_eq!(split_str("", " > "), vec![""]);
}

#[test]
fn occurrences_are_taken_from_the_left_without_overlap() {
    assert_eq!(split_str("x > > y", " > "), vec!["x", "> y"]);
    assert_eq!(split_str(" > a > ", " > "), vec!["", "a", ""]);
    assert_eq!(split_str("aaa", "aa"), vec!["", "a"]);
}

#[test]
fn joining_parts_gives_text_back() {
    for s in ["t-a > t-b", "x > > y", " > ", "", "plain"] {
        assert_eq!(split_str(s, " > ").join(" > "), s);
    }
}
