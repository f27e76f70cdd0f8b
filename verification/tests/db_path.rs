use plandb::db_path::choose_db_path;

fn strings(items: &[&str]) -> Vec<String> {
    items.iter().map(|s| s.to_string()).collect()
}

#[test]
fn environment_variable_wins() {
    let c = strings(&["/w/.plandb.db", "/.plandb.db"]);
    assert_eq!(choose_db_path(Some("/x/db.sqlite".to_string()), &c, &[true, true]), "/x/db.sqlite");
}

#[test]
fn nearest_existing_ancestor_is_used() {
    let c = strings(&["/a/b/.plandb.db", "/a/.plandb.db", "/.plandb.db"]);
    assert_eq!(choose_db_path(None, &c, &[false, true, true]), "/a/.plandb.db");
    assert_eq!(choose_db_path(None, &c, &[true, false, false]), "/a/b/.plandb.db");
}

#[test]
fn falls_back_to_working_directory_file() {
    let c = strings(&["/a/.plandb.db", "/.plandb.db"]);
    assert_eq!(choose_db_path(None, &c, &[false, false]), ".plandb.db");
    assert_eq!(choose_db_path(None, &[], &[]), ".plandb.db");
}
