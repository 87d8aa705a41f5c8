use ffgraph::dataset::ingest::{
    is_definition_file, path_precedes, plan_ingestion, DEFINITION_EXTENSION,
};

fn strings(items: &[&str]) -> Vec<String> {
    items.iter().map(|item| item.to_string()).collect()
}

#[test]
fn definition_files_have_the_extension() {
    assert!(is_definition_file("a.sql", "sql"));
    assert!(is_definition_file("schema/001_tables.sql", "sql"));
    assert!(is_definition_file("a.b.sql", "sql"));
    assert!(is_definition_file("a.def", "def"));
}

#[test]
fn other_files_are_not_definition_files() {
    assert!(!is_definition_file("a.sql", "def"));
    assert!(!is_definition_file("a.sql.bak", "sql"));
    assert!(!is_definition_file("asql", "sql"));
    assert!(!is_definition_file("README.md", "sql"));
    assert!(!is_definition_file("a.SQL", "sql"));
    assert!(!is_definition_file("", "sql"));
    assert!(!is_definition_file("sql", "sql"));
}

#[test]
fn a_name_that_is_only_an_extension_does_not_count() {
    assert!(!is_definition_file(".sql", "sql"));
    assert!(!is_definition_file("dir/.sql", "sql"));
}

#[test]
fn an_extension_holds_no_dot_or_slash() {
    assert!(!is_definition_file("a.tar.sql", "tar.sql"));
    assert!(!is_definition_file("a.x/sql", "x/sql"));
    assert!(is_definition_file("a.", ""));
}

#[test]
fn walk_order_compares_by_characters() {
    assert!(path_precedes("a.sql", "b.sql"));
    assert!(!path_precedes("b.sql", "a.sql"));
    assert!(!path_precedes("a.sql", "a.sql"));
    assert!(path_precedes("a", "ab"));
    assert!(!path_precedes("ab", "a"));
    assert!(path_precedes("", "a"));
    assert!(!path_precedes("", ""));
}

#[test]
fn walk_order_enters_a_directory_before_its_longer_siblings() {
    assert!(path_precedes("a/z.sql", "a.sql"));
    assert!(path_precedes("a/z.sql", "a-b/a.sql"));
    assert!(path_precedes("a/b", "a!b"));
    assert!(!path_precedes("a.sql", "a/z.sql"));
}

#[test]
fn walk_order_goes_by_code_point() {
    assert!(path_precedes("Z", "a"));
    assert!(path_precedes("z", "\u{e9}"));
    assert!(path_precedes("\u{e9}", "\u{1F600}"));
}

#[test]
fn plan_selects_and_sorts() {
    let listing = strings(&["b.sql", "README.md", "a.sql", "dir/c.sql", "dir/notes.txt"]);
    assert_eq!(plan_ingestion(&listing, "sql"), strings(&["a.sql", "b.sql", "dir/c.sql"]));
}

#[test]
fn plan_walks_depth_first() {
    let listing = strings(&["a.sql", "a/2.sql", "a/1.sql", "a-b/0.sql", "b.sql"]);
    assert_eq!(
        plan_ingestion(&listing, "sql"),
        strings(&["a/1.sql", "a/2.sql", "a-b/0.sql", "a.sql", "b.sql"])
    );
}

#[test]
fn plan_does_not_depend_on_the_listing_order() {
    let forward = strings(&["a.def", "b.def", "c.def"]);
    let backward = strings(&["c.def", "b.def", "a.def"]);
    let mixed = strings(&["b.def", "c.def", "a.def"]);
    let expected = strings(&["a.def", "b.def", "c.def"]);
    assert_eq!(plan_ingestion(&forward, "def"), expected);
    assert_eq!(plan_ingestion(&backward, "def"), expected);
    assert_eq!(plan_ingestion(&mixed, "def"), expected);
}

#[test]
fn plan_of_nothing_is_empty() {
    assert_eq!(plan_ingestion(&Vec::new(), "sql"), Vec::<String>::new());
    assert_eq!(plan_ingestion(&strings(&["a.txt", "b"]), "sql"), Vec::<String>::new());
}

#[test]
fn plan_keeps_a_path_that_is_listed_twice() {
    let listing = strings(&["b.sql", "a.sql", "b.sql"]);
    assert_eq!(plan_ingestion(&listing, "sql"), strings(&["a.sql", "b.sql", "b.sql"]));
}

#[test]
fn definition_files_of_the_repository_are_sql() {
    assert_eq!(DEFINITION_EXTENSION, "sql");
    assert!(is_definition_file("schema/001.sql", DEFINITION_EXTENSION));
    assert!(!is_definition_file("schema/001.def", DEFINITION_EXTENSION));
}
