use ffgraph::dataset::store::{cache_dir, lookup, path_for, staging_path};

#[test]
fn cache_dir_lies_below_the_app_cache() {
    assert_eq!(cache_dir("/home/u/.cache/ffgraph"), "/home/u/.cache/ffgraph/database");
    assert_eq!(cache_dir(""), "/database");
}

#[test]
fn path_for_is_dir_key_store() {
    assert_eq!(path_for("/c/database", "abc123"), "/c/database/abc123.store");
    assert_eq!(path_for("/c/database", "v1.0"), "/c/database/v1.0.store");
    assert_eq!(path_for("", ""), "/.store");
}

#[test]
fn path_for_tells_keys_apart() {
    assert_ne!(path_for("/c", "a"), path_for("/c", "b"));
    assert_ne!(path_for("/c", "a"), path_for("/c", "a.store"));
    assert_eq!(path_for("/c", "a"), path_for("/c", "a"));
}

#[test]
fn staging_path_carries_the_tag() {
    assert_eq!(staging_path("/c", "abc", "77"), "/c/77-abc.partial");
    assert_ne!(staging_path("/c", "abc", "1"), staging_path("/c", "abc", "2"));
}

#[test]
fn staging_path_is_never_a_store() {
    for key in ["abc", "77-abc", "77-abc.partial", "abc.store"] {
        assert_ne!(staging_path("/c", "abc", "77"), path_for("/c", key));
    }
}

#[test]
fn lookup_finds_the_store_of_a_key() {
    let files = vec!["/c/abc.store".to_string(), "/c/7-def.partial".to_string()];
    assert_eq!(lookup("/c", &files, "abc"), Some("/c/abc.store".to_string()));
}

#[test]
fn lookup_misses_what_is_not_there() {
    let files = vec!["/c/abc.store".to_string(), "/c/7-def.partial".to_string()];
    assert_eq!(lookup("/c", &files, "def"), None);
    assert_eq!(lookup("/c", &files, "ab"), None);
    assert_eq!(lookup("/d", &files, "abc"), None);
    assert_eq!(lookup("/c", &Vec::new(), "abc"), None);
}

#[test]
fn lookup_takes_references_and_identifiers_alike() {
    let files = vec!["/c/main.store".to_string(), "/c/0a1b2c.store".to_string()];
    assert_eq!(lookup("/c", &files, "main"), Some(path_for("/c", "main")));
    assert_eq!(lookup("/c", &files, "0a1b2c"), Some(path_for("/c", "0a1b2c")));
}
