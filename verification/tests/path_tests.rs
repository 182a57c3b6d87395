use wasmer_js::path::{ancestors, slashify};

fn rooted(s: &str) -> String {
    let mut p = s.to_string();
    slashify(&mut p);
    p
}

#[test]
fn slashify_adds_root_to_relative_path() {
    assert_eq!(rooted("a/b.txt"), "/a/b.txt");
}

#[test]
fn slashify_keeps_rooted_path() {
    assert_eq!(rooted("/a/b.txt"), "/a/b.txt");
}

#[test]
fn slashify_roots_empty_path() {
    assert_eq!(rooted(""), "/");
}

#[test]
fn slashify_is_idempotent() {
    let once = rooted("docs/readme");
    assert_eq!(rooted(&once), once);
    assert_eq!(once, "/docs/readme");
}

#[test]
fn slashify_keeps_non_ascii_characters() {
    assert_eq!(rooted("é/ü"), "/é/ü");
}

#[test]
fn ancestors_of_nested_path_end_at_root() {
    assert_eq!(ancestors("/a/b/c"), vec!["/a/b/c", "/a/b", "/a", "/"]);
}

#[test]
fn ancestors_of_root_is_root_alone() {
    assert_eq!(ancestors("/"), vec!["/"]);
}

#[test]
fn ancestors_of_relative_name_end_with_empty_path() {
    assert_eq!(ancestors("a"), vec!["a", ""]);
}
