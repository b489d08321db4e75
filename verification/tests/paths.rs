use desktop_bundler::path::FilePath;
use desktop_bundler::text::{concat_text, owned, same_text};

#[test]
fn new_path_is_its_root() {
    let p = FilePath::new("/tmp/out");
    assert_eq!(p.root, "/tmp/out");
    assert!(p.parts.is_empty());
    assert_eq!(p.to_text(), "/tmp/out");
}

#[test]
fn join_adds_one_name_and_leaves_the_base_alone() {
    let base = FilePath::new("/tmp/out");
    let app = base.join("Example.app");
    let contents = app.join("Contents");
    assert_eq!(base.parts, Vec::<String>::new());
    assert_eq!(app.parts, vec!["Example.app".to_string()]);
    assert_eq!(contents.root, "/tmp/out");
    assert_eq!(contents.parts, vec!["Example.app".to_string(), "Contents".to_string()]);
    assert_eq!(contents.to_text(), "/tmp/out/Example.app/Contents");
}

#[test]
fn duplicate_is_equal_to_the_original() {
    let p = FilePath::new("target").join("release").join("a b");
    assert_eq!(p.duplicate(), p);
}

#[test]
fn text_helpers() {
    assert_eq!(owned("abc"), "abc");
    assert_eq!(concat_text("ab", "cd"), "abcd");
    assert_eq!(concat_text("", ""), "");
    assert!(same_text("debug", "debug"));
    assert!(!same_text("debug", "debug "));
    assert!(!same_text("a", "b"));
}
