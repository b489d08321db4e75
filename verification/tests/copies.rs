use desktop_bundler::copy::{copy_directory, TreeEntry};
use desktop_bundler::path::FilePath;
use desktop_bundler::step::Step;

fn file(name: &str) -> TreeEntry {
    TreeEntry::File { name: name.to_string() }
}

fn dir(name: &str, entries: Vec<TreeEntry>) -> TreeEntry {
    TreeEntry::Dir { name: name.to_string(), entries }
}

#[test]
fn empty_directory_is_copied_by_making_the_destination() {
    let from = FilePath::new("/src");
    let to = FilePath::new("/dst");
    assert_eq!(
        copy_directory(&Vec::new(), &from, &to),
        vec![Step::CreateDirAll { path: to.duplicate() }]
    );
}

#[test]
fn files_are_copied_to_the_same_names() {
    let from = FilePath::new("/cef").join("Framework");
    let to = FilePath::new("/out").join("App.app");
    let steps = copy_directory(&vec![file("a"), file("b.txt")], &from, &to);
    assert_eq!(
        steps,
        vec![
            Step::CreateDirAll { path: to.duplicate() },
            Step::CopyFile { from: from.join("a"), to: to.join("a") },
            Step::CopyFile { from: from.join("b.txt"), to: to.join("b.txt") },
        ]
    );
}

#[test]
fn nested_directories_are_made_before_their_files_in_listing_order() {
    let from = FilePath::new("/src");
    let to = FilePath::new("/dst");
    let listing = vec![
        file("top"),
        dir("lib", vec![file("x"), dir("deep", vec![file("y")]), dir("empty", vec![])]),
        file("last"),
    ];
    let steps = copy_directory(&listing, &from, &to);
    assert_eq!(
        steps,
        vec![
            Step::CreateDirAll { path: to.duplicate() },
            Step::CopyFile { from: from.join("top"), to: to.join("top") },
            Step::CreateDirAll { path: to.join("lib") },
            Step::CopyFile { from: from.join("lib").join("x"), to: to.join("lib").join("x") },
            Step::CreateDirAll { path: to.join("lib").join("deep") },
            Step::CopyFile {
                from: from.join("lib").join("deep").join("y"),
                to: to.join("lib").join("deep").join("y"),
            },
            Step::CreateDirAll { path: to.join("lib").join("empty") },
            Step::CopyFile { from: from.join("last"), to: to.join("last") },
        ]
    );
}

#[test]
fn entry_names() {
    assert_eq!(file("a").name(), "a");
    assert_eq!(dir("d", vec![file("a")]).name(), "d");
}

#[test]
fn copy_plan_is_the_same_each_time() {
    let from = FilePath::new("/src");
    let to = FilePath::new("/dst");
    let listing = vec![dir("lib", vec![file("x")])];
    assert_eq!(copy_directory(&listing, &from, &to), copy_directory(&listing, &from, &to));
}
