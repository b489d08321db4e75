use std::collections::BTreeMap;

use desktop_bundler::bundle::bundle;
use desktop_bundler::config::{AppConfig, Layout};
use desktop_bundler::copy::{copy_directory, TreeEntry};
use desktop_bundler::helper::HelperKind;
use desktop_bundler::path::FilePath;
use desktop_bundler::step::Step;

/// What lies at a path of the in-memory tree: `None` for a directory, the
/// contents for a file.
type Tree = BTreeMap<(String, Vec<String>), Option<String>>;

fn key(path: &FilePath) -> (String, Vec<String>) {
    (path.root.clone(), path.parts.clone())
}

fn below(p: &(String, Vec<String>), base: &(String, Vec<String>)) -> bool {
    p.0 == base.0 && p.1.starts_with(&base.1)
}

fn make_dirs(tree: &mut Tree, path: &FilePath) {
    for n in 0..=path.parts.len() {
        tree.insert((path.root.clone(), path.parts[..n].to_vec()), None);
    }
}

fn carry_out(tree: &mut Tree, step: &Step) {
    match step {
        Step::RemoveTree { path } => {
            let base = key(path);
            tree.retain(|p, _| !below(p, &base));
        }
        Step::CreateDirAll { path } => make_dirs(tree, path),
        Step::CopyFile { from, to } => {
            if let Some(Some(data)) = tree.get(&key(from)).cloned() {
                tree.insert(key(to), Some(data));
            }
        }
        Step::CopyTree { from, to } => {
            make_dirs(tree, to);
            let base = key(from);
            let found: Vec<_> =
                tree.iter().filter(|(p, _)| below(p, &base)).map(|(p, v)| (p.clone(), v.clone())).collect();
            for (p, v) in found {
                if p.1.len() > base.1.len() {
                    let mut parts = to.parts.clone();
                    parts.extend_from_slice(&p.1[base.1.len()..]);
                    tree.insert((to.root.clone(), parts), v);
                }
            }
        }
        Step::WriteManifest { path, manifest } => {
            tree.insert(key(path), Some(format!("manifest of {}", manifest.cf_bundle_identifier)));
        }
    }
}

fn carry_out_all(tree: &mut Tree, steps: &[Step]) {
    for step in steps {
        carry_out(tree, step);
    }
}

fn source_tree() -> (Tree, Vec<TreeEntry>, FilePath) {
    let src = FilePath::new("/src");
    let mut tree = Tree::new();
    make_dirs(&mut tree, &src);
    tree.insert(key(&src.join("a")), Some("alpha".to_string()));
    make_dirs(&mut tree, &src.join("lib"));
    tree.insert(key(&src.join("lib").join("x")), Some("ex".to_string()));
    make_dirs(&mut tree, &src.join("lib").join("empty"));
    tree.insert(key(&src.join("z")), Some(String::new()));
    let listing = vec![
        TreeEntry::File { name: "a".to_string() },
        TreeEntry::Dir {
            name: "lib".to_string(),
            entries: vec![
                TreeEntry::File { name: "x".to_string() },
                TreeEntry::Dir { name: "empty".to_string(), entries: vec![] },
            ],
        },
        TreeEntry::File { name: "z".to_string() },
    ];
    (tree, listing, src)
}

fn under(tree: &Tree, base: &FilePath) -> BTreeMap<Vec<String>, Option<String>> {
    let b = key(base);
    tree.iter()
        .filter(|(p, _)| below(p, &b))
        .map(|(p, v)| (p.1[b.1.len()..].to_vec(), v.clone()))
        .collect()
}

#[test]
fn copy_leaves_a_mirror_of_the_source() {
    let (mut tree, listing, src) = source_tree();
    let dst = FilePath::new("/dst").join("copy");
    let before = under(&tree, &src);
    carry_out_all(&mut tree, &copy_directory(&listing, &src, &dst));
    assert_eq!(under(&tree, &dst), before);
    assert_eq!(under(&tree, &src), before);
    assert_eq!(tree.get(&key(&dst.join("lib").join("x"))), Some(&Some("ex".to_string())));
    assert_eq!(tree.get(&key(&dst.join("lib").join("empty"))), Some(&None));
    assert_eq!(tree.get(&key(&FilePath::new("/dst"))), Some(&None));
}

#[test]
fn copying_twice_is_copying_once() {
    let (mut tree, listing, src) = source_tree();
    let dst = FilePath::new("/dst");
    let steps = copy_directory(&listing, &src, &dst);
    carry_out_all(&mut tree, &steps);
    let once = tree.clone();
    carry_out_all(&mut tree, &steps);
    assert_eq!(tree, once);
}

#[test]
fn copy_overwrites_files_and_keeps_what_the_source_lacks() {
    let (mut tree, listing, src) = source_tree();
    let dst = FilePath::new("/dst");
    make_dirs(&mut tree, &dst);
    tree.insert(key(&dst.join("a")), Some("old".to_string()));
    tree.insert(key(&dst.join("extra")), Some("kept".to_string()));
    carry_out_all(&mut tree, &copy_directory(&listing, &src, &dst));
    assert_eq!(tree.get(&key(&dst.join("a"))), Some(&Some("alpha".to_string())));
    assert_eq!(tree.get(&key(&dst.join("extra"))), Some(&Some("kept".to_string())));
}

#[test]
fn copying_file_by_file_is_copying_the_tree() {
    let (tree, listing, src) = source_tree();
    let dst = FilePath::new("/dst").join("deep").join("copy");
    let mut by_files = tree.clone();
    carry_out_all(&mut by_files, &copy_directory(&listing, &src, &dst));
    let mut whole = tree.clone();
    carry_out(&mut whole, &Step::CopyTree { from: src.duplicate(), to: dst.duplicate() });
    assert_eq!(by_files, whole);
}

fn config() -> AppConfig {
    AppConfig {
        package: "pkg".to_string(),
        identifier: "com.example.App".to_string(),
        name: "Example".to_string(),
        layout: Layout::MacApp { helper_kinds: HelperKind::all() },
    }
}

fn build_outputs() -> (Tree, FilePath, FilePath, FilePath, FilePath) {
    let out = FilePath::new("/out");
    let app_bin = FilePath::new("/build").join("pkg-app");
    let helper_bin = FilePath::new("/build").join("pkg-helper");
    let cef = FilePath::new("/cef");
    let mut tree = Tree::new();
    make_dirs(&mut tree, &out);
    make_dirs(&mut tree, &FilePath::new("/build"));
    tree.insert(key(&app_bin), Some("app binary".to_string()));
    tree.insert(key(&helper_bin), Some("helper binary".to_string()));
    let framework = cef.join("Chromium Embedded Framework.framework");
    make_dirs(&mut tree, &framework.join("Libraries"));
    tree.insert(key(&framework.join("Libraries").join("libcef")), Some("cef".to_string()));
    (tree, out, app_bin, helper_bin, cef)
}

#[test]
fn stale_bundle_contents_do_not_survive() {
    let (clean, out, app_bin, helper_bin, cef) = build_outputs();
    let plan = bundle(&config(), &out, &app_bin, &helper_bin, Some(&cef)).unwrap();

    let mut stale = clean.clone();
    let old = out.join("Example.app").join("Contents");
    make_dirs(&mut stale, &old.join("Frameworks").join("Old Helper.app"));
    stale.insert(key(&old.join("MacOS").join("Leftover")), Some("old".to_string()));
    stale.insert(key(&old.join("Info.plist")), Some("old manifest".to_string()));
    stale.insert(
        key(&old.join("Frameworks").join("Example Helper.app").join("Contents").join("Frameworks").join("junk")),
        Some("junk".to_string()),
    );

    let mut from_clean = clean.clone();
    carry_out_all(&mut from_clean, &plan.steps);
    let mut from_stale = stale;
    carry_out_all(&mut from_stale, &plan.steps);
    assert_eq!(from_stale, from_clean);
    assert!(!from_stale.contains_key(&key(&old.join("MacOS").join("Leftover"))));
    assert_eq!(
        from_stale.get(&key(&old.join("Info.plist"))),
        Some(&Some("manifest of com.example.App".to_string()))
    );
    assert_eq!(
        from_stale.get(&key(&old.join("MacOS").join("Example"))),
        Some(&Some("app binary".to_string()))
    );
}

#[test]
fn helper_frameworks_directories_are_empty_and_the_main_one_holds_the_framework() {
    let (mut tree, out, app_bin, helper_bin, cef) = build_outputs();
    let plan = bundle(&config(), &out, &app_bin, &helper_bin, Some(&cef)).unwrap();
    carry_out_all(&mut tree, &plan.steps);
    let frameworks = out.join("Example.app").join("Contents").join("Frameworks");
    for name in [
        "Example Helper.app",
        "Example Helper (GPU).app",
        "Example Helper (Renderer).app",
        "Example Helper (Plugin).app",
        "Example Helper (Alerts).app",
    ] {
        let nested = frameworks.join(name);
        let inner = under(&tree, &nested.join("Contents").join("Frameworks"));
        assert_eq!(inner.len(), 1, "only the directory itself: {name}");
        assert_eq!(
            tree.get(&key(&nested.join("Contents").join("MacOS").join(&name[..name.len() - 4]))),
            Some(&Some("helper binary".to_string()))
        );
    }
    let copies: Vec<_> = tree
        .keys()
        .filter(|p| p.1.last().map(|n| n == "libcef").unwrap_or(false) && p.0 == "/out")
        .collect();
    assert_eq!(
        copies,
        vec![&key(
            &frameworks
                .join("Chromium Embedded Framework.framework")
                .join("Libraries")
                .join("libcef")
        )]
    );
}
