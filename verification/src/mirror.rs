//! Copying a directory tree file by file leaves a mirror of it, and doing it
//! again changes nothing.

use vstd::prelude::*;
use crate::copy::{copy_directory_spec, copy_entries_spec, TreeEntry};
use crate::path::{
    lemma_join_starts_with, lemma_starts_with_index, lemma_starts_with_intro,
    lemma_starts_with_trans, PathView,
};
use crate::step::StepView;
use crate::tree::{apart, apply, copy_tree, lemma_run_concat, lemma_run_one, run, FileTree, Node};

verus! {

/// `entries` is the listing of the directory `dir` of `tree`, all the way
/// down: `dir` is a directory; no two entries have the same name; each entry
/// lies in `dir` as what the listing says it is, a file with nothing below it
/// or a directory with its own listing; and nothing else lies in `dir`.
pub open spec fn lists(tree: FileTree, dir: PathView, entries: Seq<TreeEntry>) -> bool
    decreases entries,
{
    &&& tree.dom().contains(dir)
    &&& tree[dir] is Dir
    &&& forall|i: int, j: int|
        0 <= i < j < entries.len() ==> (#[trigger] entries[i]).name_spec() != (
        #[trigger] entries[j]).name_spec()
    &&& forall|i: int|
        0 <= i < entries.len() ==> match #[trigger] entries[i] {
            TreeEntry::File { name } => {
                &&& tree.dom().contains(dir.join(name@))
                &&& tree[dir.join(name@)] is File
                &&& forall|p: PathView|
                    tree.dom().contains(p) && #[trigger] p.starts_with(dir.join(name@)) ==> p
                        == dir.join(name@)
            },
            TreeEntry::Dir { name, entries: below } => lists(tree, dir.join(name@), below@),
        }
    &&& forall|p: PathView|
        tree.dom().contains(p) && #[trigger] p.is_below(dir) ==> exists|i: int|
            0 <= i < entries.len() && p.parts[dir.parts.len() as int] == (
            #[trigger] entries[i]).name_spec()
}

/// The two trees hold the same at `place` and at every path below it.
pub open spec fn same_below(first: FileTree, second: FileTree, place: PathView) -> bool {
    forall|p: PathView|
        #[trigger] p.starts_with(place) ==> (first.dom().contains(p) <==> second.dom().contains(p))
            && (first.dom().contains(p) ==> first[p] == second[p])
}

/// A listing of a directory is a listing of it in every tree that holds the
/// same there.
proof fn lemma_lists_frame(
    first: FileTree,
    second: FileTree,
    dir: PathView,
    entries: Seq<TreeEntry>,
)
    requires
        lists(first, dir, entries),
        same_below(first, second, dir),
    ensures
        lists(second, dir, entries),
    decreases entries,
{
    assert(dir.starts_with(dir)) by {
        lemma_starts_with_intro(dir, dir);
    }
    assert forall|i: int| 0 <= i < entries.len() implies match #[trigger] entries[i] {
        TreeEntry::File { name } => {
            &&& second.dom().contains(dir.join(name@))
            &&& second[dir.join(name@)] is File
            &&& forall|p: PathView|
                second.dom().contains(p) && #[trigger] p.starts_with(dir.join(name@)) ==> p
                    == dir.join(name@)
        },
        TreeEntry::Dir { name, entries: below } => lists(second, dir.join(name@), below@),
    } by {
        let sub = dir.join(entries[i].name_spec());
        lemma_join_starts_with(dir, entries[i].name_spec());
        assert forall|p: PathView| #[trigger] p.starts_with(sub) implies p.starts_with(dir) by {
            lemma_starts_with_trans(p, sub, dir);
        }
        assert(sub.starts_with(sub)) by {
            lemma_starts_with_intro(sub, sub);
        }
        match entries[i] {
            TreeEntry::File { name } => {},
            TreeEntry::Dir { name, entries: below } => {
                lemma_lists_frame(first, second, sub, below@);
            },
        }
    }
    assert forall|p: PathView| second.dom().contains(p) && #[trigger] p.is_below(dir) implies exists|
        i: int,
    |
        0 <= i < entries.len() && p.parts[dir.parts.len() as int] == (
        #[trigger] entries[i]).name_spec() by {
        assert(first.dom().contains(p));
    }
}

/// Of two paths that a third starts with, the longer starts with the shorter.
proof fn lemma_prefixes_nest(p: PathView, short: PathView, long: PathView)
    requires
        p.starts_with(short),
        p.starts_with(long),
        short.parts.len() <= long.parts.len(),
    ensures
        long.starts_with(short),
{
    assert forall|i: int| 0 <= i < short.parts.len() implies long.parts[i] == short.parts[i] by {
        lemma_starts_with_index(p, short, i);
        lemma_starts_with_index(p, long, i);
    }
    lemma_starts_with_intro(long, short);
}

/// What lies at one of two places that are apart, or below it, is apart from
/// the other place.
proof fn lemma_apart_below(from: PathView, to: PathView, p: PathView)
    requires
        apart(from, to),
        p.starts_with(from),
    ensures
        !p.starts_with(to),
        !to.starts_with(p),
{
    if p.starts_with(to) {
        if from.parts.len() <= to.parts.len() {
            lemma_prefixes_nest(p, from, to);
        } else {
            lemma_prefixes_nest(p, to, from);
        }
    }
    if to.starts_with(p) {
        lemma_starts_with_trans(to, p, from);
    }
}

/// The entries of the same name in two directories that are apart are apart.
proof fn lemma_apart_join(from: PathView, to: PathView, name: Seq<char>)
    requires
        apart(from, to),
    ensures
        apart(from.join(name), to.join(name)),
{
    let f = from.join(name);
    let t = to.join(name);
    if f.starts_with(t) {
        assert forall|i: int| 0 <= i < to.parts.len() implies from.parts[i] == to.parts[i] by {
            lemma_starts_with_index(f, t, i);
        }
        lemma_starts_with_intro(from, to);
    }
    if t.starts_with(f) {
        assert forall|i: int| 0 <= i < from.parts.len() implies to.parts[i] == from.parts[i] by {
            lemma_starts_with_index(t, f, i);
        }
        lemma_starts_with_intro(to, from);
    }
}

/// Where a path below `to` is found below `from`.
proof fn lemma_rebase(p: PathView, to: PathView, from: PathView)
    requires
        p.starts_with(to),
    ensures
        p.rebase(to, from).starts_with(from),
        p.rebase(to, from).parts.len() == from.parts.len() + p.parts.len() - to.parts.len(),
        p.is_below(to) ==> p.rebase(to, from).is_below(from) && p.rebase(to, from).parts[from.parts.len() as int]
            == p.parts[to.parts.len() as int],
        p.rebase(to, from).rebase(from, to) == p,
{
    let q = p.rebase(to, from);
    lemma_starts_with_intro(q, from);
    assert(q.rebase(from, to).parts =~= p.parts) by {
        assert forall|i: int| 0 <= i < p.parts.len() implies q.rebase(from, to).parts[i]
            == p.parts[i] by {
            if i < to.parts.len() {
                lemma_starts_with_index(p, to, i);
            }
        }
    }
}

/// A path below the entry `name` of `to` is found in the same place below
/// `from`, whether it is looked for from the two directories or from their
/// two entries.
proof fn lemma_rebase_join(p: PathView, to: PathView, from: PathView, name: Seq<char>)
    requires
        p.starts_with(to.join(name)),
    ensures
        p.rebase(to.join(name), from.join(name)) == p.rebase(to, from),
        p.is_below(to),
        p.parts[to.parts.len() as int] == name,
{
    lemma_join_starts_with(to, name);
    lemma_starts_with_index(p, to.join(name), to.parts.len() as int);
    lemma_starts_with_trans(p, to.join(name), to);
    assert(p.rebase(to.join(name), from.join(name)).parts =~= p.rebase(to, from).parts);
}

/// Whether one of the first `count` of `entries` is called `name`.
spec fn named_before(entries: Seq<TreeEntry>, count: int, name: Seq<char>) -> bool {
    exists|i: int| 0 <= i < count && (#[trigger] entries[i]).name_spec() == name
}

/// The tree that `tree` becomes when `to` has been made and the first `count`
/// of the `entries` of `from` have been copied into it.
spec fn copied_part(
    tree: FileTree,
    from: PathView,
    to: PathView,
    entries: Seq<TreeEntry>,
    count: int,
) -> FileTree {
    Map::new(
        |p: PathView|
            tree.dom().contains(p) || to.starts_with(p) || (p.is_below(to) && named_before(
                entries,
                count,
                p.parts[to.parts.len() as int],
            ) && tree.dom().contains(p.rebase(to, from))),
        |p: PathView|
            if p.is_below(to) && named_before(entries, count, p.parts[to.parts.len() as int])
                && tree.dom().contains(p.rebase(to, from)) {
                tree[p.rebase(to, from)]
            } else if to.starts_with(p) {
                Node::Dir
            } else {
                tree[p]
            },
    )
}

/// Copying into a place that is apart from the source leaves the source as it
/// was.
proof fn lemma_copied_part_spares_source(
    tree: FileTree,
    from: PathView,
    to: PathView,
    entries: Seq<TreeEntry>,
    count: int,
)
    requires
        apart(from, to),
    ensures
        same_below(tree, copied_part(tree, from, to, entries, count), from),
{
    let part = copied_part(tree, from, to, entries, count);
    assert forall|p: PathView| #[trigger] p.starts_with(from) implies (tree.dom().contains(p)
        <==> part.dom().contains(p)) && (tree.dom().contains(p) ==> tree[p] == part[p]) by {
        lemma_apart_below(from, to, p);
    }
}

/// Copying the first `count` entries of a directory, after its place has
/// been made, leaves what [`copied_part`] says; and copying a directory whole
/// leaves what [`copy_tree`] says.
proof fn lemma_copy_entries(
    tree: FileTree,
    from: PathView,
    to: PathView,
    entries: Seq<TreeEntry>,
    count: int,
)
    requires
        lists(tree, from, entries),
        apart(from, to),
        0 <= count <= entries.len(),
    ensures
        run(
            copy_entries_spec(entries.take(count), from, to),
            apply(StepView::CreateDirAll { path: to }, tree),
        ) == copied_part(tree, from, to, entries, count),
    decreases entries, count,
{
    let made = apply(StepView::CreateDirAll { path: to }, tree);
    if count == 0 {
        assert(copy_entries_spec(entries.take(0), from, to) =~= Seq::<StepView>::empty());
        assert(made =~= copied_part(tree, from, to, entries, 0));
    } else {
        let k = count - 1;
        let entry = entries[k];
        let name = entry.name_spec();
        let sub_from = from.join(name);
        let sub_to = to.join(name);
        let before = copied_part(tree, from, to, entries, k);
        let after = copied_part(tree, from, to, entries, count);
        lemma_copy_entries(tree, from, to, entries, k);
        assert(entries.take(count).drop_last() =~= entries.take(k));
        assert(entries.take(count).last() == entry);
        lemma_join_starts_with(from, name);
        lemma_join_starts_with(to, name);
        lemma_apart_below(from, to, sub_from);
        lemma_copied_part_spares_source(tree, from, to, entries, k);
        assert forall|n: Seq<char>| named_before(entries, count, n) <==> (named_before(
            entries,
            k,
            n,
        ) || n == name) by {
            if named_before(entries, count, n) {
                let i = choose|i: int| 0 <= i < count && (#[trigger] entries[i]).name_spec() == n;
                if i < k {
                    assert(named_before(entries, k, n));
                }
            }
            if named_before(entries, k, n) {
                let i = choose|i: int| 0 <= i < k && (#[trigger] entries[i]).name_spec() == n;
                assert(0 <= i < count);
            }
            if n == name {
                assert(entries[k].name_spec() == n);
            }
        }
        let rest = copy_entries_spec(entries.take(k), from, to);
        match entry {
            TreeEntry::File { name: file_name } => {
                let step = StepView::CopyFile { from: sub_from, to: sub_to };
                assert(copy_entries_spec(entries.take(count), from, to) == rest + seq![step]);
                lemma_run_concat(rest, seq![step], made);
                lemma_run_one(step, before);
                assert(sub_from.starts_with(sub_from)) by {
                    lemma_starts_with_intro(sub_from, sub_from);
                }
                assert(before.dom().contains(sub_from) && before[sub_from] == tree[sub_from]);
                assert(sub_to.rebase(to, from) == sub_from) by {
                    assert(sub_to.rebase(to, from).parts =~= sub_from.parts);
                }
                assert(apply(step, before) =~= after) by {
                    assert(after.dom().contains(sub_to) && after[sub_to] == tree[sub_from]) by {
                        assert(sub_to.is_below(to));
                        assert(named_before(entries, count, sub_to.parts[to.parts.len() as int]));
                    }
                    assert forall|p: PathView| p != sub_to implies (#[trigger] before.dom().contains(p)
                        <==> after.dom().contains(p)) && (before.dom().contains(p) ==> before[p]
                        == after[p]) by {
                        if p.is_below(to) && p.parts[to.parts.len() as int] == name
                            && tree.dom().contains(p.rebase(to, from)) {
                            let q = p.rebase(to, from);
                            lemma_rebase(p, to, from);
                            assert(q.starts_with(sub_from)) by {
                                assert forall|i: int| 0 <= i < sub_from.parts.len() implies q.parts[i]
                                    == sub_from.parts[i] by {
                                    if i < from.parts.len() {
                                        lemma_starts_with_index(q, from, i);
                                    }
                                }
                                lemma_starts_with_intro(q, sub_from);
                            }
                            assert(q == sub_from);
                            assert(sub_from.rebase(from, to).parts =~= sub_to.parts);
                            assert(p == sub_to);
                        }
                    }
                }
            },
            TreeEntry::Dir { name: dir_name, entries: below } => {
                let steps = copy_directory_spec(below@, sub_from, sub_to);
                assert(copy_entries_spec(entries.take(count), from, to) == rest + steps);
                lemma_run_concat(rest, steps, made);
                assert forall|p: PathView| #[trigger] p.starts_with(sub_from) implies p.starts_with(
                    from,
                ) by {
                    lemma_starts_with_trans(p, sub_from, from);
                }
                lemma_lists_frame(tree, before, sub_from, below@);
                lemma_apart_join(from, to, name);
                lemma_copy_directory_is_copy_tree(before, sub_from, sub_to, below@);
                assert(copy_tree(before, sub_from, sub_to) =~= after) by {
                    let merged = copy_tree(before, sub_from, sub_to);
                    assert forall|p: PathView| #[trigger]
                        merged.dom().contains(p) == after.dom().contains(p) by {
                        lemma_merge_entry(tree, from, to, entries, count, p);
                    }
                    assert(merged.dom() =~= after.dom());
                    assert forall|p: PathView| #[trigger]
                        merged.dom().contains(p) implies merged[p] == after[p] by {
                        lemma_merge_entry(tree, from, to, entries, count, p);
                    }
                }
            },
        }
    }
}

/// One path of the tree that copying the directory at `entries[count - 1]`
/// leaves.
proof fn lemma_merge_entry(
    tree: FileTree,
    from: PathView,
    to: PathView,
    entries: Seq<TreeEntry>,
    count: int,
    p: PathView,
)
    requires
        lists(tree, from, entries),
        apart(from, to),
        0 < count <= entries.len(),
        entries[count - 1] is Dir,
        forall|n: Seq<char>|
            named_before(entries, count, n) <==> (named_before(entries, count - 1, n) || n
                == entries[count - 1].name_spec()),
    ensures
        ({
            let name = entries[count - 1].name_spec();
            let before = copied_part(tree, from, to, entries, count - 1);
            let after = copied_part(tree, from, to, entries, count);
            let merged = copy_tree(before, from.join(name), to.join(name));
            (merged.dom().contains(p) <==> after.dom().contains(p)) && (after.dom().contains(p)
                ==> merged[p] == after[p])
        }),
{
    reveal_with_fuel(lists, 2);
    let name = entries[count - 1].name_spec();
    let sub_from = from.join(name);
    let sub_to = to.join(name);
    let before = copied_part(tree, from, to, entries, count - 1);
    let after = copied_part(tree, from, to, entries, count);
    let merged = copy_tree(before, sub_from, sub_to);
    lemma_join_starts_with(from, name);
    lemma_join_starts_with(to, name);
    lemma_copied_part_spares_source(tree, from, to, entries, count - 1);
    assert(tree.dom().contains(sub_from) && tree[sub_from] is Dir);
    assert(sub_to.rebase(to, from) == sub_from) by {
        assert(sub_to.rebase(to, from).parts =~= sub_from.parts);
    }
    if p.is_below(sub_to) {
        lemma_rebase_join(p, to, from, name);
        lemma_rebase(p, to, from);
        let q = p.rebase(to, from);
        assert(q.starts_with(from));
        assert(before.dom().contains(q) <==> tree.dom().contains(q));
        assert(tree.dom().contains(q) ==> before[q] == tree[q]);
        assert(!sub_to.starts_with(p)) by {
            if sub_to.starts_with(p) {
                lemma_starts_with_index(sub_to, p, 0);
            }
        }
        assert(!to.starts_with(p)) by {
            if to.starts_with(p) {
                lemma_starts_with_index(to, p, 0);
            }
        }
    } else if sub_to.starts_with(p) {
        if p.parts.len() == sub_to.parts.len() {
            assert(p.parts =~= sub_to.parts) by {
                assert forall|i: int| 0 <= i < p.parts.len() implies p.parts[i]
                    == sub_to.parts[i] by {
                    lemma_starts_with_index(sub_to, p, i);
                }
            }
            assert(p == sub_to);
            assert(p.is_below(to));
        } else {
            assert(to.starts_with(p)) by {
                assert forall|i: int| 0 <= i < p.parts.len() implies to.parts[i] == p.parts[i] by {
                    lemma_starts_with_index(sub_to, p, i);
                }
                lemma_starts_with_intro(to, p);
            }
        }
    } else {
        assert(!to.starts_with(p)) by {
            if to.starts_with(p) {
                lemma_starts_with_trans(sub_to, to, p);
            }
        }
        if p.is_below(to) && p.parts[to.parts.len() as int] == name {
            assert(p.starts_with(sub_to)) by {
                assert forall|i: int| 0 <= i < sub_to.parts.len() implies p.parts[i]
                    == sub_to.parts[i] by {
                    if i < to.parts.len() {
                        lemma_starts_with_index(p, to, i);
                    }
                }
                lemma_starts_with_intro(p, sub_to);
            }
            assert(p.parts.len() == sub_to.parts.len());
            assert(sub_to.starts_with(p)) by {
                assert forall|i: int| 0 <= i < p.parts.len() implies sub_to.parts[i]
                    == p.parts[i] by {
                    lemma_starts_with_index(p, sub_to, i);
                }
                lemma_starts_with_intro(sub_to, p);
            }
        }
    }
}

/// Copying a directory file by file, as its listing says, leaves the tree
/// that copying the directory leaves.
pub proof fn lemma_copy_directory_is_copy_tree(
    tree: FileTree,
    from: PathView,
    to: PathView,
    entries: Seq<TreeEntry>,
)
    requires
        lists(tree, from, entries),
        apart(from, to),
    ensures
        run(copy_directory_spec(entries, from, to), tree) == copy_tree(tree, from, to),
    decreases entries, entries.len() + 1,
{
    let first = StepView::CreateDirAll { path: to };
    let rest = copy_entries_spec(entries, from, to);
    let count = entries.len() as int;
    lemma_run_concat(seq![first], rest, tree);
    lemma_run_one(first, tree);
    lemma_copy_entries(tree, from, to, entries, count);
    assert(entries.take(count) =~= entries);
    assert(copied_part(tree, from, to, entries, count) =~= copy_tree(tree, from, to)) by {
        assert forall|p: PathView|
            p.is_below(to) && tree.dom().contains(p.rebase(to, from)) implies named_before(
            entries,
            count,
            p.parts[to.parts.len() as int],
        ) by {
            lemma_rebase(p, to, from);
            let q = p.rebase(to, from);
            assert(q.is_below(from));
            let i = choose|i: int|
                0 <= i < entries.len() && q.parts[from.parts.len() as int] == (
                #[trigger] entries[i]).name_spec();
            assert(entries[i].name_spec() == p.parts[to.parts.len() as int]);
        }
    }
}

/// Copying a directory to a place that is apart from it leaves the
/// directory, and all below it, as it was.
pub proof fn lemma_copy_tree_spares_source(tree: FileTree, from: PathView, to: PathView)
    requires
        apart(from, to),
    ensures
        same_below(tree, copy_tree(tree, from, to), from),
{
    let after = copy_tree(tree, from, to);
    assert forall|p: PathView| #[trigger] p.starts_with(from) implies (tree.dom().contains(p)
        <==> after.dom().contains(p)) && (tree.dom().contains(p) ==> tree[p] == after[p]) by {
        lemma_apart_below(from, to, p);
    }
}

/// Copying a directory a second time changes nothing.
pub proof fn lemma_copy_tree_idempotent(tree: FileTree, from: PathView, to: PathView)
    requires
        apart(from, to),
    ensures
        copy_tree(copy_tree(tree, from, to), from, to) == copy_tree(tree, from, to),
{
    let once = copy_tree(tree, from, to);
    let twice = copy_tree(once, from, to);
    lemma_copy_tree_spares_source(tree, from, to);
    assert forall|p: PathView| #[trigger] twice.dom().contains(p) == once.dom().contains(p) by {
        if p.is_below(to) {
            lemma_rebase(p, to, from);
        }
    }
    assert(twice.dom() =~= once.dom());
    assert forall|p: PathView| #[trigger] twice.dom().contains(p) implies twice[p] == once[p] by {
        if p.is_below(to) {
            lemma_rebase(p, to, from);
        }
    }
    assert(twice =~= once);
}

/// Copying a directory file by file is idempotent: carried out a second
/// time, the steps leave the tree that they left the first time.
pub proof fn lemma_copy_directory_idempotent(
    tree: FileTree,
    from: PathView,
    to: PathView,
    entries: Seq<TreeEntry>,
)
    requires
        lists(tree, from, entries),
        apart(from, to),
    ensures
        run(
            copy_directory_spec(entries, from, to),
            run(copy_directory_spec(entries, from, to), tree),
        ) == run(copy_directory_spec(entries, from, to), tree),
{
    let once = copy_tree(tree, from, to);
    lemma_copy_directory_is_copy_tree(tree, from, to, entries);
    lemma_copy_tree_spares_source(tree, from, to);
    lemma_lists_frame(tree, once, from, entries);
    lemma_copy_directory_is_copy_tree(once, from, to, entries);
    lemma_copy_tree_idempotent(tree, from, to);
}

/// Copying a directory file by file leaves a mirror of it. The source is as
/// it was. Every path of the source is found at the destination, in the same
/// place below it, and holds the same: a directory for a directory, and for a
/// file a file of the same bytes. And where nothing lay below the destination
/// before, nothing lies there after but what the source holds.
pub proof fn lemma_copy_directory_mirrors(
    tree: FileTree,
    from: PathView,
    to: PathView,
    entries: Seq<TreeEntry>,
)
    requires
        lists(tree, from, entries),
        apart(from, to),
    ensures
        ({
            let after = run(copy_directory_spec(entries, from, to), tree);
            &&& same_below(tree, after, from)
            &&& forall|p: PathView|
                tree.dom().contains(p) && #[trigger] p.starts_with(from) ==> after.dom().contains(
                    p.rebase(from, to),
                ) && after[p.rebase(from, to)] == tree[p]
            &&& (forall|q: PathView| #[trigger] q.is_below(to) ==> !tree.dom().contains(q))
                ==> forall|q: PathView|
                after.dom().contains(q) && #[trigger] q.starts_with(to) ==> tree.dom().contains(
                    q.rebase(to, from),
                )
        }),
{
    let after = copy_tree(tree, from, to);
    lemma_copy_directory_is_copy_tree(tree, from, to, entries);
    lemma_copy_tree_spares_source(tree, from, to);
    assert forall|p: PathView| tree.dom().contains(p) && #[trigger] p.starts_with(from) implies after.dom().contains(
        p.rebase(from, to),
    ) && after[p.rebase(from, to)] == tree[p] by {
        lemma_rebase(p, from, to);
        let q = p.rebase(from, to);
        if p.parts.len() == from.parts.len() {
            assert(q.parts =~= to.parts);
            assert(p.parts =~= from.parts) by {
                assert forall|i: int| 0 <= i < p.parts.len() implies p.parts[i] == from.parts[i] by {
                    lemma_starts_with_index(p, from, i);
                }
            }
            assert(to.starts_with(q)) by {
                lemma_starts_with_intro(to, q);
            }
        } else {
            assert(q.is_below(to));
        }
    }
    if forall|q: PathView| #[trigger] q.is_below(to) ==> !tree.dom().contains(q) {
        assert forall|q: PathView| after.dom().contains(q) && #[trigger] q.starts_with(
            to,
        ) implies tree.dom().contains(q.rebase(to, from)) by {
            if q.is_below(to) {
                assert(!tree.dom().contains(q));
                assert(!to.starts_with(q)) by {
                    if to.starts_with(q) {
                        lemma_starts_with_index(to, q, 0);
                    }
                }
            } else {
                assert(q.rebase(to, from).parts =~= from.parts);
                assert(q.rebase(to, from) == from);
            }
        }
    }
}

} // verus!
