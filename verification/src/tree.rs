//! A model of the file tree, and of what each step does to it.
//!
//! The model tells what a plan leaves on disk when every step of it
//! succeeds. A tree maps each path that exists to what lies there.

use vstd::prelude::*;
use crate::manifest::InfoPlistView;
use crate::path::PathView;
use crate::step::StepView;

verus! {

/// What a file holds.
pub enum FileData {
    /// Bytes that were found on disk or copied from there.
    Bytes(Seq<u8>),
    /// A manifest that the assembly wrote.
    Manifest(InfoPlistView),
}

/// What lies at a path.
pub enum Node {
    Dir,
    File(FileData),
}

/// The paths that exist, each with what lies there.
pub type FileTree = Map<PathView, Node>;

impl PathView {
    /// `self` lies below `base`, and is not `base` itself.
    pub open spec fn is_below(self, base: PathView) -> bool {
        self.starts_with(base) && self.parts.len() > base.parts.len()
    }

    /// The path that lies below `to` as `self` lies below `from`.
    pub open spec fn rebase(self, from: PathView, to: PathView) -> PathView {
        PathView { root: to.root, parts: to.parts + self.parts.skip(from.parts.len() as int) }
    }
}

/// Neither of the two paths is the other or lies below it.
pub open spec fn apart(a: PathView, b: PathView) -> bool {
    !a.starts_with(b) && !b.starts_with(a)
}

/// The tree that `tree` becomes when the directory `from`, with all below
/// it, is copied to `to`: `to` and the paths above it are directories; every
/// path below `from` is found below `to` in the same place, with what it
/// holds; all else is as it was.
pub open spec fn copy_tree(tree: FileTree, from: PathView, to: PathView) -> FileTree {
    Map::new(
        |p: PathView|
            tree.dom().contains(p) || to.starts_with(p) || (p.is_below(to)
                && tree.dom().contains(p.rebase(to, from))),
        |p: PathView|
            if p.is_below(to) && tree.dom().contains(p.rebase(to, from)) {
                tree[p.rebase(to, from)]
            } else if to.starts_with(p) {
                Node::Dir
            } else {
                tree[p]
            },
    )
}

/// The tree that `tree` becomes when `step` is carried out and succeeds.
pub open spec fn apply(step: StepView, tree: FileTree) -> FileTree {
    match step {
        StepView::RemoveTree { path } => Map::new(
            |p: PathView| tree.dom().contains(p) && !p.starts_with(path),
            |p: PathView| tree[p],
        ),
        StepView::CreateDirAll { path } => Map::new(
            |p: PathView| tree.dom().contains(p) || path.starts_with(p),
            |p: PathView|
                if path.starts_with(p) {
                    Node::Dir
                } else {
                    tree[p]
                },
        ),
        StepView::CopyFile { from, to } => if tree.dom().contains(from) && tree[from] is File {
            tree.insert(to, tree[from])
        } else {
            tree
        },
        StepView::CopyTree { from, to } => copy_tree(tree, from, to),
        StepView::WriteManifest { path, manifest } => tree.insert(
            path,
            Node::File(FileData::Manifest(manifest)),
        ),
    }
}

/// The tree that `tree` becomes when `steps` are carried out in order and
/// all succeed.
pub open spec fn run(steps: Seq<StepView>, tree: FileTree) -> FileTree
    decreases steps.len(),
{
    if steps.len() == 0 {
        tree
    } else {
        apply(steps.last(), run(steps.drop_last(), tree))
    }
}

/// Carrying out one list of steps and then another is carrying out the two
/// lists joined.
pub proof fn lemma_run_concat(first: Seq<StepView>, second: Seq<StepView>, tree: FileTree)
    ensures
        run(first + second, tree) == run(second, run(first, tree)),
    decreases second.len(),
{
    if second.len() == 0 {
        assert(first + second =~= first);
    } else {
        lemma_run_concat(first, second.drop_last(), tree);
        assert((first + second).drop_last() =~= first + second.drop_last());
        assert((first + second).last() == second.last());
    }
}

/// Carrying out a single step.
pub proof fn lemma_run_one(step: StepView, tree: FileTree)
    ensures
        run(seq![step], tree) == apply(step, tree),
{
    assert(seq![step].drop_last() =~= Seq::<StepView>::empty());
    assert(run(Seq::<StepView>::empty(), tree) == tree);
}

/// The two trees hold the same at every path that is not `place` and does
/// not lie below it.
pub open spec fn same_outside(first: FileTree, second: FileTree, place: PathView) -> bool {
    forall|p: PathView|
        !p.starts_with(place) ==> (first.dom().contains(p) <==> second.dom().contains(p)) && (
        first.dom().contains(p) ==> first[p] == second[p])
}

/// A plan that begins by removing `place` leaves the same tree whatever lay
/// at `place` before.
pub proof fn lemma_removal_forgets(
    place: PathView,
    rest: Seq<StepView>,
    first: FileTree,
    second: FileTree,
)
    requires
        same_outside(first, second, place),
    ensures
        run(seq![StepView::RemoveTree { path: place }] + rest, first) == run(
            seq![StepView::RemoveTree { path: place }] + rest,
            second,
        ),
{
    let removal = StepView::RemoveTree { path: place };
    lemma_run_concat(seq![removal], rest, first);
    lemma_run_concat(seq![removal], rest, second);
    lemma_run_one(removal, first);
    lemma_run_one(removal, second);
    assert(apply(removal, first) =~= apply(removal, second));
}

impl StepView {
    /// Whether the step can put something at `p` where nothing was.
    pub open spec fn may_write(self, p: PathView) -> bool {
        match self {
            StepView::RemoveTree { .. } => false,
            StepView::CreateDirAll { path } => path.starts_with(p),
            StepView::CopyFile { to, .. } => p == to,
            StepView::CopyTree { to, .. } => to.starts_with(p) || p.is_below(to),
            StepView::WriteManifest { path, .. } => p == path,
        }
    }
}

/// What exists after a step existed before it, or the step can have put it
/// there.
pub proof fn lemma_apply_writes(step: StepView, tree: FileTree, p: PathView)
    requires
        apply(step, tree).dom().contains(p),
    ensures
        tree.dom().contains(p) || step.may_write(p),
{
}

/// What exists after a plan of which no step can have put it there existed
/// before the plan.
pub proof fn lemma_run_writes(steps: Seq<StepView>, tree: FileTree, p: PathView)
    requires
        run(steps, tree).dom().contains(p),
        forall|i: int| 0 <= i < steps.len() ==> !(#[trigger] steps[i]).may_write(p),
    ensures
        tree.dom().contains(p),
    decreases steps.len(),
{
    if steps.len() > 0 {
        let rest = steps.drop_last();
        lemma_apply_writes(steps.last(), run(rest, tree), p);
        assert(!steps[steps.len() - 1].may_write(p));
        assert forall|i: int| 0 <= i < rest.len() implies !(#[trigger] rest[i]).may_write(p) by {
            assert(rest[i] == steps[i]);
        }
        lemma_run_writes(rest, tree, p);
    }
}

} // verus!
