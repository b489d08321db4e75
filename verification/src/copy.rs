//! Copying a directory tree, file by file.

use vstd::prelude::*;
use crate::path::{FilePath, PathView};
use crate::step::{step_views, Step, StepView};

verus! {

/// One entry of a directory, as a listing of the directory shows it.
#[derive(Debug)]
pub enum TreeEntry {
    /// Anything that is not a directory.
    File { name: String },
    /// A directory, with its own entries.
    Dir { name: String, entries: Vec<TreeEntry> },
}

impl TreeEntry {
    /// The entry's file name.
    pub open spec fn name_spec(self) -> Seq<char> {
        match self {
            TreeEntry::File { name } => name@,
            TreeEntry::Dir { name, .. } => name@,
        }
    }

    /// The entry's file name.
    pub fn name(&self) -> (r: &str)
        ensures
            r@ == self.name_spec(),
    {
        match self {
            TreeEntry::File { name } => name.as_str(),
            TreeEntry::Dir { name, .. } => name.as_str(),
        }
    }
}

/// The steps that copy `entries`, which the directory `from` holds, into the
/// directory `to`, in the order of the listing: a file is copied to the same
/// name; for a directory, the directory of the same name is made and its
/// entries are copied into it.
pub open spec fn copy_entries_spec(entries: Seq<TreeEntry>, from: PathView, to: PathView) -> Seq<
    StepView,
>
    decreases entries,
{
    if entries.len() == 0 {
        Seq::empty()
    } else {
        copy_entries_spec(entries.drop_last(), from, to) + match entries.last() {
            TreeEntry::File { name } => seq![
                StepView::CopyFile { from: from.join(name@), to: to.join(name@) },
            ],
            TreeEntry::Dir { name, entries: below } => seq![
                StepView::CreateDirAll { path: to.join(name@) },
            ] + copy_entries_spec(below@, from.join(name@), to.join(name@)),
        }
    }
}

/// The steps that copy the directory `from`, which holds `entries`, to `to`:
/// `to` is made, with the directories above it, and the entries are copied
/// into it.
pub open spec fn copy_directory_spec(entries: Seq<TreeEntry>, from: PathView, to: PathView) -> Seq<
    StepView,
> {
    seq![StepView::CreateDirAll { path: to }] + copy_entries_spec(entries, from, to)
}

/// Adds to `steps` the steps that copy `entries` from the directory `from`
/// into the directory `to`.
fn copy_entries(entries: &Vec<TreeEntry>, from: &FilePath, to: &FilePath, steps: &mut Vec<Step>)
    ensures
        step_views(final(steps)@) == step_views(old(steps)@) + copy_entries_spec(
            entries@,
            from@,
            to@,
        ),
    decreases entries,
{
    let n: usize = entries.len();
    let mut i: usize = 0;
    while i < n
        invariant
            n == entries.len(),
            i <= n,
            step_views(steps@) == step_views(old(steps)@) + copy_entries_spec(
                entries@.take(i as int),
                from@,
                to@,
            ),
        decreases n - i,
    {
        proof {
            assert(entries@.take(i as int + 1).drop_last() =~= entries@.take(i as int));
            assert(entries@.take(i as int + 1).last() == entries@[i as int]);
        }
        let ghost before = steps@;
        match &entries[i] {
            TreeEntry::File { name } => {
                steps.push(
                    Step::CopyFile { from: from.join(name.as_str()), to: to.join(name.as_str()) },
                );
                assert(step_views(steps@) =~= step_views(before).push(steps@.last()@));
            },
            TreeEntry::Dir { name, entries: below } => {
                let sub_from = from.join(name.as_str());
                let sub_to = to.join(name.as_str());
                steps.push(Step::CreateDirAll { path: sub_to.duplicate() });
                assert(step_views(steps@) =~= step_views(before).push(steps@.last()@));
                copy_entries(below, &sub_from, &sub_to, steps);
            },
        }
        i = i + 1;
        assert(step_views(steps@) =~= step_views(old(steps)@) + copy_entries_spec(
            entries@.take(i as int),
            from@,
            to@,
        ));
    }
    assert(entries@.take(n as int) =~= entries@);
}

/// The steps that copy the directory `from`, which holds `entries`, to `to`.
pub fn copy_directory(entries: &Vec<TreeEntry>, from: &FilePath, to: &FilePath) -> (r: Vec<Step>)
    ensures
        step_views(r@) == copy_directory_spec(entries@, from@, to@),
{
    let mut steps: Vec<Step> = Vec::new();
    steps.push(Step::CreateDirAll { path: to.duplicate() });
    assert(step_views(steps@) =~= seq![StepView::CreateDirAll { path: to@ }]);
    copy_entries(entries, from, to, &mut steps);
    steps
}

} // verus!
