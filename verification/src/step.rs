//! The operations on the file tree of which a plan is made.

use vstd::prelude::*;
use crate::manifest::{InfoPlist, InfoPlistView};
use crate::path::{FilePath, PathView};

verus! {

/// One operation on the file tree. A plan is carried out step by step, in
/// order, and is abandoned at the first step that fails.
#[derive(Debug, Clone, PartialEq, Eq)]
pub enum Step {
    /// Remove `path` and all below it, if it is there.
    RemoveTree { path: FilePath },
    /// Make `path` a directory, and every missing directory above it.
    CreateDirAll { path: FilePath },
    /// Copy the file `from` to `to`, replacing what is there.
    CopyFile { from: FilePath, to: FilePath },
    /// Copy the directory `from`, with all below it, to `to`, replacing the
    /// files that are there.
    CopyTree { from: FilePath, to: FilePath },
    /// Write `manifest` to the file `path`.
    WriteManifest { path: FilePath, manifest: InfoPlist },
}

/// The mathematical value of a [`Step`].
pub enum StepView {
    RemoveTree { path: PathView },
    CreateDirAll { path: PathView },
    CopyFile { from: PathView, to: PathView },
    CopyTree { from: PathView, to: PathView },
    WriteManifest { path: PathView, manifest: InfoPlistView },
}

impl View for Step {
    type V = StepView;

    open spec fn view(&self) -> StepView {
        match self {
            Step::RemoveTree { path } => StepView::RemoveTree { path: path@ },
            Step::CreateDirAll { path } => StepView::CreateDirAll { path: path@ },
            Step::CopyFile { from, to } => StepView::CopyFile { from: from@, to: to@ },
            Step::CopyTree { from, to } => StepView::CopyTree { from: from@, to: to@ },
            Step::WriteManifest { path, manifest } => StepView::WriteManifest {
                path: path@,
                manifest: manifest@,
            },
        }
    }
}

impl StepView {
    /// The path that the step removes, creates or writes.
    pub open spec fn target(self) -> PathView {
        match self {
            StepView::RemoveTree { path } => path,
            StepView::CreateDirAll { path } => path,
            StepView::CopyFile { to, .. } => to,
            StepView::CopyTree { to, .. } => to,
            StepView::WriteManifest { path, .. } => path,
        }
    }
}

/// The mathematical values of the steps of a plan, in order.
pub open spec fn step_views(steps: Seq<Step>) -> Seq<StepView> {
    Seq::new(steps.len(), |i: int| steps[i]@)
}

} // verus!
