//! What is being bundled, and for which operating system.

use vstd::prelude::*;
use crate::helper::HelperKind;

verus! {

/// How the operating system wants an application laid out on disk.
#[derive(Debug, Clone, PartialEq, Eq)]
pub enum Layout {
    /// A `.app` bundle, with one nested bundle for each helper kind named.
    /// The nested bundles are made in the order of the table of kinds,
    /// whatever the order in which the kinds are named here, and a kind that
    /// is named twice gets one bundle.
    MacApp { helper_kinds: Vec<HelperKind> },
    /// One flat directory that holds the executable, under the file name
    /// given, beside the files of the runtime framework.
    WindowsDir { executable: String },
}

/// The mathematical value of a [`Layout`].
pub enum LayoutView {
    MacApp { helper_kinds: Seq<HelperKind> },
    WindowsDir { executable: Seq<char> },
}

impl View for Layout {
    type V = LayoutView;

    open spec fn view(&self) -> LayoutView {
        match self {
            Layout::MacApp { helper_kinds } => LayoutView::MacApp { helper_kinds: helper_kinds@ },
            Layout::WindowsDir { executable } => LayoutView::WindowsDir {
                executable: executable@,
            },
        }
    }
}

impl LayoutView {
    /// What follows the stem in the file name of an executable.
    pub open spec fn exe_suffix(self) -> Seq<char> {
        match self {
            LayoutView::MacApp { .. } => Seq::empty(),
            LayoutView::WindowsDir { .. } => ".exe"@,
        }
    }

    /// What follows the display name in the name of a bundle directory.
    pub open spec fn bundle_suffix(self) -> Seq<char> {
        match self {
            LayoutView::MacApp { .. } => ".app"@,
            LayoutView::WindowsDir { .. } => Seq::empty(),
        }
    }
}

impl Layout {
    /// What follows the stem in the file name of an executable.
    pub fn exe_suffix(&self) -> (r: &'static str)
        ensures
            r@ == self@.exe_suffix(),
    {
        proof {
            reveal_strlit("");
            assert(""@ =~= Seq::<char>::empty());
        }
        match self {
            Layout::MacApp { .. } => "",
            Layout::WindowsDir { .. } => ".exe",
        }
    }

    /// What follows the display name in the name of a bundle directory.
    pub fn bundle_suffix(&self) -> (r: &'static str)
        ensures
            r@ == self@.bundle_suffix(),
    {
        proof {
            reveal_strlit("");
            assert(""@ =~= Seq::<char>::empty());
        }
        match self {
            Layout::MacApp { .. } => ".app",
            Layout::WindowsDir { .. } => "",
        }
    }
}

/// The application to bundle.
#[derive(Debug, Clone, PartialEq, Eq)]
pub struct AppConfig {
    /// The package that the toolchain builds.
    pub package: String,
    /// The application's identifier, in reverse-DNS style.
    pub identifier: String,
    /// The application's display name.
    pub name: String,
    pub layout: Layout,
}

/// The mathematical value of an [`AppConfig`].
pub struct ConfigView {
    pub package: Seq<char>,
    pub identifier: Seq<char>,
    pub name: Seq<char>,
    pub layout: LayoutView,
}

impl View for AppConfig {
    type V = ConfigView;

    open spec fn view(&self) -> ConfigView {
        ConfigView {
            package: self.package@,
            identifier: self.identifier@,
            name: self.name@,
            layout: self.layout@,
        }
    }
}

} // verus!
