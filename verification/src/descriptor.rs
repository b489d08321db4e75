//! What one bundle is: its identity, its name and the binary it runs.

use vstd::prelude::*;
use crate::config::{AppConfig, ConfigView, Layout, LayoutView};
use crate::helper::{
    helper_identifier, helper_identifier_spec, helper_name, helper_name_spec, HelperKind,
};
use crate::path::{FilePath, PathView};
use crate::text::concat_text;

verus! {

/// The part that a bundle plays in the bundle tree.
#[derive(Debug, Clone, Copy, PartialEq, Eq, Structural)]
pub enum Role {
    /// The application itself.
    Main,
    /// A helper process of the kind given, nested in the main bundle.
    Helper(HelperKind),
}

impl Role {
    /// Whether the bundle runs in the background, without a presence in the dock.
    pub open spec fn is_helper_spec(self) -> bool {
        self is Helper
    }

    /// Whether the bundle runs in the background, without a presence in the dock.
    pub fn is_helper(&self) -> (r: bool)
        ensures
            r == self.is_helper_spec(),
    {
        match self {
            Role::Main => false,
            Role::Helper(_) => true,
        }
    }
}

/// One bundle to produce.
#[derive(Debug, Clone, PartialEq, Eq)]
pub struct BundleDescriptor {
    /// The bundle's identifier, in reverse-DNS style.
    pub identifier: String,
    pub display_name: String,
    /// The file name of the executable inside the bundle.
    pub executable: String,
    /// The built binary that becomes the executable.
    pub binary: FilePath,
    pub role: Role,
}

/// The mathematical value of a [`BundleDescriptor`].
pub struct DescriptorView {
    pub identifier: Seq<char>,
    pub display_name: Seq<char>,
    pub executable: Seq<char>,
    pub binary: PathView,
    pub role: Role,
}

impl View for BundleDescriptor {
    type V = DescriptorView;

    open spec fn view(&self) -> DescriptorView {
        DescriptorView {
            identifier: self.identifier@,
            display_name: self.display_name@,
            executable: self.executable@,
            binary: self.binary@,
            role: self.role,
        }
    }
}

impl DescriptorView {
    /// The name of the bundle's directory.
    pub open spec fn dir_name(self, layout: LayoutView) -> Seq<char> {
        self.display_name + layout.bundle_suffix()
    }
}

/// The descriptor of the application's own bundle, which runs `app_bin`. It
/// carries the application's identifier and name. Its executable has the
/// application's name in a `.app` bundle, and the configured file name in a
/// flat directory.
pub open spec fn main_descriptor_spec(config: ConfigView, app_bin: PathView) -> DescriptorView {
    DescriptorView {
        identifier: config.identifier,
        display_name: config.name,
        executable: match config.layout {
            LayoutView::MacApp { .. } => config.name,
            LayoutView::WindowsDir { executable } => executable,
        },
        binary: app_bin,
        role: Role::Main,
    }
}

/// The descriptor of the helper bundle of `kind`, which runs `helper_bin`. Its
/// identifier is the application's, then `.helper`, then the kind's suffix;
/// its name is the application's, then ` Helper`, then the kind's suffix; its
/// executable is called as the bundle is.
pub open spec fn helper_descriptor_spec(
    config: ConfigView,
    kind: HelperKind,
    helper_bin: PathView,
) -> DescriptorView {
    DescriptorView {
        identifier: helper_identifier_spec(config.identifier, kind),
        display_name: helper_name_spec(config.name, kind),
        executable: helper_name_spec(config.name, kind),
        binary: helper_bin,
        role: Role::Helper(kind),
    }
}

/// The descriptor of the application's own bundle.
pub fn main_descriptor(config: &AppConfig, app_bin: &FilePath) -> (r: BundleDescriptor)
    ensures
        r@ == main_descriptor_spec(config@, app_bin@),
{
    let executable = match &config.layout {
        Layout::MacApp { .. } => config.name.clone(),
        Layout::WindowsDir { executable } => executable.clone(),
    };
    BundleDescriptor {
        identifier: config.identifier.clone(),
        display_name: config.name.clone(),
        executable,
        binary: app_bin.duplicate(),
        role: Role::Main,
    }
}

/// The descriptor of the helper bundle of `kind`.
pub fn helper_descriptor(config: &AppConfig, kind: HelperKind, helper_bin: &FilePath) -> (r:
    BundleDescriptor)
    ensures
        r@ == helper_descriptor_spec(config@, kind, helper_bin@),
{
    let name = helper_name(config.name.as_str(), kind);
    BundleDescriptor {
        identifier: helper_identifier(config.identifier.as_str(), kind),
        display_name: name.clone(),
        executable: name,
        binary: helper_bin.duplicate(),
        role: Role::Helper(kind),
    }
}

/// The name of the directory of the bundle that `descriptor` describes: its
/// display name, then the layout's bundle suffix.
pub fn bundle_dir_name(descriptor: &BundleDescriptor, layout: &Layout) -> (r: String)
    ensures
        r@ == descriptor@.dir_name(layout@),
{
    concat_text(descriptor.display_name.as_str(), layout.bundle_suffix())
}

} // verus!
