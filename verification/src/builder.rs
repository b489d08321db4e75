//! Building the binaries: what the toolchain is asked, and where its output
//! is found.

use vstd::prelude::*;
use crate::config::{AppConfig, ConfigView, Layout, LayoutView};
use crate::error::BundleError;
use crate::path::{FilePath, PathView};
use crate::step::{step_views, Step, StepView};
use crate::text::{
    concat_text, lemma_concat_left_cancel, lemma_concat_right_cancel, owned, same_text,
};

verus! {

/// One invocation of the build toolchain: a package, a profile, and the
/// feature that selects the variant, if any.
#[derive(Debug, Clone, PartialEq, Eq)]
pub struct BuildTarget {
    pub package: String,
    pub profile: String,
    pub feature: Option<String>,
}

/// The mathematical value of a [`BuildTarget`].
pub struct TargetView {
    pub package: Seq<char>,
    pub profile: Seq<char>,
    pub feature: Option<Seq<char>>,
}

impl View for BuildTarget {
    type V = TargetView;

    open spec fn view(&self) -> TargetView {
        TargetView {
            package: self.package@,
            profile: self.profile@,
            feature: match self.feature {
                Some(f) => Some(f@),
                None => None,
            },
        }
    }
}

/// A program to run, with its arguments.
#[derive(Debug, Clone, PartialEq, Eq)]
pub struct Command {
    pub program: String,
    pub args: Vec<String>,
}

/// The mathematical value of a [`Command`].
pub struct CommandView {
    pub program: Seq<char>,
    pub args: Seq<Seq<char>>,
}

impl View for Command {
    type V = CommandView;

    open spec fn view(&self) -> CommandView {
        CommandView { program: self.program@, args: self.args.deep_view() }
    }
}

/// How one binary is built: the command to run, the steps that follow when it
/// has succeeded, and where the binary then is.
#[derive(Debug, Clone, PartialEq, Eq)]
pub struct BuildPlan {
    pub command: Command,
    pub steps: Vec<Step>,
    pub binary: FilePath,
}

/// The mathematical value of a [`BuildPlan`].
pub struct BuildPlanView {
    pub command: CommandView,
    pub steps: Seq<StepView>,
    pub binary: PathView,
}

impl View for BuildPlan {
    type V = BuildPlanView;

    open spec fn view(&self) -> BuildPlanView {
        BuildPlanView {
            command: self.command@,
            steps: step_views(self.steps@),
            binary: self.binary@,
        }
    }
}

impl TargetView {
    /// The arguments that the toolchain gets: the package and the profile, and
    /// for a variant its feature alone, without the default features.
    pub open spec fn cargo_args(self) -> Seq<Seq<char>> {
        seq!["build"@, "--package"@, self.package, "--profile"@, self.profile] + match self.feature {
            Some(f) => seq!["--no-default-features"@, "--features"@, f],
            None => Seq::empty(),
        }
    }

    /// The file name under which the toolchain leaves the binary.
    pub open spec fn built_name(self, layout: LayoutView) -> Seq<char> {
        self.package + layout.exe_suffix()
    }

    /// The file name under which the binary is kept: for a variant, the
    /// package, a hyphen and the feature, so that the variants of one package
    /// lie side by side.
    pub open spec fn binary_name(self, layout: LayoutView) -> Seq<char> {
        match self.feature {
            Some(f) => self.package + "-"@ + f + layout.exe_suffix(),
            None => self.built_name(layout),
        }
    }
}

/// The plan that builds `target` into the directory `profile_path`: run
/// `cargo` with the target's arguments; then, for a variant, copy the binary
/// to its own name.
pub open spec fn build_spec(
    target: TargetView,
    profile_path: PathView,
    layout: LayoutView,
) -> BuildPlanView {
    BuildPlanView {
        command: CommandView { program: "cargo"@, args: target.cargo_args() },
        steps: match target.feature {
            Some(_) => seq![
                StepView::CopyFile {
                    from: profile_path.join(target.built_name(layout)),
                    to: profile_path.join(target.binary_name(layout)),
                },
            ],
            None => Seq::empty(),
        },
        binary: profile_path.join(target.binary_name(layout)),
    }
}

/// The plan that builds `target` into the directory `profile_path`.
pub fn build_bin(target: &BuildTarget, profile_path: &FilePath, layout: &Layout) -> (r: BuildPlan)
    ensures
        r@ == build_spec(target@, profile_path@, layout@),
{
    let mut args: Vec<String> = Vec::new();
    args.push(owned("build"));
    args.push(owned("--package"));
    args.push(target.package.clone());
    args.push(owned("--profile"));
    args.push(target.profile.clone());
    let built = concat_text(target.package.as_str(), layout.exe_suffix());
    let mut steps: Vec<Step> = Vec::new();
    let binary;
    match &target.feature {
        Some(f) => {
            args.push(owned("--no-default-features"));
            args.push(owned("--features"));
            args.push(f.clone());
            let stem = concat_text(target.package.as_str(), "-");
            let variant = concat_text(stem.as_str(), f.as_str());
            let name = concat_text(variant.as_str(), layout.exe_suffix());
            binary = profile_path.join(name.as_str());
            steps.push(Step::CopyFile { from: profile_path.join(built.as_str()), to: binary.duplicate() });
        },
        None => {
            binary = profile_path.join(built.as_str());
        },
    }
    let r = BuildPlan { command: Command { program: owned("cargo"), args }, steps, binary };
    assert(r@.command.args =~= target@.cargo_args());
    assert(r@.steps =~= build_spec(target@, profile_path@, layout@).steps);
    r
}

/// The name by which the toolchain knows the profile whose output directory
/// is called `dir_name`: `dev` for `debug`, else the directory's name.
pub open spec fn cargo_profile_spec(dir_name: Seq<char>) -> Seq<char> {
    if dir_name == "debug"@ {
        "dev"@
    } else {
        dir_name
    }
}

/// The name by which the toolchain knows the profile whose output directory
/// is called `dir_name`.
pub fn cargo_profile(dir_name: &str) -> (r: String)
    ensures
        r@ == cargo_profile_spec(dir_name@),
{
    if same_text(dir_name, "debug") {
        owned("dev")
    } else {
        owned(dir_name)
    }
}

/// What the exit of a command means for the run: a status other than success
/// is a failure of the toolchain.
pub fn command_outcome(success: bool) -> (r: Result<(), BundleError>)
    ensures
        r == if success {
            Ok::<(), BundleError>(())
        } else {
            Err::<(), BundleError>(BundleError::ToolchainFailure)
        },
{
    if success {
        Ok(())
    } else {
        Err(BundleError::ToolchainFailure)
    }
}

/// The feature that selects the application itself.
pub open spec fn app_feature() -> Seq<char> {
    "app"@
}

/// The feature that selects the helper executable.
pub open spec fn helper_feature() -> Seq<char> {
    "helper"@
}

/// The binaries that the layout of `config` needs, built with `profile`: the
/// application, and for a `.app` bundle the one executable that all helper
/// kinds share.
pub open spec fn build_targets_spec(config: ConfigView, profile: Seq<char>) -> Seq<TargetView> {
    let app = TargetView { package: config.package, profile, feature: Some(app_feature()) };
    let helper = TargetView { package: config.package, profile, feature: Some(helper_feature()) };
    match config.layout {
        LayoutView::MacApp { .. } => seq![app, helper],
        LayoutView::WindowsDir { .. } => seq![app],
    }
}

/// The mathematical values of `targets`, in order.
pub open spec fn target_views(targets: Seq<BuildTarget>) -> Seq<TargetView> {
    Seq::new(targets.len(), |i: int| targets[i]@)
}

/// The binaries that the layout of `config` needs, built with `profile`.
pub fn build_targets(config: &AppConfig, profile: &str) -> (r: Vec<BuildTarget>)
    ensures
        target_views(r@) == build_targets_spec(config@, profile@),
{
    let mut r: Vec<BuildTarget> = Vec::new();
    r.push(
        BuildTarget {
            package: config.package.clone(),
            profile: owned(profile),
            feature: Some(owned("app")),
        },
    );
    match &config.layout {
        Layout::MacApp { .. } => {
            r.push(
                BuildTarget {
                    package: config.package.clone(),
                    profile: owned(profile),
                    feature: Some(owned("helper")),
                },
            );
        },
        Layout::WindowsDir { .. } => {},
    }
    assert(target_views(r@) =~= build_targets_spec(config@, profile@));
    r
}

/// Building is repeatable: the command, the steps and the place of the binary
/// are determined by the target, the directory and the layout, so that equal
/// targets are built by equal plans into the same place.
pub proof fn lemma_build_is_repeatable(
    first: TargetView,
    second: TargetView,
    profile_path: PathView,
    layout: LayoutView,
)
    requires
        first == second,
    ensures
        build_spec(first, profile_path, layout) == build_spec(second, profile_path, layout),
        build_spec(first, profile_path, layout).binary == build_spec(
            second,
            profile_path,
            layout,
        ).binary,
{
}

/// Two variants of one package do not collide in the directory that they are
/// built into: targets that differ in their feature leave their binaries at
/// different places.
pub proof fn lemma_variants_do_not_collide(
    first: TargetView,
    second: TargetView,
    profile_path: PathView,
    layout: LayoutView,
)
    requires
        first.package == second.package,
        first.feature != second.feature,
    ensures
        build_spec(first, profile_path, layout).binary != build_spec(
            second,
            profile_path,
            layout,
        ).binary,
{
    let a = first.binary_name(layout);
    let b = second.binary_name(layout);
    let package = first.package;
    let suffix = layout.exe_suffix();
    reveal_strlit("-");
    if a == b {
        match (first.feature, second.feature) {
            (Some(f), Some(g)) => {
                lemma_concat_right_cancel(package + "-"@ + f, package + "-"@ + g, suffix);
                lemma_concat_left_cancel(package + "-"@, f, g);
            },
            (Some(f), None) => {
                assert(a.len() == package.len() + 1 + f.len() + suffix.len());
            },
            (None, Some(g)) => {
                assert(b.len() == package.len() + 1 + g.len() + suffix.len());
            },
            (None, None) => {},
        }
    }
    assert(profile_path.join(a).parts.last() == a);
    assert(profile_path.join(b).parts.last() == b);
}

} // verus!
