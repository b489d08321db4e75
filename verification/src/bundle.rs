//! Assembling the bundle tree: which directories are made, what is written
//! and copied into them, and in what order.

use vstd::prelude::*;
use crate::config::{AppConfig, ConfigView, Layout, LayoutView};
use crate::descriptor::{
    bundle_dir_name, helper_descriptor, helper_descriptor_spec, main_descriptor,
    main_descriptor_spec, BundleDescriptor, DescriptorView,
};
use crate::error::BundleError;
use crate::helper::{helper_name_spec, select_kinds, selected_kinds, HelperKind};
use crate::manifest::{create_info_plist, manifest_file_name, manifest_spec};
use crate::path::{FilePath, PathView};
use crate::step::{step_views, Step, StepView};

verus! {

/// The directory of a bundle that holds all the rest.
pub open spec fn contents_dir() -> Seq<char> {
    "Contents"@
}

/// The directory, inside `Contents`, of the executable.
pub open spec fn exec_dir() -> Seq<char> {
    "MacOS"@
}

/// The directory, inside `Contents`, of the resources.
pub open spec fn resources_dir() -> Seq<char> {
    "Resources"@
}

/// The directory, inside `Contents`, of the embedded frameworks and of the
/// nested bundles.
pub open spec fn frameworks_dir() -> Seq<char> {
    "Frameworks"@
}

/// The name of the directory that holds the vendored runtime framework.
pub open spec fn framework_name() -> Seq<char> {
    "Chromium Embedded Framework.framework"@
}

impl PathView {
    /// The `Contents` directory of the bundle at `self`.
    pub open spec fn contents(self) -> PathView {
        self.join(contents_dir())
    }

    /// The directory of the executable of the bundle at `self`.
    pub open spec fn exec(self) -> PathView {
        self.contents().join(exec_dir())
    }

    /// The directory of the resources of the bundle at `self`.
    pub open spec fn resources(self) -> PathView {
        self.contents().join(resources_dir())
    }

    /// The directory of the frameworks of the bundle at `self`.
    pub open spec fn frameworks(self) -> PathView {
        self.contents().join(frameworks_dir())
    }
}

/// The steps that make the bundle of `descriptor` at `bundle`: its three
/// directories are made, its manifest is written, and its binary is copied
/// to the executable's place.
pub open spec fn app_steps(bundle: PathView, descriptor: DescriptorView) -> Seq<StepView> {
    seq![
        StepView::CreateDirAll { path: bundle.exec() },
        StepView::CreateDirAll { path: bundle.resources() },
        StepView::CreateDirAll { path: bundle.frameworks() },
        StepView::WriteManifest {
            path: bundle.contents().join(manifest_file_name()),
            manifest: manifest_spec(descriptor),
        },
        StepView::CopyFile { from: descriptor.binary, to: bundle.exec().join(descriptor.executable) },
    ]
}

/// Where the runtime framework lies inside the `.app` bundle at `bundle`.
pub open spec fn framework_dest(bundle: PathView) -> PathView {
    bundle.frameworks().join(framework_name())
}

/// The steps that place the runtime framework, which lies in the directory
/// `source`, into the `.app` bundle at `bundle`: what lies at the framework's
/// place is removed, and the framework is copied there.
pub open spec fn vendor_steps(source: PathView, bundle: PathView) -> Seq<StepView> {
    seq![
        StepView::RemoveTree { path: framework_dest(bundle) },
        StepView::CopyTree { from: source.join(framework_name()), to: framework_dest(bundle) },
    ]
}

/// Where the bundle of the helper of `kind` lies, nested in the main bundle
/// at `bundle`.
pub open spec fn helper_bundle_path(config: ConfigView, bundle: PathView, kind: HelperKind) -> PathView {
    bundle.frameworks().join(helper_name_spec(config.name, kind) + config.layout.bundle_suffix())
}

/// The steps that make the helper bundles of `kinds`, in order, nested in the
/// main bundle at `bundle`. Every helper runs `helper_bin`.
pub open spec fn helper_steps(
    config: ConfigView,
    bundle: PathView,
    helper_bin: PathView,
    kinds: Seq<HelperKind>,
) -> Seq<StepView>
    decreases kinds.len(),
{
    if kinds.len() == 0 {
        Seq::empty()
    } else {
        helper_steps(config, bundle, helper_bin, kinds.drop_last()) + app_steps(
            helper_bundle_path(config, bundle, kinds.last()),
            helper_descriptor_spec(config, kinds.last(), helper_bin),
        )
    }
}

/// What an assembly does to the file tree, and what it leaves there.
#[derive(Debug, Clone, PartialEq, Eq)]
pub struct BundlePlan {
    pub steps: Vec<Step>,
    /// The main bundle.
    pub main_bundle: FilePath,
    /// The application's executable inside the main bundle.
    pub executable: FilePath,
}

/// The mathematical value of a [`BundlePlan`].
pub struct BundlePlanView {
    pub steps: Seq<StepView>,
    pub main_bundle: PathView,
    pub executable: PathView,
}

impl View for BundlePlan {
    type V = BundlePlanView;

    open spec fn view(&self) -> BundlePlanView {
        BundlePlanView {
            steps: step_views(self.steps@),
            main_bundle: self.main_bundle@,
            executable: self.executable@,
        }
    }
}

/// Where the main bundle of `config` lies in `out_dir`: at the application's
/// name, followed by the layout's bundle suffix.
pub open spec fn main_bundle_path(config: ConfigView, out_dir: PathView) -> PathView {
    out_dir.join(main_descriptor_spec(config, out_dir).dir_name(config.layout))
}

/// The plan that assembles a `.app` bundle in `out_dir`. What lies at the
/// main bundle's place is removed first. Then the main bundle is made, the
/// runtime framework is placed into it, once, and the bundle of each helper
/// kind that the layout names is made inside its frameworks directory.
pub open spec fn mac_plan(
    config: ConfigView,
    out_dir: PathView,
    app_bin: PathView,
    helper_bin: PathView,
    source: PathView,
) -> BundlePlanView
    recommends
        config.layout is MacApp,
{
    let main = main_descriptor_spec(config, app_bin);
    let bundle = main_bundle_path(config, out_dir);
    BundlePlanView {
        steps: seq![StepView::RemoveTree { path: bundle }] + app_steps(bundle, main) + vendor_steps(
            source,
            bundle,
        ) + helper_steps(
            config,
            bundle,
            helper_bin,
            selected_kinds(config.layout->helper_kinds),
        ),
        main_bundle: bundle,
        executable: bundle.exec().join(main.executable),
    }
}

/// The plan that assembles a flat application directory in `out_dir`. What
/// lies at the directory's place is removed and the directory is made anew;
/// the files of the runtime framework, which lie in `source`, are copied into
/// it, and the binary is copied beside them.
pub open spec fn windows_plan(
    config: ConfigView,
    out_dir: PathView,
    app_bin: PathView,
    source: PathView,
) -> BundlePlanView {
    let main = main_descriptor_spec(config, app_bin);
    let dir = main_bundle_path(config, out_dir);
    BundlePlanView {
        steps: seq![
            StepView::RemoveTree { path: dir },
            StepView::CreateDirAll { path: dir },
            StepView::CopyTree { from: source, to: dir },
            StepView::CopyFile { from: app_bin, to: dir.join(main.executable) },
        ],
        main_bundle: dir,
        executable: dir.join(main.executable),
    }
}

/// The plan that assembles the bundle of `config` in `out_dir`, by the
/// layout that `config` names.
pub open spec fn bundle_plan(
    config: ConfigView,
    out_dir: PathView,
    app_bin: PathView,
    helper_bin: PathView,
    source: PathView,
) -> BundlePlanView {
    match config.layout {
        LayoutView::MacApp { .. } => mac_plan(config, out_dir, app_bin, helper_bin, source),
        LayoutView::WindowsDir { .. } => windows_plan(config, out_dir, app_bin, source),
    }
}

/// Moves the steps of `more` to the end of `steps`.
fn push_steps(steps: &mut Vec<Step>, more: Vec<Step>)
    ensures
        step_views(final(steps)@) == step_views(old(steps)@) + step_views(more@),
{
    let ghost added = more@;
    let mut more = more;
    steps.append(&mut more);
    assert(step_views(steps@) =~= step_views(old(steps)@) + step_views(added));
}

/// Adds `step` to the end of `steps`.
fn push_step(steps: &mut Vec<Step>, step: Step)
    ensures
        step_views(final(steps)@) == step_views(old(steps)@).push(step@),
{
    steps.push(step);
    assert(step_views(steps@) =~= step_views(old(steps)@).push(step@));
}

/// The steps that make the bundle of `descriptor` at `bundle`.
pub fn create_app(bundle: &FilePath, descriptor: &BundleDescriptor) -> (r: Vec<Step>)
    ensures
        step_views(r@) == app_steps(bundle@, descriptor@),
{
    let contents = bundle.join("Contents");
    let exec = contents.join("MacOS");
    let mut steps: Vec<Step> = Vec::new();
    assert(step_views(steps@) =~= Seq::<StepView>::empty());
    push_step(&mut steps, Step::CreateDirAll { path: exec.duplicate() });
    push_step(&mut steps, Step::CreateDirAll { path: contents.join("Resources") });
    push_step(&mut steps, Step::CreateDirAll { path: contents.join("Frameworks") });
    push_step(&mut steps, create_info_plist(&contents, descriptor));
    push_step(
        &mut steps,
        Step::CopyFile {
            from: descriptor.binary.duplicate(),
            to: exec.join(descriptor.executable.as_str()),
        },
    );
    assert(step_views(steps@) =~= app_steps(bundle@, descriptor@));
    steps
}

/// The steps that place the runtime framework into the `.app` bundle at
/// `bundle`. The directory that holds the framework must have been
/// supplied: without it nothing is planned, and the failure is
/// [`BundleError::ConfigurationMissing`].
pub fn copy_cef(source: Option<&FilePath>, bundle: &FilePath) -> (r: Result<Vec<Step>, BundleError>)
    ensures
        match source {
            Some(dir) => r is Ok && step_views(r->Ok_0@) == vendor_steps(dir@, bundle@),
            None => r == Err::<Vec<Step>, BundleError>(BundleError::ConfigurationMissing),
        },
{
    match source {
        None => Err(BundleError::ConfigurationMissing),
        Some(dir) => {
            let dest = bundle.join("Contents").join("Frameworks").join(
                "Chromium Embedded Framework.framework",
            );
            let mut steps: Vec<Step> = Vec::new();
            assert(step_views(steps@) =~= Seq::<StepView>::empty());
            push_step(&mut steps, Step::RemoveTree { path: dest.duplicate() });
            push_step(
                &mut steps,
                Step::CopyTree { from: dir.join("Chromium Embedded Framework.framework"), to: dest },
            );
            assert(step_views(steps@) =~= vendor_steps(dir@, bundle@));
            Ok(steps)
        },
    }
}

/// The steps that make the helper bundles of `kinds` inside the main bundle
/// at `bundle`.
fn create_helpers(
    config: &AppConfig,
    bundle: &FilePath,
    helper_bin: &FilePath,
    kinds: &Vec<HelperKind>,
) -> (r: Vec<Step>)
    ensures
        step_views(r@) == helper_steps(config@, bundle@, helper_bin@, kinds@),
{
    let frameworks = bundle.join("Contents").join("Frameworks");
    let mut steps: Vec<Step> = Vec::new();
    assert(step_views(steps@) =~= Seq::<StepView>::empty());
    let n: usize = kinds.len();
    let mut i: usize = 0;
    while i < n
        invariant
            n == kinds.len(),
            i <= n,
            frameworks@ == bundle@.frameworks(),
            step_views(steps@) == helper_steps(
                config@,
                bundle@,
                helper_bin@,
                kinds@.take(i as int),
            ),
        decreases n - i,
    {
        proof {
            assert(kinds@.take(i as int + 1).drop_last() =~= kinds@.take(i as int));
        }
        let descriptor = helper_descriptor(config, kinds[i], helper_bin);
        let dir = frameworks.join(bundle_dir_name(&descriptor, &config.layout).as_str());
        push_steps(&mut steps, create_app(&dir, &descriptor));
        i = i + 1;
    }
    assert(kinds@.take(n as int) =~= kinds@);
    steps
}

/// Plans the assembly of the bundle of `config` in `out_dir`, from the built
/// binaries `app_bin` and `helper_bin` and the runtime framework in
/// `framework_source`. A flat application directory has no helpers, and
/// `helper_bin` is not looked at for it.
///
/// The directory that holds the runtime framework must have been supplied:
/// without it nothing is planned, so nothing is made on disk, and the failure
/// is [`BundleError::ConfigurationMissing`]. Nothing else fails.
pub fn bundle(
    config: &AppConfig,
    out_dir: &FilePath,
    app_bin: &FilePath,
    helper_bin: &FilePath,
    framework_source: Option<&FilePath>,
) -> (r: Result<BundlePlan, BundleError>)
    ensures
        match framework_source {
            Some(source) => r is Ok && r->Ok_0@ == bundle_plan(
                config@,
                out_dir@,
                app_bin@,
                helper_bin@,
                source@,
            ),
            None => r == Err::<BundlePlan, BundleError>(BundleError::ConfigurationMissing),
        },
{
    let source = match framework_source {
        None => {
            return Err(BundleError::ConfigurationMissing);
        },
        Some(source) => source,
    };
    let main = main_descriptor(config, app_bin);
    let dir = out_dir.join(bundle_dir_name(&main, &config.layout).as_str());
    let mut steps: Vec<Step> = Vec::new();
    assert(step_views(steps@) =~= Seq::<StepView>::empty());
    push_step(&mut steps, Step::RemoveTree { path: dir.duplicate() });
    match &config.layout {
        Layout::MacApp { helper_kinds } => {
            push_steps(&mut steps, create_app(&dir, &main));
            match copy_cef(Some(source), &dir) {
                Ok(vendor) => {
                    push_steps(&mut steps, vendor);
                },
                Err(e) => {
                    return Err(e);
                },
            }
            let kinds = select_kinds(helper_kinds);
            push_steps(&mut steps, create_helpers(config, &dir, helper_bin, &kinds));
            let executable = dir.join("Contents").join("MacOS").join(main.executable.as_str());
            let plan = BundlePlan { steps, main_bundle: dir, executable };
            assert(plan@.steps =~= mac_plan(
                config@,
                out_dir@,
                app_bin@,
                helper_bin@,
                source@,
            ).steps);
            Ok(plan)
        },
        Layout::WindowsDir { .. } => {
            push_step(&mut steps, Step::CreateDirAll { path: dir.duplicate() });
            push_step(&mut steps, Step::CopyTree { from: source.duplicate(), to: dir.duplicate() });
            let executable = dir.join(main.executable.as_str());
            push_step(&mut steps, Step::CopyFile { from: app_bin.duplicate(), to: executable.duplicate() });
            let plan = BundlePlan { steps, main_bundle: dir, executable };
            assert(plan@.steps =~= windows_plan(config@, out_dir@, app_bin@, source@).steps);
            Ok(plan)
        },
    }
}

} // verus!
