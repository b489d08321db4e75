//! A whole assembly run: the builds, then the bundle, as one list of actions
//! that is carried out in order and abandoned at the first failure.

use vstd::prelude::*;
use crate::builder::{
    build_bin, build_spec, build_targets, build_targets_spec, target_views, BuildPlan,
    BuildPlanView, Command, CommandView,
};
use crate::bundle::{bundle, bundle_plan, BundlePlan};
use crate::config::{AppConfig, ConfigView, Layout, LayoutView};
use crate::error::BundleError;
use crate::path::{FilePath, PathView};
use crate::step::{step_views, Step, StepView};
use crate::text::{owned, same_text};

verus! {

/// One thing to do in an assembly run.
#[derive(Debug, Clone, PartialEq, Eq)]
pub enum Action {
    /// Run a command and wait for it to exit.
    Run(Command),
    /// Carry out a step on the file tree.
    Apply(Step),
}

/// The mathematical value of an [`Action`].
pub enum ActionView {
    Run(CommandView),
    Apply(StepView),
}

impl View for Action {
    type V = ActionView;

    open spec fn view(&self) -> ActionView {
        match self {
            Action::Run(command) => ActionView::Run(command@),
            Action::Apply(step) => ActionView::Apply(step@),
        }
    }
}

impl ActionView {
    /// What the run has failed with when this action fails: a command is the
    /// toolchain's failure, a manifest that cannot be written is a failure to
    /// serialize, and every other step is a failure of the file system.
    pub open spec fn failure(self) -> BundleError {
        match self {
            ActionView::Run(_) => BundleError::ToolchainFailure,
            ActionView::Apply(StepView::WriteManifest { .. }) => {
                BundleError::ManifestSerializationFailure
            },
            ActionView::Apply(_) => BundleError::FilesystemFailure,
        }
    }
}

impl Action {
    /// What the run has failed with when this action fails.
    pub fn failure(&self) -> (r: BundleError)
        ensures
            r == self@.failure(),
    {
        match self {
            Action::Run(_) => BundleError::ToolchainFailure,
            Action::Apply(Step::WriteManifest { .. }) => BundleError::ManifestSerializationFailure,
            Action::Apply(_) => BundleError::FilesystemFailure,
        }
    }
}

/// The mathematical values of `actions`, in order.
pub open spec fn action_views(actions: Seq<Action>) -> Seq<ActionView> {
    Seq::new(actions.len(), |i: int| actions[i]@)
}

/// The actions that carry out `steps`, in order.
pub open spec fn apply_all(steps: Seq<StepView>) -> Seq<ActionView> {
    Seq::new(steps.len(), |i: int| ActionView::Apply(steps[i]))
}

/// The actions that carry out the build `plan`: its command, then its steps.
pub open spec fn build_actions(plan: BuildPlanView) -> Seq<ActionView> {
    seq![ActionView::Run(plan.command)] + apply_all(plan.steps)
}

/// A planned assembly run.
#[derive(Debug, Clone, PartialEq, Eq)]
pub struct Assembly {
    pub actions: Vec<Action>,
    /// The main bundle that the run leaves.
    pub main_bundle: FilePath,
    /// The application's executable inside the main bundle.
    pub executable: FilePath,
}

/// The mathematical value of an [`Assembly`].
pub struct AssemblyView {
    pub actions: Seq<ActionView>,
    pub main_bundle: PathView,
    pub executable: PathView,
}

impl View for Assembly {
    type V = AssemblyView;

    open spec fn view(&self) -> AssemblyView {
        AssemblyView {
            actions: action_views(self.actions@),
            main_bundle: self.main_bundle@,
            executable: self.executable@,
        }
    }
}

/// The assembly run for `config`. Each binary that the layout needs is built
/// into `build_dir` with the profile whose directory is called `profile_dir`:
/// the application first, then the helper where there is one. Then the
/// bundle is assembled in `out_dir` from those binaries and the runtime
/// framework in `source`.
pub open spec fn assembly_spec(
    config: ConfigView,
    build_dir: PathView,
    profile: Seq<char>,
    out_dir: PathView,
    source: PathView,
) -> AssemblyView {
    let targets = build_targets_spec(config, profile);
    let app = build_spec(targets[0], build_dir, config.layout);
    match config.layout {
        LayoutView::MacApp { .. } => {
            let helper = build_spec(targets[1], build_dir, config.layout);
            let plan = bundle_plan(config, out_dir, app.binary, helper.binary, source);
            AssemblyView {
                actions: build_actions(app) + build_actions(helper) + apply_all(plan.steps),
                main_bundle: plan.main_bundle,
                executable: plan.executable,
            }
        },
        LayoutView::WindowsDir { .. } => {
            let plan = bundle_plan(config, out_dir, app.binary, app.binary, source);
            AssemblyView {
                actions: build_actions(app) + apply_all(plan.steps),
                main_bundle: plan.main_bundle,
                executable: plan.executable,
            }
        },
    }
}

/// Moves `steps` to the end of `actions`, each as an action.
fn push_applies(actions: &mut Vec<Action>, steps: Vec<Step>)
    ensures
        action_views(final(actions)@) == action_views(old(actions)@) + apply_all(
            step_views(steps@),
        ),
{
    let ghost all = step_views(steps@);
    let mut steps = steps;
    let ghost mut moved: int = 0;
    while steps.len() > 0
        invariant
            0 <= moved <= all.len(),
            step_views(steps@) == all.skip(moved),
            action_views(actions@) == action_views(old(actions)@) + apply_all(all.take(moved)),
        decreases steps.len(),
    {
        let ghost before = actions@;
        let ghost rest = steps@;
        assert(moved < all.len()) by {
            assert(step_views(rest).len() == all.skip(moved).len());
        }
        let step = steps.remove(0);
        assert(step@ == all[moved]) by {
            assert(step_views(rest)[0] == all.skip(moved)[0]);
        }
        actions.push(Action::Apply(step));
        proof {
            assert(rest.len() + moved == all.len()) by {
                assert(step_views(rest).len() == all.skip(moved).len());
            }
            assert(steps@.len() + 1 == rest.len());
            assert(step_views(steps@) =~= all.skip(moved + 1)) by {
                assert forall|i: int| 0 <= i < steps@.len() implies step_views(steps@)[i]
                    == all.skip(moved + 1)[i] by {
                    assert(steps@[i] == rest[i + 1]);
                    assert(step_views(steps@)[i] == steps@[i]@);
                    assert(step_views(rest)[i + 1] == rest[i + 1]@);
                    assert(all.skip(moved)[i + 1] == all[moved + i + 1]);
                    assert(all.skip(moved + 1)[i] == all[moved + 1 + i]);
                }
                assert(step_views(rest).len() == all.skip(moved).len());
            }
            assert(action_views(actions@) =~= action_views(before).push(
                ActionView::Apply(all[moved]),
            ));
            assert(apply_all(all.take(moved + 1)) =~= apply_all(all.take(moved)).push(
                ActionView::Apply(all[moved]),
            ));
            moved = moved + 1;
        }
    }
    assert(all.take(moved) =~= all) by {
        assert(all.skip(moved).len() == 0);
    }
}

/// Moves the command and the steps of the build `plan` to the end of
/// `actions`.
fn push_build(actions: &mut Vec<Action>, plan: BuildPlan)
    ensures
        action_views(final(actions)@) == action_views(old(actions)@) + build_actions(plan@),
{
    let BuildPlan { command, steps, binary: _ } = plan;
    actions.push(Action::Run(command));
    assert(action_views(actions@) =~= action_views(old(actions)@).push(ActionView::Run(command@)));
    push_applies(actions, steps);
    assert(action_views(actions@) =~= action_views(old(actions)@) + build_actions(plan@));
}

/// Plans the assembly run for `config`: the builds into `build_dir`, with the
/// profile whose directory is called `profile`, and the bundle in `out_dir`.
///
/// The directory that holds the runtime framework must have been supplied:
/// without it nothing is planned, so nothing is built or made on disk, and
/// the failure is [`BundleError::ConfigurationMissing`]. Nothing else fails.
pub fn assemble(
    config: &AppConfig,
    build_dir: &FilePath,
    profile: &str,
    out_dir: &FilePath,
    framework_source: Option<&FilePath>,
) -> (r: Result<Assembly, BundleError>)
    ensures
        match framework_source {
            Some(source) => r is Ok && r->Ok_0@ == assembly_spec(
                config@,
                build_dir@,
                profile@,
                out_dir@,
                source@,
            ),
            None => r == Err::<Assembly, BundleError>(BundleError::ConfigurationMissing),
        },
{
    let source = match framework_source {
        None => {
            return Err(BundleError::ConfigurationMissing);
        },
        Some(source) => source,
    };
    let targets = build_targets(config, profile);
    let mut actions: Vec<Action> = Vec::new();
    assert(action_views(actions@) =~= Seq::<ActionView>::empty());
    assert(target_views(targets@).len() == targets@.len());
    assert(targets@[0]@ == target_views(targets@)[0]);
    let app = build_bin(&targets[0], build_dir, &config.layout);
    let app_bin = app.binary.duplicate();
    push_build(&mut actions, app);
    let helper_bin = match &config.layout {
        Layout::MacApp { .. } => {
            assert(targets@[1]@ == target_views(targets@)[1]);
            let helper = build_bin(&targets[1], build_dir, &config.layout);
            let helper_bin = helper.binary.duplicate();
            push_build(&mut actions, helper);
            helper_bin
        },
        Layout::WindowsDir { .. } => app_bin.duplicate(),
    };
    match bundle(config, out_dir, &app_bin, &helper_bin, Some(source)) {
        Ok(plan) => {
            let BundlePlan { steps, main_bundle, executable } = plan;
            push_applies(&mut actions, steps);
            let r = Assembly { actions, main_bundle, executable };
            assert(r@.actions =~= assembly_spec(
                config@,
                build_dir@,
                profile@,
                out_dir@,
                source@,
            ).actions);
            Ok(r)
        },
        Err(e) => Err(e),
    }
}

/// What the run does next.
#[derive(Debug, Clone, Copy, PartialEq, Eq)]
pub enum Next {
    /// Carry out the action at this index.
    Perform(usize),
    /// Stop, with this outcome.
    Finish(Result<(), BundleError>),
}

/// What a run of `actions` does next, when the first `performed` of them have
/// been carried out and the last of these ended as `last_succeeded` says. A
/// failure ends the run at once, with the failure of the action that failed;
/// else the next action is carried out; and when none is left, the run ends
/// in success.
pub open spec fn next_spec(actions: Seq<ActionView>, performed: int, last_succeeded: bool) -> Next {
    if 0 < performed <= actions.len() && !last_succeeded {
        Next::Finish(Err(actions[performed - 1].failure()))
    } else if 0 <= performed < actions.len() {
        Next::Perform(performed as usize)
    } else {
        Next::Finish(Ok(()))
    }
}

/// What a run of `actions` does next, when the first `performed` of them have
/// been carried out and the last of these ended as `last_succeeded` says.
pub fn next_action(actions: &Vec<Action>, performed: usize, last_succeeded: bool) -> (r: Next)
    ensures
        r == next_spec(action_views(actions@), performed as int, last_succeeded),
{
    if 0 < performed && performed <= actions.len() && !last_succeeded {
        Next::Finish(Err(actions[performed - 1].failure()))
    } else if performed < actions.len() {
        Next::Perform(performed)
    } else {
        Next::Finish(Ok(()))
    }
}

/// Whether the arguments of the program ask for the application to be
/// started after the assembly: one of them is `open`.
pub open spec fn wants_launch_spec(args: Seq<Seq<char>>) -> bool {
    exists|i: int| 0 <= i < args.len() && #[trigger] args[i] == "open"@
}

/// Whether the arguments of the program ask for the application to be
/// started after the assembly.
pub fn wants_launch(args: &Vec<String>) -> (r: bool)
    ensures
        r == wants_launch_spec(args.deep_view()),
{
    let n: usize = args.len();
    let mut i: usize = 0;
    while i < n
        invariant
            n == args.len(),
            i <= n,
            forall|j: int| 0 <= j < i ==> args.deep_view()[j] != "open"@,
        decreases n - i,
    {
        if same_text(args[i].as_str(), "open") {
            assert(args.deep_view()[i as int] == "open"@);
            return true;
        }
        i = i + 1;
    }
    false
}

/// The command that starts the assembled application: a `.app` bundle is
/// handed to `open`; the executable of a flat directory is run itself.
pub open spec fn launch_spec(layout: LayoutView, assembly: AssemblyView) -> CommandView {
    match layout {
        LayoutView::MacApp { .. } => CommandView {
            program: "open"@,
            args: seq![assembly.main_bundle.text()],
        },
        LayoutView::WindowsDir { .. } => CommandView {
            program: assembly.executable.text(),
            args: Seq::empty(),
        },
    }
}

/// The command that starts the assembled application.
pub fn launch_command(layout: &Layout, assembly: &Assembly) -> (r: Command)
    ensures
        r@ == launch_spec(layout@, assembly@),
{
    let mut args: Vec<String> = Vec::new();
    let r = match layout {
        Layout::MacApp { .. } => {
            args.push(assembly.main_bundle.to_text());
            Command { program: owned("open"), args }
        },
        Layout::WindowsDir { .. } => Command { program: assembly.executable.to_text(), args },
    };
    assert(r@.args =~= launch_spec(layout@, assembly@).args);
    r
}

/// The builds come before the bundle: every command of an assembly run
/// stands before every step of the bundle plan. So when a command has
/// failed, and the run has ended with it, no step of the bundle plan has been
/// carried out.
pub proof fn lemma_builds_precede_bundle(
    config: ConfigView,
    build_dir: PathView,
    profile: Seq<char>,
    out_dir: PathView,
    source: PathView,
    i: int,
)
    requires
        0 <= i < assembly_spec(config, build_dir, profile, out_dir, source).actions.len(),
        assembly_spec(config, build_dir, profile, out_dir, source).actions[i] is Run,
    ensures
        ({
            let actions = assembly_spec(config, build_dir, profile, out_dir, source).actions;
            let first = bundle_start(config, build_dir, profile, out_dir, source);
            &&& i < first <= actions.len()
            &&& next_spec(actions, i + 1, false) == Next::Finish(
                Err(BundleError::ToolchainFailure),
            )
            &&& forall|j: int| first <= j < actions.len() ==> actions[j] is Apply
        }),
{
}

/// The index of the first step of the bundle plan among the actions of an
/// assembly run.
pub open spec fn bundle_start(
    config: ConfigView,
    build_dir: PathView,
    profile: Seq<char>,
    out_dir: PathView,
    source: PathView,
) -> int {
    let targets = build_targets_spec(config, profile);
    let app = build_spec(targets[0], build_dir, config.layout);
    match config.layout {
        LayoutView::MacApp { .. } => {
            let helper = build_spec(targets[1], build_dir, config.layout);
            (build_actions(app).len() + build_actions(helper).len()) as int
        },
        LayoutView::WindowsDir { .. } => build_actions(app).len() as int,
    }
}

} // verus!
