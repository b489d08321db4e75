//! What holds of every assembled bundle tree.

use vstd::prelude::*;
use crate::bundle::{
    app_steps, bundle_plan, contents_dir, framework_dest, framework_name, frameworks_dir,
    helper_bundle_path, helper_steps, main_bundle_path, vendor_steps,
};
use crate::config::{ConfigView, LayoutView};
use crate::descriptor::{helper_descriptor_spec, main_descriptor_spec, DescriptorView};
use crate::helper::{
    helper_name_spec, lemma_helper_differs_from_app, lemma_helper_identity_distinct,
    lemma_selected_kinds, selected_kinds, HelperKind,
};
use crate::path::{
    lemma_join_starts_with, lemma_starts_with_index, lemma_starts_with_trans, PathView,
};
use crate::step::StepView;
use crate::text::lemma_concat_right_cancel;
use crate::tree::{
    apply, lemma_removal_forgets, lemma_run_concat, lemma_run_one, lemma_run_writes, run,
    same_outside, FileTree,
};

verus! {

/// An assembly starts from nothing: the tree that it leaves is the same
/// whatever lay at the main bundle's place before, so that nothing of an
/// earlier bundle is left in the new one.
pub proof fn lemma_bundle_leaves_nothing_stale(
    config: ConfigView,
    out_dir: PathView,
    app_bin: PathView,
    helper_bin: PathView,
    source: PathView,
    first: FileTree,
    second: FileTree,
)
    requires
        same_outside(first, second, main_bundle_path(config, out_dir)),
    ensures
        run(bundle_plan(config, out_dir, app_bin, helper_bin, source).steps, first) == run(
            bundle_plan(config, out_dir, app_bin, helper_bin, source).steps,
            second,
        ),
{
    let plan = bundle_plan(config, out_dir, app_bin, helper_bin, source);
    let place = main_bundle_path(config, out_dir);
    let rest = plan.steps.skip(1);
    assert(plan.steps =~= seq![StepView::RemoveTree { path: place }] + rest);
    lemma_removal_forgets(place, rest, first, second);
}

/// All that lies in the main bundle after an assembly was put there by the
/// assembly: of every path that exists at the bundle's place or below it, one
/// step of the plan can have made it.
pub proof fn lemma_bundle_holds_what_the_plan_made(
    config: ConfigView,
    out_dir: PathView,
    app_bin: PathView,
    helper_bin: PathView,
    source: PathView,
    before: FileTree,
    p: PathView,
)
    requires
        p.starts_with(main_bundle_path(config, out_dir)),
        run(bundle_plan(config, out_dir, app_bin, helper_bin, source).steps, before).dom().contains(
            p,
        ),
    ensures
        exists|i: int|
            0 <= i < bundle_plan(config, out_dir, app_bin, helper_bin, source).steps.len()
                && (#[trigger] bundle_plan(
                config,
                out_dir,
                app_bin,
                helper_bin,
                source,
            ).steps[i]).may_write(p),
{
    let steps = bundle_plan(config, out_dir, app_bin, helper_bin, source).steps;
    let place = main_bundle_path(config, out_dir);
    let removal = StepView::RemoveTree { path: place };
    let rest = steps.skip(1);
    assert(steps =~= seq![removal] + rest);
    lemma_run_concat(seq![removal], rest, before);
    lemma_run_one(removal, before);
    let cleared = apply(removal, before);
    assert(!cleared.dom().contains(p));
    if forall|i: int| 0 <= i < rest.len() ==> !(#[trigger] rest[i]).may_write(p) {
        lemma_run_writes(rest, cleared, p);
    } else {
        let i = choose|i: int| 0 <= i < rest.len() && (#[trigger] rest[i]).may_write(p);
        assert(steps[i + 1] == rest[i]);
    }
}

/// The helper bundles lie in a block of five steps for each kind, in order.
pub proof fn lemma_helper_steps_layout(
    config: ConfigView,
    bundle: PathView,
    helper_bin: PathView,
    kinds: Seq<HelperKind>,
)
    ensures
        helper_steps(config, bundle, helper_bin, kinds).len() == 5 * kinds.len(),
        forall|j: int, m: int|
            0 <= j < kinds.len() && 0 <= m < 5 ==> #[trigger] helper_steps(
                config,
                bundle,
                helper_bin,
                kinds,
            )[5 * j + m] == app_steps(
                helper_bundle_path(config, bundle, kinds[j]),
                helper_descriptor_spec(config, kinds[j], helper_bin),
            )[m],
    decreases kinds.len(),
{
    if kinds.len() > 0 {
        lemma_helper_steps_layout(config, bundle, helper_bin, kinds.drop_last());
        let front = helper_steps(config, bundle, helper_bin, kinds.drop_last());
        let all = helper_steps(config, bundle, helper_bin, kinds);
        assert forall|j: int, m: int| 0 <= j < kinds.len() && 0 <= m < 5 implies #[trigger] all[5
            * j + m] == app_steps(
            helper_bundle_path(config, bundle, kinds[j]),
            helper_descriptor_spec(config, kinds[j], helper_bin),
        )[m] by {
            if j < kinds.len() - 1 {
                assert(kinds.drop_last()[j] == kinds[j]);
                assert(all[5 * j + m] == front[5 * j + m]);
            } else {
                assert(all[5 * j + m] == app_steps(
                    helper_bundle_path(config, bundle, kinds.last()),
                    helper_descriptor_spec(config, kinds.last(), helper_bin),
                )[5 * j + m - front.len()]);
            }
        }
    }
}

/// The bundles of two different helper kinds lie at different places.
pub proof fn lemma_helper_bundles_apart(
    config: ConfigView,
    bundle: PathView,
    a: HelperKind,
    b: HelperKind,
)
    requires
        a != b,
    ensures
        helper_bundle_path(config, bundle, a) != helper_bundle_path(config, bundle, b),
{
    let x = helper_name_spec(config.name, a);
    let y = helper_name_spec(config.name, b);
    let suffix = config.layout.bundle_suffix();
    lemma_helper_identity_distinct(config.identifier, config.name, a, b);
    if x + suffix == y + suffix {
        lemma_concat_right_cancel(x, y, suffix);
    }
    assert(helper_bundle_path(config, bundle, a).parts.last() == x + suffix);
    assert(helper_bundle_path(config, bundle, b).parts.last() == y + suffix);
}

/// Every helper kind that the layout names, and no other, gets one nested
/// bundle: the kinds are taken once each, each has its block of steps, and no
/// two of them share a place, an identifier or a display name, nor has any
/// the identifier or the name of the application itself.
pub proof fn lemma_one_bundle_per_helper_kind(
    config: ConfigView,
    bundle: PathView,
    helper_bin: PathView,
    wanted: Seq<HelperKind>,
)
    ensures
        ({
            let kinds = selected_kinds(wanted);
            let steps = helper_steps(config, bundle, helper_bin, kinds);
            &&& kinds.no_duplicates()
            &&& forall|k: HelperKind| kinds.contains(k) <==> wanted.contains(k)
            &&& steps.len() == 5 * kinds.len()
            &&& forall|j: int|
                0 <= j < kinds.len() ==> #[trigger] steps.subrange(5 * j, 5 * j + 5) == app_steps(
                    helper_bundle_path(config, bundle, kinds[j]),
                    helper_descriptor_spec(config, kinds[j], helper_bin),
                )
            &&& forall|i: int, j: int|
                #![trigger kinds[i], kinds[j]]
                0 <= i < j < kinds.len() ==> {
                    let a = helper_descriptor_spec(config, kinds[i], helper_bin);
                    let b = helper_descriptor_spec(config, kinds[j], helper_bin);
                    &&& helper_bundle_path(config, bundle, kinds[i]) != helper_bundle_path(
                        config,
                        bundle,
                        kinds[j],
                    )
                    &&& a.identifier != b.identifier
                    &&& a.display_name != b.display_name
                }
            &&& forall|j: int|
                #![trigger kinds[j]]
                0 <= j < kinds.len() ==> {
                    let a = helper_descriptor_spec(config, kinds[j], helper_bin);
                    let main = main_descriptor_spec(config, helper_bin);
                    &&& a.identifier != main.identifier
                    &&& a.display_name != main.display_name
                }
        }),
{
    let kinds = selected_kinds(wanted);
    let steps = helper_steps(config, bundle, helper_bin, kinds);
    lemma_selected_kinds(wanted);
    lemma_helper_steps_layout(config, bundle, helper_bin, kinds);
    assert forall|j: int| 0 <= j < kinds.len() implies #[trigger] steps.subrange(5 * j, 5 * j + 5)
        == app_steps(
        helper_bundle_path(config, bundle, kinds[j]),
        helper_descriptor_spec(config, kinds[j], helper_bin),
    ) by {
        let block = app_steps(
            helper_bundle_path(config, bundle, kinds[j]),
            helper_descriptor_spec(config, kinds[j], helper_bin),
        );
        assert forall|m: int| 0 <= m < 5 implies steps.subrange(5 * j, 5 * j + 5)[m] == block[m] by {
            assert(steps[5 * j + m] == block[m]);
        }
        assert(steps.subrange(5 * j, 5 * j + 5) =~= block);
    }
    assert forall|i: int, j: int| #![trigger kinds[i], kinds[j]] 0 <= i < j < kinds.len() implies {
        let a = helper_descriptor_spec(config, kinds[i], helper_bin);
        let b = helper_descriptor_spec(config, kinds[j], helper_bin);
        &&& helper_bundle_path(config, bundle, kinds[i]) != helper_bundle_path(
            config,
            bundle,
            kinds[j],
        )
        &&& a.identifier != b.identifier
        &&& a.display_name != b.display_name
    } by {
        lemma_helper_identity_distinct(config.identifier, config.name, kinds[i], kinds[j]);
        lemma_helper_bundles_apart(config, bundle, kinds[i], kinds[j]);
    }
    assert forall|j: int| #![trigger kinds[j]] 0 <= j < kinds.len() implies {
        let a = helper_descriptor_spec(config, kinds[j], helper_bin);
        let main = main_descriptor_spec(config, helper_bin);
        &&& a.identifier != main.identifier
        &&& a.display_name != main.display_name
    } by {
        lemma_helper_differs_from_app(config.identifier, config.name, kinds[j]);
    }
}

/// The step that places the runtime framework: into the frameworks
/// directory of a `.app` bundle, under the framework's name; into a flat
/// application directory, as the directory's own contents.
pub open spec fn vendored_copy(config: ConfigView, out_dir: PathView, source: PathView) -> StepView {
    let bundle = main_bundle_path(config, out_dir);
    match config.layout {
        LayoutView::MacApp { .. } => StepView::CopyTree {
            from: source.join(framework_name()),
            to: framework_dest(bundle),
        },
        LayoutView::WindowsDir { .. } => StepView::CopyTree { from: source, to: bundle },
    }
}

/// No step that makes a helper bundle copies a directory tree.
proof fn lemma_helpers_copy_no_tree(
    config: ConfigView,
    bundle: PathView,
    helper_bin: PathView,
    kinds: Seq<HelperKind>,
    i: int,
)
    requires
        0 <= i < helper_steps(config, bundle, helper_bin, kinds).len(),
    ensures
        !(helper_steps(config, bundle, helper_bin, kinds)[i] is CopyTree),
{
    lemma_helper_steps_layout(config, bundle, helper_bin, kinds);
    let j = i / 5;
    let m = i % 5;
    assert(i == 5 * j + m);
    assert(helper_steps(config, bundle, helper_bin, kinds)[5 * j + m] == app_steps(
        helper_bundle_path(config, bundle, kinds[j]),
        helper_descriptor_spec(config, kinds[j], helper_bin),
    )[m]);
}

/// The runtime framework is placed once: one step of the plan copies a
/// directory tree, and it is the step that copies the framework to its place
/// in the main bundle. No helper bundle gets a copy.
pub proof fn lemma_framework_copied_once(
    config: ConfigView,
    out_dir: PathView,
    app_bin: PathView,
    helper_bin: PathView,
    source: PathView,
)
    ensures
        ({
            let steps = bundle_plan(config, out_dir, app_bin, helper_bin, source).steps;
            let copy = vendored_copy(config, out_dir, source);
            &&& exists|i: int| 0 <= i < steps.len() && steps[i] == copy
            &&& forall|i: int| 0 <= i < steps.len() && steps[i] is CopyTree ==> steps[i] == copy
            &&& forall|i: int, j: int|
                0 <= i < steps.len() && 0 <= j < steps.len() && steps[i] is CopyTree
                    && steps[j] is CopyTree ==> i == j
        }),
{
    let steps = bundle_plan(config, out_dir, app_bin, helper_bin, source).steps;
    let copy = vendored_copy(config, out_dir, source);
    match config.layout {
        LayoutView::MacApp { helper_kinds } => {
            let kinds = selected_kinds(helper_kinds);
            let bundle = main_bundle_path(config, out_dir);
            let helpers = helper_steps(config, bundle, helper_bin, kinds);
            assert(steps[7] == copy);
            assert forall|i: int| 0 <= i < steps.len() && steps[i] is CopyTree implies i == 7 by {
                if i >= 8 {
                    assert(steps[i] == helpers[i - 8]);
                    lemma_helpers_copy_no_tree(config, bundle, helper_bin, kinds, i - 8);
                }
            }
        },
        LayoutView::WindowsDir { .. } => {
            assert(steps[2] == copy);
        },
    }
}

/// No step that makes the bundle of `descriptor` at `bundle` can put anything
/// into the frameworks directory of a bundle that lies as deep as `bundle` or
/// deeper.
proof fn lemma_app_steps_spare_frameworks(
    bundle: PathView,
    descriptor: DescriptorView,
    other: PathView,
    p: PathView,
    m: int,
)
    requires
        other.parts.len() >= bundle.parts.len(),
        p.is_below(other.frameworks()),
        0 <= m < 5,
    ensures
        !app_steps(bundle, descriptor)[m].may_write(p),
{
    reveal_strlit("MacOS");
    reveal_strlit("Frameworks");
    let n = bundle.parts.len() as int;
    let target = app_steps(bundle, descriptor)[m].target();
    if app_steps(bundle, descriptor)[m].may_write(p) {
        if m == 4 {
            assert(p == bundle.exec().join(descriptor.executable));
            assert(p.parts[n + 1] == "MacOS"@);
            lemma_starts_with_index(p, other.frameworks(), n + 1);
            assert(other.frameworks().parts[n + 1] == "Frameworks"@);
            assert("MacOS"@.len() != "Frameworks"@.len());
        } else if m == 3 {
            assert(p == target);
        } else {
            assert(target.starts_with(p));
        }
    }
}

/// The frameworks directory of a helper bundle stays empty: whatever the
/// tree was before, the plan leaves nothing below that directory. The copy of
/// the runtime framework lies in the main bundle alone.
pub proof fn lemma_helper_frameworks_stay_empty(
    config: ConfigView,
    out_dir: PathView,
    app_bin: PathView,
    helper_bin: PathView,
    source: PathView,
    before: FileTree,
    kind: HelperKind,
    p: PathView,
)
    requires
        config.layout is MacApp,
        p.is_below(helper_bundle_path(config, main_bundle_path(config, out_dir), kind).frameworks()),
    ensures
        !run(bundle_plan(config, out_dir, app_bin, helper_bin, source).steps, before).dom().contains(
            p,
        ),
{
    let steps = bundle_plan(config, out_dir, app_bin, helper_bin, source).steps;
    let bundle = main_bundle_path(config, out_dir);
    let main = main_descriptor_spec(config, app_bin);
    let kinds = selected_kinds(config.layout->helper_kinds);
    let helpers = helper_steps(config, bundle, helper_bin, kinds);
    let nested = helper_bundle_path(config, bundle, kind);
    let removal = StepView::RemoveTree { path: bundle };
    let rest = steps.skip(1);
    let n = bundle.parts.len() as int;
    assert(steps =~= seq![removal] + rest);
    lemma_run_concat(seq![removal], rest, before);
    lemma_run_one(removal, before);
    let cleared = apply(removal, before);
    // The place lies in the main bundle, which the removal has cleared.
    lemma_join_starts_with(bundle, contents_dir());
    lemma_join_starts_with(bundle.contents(), frameworks_dir());
    lemma_join_starts_with(bundle.frameworks(), nested.parts.last());
    lemma_join_starts_with(nested, contents_dir());
    lemma_join_starts_with(nested.contents(), frameworks_dir());
    lemma_starts_with_trans(bundle.frameworks(), bundle.contents(), bundle);
    lemma_starts_with_trans(nested, bundle.frameworks(), bundle);
    lemma_starts_with_trans(nested.frameworks(), nested.contents(), nested);
    lemma_starts_with_trans(nested.frameworks(), nested, bundle);
    lemma_starts_with_trans(p, nested.frameworks(), bundle);
    assert(!cleared.dom().contains(p));
    // No later step puts anything there.
    lemma_helper_steps_layout(config, bundle, helper_bin, kinds);
    assert forall|i: int| 0 <= i < rest.len() implies !(#[trigger] rest[i]).may_write(p) by {
        if i < 5 {
            assert(rest[i] == app_steps(bundle, main)[i]);
            lemma_app_steps_spare_frameworks(bundle, main, nested, p, i);
        } else if i < 7 {
            assert(rest[i] == vendor_steps(source, bundle)[i - 5]);
            if rest[i].may_write(p) {
                let to = framework_dest(bundle);
                lemma_starts_with_index(p, nested.frameworks(), n + 2);
                if p.is_below(to) {
                    lemma_starts_with_index(p, to, n + 2);
                    lemma_framework_is_no_bundle(config, kind);
                }
            }
        } else {
            let j = (i - 7) / 5;
            let m = (i - 7) % 5;
            assert(i - 7 == 5 * j + m);
            assert(rest[i] == helpers[5 * j + m]);
            lemma_app_steps_spare_frameworks(
                helper_bundle_path(config, bundle, kinds[j]),
                helper_descriptor_spec(config, kinds[j], helper_bin),
                nested,
                p,
                m,
            );
        }
    }
    if run(rest, cleared).dom().contains(p) {
        lemma_run_writes(rest, cleared, p);
    }
}

/// The directory of the runtime framework is not called as a helper bundle
/// is.
proof fn lemma_framework_is_no_bundle(config: ConfigView, kind: HelperKind)
    requires
        config.layout is MacApp,
    ensures
        helper_name_spec(config.name, kind) + config.layout.bundle_suffix() != framework_name(),
{
    reveal_strlit(".app");
    reveal_strlit("Chromium Embedded Framework.framework");
    let name = helper_name_spec(config.name, kind) + ".app"@;
    assert(name.last() == 'p');
    assert(framework_name().last() == 'k');
}

} // verus!
