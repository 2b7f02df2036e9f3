//! What holds of every build.

use crate::error::Stage;
use crate::model::{
    advance, answers, boot_config, boot_config_head, extract_index, extract_step, failure, holds,
    image_id, iso_dir, join, overlay_index, overlay_step, pending, plan, remaining, report_detail,
    request, rootfs_dir, run, save_index, save_step, skeleton_names, start, step_path, step_stage,
    turn, BuildErrorView, BuildView, KitConfigView, ReportView, RequestView, StepView,
};
use crate::run::Turn;
use vstd::prelude::*;

verus! {

// ---------------------------------------------------------------------------
// Image identifiers
// ---------------------------------------------------------------------------

/// An image identifier is as long as its reference. It holds `_` wherever
/// the reference holds `/` or `:`, and the reference's own character
/// everywhere else. So no `/` and no `:` is left in it.
pub proof fn law_image_id_replaces_every_separator(reference: Seq<char>)
    ensures
        image_id(reference).len() == reference.len(),
        forall|i: int|
            0 <= i < reference.len() ==> #[trigger] image_id(reference)[i] == (if reference[i]
                == '/' || reference[i] == ':' {
                '_'
            } else {
                reference[i]
            }),
        forall|i: int|
            0 <= i < reference.len() ==> #[trigger] image_id(reference)[i] != '/' && image_id(
                reference,
            )[i] != ':',
{
}

/// An image identifier is its own identifier.
pub proof fn law_image_id_is_idempotent(reference: Seq<char>)
    ensures
        image_id(image_id(reference)) == image_id(reference),
{
}

/// Two references share an identifier exactly if they are equally long and,
/// place by place, hold the same character or each one of `/`, `:` and `_`.
pub proof fn law_image_ids_collide(a: Seq<char>, b: Seq<char>)
    ensures
        image_id(a) == image_id(b) <==> a.len() == b.len() && forall|i: int|
            0 <= i < a.len() ==> a[i] == b[i] || ((a[i] == '/' || a[i] == ':' || a[i] == '_') && (
            b[i] == '/' || b[i] == ':' || b[i] == '_')),
{
    if image_id(a) == image_id(b) {
        assert forall|i: int| 0 <= i < a.len() implies a[i] == b[i] || ((a[i] == '/' || a[i]
            == ':' || a[i] == '_') && (b[i] == '/' || b[i] == ':' || b[i] == '_')) by {
            assert(image_id(a)[i] == image_id(b)[i]);
        }
    }
    if a.len() == b.len() && forall|i: int|
        0 <= i < a.len() ==> a[i] == b[i] || ((a[i] == '/' || a[i] == ':' || a[i] == '_') && (b[i]
            == '/' || b[i] == ':' || b[i] == '_')) {
        assert(image_id(a) =~= image_id(b));
    }
}

// ---------------------------------------------------------------------------
// The boot configuration
// ---------------------------------------------------------------------------

/// The boot configuration holds the boot protocol, the kernel's path and
/// the kernel's command line, each as it is configured.
pub proof fn law_boot_config_holds_what_is_configured(config: KitConfigView)
    ensures
        holds(boot_config(config), config.boot_protocol),
        holds(boot_config(config), config.kernel),
        holds(boot_config(config), config.cmdline),
{
    let text = boot_config(config);
    let head = boot_config_head();
    let at_protocol = head.len() as int;
    let at_kernel = at_protocol + config.boot_protocol.len() + "\nKERNEL_PATH="@.len();
    let at_cmdline = at_kernel + config.kernel.len() + "\nKERNEL_CMDLINE="@.len();
    assert(text.subrange(at_protocol, at_protocol + config.boot_protocol.len())
        =~= config.boot_protocol);
    assert(text.subrange(at_kernel, at_kernel + config.kernel.len()) =~= config.kernel);
    assert(text.subrange(at_cmdline, at_cmdline + config.cmdline.len()) =~= config.cmdline);
}

// ---------------------------------------------------------------------------
// The plan
// ---------------------------------------------------------------------------

/// A plan has twenty-two steps of its own, two for each image and one for
/// each mapping.
pub proof fn law_plan_length(root: Seq<char>, config: KitConfigView)
    ensures
        plan(root, config).len() == 22 + 2 * config.images.len() + config.mappings.len(),
{
}

/// Every build begins with the workspace: what an earlier build left there
/// is deleted, then the workspace is created anew. Nothing is kept from one
/// build to the next.
pub proof fn law_plan_opens_with_wipe(root: Seq<char>, config: KitConfigView)
    ensures
        plan(root, config)[0] == (StepView::RemoveDir {
            stage: Stage::RemoveWorkspace,
            path: root,
        }),
        plan(root, config)[1] == (StepView::CreateDir {
            stage: Stage::CreateWorkspace,
            path: root,
        }),
{
}

/// Each image is saved, then extracted, and only then is the next image
/// turned to: of two images, the one declared later is extracted later.
pub proof fn law_images_in_declared_order(root: Seq<char>, config: KitConfigView, i: int, j: int)
    requires
        0 <= i < j < config.images.len(),
    ensures
        save_index(i) < extract_index(i) < save_index(j) < extract_index(j) < plan(
            root,
            config,
        ).len(),
        plan(root, config)[save_index(i)] == save_step(root, config.images[i]),
        plan(root, config)[extract_index(i)] == extract_step(root, config.images[i]),
        plan(root, config)[save_index(j)] == save_step(root, config.images[j]),
        plan(root, config)[extract_index(j)] == extract_step(root, config.images[j]),
{
    lemma_plan_places(root, config);
}

/// Each mapping is laid over the staged root filesystem after every image
/// is extracted, and after the mappings declared before it.
pub proof fn law_overlays_follow_images(root: Seq<char>, config: KitConfigView, i: int, k: int)
    requires
        0 <= i < config.images.len(),
        0 <= k < config.mappings.len(),
    ensures
        extract_index(i) < overlay_index(config.images.len(), k) < plan(root, config).len(),
        plan(root, config)[extract_index(i)] == extract_step(root, config.images[i]),
        plan(root, config)[overlay_index(config.images.len(), k)] == overlay_step(
            root,
            config.mappings[k],
        ),
        forall|l: int|
            0 <= l < k ==> overlay_index(config.images.len(), l) < overlay_index(
                config.images.len(),
                k,
            ),
{
    lemma_plan_places(root, config);
}

/// No step but those of the images extracts an image, and no step but those
/// of the mappings lays anything over the staged root filesystem.
pub proof fn law_staging_steps_are_those_declared(root: Seq<char>, config: KitConfigView, at: int)
    requires
        0 <= at < plan(root, config).len(),
    ensures
        step_stage(plan(root, config)[at]) == Some(Stage::ExtractImage) <==> exists|i: int|
            0 <= i < config.images.len() && at == #[trigger] extract_index(i),
        step_stage(plan(root, config)[at]) == Some(Stage::CopyOverlay) <==> exists|k: int|
            0 <= k < config.mappings.len() && at == #[trigger] overlay_index(
                config.images.len(),
                k,
            ),
{
    lemma_plan_places(root, config);
    let images = config.images.len() as int;
    let mappings = config.mappings.len() as int;
    if 5 <= at < 5 + 2 * images {
        if (at - 5) % 2 == 1 {
            assert(at == extract_index((at - 5) / 2));
        }
    } else if 5 + 2 * images <= at < 5 + 2 * images + mappings {
        assert(at == overlay_index(config.images.len(), at - 5 - 2 * images));
    }
}

/// Whatever a build deletes, creates or writes by itself lies in its
/// workspace: the path begins with the path of the workspace.
pub proof fn law_paths_are_in_the_workspace(root: Seq<char>, config: KitConfigView, at: int)
    requires
        0 <= at < plan(root, config).len(),
    ensures
        step_path(plan(root, config)[at]) matches Some(path) ==> root.is_prefix_of(path),
{
    let images = config.images.len() as int;
    let mappings = config.mappings.len() as int;
    let rootfs = rootfs_dir(root);
    let iso = iso_dir(root);
    lemma_join_keeps_base(root, "rootfs"@);
    lemma_join_keeps_base(rootfs, "EFI/BOOT"@);
    lemma_join_keeps_base(root, "limine.cfg"@);
    lemma_join_keeps_base(root, "iso"@);
    lemma_join_keeps_base(iso, "boot"@);
    if 6 + 2 * images + mappings <= at < 13 + 2 * images + mappings {
        lemma_join_keeps_base(rootfs, skeleton_names()[at - 6 - 2 * images - mappings]);
    }
}

/// A joined path begins with its base, and with all its base begins with.
proof fn lemma_join_keeps_base(base: Seq<char>, name: Seq<char>)
    ensures
        base.is_prefix_of(join(base, name)),
        forall|root: Seq<char>| #[trigger]
            root.is_prefix_of(base) ==> root.is_prefix_of(join(base, name)),
{
}

/// What stands where in a plan.
proof fn lemma_plan_places(root: Seq<char>, config: KitConfigView)
    ensures
        plan(root, config).len() == 22 + 2 * config.images.len() + config.mappings.len(),
        forall|at: int|
            0 <= at < 5 ==> step_stage(#[trigger] plan(root, config)[at]) != Some(
                Stage::ExtractImage,
            ) && step_stage(plan(root, config)[at]) != Some(Stage::CopyOverlay),
        forall|i: int|
            0 <= i < config.images.len() ==> #[trigger] plan(root, config)[save_index(i)]
                == save_step(root, config.images[i]),
        forall|i: int|
            0 <= i < config.images.len() ==> #[trigger] plan(root, config)[extract_index(i)]
                == extract_step(root, config.images[i]),
        forall|k: int|
            0 <= k < config.mappings.len() ==> #[trigger] plan(root, config)[overlay_index(
                config.images.len(),
                k,
            )] == overlay_step(root, config.mappings[k]),
        forall|at: int|
            5 + 2 * config.images.len() + config.mappings.len() <= at < plan(root, config).len()
                ==> step_stage(#[trigger] plan(root, config)[at]) != Some(Stage::ExtractImage)
                && step_stage(plan(root, config)[at]) != Some(Stage::CopyOverlay),
{
}

// ---------------------------------------------------------------------------
// A build, request by request
// ---------------------------------------------------------------------------

/// A build that has failed stays failed, whatever is reported to it: it
/// asks for nothing but to be given up, and no later step is ever taken.
pub proof fn law_failure_is_final(state: BuildView, reports: Seq<ReportView>)
    requires
        state.failure is Some,
    ensures
        run(state, reports) == state,
        request(run(state, reports)) == (RequestView::Abort { error: state.failure.unwrap() }),
    decreases reports.len(),
{
    if reports.len() > 0 {
        law_failure_is_final(state, reports.drop_first());
    }
}

/// A build that has succeeded stays so, whatever is reported to it.
pub proof fn law_success_is_final(state: BuildView, reports: Seq<ReportView>)
    requires
        request(state) is Finish,
    ensures
        run(state, reports) == state,
    decreases reports.len(),
{
    if reports.len() > 0 {
        law_success_is_final(state, reports.drop_first());
    }
}

/// A build whose specification cannot be read ends with an error of the
/// configuration, whatever is reported after that. It has asked for the
/// specification and for nothing else: the workspace is never touched.
pub proof fn law_unread_configuration_ends_the_build(
    root: Seq<char>,
    detail: Seq<char>,
    reports: Seq<ReportView>,
)
    ensures
        request(start(root)) is LoadConfig,
        request(run(start(root), seq![ReportView::Failed { detail }] + reports)) == (
        RequestView::Abort { error: BuildErrorView::Configuration { detail } }),
{
    let all = seq![ReportView::Failed { detail }] + reports;
    assert(all.drop_first() =~= reports);
    law_failure_is_final(advance(start(root), all.first()), reports);
}

/// A step fails when the driver could not carry out its request, and a
/// command also when it ends otherwise than with code 0. Nothing else fails:
/// a message never does.
pub proof fn law_what_fails(step: StepView, probed: bool, report: ReportView, stage: Stage)
    ensures
        turn(step, probed, report) == (Turn::Fail { stage }) <==> step_stage(step) == Some(stage)
            && (report is Failed || (step is Shell && report is Exited && report->code != Some(
            0i32,
        ))),
{
}

/// A step that fails ends the build with the error of its stage, whatever
/// is reported after that: the steps that follow it are never asked for,
/// and what is on disk is left as it is.
pub proof fn law_failed_step_ends_the_build(
    state: BuildView,
    stage: Stage,
    report: ReportView,
    reports: Seq<ReportView>,
)
    requires
        pending(state) is Some,
        turn(pending(state).unwrap(), state.probed, report) == (Turn::Fail { stage }),
    ensures
        request(run(state, seq![report] + reports)) == (RequestView::Abort {
            error: failure(stage, report_detail(report)),
        }),
{
    let all = seq![report] + reports;
    assert(all.drop_first() =~= reports);
    law_failure_is_final(advance(state, all.first()), reports);
}

/// A command has succeeded only if it exits with code 0. Any other end, and
/// a command that could not be started, ends the build with the error of
/// the command's stage; what the command wrote to its standard error goes
/// with the error.
pub proof fn law_command_succeeds_only_with_code_zero(
    state: BuildView,
    stage: Stage,
    command: Seq<char>,
    cwd: Option<Seq<char>>,
    code: Option<i32>,
    stderr: Seq<char>,
)
    requires
        pending(state) == Some(StepView::Shell { stage, command, cwd }),
    ensures
        request(state) == (RequestView::Shell { command, cwd }),
        code == Some(0i32) ==> advance(state, ReportView::Exited { code, stderr }) == (BuildView {
            cursor: state.cursor + 1,
            probed: false,
            ..state
        }),
        code != Some(0i32) ==> advance(state, ReportView::Exited { code, stderr }) == (BuildView {
            failure: Some(failure(stage, stderr)),
            ..state
        }),
{
}

/// A directory of the skeleton that is there is left alone: the build asks
/// what is at its path and, told that something is, goes on to the next
/// step without an error and without asking for the directory to be
/// created. Told that nothing is there, it asks for the directory.
pub proof fn law_present_directory_is_left_alone(state: BuildView, stage: Stage, path: Seq<char>)
    requires
        pending(state) == Some(StepView::EnsureDir { stage, path }),
        !state.probed,
    ensures
        request(state) == (RequestView::Probe { path }),
        advance(state, ReportView::Present) == (BuildView {
            cursor: state.cursor + 1,
            ..state
        }),
        request(advance(state, ReportView::Absent)) == (RequestView::CreateDir { path }),
{
}

/// A workspace is deleted only if it is there: the build asks what is at
/// its path and asks for the deletion only when told that something is.
pub proof fn law_absent_directory_is_not_removed(state: BuildView, stage: Stage, path: Seq<char>)
    requires
        pending(state) == Some(StepView::RemoveDir { stage, path }),
        !state.probed,
    ensures
        request(state) == (RequestView::Probe { path }),
        advance(state, ReportView::Absent) == (BuildView { cursor: state.cursor + 1, ..state }),
        request(advance(state, ReportView::Present)) == (RequestView::RemoveDir { path }),
{
}

/// The steps are taken in the order of the plan, one at a time: a report
/// leaves the plan as it is and moves the build on by one step or not at
/// all.
pub proof fn law_steps_are_taken_in_order(state: BuildView, report: ReportView)
    requires
        state.plan is Some,
    ensures
        advance(state, report).plan == state.plan,
        advance(state, report).cursor == state.cursor || advance(state, report).cursor
            == state.cursor + 1,
{
}

/// The plan of a build is that of the specification it was given.
pub proof fn law_plan_is_that_of_the_specification(root: Seq<char>, config: KitConfigView)
    ensures
        advance(start(root), ReportView::Loaded { config }) == (BuildView {
            plan: Some(plan(root, config)),
            ..start(root)
        }),
{
}

/// Every report that answers the request of a build with its steps planned
/// brings the build nearer to its end. So a driver that answers each
/// request comes to the end of the build.
pub proof fn law_answered_request_brings_the_end_nearer(state: BuildView, report: ReportView)
    requires
        pending(state) is Some,
        answers(request(state), report),
    ensures
        remaining(advance(state, report)) < remaining(state),
{
}

} // verus!
