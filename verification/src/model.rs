//! The build as mathematics.
//!
//! Every executable function of this crate states its result through a
//! function of this module. Strings appear here as sequences of characters,
//! the configuration, the steps and the state of a build as values made of
//! such sequences.

use crate::error::Stage;
use crate::run::Turn;
use vstd::prelude::*;

verus! {

// ---------------------------------------------------------------------------
// Configuration
// ---------------------------------------------------------------------------

/// A mapping: a path on the host and a path below the staged root filesystem.
pub struct MappingView {
    pub source: Seq<char>,
    pub target: Seq<char>,
}

/// A build specification.
pub struct KitConfigView {
    pub images: Seq<Seq<char>>,
    pub mappings: Seq<MappingView>,
    pub cmdline: Seq<char>,
    pub kernel: Seq<char>,
    pub boot_protocol: Seq<char>,
}

/// The file a build reads its configuration from.
pub open spec fn config_path() -> Seq<char> {
    "kit.toml"@
}

// ---------------------------------------------------------------------------
// Image identifiers
// ---------------------------------------------------------------------------

/// The characters that part the components and the tag of an image reference.
pub open spec fn is_separator(c: char) -> bool {
    c == '/' || c == ':'
}

/// A separator becomes `_`; every other character stays.
pub open spec fn neutral(c: char) -> char {
    if is_separator(c) {
        '_'
    } else {
        c
    }
}

/// The name under which an image is kept in the workspace: its reference with
/// each separator made neutral.
pub open spec fn image_id(reference: Seq<char>) -> Seq<char> {
    Seq::new(reference.len(), |i: int| neutral(reference[i]))
}

// ---------------------------------------------------------------------------
// Paths
// ---------------------------------------------------------------------------

/// `name` below the directory `base`. One `/` parts the two, unless `base` is
/// empty or brings its own.
pub open spec fn join(base: Seq<char>, name: Seq<char>) -> Seq<char> {
    if base.len() == 0 || base.last() == '/' {
        base + name
    } else {
        base + "/"@ + name
    }
}

/// The staged root filesystem.
pub open spec fn rootfs_dir(root: Seq<char>) -> Seq<char> {
    join(root, "rootfs"@)
}

/// Where the staged root filesystem keeps its EFI boot files.
pub open spec fn efi_dir(root: Seq<char>) -> Seq<char> {
    join(rootfs_dir(root), "EFI/BOOT"@)
}

/// The file name of an image's archive.
pub open spec fn archive_name(reference: Seq<char>) -> Seq<char> {
    image_id(reference) + ".tar"@
}

/// An image's archive, in the workspace.
pub open spec fn archive_path(root: Seq<char>, reference: Seq<char>) -> Seq<char> {
    join(root, archive_name(reference))
}

/// The boot configuration, in the workspace.
pub open spec fn boot_config_path(root: Seq<char>) -> Seq<char> {
    join(root, "limine.cfg"@)
}

/// The tree the disk image is made from.
pub open spec fn iso_dir(root: Seq<char>) -> Seq<char> {
    join(root, "iso"@)
}

/// The boot directory of that tree.
pub open spec fn boot_dir(root: Seq<char>) -> Seq<char> {
    join(iso_dir(root), "boot"@)
}

/// The disk image.
pub open spec fn iso_path(root: Seq<char>) -> Seq<char> {
    join(root, "os.iso"@)
}

/// The directories every staged root filesystem has, in the order in which
/// they are seen to.
pub open spec fn skeleton_names() -> Seq<Seq<char>> {
    seq!["etc"@, "sys"@, "proc"@, "run"@, "tmp"@, "dev"@, "oldroot"@]
}

/// One of those directories, below the staged root filesystem.
pub open spec fn skeleton_dir(root: Seq<char>, name: Seq<char>) -> Seq<char> {
    join(rootfs_dir(root), name)
}

// ---------------------------------------------------------------------------
// Command lines
// ---------------------------------------------------------------------------

/// Saves an image as a layered archive. Runs inside the workspace, so the
/// archive is named without a directory.
pub open spec fn save_command(reference: Seq<char>) -> Seq<char> {
    "podman image save --format=docker-archive -o "@ + archive_name(reference) + " "@ + reference
}

/// Flattens an image's archive into the staged root filesystem, through a
/// pipe.
pub open spec fn extract_command(root: Seq<char>, reference: Seq<char>) -> Seq<char> {
    "undocker "@ + archive_path(root, reference) + " - | tar -xvf - -C "@ + rootfs_dir(root)
}

/// Copies a mapping's source onto its target below the staged root
/// filesystem. The target follows the directory as it is written.
pub open spec fn overlay_command(root: Seq<char>, mapping: MappingView) -> Seq<char> {
    "cp -r "@ + mapping.source + " "@ + rootfs_dir(root) + mapping.target
}

/// Copies what the staged root filesystem holds into the image tree.
pub open spec fn copy_rootfs_command(root: Seq<char>) -> Seq<char> {
    "cp -r "@ + rootfs_dir(root) + "/* "@ + iso_dir(root)
}

/// Copies the boot configuration into the image tree's boot directory.
pub open spec fn copy_boot_config_command(root: Seq<char>) -> Seq<char> {
    "cp "@ + boot_config_path(root) + " "@ + boot_dir(root)
}

/// The options of the mastering tool: El Torito boot image, no emulation,
/// boot-info table, EFI boot image.
pub open spec fn iso_options() -> Seq<char> {
    "xorriso -as mkisofs -b boot/limine-cd.bin -no-emul-boot -boot-load-size 4 -boot-info-table --efi-boot boot/limine-eltorito-efi.bin -efi-boot-part --efi-boot-image --protective-msdos-label -o "@
}

/// Masters the disk image from the image tree.
pub open spec fn iso_command(root: Seq<char>) -> Seq<char> {
    iso_options() + iso_path(root) + " "@ + iso_dir(root)
}

/// Makes the disk image bootable by a legacy BIOS.
pub open spec fn install_command(root: Seq<char>) -> Seq<char> {
    "limine-install "@ + iso_path(root)
}

// ---------------------------------------------------------------------------
// Boot configuration
// ---------------------------------------------------------------------------

/// The fixed head of the boot configuration, up to the protocol's value.
pub open spec fn boot_config_head() -> Seq<char> {
    "\nTIMEOUT=3\nDEFAULT_ENTRY=1\nGRAPHICS=yes\nVERBOSE=yes\n:Linux\n\nPROTOCOL="@
}

/// The boot configuration: one menu entry that names the protocol, the
/// kernel's path and the kernel's command line.
pub open spec fn boot_config(config: KitConfigView) -> Seq<char> {
    boot_config_head() + config.boot_protocol + "\nKERNEL_PATH="@ + config.kernel
        + "\nKERNEL_CMDLINE="@ + config.cmdline + "\n            "@
}

/// Whether `part` stands somewhere in `text`.
pub open spec fn holds(text: Seq<char>, part: Seq<char>) -> bool {
    exists|at: int| 0 <= at <= text.len() - part.len() && #[trigger] text.subrange(
        at,
        at + part.len(),
    ) == part
}

// ---------------------------------------------------------------------------
// Messages
// ---------------------------------------------------------------------------

/// Shown before the first image is saved.
pub open spec fn images_message() -> Seq<char> {
    "Copying images"@
}

/// Shown before the disk image is mastered.
pub open spec fn iso_message() -> Seq<char> {
    "Creating final image"@
}

/// Shown before the bootloader is installed.
pub open spec fn install_message() -> Seq<char> {
    "Installing the limine bootloader"@
}

/// Shown last: where the disk image is.
pub open spec fn done_message(root: Seq<char>) -> Seq<char> {
    "A bootable disk image has been placed in: "@ + root + " as os.iso"@
}

// ---------------------------------------------------------------------------
// Steps
// ---------------------------------------------------------------------------

/// One step of a build.
pub enum StepView {
    /// Show a message.
    Announce { message: Seq<char> },
    /// Delete a directory and all below it, if it is there.
    RemoveDir { stage: Stage, path: Seq<char> },
    /// Create a directory and its parents; one that is there is left as it is.
    CreateDir { stage: Stage, path: Seq<char> },
    /// Create a directory only if nothing is there.
    EnsureDir { stage: Stage, path: Seq<char> },
    /// Write a file.
    WriteFile { stage: Stage, path: Seq<char>, contents: Seq<char> },
    /// Hand a command line to the shell, in a working directory if one is
    /// given.
    Shell { stage: Stage, command: Seq<char>, cwd: Option<Seq<char>> },
}

/// Wipes the workspace and creates it anew, with the staged root filesystem.
pub open spec fn workspace_steps(root: Seq<char>) -> Seq<StepView> {
    seq![
        StepView::RemoveDir { stage: Stage::RemoveWorkspace, path: root },
        StepView::CreateDir { stage: Stage::CreateWorkspace, path: root },
        StepView::CreateDir { stage: Stage::CreateRootfs, path: rootfs_dir(root) },
        StepView::CreateDir { stage: Stage::CreateEfiDir, path: efi_dir(root) },
    ]
}

/// Saves one image.
pub open spec fn save_step(root: Seq<char>, reference: Seq<char>) -> StepView {
    StepView::Shell { stage: Stage::SaveImage, command: save_command(reference), cwd: Some(root) }
}

/// Extracts one image.
pub open spec fn extract_step(root: Seq<char>, reference: Seq<char>) -> StepView {
    StepView::Shell {
        stage: Stage::ExtractImage,
        command: extract_command(root, reference),
        cwd: None,
    }
}

/// Saves and extracts each image, one after the other, in the order in which
/// they are declared.
pub open spec fn image_steps(root: Seq<char>, images: Seq<Seq<char>>) -> Seq<StepView> {
    Seq::new(
        2 * images.len(),
        |k: int|
            if k % 2 == 0 {
                save_step(root, images[k / 2])
            } else {
                extract_step(root, images[k / 2])
            },
    )
}

/// Lays one mapping over the staged root filesystem.
pub open spec fn overlay_step(root: Seq<char>, mapping: MappingView) -> StepView {
    StepView::Shell {
        stage: Stage::CopyOverlay,
        command: overlay_command(root, mapping),
        cwd: None,
    }
}

/// Lays each mapping over the staged root filesystem, in the order in which
/// they are declared.
pub open spec fn overlay_steps(root: Seq<char>, mappings: Seq<MappingView>) -> Seq<StepView> {
    Seq::new(mappings.len(), |k: int| overlay_step(root, mappings[k]))
}

/// Writes the boot configuration into the workspace.
pub open spec fn boot_config_step(root: Seq<char>, config: KitConfigView) -> StepView {
    StepView::WriteFile {
        stage: Stage::WriteBootConfig,
        path: boot_config_path(root),
        contents: boot_config(config),
    }
}

/// Sees to one directory of the skeleton.
pub open spec fn skeleton_step(root: Seq<char>, name: Seq<char>) -> StepView {
    StepView::EnsureDir { stage: Stage::CreateSkeletonDir, path: skeleton_dir(root, name) }
}

/// Sees to each directory of the skeleton.
pub open spec fn skeleton_steps(root: Seq<char>) -> Seq<StepView> {
    Seq::new(skeleton_names().len(), |k: int| skeleton_step(root, skeleton_names()[k]))
}

/// Fills the image tree, masters the disk image, installs the bootloader and
/// says where the disk image is.
pub open spec fn assembly_steps(root: Seq<char>) -> Seq<StepView> {
    seq![
        StepView::CreateDir { stage: Stage::CreateIsoDir, path: iso_dir(root) },
        StepView::CreateDir { stage: Stage::CreateBootDir, path: boot_dir(root) },
        StepView::Shell {
            stage: Stage::CopyRootfs,
            command: copy_rootfs_command(root),
            cwd: None,
        },
        StepView::Shell {
            stage: Stage::CopyBootConfig,
            command: copy_boot_config_command(root),
            cwd: None,
        },
        StepView::Announce { message: iso_message() },
        StepView::Shell { stage: Stage::MakeIso, command: iso_command(root), cwd: None },
        StepView::Announce { message: install_message() },
        StepView::Shell {
            stage: Stage::InstallBootloader,
            command: install_command(root),
            cwd: None,
        },
        StepView::Announce { message: done_message(root) },
    ]
}

/// Where the plan saves the image declared at place `i`.
pub open spec fn save_index(i: int) -> int {
    5 + 2 * i
}

/// Where the plan extracts the image declared at place `i`.
pub open spec fn extract_index(i: int) -> int {
    6 + 2 * i
}

/// Where the plan of a build with `images` images lays the mapping declared
/// at place `k`.
pub open spec fn overlay_index(images: nat, k: int) -> int {
    5 + 2 * images + k
}

/// All steps of a build, in the order in which they are taken: workspace,
/// images, overlays, boot configuration, skeleton, assembly.
pub open spec fn plan(root: Seq<char>, config: KitConfigView) -> Seq<StepView> {
    workspace_steps(root) + seq![StepView::Announce { message: images_message() }] + image_steps(
        root,
        config.images,
    ) + overlay_steps(root, config.mappings) + seq![boot_config_step(root, config)]
        + skeleton_steps(root) + assembly_steps(root)
}

// ---------------------------------------------------------------------------
// Errors
// ---------------------------------------------------------------------------

/// Why a build was given up.
pub enum BuildErrorView {
    /// The configuration could not be read or is not a build specification.
    Configuration { detail: Seq<char> },
    /// A directory or a file could not be created, deleted or written.
    Filesystem { stage: Stage, detail: Seq<char> },
    /// A step of the build failed.
    BuildStep { stage: Stage, stderr: Seq<char> },
}

/// The name by which a failure of that stage is reported.
pub open spec fn stage_name(stage: Stage) -> Seq<char> {
    match stage {
        Stage::RemoveWorkspace => "remove workspace"@,
        Stage::CreateWorkspace => "create workspace"@,
        Stage::CreateRootfs => "create rootfs"@,
        Stage::CreateEfiDir => "create EFI directory"@,
        Stage::SaveImage => "save image"@,
        Stage::ExtractImage => "extract image"@,
        Stage::CopyOverlay => "copy overlay"@,
        Stage::WriteBootConfig => "write boot configuration"@,
        Stage::CreateSkeletonDir => "create skeleton directory"@,
        Stage::CreateIsoDir => "create ISO directory"@,
        Stage::CreateBootDir => "create boot directory"@,
        Stage::CopyRootfs => "copy rootfs"@,
        Stage::CopyBootConfig => "copy boot configuration"@,
        Stage::MakeIso => "create ISO"@,
        Stage::InstallBootloader => "install bootloader"@,
    }
}

/// The stages whose failure is an error of the file system: those of the
/// workspace, of the boot configuration and of the skeleton. A failure of
/// any other stage (images, overlays, assembly) is an error of a build step.
pub open spec fn fails_as_filesystem(stage: Stage) -> bool {
    stage == Stage::RemoveWorkspace || stage == Stage::CreateWorkspace || stage
        == Stage::CreateRootfs || stage == Stage::CreateEfiDir || stage == Stage::WriteBootConfig
        || stage == Stage::CreateSkeletonDir
}

/// The error with which a build ends when `stage` fails.
pub open spec fn failure(stage: Stage, detail: Seq<char>) -> BuildErrorView {
    if fails_as_filesystem(stage) {
        BuildErrorView::Filesystem { stage, detail }
    } else {
        BuildErrorView::BuildStep { stage, stderr: detail }
    }
}

/// The kind of an error, in words.
pub open spec fn kind_name(error: BuildErrorView) -> Seq<char> {
    match error {
        BuildErrorView::Configuration { .. } => "configuration error"@,
        BuildErrorView::Filesystem { .. } => "filesystem error"@,
        BuildErrorView::BuildStep { .. } => "build step error"@,
    }
}

/// The name of what failed.
pub open spec fn step_name(error: BuildErrorView) -> Seq<char> {
    match error {
        BuildErrorView::Configuration { .. } => "load configuration"@,
        BuildErrorView::Filesystem { stage, .. } => stage_name(stage),
        BuildErrorView::BuildStep { stage, .. } => stage_name(stage),
    }
}

/// What was reported of the failure.
pub open spec fn detail(error: BuildErrorView) -> Seq<char> {
    match error {
        BuildErrorView::Configuration { detail } => detail,
        BuildErrorView::Filesystem { detail, .. } => detail,
        BuildErrorView::BuildStep { stderr, .. } => stderr,
    }
}

/// The one line that tells of an error: its kind, then what failed.
pub open spec fn message(error: BuildErrorView) -> Seq<char> {
    kind_name(error) + ": "@ + step_name(error)
}

// ---------------------------------------------------------------------------
// A build, request by request
// ---------------------------------------------------------------------------

/// What a build asks its driver to do.
pub enum RequestView {
    /// Read the build specification from a file and report it.
    LoadConfig { path: Seq<char> },
    /// Show a message.
    Announce { message: Seq<char> },
    /// Report whether anything is at a path.
    Probe { path: Seq<char> },
    /// Delete a directory and all below it.
    RemoveDir { path: Seq<char> },
    /// Create a directory and its parents.
    CreateDir { path: Seq<char> },
    /// Write a file.
    WriteFile { path: Seq<char>, contents: Seq<char> },
    /// Hand a command line to the shell and wait for it.
    Shell { command: Seq<char>, cwd: Option<Seq<char>> },
    /// Nothing is left to do: the build has succeeded.
    Finish,
    /// The build has failed.
    Abort { error: BuildErrorView },
}

/// What the driver reports of a request.
pub enum ReportView {
    /// The build specification was read.
    Loaded { config: KitConfigView },
    /// Something is at the path.
    Present,
    /// Nothing is at the path.
    Absent,
    /// The request was carried out.
    Done,
    /// The command ran and ended: with an exit code, unless a signal ended
    /// it.
    Exited { code: Option<i32>, stderr: Seq<char> },
    /// The request could not be carried out.
    Failed { detail: Seq<char> },
}

/// The state of a build.
pub struct BuildView {
    /// The workspace.
    pub root: Seq<char>,
    /// The steps, once the build specification is read.
    pub plan: Option<Seq<StepView>>,
    /// How many steps are behind.
    pub cursor: nat,
    /// Whether the driver has been asked what is at the path of the step
    /// the build stands at, and the answer calls for the step to be taken.
    pub probed: bool,
    /// Why the build was given up, if it was.
    pub failure: Option<BuildErrorView>,
}

/// A build before anything is asked for.
pub open spec fn start(root: Seq<char>) -> BuildView {
    BuildView { root, plan: None, cursor: 0, probed: false, failure: None }
}

/// The step a build stands at, while it has one.
pub open spec fn pending(state: BuildView) -> Option<StepView> {
    if state.failure is None && state.plan is Some && state.cursor < state.plan.unwrap().len() {
        Some(state.plan.unwrap()[state.cursor as int])
    } else {
        None
    }
}

/// The stage a step belongs to, where it can fail.
pub open spec fn step_stage(step: StepView) -> Option<Stage> {
    match step {
        StepView::Announce { .. } => None,
        StepView::RemoveDir { stage, .. } => Some(stage),
        StepView::CreateDir { stage, .. } => Some(stage),
        StepView::EnsureDir { stage, .. } => Some(stage),
        StepView::WriteFile { stage, .. } => Some(stage),
        StepView::Shell { stage, .. } => Some(stage),
    }
}

/// The directory or file a step deletes, creates or writes by itself.
pub open spec fn step_path(step: StepView) -> Option<Seq<char>> {
    match step {
        StepView::RemoveDir { path, .. } => Some(path),
        StepView::CreateDir { path, .. } => Some(path),
        StepView::EnsureDir { path, .. } => Some(path),
        StepView::WriteFile { path, .. } => Some(path),
        _ => None,
    }
}

/// What a step asks of the driver. A step that depends on what is at its
/// path asks for that first.
pub open spec fn step_request(step: StepView, probed: bool) -> RequestView {
    match step {
        StepView::Announce { message } => RequestView::Announce { message },
        StepView::RemoveDir { path, .. } => if probed {
            RequestView::RemoveDir { path }
        } else {
            RequestView::Probe { path }
        },
        StepView::CreateDir { path, .. } => RequestView::CreateDir { path },
        StepView::EnsureDir { path, .. } => if probed {
            RequestView::CreateDir { path }
        } else {
            RequestView::Probe { path }
        },
        StepView::WriteFile { path, contents, .. } => RequestView::WriteFile { path, contents },
        StepView::Shell { command, cwd, .. } => RequestView::Shell { command, cwd },
    }
}

/// What a build asks for in a state.
pub open spec fn request(state: BuildView) -> RequestView {
    if state.failure is Some {
        RequestView::Abort { error: state.failure.unwrap() }
    } else if state.plan is None {
        RequestView::LoadConfig { path: config_path() }
    } else {
        match pending(state) {
            Some(step) => step_request(step, state.probed),
            None => RequestView::Finish,
        }
    }
}

/// How a report turns a build that stands at `step`.
///
/// A failure ends the build, except that of a message, which is passed
/// over. A command has failed unless it exits with code 0. A directory to
/// delete is deleted only if it is there, one to ensure is created only if
/// it is not. A report that does not answer the request changes nothing.
pub open spec fn turn(step: StepView, probed: bool, report: ReportView) -> Turn {
    match step {
        StepView::Announce { .. } => match report {
            ReportView::Done => Turn::Next,
            ReportView::Failed { .. } => Turn::Next,
            _ => Turn::Stay,
        },
        StepView::RemoveDir { stage, .. } => match report {
            ReportView::Failed { .. } => Turn::Fail { stage },
            ReportView::Present => if probed {
                Turn::Stay
            } else {
                Turn::Probed
            },
            ReportView::Absent => if probed {
                Turn::Stay
            } else {
                Turn::Next
            },
            ReportView::Done => if probed {
                Turn::Next
            } else {
                Turn::Stay
            },
            _ => Turn::Stay,
        },
        StepView::EnsureDir { stage, .. } => match report {
            ReportView::Failed { .. } => Turn::Fail { stage },
            ReportView::Present => if probed {
                Turn::Stay
            } else {
                Turn::Next
            },
            ReportView::Absent => if probed {
                Turn::Stay
            } else {
                Turn::Probed
            },
            ReportView::Done => if probed {
                Turn::Next
            } else {
                Turn::Stay
            },
            _ => Turn::Stay,
        },
        StepView::CreateDir { stage, .. } => plain_turn(stage, report),
        StepView::WriteFile { stage, .. } => plain_turn(stage, report),
        StepView::Shell { stage, .. } => match report {
            ReportView::Failed { .. } => Turn::Fail { stage },
            ReportView::Exited { code, .. } => if code == Some(0i32) {
                Turn::Next
            } else {
                Turn::Fail { stage }
            },
            _ => Turn::Stay,
        },
    }
}

/// How a report turns a build that stands at a step which is taken whatever
/// is on disk.
pub open spec fn plain_turn(stage: Stage, report: ReportView) -> Turn {
    match report {
        ReportView::Failed { .. } => Turn::Fail { stage },
        ReportView::Done => Turn::Next,
        _ => Turn::Stay,
    }
}

/// What a report says of why a request failed: the text of the error, or
/// what the command wrote to its standard error.
pub open spec fn report_detail(report: ReportView) -> Seq<char> {
    match report {
        ReportView::Failed { detail } => detail,
        ReportView::Exited { stderr, .. } => stderr,
        _ => Seq::empty(),
    }
}

/// The state of a build after a report.
///
/// A build that is over stays as it is. One that waits for its
/// specification takes it and plans its steps, or fails with an error of
/// the configuration. One that stands at a step turns as [`turn`] says.
pub open spec fn advance(state: BuildView, report: ReportView) -> BuildView {
    if state.failure is Some {
        state
    } else if state.plan is None {
        match report {
            ReportView::Loaded { config } => BuildView {
                plan: Some(plan(state.root, config)),
                cursor: 0,
                probed: false,
                ..state
            },
            ReportView::Failed { detail } => BuildView {
                failure: Some(BuildErrorView::Configuration { detail }),
                ..state
            },
            _ => state,
        }
    } else {
        match pending(state) {
            Some(step) => match turn(step, state.probed, report) {
                Turn::Stay => state,
                Turn::Probed => BuildView { probed: true, ..state },
                Turn::Next => BuildView {
                    cursor: state.cursor + 1,
                    probed: false,
                    ..state
                },
                Turn::Fail { stage } => BuildView {
                    failure: Some(failure(stage, report_detail(report))),
                    ..state
                },
            },
            None => state,
        }
    }
}

/// The state of a build after a row of reports, taken one by one.
pub open spec fn run(state: BuildView, reports: Seq<ReportView>) -> BuildView
    decreases reports.len(),
{
    if reports.len() == 0 {
        state
    } else {
        run(advance(state, reports.first()), reports.drop_first())
    }
}

/// Whether a report answers a request.
pub open spec fn answers(request: RequestView, report: ReportView) -> bool {
    match request {
        RequestView::LoadConfig { .. } => report is Loaded || report is Failed,
        RequestView::Probe { .. } => report is Present || report is Absent || report is Failed,
        RequestView::Shell { .. } => report is Exited || report is Failed,
        RequestView::Finish => false,
        RequestView::Abort { .. } => false,
        _ => report is Done || report is Failed,
    }
}

/// No build with its steps planned asks for more requests than this
/// before it is over.
pub open spec fn remaining(state: BuildView) -> nat {
    match pending(state) {
        Some(_) => {
            let ahead = 2 * (state.plan.unwrap().len() - state.cursor);
            if state.probed {
                (ahead - 1) as nat
            } else {
                ahead as nat
            }
        },
        None => 0,
    }
}

/// The code with which the process ends, once the build is over: 0 after a
/// success, 1 after any failure.
pub open spec fn exit_code(state: BuildView) -> Option<int> {
    if state.failure is Some {
        Some(1)
    } else if state.plan is Some && pending(state) is None {
        Some(0)
    } else {
        None
    }
}

} // verus!
