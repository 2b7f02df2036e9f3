//! What can go wrong in a build, and where.

use crate::model;
use crate::model::BuildErrorView;
use vstd::prelude::*;

verus! {

/// The steps of a build that can fail.
#[derive(Clone, Copy, PartialEq, Eq, Debug, Structural)]
pub enum Stage {
    /// Deleting what an earlier build left in the workspace.
    RemoveWorkspace,
    /// Creating the workspace.
    CreateWorkspace,
    /// Creating the staged root filesystem.
    CreateRootfs,
    /// Creating the directory of the EFI boot files.
    CreateEfiDir,
    /// Saving an image as an archive.
    SaveImage,
    /// Extracting an image's archive into the staged root filesystem.
    ExtractImage,
    /// Copying a mapping over the staged root filesystem.
    CopyOverlay,
    /// Writing the boot configuration.
    WriteBootConfig,
    /// Creating a directory of the skeleton.
    CreateSkeletonDir,
    /// Creating the image tree.
    CreateIsoDir,
    /// Creating the boot directory of the image tree.
    CreateBootDir,
    /// Copying the staged root filesystem into the image tree.
    CopyRootfs,
    /// Copying the boot configuration into the image tree.
    CopyBootConfig,
    /// Mastering the disk image.
    MakeIso,
    /// Installing the bootloader on the disk image.
    InstallBootloader,
}

impl Stage {
    /// The name by which a failure of this stage is reported.
    pub fn name(self) -> (name: &'static str)
        ensures
            name@ == model::stage_name(self),
    {
        match self {
            Stage::RemoveWorkspace => "remove workspace",
            Stage::CreateWorkspace => "create workspace",
            Stage::CreateRootfs => "create rootfs",
            Stage::CreateEfiDir => "create EFI directory",
            Stage::SaveImage => "save image",
            Stage::ExtractImage => "extract image",
            Stage::CopyOverlay => "copy overlay",
            Stage::WriteBootConfig => "write boot configuration",
            Stage::CreateSkeletonDir => "create skeleton directory",
            Stage::CreateIsoDir => "create ISO directory",
            Stage::CreateBootDir => "create boot directory",
            Stage::CopyRootfs => "copy rootfs",
            Stage::CopyBootConfig => "copy boot configuration",
            Stage::MakeIso => "create ISO",
            Stage::InstallBootloader => "install bootloader",
        }
    }

    /// Whether a failure of this stage is an error of the file system (and
    /// not of a build step).
    pub fn fails_as_filesystem(self) -> (yes: bool)
        ensures
            yes == model::fails_as_filesystem(self),
    {
        match self {
            Stage::RemoveWorkspace => true,
            Stage::CreateWorkspace => true,
            Stage::CreateRootfs => true,
            Stage::CreateEfiDir => true,
            Stage::WriteBootConfig => true,
            Stage::CreateSkeletonDir => true,
            _ => false,
        }
    }
}

/// Why a build was given up.
#[derive(Debug, Clone, PartialEq, Eq)]
pub enum BuildError {
    /// The configuration could not be read or is not a build specification.
    Configuration { detail: String },
    /// A directory or a file could not be created, deleted or written.
    Filesystem { stage: Stage, detail: String },
    /// A step of the build failed: its command could not be started or did
    /// not exit with success.
    BuildStep { stage: Stage, stderr: String },
}

impl View for BuildError {
    type V = BuildErrorView;

    open spec fn view(&self) -> BuildErrorView {
        match self {
            BuildError::Configuration { detail } => BuildErrorView::Configuration {
                detail: detail@,
            },
            BuildError::Filesystem { stage, detail } => BuildErrorView::Filesystem {
                stage: *stage,
                detail: detail@,
            },
            BuildError::BuildStep { stage, stderr } => BuildErrorView::BuildStep {
                stage: *stage,
                stderr: stderr@,
            },
        }
    }
}

impl DeepView for BuildError {
    type V = BuildErrorView;

    open spec fn deep_view(&self) -> BuildErrorView {
        self@
    }
}

impl BuildError {
    /// The error with which a build ends when `stage` fails.
    pub fn of_stage(stage: Stage, detail: String) -> (error: BuildError)
        ensures
            error@ == model::failure(stage, detail@),
    {
        if stage.fails_as_filesystem() {
            BuildError::Filesystem { stage, detail }
        } else {
            BuildError::BuildStep { stage, stderr: detail }
        }
    }

    /// The kind of this error, in words.
    pub fn kind_name(&self) -> (name: &'static str)
        ensures
            name@ == model::kind_name(self@),
    {
        match self {
            BuildError::Configuration { .. } => "configuration error",
            BuildError::Filesystem { .. } => "filesystem error",
            BuildError::BuildStep { .. } => "build step error",
        }
    }

    /// The name of what failed.
    pub fn step_name(&self) -> (name: &'static str)
        ensures
            name@ == model::step_name(self@),
    {
        match self {
            BuildError::Configuration { .. } => "load configuration",
            BuildError::Filesystem { stage, .. } => stage.name(),
            BuildError::BuildStep { stage, .. } => stage.name(),
        }
    }

    /// The one line that tells of this error: its kind, then what failed.
    pub fn message(&self) -> (line: String)
        ensures
            line@ == model::message(self@),
    {
        let mut line = String::from_str(self.kind_name());
        line.append(": ");
        line.append(self.step_name());
        line
    }

    /// What was reported of the failure: the text of the underlying error,
    /// or what a command wrote to its standard error.
    pub fn detail(&self) -> (text: &str)
        ensures
            text@ == model::detail(self@),
    {
        match self {
            BuildError::Configuration { detail } => detail.as_str(),
            BuildError::Filesystem { detail, .. } => detail.as_str(),
            BuildError::BuildStep { stderr, .. } => stderr.as_str(),
        }
    }
}

} // verus!
