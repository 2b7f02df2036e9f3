//! The steps of a build and the order in which they are taken.

use crate::bootcfg::boot_config;
use crate::command::{
    copy_boot_config_command, copy_rootfs_command, extract_command, install_command, iso_command,
    overlay_command, save_command,
};
use crate::config::{KitConfig, Mapping};
use crate::error::Stage;
use crate::layout::{
    boot_config_path, boot_dir, efi_dir, iso_dir, rootfs_dir, skeleton_dir, skeleton_names,
};
use crate::model;
use crate::model::StepView;
use vstd::prelude::*;

verus! {

/// One step of a build: what is to be done, and the stage it belongs to
/// where it can fail.
#[derive(Debug, Clone, PartialEq, Eq)]
pub enum Step {
    /// Show a message.
    Announce { message: String },
    /// Delete a directory and all below it, if it is there.
    RemoveDir { stage: Stage, path: String },
    /// Create a directory and its parents; one that is there is left as it is.
    CreateDir { stage: Stage, path: String },
    /// Create a directory only if nothing is there.
    EnsureDir { stage: Stage, path: String },
    /// Write a file.
    WriteFile { stage: Stage, path: String, contents: String },
    /// Hand a command line to the shell, in a working directory if one is
    /// given.
    Shell { stage: Stage, command: String, cwd: Option<String> },
}

impl View for Step {
    type V = StepView;

    open spec fn view(&self) -> StepView {
        match self {
            Step::Announce { message } => StepView::Announce { message: message@ },
            Step::RemoveDir { stage, path } => StepView::RemoveDir { stage: *stage, path: path@ },
            Step::CreateDir { stage, path } => StepView::CreateDir { stage: *stage, path: path@ },
            Step::EnsureDir { stage, path } => StepView::EnsureDir { stage: *stage, path: path@ },
            Step::WriteFile { stage, path, contents } => StepView::WriteFile {
                stage: *stage,
                path: path@,
                contents: contents@,
            },
            Step::Shell { stage, command, cwd } => StepView::Shell {
                stage: *stage,
                command: command@,
                cwd: cwd.deep_view(),
            },
        }
    }
}

impl DeepView for Step {
    type V = StepView;

    open spec fn deep_view(&self) -> StepView {
        self@
    }
}

/// Wipes the workspace and creates it anew, with the staged root filesystem.
pub fn workspace_steps(root: &str) -> (steps: Vec<Step>)
    ensures
        steps.deep_view() == model::workspace_steps(root@),
{
    let steps = vec![
        Step::RemoveDir { stage: Stage::RemoveWorkspace, path: String::from_str(root) },
        Step::CreateDir { stage: Stage::CreateWorkspace, path: String::from_str(root) },
        Step::CreateDir { stage: Stage::CreateRootfs, path: rootfs_dir(root) },
        Step::CreateDir { stage: Stage::CreateEfiDir, path: efi_dir(root) },
    ];
    steps
}

/// Saves one image. The command runs inside the workspace.
pub fn save_step(root: &str, reference: &str) -> (step: Step)
    ensures
        step@ == model::save_step(root@, reference@),
{
    Step::Shell {
        stage: Stage::SaveImage,
        command: save_command(reference),
        cwd: Some(String::from_str(root)),
    }
}

/// Extracts one image.
pub fn extract_step(root: &str, reference: &str) -> (step: Step)
    ensures
        step@ == model::extract_step(root@, reference@),
{
    Step::Shell {
        stage: Stage::ExtractImage,
        command: extract_command(root, reference),
        cwd: None,
    }
}

/// Saves and extracts each image, one after the other, in the order in which
/// they are declared.
pub fn image_steps(root: &str, images: &Vec<String>) -> (steps: Vec<Step>)
    ensures
        steps.deep_view() == model::image_steps(root@, images.deep_view()),
{
    let mut steps: Vec<Step> = Vec::new();
    let mut i: usize = 0;
    while i < images.len()
        invariant
            i <= images.len(),
            steps.len() == 2 * i,
            steps.deep_view() == model::image_steps(root@, images.deep_view().take(i as int)),
        decreases images.len() - i,
    {
        let reference = images[i].as_str();
        steps.push(save_step(root, reference));
        steps.push(extract_step(root, reference));
        proof {
            // The steps of the images seen before are those they were.
            let seen = images.deep_view().take(i as int);
            let grown = images.deep_view().take(i + 1);
            assert forall|k: int| 0 <= k < 2 * i implies model::image_steps(root@, grown)[k]
                == model::image_steps(root@, seen)[k] by {
                assert(grown[k / 2] == seen[k / 2]);
            }
        }
        i += 1;
    }
    steps
}

/// Lays one mapping over the staged root filesystem.
pub fn overlay_step(root: &str, mapping: &Mapping) -> (step: Step)
    ensures
        step@ == model::overlay_step(root@, mapping@),
{
    Step::Shell { stage: Stage::CopyOverlay, command: overlay_command(root, mapping), cwd: None }
}

/// Lays each mapping over the staged root filesystem, in the order in which
/// they are declared.
pub fn overlay_steps(root: &str, mappings: &Vec<Mapping>) -> (steps: Vec<Step>)
    ensures
        steps.deep_view() == model::overlay_steps(root@, mappings.deep_view()),
{
    let mut steps: Vec<Step> = Vec::new();
    let mut i: usize = 0;
    while i < mappings.len()
        invariant
            i <= mappings.len(),
            steps.len() == i,
            steps.deep_view() == model::overlay_steps(root@, mappings.deep_view().take(i as int)),
        decreases mappings.len() - i,
    {
        steps.push(overlay_step(root, &mappings[i]));
        proof {
            // The steps of the mappings seen before are those they were.
            let seen = mappings.deep_view().take(i as int);
            let grown = mappings.deep_view().take(i + 1);
            assert forall|k: int| 0 <= k < i implies model::overlay_steps(root@, grown)[k]
                == model::overlay_steps(root@, seen)[k] by {
                assert(grown[k] == seen[k]);
            }
        }
        i += 1;
    }
    steps
}

/// Writes the boot configuration into the workspace.
pub fn boot_config_step(root: &str, config: &KitConfig) -> (step: Step)
    ensures
        step@ == model::boot_config_step(root@, config@),
{
    Step::WriteFile {
        stage: Stage::WriteBootConfig,
        path: boot_config_path(root),
        contents: boot_config(config),
    }
}

/// Sees to each directory of the skeleton: one that is missing is created,
/// one that is there is left as it is.
pub fn skeleton_steps(root: &str) -> (steps: Vec<Step>)
    ensures
        steps.deep_view() == model::skeleton_steps(root@),
{
    let names = skeleton_names();
    let mut steps: Vec<Step> = Vec::new();
    let mut i: usize = 0;
    while i < names.len()
        invariant
            i <= names.len(),
            steps.len() == i,
            names.deep_view() == model::skeleton_names(),
            steps.deep_view() == model::skeleton_steps(root@).take(i as int),
        decreases names.len() - i,
    {
        steps.push(
            Step::EnsureDir { stage: Stage::CreateSkeletonDir, path: skeleton_dir(root, names[i]) },
        );
        i += 1;
    }
    steps
}

/// Fills the image tree, masters the disk image, installs the bootloader and
/// says where the disk image is.
pub fn assembly_steps(root: &str) -> (steps: Vec<Step>)
    ensures
        steps.deep_view() == model::assembly_steps(root@),
{
    let mut done = String::from_str("A bootable disk image has been placed in: ");
    done.append(root);
    done.append(" as os.iso");
    let steps = vec![
        Step::CreateDir { stage: Stage::CreateIsoDir, path: iso_dir(root) },
        Step::CreateDir { stage: Stage::CreateBootDir, path: boot_dir(root) },
        Step::Shell { stage: Stage::CopyRootfs, command: copy_rootfs_command(root), cwd: None },
        Step::Shell {
            stage: Stage::CopyBootConfig,
            command: copy_boot_config_command(root),
            cwd: None,
        },
        Step::Announce { message: String::from_str("Creating final image") },
        Step::Shell { stage: Stage::MakeIso, command: iso_command(root), cwd: None },
        Step::Announce { message: String::from_str("Installing the limine bootloader") },
        Step::Shell { stage: Stage::InstallBootloader, command: install_command(root), cwd: None },
        Step::Announce { message: done },
    ];
    steps
}

/// All steps of a build, in the order in which they are taken: workspace,
/// images, overlays, boot configuration, skeleton, assembly.
pub fn plan(root: &str, config: &KitConfig) -> (steps: Vec<Step>)
    ensures
        steps.deep_view() == model::plan(root@, config@),
{
    let mut steps = workspace_steps(root);
    steps.push(Step::Announce { message: String::from_str("Copying images") });
    let mut images = image_steps(root, &config.images);
    let mut overlays = overlay_steps(root, &config.mappings);
    let mut skeleton = skeleton_steps(root);
    let mut assembly = assembly_steps(root);
    steps.append(&mut images);
    steps.append(&mut overlays);
    steps.push(boot_config_step(root, config));
    steps.append(&mut skeleton);
    steps.append(&mut assembly);
    steps
}

} // verus!
