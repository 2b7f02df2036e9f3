//! The command lines a build hands to the shell.

use crate::config::Mapping;
use crate::image::archive_name;
use crate::layout::{archive_path, boot_config_path, boot_dir, iso_dir, iso_path, rootfs_dir};
use crate::model;
use vstd::prelude::*;

verus! {

/// Saves an image as a layered archive, named after the image and written
/// to the directory the command runs in.
pub fn save_command(reference: &str) -> (command: String)
    ensures
        command@ == model::save_command(reference@),
{
    let mut command = String::from_str("podman image save --format=docker-archive -o ");
    command.append(archive_name(reference).as_str());
    command.append(" ");
    command.append(reference);
    command
}

/// Flattens an image's archive into the staged root filesystem. The layers
/// go through a pipe; no flattened archive is left behind.
pub fn extract_command(root: &str, reference: &str) -> (command: String)
    ensures
        command@ == model::extract_command(root@, reference@),
{
    let mut command = String::from_str("undocker ");
    command.append(archive_path(root, reference).as_str());
    command.append(" - | tar -xvf - -C ");
    command.append(rootfs_dir(root).as_str());
    command
}

/// Copies a mapping's source onto its target below the staged root
/// filesystem.
pub fn overlay_command(root: &str, mapping: &Mapping) -> (command: String)
    ensures
        command@ == model::overlay_command(root@, mapping@),
{
    let mut command = String::from_str("cp -r ");
    command.append(mapping.source.as_str());
    command.append(" ");
    command.append(rootfs_dir(root).as_str());
    command.append(mapping.target.as_str());
    command
}

/// Copies what the staged root filesystem holds into the image tree.
pub fn copy_rootfs_command(root: &str) -> (command: String)
    ensures
        command@ == model::copy_rootfs_command(root@),
{
    let mut command = String::from_str("cp -r ");
    command.append(rootfs_dir(root).as_str());
    command.append("/* ");
    command.append(iso_dir(root).as_str());
    command
}

/// Copies the boot configuration into the image tree's boot directory.
pub fn copy_boot_config_command(root: &str) -> (command: String)
    ensures
        command@ == model::copy_boot_config_command(root@),
{
    let mut command = String::from_str("cp ");
    command.append(boot_config_path(root).as_str());
    command.append(" ");
    command.append(boot_dir(root).as_str());
    command
}

/// Masters the disk image from the image tree.
pub fn iso_command(root: &str) -> (command: String)
    ensures
        command@ == model::iso_command(root@),
{
    let mut command = String::from_str(
        "xorriso -as mkisofs -b boot/limine-cd.bin -no-emul-boot -boot-load-size 4 -boot-info-table --efi-boot boot/limine-eltorito-efi.bin -efi-boot-part --efi-boot-image --protective-msdos-label -o ",
    );
    command.append(iso_path(root).as_str());
    command.append(" ");
    command.append(iso_dir(root).as_str());
    command
}

/// Makes the disk image bootable by a legacy BIOS.
pub fn install_command(root: &str) -> (command: String)
    ensures
        command@ == model::install_command(root@),
{
    let mut command = String::from_str("limine-install ");
    command.append(iso_path(root).as_str());
    command
}

} // verus!
