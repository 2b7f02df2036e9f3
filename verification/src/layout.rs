//! Where a build keeps what in its workspace.

use crate::image::archive_name;
use crate::model;
use crate::text::join;
use vstd::prelude::*;

verus! {

/// The staged root filesystem.
pub fn rootfs_dir(root: &str) -> (path: String)
    ensures
        path@ == model::rootfs_dir(root@),
{
    join(root, "rootfs")
}

/// Where the staged root filesystem keeps its EFI boot files.
pub fn efi_dir(root: &str) -> (path: String)
    ensures
        path@ == model::efi_dir(root@),
{
    let rootfs = rootfs_dir(root);
    join(rootfs.as_str(), "EFI/BOOT")
}

/// An image's archive.
pub fn archive_path(root: &str, reference: &str) -> (path: String)
    ensures
        path@ == model::archive_path(root@, reference@),
{
    let name = archive_name(reference);
    join(root, name.as_str())
}

/// The boot configuration.
pub fn boot_config_path(root: &str) -> (path: String)
    ensures
        path@ == model::boot_config_path(root@),
{
    join(root, "limine.cfg")
}

/// The tree the disk image is made from.
pub fn iso_dir(root: &str) -> (path: String)
    ensures
        path@ == model::iso_dir(root@),
{
    join(root, "iso")
}

/// The boot directory of that tree.
pub fn boot_dir(root: &str) -> (path: String)
    ensures
        path@ == model::boot_dir(root@),
{
    let iso = iso_dir(root);
    join(iso.as_str(), "boot")
}

/// The disk image.
pub fn iso_path(root: &str) -> (path: String)
    ensures
        path@ == model::iso_path(root@),
{
    join(root, "os.iso")
}

/// The directories every staged root filesystem has.
pub fn skeleton_names() -> (names: Vec<&'static str>)
    ensures
        names.deep_view() == model::skeleton_names(),
{
    let names = vec!["etc", "sys", "proc", "run", "tmp", "dev", "oldroot"];
    names
}

/// One of those directories, below the staged root filesystem.
pub fn skeleton_dir(root: &str, name: &str) -> (path: String)
    ensures
        path@ == model::skeleton_dir(root@, name@),
{
    let rootfs = rootfs_dir(root);
    join(rootfs.as_str(), name)
}

} // verus!
