use kit::command::{
    copy_boot_config_command, copy_rootfs_command, extract_command, install_command, iso_command,
    overlay_command, save_command,
};
use kit::config::Mapping;

#[test]
fn save_command_names_archive_and_image() {
    assert_eq!(
        save_command("busybox:latest"),
        "podman image save --format=docker-archive -o busybox_latest.tar busybox:latest"
    );
    assert_eq!(
        save_command("docker.io/library/alpine:3.19"),
        "podman image save --format=docker-archive -o docker.io_library_alpine_3.19.tar docker.io/library/alpine:3.19"
    );
}

#[test]
fn extract_command_pipes_into_rootfs() {
    assert_eq!(
        extract_command("./build", "busybox:latest"),
        "undocker ./build/busybox_latest.tar - | tar -xvf - -C ./build/rootfs"
    );
}

#[test]
fn overlay_command_appends_target_to_rootfs() {
    let mapping = Mapping { source: "./etc".to_string(), target: "/etc".to_string() };
    assert_eq!(overlay_command("./build", &mapping), "cp -r ./etc ./build/rootfs/etc");
    let root = Mapping { source: "overlay/.".to_string(), target: "/".to_string() };
    assert_eq!(overlay_command("./build", &root), "cp -r overlay/. ./build/rootfs/");
    let bare = Mapping { source: "a".to_string(), target: "".to_string() };
    assert_eq!(overlay_command("./build", &bare), "cp -r a ./build/rootfs");
}

#[test]
fn copy_rootfs_command_copies_contents() {
    assert_eq!(copy_rootfs_command("./build"), "cp -r ./build/rootfs/* ./build/iso");
}

#[test]
fn copy_boot_config_command_targets_boot_dir() {
    assert_eq!(copy_boot_config_command("./build"), "cp ./build/limine.cfg ./build/iso/boot");
}

#[test]
fn iso_command_is_exact() {
    assert_eq!(
        iso_command("./build"),
        "xorriso -as mkisofs -b boot/limine-cd.bin -no-emul-boot -boot-load-size 4 -boot-info-table --efi-boot boot/limine-eltorito-efi.bin -efi-boot-part --efi-boot-image --protective-msdos-label -o ./build/os.iso ./build/iso"
    );
}

#[test]
fn install_command_names_the_iso() {
    assert_eq!(install_command("./build"), "limine-install ./build/os.iso");
    assert_eq!(install_command("out/"), "limine-install out/os.iso");
}

#[test]
fn commands_take_references_as_written() {
    assert_eq!(
        save_command("a b;c"),
        "podman image save --format=docker-archive -o a b;c.tar a b;c"
    );
}
