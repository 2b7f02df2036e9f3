use kit::config::{KitConfig, Mapping};
use kit::error::Stage;
use kit::plan::{
    assembly_steps, boot_config_step, extract_step, image_steps, overlay_step, overlay_steps,
    plan, save_step, skeleton_steps, workspace_steps, Step,
};

fn busybox() -> KitConfig {
    KitConfig {
        images: vec!["busybox:latest".to_string()],
        mappings: vec![],
        cmdline: "console=ttyS0".to_string(),
        kernel: "/boot/vmlinuz".to_string(),
        boot_protocol: "linux".to_string(),
    }
}

fn two_images_two_mappings() -> KitConfig {
    KitConfig {
        images: vec!["reg/base:1".to_string(), "reg/app:2".to_string()],
        mappings: vec![
            Mapping { source: "./etc/hostname".to_string(), target: "/etc/hostname".to_string() },
            Mapping { source: "./home".to_string(), target: "/home".to_string() },
        ],
        cmdline: "quiet".to_string(),
        kernel: "boot:///vmlinuz".to_string(),
        boot_protocol: "linux".to_string(),
    }
}

fn shell(stage: Stage, command: &str) -> Step {
    Step::Shell { stage, command: command.to_string(), cwd: None }
}

fn position(steps: &[Step], wanted: &Step) -> usize {
    steps.iter().position(|step| step == wanted).unwrap()
}

#[test]
fn workspace_steps_wipe_then_create() {
    assert_eq!(
        workspace_steps("./build"),
        vec![
            Step::RemoveDir { stage: Stage::RemoveWorkspace, path: "./build".to_string() },
            Step::CreateDir { stage: Stage::CreateWorkspace, path: "./build".to_string() },
            Step::CreateDir { stage: Stage::CreateRootfs, path: "./build/rootfs".to_string() },
            Step::CreateDir {
                stage: Stage::CreateEfiDir,
                path: "./build/rootfs/EFI/BOOT".to_string()
            },
        ]
    );
}

#[test]
fn save_step_runs_in_the_workspace() {
    assert_eq!(
        save_step("./build", "busybox:latest"),
        Step::Shell {
            stage: Stage::SaveImage,
            command:
                "podman image save --format=docker-archive -o busybox_latest.tar busybox:latest"
                    .to_string(),
            cwd: Some("./build".to_string()),
        }
    );
}

#[test]
fn extract_step_runs_where_the_driver_runs() {
    assert_eq!(
        extract_step("./build", "busybox:latest"),
        shell(
            Stage::ExtractImage,
            "undocker ./build/busybox_latest.tar - | tar -xvf - -C ./build/rootfs"
        )
    );
}

#[test]
fn image_steps_of_no_image() {
    assert_eq!(image_steps("./build", &vec![]), vec![]);
}

#[test]
fn image_steps_save_then_extract_each() {
    let images = vec!["a:1".to_string(), "b/c".to_string(), "d".to_string()];
    let steps = image_steps("w", &images);
    assert_eq!(steps.len(), 6);
    for (i, image) in images.iter().enumerate() {
        assert_eq!(steps[2 * i], save_step("w", image));
        assert_eq!(steps[2 * i + 1], extract_step("w", image));
    }
}

#[test]
fn overlay_step_is_a_copy() {
    let mapping = Mapping { source: "./home".to_string(), target: "/home".to_string() };
    assert_eq!(
        overlay_step("./build", &mapping),
        shell(Stage::CopyOverlay, "cp -r ./home ./build/rootfs/home")
    );
}

#[test]
fn overlay_steps_keep_declared_order() {
    let mappings = two_images_two_mappings().mappings;
    assert_eq!(
        overlay_steps("./build", &mappings),
        vec![
            shell(Stage::CopyOverlay, "cp -r ./etc/hostname ./build/rootfs/etc/hostname"),
            shell(Stage::CopyOverlay, "cp -r ./home ./build/rootfs/home"),
        ]
    );
    assert_eq!(overlay_steps("./build", &vec![]), vec![]);
}

#[test]
fn boot_config_step_writes_into_the_workspace() {
    assert_eq!(
        boot_config_step("./build", &busybox()),
        Step::WriteFile {
            stage: Stage::WriteBootConfig,
            path: "./build/limine.cfg".to_string(),
            contents: "\nTIMEOUT=3\nDEFAULT_ENTRY=1\nGRAPHICS=yes\nVERBOSE=yes\n:Linux\n\nPROTOCOL=linux\nKERNEL_PATH=/boot/vmlinuz\nKERNEL_CMDLINE=console=ttyS0\n            ".to_string(),
        }
    );
}

#[test]
fn skeleton_steps_ensure_each_directory() {
    let names = ["etc", "sys", "proc", "run", "tmp", "dev", "oldroot"];
    let steps = skeleton_steps("./build");
    assert_eq!(steps.len(), 7);
    for (step, name) in steps.iter().zip(names) {
        assert_eq!(
            step,
            &Step::EnsureDir {
                stage: Stage::CreateSkeletonDir,
                path: format!("./build/rootfs/{}", name)
            }
        );
    }
}

#[test]
fn assembly_steps_in_order() {
    assert_eq!(
        assembly_steps("./build"),
        vec![
            Step::CreateDir { stage: Stage::CreateIsoDir, path: "./build/iso".to_string() },
            Step::CreateDir { stage: Stage::CreateBootDir, path: "./build/iso/boot".to_string() },
            shell(Stage::CopyRootfs, "cp -r ./build/rootfs/* ./build/iso"),
            shell(Stage::CopyBootConfig, "cp ./build/limine.cfg ./build/iso/boot"),
            Step::Announce { message: "Creating final image".to_string() },
            shell(
                Stage::MakeIso,
                "xorriso -as mkisofs -b boot/limine-cd.bin -no-emul-boot -boot-load-size 4 -boot-info-table --efi-boot boot/limine-eltorito-efi.bin -efi-boot-part --efi-boot-image --protective-msdos-label -o ./build/os.iso ./build/iso"
            ),
            Step::Announce { message: "Installing the limine bootloader".to_string() },
            shell(Stage::InstallBootloader, "limine-install ./build/os.iso"),
            Step::Announce {
                message: "A bootable disk image has been placed in: ./build as os.iso".to_string()
            },
        ]
    );
}

#[test]
fn plan_of_one_image_and_no_mapping() {
    let config = busybox();
    let steps = plan("./build", &config);
    let mut wanted = workspace_steps("./build");
    wanted.push(Step::Announce { message: "Copying images".to_string() });
    wanted.push(save_step("./build", "busybox:latest"));
    wanted.push(extract_step("./build", "busybox:latest"));
    wanted.push(boot_config_step("./build", &config));
    wanted.extend(skeleton_steps("./build"));
    wanted.extend(assembly_steps("./build"));
    assert_eq!(steps, wanted);
    assert_eq!(steps.len(), 24);
}

#[test]
fn plan_end_to_end_scenario() {
    let steps = plan("./build", &busybox());
    let written: Vec<&Step> =
        steps.iter().filter(|step| matches!(step, Step::WriteFile { .. })).collect();
    assert_eq!(written.len(), 1);
    match written[0] {
        Step::WriteFile { path, contents, .. } => {
            assert_eq!(path, "./build/limine.cfg");
            assert!(contents.contains("console=ttyS0"));
        }
        _ => unreachable!(),
    }
    let mastered = steps.iter().any(|step| match step {
        Step::Shell { stage: Stage::MakeIso, command, .. } => {
            command.contains(" -o ./build/os.iso ")
        }
        _ => false,
    });
    assert!(mastered);
}

#[test]
fn plan_length_counts_images_and_mappings() {
    assert_eq!(plan("./build", &two_images_two_mappings()).len(), 22 + 2 * 2 + 2);
    let mut empty = busybox();
    empty.images.clear();
    assert_eq!(plan("./build", &empty).len(), 22);
}

#[test]
fn plan_begins_with_the_wipe() {
    let steps = plan("./build", &two_images_two_mappings());
    assert_eq!(
        steps[0],
        Step::RemoveDir { stage: Stage::RemoveWorkspace, path: "./build".to_string() }
    );
    assert_eq!(
        steps[1],
        Step::CreateDir { stage: Stage::CreateWorkspace, path: "./build".to_string() }
    );
}

#[test]
fn plan_extracts_images_in_declared_order() {
    let steps = plan("./build", &two_images_two_mappings());
    let first = position(&steps, &extract_step("./build", "reg/base:1"));
    let second = position(&steps, &extract_step("./build", "reg/app:2"));
    assert_eq!(first, 6);
    assert_eq!(second, 8);
    assert_eq!(position(&steps, &save_step("./build", "reg/base:1")), 5);
    assert_eq!(position(&steps, &save_step("./build", "reg/app:2")), 7);
}

#[test]
fn plan_same_file_from_two_images_last_declared_is_extracted_last() {
    let mut config = busybox();
    config.images = vec!["first:x".to_string(), "second:x".to_string()];
    let steps = plan("./build", &config);
    let extractions: Vec<&Step> = steps
        .iter()
        .filter(|step| matches!(step, Step::Shell { stage: Stage::ExtractImage, .. }))
        .collect();
    assert_eq!(extractions.len(), 2);
    assert_eq!(extractions[1], &extract_step("./build", "second:x"));
}

#[test]
fn plan_lays_overlays_after_all_images() {
    let config = two_images_two_mappings();
    let steps = plan("./build", &config);
    let last_extract = position(&steps, &extract_step("./build", "reg/app:2"));
    let hostname = position(&steps, &overlay_step("./build", &config.mappings[0]));
    let home = position(&steps, &overlay_step("./build", &config.mappings[1]));
    assert_eq!(hostname, 9);
    assert_eq!(home, 10);
    assert!(last_extract < hostname);
    for (at, step) in steps.iter().enumerate() {
        if matches!(step, Step::Shell { stage: Stage::ExtractImage, .. }) {
            assert!(at < hostname);
        }
    }
}

#[test]
fn plan_fills_the_skeleton_before_assembly() {
    let steps = plan("./build", &busybox());
    let boot_config = position(&steps, &boot_config_step("./build", &busybox()));
    let last_skeleton = steps
        .iter()
        .rposition(|step| matches!(step, Step::EnsureDir { .. }))
        .unwrap();
    let iso_dir = position(
        &steps,
        &Step::CreateDir { stage: Stage::CreateIsoDir, path: "./build/iso".to_string() },
    );
    assert!(boot_config < last_skeleton);
    assert_eq!(last_skeleton + 1, iso_dir);
}

#[test]
fn plan_depends_on_the_configuration_alone() {
    assert_eq!(plan("./build", &busybox()), plan("./build", &busybox()));
    assert_eq!(
        plan("./build", &two_images_two_mappings()),
        plan("./build", &two_images_two_mappings())
    );
}

#[test]
fn plan_in_another_workspace() {
    let steps = plan("/tmp/out/", &busybox());
    assert_eq!(
        steps[0],
        Step::RemoveDir { stage: Stage::RemoveWorkspace, path: "/tmp/out/".to_string() }
    );
    assert_eq!(steps[5], save_step("/tmp/out/", "busybox:latest"));
    assert_eq!(
        steps[6],
        shell(
            Stage::ExtractImage,
            "undocker /tmp/out/busybox_latest.tar - | tar -xvf - -C /tmp/out/rootfs"
        )
    );
    assert_eq!(
        steps[23],
        Step::Announce {
            message: "A bootable disk image has been placed in: /tmp/out/ as os.iso".to_string()
        }
    );
}

#[test]
fn plan_touches_only_paths_in_the_workspace() {
    for root in ["./build", "/tmp/out/", "w"] {
        for step in plan(root, &two_images_two_mappings()) {
            match step {
                Step::RemoveDir { path, .. }
                | Step::CreateDir { path, .. }
                | Step::EnsureDir { path, .. }
                | Step::WriteFile { path, .. } => assert!(path.starts_with(root)),
                Step::Announce { .. } | Step::Shell { .. } => {}
            }
        }
    }
}
