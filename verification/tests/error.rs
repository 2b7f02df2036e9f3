use kit::error::{BuildError, Stage};

const STAGES: [Stage; 15] = [
    Stage::RemoveWorkspace,
    Stage::CreateWorkspace,
    Stage::CreateRootfs,
    Stage::CreateEfiDir,
    Stage::SaveImage,
    Stage::ExtractImage,
    Stage::CopyOverlay,
    Stage::WriteBootConfig,
    Stage::CreateSkeletonDir,
    Stage::CreateIsoDir,
    Stage::CreateBootDir,
    Stage::CopyRootfs,
    Stage::CopyBootConfig,
    Stage::MakeIso,
    Stage::InstallBootloader,
];

#[test]
fn stage_names() {
    assert_eq!(Stage::SaveImage.name(), "save image");
    assert_eq!(Stage::ExtractImage.name(), "extract image");
    assert_eq!(Stage::CopyOverlay.name(), "copy overlay");
    assert_eq!(Stage::RemoveWorkspace.name(), "remove workspace");
    assert_eq!(Stage::CreateWorkspace.name(), "create workspace");
    assert_eq!(Stage::CreateRootfs.name(), "create rootfs");
    assert_eq!(Stage::CreateEfiDir.name(), "create EFI directory");
    assert_eq!(Stage::WriteBootConfig.name(), "write boot configuration");
    assert_eq!(Stage::CreateSkeletonDir.name(), "create skeleton directory");
    assert_eq!(Stage::CreateIsoDir.name(), "create ISO directory");
    assert_eq!(Stage::CreateBootDir.name(), "create boot directory");
    assert_eq!(Stage::CopyRootfs.name(), "copy rootfs");
    assert_eq!(Stage::CopyBootConfig.name(), "copy boot configuration");
    assert_eq!(Stage::MakeIso.name(), "create ISO");
    assert_eq!(Stage::InstallBootloader.name(), "install bootloader");
}

#[test]
fn stage_names_are_distinct() {
    for (i, a) in STAGES.iter().enumerate() {
        for b in STAGES.iter().skip(i + 1) {
            assert_ne!(a.name(), b.name());
        }
    }
}

#[test]
fn filesystem_stages() {
    let filesystem = [
        Stage::RemoveWorkspace,
        Stage::CreateWorkspace,
        Stage::CreateRootfs,
        Stage::CreateEfiDir,
        Stage::WriteBootConfig,
        Stage::CreateSkeletonDir,
    ];
    for stage in STAGES {
        assert_eq!(stage.fails_as_filesystem(), filesystem.contains(&stage));
    }
}

#[test]
fn error_of_filesystem_stage() {
    let error = BuildError::of_stage(Stage::CreateRootfs, "permission denied".to_string());
    assert_eq!(
        error,
        BuildError::Filesystem {
            stage: Stage::CreateRootfs,
            detail: "permission denied".to_string()
        }
    );
}

#[test]
fn error_of_build_step_stage() {
    let error = BuildError::of_stage(Stage::SaveImage, "no such image".to_string());
    assert_eq!(
        error,
        BuildError::BuildStep { stage: Stage::SaveImage, stderr: "no such image".to_string() }
    );
    let error = BuildError::of_stage(Stage::CreateIsoDir, "read-only".to_string());
    assert_eq!(
        error,
        BuildError::BuildStep { stage: Stage::CreateIsoDir, stderr: "read-only".to_string() }
    );
}

#[test]
fn message_of_configuration_error() {
    let error = BuildError::Configuration { detail: "missing field `kernel`".to_string() };
    assert_eq!(error.message(), "configuration error: load configuration");
    assert_eq!(error.kind_name(), "configuration error");
    assert_eq!(error.step_name(), "load configuration");
    assert_eq!(error.detail(), "missing field `kernel`");
}

#[test]
fn message_of_filesystem_error() {
    let error =
        BuildError::Filesystem { stage: Stage::RemoveWorkspace, detail: "busy".to_string() };
    assert_eq!(error.message(), "filesystem error: remove workspace");
    assert_eq!(error.detail(), "busy");
}

#[test]
fn message_of_build_step_error() {
    let error =
        BuildError::BuildStep { stage: Stage::SaveImage, stderr: "Error: x\nmore".to_string() };
    assert_eq!(error.message(), "build step error: save image");
    assert_eq!(error.detail(), "Error: x\nmore");
    assert!(!error.message().contains('\n'));
}

#[test]
fn message_is_one_line_for_every_stage() {
    for stage in STAGES {
        let line = BuildError::of_stage(stage, "a\nb".to_string()).message();
        assert!(!line.contains('\n'));
        assert!(line.ends_with(stage.name()));
    }
}
