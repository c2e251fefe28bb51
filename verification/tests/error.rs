use uefi_run::error::{Category, Fatal, EXIT_NO_FIRMWARE, EXIT_PANIC};

const ALL: [Fatal; 9] = [
    Fatal::FirmwareNotFound,
    Fatal::HandlerNotInstalled,
    Fatal::TempDirNotCreated,
    Fatal::BootDirNotCreated,
    Fatal::ExecutableNotCopied,
    Fatal::EmulatorNotStarted,
    Fatal::WaitFailed,
    Fatal::KillFailed,
    Fatal::SurvivedKill,
];

#[test]
fn categories() {
    assert_eq!(Fatal::FirmwareNotFound.category(), Category::Environment);
    assert_eq!(Fatal::HandlerNotInstalled.category(), Category::Environment);
    assert_eq!(Fatal::TempDirNotCreated.category(), Category::Filesystem);
    assert_eq!(Fatal::BootDirNotCreated.category(), Category::Filesystem);
    assert_eq!(Fatal::ExecutableNotCopied.category(), Category::Filesystem);
    assert_eq!(Fatal::EmulatorNotStarted.category(), Category::Spawn);
    assert_eq!(Fatal::WaitFailed.category(), Category::Supervision);
    assert_eq!(Fatal::KillFailed.category(), Category::Supervision);
    assert_eq!(Fatal::SurvivedKill.category(), Category::Supervision);
}

#[test]
fn diagnostics() {
    assert_eq!(Fatal::FirmwareNotFound.diagnostic(), "Unable to find OVMF.fd");
    assert_eq!(Fatal::HandlerNotInstalled.diagnostic(), "Error setting termination handler");
    assert_eq!(Fatal::TempDirNotCreated.diagnostic(), "Unable to create temporary directory");
    assert_eq!(Fatal::BootDirNotCreated.diagnostic(), "Unable to create /EFI/BOOT directory");
    assert_eq!(Fatal::ExecutableNotCopied.diagnostic(), "Unable to copy EFI executable");
    assert_eq!(Fatal::EmulatorNotStarted.diagnostic(), "Failed to start qemu");
    assert_eq!(Fatal::WaitFailed.diagnostic(), "Failed to wait on child process");
    assert_eq!(Fatal::KillFailed.diagnostic(), "Not able to kill child process");
    assert_eq!(Fatal::SurvivedKill.diagnostic(), "qemu did not exit after it was killed");
}

#[test]
fn fatal_exit_codes_are_never_zero() {
    assert_eq!(EXIT_NO_FIRMWARE, 1);
    assert_eq!(EXIT_PANIC, 101);
    for fatal in ALL {
        let expected = if fatal == Fatal::FirmwareNotFound { 1 } else { 101 };
        assert_eq!(fatal.exit_code(), expected);
        assert_ne!(fatal.exit_code(), 0);
    }
}
