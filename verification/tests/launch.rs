use uefi_run::error::Fatal;
use uefi_run::esp::{boot_directory, boot_loader_name};
use uefi_run::launch::{drive_argument, qemu_args, LaunchConfig};
use uefi_run::supervisor::{Action, Event, ExitStatus, State, WaitOutcome};

fn strings(items: &[&str]) -> Vec<String> {
    items.iter().map(|item| item.to_string()).collect()
}

#[test]
fn drive_argument_names_the_staging_directory() {
    assert_eq!(drive_argument("/tmp/.tmpAbC123"), "format=raw,file=fat:rw:/tmp/.tmpAbC123");
    assert_eq!(drive_argument(""), "format=raw,file=fat:rw:");
}

#[test]
fn baseline_arguments_alone() {
    let args = qemu_args("/usr/share/OVMF/OVMF.fd", "/tmp/esp", &vec![]);
    assert_eq!(
        args,
        strings(&[
            "-nodefaults",
            "-machine",
            "q35,accel=kvm:tcg",
            "-vga",
            "std",
            "-serial",
            "stdio",
            "-bios",
            "/usr/share/OVMF/OVMF.fd",
            "-drive",
            "format=raw,file=fat:rw:/tmp/esp",
        ])
    );
}

#[test]
fn passthrough_arguments_follow_the_baseline_in_order() {
    let user = strings(&["-m", "512M", "-smp", "2", "-m", "--", "a b", ""]);
    let args = qemu_args("OVMF.fd", "/tmp/esp", &user);
    let baseline = qemu_args("OVMF.fd", "/tmp/esp", &vec![]);
    assert_eq!(baseline.len(), 11);
    assert_eq!(args.len(), baseline.len() + user.len());
    assert_eq!(&args[..baseline.len()], &baseline[..]);
    assert_eq!(&args[baseline.len()..], &user[..]);
}

#[test]
fn passthrough_arguments_are_not_interpreted() {
    let user = strings(&["-bios", "other.fd", "-nodefaults", "format=raw,file=fat:rw:/x"]);
    let args = qemu_args("OVMF.fd", "/tmp/esp", &user);
    assert_eq!(args[8], "OVMF.fd");
    assert_eq!(args[10], "format=raw,file=fat:rw:/tmp/esp");
    assert_eq!(&args[11..], &user[..]);
}

#[test]
fn resolve_fills_in_the_defaults() {
    let config = LaunchConfig::resolve(
        "app.efi".to_string(),
        None,
        None,
        vec![],
        &vec![false, true, false],
    )
    .unwrap();
    assert_eq!(
        config,
        LaunchConfig {
            efi_exe: "app.efi".to_string(),
            bios_path: "/usr/share/ovmf/x64/OVMF_CODE.fd".to_string(),
            qemu_path: "qemu-system-x86_64".to_string(),
            qemu_args: vec![],
        }
    );
}

#[test]
fn resolve_keeps_what_was_named() {
    let config = LaunchConfig::resolve(
        "target/app.efi".to_string(),
        Some("fw.fd".to_string()),
        Some("/opt/qemu/bin/qemu".to_string()),
        strings(&["-m", "1G"]),
        &vec![true, true, true],
    )
    .unwrap();
    assert_eq!(
        config,
        LaunchConfig {
            efi_exe: "target/app.efi".to_string(),
            bios_path: "fw.fd".to_string(),
            qemu_path: "/opt/qemu/bin/qemu".to_string(),
            qemu_args: strings(&["-m", "1G"]),
        }
    );
    assert_eq!(
        config.command_line("/tmp/x"),
        qemu_args("fw.fd", "/tmp/x", &strings(&["-m", "1G"]))
    );
}

#[test]
fn missing_firmware_resolves_to_no_launch() {
    let launch = LaunchConfig::resolve(
        "app.efi".to_string(),
        None,
        Some("qemu".to_string()),
        strings(&["-m", "1G"]),
        &vec![false, false, false],
    );
    assert_eq!(launch, Err(Fatal::FirmwareNotFound));
    assert_eq!(Fatal::FirmwareNotFound.exit_code(), 1);
    assert_eq!(Fatal::FirmwareNotFound.diagnostic(), "Unable to find OVMF.fd");
}

#[test]
fn plain_launch_with_default_firmware() {
    let config = LaunchConfig::resolve(
        "hello.efi".to_string(),
        None,
        None,
        vec![],
        &vec![true, false, false],
    )
    .unwrap();
    assert_eq!(config.qemu_path, "qemu-system-x86_64");
    assert_eq!(
        config.command_line("/tmp/.tmp4Zq9"),
        strings(&[
            "-nodefaults",
            "-machine",
            "q35,accel=kvm:tcg",
            "-vga",
            "std",
            "-serial",
            "stdio",
            "-bios",
            "/usr/share/OVMF/OVMF.fd",
            "-drive",
            "format=raw,file=fat:rw:/tmp/.tmp4Zq9",
        ])
    );
    let status = ExitStatus { success: true, code: Some(0) };
    let state = State::initial();
    assert_eq!(state.action(), Action::Wait { millis: 500 });
    let state = state
        .step(Event::Waited { outcome: WaitOutcome::Exited(status), terminating: false })
        .unwrap();
    assert_eq!(state, State::ExitedNormally(status));
    assert_eq!(state.action(), Action::Finish(status));
    assert_eq!(state.action().exit_code(), Some(0));
    assert_eq!(status.message(), None);
}

#[test]
fn boot_loader_lies_where_firmware_looks() {
    assert_eq!(boot_directory(), strings(&["EFI", "BOOT"]));
    assert_eq!(boot_loader_name(), "BOOTX64.EFI");
}
