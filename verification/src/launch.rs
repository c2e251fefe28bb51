//! What the emulator is started with.

use vstd::prelude::*;
use vstd::string::StringExecFns;
use crate::error::Fatal;
use crate::firmware::{law_no_firmware, locate_firmware, located, named, present};
use crate::text::texts;

verus! {

/// The emulator that is started when none is named. It is looked up on the
/// search path for executables.
pub open spec fn default_emulator() -> Seq<char> {
    "qemu-system-x86_64"@
}

/// The value of the drive option that mounts `staging_dir` as a raw FAT
/// drive, readable and writable.
pub open spec fn drive_option(staging_dir: Seq<char>) -> Seq<char> {
    "format=raw,file=fat:rw:"@ + staging_dir
}

/// The arguments that every run starts with: no default devices, a modern
/// machine that is accelerated where it can be, a standard VGA card, the
/// serial port on the launcher's own input and output, the firmware image,
/// and the staging directory as a drive.
pub open spec fn baseline_arguments(bios_path: Seq<char>, staging_dir: Seq<char>) -> Seq<
    Seq<char>,
> {
    seq![
        "-nodefaults"@,
        "-machine"@,
        "q35,accel=kvm:tcg"@,
        "-vga"@,
        "std"@,
        "-serial"@,
        "stdio"@,
        "-bios"@,
        bios_path,
        "-drive"@,
        drive_option(staging_dir),
    ]
}

/// The whole argument list: the baseline, then what the user passed
/// through, untouched.
pub open spec fn emulator_arguments(
    bios_path: Seq<char>,
    staging_dir: Seq<char>,
    passthrough: Seq<Seq<char>>,
) -> Seq<Seq<char>> {
    baseline_arguments(bios_path, staging_dir) + passthrough
}

/// The value of the drive option that mounts `staging_dir`.
pub fn drive_argument(staging_dir: &str) -> (value: String)
    ensures
        value@ == drive_option(staging_dir@),
{
    String::from_str("format=raw,file=fat:rw:").concat(staging_dir)
}

/// The arguments with which the emulator is started: the baseline for
/// `bios_path` and `staging_dir`, then `user_args` as they are.
pub fn qemu_args(bios_path: &str, staging_dir: &str, user_args: &Vec<String>) -> (args: Vec<String>)
    ensures
        texts(args@) == emulator_arguments(bios_path@, staging_dir@, texts(user_args@)),
{
    let mut args: Vec<String> = Vec::new();
    args.push(String::from_str("-nodefaults"));
    args.push(String::from_str("-machine"));
    args.push(String::from_str("q35,accel=kvm:tcg"));
    args.push(String::from_str("-vga"));
    args.push(String::from_str("std"));
    args.push(String::from_str("-serial"));
    args.push(String::from_str("stdio"));
    args.push(String::from_str("-bios"));
    args.push(String::from_str(bios_path));
    args.push(String::from_str("-drive"));
    args.push(drive_argument(staging_dir));
    assert(texts(args@) =~= baseline_arguments(bios_path@, staging_dir@));
    let mut taken: usize = 0;
    while taken < user_args.len()
        invariant
            taken <= user_args@.len(),
            texts(args@) == baseline_arguments(bios_path@, staging_dir@) + texts(
                user_args@.subrange(0, taken as int),
            ),
        decreases user_args@.len() - taken,
    {
        let ghost before = args@;
        args.push(user_args[taken].clone());
        assert(texts(args@) =~= texts(before).push(user_args@[taken as int]@));
        assert(texts(user_args@.subrange(0, taken + 1)) =~= texts(
            user_args@.subrange(0, taken as int),
        ).push(user_args@[taken as int]@));
        taken += 1;
    }
    assert(user_args@.subrange(0, taken as int) =~= user_args@);
    args
}

/// A launch as the user asked for it, with every default filled in. It is
/// made once and read from then on.
#[derive(Clone, Debug, PartialEq, Eq)]
pub struct LaunchConfig {
    /// The UEFI executable to boot.
    pub efi_exe: String,
    /// The firmware image.
    pub bios_path: String,
    /// The emulator.
    pub qemu_path: String,
    /// What is handed on to the emulator behind the launcher's own
    /// arguments.
    pub qemu_args: Vec<String>,
}

/// A launch as plain text.
pub struct LaunchModel {
    pub efi_exe: Seq<char>,
    pub bios_path: Seq<char>,
    pub qemu_path: Seq<char>,
    pub qemu_args: Seq<Seq<char>>,
}

impl View for LaunchConfig {
    type V = LaunchModel;

    open spec fn view(&self) -> LaunchModel {
        LaunchModel {
            efi_exe: self.efi_exe@,
            bios_path: self.bios_path@,
            qemu_path: self.qemu_path@,
            qemu_args: texts(self.qemu_args@),
        }
    }
}

/// The launch that follows from what the user gave; none where no firmware
/// image is found.
pub open spec fn resolved(
    efi_exe: Seq<char>,
    bios_path: Option<Seq<char>>,
    qemu_path: Option<Seq<char>>,
    qemu_args: Seq<Seq<char>>,
    exists: Seq<bool>,
) -> Option<LaunchModel> {
    match located(bios_path, exists) {
        Some(firmware) => Some(
            LaunchModel {
                efi_exe,
                bios_path: firmware,
                qemu_path: match qemu_path {
                    Some(path) => path,
                    None => default_emulator(),
                },
                qemu_args,
            },
        ),
        None => None,
    }
}

impl LaunchConfig {
    /// Fills in the defaults.
    ///
    /// `exists` tells of each firmware candidate whether a file is there.
    /// The only failure is that no firmware image is named and none is
    /// found; no launch exists then, and so no emulator is started.
    pub fn resolve(
        efi_exe: String,
        bios_path: Option<String>,
        qemu_path: Option<String>,
        qemu_args: Vec<String>,
        exists: &Vec<bool>,
    ) -> (launch: Result<LaunchConfig, Fatal>)
        ensures
            match launch {
                Ok(config) => resolved(
                    efi_exe@,
                    named(bios_path),
                    named(qemu_path),
                    texts(qemu_args@),
                    exists@,
                ) == Some(config@),
                Err(fatal) => fatal == Fatal::FirmwareNotFound && resolved(
                    efi_exe@,
                    named(bios_path),
                    named(qemu_path),
                    texts(qemu_args@),
                    exists@,
                ) is None,
            },
    {
        match locate_firmware(bios_path, exists) {
            Ok(firmware) => {
                let emulator = match qemu_path {
                    Some(path) => path,
                    None => String::from_str("qemu-system-x86_64"),
                };
                Ok(LaunchConfig { efi_exe, bios_path: firmware, qemu_path: emulator, qemu_args })
            },
            Err(fatal) => Err(fatal),
        }
    }

    /// The arguments with which the emulator is started when the executable
    /// is staged below `staging_dir`.
    pub fn command_line(&self, staging_dir: &str) -> (args: Vec<String>)
        ensures
            texts(args@) == emulator_arguments(self@.bios_path, staging_dir@, self@.qemu_args),
    {
        qemu_args(self.bios_path.as_str(), staging_dir, &self.qemu_args)
    }
}

/// What the user passes through stands behind every argument of the
/// baseline, in the order in which it was given, and nothing else does.
pub proof fn law_passthrough_follows_baseline(
    bios_path: Seq<char>,
    staging_dir: Seq<char>,
    passthrough: Seq<Seq<char>>,
)
    ensures
        ({
            let baseline = baseline_arguments(bios_path, staging_dir);
            let args = emulator_arguments(bios_path, staging_dir, passthrough);
            &&& baseline.len() == 11
            &&& args.len() == baseline.len() + passthrough.len()
            &&& args.subrange(0, baseline.len() as int) == baseline
            &&& args.subrange(baseline.len() as int, args.len() as int) == passthrough
            &&& forall|i: int|
                0 <= i < passthrough.len() ==> #[trigger] args[baseline.len() + i]
                    == passthrough[i]
            &&& forall|i: int| 0 <= i < baseline.len() ==> #[trigger] args[i] == baseline[i]
        }),
{
    let baseline = baseline_arguments(bios_path, staging_dir);
    let args = emulator_arguments(bios_path, staging_dir, passthrough);
    assert(args.subrange(0, baseline.len() as int) =~= baseline);
    assert(args.subrange(baseline.len() as int, args.len() as int) =~= passthrough);
}

/// With nothing passed through the emulator gets the baseline and nothing
/// more.
pub proof fn law_baseline_alone(bios_path: Seq<char>, staging_dir: Seq<char>)
    ensures
        emulator_arguments(bios_path, staging_dir, Seq::empty()) == baseline_arguments(
            bios_path,
            staging_dir,
        ),
{
    assert(emulator_arguments(bios_path, staging_dir, Seq::empty()) =~= baseline_arguments(
        bios_path,
        staging_dir,
    ));
}

/// No firmware, no launch: where no image is named and no candidate is
/// there, nothing is resolved, whatever else the user gave.
pub proof fn law_no_firmware_no_launch(
    efi_exe: Seq<char>,
    qemu_path: Option<Seq<char>>,
    qemu_args: Seq<Seq<char>>,
    exists: Seq<bool>,
)
    requires
        forall|i: int| !present(exists, i),
    ensures
        resolved(efi_exe, None, qemu_path, qemu_args, exists) is None,
{
    law_no_firmware(exists);
}

} // verus!
