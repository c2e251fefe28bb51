//! The conditions on which a run is given up.

use vstd::prelude::*;

verus! {

/// The four families of fatal conditions.
#[derive(Clone, Copy, Debug, PartialEq, Eq, Structural)]
pub enum Category {
    /// The machine lacks something the launcher needs.
    Environment,
    /// The boot partition could not be laid out.
    Filesystem,
    /// The emulator could not be started.
    Spawn,
    /// The running emulator could not be waited for or killed.
    Supervision,
}

/// A condition that ends the run. None of them is retried.
#[derive(Clone, Copy, Debug, PartialEq, Eq, Structural)]
pub enum Fatal {
    /// No firmware image was named and none lies at a default location.
    FirmwareNotFound,
    /// The handler for termination requests could not be installed.
    HandlerNotInstalled,
    /// The temporary directory could not be created.
    TempDirNotCreated,
    /// The boot-loader directory could not be created below it.
    BootDirNotCreated,
    /// The executable could not be copied to its boot-loader name.
    ExecutableNotCopied,
    /// The emulator could not be started.
    EmulatorNotStarted,
    /// Waiting for the emulator failed.
    WaitFailed,
    /// The emulator could not be killed, for another reason than that it
    /// was gone already.
    KillFailed,
    /// The emulator was killed and had still not exited a second later.
    SurvivedKill,
}

/// The status with which the launcher ends where no firmware image is found.
pub const EXIT_NO_FIRMWARE: i32 = 1;

/// The status with which the launcher ends on every other fatal condition:
/// that of a process which a panic has ended.
pub const EXIT_PANIC: i32 = 101;

impl Fatal {
    /// The family of `self`.
    pub open spec fn spec_category(self) -> Category {
        match self {
            Fatal::FirmwareNotFound | Fatal::HandlerNotInstalled => Category::Environment,
            Fatal::TempDirNotCreated | Fatal::BootDirNotCreated | Fatal::ExecutableNotCopied =>
                Category::Filesystem,
            Fatal::EmulatorNotStarted => Category::Spawn,
            Fatal::WaitFailed | Fatal::KillFailed | Fatal::SurvivedKill => Category::Supervision,
        }
    }

    /// The text shown to the user for `self`.
    pub open spec fn spec_diagnostic(self) -> Seq<char> {
        match self {
            Fatal::FirmwareNotFound => "Unable to find OVMF.fd"@,
            Fatal::HandlerNotInstalled => "Error setting termination handler"@,
            Fatal::TempDirNotCreated => "Unable to create temporary directory"@,
            Fatal::BootDirNotCreated => "Unable to create /EFI/BOOT directory"@,
            Fatal::ExecutableNotCopied => "Unable to copy EFI executable"@,
            Fatal::EmulatorNotStarted => "Failed to start qemu"@,
            Fatal::WaitFailed => "Failed to wait on child process"@,
            Fatal::KillFailed => "Not able to kill child process"@,
            Fatal::SurvivedKill => "qemu did not exit after it was killed"@,
        }
    }

    /// The exit status of the launcher after `self`.
    pub open spec fn spec_exit_code(self) -> i32 {
        if self is FirmwareNotFound {
            EXIT_NO_FIRMWARE
        } else {
            EXIT_PANIC
        }
    }

    /// The family of `self`.
    pub fn category(&self) -> (category: Category)
        ensures
            category == self.spec_category(),
    {
        match self {
            Fatal::FirmwareNotFound | Fatal::HandlerNotInstalled => Category::Environment,
            Fatal::TempDirNotCreated | Fatal::BootDirNotCreated | Fatal::ExecutableNotCopied =>
                Category::Filesystem,
            Fatal::EmulatorNotStarted => Category::Spawn,
            Fatal::WaitFailed | Fatal::KillFailed | Fatal::SurvivedKill => Category::Supervision,
        }
    }

    /// The exit status of the launcher after `self`. It is never zero.
    pub fn exit_code(&self) -> (code: i32)
        ensures
            code == self.spec_exit_code(),
            code != 0,
    {
        match self {
            Fatal::FirmwareNotFound => EXIT_NO_FIRMWARE,
            _ => EXIT_PANIC,
        }
    }

    /// The text shown to the user for `self`.
    pub fn diagnostic(&self) -> (text: String)
        ensures
            text@ == self.spec_diagnostic(),
    {
        let text = match self {
            Fatal::FirmwareNotFound => "Unable to find OVMF.fd",
            Fatal::HandlerNotInstalled => "Error setting termination handler",
            Fatal::TempDirNotCreated => "Unable to create temporary directory",
            Fatal::BootDirNotCreated => "Unable to create /EFI/BOOT directory",
            Fatal::ExecutableNotCopied => "Unable to copy EFI executable",
            Fatal::EmulatorNotStarted => "Failed to start qemu",
            Fatal::WaitFailed => "Failed to wait on child process",
            Fatal::KillFailed => "Not able to kill child process",
            Fatal::SurvivedKill => "qemu did not exit after it was killed",
        };
        String::from_str(text)
    }
}

} // verus!
