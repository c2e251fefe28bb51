//! Where the executable lies inside the staged boot partition.
//!
//! UEFI firmware boots a removable drive from one fixed path. The caller
//! creates a fresh directory, the boot directory below it, and copies the
//! executable there under the boot loader's name.

use vstd::prelude::*;
use vstd::string::StringExecFns;
use crate::text::texts;

verus! {

/// The directories from the root of the partition down to the boot loader.
pub open spec fn boot_directory_names() -> Seq<Seq<char>> {
    seq!["EFI"@, "BOOT"@]
}

/// The file name under which firmware for x86-64 looks for the boot loader.
pub open spec fn boot_loader_file_name() -> Seq<char> {
    "BOOTX64.EFI"@
}

/// The directories from the root of the partition down to the boot loader,
/// the outermost first.
pub fn boot_directory() -> (names: Vec<String>)
    ensures
        texts(names@) == boot_directory_names(),
{
    let mut names: Vec<String> = Vec::new();
    names.push(String::from_str("EFI"));
    names.push(String::from_str("BOOT"));
    assert(texts(names@) =~= boot_directory_names());
    names
}

/// The file name under which the executable is staged.
pub fn boot_loader_name() -> (name: String)
    ensures
        name@ == boot_loader_file_name(),
{
    String::from_str("BOOTX64.EFI")
}

} // verus!
