//! Which firmware image the emulator boots.

use vstd::prelude::*;
use vstd::string::StringExecFns;
use crate::error::Fatal;
use crate::text::texts;

verus! {

/// The places where a firmware image is looked for when none is named, in
/// the order in which they are tried: where Debian and Ubuntu install it,
/// where Arch Linux installs it, and the working directory.
pub open spec fn candidate_paths() -> Seq<Seq<char>> {
    seq!["/usr/share/OVMF/OVMF.fd"@, "/usr/share/ovmf/x64/OVMF_CODE.fd"@, "OVMF.fd"@]
}

/// Whether `exists` tells that the candidate at `index` is there. A place
/// that `exists` does not reach counts as empty.
pub open spec fn present(exists: Seq<bool>, index: int) -> bool {
    0 <= index < candidate_paths().len() && index < exists.len() && exists[index]
}

/// Whether `index` is the first candidate that is there.
pub open spec fn first_present(exists: Seq<bool>, index: int) -> bool {
    present(exists, index) && forall|earlier: int| 0 <= earlier < index ==> !present(exists, earlier)
}

/// The firmware image for a run: the one that was named, found or not, and
/// else the first candidate that is there.
pub open spec fn located(explicit: Option<Seq<char>>, exists: Seq<bool>) -> Option<Seq<char>> {
    match explicit {
        Some(path) => Some(path),
        None => if exists.len() > 0 && exists[0] {
            Some(candidate_paths()[0])
        } else if exists.len() > 1 && exists[1] {
            Some(candidate_paths()[1])
        } else if exists.len() > 2 && exists[2] {
            Some(candidate_paths()[2])
        } else {
            None
        },
    }
}

/// The places where a firmware image is looked for when none is named, in
/// the order in which they are tried.
pub fn candidates() -> (paths: Vec<String>)
    ensures
        texts(paths@) == candidate_paths(),
{
    let mut paths: Vec<String> = Vec::new();
    paths.push(String::from_str("/usr/share/OVMF/OVMF.fd"));
    paths.push(String::from_str("/usr/share/ovmf/x64/OVMF_CODE.fd"));
    paths.push(String::from_str("OVMF.fd"));
    assert(texts(paths@) =~= candidate_paths());
    paths
}

/// What the user named, as plain text.
pub open spec fn named(explicit: Option<String>) -> Option<Seq<char>> {
    match explicit {
        Some(path) => Some(path@),
        None => None,
    }
}

/// Chooses the firmware image.
///
/// `explicit` is the image that the user named, if any; it is taken as it
/// is. `exists` tells of each candidate, in their order, whether a file is
/// there. With no image named the first candidate that is there is chosen,
/// and where there is none the run cannot go on.
pub fn locate_firmware(explicit: Option<String>, exists: &Vec<bool>) -> (firmware: Result<
    String,
    Fatal,
>)
    ensures
        match firmware {
            Ok(path) => located(named(explicit), exists@) == Some(path@),
            Err(fatal) => fatal == Fatal::FirmwareNotFound && located(named(explicit), exists@)
                is None,
        },
{
    match explicit {
        Some(path) => Ok(path),
        None => {
            let paths = candidates();
            let mut index: usize = 0;
            while index < paths.len() && index < exists.len()
                invariant
                    index <= paths@.len(),
                    texts(paths@) == candidate_paths(),
                    forall|earlier: int| 0 <= earlier < index ==> !present(exists@, earlier),
                    explicit is None,
                decreases paths@.len() - index,
            {
                if exists[index] {
                    proof {
                        law_first_candidate_wins(exists@, index as int);
                    }
                    assert(paths@[index as int]@ == texts(paths@)[index as int]);
                    return Ok(paths[index].clone());
                }
                index += 1;
            }
            proof {
                assert forall|i: int| !present(exists@, i) by {
                    if 0 <= i < index {
                        assert(!present(exists@, i));
                    }
                }
                law_no_firmware(exists@);
            }
            Err(Fatal::FirmwareNotFound)
        },
    }
}

/// An image that the user named is used, whatever lies at the candidates
/// and whether or not the named file is there.
pub proof fn law_named_firmware_wins(path: Seq<char>, exists: Seq<bool>)
    ensures
        located(Some(path), exists) == Some(path),
{
}

/// With no image named, the first candidate that is there is used.
pub proof fn law_first_candidate_wins(exists: Seq<bool>, index: int)
    requires
        first_present(exists, index),
    ensures
        located(None, exists) == Some(candidate_paths()[index]),
{
    assert(forall|earlier: int| 0 <= earlier < index ==> !present(exists, earlier));
    if index > 0 {
        assert(!present(exists, 0));
    }
    if index > 1 {
        assert(!present(exists, 1));
    }
}

/// With no image named, no firmware is found if and only if no candidate is
/// there.
pub proof fn law_no_firmware(exists: Seq<bool>)
    ensures
        located(None, exists) is None <==> forall|i: int| !present(exists, i),
{
    if located(None, exists) is None {
        assert forall|i: int| !present(exists, i) by {}
    } else {
        let found = if exists.len() > 0 && exists[0] {
            0int
        } else if exists.len() > 1 && exists[1] {
            1int
        } else {
            2int
        };
        assert(present(exists, found));
    }
}

} // verus!
