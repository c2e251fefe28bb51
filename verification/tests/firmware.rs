use uefi_run::error::Fatal;
use uefi_run::firmware::{candidates, locate_firmware};

#[test]
fn candidates_in_their_order() {
    assert_eq!(
        candidates(),
        vec![
            "/usr/share/OVMF/OVMF.fd".to_string(),
            "/usr/share/ovmf/x64/OVMF_CODE.fd".to_string(),
            "OVMF.fd".to_string(),
        ]
    );
}

#[test]
fn named_firmware_is_taken_as_it_is() {
    let named = Some("/opt/fw/custom.fd".to_string());
    assert_eq!(
        locate_firmware(named.clone(), &vec![false, false, false]),
        Ok("/opt/fw/custom.fd".to_string())
    );
    assert_eq!(
        locate_firmware(named.clone(), &vec![true, true, true]),
        Ok("/opt/fw/custom.fd".to_string())
    );
    assert_eq!(locate_firmware(named, &vec![]), Ok("/opt/fw/custom.fd".to_string()));
}

#[test]
fn first_candidate_that_exists_is_chosen() {
    assert_eq!(
        locate_firmware(None, &vec![true, false, false]),
        Ok("/usr/share/OVMF/OVMF.fd".to_string())
    );
    assert_eq!(
        locate_firmware(None, &vec![true, true, true]),
        Ok("/usr/share/OVMF/OVMF.fd".to_string())
    );
    assert_eq!(
        locate_firmware(None, &vec![false, true, false]),
        Ok("/usr/share/ovmf/x64/OVMF_CODE.fd".to_string())
    );
    assert_eq!(
        locate_firmware(None, &vec![false, true, true]),
        Ok("/usr/share/ovmf/x64/OVMF_CODE.fd".to_string())
    );
    assert_eq!(locate_firmware(None, &vec![false, false, true]), Ok("OVMF.fd".to_string()));
}

#[test]
fn no_candidate_means_no_firmware() {
    assert_eq!(locate_firmware(None, &vec![false, false, false]), Err(Fatal::FirmwareNotFound));
}

#[test]
fn unprobed_candidates_count_as_missing() {
    assert_eq!(locate_firmware(None, &vec![]), Err(Fatal::FirmwareNotFound));
    assert_eq!(locate_firmware(None, &vec![false]), Err(Fatal::FirmwareNotFound));
    assert_eq!(locate_firmware(None, &vec![false, false]), Err(Fatal::FirmwareNotFound));
    assert_eq!(
        locate_firmware(None, &vec![false, true]),
        Ok("/usr/share/ovmf/x64/OVMF_CODE.fd".to_string())
    );
}

#[test]
fn probes_beyond_the_candidates_are_ignored() {
    assert_eq!(
        locate_firmware(None, &vec![false, false, false, true]),
        Err(Fatal::FirmwareNotFound)
    );
    assert_eq!(
        locate_firmware(None, &vec![false, false, true, true]),
        Ok("OVMF.fd".to_string())
    );
}
