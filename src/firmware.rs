//! Firmware compatibility decisions. Flashing itself is left to the caller;
//! the library validates what the flash command receives.

use vstd::prelude::*;

use crate::runner::{error_text, error_text_spec, is_valid_port, port_shape};
use crate::text::{lower_of, cat, chars_of, contains, seq_contains, str_eq, to_lower};
use crate::types::{AppError, FirmwareCheckResult};
use crate::version::HwVersionInfo;

verus! {

/// The hardware variants that have a firmware image.
pub open spec fn valid_variant(v: Seq<char>) -> bool {
    v == "rdv4"@ || v == "rdv4-bt"@ || v == "generic"@ || v == "generic-256"@
}

pub fn is_valid_variant(v: &str) -> (r: bool)
    ensures
        r == valid_variant(v@),
{
    str_eq(v, "rdv4") || str_eq(v, "rdv4-bt") || str_eq(v, "generic") || str_eq(v, "generic-256")
}

/// The check result when `hw version` itself failed: a capability
/// mismatch means firmware incompatible with the client; other errors stand.
pub fn firmware_check_from_error(e: AppError) -> (r: Result<FirmwareCheckResult, AppError>)
    ensures
        r is Ok <==> seq_contains(lower_of(error_text_spec(e)), "capabilities"@),
        r is Ok ==> !r->Ok_0.matched,
{
    let msg = error_text(&e);
    let low = to_lower(msg.as_str());
    let v = chars_of(low.as_str());
    if contains(&v, "capabilities") {
        return Ok(FirmwareCheckResult {
            matched: false,
            client_version: String::from_str("bundled"),
            device_firmware_version: String::from_str("incompatible"),
            hardware_variant: String::from_str("unknown"),
            firmware_path_exists: false,
        });
    }
    Err(e)
}

/// The check result from decoded `hw version` output and whether an image
/// for the detected variant is at hand.
pub fn firmware_check_result(info: HwVersionInfo, firmware_path_exists: bool) -> (r: FirmwareCheckResult)
    ensures
        r.matched == info.versions_match,
        r.client_version == info.client_version,
        r.device_firmware_version == info.os_version,
        r.hardware_variant == info.hardware_variant,
        r.firmware_path_exists == firmware_path_exists,
{
    FirmwareCheckResult {
        matched: info.versions_match,
        client_version: info.client_version,
        device_firmware_version: info.os_version,
        hardware_variant: info.hardware_variant,
        firmware_path_exists,
    }
}

/// A flash may start when none is running, the port is well-formed and the
/// variant has an image.
pub fn check_flash_request(busy: bool, port: &str, variant: &str) -> (r: Result<(), AppError>)
    ensures
        r is Ok <==> (!busy && port_shape(port@) && valid_variant(variant@)),
{
    if busy {
        return Err(AppError::CommandFailed(String::from_str("A firmware flash is already in progress")));
    }
    if !is_valid_port(port) {
        return Err(AppError::CommandFailed(cat("Invalid port: ", port)));
    }
    if !is_valid_variant(variant) {
        return Err(AppError::CommandFailed(cat("Invalid hardware variant: ", variant)));
    }
    Ok(())
}

} // verus!
