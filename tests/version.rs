use pm3_core::version::{compare_versions, detect_hardware_variant, parse_detailed_hw_version};


const SAMPLE_HW_VERSION: &str = r#"
 [ Proxmark3 RFID instrument ]

 [ Client ]
  client: Iceman/master/v4.20728-234-g1a2b3c4d5

 [ ARM ]
  os: Iceman/master/v4.20728-234-g1a2b3c4d5

 [ FPGA ]
  LF image built for 2s30vq100 on 2024-01-15 at 10:30:00

 [ Hardware ]
  --= uC: AT91SAM7S512 Rev B
  --= Nonvolatile Program Memory Size: 512K bytes
  --= External flash: present
  --= Smartcard reader: present
"#;

const SAMPLE_MISMATCH: &str = r#"
 [ Proxmark3 RFID instrument ]

 [ Client ]
  client: Iceman/master/v4.20728-234-g1a2b3c4d5

 [ ARM ]
  os: Iceman/master/v4.20725-100-g9876543ab

 [ Hardware ]
  --= uC: AT91SAM7S512 Rev B
"#;

const SAMPLE_GENERIC_256: &str = r#"
 [ Proxmark3 RFID instrument ]

 [ Client ]
  client: Iceman/master/v4.20728

 [ ARM ]
  os: Iceman/master/v4.20728

 [ Hardware ]
  --= uC: AT91SAM7S256 Rev C
"#;

#[test]
fn test_parse_rdv4_matching() {
    let info = parse_detailed_hw_version(SAMPLE_HW_VERSION);
    assert_eq!(info.hardware_variant, "rdv4");
    assert!(info.versions_match);
    assert!(info.client_version.contains("v4.20728"));
    assert!(info.os_version.contains("v4.20728"));
}

#[test]
fn test_parse_mismatch() {
    let info = parse_detailed_hw_version(SAMPLE_MISMATCH);
    assert!(!info.versions_match);
    assert_eq!(info.hardware_variant, "generic");
}

#[test]
fn test_parse_generic_256() {
    let info = parse_detailed_hw_version(SAMPLE_GENERIC_256);
    assert_eq!(info.hardware_variant, "generic-256");
    assert!(info.versions_match); // same base version, no commit hash
}

#[test]
fn test_compare_same_commit() {
    assert!(compare_versions(
        "Iceman/master/v4.20728-234-g1a2b3c4d5",
        "Iceman/master/v4.20728-234-g1a2b3c4d5"
    ));
}

#[test]
fn test_compare_different_commit() {
    assert!(!compare_versions(
        "Iceman/master/v4.20728-234-g1a2b3c4d5",
        "Iceman/master/v4.20725-100-g9876543ab"
    ));
}

#[test]
fn test_compare_dirty_suffix() {
    // Same commit but one has -dirty — commit hash portion still matches
    assert!(compare_versions(
        "Iceman/master/v4.20728-234-g1a2b3c4d5-dirty",
        "Iceman/master/v4.20728-234-g1a2b3c4d5"
    ));
}

#[test]
fn test_compare_base_version_only() {
    // No commit hash — fallback to base version comparison
    assert!(compare_versions(
        "Iceman/master/v4.20728",
        "Iceman/master/v4.20728"
    ));
    assert!(!compare_versions(
        "Iceman/master/v4.20728",
        "Iceman/master/v4.20725"
    ));
}

#[test]
fn test_compare_empty() {
    assert!(!compare_versions("", ""));
    assert!(!compare_versions("Iceman/master/v4.20728", ""));
}

#[test]
fn test_detect_rdv4() {
    let output = "uC: AT91SAM7S512\nExternal flash: present\nSmartcard reader: present";
    assert_eq!(detect_hardware_variant(output), "rdv4");
}

#[test]
fn test_detect_rdv4_bt() {
    let output = "uC: AT91SAM7S512\nExternal flash: present\nSmartcard reader: present\nFPC USART for BT add-on support: present";
    assert_eq!(detect_hardware_variant(output), "rdv4-bt");
}

#[test]
fn test_detect_generic() {
    let output = "uC: AT91SAM7S512\nExternal flash: not present";
    assert_eq!(detect_hardware_variant(output), "generic");
}

#[test]
fn test_detect_generic_256() {
    let output = "uC: AT91SAM7S256 Rev C";
    assert_eq!(detect_hardware_variant(output), "generic-256");
}

/// Real PM3 v4.20728 output — no `client:` prefix, `OS.........` with dots
const SAMPLE_REAL_PM3: &str = r#"
[ Proxmark3 ]
[ Client ]
Iceman/master/v4.20728-358-ga2ba91043-suspect 2026-02-09 00:22:45 c0679a575
Compiler.................. MinGW-w64 15.2.0
Platform.................. Windows (64b) / x86_64
[ ARM ]
Bootrom.... Iceman/master/v4.20469-164-g0e95c62ad-suspect 2025-08-02 22:16:55 ef5b2e843
OS......... Iceman/master/v4.20728-358-ga2ba91043-suspect 2026-02-09 00:22:17 c0679a575
[ Hardware ]
--= uC: AT91SAM7S512 Rev B
--= Embedded flash memory 512K bytes ( 71% used )
"#;

#[test]
fn test_parse_real_pm3_output() {
    let info = parse_detailed_hw_version(SAMPLE_REAL_PM3);
    assert!(info.client_version.contains("v4.20728"), "client: {}", info.client_version);
    assert!(info.os_version.contains("v4.20728"), "os: {}", info.os_version);
    assert!(info.versions_match, "should match — same commit hash");
    assert_eq!(info.hardware_variant, "generic");
}

/// Real PM3 output with mismatched versions
const SAMPLE_REAL_MISMATCH: &str = r#"
[ Proxmark3 ]
[ Client ]
Iceman/master/v4.20728-358-ga2ba91043-suspect 2026-02-09 00:22:45 c0679a575
[ ARM ]
Bootrom.... Iceman/master/v4.20469-164-g0e95c62ad-suspect 2025-08-02 22:16:55 ef5b2e843
OS......... Iceman/master/v4.20469-164-g0e95c62ad-suspect 2025-08-02 22:16:55 ef5b2e843
[ Hardware ]
--= uC: AT91SAM7S512 Rev B
"#;

#[test]
fn test_parse_real_pm3_mismatch() {
    let info = parse_detailed_hw_version(SAMPLE_REAL_MISMATCH);
    assert!(info.client_version.contains("v4.20728"), "client: {}", info.client_version);
    assert!(info.os_version.contains("v4.20469"), "os: {}", info.os_version);
    assert!(!info.versions_match, "should NOT match — different commits");
}

