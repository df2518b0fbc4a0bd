use pm3_core::hf::{check_autopwn_card, hf_dump_plan};
use pm3_core::runner::discovery_error_action;
use pm3_core::hf::{hf_uid_matches, readback_plan, readback_precheck};
use pm3_core::fields::Fields;
use pm3_core::firmware::{check_flash_request, firmware_check_from_error, is_valid_variant};
use pm3_core::scan::{enrich_magic, enrich_prng, enrich_ultralight};
use pm3_core::types::CardData;
use pm3_core::hf::{block0_hex, check_write_output, compare_dumps, hf_write_plan};
use pm3_core::runner::{
    build_port_candidates, classify_exit, classify_stream_exit, extract_short_version,
    parse_hw_version, pm3_scope_names, probe_step, stream_line, Platform, ProbeStep,
};
use pm3_core::blank::{has_nonzero_block_data, magic_blank_action, mifare_data_command};
use pm3_core::erase::{detected_chip, wipe_outcome};
use pm3_core::flows::check_write_request;
use pm3_core::state::WizardAction;
use pm3_core::text::dec_string;
use pm3_core::types::{AppError, BlankType, CardType, MagicGeneration, T5577Status};

#[test]
fn exit_status_classification() {
    assert_eq!(classify_exit(0, "\x1b[32m[+] ok\x1b[0m", "", "hw version").unwrap(), "[+] ok");
    match classify_exit(251, "", "", "lf search").unwrap_err() {
        AppError::Timeout(m) => assert_eq!(m, "PM3 timed out running: lf search"),
        e => panic!("{:?}", e),
    }
    match classify_exit(-5, "", "", "lf search").unwrap_err() {
        AppError::Timeout(_) => {}
        e => panic!("{:?}", e),
    }
    match classify_exit(-1, "out", "", "x").unwrap_err() {
        AppError::CommandFailed(m) => assert_eq!(m, "Exit code -1: out"),
        e => panic!("{:?}", e),
    }
    match classify_exit(2, "out", "\x1b[31merr\x1b[0m", "x").unwrap_err() {
        AppError::CommandFailed(m) => assert_eq!(m, "Exit code 2: err"),
        e => panic!("{:?}", e),
    }
    assert_eq!(classify_stream_exit(None, "a\n".to_string()).unwrap(), "a\n");
    assert_eq!(classify_stream_exit(Some(0), "b\n".to_string()).unwrap(), "b\n");
    match classify_stream_exit(Some(7), String::new()).unwrap_err() {
        AppError::CommandFailed(m) => assert_eq!(m, "PM3 exited with code 7"),
        e => panic!("{:?}", e),
    }
}

#[test]
fn binary_and_port_fallback_order() {
    assert_eq!(pm3_scope_names(Platform::Linux), vec!["proxmark3", "proxmark3-linux-local", "proxmark3-linux-usr"]);
    assert_eq!(pm3_scope_names(Platform::Windows)[0], "proxmark3");
    let win = build_port_candidates(Platform::Windows);
    assert_eq!(win.len(), 40);
    assert_eq!(win[0], "COM1");
    assert_eq!(win[39], "COM40");
    let lin = build_port_candidates(Platform::Linux);
    assert_eq!(lin[0], "/dev/ttyACM0");
    assert_eq!(lin[1], "/dev/ttyUSB0");
    assert_eq!(lin[11], "/dev/ttyUSB5");
    assert_eq!(build_port_candidates(Platform::MacOs)[0], "/dev/tty.usbmodemiceman1");
}

#[test]
fn decimal_rendering() {
    assert_eq!(dec_string(0), "0");
    assert_eq!(dec_string(1234567890), "1234567890");
    assert_eq!(dec_string(u64::MAX), "18446744073709551615");
}

#[test]
fn stream_lines_and_short_versions() {
    assert_eq!(stream_line("  \x1b[33m[=] found 1/32 keys\x1b[0m \r\n").unwrap(), "[=] found 1/32 keys");
    assert!(stream_line(" \x1b[0m ").is_none());
    assert_eq!(extract_short_version("Iceman/master/v4.20728-358-ga2ba91043-suspect"), "v4.20728");
    assert_eq!(extract_short_version("no version here"), "no version here");
    assert_eq!(extract_short_version("dev vv4.1.2x"), "v4.1.2");
}

#[test]
fn device_probe_decisions() {
    let out = "[ Proxmark3 RFID instrument ]\n [ Client ]\n  client: Iceman/master/v4.20728-234-g1a2b3c4d5\n [ ARM ]\n  os: Iceman/master/v4.20728-234-g1a2b3c4d5\n";
    let (model, fw) = parse_hw_version(out).unwrap();
    assert_eq!(model, " Proxmark3 RFID instrument ");
    assert_eq!(fw, "v4.20728");
    assert!(parse_hw_version("nothing").is_none());
    assert_eq!(parse_hw_version("a Proxmark").unwrap().1, "unknown");
    match probe_step("COM3", Err(AppError::CommandFailed("Capabilities mismatch".to_string()))) {
        ProbeStep::Found(p, m, f) => assert_eq!((p.as_str(), m.as_str(), f.as_str()), ("COM3", "Proxmark3", "mismatched")),
        _ => panic!("expected a device"),
    }
    assert!(matches!(
        probe_step("COM3", Err(AppError::CommandFailed("Failed to spawn proxmark3: not found".to_string()))),
        ProbeStep::Abort(_)
    ));
    assert!(matches!(probe_step("COM3", Err(AppError::Timeout("x".to_string()))), ProbeStep::Next));
}

#[test]
fn hf_write_sequences() {
    let gen2 = hf_write_plan(&BlankType::MagicMifareGen2, "d.bin", "01 02 03 04", "0102030404080400").unwrap();
    let cmds: Vec<&str> = gen2.iter().map(|c| c.command.as_str()).collect();
    assert_eq!(
        cmds,
        vec![
            "hf 14a config --atqa force --bcc ignore --cl2 skip --rats skip",
            "hf mf wrbl --blk 0 -k FFFFFFFFFFFF -d 0102030404080400 --force",
            "hf mf restore -f d.bin",
            "hf 14a config --std",
        ]
    );
    let gen3 = hf_write_plan(&BlankType::MagicMifareGen3, "d.bin", "01:02:03:04", "AA").unwrap();
    assert_eq!(gen3[0].command, "hf mf gen3uid --uid 01020304");
    let gen1 = hf_write_plan(&BlankType::MagicMifareGen1a, "d.bin", "", "").unwrap();
    assert_eq!(gen1.len(), 1);
    assert_eq!(gen1[0].command, "hf mf cload -f d.bin");
    assert!(hf_write_plan(&BlankType::T5577, "d.bin", "", "").is_err());
}

#[test]
fn dump_helpers() {
    let data: Vec<u8> = (0u8..20).collect();
    assert_eq!(block0_hex(&data).unwrap(), "000102030405060708090A0B0C0D0E0F");
    assert!(block0_hex(&vec![0u8; 15]).is_err());
    let a = vec![1u8, 2, 3, 4, 5, 6, 7];
    let b = vec![1u8, 2, 9, 4, 5, 0];
    assert_eq!(compare_dumps(&a, &b, 2), vec![1, 2]);
    assert!(compare_dumps(&a, &b, 0).is_empty());
    assert!(compare_dumps(&a, &vec![], 2).is_empty());
    assert!(check_write_output("[+] ok").is_ok());
    match check_write_output("[+] a\n  [!!] card not found  \n").unwrap_err() {
        AppError::CommandFailed(m) => assert_eq!(m, "PM3 write error: [!!] card not found"),
        e => panic!("{:?}", e),
    }
}

#[test]
fn blank_probe_decisions() {
    let full = "[=]   4 | 01 02 03 04 05 06 07 08 09 0A 0B 0C 0D 0E 0F 10 | ................";
    let zero = "[=]   4 | 00 00 00 00 00 00 00 00 00 00 00 00 00 00 00 00 | ................";
    assert!(has_nonzero_block_data(full));
    assert!(!has_nonzero_block_data(zero));
    assert!(!has_nonzero_block_data("[!!] 4 | 01 02 03 04 05 06 07 08 09 0A 0B 0C 0D 0E 0F 10"));
    assert_eq!(mifare_data_command(&MagicGeneration::Gen1a), "hf mf cgetblk --blk 4");
    assert_eq!(mifare_data_command(&MagicGeneration::Gen2), "hf mf rdbl --blk 4 -k FFFFFFFFFFFF");
    match magic_blank_action(true, BlankType::MagicMifareGen1a, Some(MagicGeneration::Gen2), None) {
        WizardAction::BlankReady { blank_type, existing_data_type } => {
            assert_eq!(blank_type, BlankType::MagicMifareGen2);
            assert_eq!(existing_data_type.unwrap(), "Detected: MagicMifareGen2 (expected MagicMifareGen1a)");
        }
        _ => panic!("expected a ready blank"),
    }
    match magic_blank_action(true, BlankType::MagicMifareGen1a, Some(MagicGeneration::Gen3), Some("MIFARE Classic".to_string())) {
        WizardAction::BlankReady { existing_data_type, .. } => {
            assert_eq!(existing_data_type.unwrap(), "MIFARE Classic (detected MagicMifareGen3, expected MagicMifareGen1a)");
        }
        _ => panic!("expected a ready blank"),
    }
    assert!(matches!(magic_blank_action(false, BlankType::MagicMifareGen1a, None, None), WizardAction::ReportError { recoverable: true, .. }));
}

#[test]
fn chip_probe_and_wipe_outcomes() {
    let t = T5577Status { detected: true, chip_type: "T55x7".to_string(), password_set: true, block0: None, modulation: None };
    let r = detected_chip(&t, false).unwrap();
    assert_eq!(r.chip_type, "T5577");
    assert!(r.password_protected);
    assert_eq!(r.details, "T5577 chip detected (password protected)");
    let none = T5577Status { detected: false, chip_type: String::new(), password_set: false, block0: None, modulation: None };
    assert_eq!(detected_chip(&none, true).unwrap().chip_type, "EM4305");
    assert!(detected_chip(&none, false).is_err());
    let ok = wipe_outcome("T5577", "[+] done");
    assert!(ok.success);
    assert_eq!(ok.message, "T5577 erased successfully");
    let bad = wipe_outcome("T5577", "[=] start\n  [!!] Error writing block  \n");
    assert!(!bad.success);
    assert_eq!(bad.message, "Wipe may have failed: [!!] Error writing block");
}

#[test]
fn write_request_checks() {
    assert_eq!(check_write_request(CardType::EM4100, "0F00112233", 2, "COM3", None).unwrap(), BlankType::T5577);
    assert_eq!(check_write_request(CardType::EM4100, "0F00112233", 2, "COM3", Some(BlankType::EM4305)).unwrap(), BlankType::EM4305);
    match check_write_request(CardType::Presco, "1234", 2, "COM3", Some(BlankType::EM4305)).unwrap_err() {
        AppError::CommandFailed(m) => assert_eq!(m, "Presco does not support EM4305 blanks. Please use a T5577 blank instead."),
        e => panic!("{:?}", e),
    }
    assert!(check_write_request(CardType::EM4100, "0F;00", 2, "COM3", None).is_err());
    assert!(check_write_request(CardType::EM4100, "", 2, "COM3", None).is_err());
    assert!(check_write_request(CardType::EM4100, "0F", 51, "COM3", None).is_err());
    assert!(check_write_request(CardType::EM4100, "0F", 2, "COM3;", None).is_err());
}

#[test]
fn firmware_decisions() {
    assert!(is_valid_variant("rdv4-bt"));
    assert!(!is_valid_variant("rdv5"));
    let r = firmware_check_from_error(AppError::CommandFailed("Capabilities structure mismatch".to_string())).unwrap();
    assert!(!r.matched);
    assert_eq!(r.device_firmware_version, "incompatible");
    assert!(firmware_check_from_error(AppError::Timeout("x".to_string())).is_err());
    assert!(check_flash_request(false, "COM4", "generic").is_ok());
    assert!(check_flash_request(true, "COM4", "generic").is_err());
    assert!(check_flash_request(false, "COM4;", "generic").is_err());
    assert!(check_flash_request(false, "COM4", "other").is_err());
}

#[test]
fn hf_scan_enrichment() {
    let mut d = CardData { uid: "01020304".to_string(), raw: String::new(), decoded: Fields::new() };
    enrich_prng(&mut d, "[+] Prng detection: weak");
    assert_eq!(d.decoded.get("prng").unwrap(), "WEAK");
    enrich_magic(&mut d, "[+] Magic capabilities... Gen 1a");
    assert_eq!(d.decoded.get("magic").unwrap(), "Gen 1a");
    enrich_ultralight(&mut d, "[=] TYPE: NTAG 215 504 bytes");
    assert_eq!(d.decoded.get("ntag_type").unwrap(), "NTAG215");
}

#[test]
fn hf_verification_decisions() {
    assert!(hf_uid_matches("01 02 0a 04", "01:02:0A:04"));
    assert!(!hf_uid_matches("01020304", "01020305"));
    assert_eq!(readback_plan(&BlankType::MagicMifareGen1a), Some(("hf mf cview", 16)));
    assert_eq!(readback_plan(&BlankType::MagicUltralight), Some(("hf mfu dump", 4)));
    assert_eq!(readback_plan(&BlankType::T5577), None);
    assert_eq!(readback_precheck(&Err(AppError::Timeout("t".to_string()))), Some(vec![]));
    assert_eq!(readback_precheck(&Ok("[!!] auth error".to_string())), Some(vec![0]));
    assert_eq!(readback_precheck(&Ok("[+] saved 64 blocks".to_string())), None);
}

#[test]
fn hf_dump_and_discovery_decisions() {
    assert_eq!(hf_dump_plan(&CardType::NTAG).unwrap(), ("hf mfu dump", "NTAG dump complete."));
    assert_eq!(hf_dump_plan(&CardType::IClass).unwrap().0, "hf iclass dump --ki 0");
    assert!(hf_dump_plan(&CardType::MifareClassic1K).is_err());
    assert!(check_autopwn_card(&CardType::MifareClassic4K).is_ok());
    assert!(check_autopwn_card(&CardType::NTAG).is_err());
    match discovery_error_action(&AppError::CommandFailed("Failed to spawn proxmark3: x".to_string())) {
        WizardAction::ReportError { message, user_message, recoverable, .. } => {
            assert_eq!(message, "PM3 command failed: Failed to spawn proxmark3: x");
            assert!(user_message.starts_with("Proxmark3 binary not found"));
            assert!(recoverable);
        }
        _ => panic!("expected an error report"),
    }
    match discovery_error_action(&AppError::Timeout("hw version".to_string())) {
        WizardAction::ReportError { user_message, .. } => {
            assert_eq!(user_message, "No Proxmark3 device found. Check your USB connection.")
        }
        _ => panic!("expected an error report"),
    }
}

#[test]
fn wipe_error_names_password_and_chip_plans() {
    use_items();
}

fn use_items() {
    match pm3_core::command_builder::build_t5577_wipe_with_password("51G") {
        Err(m) => assert_eq!(m, "Invalid password: must be exactly 8 hex characters, got '51G'"),
        Ok(_) => panic!("expected an error"),
    }
    assert_eq!(pm3_core::erase::chip_wipe_plan("T5577").unwrap(), (true, "lf t55xx wipe"));
    assert_eq!(pm3_core::erase::chip_wipe_plan("EM4305").unwrap(), (false, "lf em 4x05 wipe"));
    assert!(pm3_core::erase::chip_wipe_plan("Hitag").is_err());
    assert!(pm3_core::erase::check_chip_port("").is_err());
    assert!(pm3_core::erase::check_chip_port("COM3").is_ok());
    assert_eq!(pm3_core::hf::dump_comparison(None, Some(&vec![1u8]), 1), Vec::<u16>::new());
    assert_eq!(pm3_core::hf::dump_comparison(Some(&vec![1u8, 2]), Some(&vec![1u8, 3]), 1), vec![1]);
}

#[test]
fn hf_uid_gate_and_model_line() {
    use_gate();
}

fn use_gate() {
    let found = pm3_core::output_parser::parse_hf_search("[+] UID: 01 02 03 04\n[+] ATQA: 00 04\n[+] SAK: 08 [2]");
    assert!(pm3_core::hf::hf_uid_gate("01:02:03:04", &found));
    assert!(!pm3_core::hf::hf_uid_gate("01020305", &found));
    assert!(!pm3_core::hf::hf_uid_gate("01020304", &None));
    let (_, d) = found.unwrap();
    assert_eq!(d.decoded.get("sak").unwrap(), "08");
    assert_eq!(d.decoded.get("atqa").unwrap(), "00 04");
    let info = pm3_core::version::parse_detailed_hw_version("[ Proxmark3 RFID instrument ]\n  os: Iceman/master/v4.1\n");
    assert_eq!(info.model, " Proxmark3 RFID instrument ");
}

#[test]
fn field_count_and_hf_uid_fields() {
    let mut f = Fields::new();
    assert!(f.is_empty());
    assert_eq!(f.len(), 0);
    f.insert("a".to_string(), "1".to_string());
    f.insert("b".to_string(), "2".to_string());
    f.insert("a".to_string(), "3".to_string());
    assert!(!f.is_empty());
    assert_eq!(f.len(), 2);
    assert_eq!(f.get("a").unwrap(), "3");
    let (ct, d) = pm3_core::output_parser::parse_hf_search(
        "[+] UID: 04 a1 b2 c3 d4 e5 f6\n[+] ATQA: 00 44\n[+] SAK: 00 [2]\n[+] NTAG 215",
    )
    .unwrap();
    assert_eq!(ct, CardType::NTAG);
    assert_eq!(d.uid, "04A1B2C3D4E5F6");
    assert_eq!(d.decoded.get("uid_size").unwrap(), "7B");
    assert_eq!(d.decoded.get("ntag_type").unwrap(), "NTAG215");
}
