use pm3_core::ansi::strip_ansi;
use pm3_core::autopwn::AutopwnProgress;
use pm3_core::command_builder::{build_clone_command, build_wipe_command};
use pm3_core::fields::Fields;
use pm3_core::output_parser::{parse_autopwn_line, parse_lf_search, verify_match, verify_match_detailed};
use pm3_core::runner::{is_valid_port, validate_invocation};
use pm3_core::types::{AutopwnEvent, BlankType, CardType, ProcessPhase};

fn lf_output(body: &str) -> String {
    format!("[=] Checking for known tags...\n[=]\n{}\n\n[+] Valid ID found!\n", body)
}

#[test]
fn strip_is_idempotent_on_colored_output() {
    let inputs = [
        "\x1b[32m[+]\x1b[0m EM 410x ID \x1b[1;33m0F00112233\x1b[0m",
        "plain text",
        "",
        "\x1b[2J\x1b[H[=] done",
    ];
    for x in inputs {
        let once = strip_ansi(x);
        assert_eq!(strip_ansi(&once), once);
        assert!(!once.contains('\x1b'));
    }
    assert_eq!(strip_ansi("\x1b[32mOK\x1b[0m"), "OK");
}

#[test]
fn strip_removes_sequences_formed_by_removal() {
    // Removing the inner sequence joins the outer characters into a new
    // one; stripping goes on until none is left.
    assert_eq!(strip_ansi("\x1b\x1b[m[m"), "");
    assert_eq!(strip_ansi("\x1b[\x1b[0m0m"), "");
    assert_eq!(strip_ansi("a\x1b[\x1b[0m0mb"), "ab");
    let once = strip_ansi("\x1b[\x1b[0m0m");
    assert_eq!(strip_ansi(&once), once);
}

#[test]
fn named_field_protocols_need_their_fields() {
    let empty = Fields::new();
    for ct in [CardType::AWID, CardType::Nedap, CardType::GProxII, CardType::Gallagher, CardType::Visa2000] {
        assert!(build_clone_command(&ct, "ABCD1234", &empty).is_none());
    }
    let mut d = Fields::new();
    d.insert("facility_code".to_string(), "123".to_string());
    d.insert("card_number".to_string(), "4567".to_string());
    assert_eq!(build_clone_command(&CardType::AWID, "FC123:CN4567", &d).unwrap(), "lf awid clone --fc 123 --cn 4567");
    assert_eq!(
        build_clone_command(&CardType::GProxII, "FC123:CN4567", &d).unwrap(),
        "lf gproxii clone --xor 0 --fmt 26 --fc 123 --cn 4567"
    );
    assert_eq!(build_clone_command(&CardType::Visa2000, "4567", &d).unwrap(), "lf visa2000 clone --cn 4567");
    d.insert("region_code".to_string(), "1".to_string());
    d.insert("issue_level".to_string(), "2".to_string());
    assert_eq!(
        build_clone_command(&CardType::Gallagher, "X", &d).unwrap(),
        "lf gallagher clone --rc 1 --fc 123 --cn 4567 --il 2"
    );
    let mut bad = Fields::new();
    bad.insert("card_number".to_string(), "12a".to_string());
    assert!(build_clone_command(&CardType::Visa2000, "12", &bad).is_none());
    let mut big = Fields::new();
    big.insert("card_number".to_string(), "4294967296".to_string());
    assert!(build_clone_command(&CardType::Visa2000, "12", &big).is_none());
    big.insert("card_number".to_string(), "+4294967295".to_string());
    assert_eq!(build_clone_command(&CardType::Visa2000, "12", &big).unwrap(), "lf visa2000 clone --cn 4294967295");
}

#[test]
fn round_trip_id_family_em4100() {
    let (ct, data) = parse_lf_search(&lf_output("[+] EM 410x ID 0f00112233")).unwrap();
    assert_eq!(ct, CardType::EM4100);
    let cmd = build_clone_command(&ct, &data.uid, &data.decoded).unwrap();
    assert_eq!(cmd, "lf em 410x clone --id 0F00112233");
    let (ok, bad) = verify_match(&data.uid, &lf_output("[+] EM 410x ID 0F00112233"));
    assert!(ok && bad.is_empty());
    let (ok, bad) = verify_match_detailed(&ct, &data.decoded, &lf_output("[+] EM 410x ID 0F00112233"));
    assert!(ok && bad.is_empty());
    let (ok, bad) = verify_match_detailed(&ct, &data.decoded, &lf_output("[+] EM 410x ID 0F00112234"));
    assert!(!ok);
    assert_eq!(bad, vec![3]);
}

#[test]
fn round_trip_fc_cn_family_awid() {
    let out = lf_output("[+] AWID - len: 26 FC: 123 Card: 4567 - Wiegand: 2f6e11ae, Raw: 0123456789abcdef");
    let (ct, data) = parse_lf_search(&out).unwrap();
    assert_eq!(ct, CardType::AWID);
    let cmd = build_clone_command(&ct, &data.uid, &data.decoded).unwrap();
    assert_eq!(cmd, "lf awid clone --fmt 26 --fc 123 --cn 4567");
    let (ok, bad) = verify_match_detailed(&ct, &data.decoded, &out);
    assert!(ok && bad.is_empty());
    let other = lf_output("[+] AWID - len: 26 FC: 124 Card: 4567");
    let (ok, bad) = verify_match_detailed(&ct, &data.decoded, &other);
    assert!(!ok);
    assert_eq!(bad, vec![1]);
}

#[test]
fn round_trip_raw_family_securakey() {
    let out = lf_output("[+] Securakey - len: 26 FC: 0x35 Card: 64169, Raw: 7FCB400001ADEA5344300000");
    let (ct, data) = parse_lf_search(&out).unwrap();
    assert_eq!(ct, CardType::SecuraKey);
    let cmd = build_clone_command(&ct, &data.uid, &data.decoded).unwrap();
    assert_eq!(cmd, "lf securakey clone --raw 7FCB400001ADEA5344300000");
    let (ok, _) = verify_match_detailed(&ct, &data.decoded, &out);
    assert!(ok);
    let (ok, bad) = verify_match_detailed(&CardType::EM4100, &data.decoded, &out);
    assert!(!ok);
    assert_eq!(bad, vec![0]);
}

#[test]
fn port_validation_shapes_and_separators() {
    for p in ["COM1", "COM256", "/dev/ttyACM0", "/dev/ttyUSB12", "/dev/tty.usbmodem14101", "/dev/tty.usbmodemiceman1"] {
        assert!(is_valid_port(p), "{}", p);
        assert!(validate_invocation(p, "hw version").is_ok());
    }
    for p in ["COM0", "COM", "COM1;", "/dev/ttyACM123", "/dev/ttyS0", "/dev/tty.usbmodem", "COM1\n", "/dev/ttyUSB1\r", ""] {
        assert!(!is_valid_port(p), "{}", p);
        assert!(validate_invocation(p, "hw version").is_err());
    }
    assert!(validate_invocation("COM3", "lf search; lf t55xx wipe").is_err());
    assert!(validate_invocation("COM3", "lf search\nlf t55xx wipe").is_err());
    assert!(validate_invocation("COM3", "lf search\r").is_err());
}

#[test]
fn autopwn_dictionary_then_dump_complete() {
    let e = parse_autopwn_line("[=] found 12/32 keys (D)").unwrap();
    assert_eq!(e, AutopwnEvent::DictionaryProgress { found: 12, total: 32 });
    let d = parse_autopwn_line("[+] Succeeded in dumping all blocks").unwrap();
    assert_eq!(d, AutopwnEvent::DumpComplete { file_path: String::new() });
    let mut p = AutopwnProgress::new(&CardType::MifareClassic1K);
    assert_eq!(p.keys_total, 32);
    p.apply(e);
    p.apply(AutopwnEvent::KeyFound { key: "FFFFFFFFFFFF".to_string() });
    assert_eq!(p.keys_found, 13);
    p.apply(AutopwnEvent::HardnestedStarted);
    assert_eq!(p.phase, ProcessPhase::Hardnested);
    p.apply(AutopwnEvent::DumpComplete { file_path: "hf-mf-01020304-dump.bin".to_string() });
    assert_eq!(p.phase, ProcessPhase::Dumping);
    assert_eq!(p.dump_file.as_deref(), Some("hf-mf-01020304-dump.bin"));
    p.apply(d);
    assert_eq!(p.dump_file.as_deref(), Some("hf-mf-01020304-dump.bin"));
    assert_eq!(p.dump_info(), "All keys recovered (13/32). Full dump saved.");
}

#[test]
fn autopwn_summary_variants() {
    let mut p = AutopwnProgress::new(&CardType::MifareClassic4K);
    assert_eq!(p.keys_total, 80);
    assert_eq!(p.dump_info(), "Key recovery completed.");
    p.apply(AutopwnEvent::KeyFound { key: "A0A1A2A3A4A5".to_string() });
    assert_eq!(p.dump_info(), "Keys recovered: 1/80.");
    p.apply(AutopwnEvent::DumpPartial { file_path: String::new() });
    assert_eq!(p.dump_file, None);
    assert_eq!(p.dump_info(), "Partial key recovery (1/80). Partial dump saved.");
    assert!(parse_autopwn_line("   ").is_none());
    assert!(parse_autopwn_line("\x1b[0m").is_none());
}

#[test]
fn wipe_command_per_blank_family() {
    assert_eq!(build_wipe_command(&BlankType::EM4305, None).unwrap(), "lf em 4x05 wipe");
    assert_eq!(build_wipe_command(&BlankType::T5577, None).unwrap(), "lf t55xx wipe");
    assert_eq!(build_wipe_command(&BlankType::T5577, Some("51243648")).unwrap(), "lf t55xx wipe -p 51243648");
    assert!(build_wipe_command(&BlankType::T5577, Some("5124364")).is_none());
    assert!(build_wipe_command(&BlankType::T5577, Some("5124364G")).is_none());
    assert!(build_wipe_command(&BlankType::T5577, Some("51243648;")).is_none());
    assert!(build_wipe_command(&BlankType::MagicMifareGen1a, None).is_none());
}

#[test]
fn interpolated_fields_are_validated() {
    let mut d = Fields::new();
    d.insert("raw".to_string(), "A;B".to_string());
    assert_eq!(build_clone_command(&CardType::Indala, "AB", &d).unwrap(), "lf indala clone --raw AB");
    let mut k = Fields::new();
    k.insert("card_number".to_string(), "12;3".to_string());
    k.insert("facility_code".to_string(), "1\n".to_string());
    k.insert("keri_type".to_string(), "m".to_string());
    assert_eq!(build_clone_command(&CardType::Keri, "FC1:CN12", &k).unwrap(), "lf keri clone -t m --cn FC1:CN12");
    let mut p = Fields::new();
    p.insert("card_number".to_string(), "CD4F;5552".to_string());
    assert_eq!(build_clone_command(&CardType::PAC, "CD4F5552", &p).unwrap(), "lf pac clone --cn CD4F5552");
    let mut n = Fields::new();
    n.insert("card_number".to_string(), "112233".to_string());
    n.insert("year".to_string(), "19\r".to_string());
    assert_eq!(build_clone_command(&CardType::Noralsy, "112233", &n).unwrap(), "lf noralsy clone --cn 112233");
    n.insert("year".to_string(), "2019".to_string());
    assert_eq!(build_clone_command(&CardType::Noralsy, "112233", &n).unwrap(), "lf noralsy clone --cn 112233 -y 2019");
}

#[test]
fn round_trip_raw_family_pac() {
    let out = lf_output("[+] PAC/Stanley - Card: CD4F5552, Raw: FF2049906D8511C593155B56D5B2649F");
    let (ct, data) = parse_lf_search(&out).unwrap();
    assert_eq!(ct, CardType::PAC);
    assert_eq!(data.uid, "CD4F5552");
    assert_eq!(data.raw, "FF2049906D8511C593155B56D5B2649F");
    assert_eq!(
        build_clone_command(&ct, &data.uid, &data.decoded).unwrap(),
        "lf pac clone --raw FF2049906D8511C593155B56D5B2649F"
    );
    let (ok, bad) = verify_match_detailed(&ct, &data.decoded, &out);
    assert!(ok && bad.is_empty());
}
