use pm3_core::command_builder::build_clone_command;
use pm3_core::fields::Fields;
use pm3_core::output_parser::{
    extract_dump_file_path, is_hf_card_present, is_iclass_present, parse_autopwn_line,
    parse_em4305_info, parse_em4305_word0, parse_hf_search, parse_lf_search,
    parse_magic_detection, parse_t5577_chk, parse_t5577_detect, verify_match,
    verify_match_detailed,
};
use pm3_core::types::{AutopwnEvent, CardType, MagicGeneration};


// -----------------------------------------------------------------------
// Helper: build realistic PM3 `lf search` output
// -----------------------------------------------------------------------

/// Wraps a card-specific block with standard PM3 lf search framing.
fn pm3_lf_search_output(body: &str) -> String {
    format!(
        "[=] NOTE: some demods output possible binary\n\
         [=] if it finds something that looks like a tag\n\
         [=] False Positives ARE possible\n\
         [=]\n\
         [=] Checking for known tags...\n\
         [=]\n\
         {}\n\
         \n\
         [+] Valid ID found!\n",
        body
    )
}

// =======================================================================
// 1. EM4100
// =======================================================================

#[test]
fn parse_em4100() {
    let output = pm3_lf_search_output(
        "[+] EM 410x ID 0F00112233\n\
         [+] EM410x ( RF/64 )\n\
         [=] EM 410x ID 0F00112233 (Full)\n\
         [=]     Possible de:tag ID: 4276803383"
    );
    let (card_type, data) = parse_lf_search(&output).expect("should parse EM4100");
    assert_eq!(card_type, CardType::EM4100);
    assert_eq!(data.uid, "0F00112233");
    assert_eq!(data.decoded.get("id").unwrap(), "0F00112233");
}

#[test]
fn clone_em4100() {
    let output = pm3_lf_search_output(
        "[+] EM 410x ID 0F00112233"
    );
    let (_, data) = parse_lf_search(&output).unwrap();
    let cmd = build_clone_command(&CardType::EM4100, &data.uid, &data.decoded);
    assert_eq!(cmd.unwrap(), "lf em 410x clone --id 0F00112233");
}

// =======================================================================
// 2. HID Prox
// =======================================================================

#[test]
fn parse_hid_prox_fc_cn_raw() {
    let output = pm3_lf_search_output(
        "[+] [H10301] HID Prox H10301 26-bit;  FC: 65  CN: 29334\n\
         [+] raw: 200078BE5E1E"
    );
    let (card_type, data) = parse_lf_search(&output).expect("should parse HID");
    assert_eq!(card_type, CardType::HIDProx);
    assert_eq!(data.decoded.get("facility_code").unwrap(), "65");
    assert_eq!(data.decoded.get("card_number").unwrap(), "29334");
    assert_eq!(data.decoded.get("raw").unwrap(), "200078BE5E1E");
}

#[test]
fn clone_hid_prox_prefers_raw() {
    let output = pm3_lf_search_output(
        "[+] [H10301] HID Prox H10301 26-bit;  FC: 65  CN: 29334\n\
         [+] raw: 200078BE5E1E"
    );
    let (_, data) = parse_lf_search(&output).unwrap();
    let cmd = build_clone_command(&CardType::HIDProx, &data.uid, &data.decoded);
    // Should prefer raw over structured
    assert_eq!(cmd.unwrap(), "lf hid clone -r 200078BE5E1E");
}

#[test]
fn clone_hid_prox_structured_fallback() {
    // No raw available — falls back to structured
    let mut decoded = Fields::new();
    decoded.insert("facility_code".to_string(), "65".to_string());
    decoded.insert("card_number".to_string(), "29334".to_string());
    decoded.insert("format".to_string(), "H10301".to_string());
    let cmd = build_clone_command(&CardType::HIDProx, "FC65:CN29334", &decoded);
    assert_eq!(cmd.unwrap(), "lf hid clone -w H10301 --fc 65 --cn 29334");
}

// =======================================================================
// 3. Indala
// =======================================================================

#[test]
fn parse_indala_raw() {
    let output = pm3_lf_search_output(
        "[+] Indala (len 64)  Raw: A0000000A0000000\n\
         [=] Indala ID: 12345678"
    );
    let (card_type, data) = parse_lf_search(&output).expect("should parse Indala");
    assert_eq!(card_type, CardType::Indala);
    assert_eq!(data.decoded.get("raw").unwrap(), "A0000000A0000000");
}

#[test]
fn clone_indala() {
    let output = pm3_lf_search_output(
        "[+] Indala (len 64)  Raw: A0000000A0000000"
    );
    let (_, data) = parse_lf_search(&output).unwrap();
    let cmd = build_clone_command(&CardType::Indala, &data.uid, &data.decoded);
    assert_eq!(cmd.unwrap(), "lf indala clone --raw A0000000A0000000");
}

// =======================================================================
// 4. AWID
// =======================================================================

#[test]
fn parse_awid() {
    let output = pm3_lf_search_output(
        "[+] AWID 26 bit;  FC: 50  CN: 1234"
    );
    let (card_type, data) = parse_lf_search(&output).expect("should parse AWID");
    assert_eq!(card_type, CardType::AWID);
    assert_eq!(data.decoded.get("facility_code").unwrap(), "50");
    assert_eq!(data.decoded.get("card_number").unwrap(), "1234");
    assert_eq!(data.decoded.get("format").unwrap(), "26");
}

#[test]
fn clone_awid() {
    let output = pm3_lf_search_output(
        "[+] AWID 26 bit;  FC: 50  CN: 1234"
    );
    let (_, data) = parse_lf_search(&output).unwrap();
    let cmd = build_clone_command(&CardType::AWID, &data.uid, &data.decoded);
    assert_eq!(cmd.unwrap(), "lf awid clone --fmt 26 --fc 50 --cn 1234");
}

#[test]
fn parse_awid_real_pm3_output() {
    // Real PM3 output: "AWID - len: 26 FC: 50 Card: 1234 - Wiegand: 26409a4, Raw: 011db288..."
    let output = pm3_lf_search_output(
        "[+] AWID - len: 26 FC: 50 Card: 1234 - Wiegand: 26409a4, Raw: 011db2881474411111111111"
    );
    let (card_type, data) = parse_lf_search(&output).expect("should parse AWID real output");
    assert_eq!(card_type, CardType::AWID);
    assert_eq!(data.decoded.get("facility_code").unwrap(), "50");
    assert_eq!(data.decoded.get("card_number").unwrap(), "1234");
    assert_eq!(data.decoded.get("format").unwrap(), "26");
}

#[test]
fn clone_awid_fails_without_fields() {
    // AWID has no raw fallback
    let decoded = Fields::new();
    let cmd = build_clone_command(&CardType::AWID, "ABCD1234", &decoded);
    assert!(cmd.is_none(), "AWID without FC/CN should return None");
}

// =======================================================================
// 5. IO Prox
// =======================================================================

#[test]
fn parse_ioprox() {
    // Test FC/CN text format (without XSF prefix) — fallback path
    let output = pm3_lf_search_output(
        "[+] IO Prox  FC: 101  CN: 1337"
    );
    let (card_type, data) = parse_lf_search(&output).expect("should parse IOProx FC/CN");
    assert_eq!(card_type, CardType::IOProx);
    assert_eq!(data.decoded.get("facility_code").unwrap(), "101");
    assert_eq!(data.decoded.get("card_number").unwrap(), "1337");
}

#[test]
fn clone_ioprox() {
    // Test FC/CN text format clone (fallback path)
    let output = pm3_lf_search_output(
        "[+] IO Prox  FC: 101  CN: 1337"
    );
    let (_, data) = parse_lf_search(&output).unwrap();
    let cmd = build_clone_command(&CardType::IOProx, &data.uid, &data.decoded);
    assert_eq!(cmd.unwrap(), "lf io clone --vn 0 --fc 101 --cn 1337");
}

#[test]
fn parse_ioprox_real_pm3_output() {
    // Real PM3 output: "IO Prox - XSF(01)65:01337, Raw: 007859603059cdaf ( ok )"
    let output = pm3_lf_search_output(
        "[+] IO Prox - XSF(01)65:01337, Raw: 007859603059cdaf ( ok )"
    );
    let (card_type, data) = parse_lf_search(&output).expect("should parse IOProx XSF");
    assert_eq!(card_type, CardType::IOProx);
    // VN and CN captured as-is from XSF format (leading zeros preserved)
    assert_eq!(data.decoded.get("version").unwrap(), "01");
    // FC 0x65 = 101 decimal
    assert_eq!(data.decoded.get("facility_code").unwrap(), "101");
    // CN from XSF format preserves leading zero: "01337"
    assert_eq!(data.decoded.get("card_number").unwrap(), "01337");
}

#[test]
fn clone_ioprox_real_pm3_output() {
    let output = pm3_lf_search_output(
        "[+] IO Prox - XSF(01)65:01337, Raw: 007859603059cdaf ( ok )"
    );
    let (_, data) = parse_lf_search(&output).unwrap();
    let cmd = build_clone_command(&CardType::IOProx, &data.uid, &data.decoded);
    assert_eq!(cmd.unwrap(), "lf io clone --vn 1 --fc 101 --cn 1337");
}

// =======================================================================
// 6. FDX-B
// =======================================================================

#[test]
fn parse_fdxb() {
    // FDXB_RE uses `.*?` which doesn't span newlines — all fields must be on same line
    let output = pm3_lf_search_output(
        "[+] FDX-B / ISO 11784/11785 - Animal  Country: 999  National ID: 123456789012"
    );
    let (card_type, data) = parse_lf_search(&output).expect("should parse FDX-B");
    assert_eq!(card_type, CardType::FDX_B);
    assert_eq!(data.decoded.get("country").unwrap(), "999");
    assert_eq!(data.decoded.get("national_id").unwrap(), "123456789012");
}

#[test]
fn clone_fdxb() {
    let output = pm3_lf_search_output(
        "[+] FDX-B / ISO 11784/11785 - Animal  Country: 999  National ID: 123456789012"
    );
    let (_, data) = parse_lf_search(&output).unwrap();
    let cmd = build_clone_command(&CardType::FDX_B, &data.uid, &data.decoded);
    assert_eq!(
        cmd.unwrap(),
        "lf fdxb clone --country 999 --national 123456789012"
    );
}

#[test]
fn parse_fdxb_real_pm3_output() {
    // Real PM3 output: multi-line, Country/National on separate lines,
    // but Animal ID has both on one line: "999-123456789012"
    let output = pm3_lf_search_output(
        "[+] FDX-B / ISO 11784/5 Animal\n\
         [+] Animal ID......... 999-123456789012\n\
         [+] National Code..... 123456789012 ( 0x1CBE991A14 )\n\
         [+] Country Code...... 999 - Test range\n\
         [+] Raw............... 28 58 99 7D 3B 9F 00 00 C0 CC 00 00 00"
    );
    let (card_type, data) = parse_lf_search(&output).expect("should parse FDX-B real output");
    assert_eq!(card_type, CardType::FDX_B);
    assert_eq!(data.decoded.get("country").unwrap(), "999");
    assert_eq!(data.decoded.get("national_id").unwrap(), "123456789012");
}

#[test]
fn clone_fdxb_real_pm3_output() {
    let output = pm3_lf_search_output(
        "[+] FDX-B / ISO 11784/5 Animal\n\
         [+] Animal ID......... 999-123456789012\n\
         [+] National Code..... 123456789012 ( 0x1CBE991A14 )\n\
         [+] Country Code...... 999 - Test range"
    );
    let (_, data) = parse_lf_search(&output).unwrap();
    let cmd = build_clone_command(&CardType::FDX_B, &data.uid, &data.decoded);
    assert_eq!(
        cmd.unwrap(),
        "lf fdxb clone --country 999 --national 123456789012"
    );
}

// =======================================================================
// 7. Paradox
// =======================================================================

#[test]
fn parse_paradox_fc_cn() {
    let output = pm3_lf_search_output(
        "[+] Paradox - FC: 96  Card: 40426  Raw: 0F0A00009E3A"
    );
    let (card_type, data) = parse_lf_search(&output).expect("should parse Paradox");
    assert_eq!(card_type, CardType::Paradox);
    assert_eq!(data.decoded.get("facility_code").unwrap(), "96");
    assert_eq!(data.decoded.get("card_number").unwrap(), "40426");
    assert_eq!(data.decoded.get("raw").unwrap(), "0F0A00009E3A");
}

#[test]
fn clone_paradox() {
    let output = pm3_lf_search_output(
        "[+] Paradox - FC: 96  Card: 40426  Raw: 0F0A00009E3A"
    );
    let (_, data) = parse_lf_search(&output).unwrap();
    let cmd = build_clone_command(&CardType::Paradox, &data.uid, &data.decoded);
    // Paradox prefers FC/CN
    assert_eq!(cmd.unwrap(), "lf paradox clone --fc 96 --cn 40426");
}

// =======================================================================
// 8. Presco
// =======================================================================

#[test]
fn parse_presco_hex() {
    let output = pm3_lf_search_output(
        "[+] Presco - Card: 001CA7E6A"
    );
    let (card_type, data) = parse_lf_search(&output).expect("should parse Presco");
    assert_eq!(card_type, CardType::Presco);
    assert_eq!(data.decoded.get("hex").unwrap(), "001CA7E6A");
}

#[test]
fn parse_presco_site_user() {
    let output = pm3_lf_search_output(
        "[+] Presco - Site: 42  User: 1337  Card: 001CA7E6A"
    );
    let (card_type, data) = parse_lf_search(&output).expect("should parse Presco SC/UC");
    assert_eq!(card_type, CardType::Presco);
    assert_eq!(data.decoded.get("site_code").unwrap(), "42");
    assert_eq!(data.decoded.get("user_code").unwrap(), "1337");
}

#[test]
fn clone_presco_hex() {
    let mut decoded = Fields::new();
    decoded.insert("hex".to_string(), "001CA7E6A".to_string());
    let cmd = build_clone_command(&CardType::Presco, "001CA7E6A", &decoded);
    assert_eq!(cmd.unwrap(), "lf presco clone -d 001CA7E6A");
}

#[test]
fn clone_presco_site_user() {
    let mut decoded = Fields::new();
    decoded.insert("site_code".to_string(), "42".to_string());
    decoded.insert("user_code".to_string(), "1337".to_string());
    let cmd = build_clone_command(&CardType::Presco, "SC42:UC1337", &decoded);
    assert_eq!(cmd.unwrap(), "lf presco clone --sitecode 42 --usercode 1337");
}

#[test]
fn parse_presco_real_pm3_output() {
    // Real PM3: "Presco Site code: 0 User code: 57470 Full code: 0031E07E Raw: ..."
    let output = pm3_lf_search_output(
        "[+] Presco Site code: 0 User code: 57470 Full code: 0031E07E Raw: 10D0000000000000000000000031E07E"
    );
    let (card_type, data) = parse_lf_search(&output).expect("should parse Presco real output");
    assert_eq!(card_type, CardType::Presco);
    assert_eq!(data.decoded.get("site_code").unwrap(), "0");
    assert_eq!(data.decoded.get("user_code").unwrap(), "57470");
}

#[test]
fn clone_presco_real_pm3_output() {
    let output = pm3_lf_search_output(
        "[+] Presco Site code: 0 User code: 57470 Full code: 0031E07E Raw: 10D0000000000000000000000031E07E"
    );
    let (_, data) = parse_lf_search(&output).unwrap();
    let cmd = build_clone_command(&CardType::Presco, &data.uid, &data.decoded);
    assert_eq!(cmd.unwrap(), "lf presco clone --sitecode 0 --usercode 57470");
}

// =======================================================================
// 9. Viking
// =======================================================================

#[test]
fn parse_viking_raw() {
    let output = pm3_lf_search_output(
        "[+] Viking tag  Raw: 1A2B3C4D"
    );
    let (card_type, data) = parse_lf_search(&output).expect("should parse Viking");
    assert_eq!(card_type, CardType::Viking);
    assert_eq!(data.uid, "1A2B3C4D");
}

#[test]
fn parse_viking_id() {
    let output = pm3_lf_search_output(
        "[+] Viking Card ID: 12345\n\
         [=] Viking Raw: 1A2B3C4D"
    );
    let (card_type, data) = parse_lf_search(&output).expect("should parse Viking ID");
    assert_eq!(card_type, CardType::Viking);
    assert_eq!(data.decoded.get("card_id").unwrap(), "12345");
    assert_eq!(data.decoded.get("raw").unwrap(), "1A2B3C4D");
}

#[test]
fn clone_viking() {
    let cmd = build_clone_command(
        &CardType::Viking,
        "1A2B3C4D",
        &Fields::new(),
    );
    assert_eq!(cmd.unwrap(), "lf viking clone --cn 1A2B3C4D");
}

#[test]
fn parse_viking_real_pm3_output() {
    // Real PM3: "Viking - Card 1A2B3C4D, Raw: F200001A2B3C4D1A"
    let output = pm3_lf_search_output(
        "[+] Viking - Card 1A2B3C4D, Raw: F200001A2B3C4D1A"
    );
    let (card_type, data) = parse_lf_search(&output).expect("should parse Viking real output");
    assert_eq!(card_type, CardType::Viking);
    assert_eq!(data.decoded.get("card_id").unwrap(), "1A2B3C4D");
    assert_eq!(data.decoded.get("raw").unwrap(), "F200001A2B3C4D1A");
}

// =======================================================================
// 10. Pyramid
// =======================================================================

#[test]
fn parse_pyramid_fc_cn() {
    let output = pm3_lf_search_output(
        "[+] Pyramid - len: 26, FC: 123, Card: 4567, Raw: AABBCCDD"
    );
    let (card_type, data) = parse_lf_search(&output).expect("should parse Pyramid");
    assert_eq!(card_type, CardType::Pyramid);
    assert_eq!(data.decoded.get("facility_code").unwrap(), "123");
    assert_eq!(data.decoded.get("card_number").unwrap(), "4567");
    assert_eq!(data.decoded.get("raw").unwrap(), "AABBCCDD");
}

#[test]
fn clone_pyramid() {
    let output = pm3_lf_search_output(
        "[+] Pyramid - len: 26, FC: 123, Card: 4567, Raw: AABBCCDD"
    );
    let (_, data) = parse_lf_search(&output).unwrap();
    let cmd = build_clone_command(&CardType::Pyramid, &data.uid, &data.decoded);
    assert_eq!(cmd.unwrap(), "lf pyramid clone --fc 123 --cn 4567");
}

// =======================================================================
// 11. Nedap
// =======================================================================

#[test]
fn parse_nedap() {
    let output = pm3_lf_search_output(
        "[+] Nedap - Card: 12345  Subtype: 1"
    );
    let (card_type, data) = parse_lf_search(&output).expect("should parse Nedap");
    assert_eq!(card_type, CardType::Nedap);
    assert_eq!(data.decoded.get("card_number").unwrap(), "12345");
    assert_eq!(data.decoded.get("subtype").unwrap(), "1");
}

#[test]
fn parse_nedap_no_subtype() {
    let output = pm3_lf_search_output(
        "[+] NEDAP - Card: 99999"
    );
    let (card_type, data) = parse_lf_search(&output).expect("should parse Nedap no-sub");
    assert_eq!(card_type, CardType::Nedap);
    assert_eq!(data.decoded.get("card_number").unwrap(), "99999");
    assert_eq!(data.decoded.get("subtype").unwrap(), "5"); // PM3 default subtype is 5
}

#[test]
fn parse_nedap_real_pm3_output() {
    // Real PM3: "NEDAP (64b) - ID: 12345 subtype: 1 customer code: 101 / 0x065 Raw: FF820CA58960F8F3"
    let output = pm3_lf_search_output(
        "[+] NEDAP (64b) - ID: 12345 subtype: 1 customer code: 101 / 0x065 Raw: FF820CA58960F8F3"
    );
    let (card_type, data) = parse_lf_search(&output).expect("should parse Nedap real output");
    assert_eq!(card_type, CardType::Nedap);
    assert_eq!(data.decoded.get("card_number").unwrap(), "12345");
    assert_eq!(data.decoded.get("subtype").unwrap(), "1");
    assert_eq!(data.decoded.get("customer_code").unwrap(), "101");
}

#[test]
fn clone_nedap() {
    let mut decoded = Fields::new();
    decoded.insert("subtype".to_string(), "1".to_string());
    decoded.insert("customer_code".to_string(), "101".to_string());
    decoded.insert("card_number".to_string(), "12345".to_string());
    let cmd = build_clone_command(&CardType::Nedap, "ST1:CC101:ID12345", &decoded);
    assert_eq!(cmd.unwrap(), "lf nedap clone --st 1 --cc 101 --id 12345");
}

#[test]
fn clone_nedap_real_pm3_output() {
    let output = pm3_lf_search_output(
        "[+] NEDAP (64b) - ID: 12345 subtype: 1 customer code: 101 / 0x065 Raw: FF820CA58960F8F3"
    );
    let (_, data) = parse_lf_search(&output).unwrap();
    let cmd = build_clone_command(&CardType::Nedap, &data.uid, &data.decoded);
    assert_eq!(cmd.unwrap(), "lf nedap clone --st 1 --cc 101 --id 12345");
}

#[test]
fn clone_nedap_fails_without_fields() {
    let decoded = Fields::new();
    let cmd = build_clone_command(&CardType::Nedap, "ABCD1234", &decoded);
    assert!(cmd.is_none(), "Nedap without required fields should return None");
}

// =======================================================================
// 12. GProxII
// =======================================================================

#[test]
fn parse_gproxii() {
    // Synthetic: old-style format with FC/Card
    let output = pm3_lf_search_output(
        "[+] G-Prox-II - Len: 26 FC: 10 Card: 1234 xor: 0"
    );
    let (card_type, data) = parse_lf_search(&output).expect("should parse GProxII");
    assert_eq!(card_type, CardType::GProxII);
    assert_eq!(data.decoded.get("facility_code").unwrap(), "10");
    assert_eq!(data.decoded.get("card_number").unwrap(), "1234");
}

#[test]
fn parse_gproxii_real_pm3_output() {
    // Real PM3: "G-Prox-II - Len: 26 FC: 123 Card: 1234 xor: 141, Raw: fac2a38c2b081af008eb0ac2"
    let output = pm3_lf_search_output(
        "[+] G-Prox-II - Len: 26 FC: 123 Card: 1234 xor: 141, Raw: fac2a38c2b081af008eb0ac2\n\
         \n\
         [+] Valid Guardall G-Prox II ID found!"
    );
    let (card_type, data) = parse_lf_search(&output).expect("should parse GProxII real output");
    assert_eq!(card_type, CardType::GProxII);
    assert_eq!(data.decoded.get("facility_code").unwrap(), "123");
    assert_eq!(data.decoded.get("card_number").unwrap(), "1234");
    assert_eq!(data.decoded.get("xor").unwrap(), "141");
    assert_eq!(data.decoded.get("format").unwrap(), "26");
}

#[test]
fn clone_gproxii() {
    let mut decoded = Fields::new();
    decoded.insert("facility_code".to_string(), "123".to_string());
    decoded.insert("card_number".to_string(), "1234".to_string());
    decoded.insert("xor".to_string(), "141".to_string());
    decoded.insert("format".to_string(), "26".to_string());
    let cmd = build_clone_command(&CardType::GProxII, "FC123:CN1234", &decoded);
    assert_eq!(cmd.unwrap(), "lf gproxii clone --xor 141 --fmt 26 --fc 123 --cn 1234");
}

#[test]
fn clone_gproxii_real_pm3_output() {
    let output = pm3_lf_search_output(
        "[+] G-Prox-II - Len: 26 FC: 123 Card: 1234 xor: 141, Raw: fac2a38c2b081af008eb0ac2\n\
         \n\
         [+] Valid Guardall G-Prox II ID found!"
    );
    let (_, data) = parse_lf_search(&output).unwrap();
    let cmd = build_clone_command(&CardType::GProxII, &data.uid, &data.decoded);
    assert_eq!(cmd.unwrap(), "lf gproxii clone --xor 141 --fmt 26 --fc 123 --cn 1234");
}

#[test]
fn clone_gproxii_fails_without_fields() {
    let decoded = Fields::new();
    let cmd = build_clone_command(&CardType::GProxII, "ABCD1234", &decoded);
    assert!(cmd.is_none(), "GProxII without fc+card_number should return None");
}

// =======================================================================
// 13. Keri
// =======================================================================

#[test]
fn parse_keri_internal() {
    // Synthetic: old-style Keri raw format
    let output = pm3_lf_search_output(
        "[+] Keri - Internal Raw: 0000000012345"
    );
    let (card_type, data) = parse_lf_search(&output).expect("should parse Keri");
    assert_eq!(card_type, CardType::Keri);
    assert_eq!(data.decoded.get("keri_type").unwrap(), "i");
}

#[test]
fn parse_keri_ms() {
    let output = pm3_lf_search_output(
        "[+] Keri - MS Raw: ABCDEF1234567"
    );
    let (card_type, data) = parse_lf_search(&output).expect("should parse Keri MS");
    assert_eq!(card_type, CardType::Keri);
    assert_eq!(data.decoded.get("keri_type").unwrap(), "m");
}

#[test]
fn parse_keri_real_pm3_output() {
    // Real PM3: "KERI - Internal ID: 12345, Raw: E000000080003039"
    //           "Descrambled MS - FC: 1 Card: 12544"
    let output = pm3_lf_search_output(
        "[+] KERI - Internal ID: 12345, Raw: E000000080003039\n\
         [+] Descrambled MS - FC: 1 Card: 12544"
    );
    let (card_type, data) = parse_lf_search(&output).expect("should parse Keri real output");
    assert_eq!(card_type, CardType::Keri);
    assert_eq!(data.decoded.get("keri_type").unwrap(), "i");
    assert_eq!(data.decoded.get("card_number").unwrap(), "12345");
    assert_eq!(data.uid, "12345");
}

#[test]
fn clone_keri_internal() {
    let mut decoded = Fields::new();
    decoded.insert("keri_type".to_string(), "i".to_string());
    decoded.insert("card_number".to_string(), "12345".to_string());
    let cmd = build_clone_command(&CardType::Keri, "12345", &decoded);
    assert_eq!(cmd.unwrap(), "lf keri clone -t i --cn 12345");
}

#[test]
fn clone_keri_real_pm3_output() {
    let output = pm3_lf_search_output(
        "[+] KERI - Internal ID: 12345, Raw: E000000080003039\n\
         [+] Descrambled MS - FC: 1 Card: 12544"
    );
    let (_, data) = parse_lf_search(&output).unwrap();
    let cmd = build_clone_command(&CardType::Keri, &data.uid, &data.decoded);
    assert_eq!(cmd.unwrap(), "lf keri clone -t i --cn 12345");
}

// =======================================================================
// 14. Gallagher
// =======================================================================

#[test]
fn parse_gallagher_single_line() {
    let output = pm3_lf_search_output(
        "[+] Gallagher - Region Code: 1  Facility Code: 22  Card Number: 3333  Issue Level: 1"
    );
    let (card_type, data) = parse_lf_search(&output).expect("should parse Gallagher");
    assert_eq!(card_type, CardType::Gallagher);
    assert_eq!(data.decoded.get("region_code").unwrap(), "1");
    assert_eq!(data.decoded.get("facility_code").unwrap(), "22");
    assert_eq!(data.decoded.get("card_number").unwrap(), "3333");
    assert_eq!(data.decoded.get("issue_level").unwrap(), "1");
}

#[test]
fn parse_gallagher_multi_line() {
    let output = pm3_lf_search_output(
        "[+] Gallagher Tag Detected\n\
         [=]   Region Code: 5\n\
         [=]   Facility Code: 100\n\
         [=]   Card Number: 54321\n\
         [=]   Issue Level: 2"
    );
    let (card_type, data) = parse_lf_search(&output).expect("should parse Gallagher multi-line");
    assert_eq!(card_type, CardType::Gallagher);
    assert_eq!(data.decoded.get("region_code").unwrap(), "5");
    assert_eq!(data.decoded.get("facility_code").unwrap(), "100");
    assert_eq!(data.decoded.get("card_number").unwrap(), "54321");
    assert_eq!(data.decoded.get("issue_level").unwrap(), "2");
}

#[test]
fn clone_gallagher() {
    let mut decoded = Fields::new();
    decoded.insert("region_code".to_string(), "1".to_string());
    decoded.insert("facility_code".to_string(), "22".to_string());
    decoded.insert("card_number".to_string(), "3333".to_string());
    decoded.insert("issue_level".to_string(), "1".to_string());
    let cmd = build_clone_command(&CardType::Gallagher, "RC1:FC22:CN3333:IL1", &decoded);
    assert_eq!(
        cmd.unwrap(),
        "lf gallagher clone --rc 1 --fc 22 --cn 3333 --il 1"
    );
}

#[test]
fn clone_gallagher_fails_without_fields() {
    let decoded = Fields::new();
    let cmd = build_clone_command(&CardType::Gallagher, "ABCD1234", &decoded);
    assert!(cmd.is_none(), "Gallagher without all 4 fields should return None");
}

#[test]
fn parse_gallagher_real_pm3_output() {
    // Real PM3 v4.20728 `lf search` output — note "Region:" (no "Code"),
    // "Facility:" (no "Code"), "Card No.:" (not "Card Number:")
    let output = pm3_lf_search_output(
        "[+] GALLAGHER - Region: 1 Facility: 22 Card No.: 3333 Issue Level: 1\n\
         [+]    Displayed: B22\n\
         [+]    Raw: 7FEAA35854B86B0D1A8CB120\n\
         [+]    CRC: 20 - 20 (ok)\n\
         [+] Valid GALLAGHER ID found!",
    );
    let (card_type, data) = parse_lf_search(&output).expect("should parse real GALLAGHER");
    assert_eq!(card_type, CardType::Gallagher);
    assert_eq!(data.decoded.get("region_code").unwrap(), "1");
    assert_eq!(data.decoded.get("facility_code").unwrap(), "22");
    assert_eq!(data.decoded.get("card_number").unwrap(), "3333");
    assert_eq!(data.decoded.get("issue_level").unwrap(), "1");
}

#[test]
fn clone_gallagher_real_pm3_output() {
    // Round-trip: parse real PM3 output → build clone command
    let output = pm3_lf_search_output(
        "[+] GALLAGHER - Region: 1 Facility: 22 Card No.: 3333 Issue Level: 1",
    );
    let (card_type, data) = parse_lf_search(&output).expect("parse");
    let cmd = build_clone_command(&card_type, &data.uid, &data.decoded);
    assert_eq!(
        cmd.unwrap(),
        "lf gallagher clone --rc 1 --fc 22 --cn 3333 --il 1"
    );
}

// =======================================================================
// 15. PAC/Stanley
// =======================================================================

#[test]
fn parse_pac_card_number() {
    let output = pm3_lf_search_output(
        "[+] PAC/Stanley tag found\n\
         [=] PAC/Stanley Card: 16720198"
    );
    let (card_type, data) = parse_lf_search(&output).expect("should parse PAC");
    assert_eq!(card_type, CardType::PAC);
    assert_eq!(data.decoded.get("card_number").unwrap(), "16720198");
}

#[test]
fn parse_pac_raw() {
    let output = pm3_lf_search_output(
        "[+] PAC/Stanley tag found\n\
         [=] PAC/Stanley Raw: FF2049AABBCCDD"
    );
    let (card_type, data) = parse_lf_search(&output).expect("should parse PAC raw");
    assert_eq!(card_type, CardType::PAC);
    assert_eq!(data.decoded.get("raw").unwrap(), "FF2049AABBCCDD");
}

#[test]
fn clone_pac_with_raw() {
    let mut decoded = Fields::new();
    decoded.insert("raw".to_string(), "FF2049AABBCCDD".to_string());
    let cmd = build_clone_command(&CardType::PAC, "FF2049", &decoded);
    assert_eq!(cmd.unwrap(), "lf pac clone --raw FF2049AABBCCDD");
}

#[test]
fn parse_pac_real_pm3_output() {
    // Real PM3 v4.20728 `lf search` output — Card ID is hex, not decimal
    let output = pm3_lf_search_output(
        "[+] PAC/Stanley - Card: CD4F5552, Raw: FF2049906D8511C593155B56D5B2649F",
    );
    let (card_type, data) = parse_lf_search(&output).expect("should parse real PAC");
    assert_eq!(card_type, CardType::PAC);
    assert_eq!(data.decoded.get("card_number").unwrap(), "CD4F5552");
    assert_eq!(
        data.decoded.get("raw").unwrap(),
        "FF2049906D8511C593155B56D5B2649F"
    );
}

#[test]
fn clone_pac_real_pm3_output() {
    // Round-trip: parse → clone. Builder prefers raw when available
    let output = pm3_lf_search_output(
        "[+] PAC/Stanley - Card: CD4F5552, Raw: FF2049906D8511C593155B56D5B2649F",
    );
    let (card_type, data) = parse_lf_search(&output).expect("parse");
    let cmd = build_clone_command(&card_type, &data.uid, &data.decoded);
    assert_eq!(
        cmd.unwrap(),
        "lf pac clone --raw FF2049906D8511C593155B56D5B2649F"
    );
}

// =======================================================================
// 16. Noralsy
// =======================================================================

#[test]
fn parse_noralsy_card_raw() {
    let output = pm3_lf_search_output(
        "[+] Noralsy - Card: 112233  Year: 2023\n\
         [=] Noralsy Raw: 002C180000000000"
    );
    let (card_type, data) = parse_lf_search(&output).expect("should parse Noralsy");
    assert_eq!(card_type, CardType::Noralsy);
    assert_eq!(data.decoded.get("card_number").unwrap(), "112233");
    assert_eq!(data.decoded.get("year").unwrap(), "2023");
    assert_eq!(data.decoded.get("raw").unwrap(), "002C180000000000");
}

#[test]
fn clone_noralsy() {
    let mut decoded = Fields::new();
    decoded.insert("card_number".to_string(), "112233".to_string());
    decoded.insert("year".to_string(), "2023".to_string());
    let cmd = build_clone_command(&CardType::Noralsy, "112233", &decoded);
    assert_eq!(cmd.unwrap(), "lf noralsy clone --cn 112233 -y 2023");
}

#[test]
fn parse_noralsy_real_pm3_output() {
    // Real PM3 v4.20728 `lf search` output
    let output = pm3_lf_search_output(
        "[+] Noralsy - Card: 112233, Year: 2000, Raw: BB0214FF0110002233070000",
    );
    let (card_type, data) = parse_lf_search(&output).expect("should parse real Noralsy");
    assert_eq!(card_type, CardType::Noralsy);
    assert_eq!(data.decoded.get("card_number").unwrap(), "112233");
    assert_eq!(data.decoded.get("year").unwrap(), "2000");
    assert_eq!(
        data.decoded.get("raw").unwrap(),
        "BB0214FF0110002233070000"
    );
}

#[test]
fn clone_noralsy_real_pm3_output() {
    // Round-trip: parse → clone — uses --cn (not --raw, which doesn't exist)
    let output = pm3_lf_search_output(
        "[+] Noralsy - Card: 112233, Year: 2000, Raw: BB0214FF0110002233070000",
    );
    let (card_type, data) = parse_lf_search(&output).expect("parse");
    let cmd = build_clone_command(&card_type, &data.uid, &data.decoded);
    assert_eq!(cmd.unwrap(), "lf noralsy clone --cn 112233 -y 2000");
}

// =======================================================================
// 17. Jablotron
// =======================================================================

#[test]
fn parse_jablotron() {
    let output = pm3_lf_search_output(
        "[+] Jablotron - Card: 112233"
    );
    let (card_type, data) = parse_lf_search(&output).expect("should parse Jablotron");
    assert_eq!(card_type, CardType::Jablotron);
    assert_eq!(data.decoded.get("card_number").unwrap(), "112233");
}

#[test]
fn clone_jablotron() {
    let mut decoded = Fields::new();
    decoded.insert("card_number".to_string(), "112233".to_string());
    let cmd = build_clone_command(&CardType::Jablotron, "112233", &decoded);
    assert_eq!(cmd.unwrap(), "lf jablotron clone --cn 112233");
}

#[test]
fn parse_jablotron_real_pm3_output() {
    // Real PM3 v4.20728 `lf search` output — Card is internal ID (not FullCode)
    let output = pm3_lf_search_output(
        "[+] Jablotron - Card: 1b669, Raw: FFFF00001122335C\n\
         [+] Printed: 1410-00-0011-2233",
    );
    let (card_type, data) = parse_lf_search(&output).expect("should parse real Jablotron");
    assert_eq!(card_type, CardType::Jablotron);
    assert_eq!(data.decoded.get("card_number").unwrap(), "1B669");
}

#[test]
fn clone_jablotron_real_pm3_output() {
    // Round-trip: parse → clone
    let output = pm3_lf_search_output(
        "[+] Jablotron - Card: 1b669, Raw: FFFF00001122335C",
    );
    let (card_type, data) = parse_lf_search(&output).expect("parse");
    let cmd = build_clone_command(&card_type, &data.uid, &data.decoded);
    assert_eq!(cmd.unwrap(), "lf jablotron clone --cn 1B669");
}

// =======================================================================
// 18. SecuraKey
// =======================================================================

#[test]
fn parse_securakey() {
    let output = pm3_lf_search_output(
        "[+] SecuraKey tag found\n\
         [=] Securakey Raw: 7FCB400001ADEA5344300000"
    );
    let (card_type, data) = parse_lf_search(&output).expect("should parse SecuraKey");
    assert_eq!(card_type, CardType::SecuraKey);
    assert_eq!(data.decoded.get("raw").unwrap(), "7FCB400001ADEA5344300000");
}

#[test]
fn clone_securakey() {
    let mut decoded = Fields::new();
    decoded.insert("raw".to_string(), "7FCB400001ADEA5344300000".to_string());
    let cmd = build_clone_command(&CardType::SecuraKey, "7FCB400001ADEA5344300000", &decoded);
    assert_eq!(cmd.unwrap(), "lf securakey clone --raw 7FCB400001ADEA5344300000");
}

#[test]
fn parse_securakey_real_pm3_output() {
    // Real PM3 v4.20728 `lf search` output — includes FC/Card/len before Raw
    let output = pm3_lf_search_output(
        "[+] Securakey - len: 26 FC: 0x35 Card: 64169, Raw: 7FCB400001ADEA5344300000\n\
         [+] Wiegand: 006BF553 parity ( ok )",
    );
    let (card_type, data) = parse_lf_search(&output).expect("should parse real Securakey");
    assert_eq!(card_type, CardType::SecuraKey);
    assert_eq!(
        data.decoded.get("raw").unwrap(),
        "7FCB400001ADEA5344300000"
    );
}

#[test]
fn clone_securakey_real_pm3_output() {
    // Round-trip: parse → clone
    let output = pm3_lf_search_output(
        "[+] Securakey - len: 26 FC: 0x35 Card: 64169, Raw: 7FCB400001ADEA5344300000",
    );
    let (card_type, data) = parse_lf_search(&output).expect("parse");
    let cmd = build_clone_command(&card_type, &data.uid, &data.decoded);
    assert_eq!(
        cmd.unwrap(),
        "lf securakey clone --raw 7FCB400001ADEA5344300000"
    );
}

// =======================================================================
// 19. Visa2000
// =======================================================================

#[test]
fn parse_visa2000() {
    let output = pm3_lf_search_output(
        "[+] Visa2000 - Card: 112233"
    );
    let (card_type, data) = parse_lf_search(&output).expect("should parse Visa2000");
    assert_eq!(card_type, CardType::Visa2000);
    assert_eq!(data.decoded.get("card_number").unwrap(), "112233");
}

#[test]
fn clone_visa2000() {
    let mut decoded = Fields::new();
    decoded.insert("card_number".to_string(), "112233".to_string());
    let cmd = build_clone_command(&CardType::Visa2000, "112233", &decoded);
    assert_eq!(cmd.unwrap(), "lf visa2000 clone --cn 112233");
}

#[test]
fn clone_visa2000_fails_without_card_number() {
    let decoded = Fields::new();
    let cmd = build_clone_command(&CardType::Visa2000, "ABCD1234", &decoded);
    assert!(cmd.is_none(), "Visa2000 without numeric card_number should return None");
}

#[test]
fn parse_visa2000_real_pm3_output() {
    // Real PM3 v4.20728 `lf search` output
    let output = pm3_lf_search_output(
        "[+] Visa2000 - Card 112233, Raw: 564953320001B66900000183",
    );
    let (card_type, data) = parse_lf_search(&output).expect("should parse real Visa2000");
    assert_eq!(card_type, CardType::Visa2000);
    assert_eq!(data.decoded.get("card_number").unwrap(), "112233");
}

#[test]
fn clone_visa2000_real_pm3_output() {
    // Round-trip: parse → clone
    let output = pm3_lf_search_output(
        "[+] Visa2000 - Card 112233, Raw: 564953320001B66900000183",
    );
    let (card_type, data) = parse_lf_search(&output).expect("parse");
    let cmd = build_clone_command(&card_type, &data.uid, &data.decoded);
    assert_eq!(cmd.unwrap(), "lf visa2000 clone --cn 112233");
}

// =======================================================================
// 20. Motorola
// =======================================================================

#[test]
fn parse_motorola() {
    let output = pm3_lf_search_output(
        "[+] Motorola tag found\n\
         [=] Motorola Raw: 0000000100000000"
    );
    let (card_type, data) = parse_lf_search(&output).expect("should parse Motorola");
    assert_eq!(card_type, CardType::Motorola);
    assert_eq!(data.decoded.get("raw").unwrap(), "0000000100000000");
}

#[test]
fn clone_motorola() {
    let mut decoded = Fields::new();
    decoded.insert("raw".to_string(), "0000000100000000".to_string());
    let cmd = build_clone_command(&CardType::Motorola, "0000000100000000", &decoded);
    assert_eq!(cmd.unwrap(), "lf motorola clone --raw 0000000100000000");
}

// =======================================================================
// 21. IDTECK
// =======================================================================

#[test]
fn parse_idteck() {
    let output = pm3_lf_search_output(
        "[+] IDTECK tag found\n\
         [=] IDTECK Raw: 4944544B351FBE4B"
    );
    let (card_type, data) = parse_lf_search(&output).expect("should parse IDTECK");
    assert_eq!(card_type, CardType::IDTECK);
    assert_eq!(data.decoded.get("raw").unwrap(), "4944544B351FBE4B");
}

#[test]
fn clone_idteck() {
    let mut decoded = Fields::new();
    decoded.insert("raw".to_string(), "4944544B351FBE4B".to_string());
    let cmd = build_clone_command(&CardType::IDTECK, "4944544B351FBE4B", &decoded);
    assert_eq!(cmd.unwrap(), "lf idteck clone --raw 4944544B351FBE4B");
}

#[test]
fn parse_idteck_real_pm3_output() {
    // Real PM3 v4.20728 `lf search` output — includes Card ID decimal + hex + Raw
    let output = pm3_lf_search_output(
        "[+] IDTECK Tag Found: Card ID 4963871 ( 0x4BBE1F ) Raw: 4944544B351FBE4B  chksum 0x35 ( fail )\n\
         [+] [H10301  ] HID H10301 26-bit                FC: 37  CN: 57103  parity ( ok )",
    );
    let (card_type, data) = parse_lf_search(&output).expect("should parse real IDTECK");
    assert_eq!(card_type, CardType::IDTECK);
    assert_eq!(
        data.decoded.get("raw").unwrap(),
        "4944544B351FBE4B"
    );
}

#[test]
fn clone_idteck_real_pm3_output() {
    // Round-trip: parse → clone
    let output = pm3_lf_search_output(
        "[+] IDTECK Tag Found: Card ID 4963871 ( 0x4BBE1F ) Raw: 4944544B351FBE4B  chksum 0x35 ( fail )",
    );
    let (card_type, data) = parse_lf_search(&output).expect("parse");
    let cmd = build_clone_command(&card_type, &data.uid, &data.decoded);
    assert_eq!(
        cmd.unwrap(),
        "lf idteck clone --raw 4944544B351FBE4B"
    );
}

// =======================================================================
// 22. NexWatch
// =======================================================================

#[test]
fn parse_nexwatch_raw() {
    let output = pm3_lf_search_output(
        "[+] NexWatch tag found\n\
         [=] NexWatch Raw: 5600000000213C9F8F150000"
    );
    let (card_type, data) = parse_lf_search(&output).expect("should parse NexWatch");
    assert_eq!(card_type, CardType::NexWatch);
    assert_eq!(data.decoded.get("raw").unwrap(), "5600000000213C9F8F150000");
}

#[test]
fn parse_nexwatch_id_and_raw() {
    let output = pm3_lf_search_output(
        "[+] NexWatch tag found\n\
         [=] NXT ID: 31337\n\
         [=] NexWatch Raw: 5600000000213C9F8F150000"
    );
    let (card_type, data) = parse_lf_search(&output).expect("should parse NexWatch ID+raw");
    assert_eq!(card_type, CardType::NexWatch);
    assert_eq!(data.decoded.get("card_id").unwrap(), "31337");
    assert_eq!(data.decoded.get("raw").unwrap(), "5600000000213C9F8F150000");
}

#[test]
fn clone_nexwatch() {
    let cmd = build_clone_command(
        &CardType::NexWatch,
        "5600000000213C9F8F150000",
        &Fields::new(),
    );
    assert_eq!(
        cmd.unwrap(),
        "lf nexwatch clone --raw 5600000000213C9F8F150000"
    );
}

#[test]
fn parse_nexwatch_real_pm3_output() {
    // Real PM3 v4.20728 `lf search` output — multi-line, 88bit id, standalone Raw line
    let output = pm3_lf_search_output(
        "[+]  NexWatch raw id : 0x40c00080\n\
         [+]      fingerprint : Quadrakey\n\
         [+]         88bit id : 521512301 (0x1f15a56d)\n\
         [+]             mode : 1\n\
         [=]  Raw : 5600000000213C9F8F150C00",
    );
    let (card_type, data) = parse_lf_search(&output).expect("should parse real NexWatch");
    assert_eq!(card_type, CardType::NexWatch);
    assert_eq!(data.decoded.get("card_id").unwrap(), "521512301");
    assert_eq!(
        data.decoded.get("raw").unwrap(),
        "5600000000213C9F8F150C00"
    );
}

#[test]
fn clone_nexwatch_real_pm3_output() {
    // Round-trip: parse → clone
    let output = pm3_lf_search_output(
        "[+]  NexWatch raw id : 0x40c00080\n\
         [+]         88bit id : 521512301 (0x1f15a56d)\n\
         [=]  Raw : 5600000000213C9F8F150C00",
    );
    let (card_type, data) = parse_lf_search(&output).expect("parse");
    let cmd = build_clone_command(&card_type, &data.uid, &data.decoded);
    assert_eq!(
        cmd.unwrap(),
        "lf nexwatch clone --raw 5600000000213C9F8F150C00"
    );
}

// =======================================================================
// Non-cloneable LF types (detection only)
// =======================================================================

#[test]
fn parse_cotag() {
    let output = pm3_lf_search_output("[+] COTAG Found");
    let (card_type, _) = parse_lf_search(&output).expect("should detect COTAG");
    assert_eq!(card_type, CardType::COTAG);
    assert!(!card_type.is_cloneable());
}

#[test]
fn parse_em4x50() {
    let output = pm3_lf_search_output("[+] EM4x50 chip detected");
    let (card_type, _) = parse_lf_search(&output).expect("should detect EM4x50");
    assert_eq!(card_type, CardType::EM4x50);
    assert!(!card_type.is_cloneable());
}

#[test]
fn parse_hitag() {
    let output = pm3_lf_search_output("[+] Hitag 2 detected");
    let (card_type, _) = parse_lf_search(&output).expect("should detect Hitag");
    assert_eq!(card_type, CardType::Hitag);
    assert!(!card_type.is_cloneable());
}

#[test]
fn clone_non_cloneable_returns_none() {
    let decoded = Fields::new();
    assert!(build_clone_command(&CardType::COTAG, "COTAG", &decoded).is_none());
    assert!(build_clone_command(&CardType::EM4x50, "EM4x50", &decoded).is_none());
    assert!(build_clone_command(&CardType::Hitag, "Hitag", &decoded).is_none());
}

// =======================================================================
// Edge cases
// =======================================================================

#[test]
fn parse_no_tag_found() {
    let output = "[=] No known 125/134 kHz tags found!";
    assert!(parse_lf_search(output).is_none());
}

#[test]
fn parse_empty_input() {
    assert!(parse_lf_search("").is_none());
}

#[test]
fn parse_ansi_stripped() {
    let output = "\x1b[33m[+] EM 410x ID 0F00112233\x1b[0m";
    let (card_type, data) = parse_lf_search(output).expect("should strip ANSI");
    assert_eq!(card_type, CardType::EM4100);
    assert_eq!(data.uid, "0F00112233");
}

#[test]
fn clone_rejects_invalid_uid() {
    let decoded = Fields::new();
    // Semicolons, spaces — injection attempts
    assert!(build_clone_command(&CardType::EM4100, "0F00; rm -rf /", &decoded).is_none());
    assert!(build_clone_command(&CardType::EM4100, "", &decoded).is_none());
}

// =======================================================================
// T5577 detection
// =======================================================================

#[test]
fn parse_t5577_detect_basic() {
    let output = "\
        [=] Chip type......... T55x7\n\
        [=] Modulation........ ASK/Manchester\n\
        [=] Bit Rate.......... RF/64\n\
        [=] Block0............ 00148040\n\
        [=] Password set...... No";
    let status = parse_t5577_detect(output);
    assert!(status.detected);
    assert_eq!(status.chip_type, "T55x7");
    assert!(!status.password_set);
    assert_eq!(status.block0.unwrap(), "00148040");
    assert_eq!(status.modulation.unwrap(), "ASK/Manchester");
}

#[test]
fn parse_t5577_detect_password() {
    let output = "\
        [=] Chip type......... T5577\n\
        [=] Password set...... Yes";
    let status = parse_t5577_detect(output);
    assert!(status.detected);
    assert!(status.password_set);
}

#[test]
fn parse_t5577_chk_found() {
    let output = "[+] Found valid password: 51243648";
    assert_eq!(parse_t5577_chk(output).unwrap(), "51243648");
}

#[test]
fn parse_t5577_chk_not_found() {
    let output = "[=] Checking passwords...\n[-] No valid password found.";
    assert!(parse_t5577_chk(output).is_none());
}

// =======================================================================
// EM4305 detection
// =======================================================================

#[test]
fn parse_em4305_info_detected() {
    assert!(parse_em4305_info("[+] EM4x05/EM4x69 chip found"));
    assert!(parse_em4305_info("Chip type: EM4305"));
}

#[test]
fn parse_em4305_info_not_detected() {
    assert!(!parse_em4305_info("[!!] No compatible chip detected"));
}

#[test]
fn parse_em4305_word0_value() {
    let output = "[+] Word 00 : 00000000";
    assert_eq!(parse_em4305_word0(output).unwrap(), "00000000");
}

// =======================================================================
// Verification
// =======================================================================

#[test]
fn verify_match_em4100() {
    let clone_output = pm3_lf_search_output("[+] EM 410x ID 0F00112233");
    let (matched, mismatched) = verify_match("0F00112233", &clone_output);
    assert!(matched);
    assert!(mismatched.is_empty());
}

#[test]
fn verify_match_mismatch() {
    let clone_output = pm3_lf_search_output("[+] EM 410x ID AAAAAAAAAA");
    let (matched, _) = verify_match("0F00112233", &clone_output);
    assert!(!matched);
}

#[test]
fn verify_detailed_hid() {
    let clone_output = pm3_lf_search_output(
        "[+] [H10301] HID Prox H10301 26-bit;  FC: 65  CN: 29334\n\
         [+] raw: 200078BE5E1E"
    );
    let mut source_decoded = Fields::new();
    source_decoded.insert("facility_code".to_string(), "65".to_string());
    source_decoded.insert("card_number".to_string(), "29334".to_string());
    source_decoded.insert("raw".to_string(), "200078BE5E1E".to_string());
    let (matched, mismatched) =
        verify_match_detailed(&CardType::HIDProx, &source_decoded, &clone_output);
    assert!(matched);
    assert!(mismatched.is_empty());
}

// =======================================================================
// HF: parse_hf_search() tests
// =======================================================================

#[test]
fn hf_parse_classic_1k_4byte_uid() {
    let output = "\
        [+] UID: 01 02 03 04\n\
        [+] ATQA: 00 04\n\
        [+] SAK: 08 [2]\n\
        [+] MIFARE Classic 1K card\n\
        [+] Prng detection: WEAK";
    let (card_type, data) = parse_hf_search(output).expect("should parse Classic 1K");
    assert_eq!(card_type, CardType::MifareClassic1K);
    assert_eq!(data.decoded.get("uid").unwrap(), "01020304");
    assert_eq!(data.decoded.get("uid_size").unwrap(), "4B");
    assert_eq!(data.decoded.get("atqa").unwrap(), "00 04");
    assert_eq!(data.decoded.get("sak").unwrap(), "08");
    assert_eq!(data.decoded.get("prng").unwrap(), "WEAK");
}

#[test]
fn hf_parse_classic_4k_sak18() {
    let output = "\
        [+] UID: AA BB CC DD\n\
        [+] ATQA: 00 02\n\
        [+] SAK: 18 [2]\n\
        [+] MIFARE Classic 4K card";
    let (card_type, data) = parse_hf_search(output).expect("should parse Classic 4K");
    assert_eq!(card_type, CardType::MifareClassic4K);
    assert_eq!(data.decoded.get("uid").unwrap(), "AABBCCDD");
    assert_eq!(data.decoded.get("sak").unwrap(), "18");
}

#[test]
fn hf_parse_classic_7byte_uid() {
    let output = "\
        [+] UID: 04 11 22 33 44 55 66\n\
        [+] ATQA: 00 44\n\
        [+] SAK: 08 [2]\n\
        [+] MIFARE Classic 1K";
    let (card_type, data) = parse_hf_search(output).expect("should parse 7B UID Classic");
    assert_eq!(card_type, CardType::MifareClassic1K);
    assert_eq!(data.decoded.get("uid").unwrap(), "04112233445566");
    assert_eq!(data.decoded.get("uid_size").unwrap(), "7B");
}

#[test]
fn hf_parse_classic_sak88() {
    // SAK 0x88 = Classic 1K with UID not complete (cascaded)
    let output = "\
        [+] UID: DE AD BE EF\n\
        [+] ATQA: 00 04\n\
        [+] SAK: 88";
    let (card_type, _) = parse_hf_search(output).expect("should parse SAK 0x88");
    assert_eq!(card_type, CardType::MifareClassic1K);
}

#[test]
fn hf_parse_classic_with_magic() {
    let output = "\
        [+] UID: 01 02 03 04\n\
        [+] ATQA: 00 04\n\
        [+] SAK: 08\n\
        [+] Magic capabilities: Gen 1a";
    let (card_type, data) = parse_hf_search(output).expect("should parse magic Classic");
    assert_eq!(card_type, CardType::MifareClassic1K);
    assert_eq!(data.decoded.get("magic").unwrap(), "Gen 1a");
}

#[test]
fn hf_parse_classic_text_fallback_4k() {
    // No SAK in output, but text says "MIFARE Classic 4K"
    let output = "\
        [+] UID: 11 22 33 44\n\
        [+] MIFARE Classic 4K detected";
    let (card_type, _) = parse_hf_search(output).expect("should parse text fallback 4K");
    assert_eq!(card_type, CardType::MifareClassic4K);
}

#[test]
fn hf_parse_ntag215() {
    let output = "\
        [+] UID: 04 AA BB CC DD EE FF\n\
        [+] ATQA: 00 44\n\
        [+] SAK: 00 [2]\n\
        [+] NTAG 215";
    let (card_type, data) = parse_hf_search(output).expect("should parse NTAG215");
    assert_eq!(card_type, CardType::NTAG);
    assert_eq!(data.decoded.get("ntag_type").unwrap(), "NTAG215");
    assert_eq!(data.decoded.get("uid_size").unwrap(), "7B");
}

#[test]
fn hf_parse_ntag213() {
    let output = "\
        [+] UID: 04 01 02 03 04 05 06\n\
        [+] ATQA: 00 44\n\
        [+] SAK: 00\n\
        [+] NTAG213";
    let (card_type, data) = parse_hf_search(output).expect("should parse NTAG213");
    assert_eq!(card_type, CardType::NTAG);
    assert_eq!(data.decoded.get("ntag_type").unwrap(), "NTAG213");
}

#[test]
fn hf_parse_ultralight_ev1() {
    let output = "\
        [+] UID: 04 11 22 33 44 55 66\n\
        [+] ATQA: 00 44\n\
        [+] SAK: 00\n\
        [+] MIFARE Ultralight EV1";
    let (card_type, data) = parse_hf_search(output).expect("should parse UL EV1");
    assert_eq!(card_type, CardType::MifareUltralight);
    assert_eq!(data.decoded.get("ul_type").unwrap(), "Ultralight EV1");
}

#[test]
fn hf_parse_ultralight_plain() {
    let output = "\
        [+] UID: 04 AA BB CC DD EE FF\n\
        [+] ATQA: 00 44\n\
        [+] SAK: 00\n\
        [+] MIFARE Ultralight";
    let (card_type, data) = parse_hf_search(output).expect("should parse UL plain");
    assert_eq!(card_type, CardType::MifareUltralight);
    assert_eq!(data.decoded.get("ul_type").unwrap(), "Ultralight");
}

#[test]
fn hf_parse_ultralight_sak00_atqa0044_no_text() {
    // SAK 0x00 + ATQA 00 44 without explicit "Ultralight" text
    let output = "\
        [+] UID: 04 11 22 33 44 55 66\n\
        [+] ATQA: 00 44\n\
        [+] SAK: 00";
    let (card_type, _) = parse_hf_search(output).expect("should parse SAK00/ATQA0044");
    assert_eq!(card_type, CardType::MifareUltralight);
}

#[test]
fn hf_parse_desfire_ev1() {
    let output = "\
        [+] UID: 04 AA BB CC DD EE FF\n\
        [+] ATQA: 03 44\n\
        [+] SAK: 20 [2]\n\
        [+] ATS: 06 75 77 81 02 80\n\
        [+] MIFARE DESFire EV1";
    let (card_type, data) = parse_hf_search(output).expect("should parse DESFire EV1");
    assert_eq!(card_type, CardType::DESFire);
    assert_eq!(data.decoded.get("sak").unwrap(), "20");
    assert!(data.decoded.get("ats").is_some());
    assert!(!card_type.is_cloneable());
}

#[test]
fn hf_parse_desfire_plain() {
    let output = "\
        [+] UID: 01 02 03 04 05 06 07\n\
        [+] ATQA: 03 44\n\
        [+] SAK: 20\n\
        [+] DESFire";
    let (card_type, _) = parse_hf_search(output).expect("should parse DESFire plain");
    assert_eq!(card_type, CardType::DESFire);
}

#[test]
fn hf_parse_iclass_with_csn() {
    let output = "\
        [+] iCLASS / Picopass card found\n\
        [+] CSN: 00 0B 0F FF F7 FF 12 E0";
    let (card_type, data) = parse_hf_search(output).expect("should parse iCLASS");
    assert_eq!(card_type, CardType::IClass);
    assert_eq!(data.decoded.get("uid").unwrap(), "000B0FFFF7FF12E0");
}

#[test]
fn hf_parse_iclass_no_csn() {
    let output = "[+] iCLASS card detected";
    let (card_type, data) = parse_hf_search(output).expect("should parse iCLASS no CSN");
    assert_eq!(card_type, CardType::IClass);
    assert_eq!(data.uid, "iCLASS");
}

#[test]
fn hf_parse_no_card() {
    let output = "[!] No known/supported 13.56 MHz tags found";
    assert!(parse_hf_search(output).is_none());
}

#[test]
fn hf_parse_no_data() {
    let output = "[!] No data found";
    assert!(parse_hf_search(output).is_none());
}

#[test]
fn hf_parse_empty() {
    assert!(parse_hf_search("").is_none());
}

#[test]
fn hf_parse_ansi_stripped() {
    let output = "\x1b[32m[+] UID: 01 02 03 04\x1b[0m\n\
        \x1b[32m[+] SAK: 08\x1b[0m\n\
        \x1b[32m[+] ATQA: 00 04\x1b[0m";
    let (card_type, data) = parse_hf_search(output).expect("should strip ANSI");
    assert_eq!(card_type, CardType::MifareClassic1K);
    assert_eq!(data.decoded.get("uid").unwrap(), "01020304");
}

#[test]
fn hf_parse_prng_hard() {
    let output = "\
        [+] UID: 01 02 03 04\n\
        [+] ATQA: 00 04\n\
        [+] SAK: 08\n\
        [+] Prng detection: HARD";
    let (_, data) = parse_hf_search(output).expect("should parse PRNG HARD");
    assert_eq!(data.decoded.get("prng").unwrap(), "HARD");
}

#[test]
fn hf_parse_prng_static() {
    let output = "\
        [+] UID: 01 02 03 04\n\
        [+] ATQA: 00 04\n\
        [+] SAK: 08\n\
        [+] Prng detection: STATIC";
    let (_, data) = parse_hf_search(output).expect("should parse PRNG STATIC");
    assert_eq!(data.decoded.get("prng").unwrap(), "STATIC");
}

// -----------------------------------------------------------------------
// Autopwn parser tests
// -----------------------------------------------------------------------

#[test]
fn autopwn_dictionary_progress() {
    let line = "[=] found 12/32 keys (D)";
    let event = parse_autopwn_line(line).expect("should parse dict progress");
    assert_eq!(
        event,
        AutopwnEvent::DictionaryProgress {
            found: 12,
            total: 32
        }
    );
}

#[test]
fn autopwn_dictionary_all_keys() {
    let line = "[+] found 32/32 keys (D)";
    let event = parse_autopwn_line(line).expect("should parse all keys found");
    assert_eq!(
        event,
        AutopwnEvent::DictionaryProgress {
            found: 32,
            total: 32
        }
    );
}

#[test]
fn autopwn_key_found() {
    let line = "[+] found valid key [ FFFFFFFFFFFF ]";
    let event = parse_autopwn_line(line).expect("should parse key found");
    assert_eq!(
        event,
        AutopwnEvent::KeyFound {
            key: "FFFFFFFFFFFF".to_string()
        }
    );
}

#[test]
fn autopwn_key_found_lowercase() {
    let line = "[+] found valid key [ a0a1a2a3a4a5 ]";
    let event = parse_autopwn_line(line).expect("should parse lowercase key");
    assert_eq!(
        event,
        AutopwnEvent::KeyFound {
            key: "A0A1A2A3A4A5".to_string()
        }
    );
}

#[test]
fn autopwn_darkside_started() {
    let line = "[!] Darkside attack starting...";
    let event = parse_autopwn_line(line).expect("should parse darkside start");
    assert_eq!(event, AutopwnEvent::DarksideStarted);
}

#[test]
fn autopwn_nested_started() {
    let line = "[=] Nested attack starting...";
    let event = parse_autopwn_line(line).expect("should parse nested start");
    assert_eq!(event, AutopwnEvent::NestedStarted);
}

#[test]
fn autopwn_hardnested_started() {
    let line = "[=] Hardnested attack starting...";
    let event = parse_autopwn_line(line).expect("should parse hardnested start");
    assert_eq!(event, AutopwnEvent::HardnestedStarted);
}

#[test]
fn autopwn_staticnested_started() {
    let line = "[=] Staticnested attack starting...";
    let event = parse_autopwn_line(line).expect("should parse staticnested start");
    assert_eq!(event, AutopwnEvent::StaticnestedStarted);
}

#[test]
fn autopwn_dump_complete() {
    let line = "[+] Succeeded in dumping all blocks";
    let event = parse_autopwn_line(line).expect("should parse dump complete");
    assert_eq!(
        event,
        AutopwnEvent::DumpComplete {
            file_path: String::new()
        }
    );
}

#[test]
fn autopwn_dump_partial() {
    let line = "[!] Dump file is PARTIAL complete";
    let event = parse_autopwn_line(line).expect("should parse dump partial");
    assert_eq!(
        event,
        AutopwnEvent::DumpPartial {
            file_path: String::new()
        }
    );
}

#[test]
fn autopwn_dump_saved_bin() {
    let line = "[+] saved 64 blocks to file hf-mf-01020304-dump.bin";
    let event = parse_autopwn_line(line).expect("should parse dump saved");
    assert_eq!(
        event,
        AutopwnEvent::DumpComplete {
            file_path: "hf-mf-01020304-dump.bin".to_string()
        }
    );
}

#[test]
fn autopwn_dump_saved_json() {
    let line = "[+] saved to binary file `hf-mf-AABBCCDD-dump.json`";
    let event = parse_autopwn_line(line).expect("should parse json dump saved");
    assert_eq!(
        event,
        AutopwnEvent::DumpComplete {
            file_path: "hf-mf-AABBCCDD-dump.json".to_string()
        }
    );
}

#[test]
fn autopwn_failed() {
    let line = "[!] all key recovery attempts failed";
    let event = parse_autopwn_line(line).expect("should parse failure");
    assert_eq!(
        event,
        AutopwnEvent::Failed {
            reason: "All key recovery attempts failed".to_string()
        }
    );
}

#[test]
fn autopwn_finished() {
    let line = "[=] autopwn execution time: 45 seconds";
    let event = parse_autopwn_line(line).expect("should parse finish time");
    assert_eq!(event, AutopwnEvent::Finished { time_secs: 45 });
}

#[test]
fn autopwn_empty_line() {
    assert!(parse_autopwn_line("").is_none());
    assert!(parse_autopwn_line("   ").is_none());
}

#[test]
fn autopwn_irrelevant_line() {
    assert!(parse_autopwn_line("[=] Using key FFFFFFFFFFFF for sector 0").is_none());
    assert!(parse_autopwn_line("[+] UID: 01 02 03 04").is_none());
}

// HF-4: parse_magic_detection() tests
// -----------------------------------------------------------------------

#[test]
fn magic_detect_gen1a() {
    let output = "[+] Magic capabilities... Gen 1a";
    assert_eq!(parse_magic_detection(output), Some(MagicGeneration::Gen1a));
}

#[test]
fn magic_detect_gen1b() {
    let output = "[+] Magic capabilities : Gen 1b";
    assert_eq!(parse_magic_detection(output), Some(MagicGeneration::Gen1a));
}

#[test]
fn magic_detect_gen2_cuid() {
    let output = "[+] Magic capabilities : CUID";
    assert_eq!(parse_magic_detection(output), Some(MagicGeneration::Gen2));
}

#[test]
fn magic_detect_gen2_text() {
    let output = "[+] Generation: Gen 2";
    assert_eq!(parse_magic_detection(output), Some(MagicGeneration::Gen2));
}

#[test]
fn magic_detect_gen3_apdu() {
    let output = "[+] Magic capabilities : APDU";
    assert_eq!(parse_magic_detection(output), Some(MagicGeneration::Gen3));
}

#[test]
fn magic_detect_gen3_text() {
    let output = "[+] Magic capabilities : Gen 3";
    assert_eq!(parse_magic_detection(output), Some(MagicGeneration::Gen3));
}

#[test]
fn magic_detect_gen4_gtu() {
    let output = "[+] Magic capabilities... Gen 4 GTU";
    assert_eq!(parse_magic_detection(output), Some(MagicGeneration::Gen4GTU));
}

#[test]
fn magic_detect_gen4_ultimate() {
    let output = "[+] Magic: ultimate";
    assert_eq!(parse_magic_detection(output), Some(MagicGeneration::Gen4GTU));
}

#[test]
fn magic_detect_gen4_gdm() {
    let output = "[+] Magic capabilities : GDM";
    assert_eq!(parse_magic_detection(output), Some(MagicGeneration::Gen4GDM));
}

#[test]
fn magic_detect_none() {
    let output = "[+] UID: 01 02 03 04\n[+] ATQA: 00 04\n[+] SAK: 08";
    assert_eq!(parse_magic_detection(output), None);
}

#[test]
fn magic_detect_empty() {
    assert_eq!(parse_magic_detection(""), None);
}

#[test]
fn magic_detect_ufuid() {
    let output = "[+] Magic capabilities : UFUID";
    assert_eq!(parse_magic_detection(output), Some(MagicGeneration::Gen3));
}

// is_hf_card_present() tests

#[test]
fn hf_card_present_yes() {
    let output = "[+] UID: 01 02 03 04\n[+] ATQA: 00 04\n[+] SAK: 08";
    assert!(is_hf_card_present(output));
}

#[test]
fn hf_card_present_no() {
    let output = "[!] No known 13.56 MHz tag found";
    assert!(!is_hf_card_present(output));
}

// is_iclass_present() tests

#[test]
fn iclass_present_yes() {
    let output = "[+] iCLASS / Picopass detected\n[+] CSN: 00 01 02 03 04 05 06 07";
    assert!(is_iclass_present(output));
}

#[test]
fn iclass_present_no() {
    let output = "[!] No known tag found";
    assert!(!is_iclass_present(output));
}

// -----------------------------------------------------------------------
// extract_dump_file_path tests
// -----------------------------------------------------------------------

#[test]
fn extract_dump_path_bin() {
    let output = "[+] saved 64 blocks to file hf-mf-01020304-dump.bin\n[+] autopwn finished";
    let path = extract_dump_file_path(output).expect("should extract bin path");
    assert_eq!(path, "hf-mf-01020304-dump.bin");
}

#[test]
fn extract_dump_path_json() {
    let output = "[+] saved to binary file `hf-mf-AABBCCDD-dump.json`\n[+] done";
    let path = extract_dump_file_path(output).expect("should extract json path");
    assert_eq!(path, "hf-mf-AABBCCDD-dump.json");
}

#[test]
fn extract_dump_path_eml() {
    let output = "[+] saved 64 blocks to file hf-mf-01020304-dump.eml";
    let path = extract_dump_file_path(output).expect("should extract eml path");
    assert_eq!(path, "hf-mf-01020304-dump.eml");
}

#[test]
fn extract_dump_path_none() {
    let output = "[+] autopwn finished\n[+] no dump saved";
    assert!(extract_dump_file_path(output).is_none());
}

#[test]
fn extract_dump_path_multiline_finds_first() {
    let output = "[+] some preamble\n[+] saved 64 blocks to file first-dump.bin\n[+] saved 64 blocks to file second-dump.bin";
    let path = extract_dump_file_path(output).expect("should extract first path");
    assert_eq!(path, "first-dump.bin");
}

// -----------------------------------------------------------------------
// parse_hf_search edge case tests
// -----------------------------------------------------------------------

#[test]
fn hf_parse_classic_1k_sak98() {
    // SAK 0x98 = Classic 4K with cascaded UID (7-byte)
    let output = "\
[+] UID: 04 11 22 33 44 55 66
[+] ATQA: 00 02
[+] SAK: 98 [2]";
    let (ct, cd) = parse_hf_search(output).expect("should parse SAK 98");
    assert_eq!(ct, CardType::MifareClassic4K);
    assert_eq!(cd.decoded.get("sak").unwrap(), "98");
}

#[test]
fn hf_parse_classic_with_prng_weak() {
    let output = "\
[+] UID: 01 02 03 04
[+] ATQA: 00 04
[+] SAK: 08 [2]
[=] Prng detection: WEAK";
    let (ct, cd) = parse_hf_search(output).expect("should parse");
    assert_eq!(ct, CardType::MifareClassic1K);
    assert_eq!(cd.decoded.get("prng").unwrap(), "WEAK");
}

#[test]
fn hf_parse_ntag216() {
    let output = "\
[+] UID: 04 AA BB CC DD EE FF
[+] ATQA: 00 44
[+] SAK: 00 [2]
[=] NTAG 216";
    let (ct, cd) = parse_hf_search(output).expect("should parse NTAG 216");
    assert_eq!(ct, CardType::NTAG);
    // Parser stores full match including "NTAG" prefix
    assert!(cd.decoded.get("ntag_type").unwrap().contains("216"));
}

#[test]
fn hf_parse_desfire_with_ats() {
    let output = "\
[+] UID: 04 11 22 33 44 55 66
[+] ATQA: 03 44
[+] SAK: 20 [2]
[+] ATS: 75 77 80 02 80
[=] MIFARE DESFire EV1";
    let (ct, cd) = parse_hf_search(output).expect("should parse DESFire with ATS");
    assert_eq!(ct, CardType::DESFire);
    assert_eq!(cd.decoded.get("ats").unwrap(), "75 77 80 02 80");
}

#[test]
fn hf_parse_ultralight_c() {
    let output = "\
[+] UID: 04 11 22 33 44 55 66
[+] ATQA: 00 44
[+] SAK: 00 [2]
[=] Ultralight C";
    let (ct, cd) = parse_hf_search(output).expect("should parse UL C");
    assert_eq!(ct, CardType::MifareUltralight);
    assert_eq!(cd.decoded.get("ul_type").unwrap(), "Ultralight C");
}

#[test]
fn hf_parse_iclass_picopass() {
    // Parser strips spaces from CSN/UID
    let output = "[+] Picopass / iCLASS LEGACY detected\n[+] CSN: AA BB CC DD EE FF 00 11";
    let (ct, cd) = parse_hf_search(output).expect("should parse Picopass");
    assert_eq!(ct, CardType::IClass);
    assert_eq!(cd.uid, "AABBCCDDEEFF0011");
}

// -----------------------------------------------------------------------
// parse_autopwn_line edge case tests
// -----------------------------------------------------------------------

#[test]
fn autopwn_key_found_method_n() {
    // Nested attack key
    let line = "[=] found valid key [ A0A1A2A3A4A5 ] (N)";
    let event = parse_autopwn_line(line).expect("should parse nested key");
    assert_eq!(
        event,
        AutopwnEvent::KeyFound {
            key: "A0A1A2A3A4A5".to_string(),
        }
    );
}

#[test]
fn autopwn_dictionary_partial() {
    let line = "[=] found 5/32 keys (D)";
    let event = parse_autopwn_line(line).expect("should parse partial keys");
    assert_eq!(
        event,
        AutopwnEvent::DictionaryProgress {
            found: 5,
            total: 32,
        }
    );
}

#[test]
fn autopwn_4k_keys() {
    // 4K cards have 80 sectors = 160 keys (A + B per sector)
    let line = "[=] found 80/80 keys (D)";
    let event = parse_autopwn_line(line).expect("should parse 4K keys");
    assert_eq!(
        event,
        AutopwnEvent::DictionaryProgress {
            found: 80,
            total: 80,
        }
    );
}

#[test]
fn autopwn_finished_long_time() {
    let line = "[+] autopwn execution time: 3742 seconds";
    let event = parse_autopwn_line(line).expect("should parse long time");
    assert_eq!(event, AutopwnEvent::Finished { time_secs: 3742 });
}

#[test]
fn autopwn_dump_saved_with_path() {
    let line = "[+] saved 256 blocks to file hf-mf-DEADBEEF-dump.bin";
    let event = parse_autopwn_line(line).expect("should parse 4K dump");
    assert_eq!(
        event,
        AutopwnEvent::DumpComplete {
            file_path: "hf-mf-DEADBEEF-dump.bin".to_string(),
        }
    );
}

// -----------------------------------------------------------------------
// parse_magic_detection edge case tests
// -----------------------------------------------------------------------

#[test]
fn magic_detect_gen1a_dots_separator() {
    // PM3 uses dots in output: "Magic capabilities... Gen 1a"
    let output = "[=] Magic capabilities... Gen 1a";
    let gen = parse_magic_detection(output).expect("should parse with dots");
    assert_eq!(gen, MagicGeneration::Gen1a);
}

#[test]
fn magic_detect_case_insensitive() {
    let output = "[=] Magic capabilities: gen 2 / CUID";
    let gen = parse_magic_detection(output).expect("should parse case-insensitive");
    assert_eq!(gen, MagicGeneration::Gen2);
}

#[test]
fn magic_detect_gen4_gtu_keyword_ultimate() {
    let output = "[=] Magic capabilities: Gen 4 GTU / ultimate magic card";
    let gen = parse_magic_detection(output).expect("should parse GTU");
    assert_eq!(gen, MagicGeneration::Gen4GTU);
}

#[test]
fn magic_detect_uscuid() {
    // USCUID is a Gen4 GDM variant — real PM3 v4.20728 output
    let output = "[+] Magic capabilities... Gen 4 GDM / USCUID ( ZUID Gen1 Magic Wakeup )";
    let gen = parse_magic_detection(output).expect("should parse USCUID as Gen4GDM");
    assert_eq!(gen, MagicGeneration::Gen4GDM);
}

#[test]
fn magic_detect_uscuid_standalone() {
    // USCUID without GDM prefix
    let output = "[+] Magic capabilities... USCUID";
    let gen = parse_magic_detection(output).expect("should parse standalone USCUID");
    assert_eq!(gen, MagicGeneration::Gen4GDM);
}

// -----------------------------------------------------------------------
// Real PM3 output regression tests
// -----------------------------------------------------------------------

#[test]
fn hf_parse_real_pm3_classic_1k_magic() {
    // Real output from PM3 v4.20728 with Gen1a+Gen4GDM/USCUID dual magic card
    let output = "\
[-] Searching for ISO14443-A tag...\n\
[=] ---------- ISO14443-A Information ----------\n\
[+]  UID: 7D E9 25 4E   ( ONUID, re-used )\n\
[+] ATQA: 00 04\n\
[+]  SAK: 08 [2]\n\
[+] Possible types:\n\
[+]    MIFARE Classic 1K\n\
[=] \n\
[=] Proprietary non iso14443-4 card found\n\
[=] RATS not supported\n\
\n\
[+] Magic capabilities... Gen 1a\n\
[+] Magic capabilities... Gen 4 GDM / USCUID ( ZUID Gen1 Magic Wakeup )\n\
[+] Prng detection..... weak\n\
\n\
[?] Hint: Use `hf mf c*` magic commands\n\
[?] Hint: Use `hf mf gdm* --gen1a` magic commands\n\
[?] Hint: Try `hf mf info`\n\
\n\
\n\
[+] Valid ISO 14443-A tag found\n\
\n\
[-] Searching for iCLASS / PicoPass tag...\n\
[-] Searching for FeliCa tag...";

    let (card_type, data) = parse_hf_search(output).expect("should parse real PM3 Classic 1K");
    assert_eq!(card_type, CardType::MifareClassic1K);
    assert_eq!(data.uid, "7DE9254E");
    assert_eq!(data.decoded.get("sak").unwrap(), "08");
    assert_eq!(data.decoded.get("atqa").unwrap(), "00 04");
    assert_eq!(data.decoded.get("prng").unwrap(), "WEAK");
    assert_eq!(data.decoded.get("magic").unwrap(), "Gen 1a");
    assert_eq!(data.decoded.get("uid_size").unwrap(), "4B");
}

#[test]
fn hf_parse_iclass_not_false_positive() {
    // "Searching for iCLASS" should NOT trigger iCLASS detection
    let output = "\
[+]  UID: AA BB CC DD\n\
[+] ATQA: 00 04\n\
[+]  SAK: 08 [2]\n\
[-] Searching for iCLASS / PicoPass tag...";

    let (card_type, _) = parse_hf_search(output).expect("should parse as Classic, not iCLASS");
    assert_eq!(card_type, CardType::MifareClassic1K);
}

#[test]
fn hf_parse_prng_dots_format() {
    // PM3 uses dots between "detection" and value
    let output = "\
[+]  UID: 11 22 33 44\n\
[+] ATQA: 00 04\n\
[+]  SAK: 08 [2]\n\
[+] Prng detection..... weak";

    let (_, data) = parse_hf_search(output).expect("should parse PRNG with dots");
    assert_eq!(data.decoded.get("prng").unwrap(), "WEAK");
}

#[test]
fn hf_parse_prng_dots_hard() {
    let output = "\
[+]  UID: 11 22 33 44\n\
[+] ATQA: 00 04\n\
[+]  SAK: 08 [2]\n\
[+] Prng detection..... HARD";

    let (_, data) = parse_hf_search(output).expect("should parse PRNG HARD with dots");
    assert_eq!(data.decoded.get("prng").unwrap(), "HARD");
}

