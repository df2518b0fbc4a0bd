use pm3_core::command_builder::{
    build_hf_14a_info, build_hf_autopwn, build_hf_iclass_info, build_hf_mf_info, build_hf_mfdes_info, build_hf_mfu_info, build_hf_search, build_iclass_dump, build_iclass_restore, build_mf_cload, build_mf_cview, build_mf_dump, build_mf_gdm_setblk, build_mf_gen2_config_force, build_mf_gen2_config_reset, build_mf_gen3blk, build_mf_gen3uid, build_mf_gload, build_mf_restore, build_mf_wrbl0, build_mfu_dump, build_mfu_restore,
};
use pm3_core::types::CardType;


// -- HF info commands (static strings) --

#[test]
fn hf_search_cmd() {
    assert_eq!(build_hf_search(), "hf search");
}

#[test]
fn hf_14a_info_cmd() {
    assert_eq!(build_hf_14a_info(), "hf 14a info");
}

#[test]
fn hf_mf_info_cmd() {
    assert_eq!(build_hf_mf_info(), "hf mf info");
}

#[test]
fn hf_mfu_info_cmd() {
    assert_eq!(build_hf_mfu_info(), "hf mfu info");
}

#[test]
fn hf_iclass_info_cmd() {
    assert_eq!(build_hf_iclass_info(), "hf iclass info");
}

#[test]
fn hf_mfdes_info_cmd() {
    assert_eq!(build_hf_mfdes_info(), "hf mfdes info");
}

// -- HF autopwn --

#[test]
fn hf_autopwn_classic_1k() {
    let cmd = build_hf_autopwn(&CardType::MifareClassic1K);
    assert_eq!(cmd, "hf mf autopwn");
}

#[test]
fn hf_autopwn_classic_4k() {
    let cmd = build_hf_autopwn(&CardType::MifareClassic4K);
    assert_eq!(cmd, "hf mf autopwn --4k");
}

#[test]
fn hf_autopwn_other_type_defaults_1k() {
    // Non-Classic types still get basic autopwn (no --4k)
    let cmd = build_hf_autopwn(&CardType::MifareUltralight);
    assert_eq!(cmd, "hf mf autopwn");
}

// -- Gen1a clone --

#[test]
fn mf_cload_cmd() {
    let cmd = build_mf_cload("hf-mf-01020304-dump.bin");
    assert_eq!(cmd, "hf mf cload -f hf-mf-01020304-dump.bin");
}

// -- Gen2/CUID clone --

#[test]
fn mf_gen2_config_force_cmd() {
    assert_eq!(
        build_mf_gen2_config_force(),
        "hf 14a config --atqa force --bcc ignore --cl2 skip --rats skip"
    );
}

#[test]
fn mf_gen2_config_reset_cmd() {
    assert_eq!(build_mf_gen2_config_reset(), "hf 14a config --std");
}

#[test]
fn mf_wrbl0_cmd() {
    let cmd = build_mf_wrbl0("FFFFFFFFFFFF", "0102030404080400000000000000BEEF");
    assert_eq!(
        cmd,
        "hf mf wrbl --blk 0 -k FFFFFFFFFFFF -d 0102030404080400000000000000BEEF --force"
    );
}

#[test]
fn mf_restore_cmd() {
    let cmd = build_mf_restore("hf-mf-AABBCCDD-dump.bin");
    assert_eq!(cmd, "hf mf restore -f hf-mf-AABBCCDD-dump.bin");
}

// -- Gen3 clone --

#[test]
fn mf_gen3uid_4byte() {
    let cmd = build_mf_gen3uid("01020304");
    assert_eq!(cmd, "hf mf gen3uid --uid 01020304");
}

#[test]
fn mf_gen3uid_7byte() {
    let cmd = build_mf_gen3uid("01020304050607");
    assert_eq!(cmd, "hf mf gen3uid --uid 01020304050607");
}

#[test]
fn mf_gen3blk_cmd() {
    let cmd = build_mf_gen3blk("0102030404080400000000000000BEEF");
    assert_eq!(cmd, "hf mf gen3blk 0102030404080400000000000000BEEF");
}

// -- Gen4 GTU clone --

#[test]
fn mf_gload_cmd() {
    let cmd = build_mf_gload("hf-mf-01020304-dump.bin");
    assert_eq!(cmd, "hf mf gload -f hf-mf-01020304-dump.bin");
}

// -- Gen4 GDM clone --

#[test]
fn mf_gdm_setblk_block0() {
    let cmd = build_mf_gdm_setblk(0, "0102030404080400000000000000BEEF");
    assert_eq!(
        cmd,
        "hf mf gdmsetblk --blk 0 -d 0102030404080400000000000000BEEF"
    );
}

#[test]
fn mf_gdm_setblk_block63() {
    let cmd = build_mf_gdm_setblk(63, "FFFFFFFFFFFF08778F00FFFFFFFFFFFF");
    assert_eq!(
        cmd,
        "hf mf gdmsetblk --blk 63 -d FFFFFFFFFFFF08778F00FFFFFFFFFFFF"
    );
}

#[test]
fn mf_gdm_setblk_4k_block255() {
    let cmd = build_mf_gdm_setblk(255, "DEADBEEF" .repeat(4).as_str());
    assert!(cmd.starts_with("hf mf gdmsetblk --blk 255 -d "));
}

// -- UL/NTAG clone --

#[test]
fn mfu_restore_cmd() {
    let cmd = build_mfu_restore("hf-mfu-04112233445566-dump.bin");
    assert_eq!(
        cmd,
        "hf mfu restore -f hf-mfu-04112233445566-dump.bin -s -e"
    );
}

// -- iCLASS clone --

#[test]
fn iclass_restore_cmd() {
    let cmd = build_iclass_restore("hf-iclass-dump.json");
    assert_eq!(
        cmd,
        "hf iclass restore -f hf-iclass-dump.json --first 6 --last 18 --ki 0"
    );
}

// -- Dump commands --

#[test]
fn mfu_dump_cmd() {
    assert_eq!(build_mfu_dump(), "hf mfu dump");
}

#[test]
fn iclass_dump_cmd() {
    assert_eq!(build_iclass_dump(), "hf iclass dump --ki 0");
}

// -- Verification commands --

#[test]
fn mf_cview_cmd() {
    assert_eq!(build_mf_cview(), "hf mf cview");
}

#[test]
fn mf_dump_cmd() {
    assert_eq!(build_mf_dump(), "hf mf dump");
}

