//! Command strings for the tool, one builder per protocol and blank family.
//! Every value interpolated into a clone command is a typed integer, a fixed
//! word, or a UID or field checked against a fixed alphabet (hex, decimal,
//! or letters, digits and colons), so no clone command holds a separator or
//! a line break.

use vstd::prelude::*;

use crate::fields::Fields;
use crate::text::{
    append_str, cat, clean_text, dec, dec_string, is_alnum_colon, is_alnum_colon_str, is_dec_str,
    is_decimal, is_hex, is_hex_str, lemma_alphabets_clean, lemma_clean_concat, lemma_dec_clean,
    parse_u32, parse_u32_spec, parse_u64, parse_u64_spec, str_eq,
};
use crate::types::{BlankType, CardType};

verus! {

/// A T5577 password: exactly eight hex digits.
pub open spec fn valid_password(p: Seq<char>) -> bool {
    p.len() == 8 && is_hex_str(p)
}

/// The Wiegand formats that may be passed to `lf hid clone -w`.
pub open spec fn valid_hid_format(f: Seq<char>) -> bool {
    f == "H10301"@ || f == "H10302"@ || f == "H10304"@ || f == "Corp1000"@
}

fn validate_password(password: &str) -> (r: Result<(), String>)
    ensures
        r is Ok <==> valid_password(password@),
        r is Err ==> r->Err_0@ == password_error(password@),
{
    if password.unicode_len() != 8 || !is_hex(password) {
        let mut m = String::from_str("Invalid password: must be exactly 8 hex characters, got '");
        append_str(&mut m, password);
        append_str(&mut m, "'");
        return Err(m);
    }
    Ok(())
}

fn validate_hex(value: &str, field_name: &str) -> (r: Result<(), String>)
    ensures
        r is Ok <==> is_hex_str(value@),
{
    if !is_hex(value) {
        let mut m = String::from_str("Invalid ");
        append_str(&mut m, field_name);
        append_str(&mut m, ": must be non-empty hex string, got '");
        append_str(&mut m, value);
        append_str(&mut m, "'");
        return Err(m);
    }
    Ok(())
}

fn validate_hid_format(format: &str) -> (r: bool)
    ensures
        r == valid_hid_format(format@),
{
    str_eq(format, "H10301") || str_eq(format, "H10302") || str_eq(format, "H10304") || str_eq(
        format,
        "Corp1000",
    )
}

pub open spec fn em4100_clone_cmd(id: Seq<char>) -> Seq<char> {
    "lf em 410x clone --id "@ + id
}

pub open spec fn hid_clone_raw_cmd(raw: Seq<char>) -> Seq<char> {
    "lf hid clone -r "@ + raw
}

pub open spec fn indala_clone_cmd(raw: Seq<char>) -> Seq<char> {
    "lf indala clone --raw "@ + raw
}

pub open spec fn ioprox_clone_cmd(fc: nat, cn: nat, vn: nat) -> Seq<char> {
    "lf io clone --vn "@ + dec(vn) + " --fc "@ + dec(fc) + " --cn "@ + dec(cn)
}

pub open spec fn ioprox_clone_raw_cmd(raw: Seq<char>) -> Seq<char> {
    "lf io clone --raw "@ + raw
}

pub open spec fn fdxb_clone_cmd(country: nat, national_id: nat) -> Seq<char> {
    "lf fdxb clone --country "@ + dec(country) + " --national "@ + dec(national_id)
}

pub open spec fn fdxb_clone_raw_cmd(raw: Seq<char>) -> Seq<char> {
    "lf fdxb clone --raw "@ + raw
}

pub open spec fn paradox_clone_cmd(fc: nat, cn: nat) -> Seq<char> {
    "lf paradox clone --fc "@ + dec(fc) + " --cn "@ + dec(cn)
}

pub open spec fn paradox_clone_raw_cmd(raw: Seq<char>) -> Seq<char> {
    "lf paradox clone --raw "@ + raw
}

pub open spec fn viking_clone_cmd(cn: Seq<char>) -> Seq<char> {
    "lf viking clone --cn "@ + cn
}

pub open spec fn pyramid_clone_cmd(fc: nat, cn: nat) -> Seq<char> {
    "lf pyramid clone --fc "@ + dec(fc) + " --cn "@ + dec(cn)
}

pub open spec fn pyramid_clone_raw_cmd(raw: Seq<char>) -> Seq<char> {
    "lf pyramid clone --raw "@ + raw
}

pub open spec fn nexwatch_clone_cmd(raw: Seq<char>) -> Seq<char> {
    "lf nexwatch clone --raw "@ + raw
}

pub open spec fn presco_clone_hex_cmd(hex: Seq<char>) -> Seq<char> {
    "lf presco clone -d "@ + hex
}

pub open spec fn presco_clone_cmd(site_code: nat, user_code: nat) -> Seq<char> {
    "lf presco clone --sitecode "@ + dec(site_code) + " --usercode "@ + dec(user_code)
}

pub open spec fn nedap_clone_cmd(subtype: nat, customer_code: nat, id: nat) -> Seq<char> {
    "lf nedap clone --st "@ + dec(subtype) + " --cc "@ + dec(customer_code) + " --id "@ + dec(id)
}

pub open spec fn gproxii_clone_cmd(xor: nat, fmt: nat, fc: nat, cn: nat) -> Seq<char> {
    "lf gproxii clone --xor "@ + dec(xor) + " --fmt "@ + dec(fmt) + " --fc "@ + dec(fc) + " --cn "@ + dec(cn)
}

pub open spec fn gallagher_clone_cmd(rc: nat, fc: nat, cn: nat, il: nat) -> Seq<char> {
    "lf gallagher clone --rc "@ + dec(rc) + " --fc "@ + dec(fc) + " --cn "@ + dec(cn) + " --il "@ + dec(il)
}

pub open spec fn pac_clone_cmd(cn: Seq<char>) -> Seq<char> {
    "lf pac clone --cn "@ + cn
}

pub open spec fn pac_clone_raw_cmd(raw: Seq<char>) -> Seq<char> {
    "lf pac clone --raw "@ + raw
}

pub open spec fn jablotron_clone_cmd(cn: Seq<char>) -> Seq<char> {
    "lf jablotron clone --cn "@ + cn
}

pub open spec fn securakey_clone_cmd(raw: Seq<char>) -> Seq<char> {
    "lf securakey clone --raw "@ + raw
}

pub open spec fn visa2000_clone_cmd(cn: nat) -> Seq<char> {
    "lf visa2000 clone --cn "@ + dec(cn)
}

pub open spec fn motorola_clone_cmd(raw: Seq<char>) -> Seq<char> {
    "lf motorola clone --raw "@ + raw
}

pub open spec fn idteck_clone_cmd(raw: Seq<char>) -> Seq<char> {
    "lf idteck clone --raw "@ + raw
}

pub open spec fn em4305_read_word_cmd(word: nat) -> Seq<char> {
    "lf em 4x05 read -a "@ + dec(word)
}

pub open spec fn clone_for_em4305_cmd(base_cmd: Seq<char>) -> Seq<char> {
    base_cmd + " --em"@
}

pub open spec fn mf_cload_cmd(dump_path: Seq<char>) -> Seq<char> {
    "hf mf cload -f "@ + dump_path
}

pub open spec fn mf_wrbl0_cmd(key: Seq<char>, data: Seq<char>) -> Seq<char> {
    "hf mf wrbl --blk 0 -k "@ + key + " -d "@ + data + " --force"@
}

pub open spec fn mf_restore_cmd(dump_path: Seq<char>) -> Seq<char> {
    "hf mf restore -f "@ + dump_path
}

pub open spec fn mf_gen3uid_cmd(uid: Seq<char>) -> Seq<char> {
    "hf mf gen3uid --uid "@ + uid
}

pub open spec fn mf_gen3blk_cmd(block0: Seq<char>) -> Seq<char> {
    "hf mf gen3blk "@ + block0
}

pub open spec fn mf_gload_cmd(dump_path: Seq<char>) -> Seq<char> {
    "hf mf gload -f "@ + dump_path
}

pub open spec fn mf_gdm_setblk_cmd(blk: nat, data: Seq<char>) -> Seq<char> {
    "hf mf gdmsetblk --blk "@ + dec(blk) + " -d "@ + data
}

pub open spec fn mfu_restore_cmd(dump_path: Seq<char>) -> Seq<char> {
    "hf mfu restore -f "@ + dump_path + " -s -e"@
}

pub open spec fn iclass_restore_cmd(dump_path: Seq<char>) -> Seq<char> {
    "hf iclass restore -f "@ + dump_path + " --first 6 --last 18 --ki 0"@
}

pub open spec fn mf_cgetblk_cmd(blk: nat) -> Seq<char> {
    "hf mf cgetblk --blk "@ + dec(blk)
}

pub open spec fn mf_rdbl_cmd(blk: nat, key: Seq<char>) -> Seq<char> {
    "hf mf rdbl --blk "@ + dec(blk) + " -k "@ + key
}

/// `lf search`
pub fn build_lf_search() -> (r: &'static str)
    ensures
        r@ == "lf search"@,
{
    "lf search"
}

/// `lf t55xx detect`
pub fn build_t5577_detect() -> (r: &'static str)
    ensures
        r@ == "lf t55xx detect"@,
{
    "lf t55xx detect"
}

/// `lf t55xx chk`
pub fn build_t5577_chk() -> (r: &'static str)
    ensures
        r@ == "lf t55xx chk"@,
{
    "lf t55xx chk"
}

/// `lf t55xx wipe`
pub fn build_t5577_wipe() -> (r: &'static str)
    ensures
        r@ == "lf t55xx wipe"@,
{
    "lf t55xx wipe"
}

/// `lf em 4x05 wipe`
pub fn build_em4305_wipe() -> (r: &'static str)
    ensures
        r@ == "lf em 4x05 wipe"@,
{
    "lf em 4x05 wipe"
}

/// `lf em 4x05 info`
pub fn build_em4305_info() -> (r: &'static str)
    ensures
        r@ == "lf em 4x05 info"@,
{
    "lf em 4x05 info"
}

/// `hf search`
pub fn build_hf_search() -> (r: &'static str)
    ensures
        r@ == "hf search"@,
{
    "hf search"
}

/// `hf 14a info`
pub fn build_hf_14a_info() -> (r: &'static str)
    ensures
        r@ == "hf 14a info"@,
{
    "hf 14a info"
}

/// `hf mf info`
pub fn build_hf_mf_info() -> (r: &'static str)
    ensures
        r@ == "hf mf info"@,
{
    "hf mf info"
}

/// `hf mfu info`
pub fn build_hf_mfu_info() -> (r: &'static str)
    ensures
        r@ == "hf mfu info"@,
{
    "hf mfu info"
}

/// `hf iclass info`
pub fn build_hf_iclass_info() -> (r: &'static str)
    ensures
        r@ == "hf iclass info"@,
{
    "hf iclass info"
}

/// `hf mfdes info`
pub fn build_hf_mfdes_info() -> (r: &'static str)
    ensures
        r@ == "hf mfdes info"@,
{
    "hf mfdes info"
}

/// `hf 14a config --atqa force --bcc ignore --cl2 skip --rats skip`
pub fn build_mf_gen2_config_force() -> (r: &'static str)
    ensures
        r@ == "hf 14a config --atqa force --bcc ignore --cl2 skip --rats skip"@,
{
    "hf 14a config --atqa force --bcc ignore --cl2 skip --rats skip"
}

/// `hf 14a config --std`
pub fn build_mf_gen2_config_reset() -> (r: &'static str)
    ensures
        r@ == "hf 14a config --std"@,
{
    "hf 14a config --std"
}

/// `hf mfu dump`
pub fn build_mfu_dump() -> (r: &'static str)
    ensures
        r@ == "hf mfu dump"@,
{
    "hf mfu dump"
}

/// `hf iclass dump --ki 0`
pub fn build_iclass_dump() -> (r: &'static str)
    ensures
        r@ == "hf iclass dump --ki 0"@,
{
    "hf iclass dump --ki 0"
}

/// `hf mf cview`
pub fn build_mf_cview() -> (r: &'static str)
    ensures
        r@ == "hf mf cview"@,
{
    "hf mf cview"
}

/// `hf mf dump`
pub fn build_mf_dump() -> (r: &'static str)
    ensures
        r@ == "hf mf dump"@,
{
    "hf mf dump"
}

pub fn build_em4100_clone(id: &str) -> (r: String)
    ensures
        r@ == em4100_clone_cmd(id@),
{
    let mut r = String::from_str("lf em 410x clone --id ");
    append_str(&mut r, id);
    r
}

pub fn build_hid_clone_raw(raw: &str) -> (r: String)
    ensures
        r@ == hid_clone_raw_cmd(raw@),
{
    let mut r = String::from_str("lf hid clone -r ");
    append_str(&mut r, raw);
    r
}

pub fn build_indala_clone(raw: &str) -> (r: String)
    ensures
        r@ == indala_clone_cmd(raw@),
{
    let mut r = String::from_str("lf indala clone --raw ");
    append_str(&mut r, raw);
    r
}

pub fn build_ioprox_clone(fc: u32, cn: u32, vn: u32) -> (r: String)
    ensures
        r@ == ioprox_clone_cmd(fc as nat, cn as nat, vn as nat),
{
    let mut r = String::from_str("lf io clone --vn ");
    append_str(&mut r, dec_string(vn as u64).as_str());
    append_str(&mut r, " --fc ");
    append_str(&mut r, dec_string(fc as u64).as_str());
    append_str(&mut r, " --cn ");
    append_str(&mut r, dec_string(cn as u64).as_str());
    r
}

pub fn build_ioprox_clone_raw(raw: &str) -> (r: String)
    ensures
        r@ == ioprox_clone_raw_cmd(raw@),
{
    let mut r = String::from_str("lf io clone --raw ");
    append_str(&mut r, raw);
    r
}

pub fn build_fdxb_clone(country: u32, national_id: u64) -> (r: String)
    ensures
        r@ == fdxb_clone_cmd(country as nat, national_id as nat),
{
    let mut r = String::from_str("lf fdxb clone --country ");
    append_str(&mut r, dec_string(country as u64).as_str());
    append_str(&mut r, " --national ");
    append_str(&mut r, dec_string(national_id as u64).as_str());
    r
}

pub fn build_fdxb_clone_raw(raw: &str) -> (r: String)
    ensures
        r@ == fdxb_clone_raw_cmd(raw@),
{
    let mut r = String::from_str("lf fdxb clone --raw ");
    append_str(&mut r, raw);
    r
}

pub fn build_paradox_clone(fc: u32, cn: u32) -> (r: String)
    ensures
        r@ == paradox_clone_cmd(fc as nat, cn as nat),
{
    let mut r = String::from_str("lf paradox clone --fc ");
    append_str(&mut r, dec_string(fc as u64).as_str());
    append_str(&mut r, " --cn ");
    append_str(&mut r, dec_string(cn as u64).as_str());
    r
}

pub fn build_paradox_clone_raw(raw: &str) -> (r: String)
    ensures
        r@ == paradox_clone_raw_cmd(raw@),
{
    let mut r = String::from_str("lf paradox clone --raw ");
    append_str(&mut r, raw);
    r
}

pub fn build_viking_clone(cn: &str) -> (r: String)
    ensures
        r@ == viking_clone_cmd(cn@),
{
    let mut r = String::from_str("lf viking clone --cn ");
    append_str(&mut r, cn);
    r
}

pub fn build_pyramid_clone(fc: u32, cn: u32) -> (r: String)
    ensures
        r@ == pyramid_clone_cmd(fc as nat, cn as nat),
{
    let mut r = String::from_str("lf pyramid clone --fc ");
    append_str(&mut r, dec_string(fc as u64).as_str());
    append_str(&mut r, " --cn ");
    append_str(&mut r, dec_string(cn as u64).as_str());
    r
}

pub fn build_pyramid_clone_raw(raw: &str) -> (r: String)
    ensures
        r@ == pyramid_clone_raw_cmd(raw@),
{
    let mut r = String::from_str("lf pyramid clone --raw ");
    append_str(&mut r, raw);
    r
}

pub fn build_nexwatch_clone(raw: &str) -> (r: String)
    ensures
        r@ == nexwatch_clone_cmd(raw@),
{
    let mut r = String::from_str("lf nexwatch clone --raw ");
    append_str(&mut r, raw);
    r
}

pub fn build_presco_clone_hex(hex: &str) -> (r: String)
    ensures
        r@ == presco_clone_hex_cmd(hex@),
{
    let mut r = String::from_str("lf presco clone -d ");
    append_str(&mut r, hex);
    r
}

pub fn build_presco_clone(site_code: u32, user_code: u32) -> (r: String)
    ensures
        r@ == presco_clone_cmd(site_code as nat, user_code as nat),
{
    let mut r = String::from_str("lf presco clone --sitecode ");
    append_str(&mut r, dec_string(site_code as u64).as_str());
    append_str(&mut r, " --usercode ");
    append_str(&mut r, dec_string(user_code as u64).as_str());
    r
}

pub fn build_nedap_clone(subtype: u32, customer_code: u32, id: u32) -> (r: String)
    ensures
        r@ == nedap_clone_cmd(subtype as nat, customer_code as nat, id as nat),
{
    let mut r = String::from_str("lf nedap clone --st ");
    append_str(&mut r, dec_string(subtype as u64).as_str());
    append_str(&mut r, " --cc ");
    append_str(&mut r, dec_string(customer_code as u64).as_str());
    append_str(&mut r, " --id ");
    append_str(&mut r, dec_string(id as u64).as_str());
    r
}

pub fn build_gproxii_clone(xor: u32, fmt: u32, fc: u32, cn: u32) -> (r: String)
    ensures
        r@ == gproxii_clone_cmd(xor as nat, fmt as nat, fc as nat, cn as nat),
{
    let mut r = String::from_str("lf gproxii clone --xor ");
    append_str(&mut r, dec_string(xor as u64).as_str());
    append_str(&mut r, " --fmt ");
    append_str(&mut r, dec_string(fmt as u64).as_str());
    append_str(&mut r, " --fc ");
    append_str(&mut r, dec_string(fc as u64).as_str());
    append_str(&mut r, " --cn ");
    append_str(&mut r, dec_string(cn as u64).as_str());
    r
}

pub fn build_gallagher_clone(rc: u32, fc: u32, cn: u32, il: u32) -> (r: String)
    ensures
        r@ == gallagher_clone_cmd(rc as nat, fc as nat, cn as nat, il as nat),
{
    let mut r = String::from_str("lf gallagher clone --rc ");
    append_str(&mut r, dec_string(rc as u64).as_str());
    append_str(&mut r, " --fc ");
    append_str(&mut r, dec_string(fc as u64).as_str());
    append_str(&mut r, " --cn ");
    append_str(&mut r, dec_string(cn as u64).as_str());
    append_str(&mut r, " --il ");
    append_str(&mut r, dec_string(il as u64).as_str());
    r
}

pub fn build_pac_clone(cn: &str) -> (r: String)
    ensures
        r@ == pac_clone_cmd(cn@),
{
    let mut r = String::from_str("lf pac clone --cn ");
    append_str(&mut r, cn);
    r
}

pub fn build_pac_clone_raw(raw: &str) -> (r: String)
    ensures
        r@ == pac_clone_raw_cmd(raw@),
{
    let mut r = String::from_str("lf pac clone --raw ");
    append_str(&mut r, raw);
    r
}

pub fn build_jablotron_clone(cn: &str) -> (r: String)
    ensures
        r@ == jablotron_clone_cmd(cn@),
{
    let mut r = String::from_str("lf jablotron clone --cn ");
    append_str(&mut r, cn);
    r
}

pub fn build_securakey_clone(raw: &str) -> (r: String)
    ensures
        r@ == securakey_clone_cmd(raw@),
{
    let mut r = String::from_str("lf securakey clone --raw ");
    append_str(&mut r, raw);
    r
}

pub fn build_visa2000_clone(cn: u32) -> (r: String)
    ensures
        r@ == visa2000_clone_cmd(cn as nat),
{
    let mut r = String::from_str("lf visa2000 clone --cn ");
    append_str(&mut r, dec_string(cn as u64).as_str());
    r
}

pub fn build_motorola_clone(raw: &str) -> (r: String)
    ensures
        r@ == motorola_clone_cmd(raw@),
{
    let mut r = String::from_str("lf motorola clone --raw ");
    append_str(&mut r, raw);
    r
}

pub fn build_idteck_clone(raw: &str) -> (r: String)
    ensures
        r@ == idteck_clone_cmd(raw@),
{
    let mut r = String::from_str("lf idteck clone --raw ");
    append_str(&mut r, raw);
    r
}

pub fn build_em4305_read_word(word: u8) -> (r: String)
    ensures
        r@ == em4305_read_word_cmd(word as nat),
{
    let mut r = String::from_str("lf em 4x05 read -a ");
    append_str(&mut r, dec_string(word as u64).as_str());
    r
}

pub fn build_clone_for_em4305(base_cmd: &str) -> (r: String)
    ensures
        r@ == clone_for_em4305_cmd(base_cmd@),
{
    let mut r = String::from_str(base_cmd);
    append_str(&mut r, " --em");
    r
}

pub fn build_mf_cload(dump_path: &str) -> (r: String)
    ensures
        r@ == mf_cload_cmd(dump_path@),
{
    let mut r = String::from_str("hf mf cload -f ");
    append_str(&mut r, dump_path);
    r
}

pub fn build_mf_wrbl0(key: &str, data: &str) -> (r: String)
    ensures
        r@ == mf_wrbl0_cmd(key@, data@),
{
    let mut r = String::from_str("hf mf wrbl --blk 0 -k ");
    append_str(&mut r, key);
    append_str(&mut r, " -d ");
    append_str(&mut r, data);
    append_str(&mut r, " --force");
    r
}

pub fn build_mf_restore(dump_path: &str) -> (r: String)
    ensures
        r@ == mf_restore_cmd(dump_path@),
{
    let mut r = String::from_str("hf mf restore -f ");
    append_str(&mut r, dump_path);
    r
}

pub fn build_mf_gen3uid(uid: &str) -> (r: String)
    ensures
        r@ == mf_gen3uid_cmd(uid@),
{
    let mut r = String::from_str("hf mf gen3uid --uid ");
    append_str(&mut r, uid);
    r
}

pub fn build_mf_gen3blk(block0: &str) -> (r: String)
    ensures
        r@ == mf_gen3blk_cmd(block0@),
{
    let mut r = String::from_str("hf mf gen3blk ");
    append_str(&mut r, block0);
    r
}

pub fn build_mf_gload(dump_path: &str) -> (r: String)
    ensures
        r@ == mf_gload_cmd(dump_path@),
{
    let mut r = String::from_str("hf mf gload -f ");
    append_str(&mut r, dump_path);
    r
}

pub fn build_mf_gdm_setblk(blk: u16, data: &str) -> (r: String)
    ensures
        r@ == mf_gdm_setblk_cmd(blk as nat, data@),
{
    let mut r = String::from_str("hf mf gdmsetblk --blk ");
    append_str(&mut r, dec_string(blk as u64).as_str());
    append_str(&mut r, " -d ");
    append_str(&mut r, data);
    r
}

pub fn build_mfu_restore(dump_path: &str) -> (r: String)
    ensures
        r@ == mfu_restore_cmd(dump_path@),
{
    let mut r = String::from_str("hf mfu restore -f ");
    append_str(&mut r, dump_path);
    append_str(&mut r, " -s -e");
    r
}

pub fn build_iclass_restore(dump_path: &str) -> (r: String)
    ensures
        r@ == iclass_restore_cmd(dump_path@),
{
    let mut r = String::from_str("hf iclass restore -f ");
    append_str(&mut r, dump_path);
    append_str(&mut r, " --first 6 --last 18 --ki 0");
    r
}

pub fn build_mf_cgetblk(blk: u16) -> (r: String)
    ensures
        r@ == mf_cgetblk_cmd(blk as nat),
{
    let mut r = String::from_str("hf mf cgetblk --blk ");
    append_str(&mut r, dec_string(blk as u64).as_str());
    r
}

pub fn build_mf_rdbl(blk: u16, key: &str) -> (r: String)
    ensures
        r@ == mf_rdbl_cmd(blk as nat, key@),
{
    let mut r = String::from_str("hf mf rdbl --blk ");
    append_str(&mut r, dec_string(blk as u64).as_str());
    append_str(&mut r, " -k ");
    append_str(&mut r, key);
    r
}

pub open spec fn hid_clone_cmd(fc: nat, cn: nat, format: Option<Seq<char>>) -> Seq<char> {
    let w = match format {
        Some(f) => f,
        None => "H10301"@,
    };
    "lf hid clone -w "@ + w + " --fc "@ + dec(fc) + " --cn "@ + dec(cn)
}

pub open spec fn awid_clone_cmd(fc: nat, cn: nat, fmt: Option<u32>) -> Seq<char> {
    match fmt {
        Some(f) => "lf awid clone --fmt "@ + dec(f as nat) + " --fc "@ + dec(fc) + " --cn "@ + dec(
            cn,
        ),
        None => "lf awid clone --fc "@ + dec(fc) + " --cn "@ + dec(cn),
    }
}

pub open spec fn keri_clone_cmd(
    cn: Seq<char>,
    fc: Option<Seq<char>>,
    keri_type: Option<Seq<char>>,
) -> Seq<char> {
    match keri_type {
        Some(t) => if t == "m"@ && fc is Some {
            "lf keri clone -t m --fc "@ + fc.unwrap() + " --cn "@ + cn
        } else {
            "lf keri clone -t "@ + t + " --cn "@ + cn
        },
        None => "lf keri clone --cn "@ + cn,
    }
}

pub open spec fn noralsy_clone_cmd(cn: Seq<char>, year: Option<Seq<char>>) -> Seq<char> {
    match year {
        Some(y) => "lf noralsy clone --cn "@ + cn + " -y "@ + y,
        None => "lf noralsy clone --cn "@ + cn,
    }
}

/// The error for a password that is not eight hex digits; it names the
/// rejected text.
pub open spec fn password_error(p: Seq<char>) -> Seq<char> {
    "Invalid password: must be exactly 8 hex characters, got '"@ + p + "'"@
}

/// Wipe a T5577 that has a known password.
pub fn build_t5577_wipe_with_password(password: &str) -> (r: Result<String, String>)
    ensures
        r is Ok <==> valid_password(password@),
        r is Ok ==> r->Ok_0@ == "lf t55xx wipe -p "@ + password@,
        r is Err ==> r->Err_0@ == password_error(password@),
{
    match validate_password(password) {
        Err(e) => Err(e),
        Ok(()) => Ok(cat("lf t55xx wipe -p ", password)),
    }
}

/// Adds `-p <password>` to a clone command for a password-protected T5577.
pub fn build_clone_with_password(base_cmd: &str, password: &str) -> (r: Result<String, String>)
    ensures
        r is Ok <==> valid_password(password@),
        r is Ok ==> r->Ok_0@ == base_cmd@ + " -p "@ + password@,
        r is Err ==> r->Err_0@ == password_error(password@),
{
    match validate_password(password) {
        Err(e) => Err(e),
        Ok(()) => {
            let mut s = String::from_str(base_cmd);
            append_str(&mut s, " -p ");
            append_str(&mut s, password);
            Ok(s)
        },
    }
}

/// HID clone with a Wiegand format, H10301 (26-bit) when none is given.
pub fn build_hid_clone(fc: u32, cn: u32, format: Option<&str>) -> (r: String)
    ensures
        r@ == hid_clone_cmd(
            fc as nat,
            cn as nat,
            match format {
                Some(f) => Some(f@),
                None => None,
            },
        ),
{
    let wiegand = match format {
        Some(f) => f,
        None => "H10301",
    };
    let mut r = String::from_str("lf hid clone -w ");
    append_str(&mut r, wiegand);
    append_str(&mut r, " --fc ");
    append_str(&mut r, dec_string(fc as u64).as_str());
    append_str(&mut r, " --cn ");
    append_str(&mut r, dec_string(cn as u64).as_str());
    r
}

/// AWID clone, with the bit length when it is known.
pub fn build_awid_clone(fc: u32, cn: u32, fmt: Option<u32>) -> (r: String)
    ensures
        r@ == awid_clone_cmd(fc as nat, cn as nat, fmt),
{
    let mut r = match fmt {
        Some(f) => {
            let mut r = String::from_str("lf awid clone --fmt ");
            append_str(&mut r, dec_string(f as u64).as_str());
            append_str(&mut r, " --fc ");
            r
        },
        None => String::from_str("lf awid clone --fc "),
    };
    append_str(&mut r, dec_string(fc as u64).as_str());
    append_str(&mut r, " --cn ");
    append_str(&mut r, dec_string(cn as u64).as_str());
    r
}

/// Keri clone: `-t m` with a facility code for MS cards, `-t i` for internal ones.
pub fn build_keri_clone(cn: &str, fc: Option<&str>, keri_type: Option<&str>) -> (r: String)
    ensures
        r@ == keri_clone_cmd(
            cn@,
            match fc {
                Some(f) => Some(f@),
                None => None,
            },
            match keri_type {
                Some(t) => Some(t@),
                None => None,
            },
        ),
{
    match keri_type {
        Some(t) => {
            if str_eq(t, "m") && fc.is_some() {
                let mut r = String::from_str("lf keri clone -t m --fc ");
                append_str(&mut r, fc.unwrap());
                append_str(&mut r, " --cn ");
                append_str(&mut r, cn);
                r
            } else {
                let mut r = String::from_str("lf keri clone -t ");
                append_str(&mut r, t);
                append_str(&mut r, " --cn ");
                append_str(&mut r, cn);
                r
            }
        },
        None => cat("lf keri clone --cn ", cn),
    }
}

/// Noralsy clone with the card number and, when known, the year.
pub fn build_noralsy_clone(cn: &str, year: Option<&str>) -> (r: String)
    ensures
        r@ == noralsy_clone_cmd(
            cn@,
            match year {
                Some(y) => Some(y@),
                None => None,
            },
        ),
{
    let mut r = cat("lf noralsy clone --cn ", cn);
    match year {
        Some(y) => {
            append_str(&mut r, " -y ");
            append_str(&mut r, y);
        },
        None => {},
    }
    r
}

/// A field that holds a decimal `u32`.
pub open spec fn u32_field(d: Fields, k: Seq<char>) -> Option<u32> {
    match d.get_spec(k) {
        Some(v) => parse_u32_spec(v),
        None => None,
    }
}

/// A field that holds a non-empty hex string.
pub open spec fn hex_field(d: Fields, k: Seq<char>) -> Option<Seq<char>> {
    match d.get_spec(k) {
        Some(v) => if is_hex_str(v) {
            Some(v)
        } else {
            None
        },
        None => None,
    }
}

/// A field's value when it is a non-empty hex string, else `dflt`.
pub open spec fn hex_field_or(d: Fields, k: Seq<char>, dflt: Seq<char>) -> Seq<char> {
    match hex_field(d, k) {
        Some(v) => v,
        None => dflt,
    }
}

/// A field that holds a non-empty string of decimal digits.
pub open spec fn dec_field(d: Fields, k: Seq<char>) -> Option<Seq<char>> {
    match d.get_spec(k) {
        Some(v) => if is_dec_str(v) {
            Some(v)
        } else {
            None
        },
        None => None,
    }
}

pub open spec fn u32_or(o: Option<u32>, dflt: u32) -> u32 {
    match o {
        Some(v) => v,
        None => dflt,
    }
}

pub open spec fn hid_format_field(d: Fields) -> Option<Seq<char>> {
    match d.get_spec("format"@) {
        Some(f) => if valid_hid_format(f) {
            Some(f)
        } else {
            None
        },
        None => None,
    }
}

pub open spec fn keri_type_field(d: Fields) -> Option<Seq<char>> {
    match d.get_spec("keri_type"@) {
        Some(t) => if t == "i"@ || t == "m"@ {
            Some(t)
        } else {
            None
        },
        None => None,
    }
}

/// The clone command for a decoded card, or `None` where the protocol cannot
/// be cloned or the fields it needs are missing.
pub open spec fn clone_command_spec(ct: CardType, uid: Seq<char>, d: Fields) -> Option<Seq<char>> {
    let fc = u32_field(d, "facility_code"@);
    let cn = u32_field(d, "card_number"@);
    if !is_alnum_colon_str(uid) {
        None
    } else {
        match ct {
            CardType::EM4100 => Some(em4100_clone_cmd(uid)),
            CardType::HIDProx => match hex_field(d, "raw"@) {
                Some(raw) => Some(hid_clone_raw_cmd(raw)),
                None => if fc is Some && cn is Some {
                    Some(
                        hid_clone_cmd(fc.unwrap() as nat, cn.unwrap() as nat, hid_format_field(d)),
                    )
                } else {
                    None
                },
            },
            CardType::Indala => Some(indala_clone_cmd(field_or_hex(d, uid))),
            CardType::IOProx => if fc is Some && cn is Some {
                Some(
                    ioprox_clone_cmd(
                        fc.unwrap() as nat,
                        cn.unwrap() as nat,
                        u32_or(u32_field(d, "version"@), 0) as nat,
                    ),
                )
            } else {
                Some(ioprox_clone_raw_cmd(uid))
            },
            CardType::AWID => if fc is Some && cn is Some {
                Some(
                    awid_clone_cmd(fc.unwrap() as nat, cn.unwrap() as nat, u32_field(d, "format"@)),
                )
            } else {
                None
            },
            CardType::FDX_B => {
                let country = u32_field(d, "country"@);
                let national = match d.get_spec("national_id"@) {
                    Some(v) => parse_u64_spec(v),
                    None => None,
                };
                if country is Some && national is Some {
                    Some(fdxb_clone_cmd(country.unwrap() as nat, national.unwrap() as nat))
                } else {
                    match hex_field(d, "raw"@) {
                        Some(raw) => Some(fdxb_clone_raw_cmd(raw)),
                        None => Some(fdxb_clone_raw_cmd(uid)),
                    }
                }
            },
            CardType::Paradox => if fc is Some && cn is Some {
                Some(paradox_clone_cmd(fc.unwrap() as nat, cn.unwrap() as nat))
            } else {
                Some(paradox_clone_raw_cmd(uid))
            },
            CardType::Viking => Some(viking_clone_cmd(uid)),
            CardType::Pyramid => if fc is Some && cn is Some {
                Some(pyramid_clone_cmd(fc.unwrap() as nat, cn.unwrap() as nat))
            } else {
                match hex_field(d, "raw"@) {
                    Some(raw) => Some(pyramid_clone_raw_cmd(raw)),
                    None => None,
                }
            },
            CardType::Keri => Some(
                keri_clone_cmd(
                    hex_field_or(d, "card_number"@, uid),
                    dec_field(d, "facility_code"@),
                    keri_type_field(d),
                ),
            ),
            CardType::NexWatch => Some(nexwatch_clone_cmd(uid)),
            CardType::Presco => {
                let sc = u32_field(d, "site_code"@);
                let uc = u32_field(d, "user_code"@);
                if sc is Some && uc is Some {
                    Some(presco_clone_cmd(sc.unwrap() as nat, uc.unwrap() as nat))
                } else {
                    Some(presco_clone_hex_cmd(uid))
                }
            },
            CardType::Nedap => {
                let st = u32_field(d, "subtype"@);
                let cc = u32_field(d, "customer_code"@);
                if st is Some && cc is Some && cn is Some {
                    Some(
                        nedap_clone_cmd(
                            st.unwrap() as nat,
                            cc.unwrap() as nat,
                            cn.unwrap() as nat,
                        ),
                    )
                } else {
                    None
                }
            },
            CardType::GProxII => if fc is Some && cn is Some {
                Some(
                    gproxii_clone_cmd(
                        u32_or(u32_field(d, "xor"@), 0) as nat,
                        u32_or(u32_field(d, "format"@), 26) as nat,
                        fc.unwrap() as nat,
                        cn.unwrap() as nat,
                    ),
                )
            } else {
                None
            },
            CardType::Gallagher => {
                let rc = u32_field(d, "region_code"@);
                let il = u32_field(d, "issue_level"@);
                if rc is Some && fc is Some && cn is Some && il is Some {
                    Some(
                        gallagher_clone_cmd(
                            rc.unwrap() as nat,
                            fc.unwrap() as nat,
                            cn.unwrap() as nat,
                            il.unwrap() as nat,
                        ),
                    )
                } else {
                    None
                }
            },
            CardType::PAC => match hex_field(d, "raw"@) {
                Some(raw) => Some(pac_clone_raw_cmd(raw)),
                None => Some(pac_clone_cmd(hex_field_or(d, "card_number"@, uid))),
            },
            CardType::Noralsy => Some(
                noralsy_clone_cmd(hex_field_or(d, "card_number"@, uid), dec_field(d, "year"@)),
            ),
            CardType::Jablotron => match hex_field(d, "card_number"@) {
                Some(c) => Some(jablotron_clone_cmd(c)),
                None => Some(jablotron_clone_cmd(uid)),
            },
            CardType::SecuraKey => Some(securakey_clone_cmd(field_or_hex(d, uid))),
            CardType::Visa2000 => match cn {
                Some(c) => Some(visa2000_clone_cmd(c as nat)),
                None => None,
            },
            CardType::Motorola => Some(motorola_clone_cmd(field_or_hex(d, uid))),
            CardType::IDTECK => Some(idteck_clone_cmd(field_or_hex(d, uid))),
            _ => None,
        }
    }
}

/// The `raw` field when it is valid hex, else `uid`.
pub open spec fn field_or_hex(d: Fields, uid: Seq<char>) -> Seq<char> {
    match hex_field(d, "raw"@) {
        Some(raw) => raw,
        None => uid,
    }
}

fn u32_field_exec(d: &Fields, k: &str) -> (r: Option<u32>)
    ensures
        r == u32_field(*d, k@),
{
    match d.get(k) {
        Some(v) => parse_u32(v.as_str()),
        None => None,
    }
}

fn hex_field_exec<'a>(d: &'a Fields, k: &str) -> (r: Option<&'a String>)
    ensures
        match r {
            Some(v) => hex_field(*d, k@) == Some(v@),
            None => hex_field(*d, k@) is None,
        },
{
    match d.get(k) {
        Some(v) => match validate_hex(v.as_str(), k) {
            Ok(()) => Some(v),
            Err(_) => None,
        },
        None => None,
    }
}

fn hex_field_or_exec<'a>(d: &'a Fields, k: &str, dflt: &'a str) -> (r: &'a str)
    ensures
        r@ == hex_field_or(*d, k@, dflt@),
{
    match hex_field_exec(d, k) {
        Some(v) => v.as_str(),
        None => dflt,
    }
}

fn dec_field_exec<'a>(d: &'a Fields, k: &str) -> (r: Option<&'a str>)
    ensures
        match r {
            Some(v) => dec_field(*d, k@) == Some(v@),
            None => dec_field(*d, k@) is None,
        },
{
    match d.get(k) {
        Some(v) => if is_decimal(v.as_str()) {
            Some(v.as_str())
        } else {
            None
        },
        None => None,
    }
}

/// The clone command for a card of type `card_type` with display UID `uid`
/// and decoded fields `decoded`. `None` when the UID holds anything but ASCII
/// letters, digits and colons, when the protocol cannot be cloned, and when
/// the named fields a protocol needs are missing and it has no raw fallback.
pub fn build_clone_command(card_type: &CardType, uid: &str, decoded: &Fields) -> (r: Option<String>)
    ensures
        r is Some ==> clean_text(r->0@),
        match (r, clone_command_spec(*card_type, uid@, *decoded)) {
            (Some(a), Some(b)) => a@ == b,
            (None, None) => true,
            _ => false,
        },
{
    proof {
        lemma_clone_command_clean(*card_type, uid@, *decoded);
    }
    if !is_alnum_colon(uid) {
        return None;
    }
    let fc = u32_field_exec(decoded, "facility_code");
    let cn = u32_field_exec(decoded, "card_number");
    match card_type {
        CardType::EM4100 => Some(build_em4100_clone(uid)),
        CardType::HIDProx => {
            // An exact bit copy is preferred: re-encoding is less reliable on weak antennas.
            if let Some(raw) = hex_field_exec(decoded, "raw") {
                return Some(build_hid_clone_raw(raw.as_str()));
            }
            if let (Some(f), Some(c)) = (fc, cn) {
                let fmt = match decoded.get("format") {
                    Some(s) => if validate_hid_format(s.as_str()) {
                        Some(s.as_str())
                    } else {
                        None
                    },
                    None => None,
                };
                return Some(build_hid_clone(f, c, fmt));
            }
            None
        },
        CardType::Indala => match hex_field_exec(decoded, "raw") {
            Some(raw) => Some(build_indala_clone(raw.as_str())),
            None => Some(build_indala_clone(uid)),
        },
        CardType::IOProx => {
            if let (Some(f), Some(c)) = (fc, cn) {
                let vn = match u32_field_exec(decoded, "version") {
                    Some(v) => v,
                    None => 0,
                };
                return Some(build_ioprox_clone(f, c, vn));
            }
            Some(build_ioprox_clone_raw(uid))
        },
        CardType::AWID => {
            if let (Some(f), Some(c)) = (fc, cn) {
                return Some(build_awid_clone(f, c, u32_field_exec(decoded, "format")));
            }
            // The tool's AWID clone takes only named fields.
            None
        },
        CardType::FDX_B => {
            let country = u32_field_exec(decoded, "country");
            let national = match decoded.get("national_id") {
                Some(v) => parse_u64(v.as_str()),
                None => None,
            };
            if let (Some(cc), Some(nid)) = (country, national) {
                return Some(build_fdxb_clone(cc, nid));
            }
            match hex_field_exec(decoded, "raw") {
                Some(raw) => Some(build_fdxb_clone_raw(raw.as_str())),
                None => Some(build_fdxb_clone_raw(uid)),
            }
        },
        CardType::Paradox => {
            if let (Some(f), Some(c)) = (fc, cn) {
                return Some(build_paradox_clone(f, c));
            }
            Some(build_paradox_clone_raw(uid))
        },
        CardType::Viking => Some(build_viking_clone(uid)),
        CardType::Pyramid => {
            if let (Some(f), Some(c)) = (fc, cn) {
                return Some(build_pyramid_clone(f, c));
            }
            match hex_field_exec(decoded, "raw") {
                Some(raw) => Some(build_pyramid_clone_raw(raw.as_str())),
                None => None,
            }
        },
        CardType::Keri => {
            let c = hex_field_or_exec(decoded, "card_number", uid);
            let f = dec_field_exec(decoded, "facility_code");
            let kt = match decoded.get("keri_type") {
                Some(t) => if str_eq(t.as_str(), "i") || str_eq(t.as_str(), "m") {
                    Some(t.as_str())
                } else {
                    None
                },
                None => None,
            };
            Some(build_keri_clone(c, f, kt))
        },
        CardType::NexWatch => Some(build_nexwatch_clone(uid)),
        CardType::Presco => {
            let sc = u32_field_exec(decoded, "site_code");
            let uc = u32_field_exec(decoded, "user_code");
            if let (Some(s), Some(u)) = (sc, uc) {
                return Some(build_presco_clone(s, u));
            }
            Some(build_presco_clone_hex(uid))
        },
        CardType::Nedap => {
            let st = u32_field_exec(decoded, "subtype");
            let cc = u32_field_exec(decoded, "customer_code");
            if let (Some(s), Some(k), Some(c)) = (st, cc, cn) {
                return Some(build_nedap_clone(s, k, c));
            }
            None
        },
        CardType::GProxII => {
            if let (Some(f), Some(c)) = (fc, cn) {
                let xor = match u32_field_exec(decoded, "xor") {
                    Some(v) => v,
                    None => 0,
                };
                let fmt = match u32_field_exec(decoded, "format") {
                    Some(v) => v,
                    None => 26,
                };
                return Some(build_gproxii_clone(xor, fmt, f, c));
            }
            None
        },
        CardType::Gallagher => {
            let rc = u32_field_exec(decoded, "region_code");
            let il = u32_field_exec(decoded, "issue_level");
            if let (Some(r), Some(f), Some(c), Some(i)) = (rc, fc, cn, il) {
                return Some(build_gallagher_clone(r, f, c, i));
            }
            None
        },
        CardType::PAC => {
            if let Some(raw) = hex_field_exec(decoded, "raw") {
                return Some(build_pac_clone_raw(raw.as_str()));
            }
            Some(build_pac_clone(hex_field_or_exec(decoded, "card_number", uid)))
        },
        CardType::Noralsy => {
            let c = hex_field_or_exec(decoded, "card_number", uid);
            Some(build_noralsy_clone(c, dec_field_exec(decoded, "year")))
        },
        CardType::Jablotron => match hex_field_exec(decoded, "card_number") {
            Some(c) => Some(build_jablotron_clone(c.as_str())),
            None => Some(build_jablotron_clone(uid)),
        },
        CardType::SecuraKey => match hex_field_exec(decoded, "raw") {
            Some(raw) => Some(build_securakey_clone(raw.as_str())),
            None => Some(build_securakey_clone(uid)),
        },
        CardType::Visa2000 => match cn {
            Some(c) => Some(build_visa2000_clone(c)),
            None => None,
        },
        CardType::Motorola => match hex_field_exec(decoded, "raw") {
            Some(raw) => Some(build_motorola_clone(raw.as_str())),
            None => Some(build_motorola_clone(uid)),
        },
        CardType::IDTECK => match hex_field_exec(decoded, "raw") {
            Some(raw) => Some(build_idteck_clone(raw.as_str())),
            None => Some(build_idteck_clone(uid)),
        },
        // Read-only LF protocols and the HF families have no clone command here.
        _ => None,
    }
}

/// `hf mf autopwn`, with `--4k` for 4K cards.
pub fn build_hf_autopwn(card_type: &CardType) -> (r: String)
    ensures
        r@ == if *card_type is MifareClassic4K {
            "hf mf autopwn --4k"@
        } else {
            "hf mf autopwn"@
        },
{
    match card_type {
        CardType::MifareClassic4K => String::from_str("hf mf autopwn --4k"),
        _ => String::from_str("hf mf autopwn"),
    }
}

/// The wipe command for a blank family; T5577 takes an optional password.
pub open spec fn wipe_command_spec(b: BlankType, password: Option<Seq<char>>) -> Option<Seq<char>> {
    match b {
        BlankType::EM4305 => Some("lf em 4x05 wipe"@),
        BlankType::T5577 => match password {
            Some(p) => if valid_password(p) {
                Some("lf t55xx wipe -p "@ + p)
            } else {
                None
            },
            None => Some("lf t55xx wipe"@),
        },
        _ => None,
    }
}

/// The wipe command for `blank_type`; `None` for families without one and
/// for an invalid password.
pub fn build_wipe_command(blank_type: &BlankType, password: Option<&str>) -> (r: Option<String>)
    ensures
        match (
            r,
            wipe_command_spec(
                *blank_type,
                match password {
                    Some(p) => Some(p@),
                    None => None,
                },
            ),
        ) {
            (Some(a), Some(b)) => a@ == b,
            (None, None) => true,
            _ => false,
        },
{
    match blank_type {
        BlankType::EM4305 => Some(String::from_str(build_em4305_wipe())),
        BlankType::T5577 => match password {
            Some(pw) => match build_t5577_wipe_with_password(pw) {
                Ok(s) => Some(s),
                Err(_) => None,
            },
            None => Some(String::from_str(build_t5577_wipe())),
        },
        _ => None,
    }
}

/// The fixed parts of the clone commands hold no separator or line break.
proof fn lemma_clone_literals_clean()
    ensures
        clean_text("lf em 410x clone --id "@),
        clean_text("lf hid clone -r "@),
        clean_text("lf hid clone -w "@),
        clean_text(" --fc "@),
        clean_text(" --cn "@),
        clean_text("lf indala clone --raw "@),
        clean_text("lf io clone --vn "@),
        clean_text("lf io clone --raw "@),
        clean_text("lf awid clone --fmt "@),
        clean_text("lf awid clone --fc "@),
        clean_text("lf fdxb clone --country "@),
        clean_text(" --national "@),
        clean_text("lf fdxb clone --raw "@),
        clean_text("lf paradox clone --fc "@),
        clean_text("lf paradox clone --raw "@),
        clean_text("lf viking clone --cn "@),
        clean_text("lf pyramid clone --fc "@),
        clean_text("lf pyramid clone --raw "@),
        clean_text("lf keri clone -t m --fc "@),
        clean_text("lf keri clone -t "@),
        clean_text("lf keri clone --cn "@),
        clean_text("lf nexwatch clone --raw "@),
        clean_text("lf presco clone --sitecode "@),
        clean_text(" --usercode "@),
        clean_text("lf presco clone -d "@),
        clean_text("lf nedap clone --st "@),
        clean_text(" --cc "@),
        clean_text(" --id "@),
        clean_text("lf gproxii clone --xor "@),
        clean_text(" --fmt "@),
        clean_text("lf gallagher clone --rc "@),
        clean_text(" --il "@),
        clean_text("lf pac clone --raw "@),
        clean_text("lf pac clone --cn "@),
        clean_text("lf noralsy clone --cn "@),
        clean_text(" -y "@),
        clean_text("lf jablotron clone --cn "@),
        clean_text("lf securakey clone --raw "@),
        clean_text("lf visa2000 clone --cn "@),
        clean_text("lf motorola clone --raw "@),
        clean_text("lf idteck clone --raw "@),
        clean_text("H10301"@),
        clean_text("H10302"@),
        clean_text("H10304"@),
        clean_text("Corp1000"@),
        clean_text("i"@),
        clean_text("m"@),
{
    reveal_strlit("lf em 410x clone --id ");
    reveal_strlit("lf hid clone -r ");
    reveal_strlit("lf hid clone -w ");
    reveal_strlit(" --fc ");
    reveal_strlit(" --cn ");
    reveal_strlit("lf indala clone --raw ");
    reveal_strlit("lf io clone --vn ");
    reveal_strlit("lf io clone --raw ");
    reveal_strlit("lf awid clone --fmt ");
    reveal_strlit("lf awid clone --fc ");
    reveal_strlit("lf fdxb clone --country ");
    reveal_strlit(" --national ");
    reveal_strlit("lf fdxb clone --raw ");
    reveal_strlit("lf paradox clone --fc ");
    reveal_strlit("lf paradox clone --raw ");
    reveal_strlit("lf viking clone --cn ");
    reveal_strlit("lf pyramid clone --fc ");
    reveal_strlit("lf pyramid clone --raw ");
    reveal_strlit("lf keri clone -t m --fc ");
    reveal_strlit("lf keri clone -t ");
    reveal_strlit("lf keri clone --cn ");
    reveal_strlit("lf nexwatch clone --raw ");
    reveal_strlit("lf presco clone --sitecode ");
    reveal_strlit(" --usercode ");
    reveal_strlit("lf presco clone -d ");
    reveal_strlit("lf nedap clone --st ");
    reveal_strlit(" --cc ");
    reveal_strlit(" --id ");
    reveal_strlit("lf gproxii clone --xor ");
    reveal_strlit(" --fmt ");
    reveal_strlit("lf gallagher clone --rc ");
    reveal_strlit(" --il ");
    reveal_strlit("lf pac clone --raw ");
    reveal_strlit("lf pac clone --cn ");
    reveal_strlit("lf noralsy clone --cn ");
    reveal_strlit(" -y ");
    reveal_strlit("lf jablotron clone --cn ");
    reveal_strlit("lf securakey clone --raw ");
    reveal_strlit("lf visa2000 clone --cn ");
    reveal_strlit("lf motorola clone --raw ");
    reveal_strlit("lf idteck clone --raw ");
    reveal_strlit("H10301");
    reveal_strlit("H10302");
    reveal_strlit("H10304");
    reveal_strlit("Corp1000");
    reveal_strlit("i");
    reveal_strlit("m");
}

/// No clone command holds the tool's command separator or a line break:
/// every interpolated value is a checked UID, a hex or decimal field, a
/// number or a fixed word.
#[verifier::rlimit(100)]
#[verifier::spinoff_prover]
pub proof fn lemma_clone_command_clean(ct: CardType, uid: Seq<char>, d: Fields)
    ensures
        clone_command_spec(ct, uid, d) is Some ==> clean_text(clone_command_spec(ct, uid, d)->0),
{
    broadcast use lemma_clean_concat, lemma_dec_clean;

    lemma_clone_literals_clean();
    lemma_alphabets_clean(uid);
    lemma_field_clean(d, "raw"@);
    lemma_field_clean(d, "card_number"@);
    lemma_field_clean(d, "facility_code"@);
    lemma_field_clean(d, "year"@);
    match ct {
        CardType::HIDProx => {
            assert(hid_format_field(d) is Some ==> clean_text(hid_format_field(d)->0));
        },
        CardType::Keri => {
            assert(keri_type_field(d) is Some ==> clean_text(keri_type_field(d)->0));
        },
        _ => {},
    }
}

proof fn lemma_field_clean(d: Fields, k: Seq<char>)
    ensures
        hex_field(d, k) is Some ==> clean_text(hex_field(d, k)->0),
        dec_field(d, k) is Some ==> clean_text(dec_field(d, k)->0),
{
    if hex_field(d, k) is Some {
        lemma_alphabets_clean(hex_field(d, k)->0);
    }
    if dec_field(d, k) is Some {
        lemma_alphabets_clean(dec_field(d, k)->0);
    }
}

/// The protocols whose clone command takes only named fields, with no raw
/// fallback.
pub open spec fn named_fields_only(ct: CardType) -> bool {
    ct is AWID || ct is Nedap || ct is GProxII || ct is Gallagher || ct is Visa2000
}

/// The named fields such a protocol needs, each present as a decimal `u32`.
pub open spec fn required_fields_present(ct: CardType, d: Fields) -> bool {
    match ct {
        CardType::AWID | CardType::GProxII => u32_field(d, "facility_code"@) is Some && u32_field(
            d,
            "card_number"@,
        ) is Some,
        CardType::Nedap => u32_field(d, "subtype"@) is Some && u32_field(d, "customer_code"@) is Some
            && u32_field(d, "card_number"@) is Some,
        CardType::Gallagher => u32_field(d, "region_code"@) is Some && u32_field(
            d,
            "facility_code"@,
        ) is Some && u32_field(d, "card_number"@) is Some && u32_field(d, "issue_level"@) is Some,
        CardType::Visa2000 => u32_field(d, "card_number"@) is Some,
        _ => false,
    }
}

/// For the protocols without a raw fallback, a valid UID yields no command
/// when a required field is missing or not a number, and otherwise exactly
/// the command built from the fields.
pub proof fn lemma_named_field_protocols(ct: CardType, uid: Seq<char>, d: Fields)
    requires
        named_fields_only(ct),
        is_alnum_colon_str(uid),
    ensures
        !required_fields_present(ct, d) ==> clone_command_spec(ct, uid, d) is None,
        required_fields_present(ct, d) ==> clone_command_spec(ct, uid, d) == Some(
            match ct {
                CardType::AWID => awid_clone_cmd(
                    u32_field(d, "facility_code"@)->0 as nat,
                    u32_field(d, "card_number"@)->0 as nat,
                    u32_field(d, "format"@),
                ),
                CardType::Nedap => nedap_clone_cmd(
                    u32_field(d, "subtype"@)->0 as nat,
                    u32_field(d, "customer_code"@)->0 as nat,
                    u32_field(d, "card_number"@)->0 as nat,
                ),
                CardType::GProxII => gproxii_clone_cmd(
                    u32_or(u32_field(d, "xor"@), 0) as nat,
                    u32_or(u32_field(d, "format"@), 26) as nat,
                    u32_field(d, "facility_code"@)->0 as nat,
                    u32_field(d, "card_number"@)->0 as nat,
                ),
                CardType::Gallagher => gallagher_clone_cmd(
                    u32_field(d, "region_code"@)->0 as nat,
                    u32_field(d, "facility_code"@)->0 as nat,
                    u32_field(d, "card_number"@)->0 as nat,
                    u32_field(d, "issue_level"@)->0 as nat,
                ),
                _ => visa2000_clone_cmd(u32_field(d, "card_number"@)->0 as nat),
            },
        ),
{
}

/// The UID check comes first: a UID holding anything but ASCII letters,
/// digits and colons never yields a command, whatever the protocol.
pub proof fn lemma_invalid_uid_rejected(ct: CardType, uid: Seq<char>, d: Fields)
    requires
        !is_alnum_colon_str(uid),
    ensures
        clone_command_spec(ct, uid, d) is None,
{
}

} // verus!
