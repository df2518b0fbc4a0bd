//! Decoding of the tool's console output into card identities, chip status
//! and streaming progress events. Every entry point strips ANSI sequences
//! first and reports "no match" rather than failing on unexpected text.

use vstd::prelude::*;

use crate::ansi::{strip_ansi, strip_spec};
use crate::fields::{lookup, Fields};
use crate::pattern::{group, group_spec, is_match, matches_spec};
use crate::text::{
    append_str, cat, chars_of, contains, dec_string, eq_ignore_case, hex_value, is_hex_char,
    is_hex_str, is_ws, join_words_upper, keep_hex, lines_of, lines_spec, lower, lower_of,
    parse_hex_u32, parse_u32, remove_ws, seq_contains, str_eq, to_lower, to_upper, trim, trim_spec,
    upper_of, views, words_upper,
};
use crate::types::{AutopwnEvent, CardData, CardType, MagicGeneration, T5577Status};

verus! {

pub const EM4100_ID_RE: &'static str = r"EM 410x ID\s*[\-:]?\s*([0-9A-Fa-f]{10})";
pub const HID_FC_CN_RE: &'static str = r"(?i)FC[:/\s]*(\d+)\s*[,;]?\s*CN[:/\s]*(\d+)";
pub const HID_RAW_RE: &'static str = r"(?i)(?:HID|Prox).*?RAW[:/\s]*([0-9A-Fa-f]+)";
pub const STANDALONE_RAW_RE: &'static str = r"(?im)^\s*\[[+=]\]\s*raw[:/\s]+([0-9A-Fa-f]+)";
pub const HID_FORMAT_RE: &'static str = r"(?i)(?:H10301|H10302|H10304|Corp\s*1000|26[- ]?bit|34[- ]?bit|35[- ]?bit|37[- ]?bit)";
pub const INDALA_RAW_RE: &'static str = r"(?i)Indala.*?Raw[:/\s]*([0-9A-Fa-f]+)";
pub const INDALA_UID_RE: &'static str = r"(?i)Indala.*?ID[:/\s]*([0-9A-Fa-f]+)";
pub const IOPROX_FC_CN_RE: &'static str = r"(?i)IO\s*Prox.*?(?:VN[:/\s]*(\d+))?.*?FC[:/\s]*(\d+).*?CN[:/\s]*(\d+)";
pub const IOPROX_XSF_RE: &'static str = r"(?i)IO\s*Prox.*?XSF\((\d+)\)([0-9A-Fa-f]+):(\d+)";
pub const IOPROX_RAW_RE: &'static str = r"(?i)IO\s*Prox.*?(?:ID|Raw)[:/\s]*([0-9A-Fa-f]+)";
pub const AWID_RE: &'static str = r"(?i)AWID.*?FC[:/\s]*(\d+).*?(?:CN|Card)[:/\s]*(\d+)";
pub const AWID_FMT_RE: &'static str = r"(?i)AWID\s*(?:-\s*)?(?:len[:/\s]*)?(\d+)(?:\s*bit)?";
pub const FDXB_RE: &'static str = r"(?i)FDX-?B.*?Country[:/\s]*(\d+).*?(?:National|ID)[:/\s]*(\d+)";
pub const FDXB_ANIMAL_ID_RE: &'static str = r"Animal\s+ID[.\s]+(\d+)-(\d+)";
pub const PYRAMID_FC_CN_RE: &'static str = r"(?i)Pyramid.*?FC[:/\s]*(\d+).*?Card[:/\s]*(\d+)";
pub const PYRAMID_RAW_RE: &'static str = r"(?i)Pyramid.*?Raw[:/\s]*([0-9A-Fa-f]+)";
pub const PARADOX_FC_CN_RE: &'static str = r"(?i)Paradox.*?FC[:/\s]*(\d+).*?(?:Card|CN)[:/\s]*(\d+)";
pub const PARADOX_RAW_RE: &'static str = r"(?i)Paradox.*?Raw[:/\s]*([0-9A-Fa-f]+)";
pub const KERI_RE: &'static str = r"(?i)Keri.*?(?:Internal|MS|Raw)[:/\s]*([0-9A-Fa-f]+)";
pub const KERI_INTERNAL_ID_RE: &'static str = r"(?i)Internal\s+ID[:/\s]*(\d+)";
pub const KERI_MS_FC_CN_RE: &'static str = r"(?i)(?:Descrambled\s+)?MS.*?FC[:/\s]*(\d+).*?Card[:/\s]*(\d+)";
pub const NEDAP_SUB_RE: &'static str = r"(?i)Nedap.*?Sub(?:type)?[:/\s]*(\d+)";
pub const NEDAP_CC_RE: &'static str = r"(?i)customer\s*code[:/\s]*(\d+)";
pub const GPROXII_FC_CN_RE: &'static str = r"(?i)G-?Prox.*?FC[:/\s]*(\d+).*?Card[:/\s]*(\d+)";
pub const GPROXII_XOR_RE: &'static str = r"(?i)xor[:/\s]*(\d+)";
pub const GPROXII_FMT_RE: &'static str = r"(?i)Len[:/\s]*(\d+)";
pub const GALLAGHER_RE: &'static str = r"(?i)Gallagher.*?Region(?:\s+Code)?[:/\s]*(\d+).*?Facility(?:\s+Code)?[:/\s]*(\d+).*?Card\s+(?:Number|No\.?)[:/\s]*(\d+).*?Issue\s+Level[:/\s]*(\d+)";
pub const GALLAGHER_RC_RE: &'static str = r"(?i)Region(?:\s+Code)?[:/\s]*(\d+)";
pub const GALLAGHER_FC_RE: &'static str = r"(?i)Facility(?:\s+Code)?[:/\s]*(\d+)";
pub const GALLAGHER_CN_RE: &'static str = r"(?i)Card\s+(?:Number|No\.?)[:/\s]*(\d+)";
pub const GALLAGHER_IL_RE: &'static str = r"(?i)Issue\s+Level[:/\s]*(\d+)";
pub const PAC_DETECT_RE: &'static str = r"(?i)\[\+\].*\b(?:PAC|Stanley)\b";
pub const PAC_CN_RE: &'static str = r"(?i)PAC(?:/Stanley)?.*?Card[:/\s]*([0-9A-Fa-f]+)";
pub const PAC_RAW_RE: &'static str = r"(?i)PAC(?:/Stanley)?.*?Raw[:/\s]*([0-9A-Fa-f]+)";
pub const NORALSY_RE: &'static str = r"(?i)Noralsy.*?Card[:/\s]*(\d+)(?:.*?Year[:/\s]*(\d+))?";
pub const NORALSY_RAW_RE: &'static str = r"(?i)Noralsy.*?Raw[:/\s]*([0-9A-Fa-f]+)";
pub const JABLOTRON_RE: &'static str = r"(?i)Jablotron.*?Card[:/\s]*([0-9A-Fa-f]+)";
pub const SECURAKEY_RE: &'static str = r"(?i)Secura\s*[Kk]ey.*?Raw[:/\s]+([0-9A-Fa-f]+)";
pub const VISA2000_RE: &'static str = r"(?i)Visa2000.*?Card[:/\s]*(\d+)";
pub const MOTOROLA_RE: &'static str = r"(?i)Motorola.*?Raw[:/\s]*([0-9A-Fa-f]+)";
pub const IDTECK_RE: &'static str = r"(?i)IDTECK.*?Raw[:/\s]*([0-9A-Fa-f]+)";
pub const NEXWATCH_ID_RE: &'static str = r"(?i)(?:NexWatch|NXT)\s*ID[:/\s]*(\d+)";
pub const NEXWATCH_88BIT_ID_RE: &'static str = r"(?i)88bit\s+id\s*:\s*(\d+)";
pub const NEXWATCH_RAW_RE: &'static str = r"(?i)(?:NexWatch|NXT).*?Raw[:/\s]*([0-9A-Fa-f]+)";
pub const VIKING_RAW_RE: &'static str = r"(?i)Viking.*?Raw[:/\s]*([0-9A-Fa-f]+)";
pub const COTAG_RE: &'static str = r"(?i)\[\+\].*COTAG";
pub const EM4X50_RE: &'static str = r"(?i)\[\+\].*EM4x50";
pub const HITAG_RE: &'static str = r"(?i)\[\+\].*Hitag";
pub const HF_UID_RE: &'static str = r"(?i)UID\s*:\s*((?:[0-9A-Fa-f]{2}[\s:]*){4,10})";
pub const HF_ATQA_RE: &'static str = r"(?i)ATQA\s*:\s*([0-9A-Fa-f]{2}\s+[0-9A-Fa-f]{2})";
pub const HF_SAK_RE: &'static str = r"(?i)SAK\s*:\s*([0-9A-Fa-f]{2})";
pub const HF_ATS_RE: &'static str = r"(?i)ATS\s*:\s*((?:[0-9A-Fa-f]{2}\s*)+)";
pub const HF_PRNG_RE: &'static str = r"(?i)Prng\s+detection[\s.:]+(WEAK|HARD|STATIC)";
pub const HF_MAGIC_RE: &'static str = r"(?i)(?:Magic|Gen(?:eration)?)\s*(?:capabilities)?[\s.:]*(?::[\s.]*)?(Gen\s*1[ab]?|CUID|USCUID|Gen\s*2|Gen\s*3|APDU|UFUID|GDM|Gen\s*4\s*(?:GTU|GDM)?|[Uu]ltimate)";
pub const HF_ICLASS_RE: &'static str = r"(?i)\[\+\].*(?:iCLASS|Picopass)";
pub const HF_ICLASS_CSN_RE: &'static str = r"(?i)CSN\s*:\s*([0-9A-Fa-f\s]+)";
pub const HF_DESFIRE_RE: &'static str = r"(?i)(?:MIFARE\s+)?DESFire(?:\s+(?:EV[123]|Light))?";
pub const HF_NTAG_TYPE_RE: &'static str = r"(?i)NTAG\s*(\d{3})";
pub const HF_MFU_TYPE_RE: &'static str = r"(?i)(?:MIFARE\s+)?Ultralight(?:\s+(EV1|C|Nano|AES))?";
pub const AUTOPWN_KEYS_RE: &'static str = r"found\s+(\d+)\s*/\s*(\d+)\s+keys";
pub const AUTOPWN_KEY_FOUND_RE: &'static str = r"(?i)found\s+valid\s+key\s*\[\s*([0-9A-Fa-f]{12})\s*\]";
pub const AUTOPWN_DUMP_OK_RE: &'static str = r"(?i)Succeeded\s+in\s+dumping\s+all\s+blocks";
pub const AUTOPWN_DUMP_PARTIAL_RE: &'static str = r"(?i)Dump\s+file\s+is\s+PARTIAL";
pub const AUTOPWN_DUMP_SAVED_RE: &'static str = r"(?i)saved\s+.*?(?:to\s+(?:binary\s+)?file\s+[`]?|file\s+)([^\s`]+\.(?:bin|json|eml))";
pub const AUTOPWN_FAIL_RE: &'static str = r"(?i)all\s+key\s+recovery\s+attempts?\s+failed";
pub const AUTOPWN_TIME_RE: &'static str = r"(?i)autopwn\s+execution\s+time\s*:\s*(\d+)\s*seconds?";
pub const VALID_TAG_RE: &'static str = r"\[\+\]\s*Valid\s+(\S+)\s+.*?found";
pub const T5577_CHIP_RE: &'static str = r"(?i)Chip\s*(?:type)?\.+\s*(T55x7|T5555|T5577)";
pub const T5577_PASSWORD_RE: &'static str = r"(?i)Password\s*(?:set)?\.+\s*(Yes|No)";
pub const T5577_BLOCK0_RE: &'static str = r"(?i)Block0\.+\s*([0-9A-Fa-f]{8})";
pub const T5577_MOD_RE: &'static str = r"(?i)Modulation\.+\s*(.+)";
pub const T5577_PASSWORD_FOUND_RE: &'static str = r"(?i)\[\+\]\s*(?:Found valid )?[Pp]assword[:\s]+([0-9A-Fa-f]{8})";
pub const EM4305_WORD_RE: &'static str = r"(?i)(?:Word|Address)\s*0+\s*[:|]\s*([0-9A-Fa-f]{8})";
pub const HEX_BLOCK_RE: &'static str = r"(?:\b0[xX])?([0-9A-Fa-f]{8,})\b";
pub const PRESCO_RE: &'static str = r"(?i)Presco.*?(?:Card|Full\s*code)[:/\s]*([0-9A-Fa-f]+)";
pub const PRESCO_SC_UC_RE: &'static str = r"(?i)Presco.*?Site\s*(?:code)?[:/\s]*(\d+).*?User\s*(?:code)?[:/\s]*(\d+)";
pub const NEDAP_CARD_RE: &'static str = r"(?i)Nedap.*?(?:Card|ID)[:/\s]*(\d+)";
pub const VIKING_ID_RE: &'static str = r"(?i)Viking.*?(?:Card(?:\s*ID)?|ID)[:/\s]*([0-9A-Fa-f]+)";

/// Marker of an `lf search` that found nothing.
pub const NO_LF_TAG: &'static str = "No known 125/134 kHz tags found";

/// `d` with `v` stored under `k`.
fn put(d: &mut Fields, k: &str, v: &str)
    ensures
        final(d).entries_view() == old(d).entries_view().push((k@, v@)),
        final(d).get_spec(k@) == Some(v@),
        forall|j: Seq<char>| j != k@ ==> #[trigger] final(d).get_spec(j) == old(d).get_spec(j),
{
    d.insert(String::from_str(k), String::from_str(v));
}

/// A field bag holding only the protocol name under `type`.
fn typed(name: &str) -> (d: Fields)
    ensures
        d.get_spec("type"@) == Some(name@),
        d.entries_view() == typed_spec(name@),
{
    let mut d = Fields::new();
    put(&mut d, "type", name);
    assert(d.entries_view() =~= typed_spec(name@));
    d
}

/// Group `k` of `pattern` in `text`, upper-cased.
fn upper_group(pattern: &str, text: &str, k: usize) -> (r: Option<String>)
    ensures
        match r {
            Some(s) => group_spec(pattern@, text@, k as int) is Some && s@ == upper_of(
                group_spec(pattern@, text@, k as int)->0,
            ),
            None => group_spec(pattern@, text@, k as int) is None,
        },
{
    match group(pattern, text, k) {
        Some(s) => Some(to_upper(s.as_str())),
        None => None,
    }
}

/// `"<pa><a>:<pb><b>"`, the display UID of field-based protocols.
fn pair_uid(pa: &str, a: &str, pb: &str, b: &str) -> (r: String)
    ensures
        r@ == pa@ + a@ + ":"@ + pb@ + b@,
{
    let mut s = cat(pa, a);
    append_str(&mut s, ":");
    append_str(&mut s, pb);
    append_str(&mut s, b);
    s
}

fn found(ct: CardType, uid: String, raw: String, decoded: Fields) -> (r: Option<(CardType, CardData)>)
    ensures
        r is Some && r.unwrap().0 == ct && r.unwrap().1.uid == uid && r.unwrap().1.raw == raw
            && r.unwrap().1.decoded == decoded,
{
    Some((ct, CardData { uid, raw, decoded }))
}

/// The first run of eight or more hex digits, upper-cased; the fallback used
/// when a protocol name was seen but no dedicated pattern matched.
fn extract_first_hex_block(s: &str) -> (r: Option<String>)
    ensures
        match r {
            Some(h) => group_spec(HEX_BLOCK_RE@, s@, 1) is Some && h@ == upper_of(
                group_spec(HEX_BLOCK_RE@, s@, 1)->0,
            ),
            None => group_spec(HEX_BLOCK_RE@, s@, 1) is None,
        },
{
    upper_group(HEX_BLOCK_RE, s, 1)
}

/// The raw-hex fallback of a protocol: a low-confidence result marked
/// `raw_fallback`, from which no clone command can be built.
fn hex_fallback(ct: CardType, name: &str, clean: &str) -> (r: Option<(CardType, CardData)>)
    ensures
        r is Some ==> r.unwrap().0 == ct && r.unwrap().1.decoded.get_spec("raw_fallback"@) == Some("true"@),
        r is Some <==> has_group(HEX_BLOCK_RE@, clean@, 1),
        card_is(r, hex_fallback_spec(ct, name@, clean@)),
{
    match extract_first_hex_block(clean) {
        Some(hex) => {
            let mut d = typed(name);
            put(&mut d, "raw_fallback", "true");
            let raw = hex.clone();
            found(ct, hex, raw, d)
        },
        None => None,
    }
}

fn parse_hid(clean: &str) -> (r: Option<(CardType, CardData)>)
    ensures
        r is Some ==> r.unwrap().0 == CardType::HIDProx,
        r is Some <==> hid_found(clean@),
        card_is(r, hid_spec(clean@)),
{
    let mut decoded = typed("HID Prox");
    if let Some(fmt) = group(HID_FORMAT_RE, clean, 0) {
        put(&mut decoded, "format", fmt.as_str());
    }
    let mut uid: Option<String> = None;
    if let (Some(fc), Some(cn)) = (group(HID_FC_CN_RE, clean, 1), group(HID_FC_CN_RE, clean, 2)) {
        put(&mut decoded, "facility_code", fc.as_str());
        put(&mut decoded, "card_number", cn.as_str());
        if fc.unicode_len() > 0 && cn.unicode_len() > 0 {
            uid = Some(pair_uid("FC", fc.as_str(), "CN", cn.as_str()));
        }
    }
    let raw = match upper_group(HID_RAW_RE, clean, 1) {
        Some(r) => r,
        // The raw bits may stand alone on a "[+] raw: <hex>" line.
        None => match upper_group(STANDALONE_RAW_RE, clean, 1) {
            Some(r) => r,
            None => String::new(),
        },
    };
    let uid = match uid {
        Some(u) => u,
        None => if raw.unicode_len() > 0 {
            raw.clone()
        } else {
            return None;
        },
    };
    if raw.unicode_len() > 0 {
        put(&mut decoded, "raw", raw.as_str());
    }
    found(CardType::HIDProx, uid, raw, decoded)
}

fn parse_ioprox(clean: &str) -> (r: Option<(CardType, CardData)>)
    ensures
        r is Some ==> r.unwrap().0 == CardType::IOProx,
        r is Some <==> ioprox_found(clean@),
        card_is(r, ioprox_spec(clean@)),
{
    let mut decoded = typed("IOProx");
    // XSF form "XSF(01)65:01337": version decimal, facility hex, card decimal.
    if let (Some(vn), Some(fc_hex), Some(cn)) = (
        group(IOPROX_XSF_RE, clean, 1),
        group(IOPROX_XSF_RE, clean, 2),
        group(IOPROX_XSF_RE, clean, 3),
    ) {
        let fc_dec = match parse_hex_u32(fc_hex.as_str()) {
            Some(n) => dec_string(n as u64),
            None => fc_hex.clone(),
        };
        put(&mut decoded, "version", vn.as_str());
        put(&mut decoded, "facility_code", fc_dec.as_str());
        put(&mut decoded, "card_number", cn.as_str());
        if let Some(raw) = upper_group(IOPROX_RAW_RE, clean, 1) {
            put(&mut decoded, "raw", raw.as_str());
        }
        let uid = pair_uid("FC", fc_dec.as_str(), "CN", cn.as_str());
        return found(CardType::IOProx, uid, String::new(), decoded);
    }
    if let (Some(fc), Some(cn)) = (group(IOPROX_FC_CN_RE, clean, 2), group(IOPROX_FC_CN_RE, clean, 3)) {
        let vn = match group(IOPROX_FC_CN_RE, clean, 1) {
            Some(v) => v,
            None => String::from_str("0"),
        };
        put(&mut decoded, "version", vn.as_str());
        put(&mut decoded, "facility_code", fc.as_str());
        put(&mut decoded, "card_number", cn.as_str());
        let uid = pair_uid("FC", fc.as_str(), "CN", cn.as_str());
        return found(CardType::IOProx, uid, String::new(), decoded);
    }
    if let Some(uid) = upper_group(IOPROX_RAW_RE, clean, 1) {
        put(&mut decoded, "id", uid.as_str());
        let raw = uid.clone();
        return found(CardType::IOProx, uid, raw, decoded);
    }
    None
}

fn parse_awid(clean: &str) -> (r: Option<(CardType, CardData)>)
    ensures
        r is Some ==> r.unwrap().0 == CardType::AWID,
        r is Some <==> (has_group(AWID_RE@, clean@, 1) && has_group(AWID_RE@, clean@, 2)),
        card_is(r, awid_spec(clean@)),
{
    let mut decoded = typed("AWID");
    if let Some(fmt) = group(AWID_FMT_RE, clean, 1) {
        put(&mut decoded, "format", fmt.as_str());
    }
    if let (Some(fc), Some(cn)) = (group(AWID_RE, clean, 1), group(AWID_RE, clean, 2)) {
        put(&mut decoded, "facility_code", fc.as_str());
        put(&mut decoded, "card_number", cn.as_str());
        let uid = pair_uid("FC", fc.as_str(), "CN", cn.as_str());
        let raw = uid.clone();
        return found(CardType::AWID, uid, raw, decoded);
    }
    None
}

fn fdxb_from(pattern: &str, clean: &str, decoded: &mut Fields) -> (r: Option<String>)
    ensures
        r is Some <==> (has_group(pattern@, clean@, 1) && has_group(pattern@, clean@, 2)),
        match r {
            Some(u) => u@ == pair(
                Seq::empty(),
                group_spec(pattern@, clean@, 1)->0,
                Seq::empty(),
                group_spec(pattern@, clean@, 2)->0,
            ) && final(decoded).entries_view() == old(decoded).entries_view().push(
                ("country"@, group_spec(pattern@, clean@, 1)->0),
            ).push(("national_id"@, group_spec(pattern@, clean@, 2)->0)),
            None => final(decoded).entries_view() == old(decoded).entries_view(),
        },
{
    if let (Some(country), Some(national)) = (group(pattern, clean, 1), group(pattern, clean, 2)) {
        put(decoded, "country", country.as_str());
        put(decoded, "national_id", national.as_str());
        proof {
            reveal_strlit("");
            assert(""@ =~= Seq::<char>::empty());
        }
        return Some(pair_uid("", country.as_str(), "", national.as_str()));
    }
    None
}

fn parse_fdxb(clean: &str) -> (r: Option<(CardType, CardData)>)
    ensures
        r is Some ==> r.unwrap().0 == CardType::FDX_B,
        r is Some <==> fdxb_found(clean@),
        card_is(r, fdxb_spec(clean@)),
{
    let mut decoded = typed("FDX-B");
    if let Some(uid) = fdxb_from(FDXB_RE, clean, &mut decoded) {
        return found(CardType::FDX_B, uid, String::new(), decoded);
    }
    // Multi-line output gives both numbers on the "Animal ID" line.
    if let Some(uid) = fdxb_from(FDXB_ANIMAL_ID_RE, clean, &mut decoded) {
        return found(CardType::FDX_B, uid, String::new(), decoded);
    }
    if let Some(raw) = extract_first_hex_block(clean) {
        if raw.unicode_len() > 0 {
            put(&mut decoded, "raw", raw.as_str());
            let uid = raw.clone();
            return found(CardType::FDX_B, uid, raw, decoded);
        }
    }
    None
}

/// The FC/CN, raw, and hex-block chain shared by Paradox and Pyramid.
fn parse_fc_cn_raw(
    ct: CardType,
    name: &str,
    fc_cn_re: &str,
    raw_re: &str,
    clean: &str,
) -> (r: Option<(CardType, CardData)>)
    ensures
        r is Some ==> r.unwrap().0 == ct,
        r is Some <==> fc_cn_raw_found(fc_cn_re@, raw_re@, clean@),
        card_is(r, fc_cn_raw_spec(ct, name@, fc_cn_re@, raw_re@, clean@)),
{
    let mut decoded = typed(name);
    if let (Some(fc), Some(cn)) = (group(fc_cn_re, clean, 1), group(fc_cn_re, clean, 2)) {
        put(&mut decoded, "facility_code", fc.as_str());
        put(&mut decoded, "card_number", cn.as_str());
        let uid = pair_uid("FC", fc.as_str(), "CN", cn.as_str());
        let raw = match upper_group(raw_re, clean, 1) {
            Some(r) => {
                put(&mut decoded, "raw", r.as_str());
                r
            },
            None => String::new(),
        };
        return found(ct, uid, raw, decoded);
    }
    if let Some(raw) = upper_group(raw_re, clean, 1) {
        put(&mut decoded, "raw", raw.as_str());
        let uid = raw.clone();
        return found(ct, uid, raw, decoded);
    }
    if let Some(raw) = extract_first_hex_block(clean) {
        if raw.unicode_len() > 0 {
            let uid = raw.clone();
            return found(ct, uid, raw, decoded);
        }
    }
    None
}

fn parse_keri(clean: &str, cv: &Vec<char>) -> (r: Option<(CardType, CardData)>)
    requires
        cv@ == clean@,
    ensures
        r is Some ==> r.unwrap().0 == CardType::Keri,
        r is Some <==> keri_found(clean@),
        card_is(r, keri_spec(clean@)),
{
    let mut decoded = typed("Keri");
    if contains(cv, "Internal") {
        put(&mut decoded, "keri_type", "i");
    } else if contains(cv, "MS") {
        put(&mut decoded, "keri_type", "m");
    }
    if let Some(id) = group(KERI_INTERNAL_ID_RE, clean, 1) {
        put(&mut decoded, "card_number", id.as_str());
        let raw = match upper_group(KERI_RE, clean, 1) {
            Some(r) => {
                put(&mut decoded, "raw", r.as_str());
                r
            },
            None => String::new(),
        };
        return found(CardType::Keri, id, raw, decoded);
    }
    if let (Some(fc), Some(cn)) = (group(KERI_MS_FC_CN_RE, clean, 1), group(KERI_MS_FC_CN_RE, clean, 2)) {
        put(&mut decoded, "facility_code", fc.as_str());
        put(&mut decoded, "card_number", cn.as_str());
        put(&mut decoded, "keri_type", "m");
        let uid = pair_uid("FC", fc.as_str(), "CN", cn.as_str());
        return found(CardType::Keri, uid, String::new(), decoded);
    }
    if let Some(raw) = upper_group(KERI_RE, clean, 1) {
        put(&mut decoded, "raw", raw.as_str());
        let uid = raw.clone();
        return found(CardType::Keri, uid, raw, decoded);
    }
    None
}

fn parse_presco(clean: &str) -> (r: Option<(CardType, CardData)>)
    ensures
        r is Some ==> r.unwrap().0 == CardType::Presco,
        r is Some <==> ((has_group(PRESCO_SC_UC_RE@, clean@, 1) && has_group(PRESCO_SC_UC_RE@, clean@, 2)) || has_group(PRESCO_RE@, clean@, 1)),
        card_is(r, presco_spec(clean@)),
{
    let mut decoded = typed("Presco");
    if let (Some(sc), Some(uc)) = (group(PRESCO_SC_UC_RE, clean, 1), group(PRESCO_SC_UC_RE, clean, 2)) {
        put(&mut decoded, "site_code", sc.as_str());
        put(&mut decoded, "user_code", uc.as_str());
        let uid = pair_uid("SC", sc.as_str(), "UC", uc.as_str());
        return found(CardType::Presco, uid, String::new(), decoded);
    }
    if let Some(hex) = upper_group(PRESCO_RE, clean, 1) {
        put(&mut decoded, "hex", hex.as_str());
        let uid = hex.clone();
        return found(CardType::Presco, uid, hex, decoded);
    }
    None
}

fn parse_pac(clean: &str) -> (r: Option<(CardType, CardData)>)
    ensures
        r is Some ==> r.unwrap().0 == CardType::PAC,
        r is Some <==> (has_group(PAC_CN_RE@, clean@, 1) || has_group(PAC_RAW_RE@, clean@, 1)),
        card_is(r, pac_spec(clean@)),
{
    let mut decoded = typed("PAC");
    if let Some(cn) = group(PAC_CN_RE, clean, 1) {
        put(&mut decoded, "card_number", cn.as_str());
        let raw = match upper_group(PAC_RAW_RE, clean, 1) {
            Some(r) => {
                put(&mut decoded, "raw", r.as_str());
                r
            },
            None => String::new(),
        };
        return found(CardType::PAC, cn, raw, decoded);
    }
    if let Some(raw) = upper_group(PAC_RAW_RE, clean, 1) {
        put(&mut decoded, "raw", raw.as_str());
        let uid = raw.clone();
        return found(CardType::PAC, uid, raw, decoded);
    }
    None
}

fn parse_noralsy(clean: &str) -> (r: Option<(CardType, CardData)>)
    ensures
        r is Some ==> r.unwrap().0 == CardType::Noralsy,
        r is Some <==> (has_group(NORALSY_RE@, clean@, 1) || has_group(NORALSY_RAW_RE@, clean@, 1)),
        card_is(r, noralsy_spec(clean@)),
{
    let mut decoded = typed("Noralsy");
    if let Some(cn) = group(NORALSY_RE, clean, 1) {
        put(&mut decoded, "card_number", cn.as_str());
        if let Some(year) = group(NORALSY_RE, clean, 2) {
            put(&mut decoded, "year", year.as_str());
        }
        let raw = match upper_group(NORALSY_RAW_RE, clean, 1) {
            Some(r) => {
                put(&mut decoded, "raw", r.as_str());
                r
            },
            None => String::new(),
        };
        return found(CardType::Noralsy, cn, raw, decoded);
    }
    if let Some(raw) = upper_group(NORALSY_RAW_RE, clean, 1) {
        put(&mut decoded, "raw", raw.as_str());
        let uid = raw.clone();
        return found(CardType::Noralsy, uid, raw, decoded);
    }
    None
}

/// The EM410x identity that `lf search` reports in `clean`, if its marker
/// and ID line are present.
pub open spec fn em4100_id(clean: Seq<char>) -> Option<Seq<char>> {
    if (seq_contains(clean, "EM410x"@) || seq_contains(clean, "EM 410x"@)) && group_spec(
        EM4100_ID_RE@,
        clean,
        1,
    ) is Some {
        Some(upper_of(group_spec(EM4100_ID_RE@, clean, 1)->0))
    } else {
        None
    }
}

/// Group `k` of `p` matches in `c`.
pub open spec fn has_group(p: Seq<char>, c: Seq<char>, k: int) -> bool {
    group_spec(p, c, k) is Some
}

/// Group `k` of `p` matches in `c` and is not empty.
pub open spec fn has_text(p: Seq<char>, c: Seq<char>, k: int) -> bool {
    group_spec(p, c, k) is Some && group_spec(p, c, k)->0.len() > 0
}

/// Group `k` of `p` matches in `c` and is not empty once upper-cased.
pub open spec fn has_upper_text(p: Seq<char>, c: Seq<char>, k: int) -> bool {
    group_spec(p, c, k) is Some && upper_of(group_spec(p, c, k)->0).len() > 0
}

pub open spec fn hid_found(c: Seq<char>) -> bool {
    (has_text(HID_FC_CN_RE@, c, 1) && has_text(HID_FC_CN_RE@, c, 2)) || has_upper_text(
        HID_RAW_RE@,
        c,
        1,
    ) || (!has_group(HID_RAW_RE@, c, 1) && has_upper_text(STANDALONE_RAW_RE@, c, 1))
}

pub open spec fn ioprox_found(c: Seq<char>) -> bool {
    (has_group(IOPROX_XSF_RE@, c, 1) && has_group(IOPROX_XSF_RE@, c, 2) && has_group(
        IOPROX_XSF_RE@,
        c,
        3,
    )) || (has_group(IOPROX_FC_CN_RE@, c, 2) && has_group(IOPROX_FC_CN_RE@, c, 3)) || has_group(
        IOPROX_RAW_RE@,
        c,
        1,
    )
}

pub open spec fn fdxb_found(c: Seq<char>) -> bool {
    (has_group(FDXB_RE@, c, 1) && has_group(FDXB_RE@, c, 2)) || (has_group(FDXB_ANIMAL_ID_RE@, c, 1)
        && has_group(FDXB_ANIMAL_ID_RE@, c, 2)) || has_upper_text(HEX_BLOCK_RE@, c, 1)
}

pub open spec fn fc_cn_raw_found(fc_cn: Seq<char>, raw: Seq<char>, c: Seq<char>) -> bool {
    (has_group(fc_cn, c, 1) && has_group(fc_cn, c, 2)) || has_group(raw, c, 1) || has_upper_text(
        HEX_BLOCK_RE@,
        c,
        1,
    )
}

pub open spec fn keri_found(c: Seq<char>) -> bool {
    has_group(KERI_INTERNAL_ID_RE@, c, 1) || (has_group(KERI_MS_FC_CN_RE@, c, 1) && has_group(
        KERI_MS_FC_CN_RE@,
        c,
        2,
    )) || has_group(KERI_RE@, c, 1)
}

pub open spec fn gallagher_found(c: Seq<char>) -> bool {
    (has_group(GALLAGHER_RE@, c, 1) && has_group(GALLAGHER_RE@, c, 2) && has_group(GALLAGHER_RE@, c, 3)
        && has_group(GALLAGHER_RE@, c, 4)) || (has_group(GALLAGHER_RC_RE@, c, 1) && has_group(
        GALLAGHER_FC_RE@,
        c,
        1,
    ) && has_group(GALLAGHER_CN_RE@, c, 1) && has_group(GALLAGHER_IL_RE@, c, 1)) || has_group(
        HEX_BLOCK_RE@,
        c,
        1,
    )
}

pub open spec fn nexwatch_found(c: Seq<char>) -> bool {
    has_group(NEXWATCH_RAW_RE@, c, 1) || has_group(STANDALONE_RAW_RE@, c, 1) || has_group(
        NEXWATCH_ID_RE@,
        c,
        1,
    ) || has_group(NEXWATCH_88BIT_ID_RE@, c, 1) || has_group(HEX_BLOCK_RE@, c, 1)
}

pub open spec fn viking_found(c: Seq<char>) -> bool {
    has_group(VIKING_ID_RE@, c, 1) || has_group(VIKING_RAW_RE@, c, 1) || has_group(HEX_BLOCK_RE@, c, 1)
}

/// The protocol of the generic `[+] Valid <name> ... found` line.
pub open spec fn valid_tag_type(c: Seq<char>) -> Option<CardType> {
    match group_spec(VALID_TAG_RE@, c, 1) {
        Some(n) => if lower_of(n) == "viking"@ {
            Some(CardType::Viking)
        } else if lower_of(n) == "nexwatch"@ {
            Some(CardType::NexWatch)
        } else {
            None
        },
        None => None,
    }
}

/// The protocol that `lf search` output is decoded as, in the order the
/// markers are tried. A marker whose dedicated patterns all fail either
/// ends the search (the named protocols with their own decoder) or lets
/// the next marker be tried.
pub open spec fn lf_type_spec(c: Seq<char>) -> Option<CardType> {
    if seq_contains(c, NO_LF_TAG@) {
        None
    } else if em4100_id(c) is Some {
        Some(CardType::EM4100)
    } else if seq_contains(c, "HID Prox"@) || seq_contains(c, "HID Corporate"@) {
        if hid_found(c) { Some(CardType::HIDProx) } else { None }
    } else if seq_contains(c, "Indala"@) && (has_group(INDALA_RAW_RE@, c, 1) || has_group(
        STANDALONE_RAW_RE@,
        c,
        1,
    ) || has_group(INDALA_UID_RE@, c, 1)) {
        Some(CardType::Indala)
    } else if seq_contains(c, "IO Prox"@) {
        if ioprox_found(c) { Some(CardType::IOProx) } else { None }
    } else if seq_contains(c, "AWID"@) {
        if has_group(AWID_RE@, c, 1) && has_group(AWID_RE@, c, 2) { Some(CardType::AWID) } else { None }
    } else if seq_contains(c, "FDX-B"@) || seq_contains(c, "FDX B"@) || seq_contains(c, "FDXB"@) {
        if fdxb_found(c) { Some(CardType::FDX_B) } else { None }
    } else if seq_contains(c, "Paradox"@) {
        if fc_cn_raw_found(PARADOX_FC_CN_RE@, PARADOX_RAW_RE@, c) { Some(CardType::Paradox) } else { None }
    } else if seq_contains(c, "Keri"@) || seq_contains(c, "KERI"@) {
        if keri_found(c) { Some(CardType::Keri) } else { None }
    } else if seq_contains(c, "Pyramid"@) {
        if fc_cn_raw_found(PYRAMID_FC_CN_RE@, PYRAMID_RAW_RE@, c) { Some(CardType::Pyramid) } else { None }
    } else if (seq_contains(c, "Gallagher"@) || seq_contains(c, "GALLAGHER"@)) && gallagher_found(c) {
        Some(CardType::Gallagher)
    } else if (seq_contains(c, "Guardall"@) || seq_contains(c, "GProx"@) || seq_contains(c, "G-Prox"@))
        && ((has_group(GPROXII_FC_CN_RE@, c, 1) && has_group(GPROXII_FC_CN_RE@, c, 2)) || has_group(
        HEX_BLOCK_RE@,
        c,
        1,
    )) {
        Some(CardType::GProxII)
    } else if (seq_contains(c, "Nedap"@) || seq_contains(c, "NEDAP"@)) && (has_group(
        NEDAP_CARD_RE@,
        c,
        1,
    ) || has_group(HEX_BLOCK_RE@, c, 1)) {
        Some(CardType::Nedap)
    } else if seq_contains(c, "Presco"@) {
        if (has_group(PRESCO_SC_UC_RE@, c, 1) && has_group(PRESCO_SC_UC_RE@, c, 2)) || has_group(
            PRESCO_RE@,
            c,
            1,
        ) { Some(CardType::Presco) } else { None }
    } else if matches_spec(PAC_DETECT_RE@, c) {
        if has_group(PAC_CN_RE@, c, 1) || has_group(PAC_RAW_RE@, c, 1) { Some(CardType::PAC) } else { None }
    } else if seq_contains(c, "Noralsy"@) {
        if has_group(NORALSY_RE@, c, 1) || has_group(NORALSY_RAW_RE@, c, 1) { Some(CardType::Noralsy) } else { None }
    } else if seq_contains(c, "Jablotron"@) && has_group(JABLOTRON_RE@, c, 1) {
        Some(CardType::Jablotron)
    } else if (seq_contains(c, "Securakey"@) || seq_contains(c, "SecuraKey"@) || seq_contains(
        c,
        "SECURAKEY"@,
    )) && has_group(SECURAKEY_RE@, c, 1) {
        Some(CardType::SecuraKey)
    } else if seq_contains(c, "Visa2000"@) && has_group(VISA2000_RE@, c, 1) {
        Some(CardType::Visa2000)
    } else if seq_contains(c, "Motorola"@) && has_group(MOTOROLA_RE@, c, 1) {
        Some(CardType::Motorola)
    } else if (seq_contains(c, "IDTECK"@) || seq_contains(c, "Idteck"@)) && has_group(IDTECK_RE@, c, 1) {
        Some(CardType::IDTECK)
    } else if matches_spec(COTAG_RE@, c) {
        Some(CardType::COTAG)
    } else if matches_spec(EM4X50_RE@, c) {
        Some(CardType::EM4x50)
    } else if matches_spec(HITAG_RE@, c) {
        Some(CardType::Hitag)
    } else if (seq_contains(c, "NexWatch"@) || seq_contains(c, "NXT"@)) && nexwatch_found(c) {
        Some(CardType::NexWatch)
    } else if (seq_contains(c, "Viking"@) || seq_contains(c, "viking"@)) && viking_found(c) {
        Some(CardType::Viking)
    } else {
        valid_tag_type(c)
    }
}

/// A decoded card as the specification describes it: protocol, display
/// UID, raw value and the fields in the order they are recorded.
pub struct LfCard {
    pub ct: CardType,
    pub uid: Seq<char>,
    pub raw: Seq<char>,
    pub fields: Seq<(Seq<char>, Seq<char>)>,
}

/// A parse result agrees with the specified one.
pub open spec fn card_is(r: Option<(CardType, CardData)>, s: Option<LfCard>) -> bool {
    match (r, s) {
        (Some(x), Some(y)) => x.0 == y.ct && x.1.uid@ == y.uid && x.1.raw@ == y.raw
            && x.1.decoded.entries_view() == y.fields,
        (None, None) => true,
        _ => false,
    }
}

pub open spec fn lf(ct: CardType, uid: Seq<char>, raw: Seq<char>, fields: Seq<(Seq<char>, Seq<char>)>) -> Option<LfCard> {
    Some(LfCard { ct, uid, raw, fields })
}

/// Group `k`, upper-cased.
pub open spec fn ug(p: Seq<char>, c: Seq<char>, k: int) -> Option<Seq<char>> {
    match group_spec(p, c, k) {
        Some(x) => Some(upper_of(x)),
        None => None,
    }
}

pub open spec fn or_else(a: Option<Seq<char>>, b: Option<Seq<char>>) -> Option<Seq<char>> {
    match a {
        Some(x) => Some(x),
        None => b,
    }
}

pub open spec fn or_text(a: Option<Seq<char>>, d: Seq<char>) -> Seq<char> {
    match a {
        Some(x) => x,
        None => d,
    }
}

/// `f` with an entry added when the value is present.
pub open spec fn push_opt(
    f: Seq<(Seq<char>, Seq<char>)>,
    k: Seq<char>,
    v: Option<Seq<char>>,
) -> Seq<(Seq<char>, Seq<char>)> {
    match v {
        Some(x) => f.push((k, x)),
        None => f,
    }
}

pub open spec fn pair(pa: Seq<char>, a: Seq<char>, pb: Seq<char>, b: Seq<char>) -> Seq<char> {
    pa + a + ":"@ + pb + b
}

pub open spec fn typed_spec(name: Seq<char>) -> Seq<(Seq<char>, Seq<char>)> {
    seq![("type"@, name)]
}

pub open spec fn hex_block(c: Seq<char>) -> Option<Seq<char>> {
    ug(HEX_BLOCK_RE@, c, 1)
}

pub open spec fn hex_fallback_spec(ct: CardType, name: Seq<char>, c: Seq<char>) -> Option<LfCard> {
    match hex_block(c) {
        Some(h) => lf(ct, h, h, typed_spec(name).push(("raw_fallback"@, "true"@))),
        None => None,
    }
}

pub open spec fn hid_spec(c: Seq<char>) -> Option<LfCard> {
    let f0 = push_opt(typed_spec("HID Prox"@), "format"@, group_spec(HID_FORMAT_RE@, c, 0));
    let both = has_group(HID_FC_CN_RE@, c, 1) && has_group(HID_FC_CN_RE@, c, 2);
    let fc = group_spec(HID_FC_CN_RE@, c, 1)->0;
    let cn = group_spec(HID_FC_CN_RE@, c, 2)->0;
    let f1 = if both {
        f0.push(("facility_code"@, fc)).push(("card_number"@, cn))
    } else {
        f0
    };
    let raw = or_text(or_else(ug(HID_RAW_RE@, c, 1), ug(STANDALONE_RAW_RE@, c, 1)), Seq::empty());
    let f2 = if raw.len() > 0 {
        f1.push(("raw"@, raw))
    } else {
        f1
    };
    if both && fc.len() > 0 && cn.len() > 0 {
        lf(CardType::HIDProx, pair("FC"@, fc, "CN"@, cn), raw, f2)
    } else if raw.len() > 0 {
        lf(CardType::HIDProx, raw, raw, f2)
    } else {
        None
    }
}

/// Facility code of the XSF form, converted from hex to decimal when it fits.
pub open spec fn xsf_fc(h: Seq<char>) -> Seq<char> {
    if is_hex_str(h) && hex_value(h) <= u32::MAX {
        crate::text::dec(hex_value(h))
    } else {
        h
    }
}

pub open spec fn ioprox_spec(c: Seq<char>) -> Option<LfCard> {
    let f0 = typed_spec("IOProx"@);
    if has_group(IOPROX_XSF_RE@, c, 1) && has_group(IOPROX_XSF_RE@, c, 2) && has_group(IOPROX_XSF_RE@, c, 3) {
        let vn = group_spec(IOPROX_XSF_RE@, c, 1)->0;
        let fc = xsf_fc(group_spec(IOPROX_XSF_RE@, c, 2)->0);
        let cn = group_spec(IOPROX_XSF_RE@, c, 3)->0;
        lf(
            CardType::IOProx,
            pair("FC"@, fc, "CN"@, cn),
            Seq::empty(),
            push_opt(
                f0.push(("version"@, vn)).push(("facility_code"@, fc)).push(("card_number"@, cn)),
                "raw"@,
                ug(IOPROX_RAW_RE@, c, 1),
            ),
        )
    } else if has_group(IOPROX_FC_CN_RE@, c, 2) && has_group(IOPROX_FC_CN_RE@, c, 3) {
        let vn = or_text(group_spec(IOPROX_FC_CN_RE@, c, 1), "0"@);
        let fc = group_spec(IOPROX_FC_CN_RE@, c, 2)->0;
        let cn = group_spec(IOPROX_FC_CN_RE@, c, 3)->0;
        lf(
            CardType::IOProx,
            pair("FC"@, fc, "CN"@, cn),
            Seq::empty(),
            f0.push(("version"@, vn)).push(("facility_code"@, fc)).push(("card_number"@, cn)),
        )
    } else {
        match ug(IOPROX_RAW_RE@, c, 1) {
            Some(u) => lf(CardType::IOProx, u, u, f0.push(("id"@, u))),
            None => None,
        }
    }
}

pub open spec fn awid_spec(c: Seq<char>) -> Option<LfCard> {
    let f0 = push_opt(typed_spec("AWID"@), "format"@, group_spec(AWID_FMT_RE@, c, 1));
    if has_group(AWID_RE@, c, 1) && has_group(AWID_RE@, c, 2) {
        let fc = group_spec(AWID_RE@, c, 1)->0;
        let cn = group_spec(AWID_RE@, c, 2)->0;
        let uid = pair("FC"@, fc, "CN"@, cn);
        lf(CardType::AWID, uid, uid, f0.push(("facility_code"@, fc)).push(("card_number"@, cn)))
    } else {
        None
    }
}

pub open spec fn fdxb_spec(c: Seq<char>) -> Option<LfCard> {
    let f0 = typed_spec("FDX-B"@);
    if has_group(FDXB_RE@, c, 1) && has_group(FDXB_RE@, c, 2) {
        let a = group_spec(FDXB_RE@, c, 1)->0;
        let b = group_spec(FDXB_RE@, c, 2)->0;
        lf(CardType::FDX_B, pair(Seq::empty(), a, Seq::empty(), b), Seq::empty(), f0.push(("country"@, a)).push(("national_id"@, b)))
    } else if has_group(FDXB_ANIMAL_ID_RE@, c, 1) && has_group(FDXB_ANIMAL_ID_RE@, c, 2) {
        let a = group_spec(FDXB_ANIMAL_ID_RE@, c, 1)->0;
        let b = group_spec(FDXB_ANIMAL_ID_RE@, c, 2)->0;
        lf(CardType::FDX_B, pair(Seq::empty(), a, Seq::empty(), b), Seq::empty(), f0.push(("country"@, a)).push(("national_id"@, b)))
    } else {
        match hex_block(c) {
            Some(h) => if h.len() > 0 {
                lf(CardType::FDX_B, h, h, f0.push(("raw"@, h)))
            } else {
                None
            },
            None => None,
        }
    }
}

pub open spec fn fc_cn_raw_spec(ct: CardType, name: Seq<char>, fc_cn: Seq<char>, raw_re: Seq<char>, c: Seq<char>) -> Option<LfCard> {
    let f0 = typed_spec(name);
    if has_group(fc_cn, c, 1) && has_group(fc_cn, c, 2) {
        let fc = group_spec(fc_cn, c, 1)->0;
        let cn = group_spec(fc_cn, c, 2)->0;
        lf(
            ct,
            pair("FC"@, fc, "CN"@, cn),
            or_text(ug(raw_re, c, 1), Seq::empty()),
            push_opt(f0.push(("facility_code"@, fc)).push(("card_number"@, cn)), "raw"@, ug(raw_re, c, 1)),
        )
    } else {
        match ug(raw_re, c, 1) {
            Some(r) => lf(ct, r, r, f0.push(("raw"@, r))),
            None => match hex_block(c) {
                Some(h) => if h.len() > 0 {
                    lf(ct, h, h, f0)
                } else {
                    None
                },
                None => None,
            },
        }
    }
}

pub open spec fn keri_spec(c: Seq<char>) -> Option<LfCard> {
    let f0 = if seq_contains(c, "Internal"@) {
        typed_spec("Keri"@).push(("keri_type"@, "i"@))
    } else if seq_contains(c, "MS"@) {
        typed_spec("Keri"@).push(("keri_type"@, "m"@))
    } else {
        typed_spec("Keri"@)
    };
    match group_spec(KERI_INTERNAL_ID_RE@, c, 1) {
        Some(id) => lf(
            CardType::Keri,
            id,
            or_text(ug(KERI_RE@, c, 1), Seq::empty()),
            push_opt(f0.push(("card_number"@, id)), "raw"@, ug(KERI_RE@, c, 1)),
        ),
        None => if has_group(KERI_MS_FC_CN_RE@, c, 1) && has_group(KERI_MS_FC_CN_RE@, c, 2) {
            let fc = group_spec(KERI_MS_FC_CN_RE@, c, 1)->0;
            let cn = group_spec(KERI_MS_FC_CN_RE@, c, 2)->0;
            lf(
                CardType::Keri,
                pair("FC"@, fc, "CN"@, cn),
                Seq::empty(),
                f0.push(("facility_code"@, fc)).push(("card_number"@, cn)).push(("keri_type"@, "m"@)),
            )
        } else {
            match ug(KERI_RE@, c, 1) {
                Some(r) => lf(CardType::Keri, r, r, f0.push(("raw"@, r))),
                None => None,
            }
        },
    }
}

pub open spec fn presco_spec(c: Seq<char>) -> Option<LfCard> {
    let f0 = typed_spec("Presco"@);
    if has_group(PRESCO_SC_UC_RE@, c, 1) && has_group(PRESCO_SC_UC_RE@, c, 2) {
        let sc = group_spec(PRESCO_SC_UC_RE@, c, 1)->0;
        let uc = group_spec(PRESCO_SC_UC_RE@, c, 2)->0;
        lf(CardType::Presco, pair("SC"@, sc, "UC"@, uc), Seq::empty(), f0.push(("site_code"@, sc)).push(("user_code"@, uc)))
    } else {
        match ug(PRESCO_RE@, c, 1) {
            Some(h) => lf(CardType::Presco, h, h, f0.push(("hex"@, h))),
            None => None,
        }
    }
}

pub open spec fn pac_spec(c: Seq<char>) -> Option<LfCard> {
    let f0 = typed_spec("PAC"@);
    match group_spec(PAC_CN_RE@, c, 1) {
        Some(cn) => lf(
            CardType::PAC,
            cn,
            or_text(ug(PAC_RAW_RE@, c, 1), Seq::empty()),
            push_opt(f0.push(("card_number"@, cn)), "raw"@, ug(PAC_RAW_RE@, c, 1)),
        ),
        None => match ug(PAC_RAW_RE@, c, 1) {
            Some(r) => lf(CardType::PAC, r, r, f0.push(("raw"@, r))),
            None => None,
        },
    }
}

pub open spec fn noralsy_spec(c: Seq<char>) -> Option<LfCard> {
    let f0 = typed_spec("Noralsy"@);
    match group_spec(NORALSY_RE@, c, 1) {
        Some(cn) => lf(
            CardType::Noralsy,
            cn,
            or_text(ug(NORALSY_RAW_RE@, c, 1), Seq::empty()),
            push_opt(
                push_opt(f0.push(("card_number"@, cn)), "year"@, group_spec(NORALSY_RE@, c, 2)),
                "raw"@,
                ug(NORALSY_RAW_RE@, c, 1),
            ),
        ),
        None => match ug(NORALSY_RAW_RE@, c, 1) {
            Some(r) => lf(CardType::Noralsy, r, r, f0.push(("raw"@, r))),
            None => None,
        },
    }
}

pub open spec fn single_hex_spec(ct: CardType, name: Seq<char>, field: Seq<char>, p: Seq<char>, c: Seq<char>) -> Option<LfCard> {
    match ug(p, c, 1) {
        Some(v) => lf(ct, v, v, typed_spec(name).push((field, v))),
        None => None,
    }
}

pub open spec fn gallagher_spec(c: Seq<char>) -> Option<LfCard> {
    let main = has_group(GALLAGHER_RE@, c, 1) && has_group(GALLAGHER_RE@, c, 2) && has_group(GALLAGHER_RE@, c, 3) && has_group(GALLAGHER_RE@, c, 4);
    let rc = if main { group_spec(GALLAGHER_RE@, c, 1) } else { group_spec(GALLAGHER_RC_RE@, c, 1) };
    let fc = if main { group_spec(GALLAGHER_RE@, c, 2) } else { group_spec(GALLAGHER_FC_RE@, c, 1) };
    let cn = if main { group_spec(GALLAGHER_RE@, c, 3) } else { group_spec(GALLAGHER_CN_RE@, c, 1) };
    let il = if main { group_spec(GALLAGHER_RE@, c, 4) } else { group_spec(GALLAGHER_IL_RE@, c, 1) };
    if rc is Some && fc is Some && cn is Some && il is Some {
        lf(
            CardType::Gallagher,
            "RC"@ + rc->0 + ":FC"@ + fc->0 + ":CN"@ + cn->0 + ":IL"@ + il->0,
            Seq::empty(),
            typed_spec("Gallagher"@).push(("region_code"@, rc->0)).push(("facility_code"@, fc->0)).push(
                ("card_number"@, cn->0),
            ).push(("issue_level"@, il->0)),
        )
    } else {
        hex_fallback_spec(CardType::Gallagher, "Gallagher"@, c)
    }
}

pub open spec fn gproxii_spec(c: Seq<char>) -> Option<LfCard> {
    if has_group(GPROXII_FC_CN_RE@, c, 1) && has_group(GPROXII_FC_CN_RE@, c, 2) {
        let fc = group_spec(GPROXII_FC_CN_RE@, c, 1)->0;
        let cn = group_spec(GPROXII_FC_CN_RE@, c, 2)->0;
        lf(
            CardType::GProxII,
            pair("FC"@, fc, "CN"@, cn),
            Seq::empty(),
            typed_spec("GProxII"@).push(("facility_code"@, fc)).push(("card_number"@, cn)).push(
                ("xor"@, or_text(group_spec(GPROXII_XOR_RE@, c, 1), "0"@)),
            ).push(("format"@, or_text(group_spec(GPROXII_FMT_RE@, c, 1), "26"@))),
        )
    } else {
        hex_fallback_spec(CardType::GProxII, "GProxII"@, c)
    }
}

pub open spec fn nedap_spec(c: Seq<char>) -> Option<LfCard> {
    match group_spec(NEDAP_CARD_RE@, c, 1) {
        Some(cn) => {
            let st = or_text(group_spec(NEDAP_SUB_RE@, c, 1), "5"@);
            let cc = or_text(group_spec(NEDAP_CC_RE@, c, 1), "0"@);
            lf(
                CardType::Nedap,
                "ST"@ + st + ":CC"@ + cc + ":ID"@ + cn,
                Seq::empty(),
                typed_spec("Nedap"@).push(("subtype"@, st)).push(("customer_code"@, cc)).push(("card_number"@, cn)),
            )
        },
        None => hex_fallback_spec(CardType::Nedap, "Nedap"@, c),
    }
}

pub open spec fn nexwatch_spec(c: Seq<char>) -> Option<LfCard> {
    let raw_hex = or_else(ug(NEXWATCH_RAW_RE@, c, 1), ug(STANDALONE_RAW_RE@, c, 1));
    let card_id = or_else(group_spec(NEXWATCH_ID_RE@, c, 1), group_spec(NEXWATCH_88BIT_ID_RE@, c, 1));
    let f1 = push_opt(typed_spec("NexWatch"@), "card_id"@, card_id);
    match raw_hex {
        Some(r) => lf(CardType::NexWatch, r, r, f1.push(("raw"@, r))),
        None => match card_id {
            Some(id) => lf(CardType::NexWatch, id, id, f1),
            None => match hex_block(c) {
                Some(h) => lf(CardType::NexWatch, h, h, f1),
                None => None,
            },
        },
    }
}

pub open spec fn viking_spec(c: Seq<char>) -> Option<LfCard> {
    let f0 = typed_spec("Viking"@);
    match group_spec(VIKING_ID_RE@, c, 1) {
        Some(id) => {
            let f1 = f0.push(("card_id"@, id));
            match ug(VIKING_RAW_RE@, c, 1) {
                Some(r) => lf(CardType::Viking, r, r, f1.push(("raw"@, r))),
                None => lf(CardType::Viking, id, id, f1),
            }
        },
        None => match ug(VIKING_RAW_RE@, c, 1) {
            Some(r) => lf(CardType::Viking, r, r, f0.push(("raw"@, r))),
            None => match hex_block(c) {
                Some(h) => lf(CardType::Viking, h, h, f0),
                None => None,
            },
        },
    }
}

pub open spec fn indala_spec(c: Seq<char>) -> Option<LfCard> {
    let raw_hex = or_else(ug(INDALA_RAW_RE@, c, 1), ug(STANDALONE_RAW_RE@, c, 1));
    let uid_val = ug(INDALA_UID_RE@, c, 1);
    let f0 = typed_spec("Indala"@);
    match raw_hex {
        Some(r) => {
            let uid = or_text(uid_val, r);
            lf(CardType::Indala, uid, r, f0.push(("raw"@, r)).push(("id"@, uid)))
        },
        None => match uid_val {
            Some(u) => lf(CardType::Indala, u, u, f0.push(("id"@, u))),
            None => None,
        },
    }
}

pub open spec fn valid_tag_spec(c: Seq<char>) -> Option<LfCard> {
    match valid_tag_type(c) {
        Some(ct) => {
            let raw = or_text(hex_block(c), Seq::empty());
            lf(
                ct,
                if raw.len() == 0 { "unknown"@ } else { raw },
                raw,
                typed_spec(group_spec(VALID_TAG_RE@, c, 1)->0),
            )
        },
        None => None,
    }
}

/// The card that `lf search` output is decoded as, in the order the markers
/// are tried (see `lf_type_spec`).
pub open spec fn lf_card_spec(c: Seq<char>) -> Option<LfCard> {
    if seq_contains(c, NO_LF_TAG@) {
        None
    } else if em4100_id(c) is Some {
        let id = em4100_id(c)->0;
        lf(CardType::EM4100, id, id, typed_spec("EM4100"@).push(("id"@, id)))
    } else if seq_contains(c, "HID Prox"@) || seq_contains(c, "HID Corporate"@) {
        hid_spec(c)
    } else if seq_contains(c, "Indala"@) && indala_spec(c) is Some {
        indala_spec(c)
    } else if seq_contains(c, "IO Prox"@) {
        ioprox_spec(c)
    } else if seq_contains(c, "AWID"@) {
        awid_spec(c)
    } else if seq_contains(c, "FDX-B"@) || seq_contains(c, "FDX B"@) || seq_contains(c, "FDXB"@) {
        fdxb_spec(c)
    } else if seq_contains(c, "Paradox"@) {
        fc_cn_raw_spec(CardType::Paradox, "Paradox"@, PARADOX_FC_CN_RE@, PARADOX_RAW_RE@, c)
    } else if seq_contains(c, "Keri"@) || seq_contains(c, "KERI"@) {
        keri_spec(c)
    } else if seq_contains(c, "Pyramid"@) {
        fc_cn_raw_spec(CardType::Pyramid, "Pyramid"@, PYRAMID_FC_CN_RE@, PYRAMID_RAW_RE@, c)
    } else if (seq_contains(c, "Gallagher"@) || seq_contains(c, "GALLAGHER"@)) && gallagher_spec(c) is Some {
        gallagher_spec(c)
    } else if (seq_contains(c, "Guardall"@) || seq_contains(c, "GProx"@) || seq_contains(c, "G-Prox"@))
        && gproxii_spec(c) is Some {
        gproxii_spec(c)
    } else if (seq_contains(c, "Nedap"@) || seq_contains(c, "NEDAP"@)) && nedap_spec(c) is Some {
        nedap_spec(c)
    } else if seq_contains(c, "Presco"@) {
        presco_spec(c)
    } else if matches_spec(PAC_DETECT_RE@, c) {
        pac_spec(c)
    } else if seq_contains(c, "Noralsy"@) {
        noralsy_spec(c)
    } else if seq_contains(c, "Jablotron"@) && has_group(JABLOTRON_RE@, c, 1) {
        single_hex_spec(CardType::Jablotron, "Jablotron"@, "card_number"@, JABLOTRON_RE@, c)
    } else if (seq_contains(c, "Securakey"@) || seq_contains(c, "SecuraKey"@) || seq_contains(c, "SECURAKEY"@))
        && has_group(SECURAKEY_RE@, c, 1) {
        single_hex_spec(CardType::SecuraKey, "SecuraKey"@, "raw"@, SECURAKEY_RE@, c)
    } else if seq_contains(c, "Visa2000"@) && has_group(VISA2000_RE@, c, 1) {
        let cn = group_spec(VISA2000_RE@, c, 1)->0;
        lf(CardType::Visa2000, cn, Seq::empty(), typed_spec("Visa2000"@).push(("card_number"@, cn)))
    } else if seq_contains(c, "Motorola"@) && has_group(MOTOROLA_RE@, c, 1) {
        single_hex_spec(CardType::Motorola, "Motorola"@, "raw"@, MOTOROLA_RE@, c)
    } else if (seq_contains(c, "IDTECK"@) || seq_contains(c, "Idteck"@)) && has_group(IDTECK_RE@, c, 1) {
        single_hex_spec(CardType::IDTECK, "IDTECK"@, "raw"@, IDTECK_RE@, c)
    } else if matches_spec(COTAG_RE@, c) {
        lf(CardType::COTAG, "COTAG"@, Seq::empty(), typed_spec("COTAG"@))
    } else if matches_spec(EM4X50_RE@, c) {
        lf(CardType::EM4x50, "EM4x50"@, Seq::empty(), typed_spec("EM4x50"@))
    } else if matches_spec(HITAG_RE@, c) {
        lf(CardType::Hitag, "Hitag"@, Seq::empty(), typed_spec("Hitag"@))
    } else if (seq_contains(c, "NexWatch"@) || seq_contains(c, "NXT"@)) && nexwatch_spec(c) is Some {
        nexwatch_spec(c)
    } else if (seq_contains(c, "Viking"@) || seq_contains(c, "viking"@)) && viking_spec(c) is Some {
        viking_spec(c)
    } else {
        valid_tag_spec(c)
    }
}

/// The marker in `lf search` output that must be present for a protocol to
/// be reported.
pub open spec fn lf_marker(ct: CardType, c: Seq<char>) -> bool {
    match ct {
        CardType::EM4100 => seq_contains(c, "EM410x"@) || seq_contains(c, "EM 410x"@),
        CardType::HIDProx => seq_contains(c, "HID Prox"@) || seq_contains(c, "HID Corporate"@),
        CardType::Indala => seq_contains(c, "Indala"@),
        CardType::IOProx => seq_contains(c, "IO Prox"@),
        CardType::AWID => seq_contains(c, "AWID"@),
        CardType::FDX_B => seq_contains(c, "FDX-B"@) || seq_contains(c, "FDX B"@) || seq_contains(
            c,
            "FDXB"@,
        ),
        CardType::Paradox => seq_contains(c, "Paradox"@),
        CardType::Keri => seq_contains(c, "Keri"@) || seq_contains(c, "KERI"@),
        CardType::Pyramid => seq_contains(c, "Pyramid"@),
        CardType::Gallagher => seq_contains(c, "Gallagher"@) || seq_contains(c, "GALLAGHER"@),
        CardType::GProxII => seq_contains(c, "Guardall"@) || seq_contains(c, "GProx"@)
            || seq_contains(c, "G-Prox"@),
        CardType::Nedap => seq_contains(c, "Nedap"@) || seq_contains(c, "NEDAP"@),
        CardType::Presco => seq_contains(c, "Presco"@),
        CardType::PAC => matches_spec(PAC_DETECT_RE@, c),
        CardType::Noralsy => seq_contains(c, "Noralsy"@),
        CardType::Jablotron => seq_contains(c, "Jablotron"@),
        CardType::SecuraKey => seq_contains(c, "Securakey"@) || seq_contains(c, "SecuraKey"@)
            || seq_contains(c, "SECURAKEY"@),
        CardType::Visa2000 => seq_contains(c, "Visa2000"@),
        CardType::Motorola => seq_contains(c, "Motorola"@),
        CardType::IDTECK => seq_contains(c, "IDTECK"@) || seq_contains(c, "Idteck"@),
        CardType::COTAG => matches_spec(COTAG_RE@, c),
        CardType::EM4x50 => matches_spec(EM4X50_RE@, c),
        CardType::Hitag => matches_spec(HITAG_RE@, c),
        CardType::NexWatch => seq_contains(c, "NexWatch"@) || seq_contains(c, "NXT"@) || group_spec(
            VALID_TAG_RE@,
            c,
            1,
        ) is Some,
        CardType::Viking => seq_contains(c, "Viking"@) || seq_contains(c, "viking"@) || group_spec(
            VALID_TAG_RE@,
            c,
            1,
        ) is Some,
        _ => false,
    }
}

/// A protocol result built from one upper-cased group, stored under `field`
/// and used as UID and raw value.
fn single_hex(
    ct: CardType,
    name: &str,
    field: &str,
    pattern: &str,
    clean: &str,
) -> (r: Option<(CardType, CardData)>)
    ensures
        r is Some ==> r.unwrap().0 == ct,
        r is Some <==> has_group(pattern@, clean@, 1),
        card_is(r, single_hex_spec(ct, name@, field@, pattern@, clean@)),
{
    if let Some(v) = upper_group(pattern, clean, 1) {
        let mut decoded = typed(name);
        put(&mut decoded, field, v.as_str());
        let raw = v.clone();
        return found(ct, v, raw, decoded);
    }
    None
}

fn parse_gallagher(clean: &str) -> (r: Option<(CardType, CardData)>)
    ensures
        r is Some ==> r.unwrap().0 == CardType::Gallagher,
        r is Some <==> gallagher_found(clean@),
        card_is(r, gallagher_spec(clean@)),
{
    let (rc, fc, cn, il) = match (
        group(GALLAGHER_RE, clean, 1),
        group(GALLAGHER_RE, clean, 2),
        group(GALLAGHER_RE, clean, 3),
        group(GALLAGHER_RE, clean, 4),
    ) {
        (Some(a), Some(b), Some(c), Some(d)) => (Some(a), Some(b), Some(c), Some(d)),
        // Multi-line output: one pattern per field, in any order.
        _ => (
            group(GALLAGHER_RC_RE, clean, 1),
            group(GALLAGHER_FC_RE, clean, 1),
            group(GALLAGHER_CN_RE, clean, 1),
            group(GALLAGHER_IL_RE, clean, 1),
        ),
    };
    if let (Some(rc), Some(fc), Some(cn), Some(il)) = (rc, fc, cn, il) {
        let mut uid = cat("RC", rc.as_str());
        append_str(&mut uid, ":FC");
        append_str(&mut uid, fc.as_str());
        append_str(&mut uid, ":CN");
        append_str(&mut uid, cn.as_str());
        append_str(&mut uid, ":IL");
        append_str(&mut uid, il.as_str());
        let mut decoded = typed("Gallagher");
        put(&mut decoded, "region_code", rc.as_str());
        put(&mut decoded, "facility_code", fc.as_str());
        put(&mut decoded, "card_number", cn.as_str());
        put(&mut decoded, "issue_level", il.as_str());
        return found(CardType::Gallagher, uid, String::new(), decoded);
    }
    hex_fallback(CardType::Gallagher, "Gallagher", clean)
}

fn parse_gproxii(clean: &str) -> (r: Option<(CardType, CardData)>)
    ensures
        r is Some ==> r.unwrap().0 == CardType::GProxII,
        r is Some <==> ((has_group(GPROXII_FC_CN_RE@, clean@, 1) && has_group(GPROXII_FC_CN_RE@, clean@, 2)) || has_group(HEX_BLOCK_RE@, clean@, 1)),
        card_is(r, gproxii_spec(clean@)),
{
    if let (Some(fc), Some(cn)) = (group(GPROXII_FC_CN_RE, clean, 1), group(GPROXII_FC_CN_RE, clean, 2)) {
        let xor = match group(GPROXII_XOR_RE, clean, 1) {
            Some(v) => v,
            None => String::from_str("0"),
        };
        let fmt = match group(GPROXII_FMT_RE, clean, 1) {
            Some(v) => v,
            None => String::from_str("26"),
        };
        let uid = pair_uid("FC", fc.as_str(), "CN", cn.as_str());
        let mut decoded = typed("GProxII");
        put(&mut decoded, "facility_code", fc.as_str());
        put(&mut decoded, "card_number", cn.as_str());
        put(&mut decoded, "xor", xor.as_str());
        put(&mut decoded, "format", fmt.as_str());
        return found(CardType::GProxII, uid, String::new(), decoded);
    }
    hex_fallback(CardType::GProxII, "GProxII", clean)
}

fn parse_nedap(clean: &str) -> (r: Option<(CardType, CardData)>)
    ensures
        r is Some ==> r.unwrap().0 == CardType::Nedap,
        r is Some <==> (has_group(NEDAP_CARD_RE@, clean@, 1) || has_group(HEX_BLOCK_RE@, clean@, 1)),
        card_is(r, nedap_spec(clean@)),
{
    if let Some(cn) = group(NEDAP_CARD_RE, clean, 1) {
        // The tool's default subtype is 5.
        let st = match group(NEDAP_SUB_RE, clean, 1) {
            Some(v) => v,
            None => String::from_str("5"),
        };
        let cc = match group(NEDAP_CC_RE, clean, 1) {
            Some(v) => v,
            None => String::from_str("0"),
        };
        let mut uid = cat("ST", st.as_str());
        append_str(&mut uid, ":CC");
        append_str(&mut uid, cc.as_str());
        append_str(&mut uid, ":ID");
        append_str(&mut uid, cn.as_str());
        let mut decoded = typed("Nedap");
        put(&mut decoded, "subtype", st.as_str());
        put(&mut decoded, "customer_code", cc.as_str());
        put(&mut decoded, "card_number", cn.as_str());
        return found(CardType::Nedap, uid, String::new(), decoded);
    }
    hex_fallback(CardType::Nedap, "Nedap", clean)
}

fn parse_nexwatch(clean: &str) -> (r: Option<(CardType, CardData)>)
    ensures
        r is Some ==> r.unwrap().0 == CardType::NexWatch,
        r is Some <==> nexwatch_found(clean@),
        card_is(r, nexwatch_spec(clean@)),
{
    let mut decoded = typed("NexWatch");
    let raw_hex = match upper_group(NEXWATCH_RAW_RE, clean, 1) {
        Some(v) => Some(v),
        None => upper_group(STANDALONE_RAW_RE, clean, 1),
    };
    let card_id = match group(NEXWATCH_ID_RE, clean, 1) {
        Some(v) => Some(v),
        None => group(NEXWATCH_88BIT_ID_RE, clean, 1),
    };
    if let Some(id) = &card_id {
        put(&mut decoded, "card_id", id.as_str());
    }
    if let Some(raw) = raw_hex {
        put(&mut decoded, "raw", raw.as_str());
        let uid = raw.clone();
        return found(CardType::NexWatch, uid, raw, decoded);
    }
    if let Some(id) = card_id {
        let raw = id.clone();
        return found(CardType::NexWatch, id, raw, decoded);
    }
    if let Some(hex) = extract_first_hex_block(clean) {
        let raw = hex.clone();
        return found(CardType::NexWatch, hex, raw, decoded);
    }
    None
}

fn parse_viking(clean: &str) -> (r: Option<(CardType, CardData)>)
    ensures
        r is Some ==> r.unwrap().0 == CardType::Viking,
        r is Some <==> viking_found(clean@),
        card_is(r, viking_spec(clean@)),
{
    let mut decoded = typed("Viking");
    if let Some(id) = group(VIKING_ID_RE, clean, 1) {
        put(&mut decoded, "card_id", id.as_str());
        if let Some(raw) = upper_group(VIKING_RAW_RE, clean, 1) {
            put(&mut decoded, "raw", raw.as_str());
            let uid = raw.clone();
            return found(CardType::Viking, uid, raw, decoded);
        }
        let raw = id.clone();
        return found(CardType::Viking, id, raw, decoded);
    }
    if let Some(raw) = upper_group(VIKING_RAW_RE, clean, 1) {
        put(&mut decoded, "raw", raw.as_str());
        let uid = raw.clone();
        return found(CardType::Viking, uid, raw, decoded);
    }
    if let Some(hex) = extract_first_hex_block(clean) {
        let raw = hex.clone();
        return found(CardType::Viking, hex, raw, decoded);
    }
    None
}

fn parse_indala(clean: &str) -> (r: Option<(CardType, CardData)>)
    ensures
        r is Some ==> r.unwrap().0 == CardType::Indala,
        r is Some <==> (has_group(INDALA_RAW_RE@, clean@, 1) || has_group(STANDALONE_RAW_RE@, clean@, 1) || has_group(INDALA_UID_RE@, clean@, 1)),
        card_is(r, indala_spec(clean@)),
{
    let raw_hex = match upper_group(INDALA_RAW_RE, clean, 1) {
        Some(v) => Some(v),
        None => upper_group(STANDALONE_RAW_RE, clean, 1),
    };
    let uid_val = upper_group(INDALA_UID_RE, clean, 1);
    let mut decoded = typed("Indala");
    if let Some(raw) = raw_hex {
        let uid = match uid_val {
            Some(u) => u,
            None => raw.clone(),
        };
        put(&mut decoded, "raw", raw.as_str());
        put(&mut decoded, "id", uid.as_str());
        return found(CardType::Indala, uid, raw, decoded);
    }
    if let Some(uid) = uid_val {
        put(&mut decoded, "id", uid.as_str());
        let raw = uid.clone();
        return found(CardType::Indala, uid, raw, decoded);
    }
    None
}

/// A read-only protocol seen only by name: its name stands in for the UID.
fn named_only(ct: CardType, name: &str) -> (r: Option<(CardType, CardData)>)
    ensures
        r is Some && r.unwrap().0 == ct,
        card_is(r, lf(ct, name@, Seq::empty(), typed_spec(name@))),
{
    found(ct, String::from_str(name), String::new(), typed(name))
}

/// The generic `[+] Valid <name> ... found` line, for Viking and NexWatch.
fn parse_valid_tag(clean: &str) -> (r: Option<(CardType, CardData)>)
    ensures
        r is Some ==> (r.unwrap().0 == CardType::Viking || r.unwrap().0 == CardType::NexWatch)
            && group_spec(VALID_TAG_RE@, clean@, 1) is Some,
        match r { Some(x) => valid_tag_type(clean@) == Some(x.0), None => valid_tag_type(clean@) is None },
        card_is(r, valid_tag_spec(clean@)),
{
    if let Some(tag_name) = group(VALID_TAG_RE, clean, 1) {
        let name = to_lower(tag_name.as_str());
        let card_type = if str_eq(name.as_str(), "viking") {
            CardType::Viking
        } else if str_eq(name.as_str(), "nexwatch") {
            CardType::NexWatch
        } else {
            return None;
        };
        let decoded = typed(tag_name.as_str());
        let raw = match extract_first_hex_block(clean) {
            Some(h) => h,
            None => String::new(),
        };
        let uid = if raw.unicode_len() == 0 {
            String::from_str("unknown")
        } else {
            raw.clone()
        };
        return found(card_type, uid, raw, decoded);
    }
    None
}

/// Decodes `lf search` output into the protocol and identity of the card.
/// `None` when the tool reports no tag or no known protocol is recognised.
pub fn parse_lf_search(output: &str) -> (r: Option<(CardType, CardData)>)
    ensures
        seq_contains(strip_spec(output@), NO_LF_TAG@) ==> r is None,
        r is Some ==> crate::types::is_lf(r.unwrap().0),
        r is Some ==> lf_marker(r.unwrap().0, strip_spec(output@)),
        !seq_contains(strip_spec(output@), NO_LF_TAG@) && em4100_id(strip_spec(output@)) is Some
            ==> r is Some && r.unwrap().0 == CardType::EM4100 && r.unwrap().1.uid@ == em4100_id(
            strip_spec(output@),
        )->0 && r.unwrap().1.decoded.get_spec("id"@) == em4100_id(strip_spec(output@)),
        match r { Some(x) => lf_type_spec(strip_spec(output@)) == Some(x.0), None => lf_type_spec(strip_spec(output@)) is None },
        card_is(r, lf_card_spec(strip_spec(output@))),
{
    let clean_s = strip_ansi(output);
    let clean = clean_s.as_str();
    let cv = chars_of(clean);
    if contains(&cv, NO_LF_TAG) {
        return None;
    }
    if contains(&cv, "EM410x") || contains(&cv, "EM 410x") {
        if let Some(uid) = upper_group(EM4100_ID_RE, clean, 1) {
            let mut decoded = typed("EM4100");
            put(&mut decoded, "id", uid.as_str());
            let raw = uid.clone();
            return found(CardType::EM4100, uid, raw, decoded);
        }
    }
    if contains(&cv, "HID Prox") || contains(&cv, "HID Corporate") {
        return parse_hid(clean);
    }
    if contains(&cv, "Indala") {
        let r = parse_indala(clean);
        if r.is_some() {
            return r;
        }
    }
    if contains(&cv, "IO Prox") {
        return parse_ioprox(clean);
    }
    if contains(&cv, "AWID") {
        return parse_awid(clean);
    }
    if contains(&cv, "FDX-B") || contains(&cv, "FDX B") || contains(&cv, "FDXB") {
        return parse_fdxb(clean);
    }
    if contains(&cv, "Paradox") {
        return parse_fc_cn_raw(CardType::Paradox, "Paradox", PARADOX_FC_CN_RE, PARADOX_RAW_RE, clean);
    }
    if contains(&cv, "Keri") || contains(&cv, "KERI") {
        return parse_keri(clean, &cv);
    }
    if contains(&cv, "Pyramid") {
        return parse_fc_cn_raw(CardType::Pyramid, "Pyramid", PYRAMID_FC_CN_RE, PYRAMID_RAW_RE, clean);
    }
    if contains(&cv, "Gallagher") || contains(&cv, "GALLAGHER") {
        let r = parse_gallagher(clean);
        if r.is_some() {
            return r;
        }
    }
    if contains(&cv, "Guardall") || contains(&cv, "GProx") || contains(&cv, "G-Prox") {
        let r = parse_gproxii(clean);
        if r.is_some() {
            return r;
        }
    }
    if contains(&cv, "Nedap") || contains(&cv, "NEDAP") {
        let r = parse_nedap(clean);
        if r.is_some() {
            return r;
        }
    }
    if contains(&cv, "Presco") {
        return parse_presco(clean);
    }
    if is_match(PAC_DETECT_RE, clean) {
        return parse_pac(clean);
    }
    if contains(&cv, "Noralsy") {
        return parse_noralsy(clean);
    }
    if contains(&cv, "Jablotron") {
        let r = single_hex(CardType::Jablotron, "Jablotron", "card_number", JABLOTRON_RE, clean);
        if r.is_some() {
            return r;
        }
    }
    if contains(&cv, "Securakey") || contains(&cv, "SecuraKey") || contains(&cv, "SECURAKEY") {
        let r = single_hex(CardType::SecuraKey, "SecuraKey", "raw", SECURAKEY_RE, clean);
        if r.is_some() {
            return r;
        }
    }
    if contains(&cv, "Visa2000") {
        if let Some(cn) = group(VISA2000_RE, clean, 1) {
            let mut decoded = typed("Visa2000");
            put(&mut decoded, "card_number", cn.as_str());
            return found(CardType::Visa2000, cn, String::new(), decoded);
        }
    }
    if contains(&cv, "Motorola") {
        let r = single_hex(CardType::Motorola, "Motorola", "raw", MOTOROLA_RE, clean);
        if r.is_some() {
            return r;
        }
    }
    if contains(&cv, "IDTECK") || contains(&cv, "Idteck") {
        let r = single_hex(CardType::IDTECK, "IDTECK", "raw", IDTECK_RE, clean);
        if r.is_some() {
            return r;
        }
    }
    // Read-only protocols: identified, but marked as not cloneable by their type.
    if is_match(COTAG_RE, clean) {
        return named_only(CardType::COTAG, "COTAG");
    }
    if is_match(EM4X50_RE, clean) {
        return named_only(CardType::EM4x50, "EM4x50");
    }
    if is_match(HITAG_RE, clean) {
        return named_only(CardType::Hitag, "Hitag");
    }
    if contains(&cv, "NexWatch") || contains(&cv, "NXT") {
        let r = parse_nexwatch(clean);
        if r.is_some() {
            return r;
        }
    }
    if contains(&cv, "Viking") || contains(&cv, "viking") {
        let r = parse_viking(clean);
        if r.is_some() {
            return r;
        }
    }
    parse_valid_tag(clean)
}


/// The output reports that no HF card was found.
pub open spec fn no_hf_card(clean: Seq<char>) -> bool {
    seq_contains(clean, "No known/supported 13.56 MHz tags found"@) || seq_contains(
        clean,
        "No data found"@,
    ) || clean.len() == 0
}

/// The SAK byte that the output reports, if its line is present.
pub open spec fn reported_sak(clean: Seq<char>) -> Option<u8> {
    match group_spec(HF_SAK_RE@, clean, 1) {
        Some(g) => if is_hex_str(upper_of(g)) && hex_value(upper_of(g)) <= 0xff {
            Some(hex_value(upper_of(g)) as u8)
        } else {
            None
        },
        None => None,
    }
}

/// The output names a family that is decided before the SAK is looked at:
/// iCLASS, DESFire, NTAG or Ultralight.
pub open spec fn named_hf_family(clean: Seq<char>) -> bool {
    matches_spec(HF_ICLASS_RE@, clean) || matches_spec(HF_DESFIRE_RE@, clean) || group_spec(
        HF_NTAG_TYPE_RE@,
        clean,
        1,
    ) is Some || (matches_spec(HF_MFU_TYPE_RE@, clean) && !matches_spec(HF_NTAG_TYPE_RE@, clean))
}

/// What in `hf search` output must be present for an HF family to be
/// reported: its name pattern, or for the MIFARE families the SAK byte or
/// the family's name.
pub open spec fn hf_evidence(ct: CardType, c: Seq<char>) -> bool {
    match ct {
        CardType::IClass => matches_spec(HF_ICLASS_RE@, c),
        CardType::DESFire => matches_spec(HF_DESFIRE_RE@, c),
        CardType::NTAG => group_spec(HF_NTAG_TYPE_RE@, c, 1) is Some,
        CardType::MifareUltralight => (matches_spec(HF_MFU_TYPE_RE@, c) && !matches_spec(
            HF_NTAG_TYPE_RE@,
            c,
        )) || reported_sak(c) == Some(0u8),
        CardType::MifareClassic1K => (reported_sak(c) is Some && classic_by_sak(reported_sak(c)->0)
            == Some(CardType::MifareClassic1K)) || seq_contains(c, "MIFARE Classic"@)
            || seq_contains(c, "Classic 1K"@),
        CardType::MifareClassic4K => (reported_sak(c) is Some && classic_by_sak(reported_sak(c)->0)
            == Some(CardType::MifareClassic4K)) || seq_contains(c, "MIFARE Classic 4K"@)
            || seq_contains(c, "Classic 4K"@),
        _ => false,
    }
}

/// The ATQA bytes that the output reports, upper-cased and single-spaced.
pub open spec fn atqa_field(c: Seq<char>) -> Option<Seq<char>> {
    match group_spec(HF_ATQA_RE@, c, 1) {
        Some(g) => Some(words_upper(g)),
        None => None,
    }
}

/// The HF family that `hf search` output is decoded as: iCLASS, DESFire,
/// NTAG and Ultralight by name; then MIFARE Classic by the SAK table; an
/// Ultralight by SAK 00 with ATQA 00 44; then Classic by name, 4K first.
pub open spec fn hf_type_spec(c: Seq<char>) -> Option<CardType> {
    if no_hf_card(c) {
        None
    } else if matches_spec(HF_ICLASS_RE@, c) {
        Some(CardType::IClass)
    } else if matches_spec(HF_DESFIRE_RE@, c) {
        Some(CardType::DESFire)
    } else if group_spec(HF_NTAG_TYPE_RE@, c, 1) is Some {
        Some(CardType::NTAG)
    } else if matches_spec(HF_MFU_TYPE_RE@, c) && !matches_spec(HF_NTAG_TYPE_RE@, c) {
        Some(CardType::MifareUltralight)
    } else if reported_sak(c) is Some && classic_by_sak(reported_sak(c)->0) is Some {
        classic_by_sak(reported_sak(c)->0)
    } else if reported_sak(c) == Some(0u8) && atqa_field(c) == Some("00 44"@) {
        Some(CardType::MifareUltralight)
    } else if seq_contains(c, "MIFARE Classic 4K"@) || seq_contains(c, "Classic 4K"@) {
        Some(CardType::MifareClassic4K)
    } else if seq_contains(c, "MIFARE Classic"@) || seq_contains(c, "Classic 1K"@) {
        Some(CardType::MifareClassic1K)
    } else {
        None
    }
}

/// The UID that `hf search` reports: the hex digits of the UID group,
/// upper-cased; empty when there is none.
pub open spec fn hf_uid_spec(c: Seq<char>) -> Seq<char> {
    match group_spec(HF_UID_RE@, c, 1) {
        Some(g) => upper_of(crate::text::hex_only(trim_spec(g))),
        None => Seq::empty(),
    }
}

/// The fields that every ISO 14443-A decode records, in order: UID and its
/// size in bytes, ATQA, SAK, ATS, PRNG strength and magic capability, each
/// when reported.
pub open spec fn hf_common_fields(c: Seq<char>) -> Seq<(Seq<char>, Seq<char>)> {
    let f1 = match group_spec(HF_UID_RE@, c, 1) {
        Some(g) => {
            let u = hf_uid_spec(c);
            Seq::empty().push(("uid"@, u)).push(("uid_size"@, crate::text::dec(u.len() / 2) + "B"@))
        },
        None => Seq::empty(),
    };
    let ats = match group_spec(HF_ATS_RE@, c, 1) {
        Some(g) => Some(upper_of(trim_spec(g))),
        None => None,
    };
    push_opt(
        push_opt(
            push_opt(push_opt(push_opt(f1, "atqa"@, atqa_field(c)), "sak"@, ug(HF_SAK_RE@, c, 1)), "ats"@, ats),
            "prng"@,
            ug(HF_PRNG_RE@, c, 1),
        ),
        "magic"@,
        group_spec(HF_MAGIC_RE@, c, 1),
    )
}

/// The type fields that close an ISO 14443-A decode.
pub open spec fn hf_type_fields(ct: CardType, c: Seq<char>, f: Seq<(Seq<char>, Seq<char>)>) -> Seq<(Seq<char>, Seq<char>)> {
    match ct {
        CardType::DESFire => f.push(("type"@, "DESFire"@)),
        CardType::NTAG => f.push(("type"@, "NTAG"@)).push(
            ("ntag_type"@, "NTAG"@ + group_spec(HF_NTAG_TYPE_RE@, c, 1)->0),
        ),
        CardType::MifareUltralight => if matches_spec(HF_MFU_TYPE_RE@, c) && !matches_spec(HF_NTAG_TYPE_RE@, c) {
            f.push(("type"@, "MifareUltralight"@)).push(
                (
                    "ul_type"@,
                    match group_spec(HF_MFU_TYPE_RE@, c, 1) {
                        Some(t) => "Ultralight "@ + t,
                        None => "Ultralight"@,
                    },
                ),
            )
        } else {
            f.push(("type"@, "MifareUltralight"@))
        },
        CardType::MifareClassic4K => f.push(("type"@, "MifareClassic4K"@)),
        _ => f.push(("type"@, "MifareClassic1K"@)),
    }
}

/// The iCLASS serial number: the CSN group without whitespace, upper-cased.
pub open spec fn iclass_csn(c: Seq<char>) -> Seq<char> {
    match group_spec(HF_ICLASS_CSN_RE@, c, 1) {
        Some(g) => upper_of(crate::text::without_ws(g)),
        None => Seq::empty(),
    }
}

/// The card that `hf search` output is decoded as.
pub open spec fn hf_card_spec(c: Seq<char>) -> Option<LfCard> {
    match hf_type_spec(c) {
        None => None,
        Some(ct) => if ct is IClass {
            let csn = iclass_csn(c);
            if csn.len() == 0 {
                lf(ct, "iCLASS"@, Seq::empty(), Seq::empty().push(("type"@, "IClass"@)))
            } else {
                lf(ct, csn, Seq::empty(), Seq::empty().push(("type"@, "IClass"@)).push(("uid"@, csn)))
            }
        } else {
            lf(ct, hf_uid_spec(c), Seq::empty(), hf_type_fields(ct, c, hf_common_fields(c)))
        },
    }
}

/// Decodes `hf search` output, optionally enriched with `hf 14a info` and
/// `hf mf info`, into the HF card family and identity.
pub fn parse_hf_search(output: &str) -> (r: Option<(CardType, CardData)>)
    ensures
        no_hf_card(strip_spec(output@)) ==> r is None,
        r is Some ==> !crate::types::is_lf(r.unwrap().0),
        r is Some ==> hf_evidence(r.unwrap().0, strip_spec(output@)),
        match r {
            Some(x) => hf_type_spec(strip_spec(output@)) == Some(x.0),
            None => hf_type_spec(strip_spec(output@)) is None,
        },
        card_is(r, hf_card_spec(strip_spec(output@))),
        !no_hf_card(strip_spec(output@)) && matches_spec(HF_ICLASS_RE@, strip_spec(output@))
            ==> r is Some && r.unwrap().0 == CardType::IClass,
        !no_hf_card(strip_spec(output@)) && !named_hf_family(strip_spec(output@)) && reported_sak(
            strip_spec(output@),
        ) is Some && classic_by_sak(reported_sak(strip_spec(output@))->0) is Some ==> r is Some
            && r.unwrap().0 == classic_by_sak(reported_sak(strip_spec(output@))->0)->0,
{
    let clean_s = strip_ansi(output);
    let clean = clean_s.as_str();
    let cv = chars_of(clean);
    if contains(&cv, "No known/supported 13.56 MHz tags found") || contains(&cv, "No data found")
        || cv.len() == 0 {
        return None;
    }
    let mut decoded = Fields::new();
    // iCLASS / Picopass is not ISO 14443-A: its serial number stands for the UID.
    if is_match(HF_ICLASS_RE, clean) {
        put(&mut decoded, "type", "IClass");
        let csn = match group(HF_ICLASS_CSN_RE, clean, 1) {
            Some(c) => {
                let joined = remove_ws(c.as_str());
                to_upper(joined.as_str())
            },
            None => String::new(),
        };
        let uid = if csn.unicode_len() == 0 {
            String::from_str("iCLASS")
        } else {
            put(&mut decoded, "uid", csn.as_str());
            csn
        };
        return found(CardType::IClass, uid, String::new(), decoded);
    }
    let uid = match group(HF_UID_RE, clean, 1) {
        Some(raw_uid) => {
            let t = trim(raw_uid.as_str());
            let hex = keep_hex(t.as_str());
            let uid_clean = to_upper(hex.as_str());
            let size = (uid_clean.unicode_len() / 2) as u64;
            put(&mut decoded, "uid", uid_clean.as_str());
            let mut sz = dec_string(size);
            append_str(&mut sz, "B");
            put(&mut decoded, "uid_size", sz.as_str());
            uid_clean
        },
        None => String::new(),
    };
    let atqa_is_ultralight = match group(HF_ATQA_RE, clean, 1) {
        Some(a) => {
            let atqa = join_words_upper(a.as_str());
            put(&mut decoded, "atqa", atqa.as_str());
            str_eq(atqa.as_str(), "00 44")
        },
        None => false,
    };
    let sak = match upper_group(HF_SAK_RE, clean, 1) {
        Some(sak_val) => {
            put(&mut decoded, "sak", sak_val.as_str());
            match parse_hex_u32(sak_val.as_str()) {
                Some(n) => if n <= 0xff {
                    Some(n as u8)
                } else {
                    None
                },
                None => None,
            }
        },
        None => None,
    };
    if let Some(ats) = group(HF_ATS_RE, clean, 1) {
        let t = trim(ats.as_str());
        let u = to_upper(t.as_str());
        put(&mut decoded, "ats", u.as_str());
    }
    if let Some(prng) = upper_group(HF_PRNG_RE, clean, 1) {
        put(&mut decoded, "prng", prng.as_str());
    }
    if let Some(magic) = group(HF_MAGIC_RE, clean, 1) {
        put(&mut decoded, "magic", magic.as_str());
    }
    // DESFire before Classic: SAK 0x20 fits both.
    if is_match(HF_DESFIRE_RE, clean) {
        put(&mut decoded, "type", "DESFire");
        return found(CardType::DESFire, uid, String::new(), decoded);
    }
    if let Some(n) = group(HF_NTAG_TYPE_RE, clean, 1) {
        let ntag_type = cat("NTAG", n.as_str());
        put(&mut decoded, "type", "NTAG");
        put(&mut decoded, "ntag_type", ntag_type.as_str());
        return found(CardType::NTAG, uid, String::new(), decoded);
    }
    if is_match(HF_MFU_TYPE_RE, clean) && !is_match(HF_NTAG_TYPE_RE, clean) {
        let ul_type = match group(HF_MFU_TYPE_RE, clean, 1) {
            Some(t) => cat("Ultralight ", t.as_str()),
            None => String::from_str("Ultralight"),
        };
        put(&mut decoded, "type", "MifareUltralight");
        put(&mut decoded, "ul_type", ul_type.as_str());
        return found(CardType::MifareUltralight, uid, String::new(), decoded);
    }
    // SAK decides between the Classic densities.
    if let Some(v) = sak {
        if v == 0x08 || v == 0x88 || v == 0x09 || v == 0x89 {
            put(&mut decoded, "type", "MifareClassic1K");
            return found(CardType::MifareClassic1K, uid, String::new(), decoded);
        }
        if v == 0x18 || v == 0x98 || v == 0x19 || v == 0x28 || v == 0x38 {
            put(&mut decoded, "type", "MifareClassic4K");
            return found(CardType::MifareClassic4K, uid, String::new(), decoded);
        }
        if v == 0x00 {
            // SAK 00 without a name: an ATQA of 00 44 marks an Ultralight.
            if atqa_is_ultralight {
                put(&mut decoded, "type", "MifareUltralight");
                return found(CardType::MifareUltralight, uid, String::new(), decoded);
            }
        }
    }
    if contains(&cv, "MIFARE Classic 4K") || contains(&cv, "Classic 4K") {
        put(&mut decoded, "type", "MifareClassic4K");
        return found(CardType::MifareClassic4K, uid, String::new(), decoded);
    }
    if contains(&cv, "MIFARE Classic") || contains(&cv, "Classic 1K") {
        put(&mut decoded, "type", "MifareClassic1K");
        return found(CardType::MifareClassic1K, uid, String::new(), decoded);
    }
    None
}

/// The classification of a card by its SAK byte alone, for the values that
/// decide it: 0x08/0x88/0x09/0x89 are Classic 1K, 0x18/0x98/0x19/0x28/0x38
/// Classic 4K.
pub open spec fn classic_by_sak(sak: u8) -> Option<CardType> {
    if sak == 0x08 || sak == 0x88 || sak == 0x09 || sak == 0x89 {
        Some(CardType::MifareClassic1K)
    } else if sak == 0x18 || sak == 0x98 || sak == 0x19 || sak == 0x28 || sak == 0x38 {
        Some(CardType::MifareClassic4K)
    } else {
        None
    }
}

/// The line that `parse_autopwn_line` reads: ANSI-stripped and trimmed.
pub open spec fn autopwn_text(line: Seq<char>) -> Seq<char> {
    trim_spec(strip_spec(line))
}

/// Which marker of an autopwn line decides its event, in order of
/// precedence: 0 an empty line, 1 total failure, 2 execution time, 3 full
/// dump, 4 partial dump, 5 saved file, 6 recovered key, 7 dictionary
/// progress, 8 anything else (attack phases or nothing).
pub open spec fn autopwn_kind(t: Seq<char>) -> int {
    if t.len() == 0 {
        0
    } else if matches_spec(AUTOPWN_FAIL_RE@, t) {
        1
    } else if group_spec(AUTOPWN_TIME_RE@, t, 1) is Some {
        2
    } else if matches_spec(AUTOPWN_DUMP_OK_RE@, t) {
        3
    } else if matches_spec(AUTOPWN_DUMP_PARTIAL_RE@, t) {
        4
    } else if group_spec(AUTOPWN_DUMP_SAVED_RE@, t, 1) is Some {
        5
    } else if group_spec(AUTOPWN_KEY_FOUND_RE@, t, 1) is Some {
        6
    } else if group_spec(AUTOPWN_KEYS_RE@, t, 1) is Some && group_spec(AUTOPWN_KEYS_RE@, t, 2) is Some {
        7
    } else {
        8
    }
}

pub open spec fn u32_or_zero(o: Option<Seq<char>>) -> u32 {
    match o {
        Some(g) => match crate::text::parse_u32_spec(g) {
            Some(n) => n,
            None => 0,
        },
        None => 0,
    }
}

/// The attack-phase event of a line without any other marker. Nested comes
/// last, as the hard and static variants contain its name.
pub open spec fn phase_event(t: Seq<char>) -> Option<AutopwnEvent> {
    if seq_contains(t, "Darkside attack"@) || seq_contains(t, "darkside"@) {
        Some(AutopwnEvent::DarksideStarted)
    } else if seq_contains(t, "Hardnested attack"@) || seq_contains(t, "hardnested"@) {
        Some(AutopwnEvent::HardnestedStarted)
    } else if seq_contains(t, "Staticnested"@) || seq_contains(t, "staticnested"@) || seq_contains(
        t,
        "static nonce"@,
    ) {
        Some(AutopwnEvent::StaticnestedStarted)
    } else if (seq_contains(t, "Nested attack"@) || seq_contains(t, "nested authentication"@))
        && !seq_contains(t, "Hardnested"@) && !seq_contains(t, "hardnested"@) && !seq_contains(
        t,
        "Staticnested"@,
    ) && !seq_contains(t, "staticnested"@) {
        Some(AutopwnEvent::NestedStarted)
    } else {
        None
    }
}

/// Decodes one line of streaming `hf mf autopwn` output into a progress
/// event. Safe on any partial line; `None` when it carries no marker.
pub fn parse_autopwn_line(line: &str) -> (r: Option<AutopwnEvent>)
    ensures
        ({
            let t = autopwn_text(line@);
            let k = autopwn_kind(t);
            &&& k == 0 ==> r is None
            &&& k == 1 ==> r is Some && r.unwrap() is Failed && r.unwrap()->Failed_reason@
                == "All key recovery attempts failed"@
            &&& k == 2 ==> r == Some(
                AutopwnEvent::Finished {
                    time_secs: u32_or_zero(group_spec(AUTOPWN_TIME_RE@, t, 1)),
                },
            )
            &&& k == 3 ==> r is Some && r.unwrap() is DumpComplete
                && r.unwrap()->DumpComplete_file_path@.len() == 0
            &&& k == 4 ==> r is Some && r.unwrap() is DumpPartial
                && r.unwrap()->DumpPartial_file_path@.len() == 0
            &&& k == 5 ==> r is Some && r.unwrap() is DumpComplete && Some(
                r.unwrap()->DumpComplete_file_path@,
            ) == group_spec(AUTOPWN_DUMP_SAVED_RE@, t, 1)
            &&& k == 6 ==> r is Some && r.unwrap() is KeyFound && r.unwrap()->KeyFound_key@
                == upper_of(group_spec(AUTOPWN_KEY_FOUND_RE@, t, 1)->0)
            &&& k == 7 ==> r == Some(
                AutopwnEvent::DictionaryProgress {
                    found: u32_or_zero(group_spec(AUTOPWN_KEYS_RE@, t, 1)),
                    total: u32_or_zero(group_spec(AUTOPWN_KEYS_RE@, t, 2)),
                },
            )
            &&& k == 8 ==> r == phase_event(t)
        }),
{
    let clean = strip_ansi(line);
    let trimmed_s = trim(clean.as_str());
    let trimmed = trimmed_s.as_str();
    let tv = chars_of(trimmed);
    if tv.len() == 0 {
        return None;
    }
    if is_match(AUTOPWN_FAIL_RE, trimmed) {
        return Some(
            AutopwnEvent::Failed { reason: String::from_str("All key recovery attempts failed") },
        );
    }
    if let Some(secs) = group(AUTOPWN_TIME_RE, trimmed, 1) {
        let time_secs = match parse_u32(secs.as_str()) {
            Some(n) => n,
            None => 0,
        };
        return Some(AutopwnEvent::Finished { time_secs });
    }
    // The file path of a complete dump comes on a later line.
    if is_match(AUTOPWN_DUMP_OK_RE, trimmed) {
        return Some(AutopwnEvent::DumpComplete { file_path: String::new() });
    }
    if is_match(AUTOPWN_DUMP_PARTIAL_RE, trimmed) {
        return Some(AutopwnEvent::DumpPartial { file_path: String::new() });
    }
    if let Some(path) = group(AUTOPWN_DUMP_SAVED_RE, trimmed, 1) {
        return Some(AutopwnEvent::DumpComplete { file_path: path });
    }
    if let Some(key) = upper_group(AUTOPWN_KEY_FOUND_RE, trimmed, 1) {
        return Some(AutopwnEvent::KeyFound { key });
    }
    if let (Some(f), Some(t)) = (group(AUTOPWN_KEYS_RE, trimmed, 1), group(AUTOPWN_KEYS_RE, trimmed, 2)) {
        let found_keys = match parse_u32(f.as_str()) {
            Some(n) => n,
            None => 0,
        };
        let total = match parse_u32(t.as_str()) {
            Some(n) => n,
            None => 0,
        };
        return Some(AutopwnEvent::DictionaryProgress { found: found_keys, total });
    }
    if contains(&tv, "Darkside attack") || contains(&tv, "darkside") {
        return Some(AutopwnEvent::DarksideStarted);
    }
    if contains(&tv, "Hardnested attack") || contains(&tv, "hardnested") {
        return Some(AutopwnEvent::HardnestedStarted);
    }
    if contains(&tv, "Staticnested") || contains(&tv, "staticnested") || contains(&tv, "static nonce") {
        return Some(AutopwnEvent::StaticnestedStarted);
    }
    // Checked after the hard and static variants, whose names contain it.
    if (contains(&tv, "Nested attack") || contains(&tv, "nested authentication")) && !contains(
        &tv,
        "Hardnested",
    ) && !contains(&tv, "hardnested") && !contains(&tv, "Staticnested") && !contains(
        &tv,
        "staticnested",
    ) {
        return Some(AutopwnEvent::NestedStarted);
    }
    None
}

/// Classification of a magic capability string, case-insensitively, most
/// specific generation first.
pub open spec fn magic_generation_of(lower_cap: Seq<char>) -> Option<MagicGeneration> {
    if seq_contains(lower_cap, "gdm"@) || seq_contains(lower_cap, "uscuid"@) {
        Some(MagicGeneration::Gen4GDM)
    } else if seq_contains(lower_cap, "gtu"@) || seq_contains(lower_cap, "ultimate"@)
        || seq_contains(lower_cap, "gen 4"@) || seq_contains(lower_cap, "gen4"@) {
        Some(MagicGeneration::Gen4GTU)
    } else if seq_contains(lower_cap, "gen 3"@) || seq_contains(lower_cap, "gen3"@)
        || seq_contains(lower_cap, "apdu"@) || seq_contains(lower_cap, "ufuid"@) {
        Some(MagicGeneration::Gen3)
    } else if seq_contains(lower_cap, "gen 2"@) || seq_contains(lower_cap, "gen2"@)
        || seq_contains(lower_cap, "cuid"@) {
        Some(MagicGeneration::Gen2)
    } else if seq_contains(lower_cap, "gen 1"@) || seq_contains(lower_cap, "gen1"@) {
        Some(MagicGeneration::Gen1a)
    } else {
        None
    }
}

/// The magic generation that `hf mf info` output reports. The detected
/// generation is returned whatever generation the caller expected.
pub fn parse_magic_detection(output: &str) -> (r: Option<MagicGeneration>)
    ensures
        match group_spec(HF_MAGIC_RE@, strip_spec(output@), 1) {
            Some(cap) => r == magic_generation_of(lower_of(cap)),
            None => r is None,
        },
{
    let clean = strip_ansi(output);
    let cap = match group(HF_MAGIC_RE, clean.as_str(), 1) {
        Some(c) => c,
        None => return None,
    };
    let low_s = to_lower(cap.as_str());
    let low = chars_of(low_s.as_str());
    if contains(&low, "gdm") || contains(&low, "uscuid") {
        return Some(MagicGeneration::Gen4GDM);
    }
    if contains(&low, "gtu") || contains(&low, "ultimate") || contains(&low, "gen 4") || contains(
        &low,
        "gen4",
    ) {
        return Some(MagicGeneration::Gen4GTU);
    }
    if contains(&low, "gen 3") || contains(&low, "gen3") || contains(&low, "apdu") || contains(
        &low,
        "ufuid",
    ) {
        return Some(MagicGeneration::Gen3);
    }
    if contains(&low, "gen 2") || contains(&low, "gen2") || contains(&low, "cuid") {
        return Some(MagicGeneration::Gen2);
    }
    if contains(&low, "gen 1") || contains(&low, "gen1") {
        return Some(MagicGeneration::Gen1a);
    }
    None
}

/// The ANSI-stripped output, ASCII lower-cased, as characters.
fn lowered(output: &str) -> (r: Vec<char>)
    ensures
        r@ == lower_of(strip_spec(output@)),
{
    let clean = strip_ansi(output);
    let low = to_lower(clean.as_str());
    chars_of(low.as_str())
}

/// `hf 14a info` shows an ISO 14443-A card: a UID line and an ATQA or SAK line.
pub fn is_hf_card_present(output: &str) -> (r: bool)
    ensures
        r == (seq_contains(lower_of(strip_spec(output@)), "uid"@) && (seq_contains(
            lower_of(strip_spec(output@)),
            "atqa"@,
        ) || seq_contains(lower_of(strip_spec(output@)), "sak"@))),
{
    let low = lowered(output);
    contains(&low, "uid") && (contains(&low, "atqa") || contains(&low, "sak"))
}

/// `hf mfu info` shows a magic (rewritable) Ultralight or NTAG.
pub fn is_magic_ultralight(output: &str) -> (r: bool)
    ensures
        r == (seq_contains(lower_of(strip_spec(output@)), "magic"@) || seq_contains(
            lower_of(strip_spec(output@)),
            "gen1a"@,
        ) || seq_contains(lower_of(strip_spec(output@)), "directwrite"@)),
{
    let low = lowered(output);
    contains(&low, "magic") || contains(&low, "gen1a") || contains(&low, "directwrite")
}

/// `hf iclass info` shows an iCLASS / Picopass card.
pub fn is_iclass_present(output: &str) -> (r: bool)
    ensures
        r == (seq_contains(lower_of(strip_spec(output@)), "iclass"@) || seq_contains(
            lower_of(strip_spec(output@)),
            "picopass"@,
        )),
{
    let low = lowered(output);
    contains(&low, "iclass") || contains(&low, "picopass")
}

/// Group 1 of the saved-file pattern on the first of `ls[i..]` where it matches.
pub open spec fn first_saved_path(ls: Seq<Seq<char>>, i: int) -> Option<Seq<char>>
    decreases ls.len() - i,
{
    if i < 0 || i >= ls.len() {
        None
    } else {
        match group_spec(AUTOPWN_DUMP_SAVED_RE@, ls[i], 1) {
            Some(p) => Some(p),
            None => first_saved_path(ls, i + 1),
        }
    }
}

/// The dump file named on the first output line that reports a saved file.
pub fn extract_dump_file_path(output: &str) -> (r: Option<String>)
    ensures
        match r {
            Some(p) => first_saved_path(lines_spec(strip_spec(output@)), 0) == Some(p@),
            None => first_saved_path(lines_spec(strip_spec(output@)), 0) is None,
        },
{
    let clean = strip_ansi(output);
    let lines = lines_of(clean.as_str());
    let ghost ls = lines_spec(strip_spec(output@));
    let mut i: usize = 0;
    while i < lines.len()
        invariant
            i <= lines.len(),
            views(lines@) == ls,
            ls == lines_spec(strip_spec(output@)),
            first_saved_path(ls, 0) == first_saved_path(ls, i as int),
        decreases lines.len() - i,
    {
        assert(ls[i as int] == lines@[i as int]@);
        if let Some(p) = group(AUTOPWN_DUMP_SAVED_RE, lines[i].as_str(), 1) {
            assert(group_spec(AUTOPWN_DUMP_SAVED_RE@, ls[i as int], 1) == Some(p@));
            assert(first_saved_path(ls, i as int) == Some(p@));
            return Some(p);
        }
        i = i + 1;
    }
    assert(views(lines@).len() == lines@.len());
    None
}

/// Decodes `lf t55xx detect` output into the chip status.
pub fn parse_t5577_detect(output: &str) -> (r: T5577Status)
    ensures
        r.detected == (seq_contains(strip_spec(output@), "T55xx"@) || seq_contains(
            strip_spec(output@),
            "T5577"@,
        ) || seq_contains(strip_spec(output@), "T5555"@) || seq_contains(
            strip_spec(output@),
            "Chip type"@,
        )),
        r.password_set == (group_spec(T5577_PASSWORD_RE@, strip_spec(output@), 1) is Some && lower(
            group_spec(T5577_PASSWORD_RE@, strip_spec(output@), 1)->0,
        ) == "yes"@),
        r.chip_type@ == match group_spec(T5577_CHIP_RE@, strip_spec(output@), 1) {
            Some(g) => g,
            None => if r.detected {
                "T55x7"@
            } else {
                Seq::<char>::empty()
            },
        },
        match r.block0 {
            Some(b) => group_spec(T5577_BLOCK0_RE@, strip_spec(output@), 1) is Some && b@ == upper_of(
                group_spec(T5577_BLOCK0_RE@, strip_spec(output@), 1)->0,
            ),
            None => group_spec(T5577_BLOCK0_RE@, strip_spec(output@), 1) is None,
        },
        match r.modulation {
            Some(m) => group_spec(T5577_MOD_RE@, strip_spec(output@), 1) is Some && m@ == trim_spec(
                group_spec(T5577_MOD_RE@, strip_spec(output@), 1)->0,
            ),
            None => group_spec(T5577_MOD_RE@, strip_spec(output@), 1) is None,
        },
{
    let clean_s = strip_ansi(output);
    let clean = clean_s.as_str();
    let cv = chars_of(clean);
    let detected = contains(&cv, "T55xx") || contains(&cv, "T5577") || contains(&cv, "T5555")
        || contains(&cv, "Chip type");
    let chip_type = match group(T5577_CHIP_RE, clean, 1) {
        Some(c) => c,
        None => if detected {
            String::from_str("T55x7")
        } else {
            String::new()
        },
    };
    let password_set = match group(T5577_PASSWORD_RE, clean, 1) {
        Some(p) => eq_ignore_case(p.as_str(), "Yes"),
        None => false,
    };
    proof {
        reveal_strlit("Yes");
        reveal_strlit("yes");
        assert(lower("Yes"@) =~= "yes"@);
    }
    let block0 = upper_group(T5577_BLOCK0_RE, clean, 1);
    let modulation = match group(T5577_MOD_RE, clean, 1) {
        Some(m) => Some(trim(m.as_str())),
        None => None,
    };
    T5577Status { detected, chip_type, password_set, block0, modulation }
}

/// The password that `lf t55xx chk` found, upper-cased.
pub fn parse_t5577_chk(output: &str) -> (r: Option<String>)
    ensures
        match r {
            Some(p) => group_spec(T5577_PASSWORD_FOUND_RE@, strip_spec(output@), 1) is Some
                && p@ == upper_of(group_spec(T5577_PASSWORD_FOUND_RE@, strip_spec(output@), 1)->0),
            None => group_spec(T5577_PASSWORD_FOUND_RE@, strip_spec(output@), 1) is None,
        },
{
    let clean = strip_ansi(output);
    upper_group(T5577_PASSWORD_FOUND_RE, clean.as_str(), 1)
}

/// `lf em 4x05 info` shows an EM4305-family chip.
pub fn parse_em4305_info(output: &str) -> (r: bool)
    ensures
        r == (seq_contains(strip_spec(output@), "EM4x05"@) || seq_contains(
            strip_spec(output@),
            "EM4x69"@,
        ) || seq_contains(strip_spec(output@), "EM4305"@) || seq_contains(
            strip_spec(output@),
            "EM4469"@,
        )),
{
    let clean = strip_ansi(output);
    let cv = chars_of(clean.as_str());
    contains(&cv, "EM4x05") || contains(&cv, "EM4x69") || contains(&cv, "EM4305") || contains(
        &cv,
        "EM4469",
    )
}

/// Word 0 of an EM4305 as `lf em 4x05 read -a 0` reports it, upper-cased;
/// all zeros after a successful wipe.
pub fn parse_em4305_word0(output: &str) -> (r: Option<String>)
    ensures
        match r {
            Some(w) => group_spec(EM4305_WORD_RE@, strip_spec(output@), 1) is Some && w@ == upper_of(
                group_spec(EM4305_WORD_RE@, strip_spec(output@), 1)->0,
            ),
            None => group_spec(EM4305_WORD_RE@, strip_spec(output@), 1) is None,
        },
{
    let clean = strip_ansi(output);
    upper_group(EM4305_WORD_RE, clean.as_str(), 1)
}

/// Compares a source UID with the UID that a read-back decodes, ignoring
/// ASCII case. Returns the match flag and the mismatched blocks, block 0
/// standing for the identity.
pub fn verify_match(source_uid: &str, clone_output: &str) -> (r: (bool, Vec<u16>))
    ensures
        r.0 ==> r.1@.len() == 0,
        !r.0 ==> r.1@ == seq![0u16],
        r.0 == (lf_card_spec(strip_spec(clone_output@)) is Some && lower(
            lf_card_spec(strip_spec(clone_output@))->0.uid,
        ) == lower(source_uid@)),
{
    match parse_lf_search(clone_output) {
        Some((_, card_data)) => {
            if eq_ignore_case(card_data.uid.as_str(), source_uid) {
                (true, Vec::new())
            } else {
                (false, vec![0u16])
            }
        },
        None => (false, vec![0u16]),
    }
}

/// Field agreement: both values present and equal, or both absent.
pub open spec fn same_or_both_absent(a: Option<Seq<char>>, b: Option<Seq<char>>, fold: bool) -> bool {
    match (a, b) {
        (Some(x), Some(y)) => if fold {
            lower(x) == lower(y)
        } else {
            x == y
        },
        (None, None) => true,
        _ => false,
    }
}

/// Raw agreement: compared only when both sides hold a raw value.
pub open spec fn raw_agrees(a: Option<Seq<char>>, b: Option<Seq<char>>) -> bool {
    match (a, b) {
        (Some(x), Some(y)) => lower(x) == lower(y),
        _ => true,
    }
}

/// The mismatch list for the four field comparisons, in the order facility
/// (1), card number (2), raw (0), id (3).
pub open spec fn mismatch_list(fc: bool, cn: bool, raw: bool, id: bool) -> Seq<u16> {
    let a = if fc { Seq::<u16>::empty() } else { seq![1u16] };
    let b = if cn { a } else { a.push(2u16) };
    let c = if raw { b } else { b.push(0u16) };
    if id { c } else { c.push(3u16) }
}

fn field_match(a: Option<&String>, b: Option<&String>, fold: bool) -> (r: bool)
    ensures
        r == same_or_both_absent(
            match a { Some(x) => Some(x@), None => None },
            match b { Some(x) => Some(x@), None => None },
            fold,
        ),
{
    match (a, b) {
        (Some(x), Some(y)) => if fold {
            eq_ignore_case(x.as_str(), y.as_str())
        } else {
            str_eq(x.as_str(), y.as_str())
        },
        (None, None) => true,
        _ => false,
    }
}

/// Compares source fields with those decoded from read-back output, field
/// by field, and lists which fields disagree.
pub open spec fn compare_fields_spec(src: Fields, dst: Fields) -> (bool, Seq<u16>) {
    compare_with_entries(src, dst.entries_view())
}

/// `compare_fields_spec` against decoded fields given as entries.
pub open spec fn compare_with_entries(src: Fields, dst: Seq<(Seq<char>, Seq<char>)>) -> (bool, Seq<u16>) {
    let fc = same_or_both_absent(src.get_spec("facility_code"@), lookup(dst, "facility_code"@), false);
    let cn = same_or_both_absent(src.get_spec("card_number"@), lookup(dst, "card_number"@), false);
    let raw = raw_agrees(src.get_spec("raw"@), lookup(dst, "raw"@));
    let id = same_or_both_absent(src.get_spec("id"@), lookup(dst, "id"@), true);
    if fc && cn && raw && id {
        (true, Seq::empty())
    } else {
        (false, mismatch_list(fc, cn, raw, id))
    }
}

/// The field comparison of `verify_match_detailed`, on decoded fields.
pub fn compare_fields(src: &Fields, dst: &Fields) -> (r: (bool, Vec<u16>))
    ensures
        (r.0, r.1@) == compare_fields_spec(*src, *dst),
{
    let fc = field_match(src.get("facility_code"), dst.get("facility_code"), false);
    let cn = field_match(src.get("card_number"), dst.get("card_number"), false);
    let raw = match (src.get("raw"), dst.get("raw")) {
        (Some(x), Some(y)) => eq_ignore_case(x.as_str(), y.as_str()),
        _ => true,
    };
    let id = field_match(src.get("id"), dst.get("id"), true);
    if fc && cn && raw && id {
        return (true, Vec::new());
    }
    let mut m: Vec<u16> = Vec::new();
    if !fc {
        m.push(1);
    }
    if !cn {
        m.push(2);
    }
    if !raw {
        m.push(0);
    }
    if !id {
        m.push(3);
    }
    proof {
        let a = if fc { Seq::<u16>::empty() } else { seq![1u16] };
        assert(a.len() == 0 || a =~= seq![1u16]);
    }
    assert(m@ =~= mismatch_list(fc, cn, raw, id));
    (false, m)
}

/// Verifies a clone by decoding its read-back output and comparing the
/// protocol and the decoded fields with the source's.
pub fn verify_match_detailed(
    source_type: &CardType,
    source_decoded: &Fields,
    clone_output: &str,
) -> (r: (bool, Vec<u16>))
    ensures
        r.0 ==> r.1@.len() == 0,
        match lf_card_spec(strip_spec(clone_output@)) {
            Some(x) => if x.ct == *source_type {
                (r.0, r.1@) == compare_with_entries(*source_decoded, x.fields)
            } else {
                !r.0 && r.1@ == seq![0u16]
            },
            None => !r.0 && r.1@ == seq![0u16],
        },
{
    match parse_lf_search(clone_output) {
        Some((detected_type, clone_data)) => {
            if *source_type != detected_type {
                return (false, vec![0u16]);
            }
            compare_fields(source_decoded, &clone_data.decoded)
        },
        None => (false, vec![0u16]),
    }
}

} // verus!
