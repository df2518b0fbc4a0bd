//! Blank detection decisions: from the output of the probe commands to the
//! workflow action that records a ready blank or an error.

use vstd::prelude::*;

use crate::ansi::{strip_ansi, strip_spec};
use crate::command_builder::{build_mf_cgetblk, build_mf_rdbl};
use crate::flows::ErrorReport;
use crate::output_parser::{is_iclass_present, is_magic_ultralight};
use crate::state::WizardAction;
use crate::text::{lower_of,
    append_str, chars_of, contains, hex_value, is_hex_str, is_ws, lines_of, lines_spec, parse_hex_u32, seq_contains, string_of, to_lower, trim, trim_spec, views,
};
use crate::types::{AppError, BlankType, MagicGeneration, RecoveryAction, T5577Status};

verus! {

/// The magic generation a magic MIFARE blank family stands for.
pub open spec fn expected_generation_spec(b: BlankType) -> Option<MagicGeneration> {
    match b {
        BlankType::MagicMifareGen1a => Some(MagicGeneration::Gen1a),
        BlankType::MagicMifareGen2 => Some(MagicGeneration::Gen2),
        BlankType::MagicMifareGen3 => Some(MagicGeneration::Gen3),
        BlankType::MagicMifareGen4GTU => Some(MagicGeneration::Gen4GTU),
        BlankType::MagicMifareGen4GDM => Some(MagicGeneration::Gen4GDM),
        _ => None,
    }
}

pub open spec fn generation_blank_spec(g: MagicGeneration) -> BlankType {
    match g {
        MagicGeneration::Gen1a => BlankType::MagicMifareGen1a,
        MagicGeneration::Gen2 => BlankType::MagicMifareGen2,
        MagicGeneration::Gen3 => BlankType::MagicMifareGen3,
        MagicGeneration::Gen4GTU => BlankType::MagicMifareGen4GTU,
        MagicGeneration::Gen4GDM => BlankType::MagicMifareGen4GDM,
    }
}

pub fn expected_generation(blank: &BlankType) -> (r: Option<MagicGeneration>)
    ensures
        r == expected_generation_spec(*blank),
{
    match blank {
        BlankType::MagicMifareGen1a => Some(MagicGeneration::Gen1a),
        BlankType::MagicMifareGen2 => Some(MagicGeneration::Gen2),
        BlankType::MagicMifareGen3 => Some(MagicGeneration::Gen3),
        BlankType::MagicMifareGen4GTU => Some(MagicGeneration::Gen4GTU),
        BlankType::MagicMifareGen4GDM => Some(MagicGeneration::Gen4GDM),
        _ => None,
    }
}

pub fn generation_to_blank(generation: &MagicGeneration) -> (r: BlankType)
    ensures
        r == generation_blank_spec(*generation),
{
    match generation {
        MagicGeneration::Gen1a => BlankType::MagicMifareGen1a,
        MagicGeneration::Gen2 => BlankType::MagicMifareGen2,
        MagicGeneration::Gen3 => BlankType::MagicMifareGen3,
        MagicGeneration::Gen4GTU => BlankType::MagicMifareGen4GTU,
        MagicGeneration::Gen4GDM => BlankType::MagicMifareGen4GDM,
    }
}

/// The variant name of a blank family, as diagnostics print it.
pub open spec fn blank_variant_spec(b: BlankType) -> Seq<char> {
    match b {
        BlankType::T5577 => "T5577"@,
        BlankType::EM4305 => "EM4305"@,
        BlankType::MagicMifareGen1a => "MagicMifareGen1a"@,
        BlankType::MagicMifareGen2 => "MagicMifareGen2"@,
        BlankType::MagicMifareGen3 => "MagicMifareGen3"@,
        BlankType::MagicMifareGen4GTU => "MagicMifareGen4GTU"@,
        BlankType::MagicMifareGen4GDM => "MagicMifareGen4GDM"@,
        BlankType::MagicUltralight => "MagicUltralight"@,
        BlankType::IClassBlank => "IClassBlank"@,
    }
}

pub fn blank_variant_name(b: &BlankType) -> (r: &'static str)
    ensures
        r@ == blank_variant_spec(*b),
{
    match b {
        BlankType::T5577 => "T5577",
        BlankType::EM4305 => "EM4305",
        BlankType::MagicMifareGen1a => "MagicMifareGen1a",
        BlankType::MagicMifareGen2 => "MagicMifareGen2",
        BlankType::MagicMifareGen3 => "MagicMifareGen3",
        BlankType::MagicMifareGen4GTU => "MagicMifareGen4GTU",
        BlankType::MagicMifareGen4GDM => "MagicMifareGen4GDM",
        BlankType::MagicUltralight => "MagicUltralight",
        BlankType::IClassBlank => "IClassBlank",
    }
}

fn retry(message: &str, user_message: &str) -> (r: WizardAction)
    ensures
        r is ReportError && r->ReportError_recoverable && r->ReportError_recovery_action == Some(
            RecoveryAction::Retry,
        ),
{
    ErrorReport {
        message: String::from_str(message),
        user_message: String::from_str(user_message),
        recoverable: true,
        recovery_action: Some(RecoveryAction::Retry),
    }.into_action()
}

/// The outcome of probing for a T5577: a ready blank, with what `lf search`
/// found on it, or a recoverable error asking for a retry.
pub fn t5577_blank_action(status: &T5577Status, existing_data_type: Option<String>) -> (r: WizardAction)
    ensures
        status.detected ==> r == (WizardAction::BlankReady {
            blank_type: BlankType::T5577,
            existing_data_type,
        }),
        !status.detected ==> r is ReportError && r->ReportError_recoverable,
{
    if status.detected {
        WizardAction::BlankReady { blank_type: BlankType::T5577, existing_data_type }
    } else {
        retry(
            "T5577 blank not detected",
            "No T5577 blank found. Place blank card on the reader and try again.",
        )
    }
}

/// Whether `lf em 4x05 info` output shows an EM4305-family chip, matched
/// case-insensitively, or at least a chip line with a UID.
pub fn em4305_blank_present(output: &str) -> (r: bool)
    ensures
        r == (seq_contains(lower_of(output@), "em4x05"@) || seq_contains(lower_of(output@), "em4x69"@)
            || seq_contains(lower_of(output@), "em4305"@) || seq_contains(lower_of(output@), "em4469"@)
            || (seq_contains(lower_of(output@), "chip"@) && seq_contains(lower_of(output@), "uid"@))),
{
    let low = to_lower(output);
    let v = chars_of(low.as_str());
    contains(&v, "em4x05") || contains(&v, "em4x69") || contains(&v, "em4305") || contains(
        &v,
        "em4469",
    ) || (contains(&v, "chip") && contains(&v, "uid"))
}

/// The outcome of probing for an EM4305.
pub fn em4305_blank_action(detected: bool, existing_data_type: Option<String>) -> (r: WizardAction)
    ensures
        detected ==> r == (WizardAction::BlankReady {
            blank_type: BlankType::EM4305,
            existing_data_type,
        }),
        !detected ==> r is ReportError && r->ReportError_recoverable,
{
    if detected {
        WizardAction::BlankReady { blank_type: BlankType::EM4305, existing_data_type }
    } else {
        retry(
            "EM4305 blank not detected",
            "No EM4305 blank found. Place blank card on the reader and try again.",
        )
    }
}

/// The block read that shows whether a magic MIFARE blank already holds
/// data: the backdoor read for generations that have one, else a read of
/// block 4 with the default key.
pub fn mifare_data_command(generation: &MagicGeneration) -> (r: String)
    ensures
        (*generation is Gen1a || *generation is Gen4GDM) ==> r@ == crate::command_builder::mf_cgetblk_cmd(4),
        !(*generation is Gen1a || *generation is Gen4GDM) ==> r@ == crate::command_builder::mf_rdbl_cmd(4, "FFFFFFFFFFFF"@),
{
    match generation {
        MagicGeneration::Gen1a | MagicGeneration::Gen4GDM => build_mf_cgetblk(4),
        _ => build_mf_rdbl(4, "FFFFFFFFFFFF"),
    }
}

/// A one- or two-digit hex token read as a byte.
pub open spec fn byte_of(tok: Seq<char>) -> Option<nat> {
    if 1 <= tok.len() <= 2 && is_hex_str(tok) && hex_value(tok) <= 0xff {
        Some(hex_value(tok))
    } else {
        None
    }
}

/// The running count (capped at 16) of byte tokens and whether one was
/// non-zero, after taking in token `tok`.
pub open spec fn take_token(tok: Seq<char>, count: nat, nz: bool) -> (nat, bool) {
    match byte_of(tok) {
        Some(b) => (if count < 16 { count + 1 } else { count }, nz || b != 0),
        None => (count, nz),
    }
}

/// The byte tokens of `t` from position `i` on, `tok` being the token read
/// so far.
pub open spec fn row_from(t: Seq<char>, i: int, tok: Seq<char>, count: nat, nz: bool) -> (nat, bool)
    decreases t.len() - i,
{
    if i < 0 || i >= t.len() {
        take_token(tok, count, nz)
    } else if is_ws(t[i]) {
        row_from(t, i + 1, Seq::empty(), take_token(tok, count, nz).0, take_token(tok, count, nz).1)
    } else {
        row_from(t, i + 1, tok.push(t[i]), count, nz)
    }
}

/// Index of the first `|` at or after `i`, or the length.
pub open spec fn first_bar(t: Seq<char>, i: int) -> int
    decreases t.len() - i,
{
    if i < 0 || i >= t.len() {
        t.len() as int
    } else if t[i] == '|' {
        i
    } else {
        first_bar(t, i + 1)
    }
}

/// A trimmed line is a data row: no error marker, a `|`, and after it at
/// least sixteen byte tokens, one of them non-zero.
pub open spec fn row_has_data(t: Seq<char>) -> bool {
    !seq_contains(t, "[!!]"@) && !seq_contains(t, "[-]"@) && first_bar(t, 0) < t.len() && ({
        let (c, nz) = row_from(t, first_bar(t, 0) + 1, Seq::empty(), 0, false);
        c >= 16 && nz
    })
}

fn hex_byte(tok: &Vec<char>) -> (r: Option<u8>)
    ensures
        match r {
            Some(b) => byte_of(tok@) == Some(b as nat),
            None => byte_of(tok@) is None,
        },
{
    if tok.len() == 0 || tok.len() > 2 {
        return None;
    }
    let s = string_of(tok);
    match parse_hex_u32(s.as_str()) {
        Some(n) => if n <= 0xff {
            Some(n as u8)
        } else {
            None
        },
        None => None,
    }
}

/// Whether a block dump shows data: some line, trimmed, is a data row.
pub fn has_nonzero_block_data(output: &str) -> (r: bool)
    ensures
        r == exists|k: int|
            0 <= k < lines_spec(output@).len() && #[trigger] row_has_data(
                trim_spec(lines_spec(output@)[k]),
            ),
{
    let lines = lines_of(output);
    let ghost ls = lines_spec(output@);
    let mut li: usize = 0;
    while li < lines.len()
        invariant
            li <= lines.len(),
            views(lines@) == ls,
            ls == lines_spec(output@),
            forall|k: int| 0 <= k < li ==> !#[trigger] row_has_data(trim_spec(ls[k])),
        decreases lines.len() - li,
    {
        let t = trim(lines[li].as_str());
        let v = chars_of(t.as_str());
        assert(ls[li as int] == lines@[li as int]@);
        let ghost tv = v@;
        if contains(&v, "[!!]") || contains(&v, "[-]") {
            li = li + 1;
            continue;
        }
        let mut bar: usize = 0;
        while bar < v.len() && v[bar] != '|'
            invariant
                bar <= v.len(),
                first_bar(v@, 0) == first_bar(v@, bar as int),
            decreases v.len() - bar,
        {
            bar = bar + 1;
        }
        if bar >= v.len() {
            li = li + 1;
            continue;
        }
        let mut count: usize = 0;
        let mut nonzero = false;
        let mut i: usize = bar + 1;
        let mut tok: Vec<char> = Vec::new();
        while i < v.len()
            invariant
                bar < i <= v.len(),
                first_bar(v@, 0) == bar,
                count <= 16,
                row_from(v@, bar + 1, Seq::empty(), 0, false) == row_from(
                    v@,
                    i as int,
                    tok@,
                    count as nat,
                    nonzero,
                ),
            decreases v.len() - i,
        {
            if crate::text::is_ws_char(v[i]) {
                if let Some(b) = hex_byte(&tok) {
                    if count < 16 {
                        count = count + 1;
                    }
                    if b != 0 {
                        nonzero = true;
                    }
                }
                tok = Vec::new();
            } else {
                tok.push(v[i]);
            }
            i = i + 1;
        }
        if let Some(b) = hex_byte(&tok) {
            if count < 16 {
                count = count + 1;
            }
            if b != 0 {
                nonzero = true;
            }
        }
        if count >= 16 && nonzero {
            assert(row_has_data(trim_spec(ls[(li) as int])));
            return true;
        }
        li = li + 1;
    }
    false
}

/// What the data check of a magic MIFARE blank reports: a note when the
/// blank holds data (or, for generations without a backdoor read, when the
/// default key was refused), `None` for an empty blank.
pub fn mifare_data_outcome(generation: &MagicGeneration, result: Result<String, AppError>) -> (r: Option<String>)
    ensures
        match result {
            Ok(out) => if exists|k: int|
                0 <= k < lines_spec(strip_spec(out@)).len() && #[trigger] row_has_data(
                    trim_spec(lines_spec(strip_spec(out@))[k]),
                ) {
                r is Some && r->0@ == "MIFARE Classic"@
            } else {
                r is None
            },
            Err(_) => if *generation is Gen1a || *generation is Gen4GDM {
                r is None
            } else {
                r is Some && r->0@ == "MIFARE Classic (modified keys)"@
            },
        },
{
    match result {
        Ok(output) => {
            let clean = strip_ansi(output.as_str());
            if has_nonzero_block_data(clean.as_str()) {
                Some(String::from_str("MIFARE Classic"))
            } else {
                None
            }
        },
        Err(_) => match generation {
            MagicGeneration::Gen1a | MagicGeneration::Gen4GDM => None,
            _ => Some(String::from_str("MIFARE Classic (modified keys)")),
        },
    }
}

/// The outcome of probing a magic MIFARE blank. A generation other than the
/// expected one is accepted as detected, and the note says so; no magic
/// generation at all keeps the expected family with a warning note.
pub fn magic_blank_action(
    card_present: bool,
    expected_blank: BlankType,
    detected: Option<MagicGeneration>,
    existing_data: Option<String>,
) -> (r: WizardAction)
    ensures
        !card_present ==> r is ReportError && r->ReportError_recoverable,
        card_present && detected is Some ==> r is BlankReady && r->BlankReady_blank_type
            == generation_blank_spec(detected->0),
        card_present && detected is None ==> r is BlankReady && r->BlankReady_blank_type
            == expected_blank,
{
    if !card_present {
        return retry(
            "No HF card detected",
            "No card found. Place the magic blank on the reader and try again.",
        );
    }
    match detected {
        Some(g) => {
            let expected = expected_generation(&expected_blank);
            if expected == Some(g) {
                WizardAction::BlankReady { blank_type: expected_blank, existing_data_type: existing_data }
            } else {
                let actual = generation_to_blank(&g);
                let has_data = existing_data.is_some();
                let mut note = match existing_data {
                    Some(m) => {
                        let mut s = m;
                        append_str(&mut s, " (detected ");
                        s
                    },
                    None => String::from_str("Detected: "),
                };
                append_str(&mut note, blank_variant_name(&actual));
                if has_data {
                    append_str(&mut note, ", expected ");
                } else {
                    append_str(&mut note, " (expected ");
                }
                append_str(&mut note, blank_variant_name(&expected_blank));
                append_str(&mut note, ")");
                WizardAction::BlankReady { blank_type: actual, existing_data_type: Some(note) }
            }
        },
        None => WizardAction::BlankReady {
            blank_type: expected_blank,
            existing_data_type: Some(String::from_str("No magic detected — card may be genuine")),
        },
    }
}

/// `hf mfu info` output shows an Ultralight or NTAG card.
pub open spec fn ul_card_seen(out: Seq<char>) -> bool {
    let low = lower_of(strip_spec(out));
    seq_contains(low, "uid"@) || seq_contains(low, "ultralight"@) || seq_contains(low, "ntag"@)
}

/// `hf mfu info` output shows a magic (rewritable) card.
pub open spec fn ul_magic_seen(out: Seq<char>) -> bool {
    let low = lower_of(strip_spec(out));
    seq_contains(low, "magic"@) || seq_contains(low, "gen1a"@) || seq_contains(low, "directwrite"@)
}

/// The outcome of probing a magic Ultralight / NTAG blank with `hf mfu info`.
pub fn ultralight_blank_action(result: Result<String, AppError>) -> (r: WizardAction)
    ensures
        match result {
            Ok(out) => if ul_card_seen(out@) {
                r is BlankReady && r->BlankReady_blank_type == BlankType::MagicUltralight && (if ul_magic_seen(
                    out@,
                ) {
                    r->BlankReady_existing_data_type is None
                } else {
                    r->BlankReady_existing_data_type is Some
                        && r->BlankReady_existing_data_type->0@
                        == "No magic markers detected — card may be genuine"@
                })
            } else {
                r is ReportError && r->ReportError_recoverable
            },
            Err(_) => r is ReportError && r->ReportError_recoverable,
        },
{
    match result {
        Ok(output) => {
            let clean = strip_ansi(output.as_str());
            let low = to_lower(clean.as_str());
            let v = chars_of(low.as_str());
            if contains(&v, "uid") || contains(&v, "ultralight") || contains(&v, "ntag") {
                let existing_data_type = if is_magic_ultralight(output.as_str()) {
                    None
                } else {
                    Some(String::from_str("No magic markers detected — card may be genuine"))
                };
                WizardAction::BlankReady { blank_type: BlankType::MagicUltralight, existing_data_type }
            } else {
                retry(
                    "No Ultralight/NTAG card detected",
                    "No Ultralight/NTAG card found. Place blank on the reader and try again.",
                )
            }
        },
        Err(_) => retry(
            "HF command failed",
            "No Ultralight/NTAG card found. Place blank on the reader and try again.",
        ),
    }
}

/// The outcome of probing an iCLASS blank with `hf iclass info`.
pub fn iclass_blank_action(result: Result<String, AppError>) -> (r: WizardAction)
    ensures
        match result {
            Ok(out) => if seq_contains(lower_of(strip_spec(out@)), "iclass"@) || seq_contains(
                lower_of(strip_spec(out@)),
                "picopass"@,
            ) {
                r == (WizardAction::BlankReady {
                    blank_type: BlankType::IClassBlank,
                    existing_data_type: None,
                })
            } else {
                r is ReportError && r->ReportError_recoverable
            },
            Err(_) => r is ReportError && r->ReportError_recoverable,
        },
{
    let detected = match &result {
        Ok(output) => is_iclass_present(output.as_str()),
        Err(_) => false,
    };
    if detected {
        WizardAction::BlankReady { blank_type: BlankType::IClassBlank, existing_data_type: None }
    } else {
        retry(
            "No iCLASS card detected",
            "No iCLASS card found. Place blank on the reader and try again.",
        )
    }
}

} // verus!
