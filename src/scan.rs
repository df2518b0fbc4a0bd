//! Card scan decisions: LF first, then HF; extra HF details from the info
//! commands; the workflow action that records the outcome.

use vstd::prelude::*;

use crate::ansi::{strip_ansi, strip_spec};
use crate::flows::ErrorReport;
use crate::output_parser::{HF_MAGIC_RE, HF_MFU_TYPE_RE, HF_NTAG_TYPE_RE, HF_PRNG_RE};
use crate::pattern::{group, group_spec};
use crate::state::WizardAction;
use crate::text::{cat, to_upper, upper_of};
use crate::types::{
    cloneable_spec, frequency_spec, recommended_blank_spec, AppError, CardData, CardType,
    RecoveryAction,
};
use crate::runner::error_text;

verus! {

/// The workflow action for an identified card, with the protocol's band,
/// cloneability and recommended blank.
pub fn card_found_action(card_type: CardType, card_data: CardData) -> (r: WizardAction)
    ensures
        r == (WizardAction::CardFound {
            frequency: frequency_spec(card_type),
            card_type,
            card_data,
            cloneable: cloneable_spec(card_type),
            recommended_blank: recommended_blank_spec(card_type),
        }),
{
    let frequency = card_type.frequency();
    let cloneable = card_type.is_cloneable();
    let recommended_blank = card_type.recommended_blank();
    WizardAction::CardFound { frequency, card_type, card_data, cloneable, recommended_blank }
}

/// The error when neither search identified a card. When both searches
/// failed to run, the LF error is reported and the user is sent to check the
/// connection; otherwise the user is asked to place the card and retry.
pub fn scan_failure_action(lf_error: Option<AppError>, hf_ran: bool) -> (r: WizardAction)
    ensures
        r is ReportError && r->ReportError_recoverable,
        (!hf_ran && lf_error is Some) ==> r->ReportError_recovery_action == Some(
            RecoveryAction::Reconnect,
        ),
        (hf_ran || lf_error is None) ==> r->ReportError_recovery_action == Some(
            RecoveryAction::Retry,
        ),
{
    match lf_error {
        Some(e) if !hf_ran => ErrorReport {
            message: error_text(&e),
            user_message: String::from_str("Scan failed. Check device connection."),
            recoverable: true,
            recovery_action: Some(RecoveryAction::Reconnect),
        }.into_action(),
        _ => ErrorReport {
            message: String::from_str("No card detected"),
            user_message: String::from_str(
                "No card found. Place the card on the reader and try again.",
            ),
            recoverable: true,
            recovery_action: Some(RecoveryAction::Retry),
        }.into_action(),
    }
}

/// Whether the Classic details still need `hf 14a info` (for the PRNG) and
/// `hf mf info` (for magic capabilities).
pub fn classic_details_missing(card_data: &CardData) -> (r: (bool, bool))
    ensures
        r.0 == card_data.decoded.get_spec("prng"@) is None,
        r.1 == card_data.decoded.get_spec("magic"@) is None,
{
    (card_data.decoded.get("prng").is_none(), card_data.decoded.get("magic").is_none())
}

/// Adds the PRNG strength that `hf 14a info` reports, upper-cased.
pub fn enrich_prng(card_data: &mut CardData, info_output: &str)
    ensures
        match group_spec(HF_PRNG_RE@, strip_spec(info_output@), 1) {
            Some(g) => final(card_data).decoded.get_spec("prng"@) == Some(upper_of(g)) && forall|
                k: Seq<char>,
            | k != "prng"@ ==> #[trigger] final(card_data).decoded.get_spec(k) == old(
                card_data,
            ).decoded.get_spec(k),
            None => *final(card_data) == *old(card_data),
        },
{
    let clean = strip_ansi(info_output);
    if let Some(p) = group(HF_PRNG_RE, clean.as_str(), 1) {
        card_data.decoded.insert(String::from_str("prng"), to_upper(p.as_str()));
    }
}

/// Adds the magic capability that `hf mf info` reports.
pub fn enrich_magic(card_data: &mut CardData, mf_output: &str)
    ensures
        match group_spec(HF_MAGIC_RE@, strip_spec(mf_output@), 1) {
            Some(g) => final(card_data).decoded.get_spec("magic"@) == Some(g) && forall|
                k: Seq<char>,
            | k != "magic"@ ==> #[trigger] final(card_data).decoded.get_spec(k) == old(
                card_data,
            ).decoded.get_spec(k),
            None => *final(card_data) == *old(card_data),
        },
{
    let clean = strip_ansi(mf_output);
    if let Some(m) = group(HF_MAGIC_RE, clean.as_str(), 1) {
        card_data.decoded.insert(String::from_str("magic"), m);
    }
}

/// Adds the NTAG model and Ultralight variant that `hf mfu info` reports.
pub fn enrich_ultralight(card_data: &mut CardData, mfu_output: &str)
    ensures
        match group_spec(HF_NTAG_TYPE_RE@, strip_spec(mfu_output@), 1) {
            Some(n) => final(card_data).decoded.get_spec("ntag_type"@) == Some("NTAG"@ + n),
            None => final(card_data).decoded.get_spec("ntag_type"@) == old(
                card_data,
            ).decoded.get_spec("ntag_type"@),
        },
        match group_spec(HF_MFU_TYPE_RE@, strip_spec(mfu_output@), 1) {
            Some(v) => final(card_data).decoded.get_spec("ul_type"@) == Some("Ultralight "@ + v),
            None => final(card_data).decoded.get_spec("ul_type"@) == old(
                card_data,
            ).decoded.get_spec("ul_type"@),
        },
{
    let clean = strip_ansi(mfu_output);
    proof {
        reveal_strlit("ntag_type");
        reveal_strlit("ul_type");
        assert("ntag_type"@[0] != "ul_type"@[0]);
    }
    if let Some(n) = group(HF_NTAG_TYPE_RE, clean.as_str(), 1) {
        card_data.decoded.insert(String::from_str("ntag_type"), cat("NTAG", n.as_str()));
    }
    if let Some(v) = group(HF_MFU_TYPE_RE, clean.as_str(), 1) {
        card_data.decoded.insert(String::from_str("ul_type"), cat("Ultralight ", v.as_str()));
    }
}

} // verus!
