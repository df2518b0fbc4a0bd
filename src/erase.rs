//! Chip probing and wiping outside the clone workflow.

use vstd::prelude::*;

use crate::text::{
    append_str, cat, chars_of, contains, lines_of, lines_spec, lower_of, seq_contains, str_eq,
    to_lower, trim, trim_spec, views,
};
use crate::types::{AppError, DetectChipResult, T5577Status, WipeResult};

verus! {

/// The chip that the probes found: a T5577 (with its password state) if
/// `lf t55xx detect` saw one, else an EM4305 if `lf em 4x05 info` did.
pub fn detected_chip(t5577: &T5577Status, em4305_present: bool) -> (r: Result<DetectChipResult, AppError>)
    ensures
        t5577.detected ==> r is Ok && r->Ok_0.chip_type@ == "T5577"@
            && r->Ok_0.password_protected == t5577.password_set,
        !t5577.detected && em4305_present ==> r is Ok && r->Ok_0.chip_type@ == "EM4305"@
            && !r->Ok_0.password_protected,
        !t5577.detected && !em4305_present ==> r is Err,
{
    if t5577.detected {
        let details = if t5577.password_set {
            String::from_str("T5577 chip detected (password protected)")
        } else {
            String::from_str("T5577 chip detected")
        };
        return Ok(DetectChipResult {
            chip_type: String::from_str("T5577"),
            password_protected: t5577.password_set,
            details,
        });
    }
    if em4305_present {
        return Ok(DetectChipResult {
            chip_type: String::from_str("EM4305"),
            password_protected: false,
            details: String::from_str("EM4305 chip detected"),
        });
    }
    Err(AppError::CommandFailed(String::from_str(
        "No erasable chip detected. Place a T5577 or EM4305 card on the reader.",
    )))
}

/// A line that reports a failure: the error marker, or "error" in any case.
pub open spec fn is_error_line(l: Seq<char>) -> bool {
    seq_contains(l, "[!!]"@) || seq_contains(lower_of(l), "error"@)
}

/// The first of `ls[i..]` that reports a failure.
pub open spec fn first_error_line(ls: Seq<Seq<char>>, i: int) -> Option<Seq<char>>
    decreases ls.len() - i,
{
    if i < 0 || i >= ls.len() {
        None
    } else if is_error_line(ls[i]) {
        Some(ls[i])
    } else {
        first_error_line(ls, i + 1)
    }
}

/// How the wipe of a chip went, from the wipe command's output: a failure
/// quotes the first line that reports it, trimmed.
pub fn wipe_outcome(chip_type: &str, output: &str) -> (r: WipeResult)
    ensures
        r.success == !is_error_line(output@),
        r.success ==> r.message@ == chip_type@ + " erased successfully"@,
        !r.success ==> r.message@ == "Wipe may have failed: "@ + trim_spec(
            match first_error_line(lines_spec(output@), 0) {
                Some(l) => l,
                None => "unknown error"@,
            },
        ),
{
    let v = chars_of(output);
    let low = to_lower(output);
    let lv = chars_of(low.as_str());
    if contains(&v, "[!!]") || contains(&lv, "error") {
        let lines = lines_of(output);
        let ghost ls = lines_spec(output@);
        let mut detail = String::from_str("unknown error");
        let mut i: usize = 0;
        while i < lines.len()
            invariant
                i <= lines.len(),
                views(lines@) == ls,
                ls == lines_spec(output@),
                first_error_line(ls, 0) == first_error_line(ls, i as int),
                detail@ == "unknown error"@,
                is_error_line(output@),
            decreases lines.len() - i,
        {
            assert(ls[i as int] == lines@[i as int]@);
            let l = lines[i].as_str();
            let lc = chars_of(l);
            let ll = to_lower(l);
            let llc = chars_of(ll.as_str());
            if contains(&lc, "[!!]") || contains(&llc, "error") {
                assert(is_error_line(ls[i as int]));
                assert(first_error_line(ls, i as int) == Some(ls[i as int]));
                let t = trim(l);
                return WipeResult { success: false, message: cat("Wipe may have failed: ", t.as_str()) };
            }
            i = i + 1;
        }
        assert(views(lines@).len() == lines@.len());
        let t = trim(detail.as_str());
        return WipeResult { success: false, message: cat("Wipe may have failed: ", t.as_str()) };
    }
    let mut m = String::from_str(chip_type);
    append_str(&mut m, " erased successfully");
    WipeResult { success: true, message: m }
}

/// The port of a chip operation: not empty and at most 32 bytes.
pub fn check_chip_port(port: &str) -> (r: Result<(), AppError>)
    ensures
        r is Ok <==> (!port.is_empty() && port.len() <= 32),
{
    if port.is_empty() || port.len() > 32 {
        return Err(AppError::CommandFailed(String::from_str("Invalid port")));
    }
    Ok(())
}

/// How a chip of the named type is wiped: whether a T5577 must first be
/// seen again, and the wipe command.
pub fn chip_wipe_plan(chip_type: &str) -> (r: Result<(bool, &'static str), AppError>)
    ensures
        chip_type@ == "T5577"@ ==> r is Ok && r.unwrap().0 && r.unwrap().1@ == "lf t55xx wipe"@,
        chip_type@ == "EM4305"@ ==> r is Ok && !r.unwrap().0 && r.unwrap().1@ == "lf em 4x05 wipe"@,
        !(chip_type@ == "T5577"@ || chip_type@ == "EM4305"@) ==> r is Err,
{
    proof {
        reveal_strlit("T5577");
        reveal_strlit("EM4305");
        assert("T5577"@[0] != "EM4305"@[0]);
    }
    if str_eq(chip_type, "T5577") {
        Ok((true, crate::command_builder::build_t5577_wipe()))
    } else if str_eq(chip_type, "EM4305") {
        Ok((false, crate::command_builder::build_em4305_wipe()))
    } else {
        Err(AppError::CommandFailed(cat("Unsupported chip type for wipe: ", chip_type)))
    }
}

/// The outcome when the T5577 is no longer seen before its wipe.
pub fn t5577_gone() -> (r: WipeResult)
    ensures
        !r.success,
{
    WipeResult {
        success: false,
        message: String::from_str("T5577 no longer detected. Do not remove card during erase."),
    }
}

} // verus!
