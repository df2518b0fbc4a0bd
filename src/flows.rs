//! The decisions of the LF write workflows, as step functions: given the
//! phase reached and the result of the last tool command, each returns the
//! next phase and what to do next. The caller runs the commands, feeds back
//! their results, and turns reports into workflow transitions.

use vstd::prelude::*;

use crate::ansi::strip_spec;
use crate::command_builder::{
    build_clone_command, build_clone_for_em4305, build_em4305_info, build_em4305_read_word,
    build_em4305_wipe, build_t5577_chk, build_t5577_detect, build_wipe_command,
    clone_command_spec, em4305_read_word_cmd, valid_password,
};
use crate::fields::Fields;
use crate::output_parser::{
    parse_em4305_info, parse_em4305_word0, parse_t5577_chk, parse_t5577_detect,
    T5577_PASSWORD_FOUND_RE,
};
use crate::pattern::group_spec;
use crate::output_parser::{EM4305_WORD_RE, T5577_PASSWORD_RE};
use crate::text::{lower, lower_of, seq_contains, upper_of};
use crate::state::WizardAction;
use crate::text::{append_str, cat, chars_of, contains, is_alnum_colon, string_of, to_lower};
use crate::types::{AppError, BlankType, CardType, RecoveryAction};

verus! {

/// An error to be shown to the user through the workflow's error state.
pub struct ErrorReport {
    pub message: String,
    pub user_message: String,
    pub recoverable: bool,
    pub recovery_action: Option<RecoveryAction>,
}

impl ErrorReport {
    /// The workflow action that records this report.
    pub fn into_action(self) -> (r: WizardAction)
        ensures
            r == (WizardAction::ReportError {
                message: self.message,
                user_message: self.user_message,
                recoverable: self.recoverable,
                recovery_action: self.recovery_action,
            }),
    {
        WizardAction::ReportError {
            message: self.message,
            user_message: self.user_message,
            recoverable: self.recoverable,
            recovery_action: self.recovery_action,
        }
    }
}

fn retry_report(message: String, user_message: &str) -> (r: ErrorReport)
    ensures
        r.recoverable,
        r.recovery_action == Some(RecoveryAction::Retry),
        r.message == message,
        r.user_message@ == user_message@,
{
    ErrorReport {
        message,
        user_message: String::from_str(user_message),
        recoverable: true,
        recovery_action: Some(RecoveryAction::Retry),
    }
}

/// Where a write workflow stands.
#[derive(Clone, Copy, Debug, PartialEq, Eq, Structural)]
pub enum WritePhase {
    Start,
    AwaitDetect,
    AwaitPasswordCheck,
    AwaitWipe,
    AwaitWipeCheck,
    AwaitClone,
    Done,
}

/// What the caller does next.
pub enum WriteAction {
    /// Record progress (`progress_permille` thousandths, step `step` of
    /// `total_steps`), then run `command` and feed back its result.
    Run { command: String, progress_permille: u16, step: u16, total_steps: u16 },
    /// Record the report as the workflow's error; the write is over.
    Report(ErrorReport),
    /// Report this error to the caller; the write is over.
    Fail(AppError),
    /// Record full progress and finish the write.
    Finish { step: u16, total_steps: u16 },
}

/// Steps of the T5577 flow: detect, check password, wipe, verify wipe,
/// clone, done.
pub const T5577_TOTAL_STEPS: u16 = 6;

/// Steps of the EM4305 flow: detect, wipe, verify wipe, clone, done.
pub const EM4305_TOTAL_STEPS: u16 = 5;

/// The card to be written.
pub struct LfWriteJob {
    pub card_type: CardType,
    pub uid: String,
    pub decoded: Fields,
}

/// Whether a clone's output shows a failure: an error marker, or "fail" in
/// any case.
pub open spec fn clone_output_failed(out: Seq<char>) -> bool {
    crate::text::seq_contains(out, "[!!]"@) || crate::text::seq_contains(
        crate::text::lower_of(out),
        "fail"@,
    )
}

fn output_failed(out: &str) -> (r: bool)
    ensures
        r == clone_output_failed(out@),
{
    let v = chars_of(out);
    if contains(&v, "[!!]") {
        return true;
    }
    let low = to_lower(out);
    let lv = chars_of(low.as_str());
    contains(&lv, "fail")
}

/// At most the first 200 characters of `s`.
fn head200(s: &str) -> (r: String)
    ensures
        r@ == s@.take(if s@.len() < 200 { s@.len() as int } else { 200 }),
{
    let v = chars_of(s);
    let n: usize = if v.len() < 200 { v.len() } else { 200 };
    let mut out: Vec<char> = Vec::new();
    let mut i: usize = 0;
    while i < n
        invariant
            i <= n,
            n <= v.len(),
            out@ == v@.take(i as int),
        decreases n - i,
    {
        out.push(v[i]);
        assert(v@.take(i + 1) =~= v@.take(i as int).push(v@[i as int]));
        i = i + 1;
    }
    string_of(&out)
}

fn run(command: String, progress_permille: u16, step: u16, total_steps: u16) -> (r: WriteAction)
    ensures
        r == (WriteAction::Run { command, progress_permille, step, total_steps }),
{
    WriteAction::Run { command, progress_permille, step, total_steps }
}

/// `lf t55xx detect` output shows a T5577.
pub open spec fn t5577_seen(out: Seq<char>) -> bool {
    let c = strip_spec(out);
    seq_contains(c, "T55xx"@) || seq_contains(c, "T5577"@) || seq_contains(c, "T5555"@)
        || seq_contains(c, "Chip type"@)
}

/// `lf t55xx detect` output reports a password set.
pub open spec fn t5577_locked(out: Seq<char>) -> bool {
    group_spec(T5577_PASSWORD_RE@, strip_spec(out), 1) is Some && lower(
        group_spec(T5577_PASSWORD_RE@, strip_spec(out), 1)->0,
    ) == "yes"@
}

/// `lf em 4x05 info` output shows an EM4305-family chip.
pub open spec fn em4305_seen(out: Seq<char>) -> bool {
    let c = strip_spec(out);
    seq_contains(c, "EM4x05"@) || seq_contains(c, "EM4x69"@) || seq_contains(c, "EM4305"@)
        || seq_contains(c, "EM4469"@)
}

/// Word 0 as `lf em 4x05 read -a 0` reports it, upper-cased.
pub open spec fn em4305_word0(out: Seq<char>) -> Option<Seq<char>> {
    match group_spec(EM4305_WORD_RE@, strip_spec(out), 1) {
        Some(w) => Some(upper_of(w)),
        None => None,
    }
}

/// The clone step: the clone command (with ` --em` for EM4305) when the
/// card has one, else a report that cannot be retried.
pub open spec fn is_clone_step(job: LfWriteJob, em: bool, r: (WritePhase, WriteAction)) -> bool {
    match clone_command_spec(job.card_type, job.uid@, job.decoded) {
        Some(c) => r.0 == WritePhase::AwaitClone && r.1 is Run && r.1->Run_command@ == (if em {
            c + " --em"@
        } else {
            c
        }),
        None => r.0 == WritePhase::Done && r.1 is Report && !r.1->Report_0.recoverable,
    }
}

/// A report that asks the user to retry.
pub open spec fn is_retry_report(r: (WritePhase, WriteAction)) -> bool {
    r.0 == WritePhase::Done && r.1 is Report && r.1->Report_0.recoverable
        && r.1->Report_0.recovery_action == Some(RecoveryAction::Retry)
}

/// The next command to run.
pub open spec fn is_run(r: (WritePhase, WriteAction), p: WritePhase, cmd: Seq<char>) -> bool {
    r.0 == p && r.1 is Run && r.1->Run_command@ == cmd
}

/// The clone step, shared by both flows. `em` adds `--em` for EM4305 blanks.
fn clone_step(job: &LfWriteJob, em: bool, step: u16, total: u16) -> (r: (WritePhase, WriteAction))
    ensures
        is_clone_step(*job, em, r),
{
    match build_clone_command(&job.card_type, job.uid.as_str(), &job.decoded) {
        Some(cmd) => {
            let c = if em {
                build_clone_for_em4305(cmd.as_str())
            } else {
                cmd
            };
            (WritePhase::AwaitClone, run(c, 700, step, total))
        },
        None => {
            let mut m = String::from_str("No clone command for ");
            append_str(&mut m, crate::types::CardType::display_name(&job.card_type));
            (
                WritePhase::Done,
                WriteAction::Report(
                    ErrorReport {
                        message: m,
                        user_message: String::from_str(
                            "This card type cannot be cloned with the current method.",
                        ),
                        recoverable: false,
                        recovery_action: None,
                    },
                ),
            )
        },
    }
}

/// The password that `lf t55xx chk` reports in `out`, if any.
pub open spec fn found_password(out: Seq<char>) -> Option<Seq<char>> {
    group_spec(T5577_PASSWORD_FOUND_RE@, strip_spec(out), 1)
}

/// One step of the T5577 write flow. A blank with a password is wiped with
/// the recovered password and checked again before the clone; the clone
/// itself never carries a password. A blank whose password cannot be
/// recovered ends the flow with a recoverable error that asks for a retry.
pub fn t5577_step(job: &LfWriteJob, phase: WritePhase, last: Result<String, AppError>) -> (r: (
    WritePhase,
    WriteAction,
))
    ensures
        phase is Start ==> r.0 is AwaitDetect && r.1 is Run && r.1->Run_command@
            == "lf t55xx detect"@,
        !(phase is Start) && !(phase is AwaitPasswordCheck) && last is Err ==> r.1 is Fail,
        phase is AwaitDetect && last is Ok ==> if !t5577_seen(last->Ok_0@) {
            is_retry_report(r)
        } else if t5577_locked(last->Ok_0@) {
            is_run(r, WritePhase::AwaitPasswordCheck, "lf t55xx chk"@)
        } else {
            is_clone_step(*job, false, r)
        },
        phase is AwaitPasswordCheck && last is Ok && found_password(last->Ok_0@) is None
            ==> is_retry_report(r),
        phase is AwaitPasswordCheck && last is Ok && found_password(last->Ok_0@) is Some
            && valid_password(upper_of(found_password(last->Ok_0@)->0)) ==> is_run(
            r,
            WritePhase::AwaitWipe,
            "lf t55xx wipe -p "@ + upper_of(found_password(last->Ok_0@)->0),
        ),
        phase is AwaitPasswordCheck ==> !(r.0 is AwaitClone),
        r.0 is AwaitClone ==> last is Ok && (phase is AwaitDetect || phase is AwaitWipeCheck)
            && t5577_seen(last->Ok_0@) && !t5577_locked(last->Ok_0@),
        phase is AwaitWipe && last is Ok ==> is_run(r, WritePhase::AwaitWipeCheck, "lf t55xx detect"@),
        phase is AwaitWipeCheck && last is Ok ==> if t5577_seen(last->Ok_0@) && !t5577_locked(
            last->Ok_0@,
        ) {
            is_clone_step(*job, false, r)
        } else {
            is_retry_report(r)
        },
        phase is AwaitPasswordCheck && last is Err ==> r.1 is Report && r.1->Report_0.recoverable,
        r.0 is AwaitClone ==> r.1 is Run && r.1->Run_command@ == clone_command_spec(
            job.card_type,
            job.uid@,
            job.decoded,
        )->0,
        phase is AwaitClone && last is Ok ==> r.0 is Done && (if clone_output_failed(
            last->Ok_0@,
        ) {
            r.1 is Report && r.1->Report_0.recoverable
        } else {
            r.1 is Finish
        }),
{
    match phase {
        WritePhase::Start => (
            WritePhase::AwaitDetect,
            run(String::from_str(build_t5577_detect()), 100, 0, T5577_TOTAL_STEPS),
        ),
        WritePhase::AwaitDetect => {
            let out = match last {
                Ok(o) => o,
                Err(e) => return (WritePhase::Done, WriteAction::Fail(e)),
            };
            let status = parse_t5577_detect(out.as_str());
            if !status.detected {
                return (
                    WritePhase::Done,
                    WriteAction::Report(
                        retry_report(
                            String::from_str("T5577 not detected on writer"),
                            "No T5577 blank found. Place blank card on the reader.",
                        ),
                    ),
                );
            }
            if status.password_set {
                (
                    WritePhase::AwaitPasswordCheck,
                    run(String::from_str(build_t5577_chk()), 200, 1, T5577_TOTAL_STEPS),
                )
            } else {
                // A clean blank needs no wipe: the clone rewrites configuration and data.
                clone_step(job, false, 4, T5577_TOTAL_STEPS)
            }
        },
        WritePhase::AwaitPasswordCheck => {
            let out = match last {
                Ok(o) => o,
                Err(_) => return (
                    WritePhase::Done,
                    WriteAction::Report(
                        retry_report(
                            String::from_str("Password check failed"),
                            "Could not check T5577 password. Try again.",
                        ),
                    ),
                ),
            };
            match parse_t5577_chk(out.as_str()) {
                None => (
                    WritePhase::Done,
                    WriteAction::Report(
                        retry_report(
                            String::from_str("Card is password-locked, cannot recover password"),
                            "This T5577 is password-protected and the password could not be found. Use a different blank card.",
                        ),
                    ),
                ),
                Some(pw) => match build_wipe_command(&BlankType::T5577, Some(pw.as_str())) {
                    Some(wipe) => (
                        WritePhase::AwaitWipe,
                        run(wipe, 350, 2, T5577_TOTAL_STEPS),
                    ),
                    None => (
                        WritePhase::Done,
                        WriteAction::Fail(
                            AppError::CommandFailed(
                                String::from_str("No wipe command for this blank type"),
                            ),
                        ),
                    ),
                },
            }
        },
        WritePhase::AwaitWipe => {
            match last {
                Ok(_) => (
                    WritePhase::AwaitWipeCheck,
                    run(String::from_str(build_t5577_detect()), 500, 3, T5577_TOTAL_STEPS),
                ),
                Err(e) => (WritePhase::Done, WriteAction::Fail(e)),
            }
        },
        WritePhase::AwaitWipeCheck => {
            let out = match last {
                Ok(o) => o,
                Err(e) => return (WritePhase::Done, WriteAction::Fail(e)),
            };
            // The tool may exit cleanly although a wipe with a password failed.
            let status = parse_t5577_detect(out.as_str());
            if !status.detected || status.password_set {
                return (
                    WritePhase::Done,
                    WriteAction::Report(
                        retry_report(
                            String::from_str(
                                "T5577 wipe verification failed — card may still be password-protected",
                            ),
                            "Wipe verification failed. The card may still be password-protected. Do not remove the card — try again or use a different blank.",
                        ),
                    ),
                );
            }
            clone_step(job, false, 4, T5577_TOTAL_STEPS)
        },
        WritePhase::AwaitClone => {
            let out = match last {
                Ok(o) => o,
                Err(e) => return (WritePhase::Done, WriteAction::Fail(e)),
            };
            if output_failed(out.as_str()) {
                let m = cat("Clone command may have failed: ", head200(out.as_str()).as_str());
                return (
                    WritePhase::Done,
                    WriteAction::Report(
                        retry_report(
                            m,
                            "Write may have failed. Do not remove the card — try again.",
                        ),
                    ),
                );
            }
            (WritePhase::Done, WriteAction::Finish { step: 5, total_steps: T5577_TOTAL_STEPS })
        },
        WritePhase::Done => (
            WritePhase::Done,
            match last {
                Err(e) => WriteAction::Fail(e),
                Ok(_) => WriteAction::Finish { step: 5, total_steps: T5577_TOTAL_STEPS },
            },
        ),
    }
}

/// One step of the EM4305 write flow: detect, wipe, check that word 0 reads
/// as zero, then clone with `--em`. When word 0 cannot be read the flow goes
/// on, as the clone fails on a card in a bad state.
pub fn em4305_step(job: &LfWriteJob, phase: WritePhase, last: Result<String, AppError>) -> (r: (
    WritePhase,
    WriteAction,
))
    ensures
        phase is Start ==> r.0 is AwaitDetect && r.1 is Run && r.1->Run_command@
            == "lf em 4x05 info"@,
        !(phase is Start) && last is Err ==> r.1 is Fail,
        phase is AwaitDetect && last is Ok ==> if em4305_seen(last->Ok_0@) {
            is_run(r, WritePhase::AwaitWipe, "lf em 4x05 wipe"@)
        } else {
            is_retry_report(r)
        },
        phase is AwaitWipe && last is Ok ==> is_run(
            r,
            WritePhase::AwaitWipeCheck,
            em4305_read_word_cmd(0),
        ),
        phase is AwaitWipeCheck && last is Ok ==> if em4305_word0(last->Ok_0@) is Some
            && em4305_word0(last->Ok_0@)->0 != "00000000"@ {
            is_retry_report(r)
        } else {
            is_clone_step(*job, true, r)
        },
        phase is AwaitClone && last is Ok ==> r.0 is Done && (if clone_output_failed(
            last->Ok_0@,
        ) {
            is_retry_report(r)
        } else {
            r.1 is Finish
        }),
        r.0 is AwaitClone ==> r.1 is Run && r.1->Run_command@ == clone_command_spec(
            job.card_type,
            job.uid@,
            job.decoded,
        )->0 + " --em"@,
{
    match phase {
        WritePhase::Start => (
            WritePhase::AwaitDetect,
            run(String::from_str(build_em4305_info()), 100, 0, EM4305_TOTAL_STEPS),
        ),
        WritePhase::AwaitDetect => {
            let out = match last {
                Ok(o) => o,
                Err(e) => return (WritePhase::Done, WriteAction::Fail(e)),
            };
            if !parse_em4305_info(out.as_str()) {
                return (
                    WritePhase::Done,
                    WriteAction::Report(
                        retry_report(
                            String::from_str("EM4305 not detected on writer"),
                            "No EM4305 blank found. Place blank card on the reader.",
                        ),
                    ),
                );
            }
            (
                WritePhase::AwaitWipe,
                run(String::from_str(build_em4305_wipe()), 300, 1, EM4305_TOTAL_STEPS),
            )
        },
        WritePhase::AwaitWipe => {
            match last {
                Ok(_) => (
                    WritePhase::AwaitWipeCheck,
                    run(build_em4305_read_word(0), 500, 2, EM4305_TOTAL_STEPS),
                ),
                Err(e) => (WritePhase::Done, WriteAction::Fail(e)),
            }
        },
        WritePhase::AwaitWipeCheck => {
            let out = match last {
                Ok(o) => o,
                Err(e) => return (WritePhase::Done, WriteAction::Fail(e)),
            };
            if let Some(word0) = parse_em4305_word0(out.as_str()) {
                if !crate::text::str_eq(word0.as_str(), "00000000") {
                    let mut m = cat("EM4305 wipe verification failed — word 0 is ", word0.as_str());
                    append_str(&mut m, " (expected 00000000)");
                    return (
                        WritePhase::Done,
                        WriteAction::Report(
                            retry_report(
                                m,
                                "Wipe verification failed. The card may not have been wiped correctly. Do not remove the card — try again or use a different blank.",
                            ),
                        ),
                    );
                }
            }
            clone_step(job, true, 3, EM4305_TOTAL_STEPS)
        },
        WritePhase::AwaitClone => {
            let out = match last {
                Ok(o) => o,
                Err(e) => return (WritePhase::Done, WriteAction::Fail(e)),
            };
            if output_failed(out.as_str()) {
                let m = cat("EM4305 clone may have failed: ", head200(out.as_str()).as_str());
                return (
                    WritePhase::Done,
                    WriteAction::Report(
                        retry_report(
                            m,
                            "Write may have failed. Do not remove the card — try again.",
                        ),
                    ),
                );
            }
            (WritePhase::Done, WriteAction::Finish { step: 4, total_steps: EM4305_TOTAL_STEPS })
        },
        WritePhase::AwaitPasswordCheck | WritePhase::Done => (
            WritePhase::Done,
            match last {
                Err(e) => WriteAction::Fail(e),
                Ok(_) => WriteAction::Finish { step: 4, total_steps: EM4305_TOTAL_STEPS },
            },
        ),
    }
}

/// A write request is accepted when it carries at most 50 fields, a UID of
/// 1 to 200 ASCII letters, digits and colons, and a port of 1 to 50
/// characters without separator or line break; an EM4305 blank also needs a
/// protocol whose clone accepts `--em`. The blank defaults to the card's
/// recommended one.
pub fn check_write_request(
    card_type: CardType,
    uid: &str,
    n_fields: usize,
    port: &str,
    blank_type: Option<BlankType>,
) -> (r: Result<BlankType, AppError>)
    ensures
        r is Ok ==> crate::text::is_alnum_colon_str(uid@) && uid@.len() <= 200 && n_fields <= 50
            && 0 < port@.len() <= 50 && !crate::runner::has_forbidden(port@),
        r is Ok ==> r->Ok_0 == (match blank_type {
            Some(b) => b,
            None => crate::types::recommended_blank_spec(card_type),
        }),
        r is Ok && r->Ok_0 is EM4305 ==> crate::types::supports_em4305_spec(card_type),
{
    // Oversized requests are refused before any other work.
    if n_fields > 50 {
        return Err(AppError::CommandFailed(String::from_str("Too many decoded fields")));
    }
    if !is_alnum_colon(uid) {
        return Err(
            AppError::CommandFailed(
                String::from_str("Invalid UID: must contain only alphanumeric characters and colons"),
            ),
        );
    }
    if uid.unicode_len() > 200 {
        return Err(AppError::CommandFailed(String::from_str("UID too long")));
    }
    let n = port.unicode_len();
    if n == 0 || n > 50 || crate::runner::port_has_forbidden(port) {
        return Err(AppError::CommandFailed(String::from_str("Invalid port")));
    }
    let blank = match blank_type {
        Some(b) => b,
        None => card_type.recommended_blank(),
    };
    if matches!(blank, BlankType::EM4305) && !card_type.supports_em4305() {
        let mut m = String::from_str(card_type.display_name());
        append_str(&mut m, " does not support EM4305 blanks. Please use a T5577 blank instead.");
        return Err(AppError::CommandFailed(m));
    }
    Ok(blank)
}

} // verus!
