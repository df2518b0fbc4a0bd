//! The clone workflow as a finite state machine. `transition` is the only way
//! the state changes; a few escape actions are accepted from every state.

use vstd::prelude::*;

use crate::fields::Fields;
use crate::text::append_str;
use crate::types::{
    AppError, BlankType, CardData, CardSummary, CardType, Frequency, ProcessPhase, RecoveryAction,
};

verus! {

/// The steps of the workflow.
#[derive(Clone, Debug)]
pub enum WizardState {
    Idle,
    DetectingDevice,
    DeviceConnected { port: String, model: String, firmware: String },
    ScanningCard,
    CardIdentified {
        frequency: Frequency,
        card_type: CardType,
        card_data: CardData,
        cloneable: bool,
        recommended_blank: BlankType,
    },
    HfProcessing { phase: ProcessPhase, keys_found: u32, keys_total: u32, elapsed_secs: u32 },
    HfDumpReady { dump_info: String },
    WaitingForBlank { expected_blank: BlankType },
    BlankDetected { blank_type: BlankType, ready_to_write: bool, existing_data_type: Option<String> },
    /// Writing; `progress_permille` counts thousandths of the whole write.
    Writing { progress_permille: u16, current_block: Option<u16>, total_blocks: Option<u16> },
    Verifying,
    VerificationComplete { success: bool, mismatched_blocks: Vec<u16> },
    Complete { source: CardSummary, target: CardSummary, timestamp: String },
    Error {
        message: String,
        user_message: String,
        recoverable: bool,
        recovery_action: Option<RecoveryAction>,
    },
}

/// Events that attempt a transition.
#[derive(Clone, Debug)]
pub enum WizardAction {
    StartDetection,
    DeviceFound { port: String, model: String, firmware: String },
    StartScan,
    CardFound {
        frequency: Frequency,
        card_type: CardType,
        card_data: CardData,
        cloneable: bool,
        recommended_blank: BlankType,
    },
    StartHfProcess,
    UpdateHfProgress { phase: ProcessPhase, keys_found: u32, keys_total: u32, elapsed_secs: u32 },
    HfProcessComplete { dump_info: String },
    CancelHfProcess,
    ProceedToWrite { blank_type: BlankType },
    BlankReady { blank_type: BlankType, existing_data_type: Option<String> },
    StartWrite,
    UpdateWriteProgress { progress_permille: u16, current_block: Option<u16>, total_blocks: Option<u16> },
    WriteFinished,
    VerificationResult { success: bool, mismatched_blocks: Vec<u16> },
    MarkComplete { source: CardSummary, target: CardSummary },
    ReportError {
        message: String,
        user_message: String,
        recoverable: bool,
        recovery_action: Option<RecoveryAction>,
    },
    Retry,
    Reset,
    BackToScan,
    SoftReset,
    Disconnect,
    ReDetectBlank,
    LoadSavedCard {
        frequency: Frequency,
        card_type: CardType,
        uid: String,
        raw: String,
        decoded: Fields,
        cloneable: bool,
        recommended_blank: BlankType,
    },
}

pub open spec fn state_name_spec(s: WizardState) -> Seq<char> {
    match s {
        WizardState::Idle => "Idle"@,
        WizardState::DetectingDevice => "DetectingDevice"@,
        WizardState::DeviceConnected { .. } => "DeviceConnected"@,
        WizardState::ScanningCard => "ScanningCard"@,
        WizardState::CardIdentified { .. } => "CardIdentified"@,
        WizardState::HfProcessing { .. } => "HfProcessing"@,
        WizardState::HfDumpReady { .. } => "HfDumpReady"@,
        WizardState::WaitingForBlank { .. } => "WaitingForBlank"@,
        WizardState::BlankDetected { .. } => "BlankDetected"@,
        WizardState::Writing { .. } => "Writing"@,
        WizardState::Verifying => "Verifying"@,
        WizardState::VerificationComplete { .. } => "VerificationComplete"@,
        WizardState::Complete { .. } => "Complete"@,
        WizardState::Error { .. } => "Error"@,
    }
}

pub fn state_name(s: &WizardState) -> (r: &'static str)
    ensures
        r@ == state_name_spec(*s),
{
    match s {
        WizardState::Idle => "Idle",
        WizardState::DetectingDevice => "DetectingDevice",
        WizardState::DeviceConnected { .. } => "DeviceConnected",
        WizardState::ScanningCard => "ScanningCard",
        WizardState::CardIdentified { .. } => "CardIdentified",
        WizardState::HfProcessing { .. } => "HfProcessing",
        WizardState::HfDumpReady { .. } => "HfDumpReady",
        WizardState::WaitingForBlank { .. } => "WaitingForBlank",
        WizardState::BlankDetected { .. } => "BlankDetected",
        WizardState::Writing { .. } => "Writing",
        WizardState::Verifying => "Verifying",
        WizardState::VerificationComplete { .. } => "VerificationComplete",
        WizardState::Complete { .. } => "Complete",
        WizardState::Error { .. } => "Error",
    }
}

pub open spec fn action_name_spec(a: WizardAction) -> Seq<char> {
    match a {
        WizardAction::StartDetection => "StartDetection"@,
        WizardAction::DeviceFound { .. } => "DeviceFound"@,
        WizardAction::StartScan => "StartScan"@,
        WizardAction::CardFound { .. } => "CardFound"@,
        WizardAction::StartHfProcess => "StartHfProcess"@,
        WizardAction::UpdateHfProgress { .. } => "UpdateHfProgress"@,
        WizardAction::HfProcessComplete { .. } => "HfProcessComplete"@,
        WizardAction::CancelHfProcess => "CancelHfProcess"@,
        WizardAction::ProceedToWrite { .. } => "ProceedToWrite"@,
        WizardAction::BlankReady { .. } => "BlankReady"@,
        WizardAction::StartWrite => "StartWrite"@,
        WizardAction::UpdateWriteProgress { .. } => "UpdateWriteProgress"@,
        WizardAction::WriteFinished => "WriteFinished"@,
        WizardAction::VerificationResult { .. } => "VerificationResult"@,
        WizardAction::MarkComplete { .. } => "MarkComplete"@,
        WizardAction::ReportError { .. } => "ReportError"@,
        WizardAction::Retry => "Retry"@,
        WizardAction::Reset => "Reset"@,
        WizardAction::BackToScan => "BackToScan"@,
        WizardAction::SoftReset => "SoftReset"@,
        WizardAction::Disconnect => "Disconnect"@,
        WizardAction::ReDetectBlank => "ReDetectBlank"@,
        WizardAction::LoadSavedCard { .. } => "LoadSavedCard"@,
    }
}

pub fn action_name(a: &WizardAction) -> (r: &'static str)
    ensures
        r@ == action_name_spec(*a),
{
    match a {
        WizardAction::StartDetection => "StartDetection",
        WizardAction::DeviceFound { .. } => "DeviceFound",
        WizardAction::StartScan => "StartScan",
        WizardAction::CardFound { .. } => "CardFound",
        WizardAction::StartHfProcess => "StartHfProcess",
        WizardAction::UpdateHfProgress { .. } => "UpdateHfProgress",
        WizardAction::HfProcessComplete { .. } => "HfProcessComplete",
        WizardAction::CancelHfProcess => "CancelHfProcess",
        WizardAction::ProceedToWrite { .. } => "ProceedToWrite",
        WizardAction::BlankReady { .. } => "BlankReady",
        WizardAction::StartWrite => "StartWrite",
        WizardAction::UpdateWriteProgress { .. } => "UpdateWriteProgress",
        WizardAction::WriteFinished => "WriteFinished",
        WizardAction::VerificationResult { .. } => "VerificationResult",
        WizardAction::MarkComplete { .. } => "MarkComplete",
        WizardAction::ReportError { .. } => "ReportError",
        WizardAction::Retry => "Retry",
        WizardAction::Reset => "Reset",
        WizardAction::BackToScan => "BackToScan",
        WizardAction::SoftReset => "SoftReset",
        WizardAction::Disconnect => "Disconnect",
        WizardAction::ReDetectBlank => "ReDetectBlank",
        WizardAction::LoadSavedCard { .. } => "LoadSavedCard",
    }
}

/// The device a session is connected to, kept across states that do not carry it.
pub struct SessionContext {
    pub port: Option<String>,
    pub model: Option<String>,
    pub firmware: Option<String>,
}

pub open spec fn empty_context() -> SessionContext {
    SessionContext { port: None, model: None, firmware: None }
}

/// `DeviceConnected` rebuilt from the session context; `what` names the action
/// in the error when the context is incomplete.
pub open spec fn reconnect_spec(ctx: SessionContext, what: Seq<char>) -> Result<
    (WizardState, SessionContext),
    Seq<char>,
> {
    if ctx.port is Some && ctx.model is Some && ctx.firmware is Some {
        Ok(
            (
                WizardState::DeviceConnected {
                    port: ctx.port.unwrap(),
                    model: ctx.model.unwrap(),
                    firmware: ctx.firmware.unwrap(),
                },
                ctx,
            ),
        )
    } else {
        Err(what + " requires persistent device info"@)
    }
}

/// The message of a rejected pair, naming the action and the state.
pub open spec fn invalid_message(s: WizardState, a: WizardAction) -> Seq<char> {
    action_name_spec(a) + " is not valid from "@ + state_name_spec(s)
}

/// Whether the transition table holds the pair (the escape actions aside).
pub open spec fn in_table(s: WizardState, a: WizardAction) -> bool {
    match a {
        WizardAction::StartDetection => s is Idle || s is Complete,
        WizardAction::DeviceFound { .. } => s is DetectingDevice,
        WizardAction::StartScan => s is DeviceConnected,
        WizardAction::CardFound { .. } => s is ScanningCard,
        WizardAction::StartHfProcess => s is CardIdentified,
        WizardAction::UpdateHfProgress { .. } => s is HfProcessing,
        WizardAction::HfProcessComplete { .. } => s is HfProcessing,
        WizardAction::CancelHfProcess => s is HfProcessing,
        WizardAction::ProceedToWrite { .. } => s is HfDumpReady || s is CardIdentified,
        WizardAction::BlankReady { .. } => s is WaitingForBlank,
        WizardAction::ReDetectBlank => s is BlankDetected,
        WizardAction::StartWrite => match s {
            WizardState::BlankDetected { ready_to_write, .. } => ready_to_write,
            _ => false,
        },
        WizardAction::UpdateWriteProgress { .. } => s is Writing,
        WizardAction::WriteFinished => s is Writing,
        WizardAction::VerificationResult { .. } => s is Verifying,
        WizardAction::MarkComplete { .. } => match s {
            WizardState::VerificationComplete { success, .. } => success,
            _ => false,
        },
        WizardAction::Retry => match s {
            WizardState::Error { recoverable, .. } => recoverable,
            _ => false,
        },
        WizardAction::BackToScan => s is HfDumpReady || s is CardIdentified || s is WaitingForBlank
            || s is HfProcessing,
        WizardAction::SoftReset => s is Complete || s is Error,
        WizardAction::LoadSavedCard { .. } => s is DeviceConnected,
        WizardAction::ReportError { .. } | WizardAction::Reset | WizardAction::Disconnect => true,
    }
}

/// One step of the machine: the next state and session context, or the
/// error message. `now` is the timestamp a completed workflow records.
pub open spec fn step(s: WizardState, ctx: SessionContext, a: WizardAction, now: String) -> Result<
    (WizardState, SessionContext),
    Seq<char>,
> {
    match a {
        WizardAction::Reset | WizardAction::Disconnect => Ok((WizardState::Idle, empty_context())),
        WizardAction::ReportError { message, user_message, recoverable, recovery_action } => Ok(
            (WizardState::Error { message, user_message, recoverable, recovery_action }, ctx),
        ),
        _ => if !in_table(s, a) {
            Err(invalid_message(s, a))
        } else {
            match a {
                WizardAction::StartDetection => Ok((WizardState::DetectingDevice, ctx)),
                WizardAction::DeviceFound { port, model, firmware } => Ok(
                    (
                        WizardState::DeviceConnected { port, model, firmware },
                        SessionContext {
                            port: Some(port),
                            model: Some(model),
                            firmware: Some(firmware),
                        },
                    ),
                ),
                WizardAction::StartScan => Ok((WizardState::ScanningCard, ctx)),
                WizardAction::CardFound {
                    frequency,
                    card_type,
                    card_data,
                    cloneable,
                    recommended_blank,
                } => Ok(
                    (
                        WizardState::CardIdentified {
                            frequency,
                            card_type,
                            card_data,
                            cloneable,
                            recommended_blank,
                        },
                        ctx,
                    ),
                ),
                WizardAction::StartHfProcess => Ok(
                    (
                        WizardState::HfProcessing {
                            phase: ProcessPhase::KeyCheck,
                            keys_found: 0,
                            keys_total: 0,
                            elapsed_secs: 0,
                        },
                        ctx,
                    ),
                ),
                WizardAction::UpdateHfProgress { phase, keys_found, keys_total, elapsed_secs } => Ok(
                    (WizardState::HfProcessing { phase, keys_found, keys_total, elapsed_secs }, ctx),
                ),
                WizardAction::HfProcessComplete { dump_info } => Ok(
                    (WizardState::HfDumpReady { dump_info }, ctx),
                ),
                WizardAction::CancelHfProcess => reconnect_spec(ctx, "CancelHfProcess"@),
                WizardAction::ProceedToWrite { blank_type } => Ok(
                    (WizardState::WaitingForBlank { expected_blank: blank_type }, ctx),
                ),
                WizardAction::BlankReady { blank_type, existing_data_type } => Ok(
                    (
                        WizardState::BlankDetected {
                            blank_type,
                            ready_to_write: true,
                            existing_data_type,
                        },
                        ctx,
                    ),
                ),
                WizardAction::ReDetectBlank => match s {
                    WizardState::BlankDetected { blank_type, .. } => Ok(
                        (WizardState::WaitingForBlank { expected_blank: blank_type }, ctx),
                    ),
                    _ => Err(invalid_message(s, a)),
                },
                WizardAction::StartWrite => Ok(
                    (
                        WizardState::Writing {
                            progress_permille: 0,
                            current_block: None,
                            total_blocks: None,
                        },
                        ctx,
                    ),
                ),
                WizardAction::UpdateWriteProgress {
                    progress_permille,
                    current_block,
                    total_blocks,
                } => Ok(
                    (WizardState::Writing { progress_permille, current_block, total_blocks }, ctx),
                ),
                WizardAction::WriteFinished => Ok((WizardState::Verifying, ctx)),
                WizardAction::VerificationResult { success, mismatched_blocks } => Ok(
                    (WizardState::VerificationComplete { success, mismatched_blocks }, ctx),
                ),
                WizardAction::MarkComplete { source, target } => Ok(
                    (WizardState::Complete { source, target, timestamp: now }, ctx),
                ),
                WizardAction::Retry => Ok((WizardState::Idle, ctx)),
                WizardAction::BackToScan => reconnect_spec(ctx, "BackToScan"@),
                WizardAction::SoftReset => reconnect_spec(ctx, "SoftReset"@),
                WizardAction::LoadSavedCard {
                    frequency,
                    card_type,
                    uid,
                    raw,
                    decoded,
                    cloneable,
                    recommended_blank,
                } => Ok(
                    (
                        WizardState::CardIdentified {
                            frequency,
                            card_type,
                            card_data: CardData { uid, raw, decoded },
                            cloneable,
                            recommended_blank,
                        },
                        ctx,
                    ),
                ),
                _ => Err(invalid_message(s, a)),
            }
        },
    }
}

/// `ReportError`, `Reset` and `Disconnect` succeed from every state, the
/// error state included, whatever the session context.
pub proof fn lemma_escape_actions_always_succeed(
    s: WizardState,
    ctx: SessionContext,
    a: WizardAction,
    now: String,
)
    requires
        a is ReportError || a is Reset || a is Disconnect,
    ensures
        step(s, ctx, a, now) is Ok,
        (a is Reset || a is Disconnect) ==> step(s, ctx, a, now) == Ok::<_, Seq<char>>(
            (WizardState::Idle, empty_context()),
        ),
        a is ReportError ==> step(s, ctx, a, now)->Ok_0.0 is Error,
{
}

/// Every pair outside the table, escape actions aside, is rejected with a
/// message naming the action and the state; the step is a function of its
/// inputs, so equal inputs give equal outcomes.
pub proof fn lemma_unlisted_pairs_rejected(
    s: WizardState,
    ctx: SessionContext,
    a: WizardAction,
    now: String,
)
    requires
        !in_table(s, a),
    ensures
        step(s, ctx, a, now) == Err::<(WizardState, SessionContext), Seq<char>>(
            invalid_message(s, a),
        ),
{
}

/// The actions whose successor is rebuilt from the session context.
pub open spec fn needs_context(a: WizardAction) -> bool {
    a is CancelHfProcess || a is BackToScan || a is SoftReset
}

pub open spec fn context_complete(ctx: SessionContext) -> bool {
    ctx.port is Some && ctx.model is Some && ctx.firmware is Some
}

/// Every pair in the transition table succeeds, given the session context
/// where the successor is rebuilt from it, and the successor is the one
/// documented: for instance `Idle` + `StartDetection` gives
/// `DetectingDevice`, discovery records the device in the context, and a
/// retry from a recoverable error returns to `Idle`.
pub proof fn lemma_listed_pairs_succeed(
    s: WizardState,
    ctx: SessionContext,
    a: WizardAction,
    now: String,
)
    requires
        in_table(s, a),
        needs_context(a) ==> context_complete(ctx),
    ensures
        step(s, ctx, a, now) is Ok,
        (s is Idle && a is StartDetection) ==> step(s, ctx, a, now)->Ok_0.0 is DetectingDevice,
        a is DeviceFound ==> step(s, ctx, a, now)->Ok_0 == (
            WizardState::DeviceConnected {
                port: a->DeviceFound_port,
                model: a->DeviceFound_model,
                firmware: a->DeviceFound_firmware,
            },
            SessionContext {
                port: Some(a->DeviceFound_port),
                model: Some(a->DeviceFound_model),
                firmware: Some(a->DeviceFound_firmware),
            },
        ),
        a is Retry ==> step(s, ctx, a, now)->Ok_0.0 is Idle,
        needs_context(a) ==> step(s, ctx, a, now)->Ok_0.0 == (WizardState::DeviceConnected {
            port: ctx.port->0,
            model: ctx.model->0,
            firmware: ctx.firmware->0,
        }),
{
}

/// Only a successful verification can be marked complete.
pub proof fn lemma_complete_needs_success(
    s: WizardState,
    ctx: SessionContext,
    a: WizardAction,
    now: String,
)
    requires
        step(s, ctx, a, now) is Ok,
        step(s, ctx, a, now)->Ok_0.0 is Complete,
    ensures
        (a is MarkComplete && s is VerificationComplete && s->VerificationComplete_success),
{
}

/// The session context changes only on discovery (which records the
/// device) and on `Reset` / `Disconnect` (which clear it); every other
/// accepted step keeps it.
pub proof fn lemma_context_kept(s: WizardState, ctx: SessionContext, a: WizardAction, now: String)
    requires
        step(s, ctx, a, now) is Ok,
        !(a is DeviceFound || a is Reset || a is Disconnect),
    ensures
        step(s, ctx, a, now)->Ok_0.1 == ctx,
{
}

/// Writing starts only from a blank that is ready to write.
pub proof fn lemma_write_needs_ready_blank(
    s: WizardState,
    ctx: SessionContext,
    a: WizardAction,
    now: String,
)
    requires
        a is StartWrite,
        step(s, ctx, a, now) is Ok,
    ensures
        s is BlankDetected && s->BlankDetected_ready_to_write,
{
}

/// The workflow state and the session context of the connected device.
pub struct WizardMachine {
    pub current: WizardState,
    pub port: Option<String>,
    pub model: Option<String>,
    pub firmware: Option<String>,
}

fn clone_opt(o: &Option<String>) -> (r: Option<String>)
    ensures
        r == *o,
{
    match o {
        Some(s) => Some(s.clone()),
        None => None,
    }
}

impl WizardMachine {
    pub open spec fn ctx(&self) -> SessionContext {
        SessionContext { port: self.port, model: self.model, firmware: self.firmware }
    }

    pub fn new() -> (r: WizardMachine)
        ensures
            r.current is Idle,
            r.ctx() == empty_context(),
    {
        WizardMachine { current: WizardState::Idle, port: None, model: None, firmware: None }
    }

    fn rejected(&self, action_label: &str) -> (r: AppError)
        ensures
            r is InvalidTransition,
            r->InvalidTransition_0@ == action_label@ + " is not valid from "@ + state_name_spec(
                self.current,
            ),
    {
        let mut m = String::from_str(action_label);
        append_str(&mut m, " is not valid from ");
        append_str(&mut m, state_name(&self.current));
        AppError::InvalidTransition(m)
    }

    fn reconnect(&self, what: &str) -> (r: Result<WizardState, AppError>)
        ensures
            match reconnect_spec(self.ctx(), what@) {
                Ok((s, c)) => r is Ok && r->Ok_0 == s,
                Err(m) => r is Err && r->Err_0 is InvalidTransition && r->Err_0->InvalidTransition_0@
                    == m,
            },
    {
        match (&self.port, &self.model, &self.firmware) {
            (Some(p), Some(m), Some(f)) => Ok(
                WizardState::DeviceConnected {
                    port: p.clone(),
                    model: m.clone(),
                    firmware: f.clone(),
                },
            ),
            _ => {
                let mut m = String::from_str(what);
                append_str(&mut m, " requires persistent device info");
                Err(AppError::InvalidTransition(m))
            },
        }
    }

    /// Applies `action`; a completed workflow records `now` as its timestamp.
    /// On success the state and context are those of `step`; on failure they
    /// are unchanged and the error carries `step`'s message.
    pub fn transition(&mut self, action: WizardAction, now: String) -> (r: Result<(), AppError>)
        ensures
            match step(old(self).current, old(self).ctx(), action, now) {
                Ok((s, c)) => r is Ok && final(self).current == s && final(self).ctx() == c,
                Err(m) => r is Err && r->Err_0 is InvalidTransition && r->Err_0->InvalidTransition_0@
                    == m && final(self).current == old(self).current && final(self).ctx() == old(
                    self,
                ).ctx(),
            },
    {
        let label = action_name(&action);
        let next = match action {
            WizardAction::Reset | WizardAction::Disconnect => {
                self.current = WizardState::Idle;
                self.port = None;
                self.model = None;
                self.firmware = None;
                return Ok(());
            },
            WizardAction::ReportError { message, user_message, recoverable, recovery_action } => {
                self.current = WizardState::Error {
                    message,
                    user_message,
                    recoverable,
                    recovery_action,
                };
                return Ok(());
            },
            WizardAction::StartDetection => {
                if matches!(self.current, WizardState::Idle | WizardState::Complete { .. }) {
                    WizardState::DetectingDevice
                } else {
                    return Err(self.rejected(label));
                }
            },
            WizardAction::DeviceFound { port, model, firmware } => {
                if matches!(self.current, WizardState::DetectingDevice) {
                    self.port = Some(port.clone());
                    self.model = Some(model.clone());
                    self.firmware = Some(firmware.clone());
                    WizardState::DeviceConnected { port, model, firmware }
                } else {
                    return Err(self.rejected(label));
                }
            },
            WizardAction::StartScan => {
                if matches!(self.current, WizardState::DeviceConnected { .. }) {
                    WizardState::ScanningCard
                } else {
                    return Err(self.rejected(label));
                }
            },
            WizardAction::CardFound {
                frequency,
                card_type,
                card_data,
                cloneable,
                recommended_blank,
            } => {
                if matches!(self.current, WizardState::ScanningCard) {
                    WizardState::CardIdentified {
                        frequency,
                        card_type,
                        card_data,
                        cloneable,
                        recommended_blank,
                    }
                } else {
                    return Err(self.rejected(label));
                }
            },
            WizardAction::StartHfProcess => {
                if matches!(self.current, WizardState::CardIdentified { .. }) {
                    WizardState::HfProcessing {
                        phase: ProcessPhase::KeyCheck,
                        keys_found: 0,
                        keys_total: 0,
                        elapsed_secs: 0,
                    }
                } else {
                    return Err(self.rejected(label));
                }
            },
            WizardAction::UpdateHfProgress { phase, keys_found, keys_total, elapsed_secs } => {
                if matches!(self.current, WizardState::HfProcessing { .. }) {
                    WizardState::HfProcessing { phase, keys_found, keys_total, elapsed_secs }
                } else {
                    return Err(self.rejected(label));
                }
            },
            WizardAction::HfProcessComplete { dump_info } => {
                if matches!(self.current, WizardState::HfProcessing { .. }) {
                    WizardState::HfDumpReady { dump_info }
                } else {
                    return Err(self.rejected(label));
                }
            },
            WizardAction::CancelHfProcess => {
                if matches!(self.current, WizardState::HfProcessing { .. }) {
                    // The progress state does not carry the port: rebuild from the session.
                    match self.reconnect("CancelHfProcess") {
                        Ok(s) => s,
                        Err(e) => return Err(e),
                    }
                } else {
                    return Err(self.rejected(label));
                }
            },
            WizardAction::ProceedToWrite { blank_type } => {
                if matches!(
                    self.current,
                    WizardState::HfDumpReady { .. } | WizardState::CardIdentified { .. }
                ) {
                    WizardState::WaitingForBlank { expected_blank: blank_type }
                } else {
                    return Err(self.rejected(label));
                }
            },
            WizardAction::BlankReady { blank_type, existing_data_type } => {
                if matches!(self.current, WizardState::WaitingForBlank { .. }) {
                    WizardState::BlankDetected { blank_type, ready_to_write: true, existing_data_type }
                } else {
                    return Err(self.rejected(label));
                }
            },
            WizardAction::ReDetectBlank => {
                match &self.current {
                    WizardState::BlankDetected { blank_type, .. } => {
                        WizardState::WaitingForBlank { expected_blank: *blank_type }
                    },
                    _ => return Err(self.rejected(label)),
                }
            },
            WizardAction::StartWrite => {
                match &self.current {
                    WizardState::BlankDetected { ready_to_write: true, .. } => {
                        WizardState::Writing {
                            progress_permille: 0,
                            current_block: None,
                            total_blocks: None,
                        }
                    },
                    _ => return Err(self.rejected(label)),
                }
            },
            WizardAction::UpdateWriteProgress { progress_permille, current_block, total_blocks } => {
                if matches!(self.current, WizardState::Writing { .. }) {
                    WizardState::Writing { progress_permille, current_block, total_blocks }
                } else {
                    return Err(self.rejected(label));
                }
            },
            WizardAction::WriteFinished => {
                if matches!(self.current, WizardState::Writing { .. }) {
                    WizardState::Verifying
                } else {
                    return Err(self.rejected(label));
                }
            },
            WizardAction::VerificationResult { success, mismatched_blocks } => {
                if matches!(self.current, WizardState::Verifying) {
                    WizardState::VerificationComplete { success, mismatched_blocks }
                } else {
                    return Err(self.rejected(label));
                }
            },
            WizardAction::MarkComplete { source, target } => {
                // An unsuccessful verification is never promoted to complete.
                match &self.current {
                    WizardState::VerificationComplete { success: true, .. } => {
                        WizardState::Complete { source, target, timestamp: now }
                    },
                    _ => return Err(self.rejected(label)),
                }
            },
            WizardAction::Retry => {
                match &self.current {
                    WizardState::Error { recoverable: true, .. } => WizardState::Idle,
                    _ => return Err(self.rejected(label)),
                }
            },
            WizardAction::BackToScan => {
                if matches!(
                    self.current,
                    WizardState::HfDumpReady { .. } | WizardState::CardIdentified { .. }
                        | WizardState::WaitingForBlank { .. } | WizardState::HfProcessing { .. }
                ) {
                    match self.reconnect("BackToScan") {
                        Ok(s) => s,
                        Err(e) => return Err(e),
                    }
                } else {
                    return Err(self.rejected(label));
                }
            },
            WizardAction::SoftReset => {
                if matches!(self.current, WizardState::Complete { .. } | WizardState::Error { .. }) {
                    match self.reconnect("SoftReset") {
                        Ok(s) => s,
                        Err(e) => return Err(e),
                    }
                } else {
                    return Err(self.rejected(label));
                }
            },
            WizardAction::LoadSavedCard {
                frequency,
                card_type,
                uid,
                raw,
                decoded,
                cloneable,
                recommended_blank,
            } => {
                if matches!(self.current, WizardState::DeviceConnected { .. }) {
                    WizardState::CardIdentified {
                        frequency,
                        card_type,
                        card_data: CardData { uid, raw, decoded },
                        cloneable,
                        recommended_blank,
                    }
                } else {
                    return Err(self.rejected(label));
                }
            },
        };
        self.current = next;
        Ok(())
    }
}

/// The actions the user interface may send directly; the others come from
/// device operations only.
pub enum UserAction {
    Reset,
    Retry,
    ProceedToWrite { blank_type: BlankType },
    StartDetection,
    StartScan,
    StartWrite,
    MarkComplete { source: CardSummary, target: CardSummary },
    BackToScan,
    SoftReset,
    Disconnect,
    ReDetectBlank,
    LoadSavedCard {
        frequency: Frequency,
        card_type: CardType,
        uid: String,
        raw: String,
        decoded: Fields,
        cloneable: bool,
        recommended_blank: BlankType,
    },
}

impl UserAction {
    /// The workflow action of the same name, with the same payload.
    pub fn into_wizard_action(self) -> (r: WizardAction)
        ensures
            match self {
                UserAction::Reset => r is Reset,
                UserAction::Retry => r is Retry,
                UserAction::ProceedToWrite { blank_type } => r == (WizardAction::ProceedToWrite {
                    blank_type,
                }),
                UserAction::StartDetection => r is StartDetection,
                UserAction::StartScan => r is StartScan,
                UserAction::StartWrite => r is StartWrite,
                UserAction::MarkComplete { source, target } => r == (WizardAction::MarkComplete {
                    source,
                    target,
                }),
                UserAction::BackToScan => r is BackToScan,
                UserAction::SoftReset => r is SoftReset,
                UserAction::Disconnect => r is Disconnect,
                UserAction::ReDetectBlank => r is ReDetectBlank,
                UserAction::LoadSavedCard {
                    frequency,
                    card_type,
                    uid,
                    raw,
                    decoded,
                    cloneable,
                    recommended_blank,
                } => r == (WizardAction::LoadSavedCard {
                    frequency,
                    card_type,
                    uid,
                    raw,
                    decoded,
                    cloneable,
                    recommended_blank,
                }),
            },
    {
        match self {
            UserAction::Reset => WizardAction::Reset,
            UserAction::Retry => WizardAction::Retry,
            UserAction::ProceedToWrite { blank_type } => WizardAction::ProceedToWrite { blank_type },
            UserAction::StartDetection => WizardAction::StartDetection,
            UserAction::StartScan => WizardAction::StartScan,
            UserAction::StartWrite => WizardAction::StartWrite,
            UserAction::MarkComplete { source, target } => WizardAction::MarkComplete {
                source,
                target,
            },
            UserAction::BackToScan => WizardAction::BackToScan,
            UserAction::SoftReset => WizardAction::SoftReset,
            UserAction::Disconnect => WizardAction::Disconnect,
            UserAction::ReDetectBlank => WizardAction::ReDetectBlank,
            UserAction::LoadSavedCard {
                frequency,
                card_type,
                uid,
                raw,
                decoded,
                cloneable,
                recommended_blank,
            } => WizardAction::LoadSavedCard {
                frequency,
                card_type,
                uid,
                raw,
                decoded,
                cloneable,
                recommended_blank,
            },
        }
    }
}

} // verus!
