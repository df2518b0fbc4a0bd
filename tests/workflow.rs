use pm3_core::fields::Fields;
use pm3_core::flows::{t5577_step, LfWriteJob, WriteAction, WritePhase};
use pm3_core::state::{UserAction, WizardAction, WizardMachine, WizardState};
use pm3_core::types::{AppError, BlankType, CardData, CardSummary, CardType, Frequency, RecoveryAction};

fn go(m: &mut WizardMachine, a: WizardAction) -> Result<(), AppError> {
    m.transition(a, "2026-10-19T10:00:00+02:00".to_string())
}

fn connected() -> WizardMachine {
    let mut m = WizardMachine::new();
    go(&mut m, WizardAction::StartDetection).unwrap();
    go(&mut m, WizardAction::DeviceFound {
        port: "COM3".to_string(),
        model: "PM3 Easy".to_string(),
        firmware: "v4.20728".to_string(),
    })
    .unwrap();
    m
}

fn em_card() -> CardData {
    let mut d = Fields::new();
    d.insert("id".to_string(), "0F00112233".to_string());
    CardData { uid: "0F00112233".to_string(), raw: "0F00112233".to_string(), decoded: d }
}

fn summary() -> CardSummary {
    CardSummary { card_type: "EM4100".to_string(), uid: "0F00112233".to_string(), display_name: "EM4100".to_string() }
}

fn error_action() -> WizardAction {
    WizardAction::ReportError {
        message: "boom".to_string(),
        user_message: "Something failed".to_string(),
        recoverable: true,
        recovery_action: Some(RecoveryAction::Retry),
    }
}

fn to_waiting_for_blank() -> WizardMachine {
    let mut m = connected();
    go(&mut m, WizardAction::StartScan).unwrap();
    go(&mut m, WizardAction::CardFound {
        frequency: Frequency::LF,
        card_type: CardType::EM4100,
        card_data: em_card(),
        cloneable: true,
        recommended_blank: BlankType::T5577,
    })
    .unwrap();
    go(&mut m, WizardAction::ProceedToWrite { blank_type: BlankType::T5577 }).unwrap();
    m
}

#[test]
fn full_lf_workflow_reaches_complete() {
    let mut m = to_waiting_for_blank();
    assert!(matches!(m.current, WizardState::WaitingForBlank { expected_blank: BlankType::T5577 }));
    go(&mut m, WizardAction::BlankReady { blank_type: BlankType::T5577, existing_data_type: None }).unwrap();
    go(&mut m, WizardAction::StartWrite).unwrap();
    assert!(matches!(m.current, WizardState::Writing { progress_permille: 0, .. }));
    go(&mut m, WizardAction::UpdateWriteProgress { progress_permille: 500, current_block: Some(2), total_blocks: Some(6) }).unwrap();
    assert!(matches!(m.current, WizardState::Writing { progress_permille: 500, current_block: Some(2), total_blocks: Some(6) }));
    go(&mut m, WizardAction::WriteFinished).unwrap();
    go(&mut m, WizardAction::VerificationResult { success: true, mismatched_blocks: vec![] }).unwrap();
    go(&mut m, WizardAction::MarkComplete { source: summary(), target: summary() }).unwrap();
    match &m.current {
        WizardState::Complete { timestamp, .. } => assert_eq!(timestamp, "2026-10-19T10:00:00+02:00"),
        other => panic!("unexpected state {:?}", other),
    }
}

#[test]
fn invalid_pair_names_action_and_state() {
    let mut m = WizardMachine::new();
    let err = go(&mut m, WizardAction::StartScan).unwrap_err();
    match err {
        AppError::InvalidTransition(msg) => assert_eq!(msg, "StartScan is not valid from Idle"),
        other => panic!("unexpected error {:?}", other),
    }
    assert!(matches!(m.current, WizardState::Idle));
}

#[test]
fn failed_verification_cannot_complete() {
    let mut m = to_waiting_for_blank();
    go(&mut m, WizardAction::BlankReady { blank_type: BlankType::T5577, existing_data_type: None }).unwrap();
    go(&mut m, WizardAction::StartWrite).unwrap();
    go(&mut m, WizardAction::WriteFinished).unwrap();
    go(&mut m, WizardAction::VerificationResult { success: false, mismatched_blocks: vec![0] }).unwrap();
    let err = go(&mut m, WizardAction::MarkComplete { source: summary(), target: summary() }).unwrap_err();
    match err {
        AppError::InvalidTransition(msg) => assert_eq!(msg, "MarkComplete is not valid from VerificationComplete"),
        other => panic!("unexpected error {:?}", other),
    }
}

#[test]
fn escape_actions_succeed_everywhere() {
    for i in 0..3 {
        let mut m = to_waiting_for_blank();
        go(&mut m, error_action()).unwrap();
        assert!(matches!(m.current, WizardState::Error { .. }));
        // From the error state itself as well.
        let a = match i {
            0 => error_action(),
            1 => WizardAction::Reset,
            _ => WizardAction::Disconnect,
        };
        go(&mut m, a).unwrap();
        if i > 0 {
            assert!(matches!(m.current, WizardState::Idle));
            assert!(m.port.is_none() && m.model.is_none() && m.firmware.is_none());
        } else {
            assert!(matches!(m.current, WizardState::Error { .. }));
            assert_eq!(m.port.as_deref(), Some("COM3"));
        }
    }
    let mut idle = WizardMachine::new();
    go(&mut idle, WizardAction::Reset).unwrap();
    go(&mut idle, WizardAction::Disconnect).unwrap();
    go(&mut idle, error_action()).unwrap();
}

#[test]
fn retry_from_recoverable_error_returns_to_idle() {
    let mut m = connected();
    go(&mut m, error_action()).unwrap();
    go(&mut m, WizardAction::Retry).unwrap();
    assert!(matches!(m.current, WizardState::Idle));
    let mut n = connected();
    go(&mut n, WizardAction::ReportError {
        message: "x".to_string(),
        user_message: "y".to_string(),
        recoverable: false,
        recovery_action: None,
    })
    .unwrap();
    assert!(go(&mut n, WizardAction::Retry).is_err());
}

#[test]
fn back_to_scan_rebuilds_connection_from_session() {
    let mut m = to_waiting_for_blank();
    go(&mut m, WizardAction::BackToScan).unwrap();
    match &m.current {
        WizardState::DeviceConnected { port, model, firmware } => {
            assert_eq!(port, "COM3");
            assert_eq!(model, "PM3 Easy");
            assert_eq!(firmware, "v4.20728");
        }
        other => panic!("unexpected state {:?}", other),
    }
}

#[test]
fn cancel_hf_without_session_is_rejected() {
    let mut m = connected();
    go(&mut m, WizardAction::StartScan).unwrap();
    go(&mut m, WizardAction::CardFound {
        frequency: Frequency::HF,
        card_type: CardType::MifareClassic1K,
        card_data: em_card(),
        cloneable: true,
        recommended_blank: BlankType::MagicMifareGen1a,
    })
    .unwrap();
    go(&mut m, WizardAction::StartHfProcess).unwrap();
    m.port = None;
    match go(&mut m, WizardAction::CancelHfProcess).unwrap_err() {
        AppError::InvalidTransition(msg) => assert_eq!(msg, "CancelHfProcess requires persistent device info"),
        other => panic!("unexpected error {:?}", other),
    }
}

#[test]
fn redetect_blank_keeps_blank_family() {
    let mut m = to_waiting_for_blank();
    go(&mut m, WizardAction::BlankReady { blank_type: BlankType::EM4305, existing_data_type: Some("EM4100".to_string()) }).unwrap();
    go(&mut m, WizardAction::ReDetectBlank).unwrap();
    assert!(matches!(m.current, WizardState::WaitingForBlank { expected_blank: BlankType::EM4305 }));
}

#[test]
fn user_action_maps_to_same_workflow_action() {
    let a = UserAction::ProceedToWrite { blank_type: BlankType::EM4305 }.into_wizard_action();
    assert!(matches!(a, WizardAction::ProceedToWrite { blank_type: BlankType::EM4305 }));
    assert!(matches!(UserAction::SoftReset.into_wizard_action(), WizardAction::SoftReset));
}

#[test]
fn password_locked_blank_ends_in_retryable_error() {
    let job = LfWriteJob { card_type: CardType::EM4100, uid: "0F00112233".to_string(), decoded: Fields::new() };
    let detect = "[=] Chip type......... T55x7\n[=] Password set...... Yes\n";
    let (phase, action) = t5577_step(&job, WritePhase::AwaitDetect, Ok(detect.to_string()));
    assert_eq!(phase, WritePhase::AwaitPasswordCheck);
    assert!(matches!(action, WriteAction::Run { ref command, .. } if command == "lf t55xx chk"));
    let (phase, action) = t5577_step(&job, WritePhase::AwaitPasswordCheck, Ok("[-] No valid password found".to_string()));
    assert_eq!(phase, WritePhase::Done);
    let report = match action {
        WriteAction::Report(r) => r,
        _ => panic!("expected a report"),
    };
    let mut m = to_waiting_for_blank();
    go(&mut m, report.into_action()).unwrap();
    match &m.current {
        WizardState::Error { recoverable, recovery_action, .. } => {
            assert!(*recoverable);
            assert_eq!(*recovery_action, Some(RecoveryAction::Retry));
        }
        other => panic!("unexpected state {:?}", other),
    }
}

#[test]
fn t5577_flow_with_password_wipes_then_clones_without_password() {
    let job = LfWriteJob { card_type: CardType::EM4100, uid: "0F00112233".to_string(), decoded: Fields::new() };
    let (p, a) = t5577_step(&job, WritePhase::Start, Ok(String::new()));
    assert_eq!(p, WritePhase::AwaitDetect);
    assert!(matches!(a, WriteAction::Run { ref command, progress_permille: 100, step: 0, total_steps: 6 } if command == "lf t55xx detect"));
    let (p, a) = t5577_step(&job, WritePhase::AwaitPasswordCheck, Ok("[+] Found valid password: 51243648".to_string()));
    assert_eq!(p, WritePhase::AwaitWipe);
    assert!(matches!(a, WriteAction::Run { ref command, .. } if command == "lf t55xx wipe -p 51243648"));
    let (p, _) = t5577_step(&job, WritePhase::AwaitWipe, Ok(String::new()));
    assert_eq!(p, WritePhase::AwaitWipeCheck);
    let (p, a) = t5577_step(&job, WritePhase::AwaitWipeCheck, Ok("[=] Chip type......... T55x7\n[=] Password set...... No\n".to_string()));
    assert_eq!(p, WritePhase::AwaitClone);
    assert!(matches!(a, WriteAction::Run { ref command, .. } if command == "lf em 410x clone --id 0F00112233"));
    let (p, a) = t5577_step(&job, WritePhase::AwaitClone, Ok("[+] Done".to_string()));
    assert_eq!(p, WritePhase::Done);
    assert!(matches!(a, WriteAction::Finish { step: 5, total_steps: 6 }));
    let (_, a) = t5577_step(&job, WritePhase::AwaitClone, Ok("[!!] Write failed".to_string()));
    assert!(matches!(a, WriteAction::Report(ref r) if r.recoverable));
}

#[test]
fn t5577_flow_rejects_still_locked_blank_after_wipe() {
    let job = LfWriteJob { card_type: CardType::EM4100, uid: "0F00112233".to_string(), decoded: Fields::new() };
    let (p, a) = t5577_step(&job, WritePhase::AwaitWipeCheck, Ok("[=] Chip type......... T55x7\n[=] Password set...... Yes\n".to_string()));
    assert_eq!(p, WritePhase::Done);
    assert!(matches!(a, WriteAction::Report(ref r) if r.recoverable && r.recovery_action == Some(RecoveryAction::Retry)));
}
