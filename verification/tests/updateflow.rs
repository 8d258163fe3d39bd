use hackerai_desktop::updateflow::{update_flow_step, UpdateAction, UpdateEvent, UpdateFlowState};

#[test]
fn updater_unavailable_reports_and_ends() {
    let (s, a) = update_flow_step(
        UpdateFlowState::Checking,
        UpdateEvent::UpdaterUnavailable { error: "no updater".to_string() },
        true,
    );
    assert_eq!(s, UpdateFlowState::Done);
    match a {
        UpdateAction::ReportCheckError { error, show_dialog } => {
            assert_eq!(error, "no updater");
            assert!(!show_dialog);
        }
        _ => panic!("expected the check-error report"),
    }
}

#[test]
fn silent_check_failure_is_logged_only() {
    let (s, a) = update_flow_step(
        UpdateFlowState::Checking,
        UpdateEvent::CheckFailed { error: "network".to_string() },
        true,
    );
    assert_eq!(s, UpdateFlowState::Done);
    assert!(matches!(a, UpdateAction::ReportCheckError { show_dialog: false, .. }));
}

#[test]
fn interactive_check_failure_shows_a_dialog() {
    let (s, a) = update_flow_step(
        UpdateFlowState::Checking,
        UpdateEvent::CheckFailed { error: "network".to_string() },
        false,
    );
    assert_eq!(s, UpdateFlowState::Done);
    assert!(matches!(a, UpdateAction::ReportCheckError { show_dialog: true, .. }));
}

#[test]
fn no_update_is_reported_per_verbosity() {
    let (s, a) = update_flow_step(UpdateFlowState::Checking, UpdateEvent::NoUpdate, true);
    assert_eq!(s, UpdateFlowState::Done);
    assert!(matches!(a, UpdateAction::ReportNoUpdate { show_dialog: false }));
    let (s, a) = update_flow_step(UpdateFlowState::Checking, UpdateEvent::NoUpdate, false);
    assert_eq!(s, UpdateFlowState::Done);
    assert!(matches!(a, UpdateAction::ReportNoUpdate { show_dialog: true }));
}

#[test]
fn update_found_prompts_even_when_silent() {
    let (s, a) = update_flow_step(
        UpdateFlowState::Checking,
        UpdateEvent::UpdateFound { version: "2.0.1".to_string() },
        true,
    );
    assert_eq!(s, UpdateFlowState::AwaitingInstallDecision);
    match a {
        UpdateAction::PromptInstall { version } => assert_eq!(version, "2.0.1"),
        _ => panic!("expected the install prompt"),
    }
}

#[test]
fn accepted_install_starts_the_download() {
    let (s, a) = update_flow_step(
        UpdateFlowState::AwaitingInstallDecision,
        UpdateEvent::InstallAccepted,
        true,
    );
    assert_eq!(s, UpdateFlowState::Installing);
    assert!(matches!(a, UpdateAction::StartInstall));
}

#[test]
fn declined_install_ends_the_flow() {
    let (s, a) = update_flow_step(
        UpdateFlowState::AwaitingInstallDecision,
        UpdateEvent::InstallDeclined,
        true,
    );
    assert_eq!(s, UpdateFlowState::Done);
    assert!(matches!(a, UpdateAction::DoNothing));
}

#[test]
fn failed_install_is_reported_and_ends() {
    let (s, a) = update_flow_step(
        UpdateFlowState::Installing,
        UpdateEvent::InstallFailed { error: "disk full".to_string() },
        false,
    );
    assert_eq!(s, UpdateFlowState::Done);
    match a {
        UpdateAction::ReportInstallError { error } => assert_eq!(error, "disk full"),
        _ => panic!("expected the install-error report"),
    }
}

#[test]
fn successful_install_prompts_for_restart() {
    let (s, a) = update_flow_step(
        UpdateFlowState::Installing,
        UpdateEvent::InstallSucceeded,
        true,
    );
    assert_eq!(s, UpdateFlowState::AwaitingRestartDecision);
    assert!(matches!(a, UpdateAction::PromptRestart));
}

#[test]
fn restart_happens_only_on_explicit_confirmation() {
    let (s, a) = update_flow_step(
        UpdateFlowState::AwaitingRestartDecision,
        UpdateEvent::RestartAccepted,
        true,
    );
    assert_eq!(s, UpdateFlowState::Done);
    assert!(matches!(a, UpdateAction::Restart));
    let (s, a) = update_flow_step(
        UpdateFlowState::AwaitingRestartDecision,
        UpdateEvent::RestartDeclined,
        true,
    );
    assert_eq!(s, UpdateFlowState::Done);
    assert!(matches!(a, UpdateAction::DoNothing));
}

#[test]
fn mismatched_events_change_nothing() {
    let (s, a) = update_flow_step(UpdateFlowState::Done, UpdateEvent::NoUpdate, true);
    assert_eq!(s, UpdateFlowState::Done);
    assert!(matches!(a, UpdateAction::DoNothing));
    let (s, a) = update_flow_step(
        UpdateFlowState::Checking,
        UpdateEvent::RestartAccepted,
        false,
    );
    assert_eq!(s, UpdateFlowState::Checking);
    assert!(matches!(a, UpdateAction::DoNothing));
}
