//! The update-check flow as a state machine.
//!
//! The host performs the outside work — obtaining the updater, the network
//! check, the blocking dialogs, download-and-install, the restart — and feeds
//! each outcome back in as an event. This module decides, for every state and
//! event, the next state and the action the host must take. A `silent`
//! (background) check reports failures and "no update" to the log only; an
//! interactive check surfaces them in blocking dialogs. An available update
//! prompts the user either way, and nothing in the flow is fatal: every
//! failure path ends the flow with a report.

use vstd::prelude::*;

verus! {

/// Where an update-check flow stands.
#[derive(Clone, Copy, PartialEq, Eq, Structural, Debug)]
pub enum UpdateFlowState {
    /// The check has been started; its outcome has not arrived yet.
    Checking,
    /// An update was found; the user is being asked whether to install it.
    AwaitingInstallDecision,
    /// The download and install is running.
    Installing,
    /// The install succeeded; the user is being asked whether to restart.
    AwaitingRestartDecision,
    /// The flow is over for this invocation.
    Done,
}

/// What the host reports back into the flow.
pub enum UpdateEvent {
    /// The updater service could not be obtained.
    UpdaterUnavailable { error: String },
    /// The update check failed.
    CheckFailed { error: String },
    /// The check completed: no update is available.
    NoUpdate,
    /// The check completed: an update to `version` is available.
    UpdateFound { version: String },
    /// The user accepted the offered install.
    InstallAccepted,
    /// The user declined the offered install.
    InstallDeclined,
    /// The download or install failed.
    InstallFailed { error: String },
    /// The download and install completed.
    InstallSucceeded,
    /// The user chose to restart now.
    RestartAccepted,
    /// The user deferred the restart.
    RestartDeclined,
}

/// What the host must do next.
pub enum UpdateAction {
    /// Report that the check failed: a blocking error dialog when
    /// `show_dialog` holds, a log line alone otherwise.
    ReportCheckError { error: String, show_dialog: bool },
    /// Report that no update is available: an info dialog when `show_dialog`
    /// holds, a log line alone otherwise.
    ReportNoUpdate { show_dialog: bool },
    /// Ask the user, in a blocking dialog, whether to install `version`.
    PromptInstall { version: String },
    /// Download and install the update.
    StartInstall,
    /// Report the failed install in a blocking error dialog.
    ReportInstallError { error: String },
    /// Ask the user, in a blocking dialog, whether to restart now.
    PromptRestart,
    /// Restart the application.
    Restart,
    /// Nothing to do.
    DoNothing,
}

/// One step of the flow: given the current state, the event the host
/// reports, and whether the check runs silently, the next state and the
/// action owed. Every transition is pinned down; an event that does not
/// belong to the current state changes nothing.
pub fn update_flow_step(state: UpdateFlowState, event: UpdateEvent, silent: bool) -> (r: (
    UpdateFlowState,
    UpdateAction,
))
    ensures
        ({
            let (s2, a) = r;
            match (state, event) {
                (
                    UpdateFlowState::Checking,
                    UpdateEvent::UpdaterUnavailable { error },
                ) => s2 == UpdateFlowState::Done && (a matches UpdateAction::ReportCheckError {
                    error: e,
                    show_dialog,
                } && e@ == error@ && show_dialog == !silent),
                (UpdateFlowState::Checking, UpdateEvent::CheckFailed { error }) => s2
                    == UpdateFlowState::Done && (a matches UpdateAction::ReportCheckError {
                    error: e,
                    show_dialog,
                } && e@ == error@ && show_dialog == !silent),
                (UpdateFlowState::Checking, UpdateEvent::NoUpdate) => s2 == UpdateFlowState::Done
                    && (a matches UpdateAction::ReportNoUpdate { show_dialog } && show_dialog
                    == !silent),
                (UpdateFlowState::Checking, UpdateEvent::UpdateFound { version }) => s2
                    == UpdateFlowState::AwaitingInstallDecision && (
                a matches UpdateAction::PromptInstall { version: v } && v@ == version@),
                (UpdateFlowState::AwaitingInstallDecision, UpdateEvent::InstallAccepted) => s2
                    == UpdateFlowState::Installing && a is StartInstall,
                (UpdateFlowState::AwaitingInstallDecision, UpdateEvent::InstallDeclined) => s2
                    == UpdateFlowState::Done && a is DoNothing,
                (UpdateFlowState::Installing, UpdateEvent::InstallFailed { error }) => s2
                    == UpdateFlowState::Done && (a matches UpdateAction::ReportInstallError {
                    error: e,
                } && e@ == error@),
                (UpdateFlowState::Installing, UpdateEvent::InstallSucceeded) => s2
                    == UpdateFlowState::AwaitingRestartDecision && a is PromptRestart,
                (UpdateFlowState::AwaitingRestartDecision, UpdateEvent::RestartAccepted) => s2
                    == UpdateFlowState::Done && a is Restart,
                (UpdateFlowState::AwaitingRestartDecision, UpdateEvent::RestartDeclined) => s2
                    == UpdateFlowState::Done && a is DoNothing,
                _ => s2 == state && a is DoNothing,
            }
        }),
{
    match (state, event) {
        (UpdateFlowState::Checking, UpdateEvent::UpdaterUnavailable { error }) => (
            UpdateFlowState::Done,
            UpdateAction::ReportCheckError { error, show_dialog: !silent },
        ),
        (UpdateFlowState::Checking, UpdateEvent::CheckFailed { error }) => (
            UpdateFlowState::Done,
            UpdateAction::ReportCheckError { error, show_dialog: !silent },
        ),
        (UpdateFlowState::Checking, UpdateEvent::NoUpdate) => (
            UpdateFlowState::Done,
            UpdateAction::ReportNoUpdate { show_dialog: !silent },
        ),
        (UpdateFlowState::Checking, UpdateEvent::UpdateFound { version }) => (
            UpdateFlowState::AwaitingInstallDecision,
            UpdateAction::PromptInstall { version },
        ),
        (UpdateFlowState::AwaitingInstallDecision, UpdateEvent::InstallAccepted) => (
            UpdateFlowState::Installing,
            UpdateAction::StartInstall,
        ),
        (UpdateFlowState::AwaitingInstallDecision, UpdateEvent::InstallDeclined) => (
            UpdateFlowState::Done,
            UpdateAction::DoNothing,
        ),
        (UpdateFlowState::Installing, UpdateEvent::InstallFailed { error }) => (
            UpdateFlowState::Done,
            UpdateAction::ReportInstallError { error },
        ),
        (UpdateFlowState::Installing, UpdateEvent::InstallSucceeded) => (
            UpdateFlowState::AwaitingRestartDecision,
            UpdateAction::PromptRestart,
        ),
        (UpdateFlowState::AwaitingRestartDecision, UpdateEvent::RestartAccepted) => (
            UpdateFlowState::Done,
            UpdateAction::Restart,
        ),
        (UpdateFlowState::AwaitingRestartDecision, UpdateEvent::RestartDeclined) => (
            UpdateFlowState::Done,
            UpdateAction::DoNothing,
        ),
        (s, _) => (s, UpdateAction::DoNothing),
    }
}

} // verus!
