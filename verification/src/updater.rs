//! The self-update flow: a linear state machine from the update
//! check through the user prompt and installation to the restart.
//! The host performs the outside work (the remote check, the modal
//! dialogs, the install, the restart) and feeds each result back as
//! an event; every decision — which dialog to show, with which text,
//! and whether to install or restart — is taken here.

use vstd::prelude::*;

verus! {

use vstd::string::*;
use crate::text::truncate_chars;

/// Most characters of the release notes shown in the update prompt.
pub const NOTES_PREVIEW_CHARS: usize = 200;

/// An available remote version: its identifier and optional
/// human-readable release notes.
#[derive(Debug)]
pub struct UpdateInfo {
    pub version: String,
    pub body: Option<String>,
}

/// What the remote update check reported.
#[derive(Debug)]
pub enum CheckOutcome {
    /// No newer version is available.
    NoUpdate,
    /// A newer version is available.
    UpdateFound(UpdateInfo),
    /// The check itself failed (for example, a network failure).
    CheckFailed(String),
}

/// Where the flow stands while it waits for the host to report the
/// result of the outside step it asked for.
#[derive(Debug)]
pub enum FlowState {
    /// Waiting for the remote update check to complete.
    AwaitingCheck,
    /// Waiting for the user's answer to the update prompt.
    AwaitingDecision(UpdateInfo),
    /// Waiting for the download-and-install step to complete.
    AwaitingInstall(UpdateInfo),
    /// The flow has ended for this run; no further action follows.
    Finished,
}

/// One completed outside step, reported back by the host.
#[derive(Debug)]
pub enum FlowEvent {
    /// The remote update check completed with this outcome.
    CheckCompleted(CheckOutcome),
    /// The user answered the update prompt: `true` accepts.
    DecisionMade(bool),
    /// The download-and-install step completed; an error is carried
    /// as its message text.
    InstallCompleted(Result<(), String>),
}

/// Whether a dialog is informational or reports an error.
#[derive(Clone, Copy, PartialEq, Eq, Structural, Debug)]
pub enum DialogKind {
    Info,
    Error,
}

/// A modal two-button confirmation the host must show: `true` comes
/// back when the user picks the accept button.
#[derive(Debug)]
pub struct PromptRequest {
    pub title: String,
    pub message: String,
    pub accept_label: String,
    pub decline_label: String,
}

/// A modal single-button message the host must show.
#[derive(Debug)]
pub struct DialogRequest {
    pub title: String,
    pub message: String,
    pub kind: DialogKind,
}

/// One action the host must perform, in order, after a step of the
/// flow.
#[derive(Debug)]
pub enum UpdateAction {
    /// Write a line to the informational log.
    LogInfo(String),
    /// Write a line to the error log.
    LogError(String),
    /// Show the update confirmation prompt and report the answer
    /// back as a `DecisionMade` event.
    ShowPrompt(PromptRequest),
    /// Download and install the update, then report the result back
    /// as an `InstallCompleted` event.
    DownloadAndInstall,
    /// Show a modal message dialog.
    ShowDialog(DialogRequest),
    /// Restart the application in place.
    Restart,
}

/// The spec-level image of one `UpdateAction`, over character
/// sequences.
pub enum ActionView {
    LogInfo(Seq<char>),
    LogError(Seq<char>),
    ShowPrompt { title: Seq<char>, message: Seq<char>, accept: Seq<char>, decline: Seq<char> },
    DownloadAndInstall,
    ShowDialog { title: Seq<char>, message: Seq<char>, kind: DialogKind },
    Restart,
}

impl View for UpdateAction {
    type V = ActionView;

    open spec fn view(&self) -> ActionView {
        match self {
            UpdateAction::LogInfo(s) => ActionView::LogInfo(s@),
            UpdateAction::LogError(s) => ActionView::LogError(s@),
            UpdateAction::ShowPrompt(p) => ActionView::ShowPrompt {
                title: p.title@,
                message: p.message@,
                accept: p.accept_label@,
                decline: p.decline_label@,
            },
            UpdateAction::DownloadAndInstall => ActionView::DownloadAndInstall,
            UpdateAction::ShowDialog(d) => ActionView::ShowDialog {
                title: d.title@,
                message: d.message@,
                kind: d.kind,
            },
            UpdateAction::Restart => ActionView::Restart,
        }
    }
}

/// The views of a sequence of actions, in order.
pub open spec fn action_views(actions: Seq<UpdateAction>) -> Seq<ActionView> {
    actions.map_values(|a: UpdateAction| a@)
}

/// The release-notes preview: the notes (empty when absent), cut to
/// at most `NOTES_PREVIEW_CHARS` characters.
pub open spec fn spec_notes_preview(body: Option<String>) -> Seq<char> {
    let notes = match body {
        Some(s) => s@,
        None => Seq::<char>::empty(),
    };
    if notes.len() <= NOTES_PREVIEW_CHARS {
        notes
    } else {
        notes.take(NOTES_PREVIEW_CHARS as int)
    }
}

/// The text of the update confirmation prompt: the new version and a
/// preview of its release notes.
pub open spec fn spec_prompt_message(info: UpdateInfo) -> Seq<char> {
    "A new version ("@ + info.version@ + ") is available!\n\n"@ + spec_notes_preview(info.body)
        + "\n\nWould you like to download and install it?"@
}

/// The error-log line after a failed update check.
pub open spec fn spec_check_failed_log(error: Seq<char>) -> Seq<char> {
    "Failed to check for updates: "@ + error
}

/// The error-log line after a failed install.
pub open spec fn spec_install_failed_log(error: Seq<char>) -> Seq<char> {
    "Failed to install update: "@ + error
}

/// The text of the error dialog after a failed install, pointing the
/// user at a manual download as the fallback.
pub open spec fn spec_install_failed_dialog(error: Seq<char>) -> Seq<char> {
    spec_install_failed_log(error) + "\n\nPlease download manually from GitHub."@
}

/// The informational-log line after an accepted update.
pub open spec fn spec_accepted_log(info: UpdateInfo) -> Seq<char> {
    "User accepted update to "@ + info.version@
}

/// The update confirmation prompt for an available version.
pub open spec fn prompt_action(info: UpdateInfo) -> ActionView {
    ActionView::ShowPrompt {
        title: "Update Available"@,
        message: spec_prompt_message(info),
        accept: "Update"@,
        decline: "Later"@,
    }
}

/// The informational dialog shown after a successful install, just
/// before the restart.
pub open spec fn success_dialog_action() -> ActionView {
    ActionView::ShowDialog {
        title: "Update Complete"@,
        message: "Update installed! The app will now restart."@,
        kind: DialogKind::Info,
    }
}

/// The error dialog shown after a failed install.
pub open spec fn failure_dialog_action(error: Seq<char>) -> ActionView {
    ActionView::ShowDialog {
        title: "Update Failed"@,
        message: spec_install_failed_dialog(error),
        kind: DialogKind::Error,
    }
}

/// The state the flow moves to when `event` arrives in `state`.  An
/// event that does not answer the step the state is waiting for
/// leaves the state unchanged.
pub open spec fn spec_step_state(state: FlowState, event: FlowEvent) -> FlowState {
    match (state, event) {
        (FlowState::AwaitingCheck, FlowEvent::CheckCompleted(outcome)) => match outcome {
            CheckOutcome::NoUpdate => FlowState::Finished,
            CheckOutcome::UpdateFound(info) => FlowState::AwaitingDecision(info),
            CheckOutcome::CheckFailed(_) => FlowState::Finished,
        },
        (FlowState::AwaitingDecision(info), FlowEvent::DecisionMade(accepted)) => if accepted {
            FlowState::AwaitingInstall(info)
        } else {
            FlowState::Finished
        },
        (FlowState::AwaitingInstall(_), FlowEvent::InstallCompleted(_)) => FlowState::Finished,
        (s, _) => s,
    }
}

/// The actions the host must perform when `event` arrives in
/// `state`, in order.  An event that does not answer the step the
/// state is waiting for yields no action.
pub open spec fn spec_step_actions(state: FlowState, event: FlowEvent) -> Seq<ActionView> {
    match (state, event) {
        (FlowState::AwaitingCheck, FlowEvent::CheckCompleted(outcome)) => match outcome {
            CheckOutcome::NoUpdate => seq![ActionView::LogInfo("No updates available"@)],
            CheckOutcome::UpdateFound(info) => seq![prompt_action(info)],
            CheckOutcome::CheckFailed(e) => seq![ActionView::LogError(spec_check_failed_log(e@))],
        },
        (FlowState::AwaitingDecision(info), FlowEvent::DecisionMade(accepted)) => if accepted {
            seq![
                ActionView::LogInfo(spec_accepted_log(info)),
                ActionView::DownloadAndInstall,
            ]
        } else {
            Seq::<ActionView>::empty()
        },
        (FlowState::AwaitingInstall(_), FlowEvent::InstallCompleted(result)) => match result {
            Ok(_) => seq![success_dialog_action(), ActionView::Restart],
            Err(e) => seq![
                ActionView::LogError(spec_install_failed_log(e@)),
                failure_dialog_action(e@),
            ],
        },
        (_, _) => Seq::<ActionView>::empty(),
    }
}

/// Builds the text of the update confirmation prompt.
pub fn prompt_message(info: &UpdateInfo) -> (r: String)
    ensures
        r@ == spec_prompt_message(*info),
{
    let notes = match &info.body {
        Some(b) => truncate_chars(b.as_str(), NOTES_PREVIEW_CHARS),
        None => String::new(),
    };
    let r = String::from_str("A new version (").concat(info.version.as_str()).concat(
        ") is available!\n\n",
    ).concat(notes.as_str()).concat("\n\nWould you like to download and install it?");
    proof {
        assert(r@ =~= spec_prompt_message(*info));
    }
    r
}

/// Advances the flow by one completed outside step: returns the next
/// state and the actions the host must now perform, in order,
/// exactly as `spec_step_state` and `spec_step_actions` describe.
pub fn update_flow_step(state: FlowState, event: FlowEvent) -> (r: (FlowState, Vec<UpdateAction>))
    ensures
        r.0 == spec_step_state(state, event),
        action_views(r.1@) == spec_step_actions(state, event),
{
    let ghost gstate = state;
    let ghost gevent = event;
    let mut actions: Vec<UpdateAction> = Vec::new();
    let next: FlowState = match (state, event) {
        (FlowState::AwaitingCheck, FlowEvent::CheckCompleted(outcome)) => match outcome {
            CheckOutcome::NoUpdate => {
                actions.push(UpdateAction::LogInfo(String::from_str("No updates available")));
                FlowState::Finished
            },
            CheckOutcome::UpdateFound(info) => {
                let request = PromptRequest {
                    title: String::from_str("Update Available"),
                    message: prompt_message(&info),
                    accept_label: String::from_str("Update"),
                    decline_label: String::from_str("Later"),
                };
                actions.push(UpdateAction::ShowPrompt(request));
                FlowState::AwaitingDecision(info)
            },
            CheckOutcome::CheckFailed(e) => {
                let line = String::from_str("Failed to check for updates: ").concat(e.as_str());
                actions.push(UpdateAction::LogError(line));
                FlowState::Finished
            },
        },
        (FlowState::AwaitingDecision(info), FlowEvent::DecisionMade(accepted)) => {
            if accepted {
                let line = String::from_str("User accepted update to ").concat(
                    info.version.as_str(),
                );
                actions.push(UpdateAction::LogInfo(line));
                actions.push(UpdateAction::DownloadAndInstall);
                FlowState::AwaitingInstall(info)
            } else {
                FlowState::Finished
            }
        },
        (FlowState::AwaitingInstall(_), FlowEvent::InstallCompleted(result)) => {
            match result {
                Ok(_) => {
                    let dialog = DialogRequest {
                        title: String::from_str("Update Complete"),
                        message: String::from_str("Update installed! The app will now restart."),
                        kind: DialogKind::Info,
                    };
                    actions.push(UpdateAction::ShowDialog(dialog));
                    actions.push(UpdateAction::Restart);
                },
                Err(e) => {
                    let line = String::from_str("Failed to install update: ").concat(e.as_str());
                    actions.push(UpdateAction::LogError(line.clone()));
                    let dialog = DialogRequest {
                        title: String::from_str("Update Failed"),
                        message: line.concat("\n\nPlease download manually from GitHub."),
                        kind: DialogKind::Error,
                    };
                    actions.push(UpdateAction::ShowDialog(dialog));
                },
            }
            FlowState::Finished
        },
        (s, _) => s,
    };
    proof {
        assert(action_views(actions@) =~= spec_step_actions(gstate, gevent));
    }
    (next, actions)
}

/// The full action sequence of one run of the flow, started in
/// `AwaitingCheck`: the actions of every step taken, in order.  The
/// user's answer and the install result are consulted only on the
/// paths that reach them.
pub open spec fn spec_flow_actions(
    outcome: CheckOutcome,
    accepted: bool,
    install: Result<(), String>,
) -> Seq<ActionView> {
    let first = spec_step_actions(FlowState::AwaitingCheck, FlowEvent::CheckCompleted(outcome));
    let after_check = spec_step_state(FlowState::AwaitingCheck, FlowEvent::CheckCompleted(outcome));
    if after_check is AwaitingDecision {
        let second = spec_step_actions(after_check, FlowEvent::DecisionMade(accepted));
        let after_decision = spec_step_state(after_check, FlowEvent::DecisionMade(accepted));
        if after_decision is AwaitingInstall {
            first + second + spec_step_actions(
                after_decision,
                FlowEvent::InstallCompleted(install),
            )
        } else {
            first + second
        }
    } else {
        first
    }
}

/// Every action in `actions` only writes to a log: none shows a
/// prompt or dialog, installs, or restarts.
pub open spec fn only_log_actions(actions: Seq<ActionView>) -> bool {
    forall|i: int|
        0 <= i < actions.len() ==> (#[trigger] actions[i]) is LogInfo || actions[i] is LogError
}

/// No action in `actions` installs or restarts.
pub open spec fn no_install_or_restart(actions: Seq<ActionView>) -> bool {
    forall|i: int|
        0 <= i < actions.len() ==> !((#[trigger] actions[i]) is DownloadAndInstall) && !(
        actions[i] is Restart)
}

/// A run whose check reports no update ends without showing any
/// prompt or dialog and without installing or restarting: its only
/// action is one informational log line.
pub proof fn lemma_no_update_shows_nothing(accepted: bool, install: Result<(), String>)
    ensures
        spec_flow_actions(CheckOutcome::NoUpdate, accepted, install) == seq![
            ActionView::LogInfo("No updates available"@),
        ],
        only_log_actions(spec_flow_actions(CheckOutcome::NoUpdate, accepted, install)),
        no_install_or_restart(spec_flow_actions(CheckOutcome::NoUpdate, accepted, install)),
{
    assert(spec_flow_actions(CheckOutcome::NoUpdate, accepted, install) =~= seq![
        ActionView::LogInfo("No updates available"@),
    ]);
}

/// A run whose check itself fails ends with one error log line and
/// nothing else: the failure is never surfaced as a dialog.
pub proof fn lemma_check_failure_is_silent(
    error: String,
    accepted: bool,
    install: Result<(), String>,
)
    ensures
        spec_flow_actions(CheckOutcome::CheckFailed(error), accepted, install) == seq![
            ActionView::LogError(spec_check_failed_log(error@)),
        ],
        only_log_actions(spec_flow_actions(CheckOutcome::CheckFailed(error), accepted, install)),
{
    assert(spec_flow_actions(CheckOutcome::CheckFailed(error), accepted, install) =~= seq![
        ActionView::LogError(spec_check_failed_log(error@)),
    ]);
}

/// When the user declines an available update, the run shows only
/// the prompt: download-and-install is never invoked, nor a restart.
pub proof fn lemma_decline_never_installs(info: UpdateInfo, install: Result<(), String>)
    ensures
        spec_flow_actions(CheckOutcome::UpdateFound(info), false, install) == seq![
            prompt_action(info),
        ],
        no_install_or_restart(spec_flow_actions(CheckOutcome::UpdateFound(info), false, install)),
{
    assert(spec_flow_actions(CheckOutcome::UpdateFound(info), false, install) =~= seq![
        prompt_action(info),
    ]);
}

/// When the user accepts and the install succeeds, the run restarts
/// exactly once, as its very last action, directly after the success
/// dialog.
pub proof fn lemma_accept_success_restarts_once(info: UpdateInfo)
    ensures
        spec_flow_actions(CheckOutcome::UpdateFound(info), true, Ok(())) == seq![
            prompt_action(info),
            ActionView::LogInfo(spec_accepted_log(info)),
            ActionView::DownloadAndInstall,
            success_dialog_action(),
            ActionView::Restart,
        ],
        spec_flow_actions(CheckOutcome::UpdateFound(info), true, Ok(()))[4] is Restart,
        spec_flow_actions(CheckOutcome::UpdateFound(info), true, Ok(()))[3]
            == success_dialog_action(),
        forall|i: int|
            0 <= i < 4 ==> !((#[trigger] spec_flow_actions(
                CheckOutcome::UpdateFound(info),
                true,
                Ok(()),
            )[i]) is Restart),
{
    assert(spec_flow_actions(CheckOutcome::UpdateFound(info), true, Ok(())) =~= seq![
        prompt_action(info),
        ActionView::LogInfo(spec_accepted_log(info)),
        ActionView::DownloadAndInstall,
        success_dialog_action(),
        ActionView::Restart,
    ]);
}

/// When the user accepts and the install fails, the run ends with an
/// error log line and the error dialog, and never restarts.
pub proof fn lemma_install_failure_no_restart(info: UpdateInfo, error: String)
    ensures
        spec_flow_actions(CheckOutcome::UpdateFound(info), true, Err(error)) == seq![
            prompt_action(info),
            ActionView::LogInfo(spec_accepted_log(info)),
            ActionView::DownloadAndInstall,
            ActionView::LogError(spec_install_failed_log(error@)),
            failure_dialog_action(error@),
        ],
        forall|i: int|
            0 <= i < spec_flow_actions(CheckOutcome::UpdateFound(info), true, Err(error)).len()
                ==> !((#[trigger] spec_flow_actions(
                CheckOutcome::UpdateFound(info),
                true,
                Err(error),
            )[i]) is Restart),
{
    assert(spec_flow_actions(CheckOutcome::UpdateFound(info), true, Err(error)) =~= seq![
        prompt_action(info),
        ActionView::LogInfo(spec_accepted_log(info)),
        ActionView::DownloadAndInstall,
        ActionView::LogError(spec_install_failed_log(error@)),
        failure_dialog_action(error@),
    ]);
}

} // verus!
