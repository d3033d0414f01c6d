//! The update-check handler's decisions.
//!
//! The handler runs a short, strictly sequential flow: locate the updater,
//! ask it whether a newer version exists, and, when one is found, download
//! and install it. Each of those steps is outside work that only the host
//! runtime can perform; what this module holds is every decision between
//! them. The driver reports each step's outcome as an [`UpdateEvent`] and
//! [`update_step`] answers with the next [`UpdateAction`]: either install
//! the found version, or finish with the exact message the front end is
//! shown. Every failure becomes a message embedding the underlying error
//! text; none is retried, none escapes.

use vstd::prelude::*;
use vstd::string::StringExecFns;

verus! {

/// What the updater reported when asked whether a newer version exists.
#[derive(Clone, PartialEq, Eq, Debug)]
pub enum CheckOutcome {
    /// A newer version exists; `version` is its version string.
    UpdateFound { version: String },
    /// The running application is already the newest version.
    UpToDate,
    /// The check itself failed; `error` is the underlying error text.
    CheckError { error: String },
}

/// How downloading and installing a found update ended.
#[derive(Clone, PartialEq, Eq, Debug)]
pub enum InstallOutcome {
    /// The new version is installed; a restart will run it.
    Installed,
    /// The download or install failed; `error` is the underlying error text.
    InstallError { error: String },
}

/// The outcome of one step of outside work, reported by the driver.
#[derive(Clone, PartialEq, Eq, Debug)]
pub enum UpdateEvent {
    /// The host could not produce an updater handle; `error` is the
    /// underlying error text.
    UpdaterUnavailable { error: String },
    /// The updater answered the version check.
    CheckCompleted { outcome: CheckOutcome },
    /// Downloading and installing version `version` finished.
    InstallCompleted { version: String, outcome: InstallOutcome },
}

/// What the driver must do next after reporting an event.
#[derive(PartialEq, Eq, Debug)]
pub enum UpdateAction {
    /// Download and install the found version, then report how it went
    /// as an [`UpdateEvent::InstallCompleted`].
    Install { version: String },
    /// The flow is over; hand `result` to the front end.
    Finish { result: Result<String, String> },
}

/// Mathematical model of a [`CheckOutcome`]: the same variants over
/// sequences of characters.
pub enum CheckOutcomeModel {
    UpdateFound { version: Seq<char> },
    UpToDate,
    CheckError { error: Seq<char> },
}

/// Mathematical model of an [`InstallOutcome`].
pub enum InstallOutcomeModel {
    Installed,
    InstallError { error: Seq<char> },
}

/// Mathematical model of an [`UpdateEvent`].
pub enum UpdateEventModel {
    UpdaterUnavailable { error: Seq<char> },
    CheckCompleted { outcome: CheckOutcomeModel },
    InstallCompleted { version: Seq<char>, outcome: InstallOutcomeModel },
}

/// Mathematical model of an [`UpdateAction`].
pub enum UpdateActionModel {
    Install { version: Seq<char> },
    Finish { result: Result<Seq<char>, Seq<char>> },
}

impl View for CheckOutcome {
    type V = CheckOutcomeModel;

    open spec fn view(&self) -> CheckOutcomeModel {
        match self {
            CheckOutcome::UpdateFound { version } => CheckOutcomeModel::UpdateFound {
                version: version@,
            },
            CheckOutcome::UpToDate => CheckOutcomeModel::UpToDate,
            CheckOutcome::CheckError { error } => CheckOutcomeModel::CheckError { error: error@ },
        }
    }
}

impl View for InstallOutcome {
    type V = InstallOutcomeModel;

    open spec fn view(&self) -> InstallOutcomeModel {
        match self {
            InstallOutcome::Installed => InstallOutcomeModel::Installed,
            InstallOutcome::InstallError { error } => InstallOutcomeModel::InstallError {
                error: error@,
            },
        }
    }
}

impl View for UpdateEvent {
    type V = UpdateEventModel;

    open spec fn view(&self) -> UpdateEventModel {
        match self {
            UpdateEvent::UpdaterUnavailable { error } => UpdateEventModel::UpdaterUnavailable {
                error: error@,
            },
            UpdateEvent::CheckCompleted { outcome } => UpdateEventModel::CheckCompleted {
                outcome: outcome@,
            },
            UpdateEvent::InstallCompleted { version, outcome } => {
                UpdateEventModel::InstallCompleted { version: version@, outcome: outcome@ }
            },
        }
    }
}

impl View for UpdateAction {
    type V = UpdateActionModel;

    open spec fn view(&self) -> UpdateActionModel {
        match self {
            UpdateAction::Install { version } => UpdateActionModel::Install { version: version@ },
            UpdateAction::Finish { result } => UpdateActionModel::Finish {
                result: match result {
                    Ok(message) => Ok(message@),
                    Err(message) => Err(message@),
                },
            },
        }
    }
}

/// The exact text reported when no newer version exists.
pub open spec fn latest_version_text() -> Seq<char> {
    "You're already on the latest version!"@
}

/// The exact text reported after version `version` was installed.
pub open spec fn installed_text(version: Seq<char>) -> Seq<char> {
    "Update "@ + version + " installed! Please restart the app."@
}

/// The exact text reported when the version check failed with `error`.
pub open spec fn check_failed_text(error: Seq<char>) -> Seq<char> {
    "Failed to check for updates: "@ + error
}

/// The exact text reported when the install failed with `error`.
pub open spec fn install_failed_text(error: Seq<char>) -> Seq<char> {
    "Failed to install update: "@ + error
}

/// The decision the flow takes on each event. An unavailable updater ends
/// the flow with its error text unchanged; a completed check either asks
/// for the install or ends with the fixed up-to-date message or the check
/// failure message; a completed install ends with the installed message or
/// the install failure message.
pub open spec fn step_model(event: UpdateEventModel) -> UpdateActionModel {
    match event {
        UpdateEventModel::UpdaterUnavailable { error } => UpdateActionModel::Finish {
            result: Err(error),
        },
        UpdateEventModel::CheckCompleted { outcome } => match outcome {
            CheckOutcomeModel::UpdateFound { version } => UpdateActionModel::Install { version },
            CheckOutcomeModel::UpToDate => UpdateActionModel::Finish {
                result: Ok(latest_version_text()),
            },
            CheckOutcomeModel::CheckError { error } => UpdateActionModel::Finish {
                result: Err(check_failed_text(error)),
            },
        },
        UpdateEventModel::InstallCompleted { version, outcome } => match outcome {
            InstallOutcomeModel::Installed => UpdateActionModel::Finish {
                result: Ok(installed_text(version)),
            },
            InstallOutcomeModel::InstallError { error } => UpdateActionModel::Finish {
                result: Err(install_failed_text(error)),
            },
        },
    }
}

/// Whether `text` occurs contiguously inside `message`.
pub open spec fn message_embeds(message: Seq<char>, text: Seq<char>) -> bool {
    exists|i: int|
        0 <= i && i + text.len() <= message.len() && #[trigger] message.subrange(
            i,
            i + text.len(),
        ) == text
}

/// The underlying error text of a failing event, if the event is a failure.
pub open spec fn event_error(event: UpdateEventModel) -> Option<Seq<char>> {
    match event {
        UpdateEventModel::UpdaterUnavailable { error } => Some(error),
        UpdateEventModel::CheckCompleted {
            outcome: CheckOutcomeModel::CheckError { error },
        } => Some(error),
        UpdateEventModel::InstallCompleted {
            outcome: InstallOutcomeModel::InstallError { error },
            ..
        } => Some(error),
        _ => None,
    }
}

/// Whichever step fails, the flow finishes at once with an error answer, and
/// that answer's text contains the underlying error text.
pub proof fn lemma_failures_embed_their_error(event: UpdateEventModel, error: Seq<char>)
    requires
        event_error(event) == Some(error),
    ensures
        (step_model(event) matches UpdateActionModel::Finish { result } && result matches Err(
            message,
        ) && message_embeds(message, error)),
{
    match event {
        UpdateEventModel::UpdaterUnavailable { .. } => {
            assert(error.subrange(0, 0 + error.len() as int) =~= error);
        },
        UpdateEventModel::CheckCompleted { .. } => {
            let prefix = "Failed to check for updates: "@;
            assert(check_failed_text(error).subrange(
                prefix.len() as int,
                prefix.len() + error.len() as int,
            ) =~= error);
        },
        UpdateEventModel::InstallCompleted { .. } => {
            let prefix = "Failed to install update: "@;
            assert(install_failed_text(error).subrange(
                prefix.len() as int,
                prefix.len() + error.len() as int,
            ) =~= error);
        },
    }
}

/// A successful install always finishes with a successful answer whose text
/// contains the version that was installed.
pub proof fn lemma_install_report_embeds_version(version: Seq<char>)
    ensures
        (step_model(
            UpdateEventModel::InstallCompleted {
                version,
                outcome: InstallOutcomeModel::Installed,
            },
        ) matches UpdateActionModel::Finish { result } && result matches Ok(message)
            && message_embeds(message, version)),
{
    let prefix = "Update "@;
    assert(installed_text(version).subrange(prefix.len() as int, prefix.len() + version.len() as int)
        =~= version);
}

/// Builds the up-to-date message, character for character.
pub fn latest_version_message() -> (r: String)
    ensures
        r@ == latest_version_text(),
{
    "You're already on the latest version!".to_owned()
}

/// Builds the installed message for `version`, character for character.
pub fn installed_message(version: &str) -> (r: String)
    ensures
        r@ == installed_text(version@),
{
    "Update ".to_owned().concat(version).concat(" installed! Please restart the app.")
}

/// Builds the check-failure message for `error`, character for character.
pub fn check_failed_message(error: &str) -> (r: String)
    ensures
        r@ == check_failed_text(error@),
{
    "Failed to check for updates: ".to_owned().concat(error)
}

/// Builds the install-failure message for `error`, character for character.
pub fn install_failed_message(error: &str) -> (r: String)
    ensures
        r@ == install_failed_text(error@),
{
    "Failed to install update: ".to_owned().concat(error)
}

/// Takes one step of the update flow: from the reported event to the next
/// action, exactly as [`step_model`] describes. In particular, when the
/// check reports no update the flow finishes with exactly the up-to-date
/// message; when an install succeeds it finishes with a message carrying
/// the installed version; and every failure finishes with a message
/// carrying the underlying error text.
pub fn update_step(event: UpdateEvent) -> (action: UpdateAction)
    ensures
        action@ == step_model(event@),
{
    match event {
        UpdateEvent::UpdaterUnavailable { error } => UpdateAction::Finish { result: Err(error) },
        UpdateEvent::CheckCompleted { outcome } => match outcome {
            CheckOutcome::UpdateFound { version } => UpdateAction::Install { version },
            CheckOutcome::UpToDate => UpdateAction::Finish {
                result: Ok(latest_version_message()),
            },
            CheckOutcome::CheckError { error } => UpdateAction::Finish {
                result: Err(check_failed_message(error.as_str())),
            },
        },
        UpdateEvent::InstallCompleted { version, outcome } => match outcome {
            InstallOutcome::Installed => UpdateAction::Finish {
                result: Ok(installed_message(version.as_str())),
            },
            InstallOutcome::InstallError { error } => UpdateAction::Finish {
                result: Err(install_failed_message(error.as_str())),
            },
        },
    }
}

} // verus!
