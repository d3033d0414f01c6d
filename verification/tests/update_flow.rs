use app_shell::update::CheckOutcome;
use app_shell::update::InstallOutcome;
use app_shell::update::UpdateAction;
use app_shell::update::UpdateEvent;
use app_shell::update::check_failed_message;
use app_shell::update::install_failed_message;
use app_shell::update::installed_message;
use app_shell::update::latest_version_message;
use app_shell::update::update_step;

#[test]
fn up_to_date_reports_latest_version_exactly() {
    let action = update_step(UpdateEvent::CheckCompleted { outcome: CheckOutcome::UpToDate });
    assert_eq!(
        action,
        UpdateAction::Finish { result: Ok("You're already on the latest version!".to_string()) }
    );
}

#[test]
fn found_update_asks_for_the_install() {
    let action = update_step(UpdateEvent::CheckCompleted {
        outcome: CheckOutcome::UpdateFound { version: "3.0.0".to_string() },
    });
    assert_eq!(action, UpdateAction::Install { version: "3.0.0".to_string() });
}

#[test]
fn successful_install_reports_the_new_version() {
    let action = update_step(UpdateEvent::InstallCompleted {
        version: "2.1.0".to_string(),
        outcome: InstallOutcome::Installed,
    });
    match action {
        UpdateAction::Finish { result: Ok(message) } => {
            assert!(message.contains("2.1.0"));
            assert_eq!(message, "Update 2.1.0 installed! Please restart the app.");
        }
        other => panic!("expected a successful finish, got {:?}", other),
    }
}

#[test]
fn failed_check_reports_the_underlying_error() {
    let action = update_step(UpdateEvent::CheckCompleted {
        outcome: CheckOutcome::CheckError { error: "network unreachable".to_string() },
    });
    match action {
        UpdateAction::Finish { result: Err(message) } => {
            assert!(message.contains("network unreachable"));
            assert_eq!(message, "Failed to check for updates: network unreachable");
        }
        other => panic!("expected a failed finish, got {:?}", other),
    }
}

#[test]
fn failed_install_reports_the_underlying_error() {
    let action = update_step(UpdateEvent::InstallCompleted {
        version: "2.1.0".to_string(),
        outcome: InstallOutcome::InstallError { error: "disk full".to_string() },
    });
    match action {
        UpdateAction::Finish { result: Err(message) } => {
            assert!(message.contains("disk full"));
            assert_eq!(message, "Failed to install update: disk full");
        }
        other => panic!("expected a failed finish, got {:?}", other),
    }
}

#[test]
fn unavailable_updater_reports_its_error_unchanged() {
    let action = update_step(UpdateEvent::UpdaterUnavailable {
        error: "updater is not configured".to_string(),
    });
    assert_eq!(
        action,
        UpdateAction::Finish { result: Err("updater is not configured".to_string()) }
    );
}

#[test]
fn message_builders_give_the_exact_texts() {
    assert_eq!(latest_version_message(), "You're already on the latest version!");
    assert_eq!(installed_message("9.9"), "Update 9.9 installed! Please restart the app.");
    assert_eq!(check_failed_message("timed out"), "Failed to check for updates: timed out");
    assert_eq!(install_failed_message("bad signature"), "Failed to install update: bad signature");
}

#[test]
fn empty_version_and_error_texts_still_frame_correctly() {
    assert_eq!(installed_message(""), "Update  installed! Please restart the app.");
    assert_eq!(check_failed_message(""), "Failed to check for updates: ");
    let action = update_step(UpdateEvent::UpdaterUnavailable { error: String::new() });
    assert_eq!(action, UpdateAction::Finish { result: Err(String::new()) });
}
