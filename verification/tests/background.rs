use libllm_tui::background::{passkey_change_report, passkey_dialog_error, session_id_after_unlock, PasskeyChangeReport};
use libllm_tui::status::StatusLevel;
use libllm_tui::focus::Focus;

#[test]
fn unlocked_session_keeps_its_pending_id() {
    assert_eq!(session_id_after_unlock(Some("abc".to_owned()), "new".to_owned()), "abc");
    assert_eq!(session_id_after_unlock(None, "new".to_owned()), "new");
}

#[test]
fn passkey_change_reports() {
    assert_eq!(
        passkey_change_report(false, None, None, None),
        PasskeyChangeReport { changed: false, message: Some(("No database available for rekey.".to_owned(), StatusLevel::Error)) , focus: Focus::Input }
    );
    assert_eq!(
        passkey_change_report(true, Some("io".to_owned()), None, None),
        PasskeyChangeReport { changed: false, message: Some(("Failed to rewrap backups: io".to_owned(), StatusLevel::Error)) , focus: Focus::Input }
    );
    assert_eq!(passkey_change_report(true, None, None, None), PasskeyChangeReport { changed: true, message: None, focus: Focus::Input });
    assert_eq!(
        passkey_change_report(true, None, None, Some("j".to_owned())),
        PasskeyChangeReport {
            changed: true,
            message: Some(("Passkey changed, but failed to clean up backup journal: j".to_owned(), StatusLevel::Warning)),
            focus: Focus::Input,
        }
    );
    assert_eq!(
        passkey_change_report(true, None, Some("e".to_owned()), None),
        PasskeyChangeReport { changed: false, message: Some(("Failed to change passkey: e".to_owned(), StatusLevel::Error)) , focus: Focus::Input }
    );
    assert_eq!(
        passkey_change_report(true, None, Some("e".to_owned()), Some("rb".to_owned())),
        PasskeyChangeReport {
            changed: false,
            message: Some(("Failed to change passkey: e; additionally, backup rollback failed: rb".to_owned(), StatusLevel::Error)),
            focus: Focus::Input,
        }
    );
}

#[test]
fn passkey_dialog_errors() {
    assert_eq!(passkey_dialog_error(false, "bad key"), "Failed: bad key");
    assert_eq!(passkey_dialog_error(true, "locked"), "Failed to open database: locked");
}
