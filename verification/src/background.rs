//! Decisions taken when background work reports back: the session id once the
//! database is unlocked, and what a passkey change ends with.

use vstd::prelude::*;
use crate::status::StatusLevel;
use crate::focus::Focus;
use crate::text::{push_str, string_of};

verus! {

/// The id the session is saved under once the database is open: the id it was given
/// while waiting for the passkey, else `fresh` (a newly generated one).
pub fn session_id_after_unlock(pending_id: Option<String>, fresh: String) -> (r: String)
    ensures
        r@ == (match pending_id { Some(p) => p@, None => fresh@ }),
{
    match pending_id {
        Some(p) => p,
        None => fresh,
    }
}

/// How a passkey change ended.
#[derive(Debug, Clone, PartialEq, Eq)]
pub struct PasskeyChangeReport {
    /// The database now uses the new passkey: the application quits so that it is
    /// started again with it.
    pub changed: bool,
    /// What the status line says, if anything.
    pub message: Option<(String, StatusLevel)>,
    /// Where the keyboard goes afterwards.
    pub focus: Focus,
}

/// The report of a passkey change. The steps run in order and each only when the one
/// before succeeded: backups are rewrapped (`rewrap_error` when that failed), then the
/// database is rekeyed (`rekey_error` when that failed), then the backup journal is
/// cleaned up after a rekey or rolled back after a failed one (`followup_error` when
/// that failed). Without a database nothing is tried.
pub open spec fn passkey_change_spec(
    has_db: bool,
    rewrap_error: Option<Seq<char>>,
    rekey_error: Option<Seq<char>>,
    followup_error: Option<Seq<char>>,
) -> (bool, Option<(Seq<char>, StatusLevel)>) {
    if !has_db {
        (false, Some(("No database available for rekey."@, StatusLevel::Error)))
    } else if rewrap_error is Some {
        (false, Some(("Failed to rewrap backups: "@ + rewrap_error->Some_0, StatusLevel::Error)))
    } else if rekey_error is None {
        (true, match followup_error {
            Some(f) => Some((
                "Passkey changed, but failed to clean up backup journal: "@ + f,
                StatusLevel::Warning,
            )),
            None => None,
        })
    } else {
        (false, Some((
            match followup_error {
                Some(rb) => "Failed to change passkey: "@ + rekey_error->Some_0
                    + "; additionally, backup rollback failed: "@ + rb,
                None => "Failed to change passkey: "@ + rekey_error->Some_0,
            },
            StatusLevel::Error,
        )))
    }
}

pub open spec fn report_view(r: PasskeyChangeReport) -> (bool, Option<(Seq<char>, StatusLevel)>) {
    (r.changed, match r.message { Some((m, l)) => Some((m@, l)), None => None })
}

pub open spec fn opt_view(o: Option<String>) -> Option<Seq<char>> {
    match o { Some(s) => Some(s@), None => None }
}

/// The report of a passkey change (see `passkey_change_spec`); whatever it says, the
/// keyboard goes back to the input.
pub fn passkey_change_report(
    has_db: bool,
    rewrap_error: Option<String>,
    rekey_error: Option<String>,
    followup_error: Option<String>,
) -> (r: PasskeyChangeReport)
    ensures
        report_view(r) == passkey_change_spec(
            has_db,
            opt_view(rewrap_error),
            opt_view(rekey_error),
            opt_view(followup_error),
        ),
        r.focus == Focus::Input,
{
    if !has_db {
        return PasskeyChangeReport {
            changed: false,
            message: Some((String::from_str("No database available for rekey."), StatusLevel::Error)),
            focus: Focus::Input,
        };
    }
    if let Some(e) = rewrap_error {
        let mut v: Vec<char> = Vec::new();
        push_str(&mut v, "Failed to rewrap backups: ");
        push_str(&mut v, e.as_str());
        return PasskeyChangeReport { changed: false, message: Some((string_of(v.as_slice()), StatusLevel::Error)), focus: Focus::Input };
    }
    match rekey_error {
        None => {
            let message = match followup_error {
                Some(f) => {
                    let mut v: Vec<char> = Vec::new();
                    push_str(&mut v, "Passkey changed, but failed to clean up backup journal: ");
                    push_str(&mut v, f.as_str());
                    Some((string_of(v.as_slice()), StatusLevel::Warning))
                },
                None => None,
            };
            PasskeyChangeReport { changed: true, message, focus: Focus::Input }
        },
        Some(e) => {
            let mut v: Vec<char> = Vec::new();
            push_str(&mut v, "Failed to change passkey: ");
            push_str(&mut v, e.as_str());
            if let Some(rb) = followup_error {
                push_str(&mut v, "; additionally, backup rollback failed: ");
                push_str(&mut v, rb.as_str());
            }
            PasskeyChangeReport { changed: false, message: Some((string_of(v.as_slice()), StatusLevel::Error)), focus: Focus::Input }
        },
    }
}


/// What the passkey dialog shows after background work failed: "Failed: " and the
/// error for a failed key derivation or passkey change, "Failed to open database: "
/// and the error when the derived key does not open the database.
pub fn passkey_dialog_error(opening_database: bool, err: &str) -> (r: String)
    ensures
        r@ == (if opening_database { "Failed to open database: "@ } else { "Failed: "@ }) + err@,
{
    let mut v: Vec<char> = Vec::new();
    if opening_database {
        push_str(&mut v, "Failed to open database: ");
    } else {
        push_str(&mut v, "Failed: ");
    }
    push_str(&mut v, err);
    string_of(v.as_slice())
}

} // verus!
