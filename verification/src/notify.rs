//! System-notification rules: which requests are acceptable, how a severity
//! tags the title, and how a permission state reads as a label. Displaying
//! the notification is platform work left to the caller.

use vstd::prelude::*;
use crate::text::{ascii_lowercase, to_lower, trim_str, trimmed};

verus! {

/// A validated notification, ready to display.
#[derive(Debug)]
pub struct PreparedNotification {
    /// The trimmed title, tagged with the severity where one applies.
    pub title: String,
    /// The trimmed body.
    pub body: String,
}

/// State of the platform's notification permission, as the supervisor's
/// caller reads it. Anything unrecognized, a read failure included, counts
/// as not yet decided.
#[derive(Clone, Copy, PartialEq, Eq, Structural, Debug)]
pub enum PermissionKind {
    /// Permission granted.
    Granted,
    /// Permission denied.
    Denied,
    /// The user has not decided yet.
    Prompt,
    /// The state could not be read.
    Unknown,
}

/// The requested severity, trimmed and lower-cased; an absent severity is
/// informational.
pub open spec fn severity_of(severity: Option<Seq<char>>) -> Seq<char> {
    match severity {
        Some(s) => to_lower(trimmed(s)),
        None => to_lower(trimmed("info"@)),
    }
}

/// The recognized severities.
pub open spec fn severity_is_valid(sev: Seq<char>) -> bool {
    sev == "info"@ || sev == "warning"@ || sev == "error"@ || sev == "success"@
}

/// Why a notification request is rejected, if it is: title and body must be
/// non-empty after trimming and within their length limits, and the severity
/// must be recognized.
pub open spec fn notification_error(
    title: Seq<char>,
    body: Seq<char>,
    severity: Option<Seq<char>>,
) -> Option<Seq<char>> {
    let t = trimmed(title);
    let b = trimmed(body);
    if t.len() == 0 {
        Some("title is required"@)
    } else if b.len() == 0 {
        Some("body is required"@)
    } else if t.len() > 120 {
        Some("title is too long"@)
    } else if b.len() > 1000 {
        Some("body is too long"@)
    } else if !severity_is_valid(severity_of(severity)) {
        Some("severity must be one of: info, warning, error, success"@)
    } else {
        None
    }
}

/// The displayed title: the trimmed title, prefixed with a tag for every
/// severity but the informational one.
pub open spec fn tagged_title(title: Seq<char>, severity: Option<Seq<char>>) -> Seq<char> {
    let t = trimmed(title);
    let sev = severity_of(severity);
    if sev == "error"@ {
        "[ERROR] "@ + t
    } else if sev == "warning"@ {
        "[WARNING] "@ + t
    } else if sev == "success"@ {
        "[SUCCESS] "@ + t
    } else {
        t
    }
}

/// Validate a notification request and tag its title by severity; the body
/// is trimmed and kept as it is.
pub fn prepare_notification(title: &str, body: &str, severity: &Option<String>) -> (r: Result<
    PreparedNotification,
    String,
>)
    ensures
        match r {
            Ok(p) => {
                let sev = match severity {
                    Some(s) => Some(s@),
                    None => None,
                };
                &&& notification_error(title@, body@, sev) is None
                &&& p.title@ == tagged_title(title@, sev)
                &&& p.body@ == trimmed(body@)
            },
            Err(e) => notification_error(
                title@,
                body@,
                match severity {
                    Some(s) => Some(s@),
                    None => None,
                },
            ) == Some(e@),
        },
{
    let t = trim_str(title);
    let b = trim_str(body);
    if t.unicode_len() == 0 {
        return Err(String::from_str("title is required"));
    }
    if b.unicode_len() == 0 {
        return Err(String::from_str("body is required"));
    }
    if t.unicode_len() > 120 {
        return Err(String::from_str("title is too long"));
    }
    if b.unicode_len() > 1000 {
        return Err(String::from_str("body is too long"));
    }
    let sev = match severity {
        Some(s) => ascii_lowercase(trim_str(s.as_str())),
        None => ascii_lowercase(trim_str("info")),
    };
    let is_error = sev == String::from_str("error");
    let is_warning = sev == String::from_str("warning");
    let is_success = sev == String::from_str("success");
    let is_info = sev == String::from_str("info");
    if !(is_info || is_warning || is_error || is_success) {
        return Err(String::from_str("severity must be one of: info, warning, error, success"));
    }
    let tagged = if is_error {
        String::from_str("[ERROR] ").concat(t)
    } else if is_warning {
        String::from_str("[WARNING] ").concat(t)
    } else if is_success {
        String::from_str("[SUCCESS] ").concat(t)
    } else {
        String::from_str(t)
    };
    Ok(PreparedNotification { title: tagged, body: String::from_str(b) })
}

/// The label a permission state reads as: granted, denied, or the default
/// prompt state for anything undecided or unreadable.
pub fn permission_label(p: PermissionKind) -> (s: &'static str)
    ensures
        p is Granted ==> s@ == "granted"@,
        p is Denied ==> s@ == "denied"@,
        p is Prompt || p is Unknown ==> s@ == "default"@,
{
    match p {
        PermissionKind::Granted => "granted",
        PermissionKind::Denied => "denied",
        PermissionKind::Prompt => "default",
        PermissionKind::Unknown => "default",
    }
}

} // verus!
