//! System permissions the application needs, and how a request names them.
use vstd::prelude::*;

use crate::text::{append_str, owned, str_eq};

verus! {

/// What a platform offers to check and request its permissions.  Each check
/// answers `"granted"`, `"denied"` or `"not_determined"`.
pub trait PermissionProvider {
    fn check_accessibility(&self) -> String;

    fn check_input_monitoring(&self) -> String;

    fn check_microphone(&self) -> String;

    /// Opens the system settings or shows the permission dialog.
    fn apply_accessibility(&self) -> Result<(), String>;

    fn apply_input_monitoring(&self) -> Result<(), String>;

    fn apply_microphone(&self) -> Result<(), String>;
}

/// The permissions a request can name.
#[derive(Debug, Clone, Copy, PartialEq, Eq, Structural)]
pub enum PermissionKind {
    Accessibility,
    InputMonitoring,
    Microphone,
}

/// The permission a name stands for.
pub open spec fn permission_kind_spec(kind: Seq<char>) -> Option<PermissionKind> {
    if kind == "accessibility"@ {
        Some(PermissionKind::Accessibility)
    } else if kind == "input_monitoring"@ {
        Some(PermissionKind::InputMonitoring)
    } else if kind == "microphone"@ {
        Some(PermissionKind::Microphone)
    } else {
        None
    }
}

/// The permission a name stands for, if any.
pub fn permission_kind(kind: &str) -> (k: Option<PermissionKind>)
    ensures
        k == permission_kind_spec(kind@),
{
    if str_eq(kind, "accessibility") {
        Some(PermissionKind::Accessibility)
    } else if str_eq(kind, "input_monitoring") {
        Some(PermissionKind::InputMonitoring)
    } else if str_eq(kind, "microphone") {
        Some(PermissionKind::Microphone)
    } else {
        None
    }
}

/// The status of the named permission; an unknown name is not determined.
/// What a known permission's status is, the platform says.
pub fn check_permission<P: PermissionProvider>(provider: &P, kind: &str) -> (s: String)
    ensures
        permission_kind_spec(kind@) is None ==> s@ == "not_determined"@,
{
    match permission_kind(kind) {
        Some(PermissionKind::Accessibility) => provider.check_accessibility(),
        Some(PermissionKind::InputMonitoring) => provider.check_input_monitoring(),
        Some(PermissionKind::Microphone) => provider.check_microphone(),
        None => owned("not_determined"),
    }
}

/// Requests the named permission; an unknown name is an error naming it.
/// Whether a known permission's request succeeds, the platform says.
pub fn apply_permission<P: PermissionProvider>(provider: &P, kind: &str) -> (r: Result<(), String>)
    ensures
        permission_kind_spec(kind@) is None ==> (r matches Err(e) && e@ == "Unknown permission kind: "@ + kind@),
{
    match permission_kind(kind) {
        Some(PermissionKind::Accessibility) => provider.apply_accessibility(),
        Some(PermissionKind::InputMonitoring) => provider.apply_input_monitoring(),
        Some(PermissionKind::Microphone) => provider.apply_microphone(),
        None => {
            let mut e = owned("Unknown permission kind: ");
            append_str(&mut e, kind);
            Err(e)
        },
    }
}


/// The status names a check answers.
pub open spec fn granted_or_denied(granted: bool) -> Seq<char> {
    if granted {
        "granted"@
    } else {
        "denied"@
    }
}

/// The permissions of macOS, read from what the system frameworks report.
pub struct MacosPermissions;

/// What requesting a permission on macOS does.
#[derive(Debug, Clone, PartialEq, Eq)]
pub enum MacosRequest {
    /// Shows the system's microphone dialog and waits for the answer.
    MicrophoneDialog,
    /// Opens the system settings at the given pane.
    OpenSettings(String),
}

/// The settings pane of a permission on macOS.
pub open spec fn macos_settings_pane_spec(kind: PermissionKind) -> Seq<char> {
    match kind {
        PermissionKind::Accessibility => "x-apple.systempreferences:com.apple.preference.security?Privacy_Accessibility"@,
        PermissionKind::InputMonitoring => "x-apple.systempreferences:com.apple.preference.security?Privacy_ListenEvent"@,
        PermissionKind::Microphone => "x-apple.systempreferences:com.apple.preference.security?Privacy_Microphone"@,
    }
}

/// The microphone status for an `AVAuthorizationStatus` value.
pub open spec fn macos_microphone_status_spec(authorization: i64) -> Seq<char> {
    if authorization == 3 {
        "granted"@
    } else if authorization == 1 || authorization == 2 {
        "denied"@
    } else {
        "not_determined"@
    }
}

impl MacosPermissions {
    /// Accessibility is granted exactly when the process is trusted.
    pub fn accessibility_status(trusted: bool) -> (s: String)
        ensures
            s@ == granted_or_denied(trusted),
    {
        if trusted {
            owned("granted")
        } else {
            owned("denied")
        }
    }

    /// Input monitoring is granted exactly when the HID access check answers 0.
    pub fn input_monitoring_status(access: u32) -> (s: String)
        ensures
            s@ == granted_or_denied(access == 0),
    {
        if access == 0 {
            owned("granted")
        } else {
            owned("denied")
        }
    }

    /// The microphone is granted when authorized (3), denied when denied (2)
    /// or restricted (1), and not determined otherwise.
    pub fn microphone_status(authorization: i64) -> (s: String)
        ensures
            s@ == macos_microphone_status_spec(authorization),
    {
        if authorization == 3 {
            owned("granted")
        } else if authorization == 1 || authorization == 2 {
            owned("denied")
        } else {
            owned("not_determined")
        }
    }

    /// The settings pane of a permission.
    pub fn settings_pane(kind: PermissionKind) -> (s: String)
        ensures
            s@ == macos_settings_pane_spec(kind),
    {
        match kind {
            PermissionKind::Accessibility => owned(
                "x-apple.systempreferences:com.apple.preference.security?Privacy_Accessibility",
            ),
            PermissionKind::InputMonitoring => owned(
                "x-apple.systempreferences:com.apple.preference.security?Privacy_ListenEvent",
            ),
            PermissionKind::Microphone => owned(
                "x-apple.systempreferences:com.apple.preference.security?Privacy_Microphone",
            ),
        }
    }

    /// What requesting a permission does, given the microphone's current
    /// status: the dialog while the microphone is not determined, else the
    /// permission's settings pane.
    pub fn request(kind: PermissionKind, microphone_status: &str) -> (r: MacosRequest)
        ensures
            kind == PermissionKind::Microphone && microphone_status@ == "not_determined"@
                ==> r == MacosRequest::MicrophoneDialog,
            !(kind == PermissionKind::Microphone && microphone_status@ == "not_determined"@)
                ==> (r matches MacosRequest::OpenSettings(p) && p@ == macos_settings_pane_spec(kind)),
    {
        match kind {
            PermissionKind::Microphone => {
                if str_eq(microphone_status, "not_determined") {
                    MacosRequest::MicrophoneDialog
                } else {
                    MacosRequest::OpenSettings(Self::settings_pane(kind))
                }
            },
            _ => MacosRequest::OpenSettings(Self::settings_pane(kind)),
        }
    }
}

/// The permissions of Windows, which only gates the microphone.
pub struct WindowsPermissions;

/// The settings page a request opens on Windows; input monitoring needs none.
pub open spec fn windows_settings_page_spec(kind: PermissionKind) -> Option<Seq<char>> {
    match kind {
        PermissionKind::Accessibility => Some("ms-settings:easeofaccess"@),
        PermissionKind::InputMonitoring => None,
        PermissionKind::Microphone => Some("ms-settings:privacy-microphone"@),
    }
}

impl WindowsPermissions {
    /// The status of a permission, given whether an input device is present:
    /// accessibility and input monitoring are always granted; the microphone
    /// is granted when there is a default input device, else not determined.
    pub fn status(kind: PermissionKind, has_input_device: bool) -> (s: String)
        ensures
            kind != PermissionKind::Microphone ==> s@ == "granted"@,
            kind == PermissionKind::Microphone ==> s@ == (if has_input_device {
                "granted"@
            } else {
                "not_determined"@
            }),
    {
        match kind {
            PermissionKind::Microphone => {
                if has_input_device {
                    owned("granted")
                } else {
                    owned("not_determined")
                }
            },
            _ => owned("granted"),
        }
    }

    /// The settings page a request opens, if any.
    pub fn settings_page(kind: PermissionKind) -> (p: Option<String>)
        ensures
            match p {
                Some(s) => windows_settings_page_spec(kind) == Some(s@),
                None => windows_settings_page_spec(kind) is None,
            },
    {
        match kind {
            PermissionKind::Accessibility => Some(owned("ms-settings:easeofaccess")),
            PermissionKind::InputMonitoring => None,
            PermissionKind::Microphone => Some(owned("ms-settings:privacy-microphone")),
        }
    }
}

} // verus!
