//! The session-level error taxonomy.
//!
//! Every error carries the operation, the session key (window label) where
//! one exists, and a human-readable message, so a caller can log or display
//! the failure without re-deriving its cause.

use vstd::prelude::*;

verus! {

/// An error of the session layer: registry lookups, instance creation and
/// teardown, and the command/property call protocol keyed by window label.
#[derive(Debug, Clone, PartialEq, Eq)]
pub enum Error {
    /// No stable integer window id exists on this platform.
    UnsupportedPlatform(String),
    /// No window with the given label exists.
    WindowNotFound(String),
    /// A foreign call misbehaved (for example, returned a null pointer).
    Ffi(String),
    /// Native instance creation returned no handle.
    CreateInstance,
    /// No live instance for the given session key.
    InstanceNotFound(String),
    /// A command call failed; carries the window label and the native message.
    Command { window_label: String, message: String },
    /// A property write failed; carries the window label and the native message.
    SetProperty { window_label: String, message: String },
    /// A property read failed; carries the window label and the native message.
    GetProperty { window_label: String, message: String },
    /// A value was not usable for the named property.
    InvalidPropertyValue { name: String, message: String },
    /// Instance teardown failed.
    Destroy(String),
}

impl Error {
    /// The rendered text of an error.
    pub open spec fn spec_message(self) -> Seq<char> {
        match self {
            Error::UnsupportedPlatform(s) => "Unsupported platform "@ + s@,
            Error::WindowNotFound(s) => "Not found window with label: '"@ + s@ + "'"@,
            Error::Ffi(s) => "FFI error: "@ + s@,
            Error::CreateInstance => "Failed to create mpv instance"@,
            Error::InstanceNotFound(s) => "mpv instance not found: "@ + s@,
            Error::Command { window_label, message } => "Command failed for window '"@
                + window_label@ + "': "@ + message@,
            Error::SetProperty { window_label, message } => "Set Property failed for window '"@
                + window_label@ + "': "@ + message@,
            Error::GetProperty { window_label, message } => "Get Property failed for window '"@
                + window_label@ + "': "@ + message@,
            Error::InvalidPropertyValue { name, message } => "Invalid value for property '"@
                + name@ + "': "@ + message@,
            Error::Destroy(s) => "Failed to destroy mpv instance: "@ + s@,
        }
    }

    /// Renders the error as the text a caller logs or displays; nothing
    /// about the cause has to be re-derived.
    pub fn message(&self) -> (r: String)
        ensures
            r@ == self.spec_message(),
    {
        proof {
            reveal_strlit("Unsupported platform ");
            reveal_strlit("Not found window with label: '");
            reveal_strlit("'");
            reveal_strlit("FFI error: ");
            reveal_strlit("Failed to create mpv instance");
            reveal_strlit("mpv instance not found: ");
            reveal_strlit("Command failed for window '");
            reveal_strlit("Set Property failed for window '");
            reveal_strlit("Get Property failed for window '");
            reveal_strlit("Invalid value for property '");
            reveal_strlit("': ");
            reveal_strlit("Failed to destroy mpv instance: ");
        }
        match self {
            Error::UnsupportedPlatform(s) => {
                let mut m = "Unsupported platform ".to_owned();
                m.append(s.as_str());
                m
            },
            Error::WindowNotFound(s) => {
                let mut m = "Not found window with label: '".to_owned();
                m.append(s.as_str());
                m.append("'");
                m
            },
            Error::Ffi(s) => {
                let mut m = "FFI error: ".to_owned();
                m.append(s.as_str());
                m
            },
            Error::CreateInstance => "Failed to create mpv instance".to_owned(),
            Error::InstanceNotFound(s) => {
                let mut m = "mpv instance not found: ".to_owned();
                m.append(s.as_str());
                m
            },
            Error::Command { window_label, message } => {
                let mut m = "Command failed for window '".to_owned();
                m.append(window_label.as_str());
                m.append("': ");
                m.append(message.as_str());
                m
            },
            Error::SetProperty { window_label, message } => {
                let mut m = "Set Property failed for window '".to_owned();
                m.append(window_label.as_str());
                m.append("': ");
                m.append(message.as_str());
                m
            },
            Error::GetProperty { window_label, message } => {
                let mut m = "Get Property failed for window '".to_owned();
                m.append(window_label.as_str());
                m.append("': ");
                m.append(message.as_str());
                m
            },
            Error::InvalidPropertyValue { name, message } => {
                let mut m = "Invalid value for property '".to_owned();
                m.append(name.as_str());
                m.append("': ");
                m.append(message.as_str());
                m
            },
            Error::Destroy(s) => {
                let mut m = "Failed to destroy mpv instance: ".to_owned();
                m.append(s.as_str());
                m
            },
        }
    }
}

} // verus!
