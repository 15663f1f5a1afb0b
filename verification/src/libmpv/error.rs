//! The engine-level error taxonomy.
//!
//! Each variant names the failed operation and carries the property, option
//! or command it concerns together with the engine's own error message, so
//! nothing about the cause is lost on the way to the caller.

use vstd::prelude::*;

verus! {

/// An error of the engine binding itself: handle creation, initialization,
/// option and property calls, command execution and value conversion.
#[derive(Debug, Clone, PartialEq, Eq)]
pub enum Error {
    /// The native library returned no primary handle.
    Create,
    /// The native library returned no client sub-handle for event delivery.
    ClientCreation,
    /// The native initialization call failed; carries the engine's message.
    Initialize(String),
    /// Setting an option failed; carries the option name and the engine's message.
    SetOption { name: String, message: String },
    /// Running a command failed; carries the command name and the engine's message.
    Command { name: String, message: String },
    /// Writing a property failed; carries the property name and the engine's message.
    SetProperty { name: String, message: String },
    /// Reading a property failed; carries the property name and the engine's message.
    GetProperty { name: String, message: String },
    /// Translating a native event failed; carries the event kind and a message.
    Event { event_id: String, message: String },
    /// Registering a property observer failed.
    PropertyObserve { name: String, message: String },
    /// A string argument cannot cross the boundary (it holds an interior NUL byte).
    InvalidCString(String),
    /// A caller-supplied argument was not usable.
    InvalidParameter(String),
    /// A native node record carried an unknown or malformed tag.
    NodeConversion(String),
    /// A native property record carried an unknown tag.
    PropertyConversion(String),
    /// The operation or format is not representable over the native boundary.
    Unsupported(String),
}

impl Error {
    /// The rendered text of an error.
    pub open spec fn spec_message(self) -> Seq<char> {
        match self {
            Error::Create => "Failed to create mpv handle"@,
            Error::ClientCreation => "Failed to create mpv client handle"@,
            Error::Initialize(s) => "Failed to initialize mpv core: "@ + s@,
            Error::SetOption { name, message } => "Failed to set option '"@ + name@ + "': "@
                + message@,
            Error::Command { name, message } => "Failed to execute command '"@ + name@ + "': "@
                + message@,
            Error::SetProperty { name, message } => "Failed to set property '"@ + name@ + "': "@
                + message@,
            Error::GetProperty { name, message } => "Failed to get property '"@ + name@ + "': "@
                + message@,
            Error::Event { event_id, message } => "Error processing event (id: "@ + event_id@
                + "): "@ + message@,
            Error::PropertyObserve { name, message } => "Failed to observe property '"@ + name@
                + "': "@ + message@,
            Error::InvalidCString(_) => "Invalid C-style string provided"@,
            Error::InvalidParameter(s) => "Invalid parameter: "@ + s@,
            Error::NodeConversion(s) => "Failed to convert node data: "@ + s@,
            Error::PropertyConversion(s) => "Failed to convert property data: "@ + s@,
            Error::Unsupported(s) => "This operation or format is not yet supported: "@ + s@,
        }
    }

    /// Renders the error as the text a caller logs or displays.
    pub fn message(&self) -> (r: String)
        ensures
            r@ == self.spec_message(),
    {
        proof {
            reveal_strlit("Failed to create mpv handle");
            reveal_strlit("Failed to create mpv client handle");
            reveal_strlit("Failed to initialize mpv core: ");
            reveal_strlit("Failed to set option '");
            reveal_strlit("Failed to execute command '");
            reveal_strlit("Failed to set property '");
            reveal_strlit("Failed to get property '");
            reveal_strlit("Error processing event (id: ");
            reveal_strlit("): ");
            reveal_strlit("Failed to observe property '");
            reveal_strlit("Invalid C-style string provided");
            reveal_strlit("Invalid parameter: ");
            reveal_strlit("Failed to convert node data: ");
            reveal_strlit("Failed to convert property data: ");
            reveal_strlit("This operation or format is not yet supported: ");
            reveal_strlit("': ");
        }
        match self {
            Error::Create => "Failed to create mpv handle".to_owned(),
            Error::ClientCreation => "Failed to create mpv client handle".to_owned(),
            Error::Initialize(s) => {
                let mut m = "Failed to initialize mpv core: ".to_owned();
                m.append(s.as_str());
                m
            },
            Error::SetOption { name, message } => {
                let mut m = "Failed to set option '".to_owned();
                m.append(name.as_str());
                m.append("': ");
                m.append(message.as_str());
                m
            },
            Error::Command { name, message } => {
                let mut m = "Failed to execute command '".to_owned();
                m.append(name.as_str());
                m.append("': ");
                m.append(message.as_str());
                m
            },
            Error::SetProperty { name, message } => {
                let mut m = "Failed to set property '".to_owned();
                m.append(name.as_str());
                m.append("': ");
                m.append(message.as_str());
                m
            },
            Error::GetProperty { name, message } => {
                let mut m = "Failed to get property '".to_owned();
                m.append(name.as_str());
                m.append("': ");
                m.append(message.as_str());
                m
            },
            Error::Event { event_id, message } => {
                let mut m = "Error processing event (id: ".to_owned();
                m.append(event_id.as_str());
                m.append("): ");
                m.append(message.as_str());
                m
            },
            Error::PropertyObserve { name, message } => {
                let mut m = "Failed to observe property '".to_owned();
                m.append(name.as_str());
                m.append("': ");
                m.append(message.as_str());
                m
            },
            Error::InvalidCString(_) => "Invalid C-style string provided".to_owned(),
            Error::InvalidParameter(s) => {
                let mut m = "Invalid parameter: ".to_owned();
                m.append(s.as_str());
                m
            },
            Error::NodeConversion(s) => {
                let mut m = "Failed to convert node data: ".to_owned();
                m.append(s.as_str());
                m
            },
            Error::PropertyConversion(s) => {
                let mut m = "Failed to convert property data: ".to_owned();
                m.append(s.as_str());
                m
            },
            Error::Unsupported(s) => {
                let mut m = "This operation or format is not yet supported: ".to_owned();
                m.append(s.as_str());
                m
            },
        }
    }
}

} // verus!
