//! The error taxonomy shared by the printer and gate transports.
//!
//! Every failure is surfaced to the caller as a value that names the
//! failing stage and the device or port involved; nothing in this crate
//! aborts the hosting process.

use vstd::prelude::*;

verus! {

/// A transport failure. Each variant names one failing stage; the String
/// it carries names the device, port or detail involved.
#[derive(Debug, Clone, PartialEq, Eq)]
pub enum TransportError {
    /// The device name itself is invalid (for example, it contains a NUL).
    ConfigurationError(String),
    /// The platform lacks the required OS print subsystem.
    TransportUnavailable,
    /// Opening the device failed (bad name, or device offline).
    OpenFailed(String),
    /// Starting the print job or its page failed.
    JobStartFailed(String),
    /// Writing to the device failed.
    WriteFailed(String),
    /// Enumerating the available devices failed.
    EnumerationFailed(String),
    /// Discovery yielded no serial ports.
    NoDevicesFound,
}

impl TransportError {
    /// The human-readable message for this failure.
    pub open spec fn spec_message(self) -> Seq<char> {
        match self {
            TransportError::ConfigurationError(n) => "Invalid printer name: "@ + n@,
            TransportError::TransportUnavailable => {
                "Windows printer support is only available on Windows"@
            },
            TransportError::OpenFailed(n) => "Failed to open "@ + n@,
            TransportError::JobStartFailed(n) => "Failed to start print job on "@ + n@,
            TransportError::WriteFailed(n) => "Failed to write to "@ + n@,
            TransportError::EnumerationFailed(n) => "Failed to list "@ + n@,
            TransportError::NoDevicesFound => "No serial ports found on this system"@,
        }
    }

    /// Render the failure as its human-readable message.
    pub fn message(&self) -> (m: String)
        ensures
            m@ == self.spec_message(),
    {
        match self {
            TransportError::ConfigurationError(n) => {
                let mut m = String::from_str("Invalid printer name: ");
                m.append(n.as_str());
                m
            },
            TransportError::TransportUnavailable => {
                String::from_str("Windows printer support is only available on Windows")
            },
            TransportError::OpenFailed(n) => {
                let mut m = String::from_str("Failed to open ");
                m.append(n.as_str());
                m
            },
            TransportError::JobStartFailed(n) => {
                let mut m = String::from_str("Failed to start print job on ");
                m.append(n.as_str());
                m
            },
            TransportError::WriteFailed(n) => {
                let mut m = String::from_str("Failed to write to ");
                m.append(n.as_str());
                m
            },
            TransportError::EnumerationFailed(n) => {
                let mut m = String::from_str("Failed to list ");
                m.append(n.as_str());
                m
            },
            TransportError::NoDevicesFound => {
                String::from_str("No serial ports found on this system")
            },
        }
    }
}

} // verus!
