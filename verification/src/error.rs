//! Error taxonomy of the monitoring core.
//!
//! Enumeration-level failures are fatal for the whole refresh cycle;
//! they are the only errors this library ever produces itself.  The
//! remaining variants carry provider, I/O and serialization failures,
//! reported by the outside collaborators as plain text, through the
//! same taxonomy.

use vstd::prelude::*;

use crate::numfmt::dec_digits;
use crate::numfmt::u32_to_dec;

verus! {

/// Errors that can occur during GPU monitoring.
#[derive(Debug)]
pub enum Error {
    /// The provider library could not be initialized.
    NvmlInit(String),
    /// A provider operation failed.
    Nvml(String),
    /// Enumeration succeeded but reported zero devices.
    NoDevices,
    /// A direct lookup used an out-of-range device index.
    InvalidDevice(u32),
    /// Process information could not be read.
    ProcessInfo(String),
    /// An I/O operation failed.
    Io(String),
    /// Serializing a snapshot failed.
    Serialization(String),
}

/// The operator-facing message of each error variant.
pub open spec fn error_message_of(e: &Error) -> Seq<char> {
    match e {
        Error::NvmlInit(m) => "Failed to initialize NVML: "@ + m@,
        Error::Nvml(m) => "NVML error: "@ + m@,
        Error::NoDevices => "No NVIDIA GPU devices found"@,
        Error::InvalidDevice(i) => "Invalid GPU device index: "@ + dec_digits(*i as nat),
        Error::ProcessInfo(m) => "Failed to get process info: "@ + m@,
        Error::Io(m) => "IO error: "@ + m@,
        Error::Serialization(m) => "Serialization error: "@ + m@,
    }
}

impl Error {
    /// The operator-facing message for this error.
    pub fn message(&self) -> (r: String)
        ensures
            r@ == error_message_of(self),
    {
        match self {
            Error::NvmlInit(m) => {
                let mut s = String::from_str("Failed to initialize NVML: ");
                s.append(m.as_str());
                s
            },
            Error::Nvml(m) => {
                let mut s = String::from_str("NVML error: ");
                s.append(m.as_str());
                s
            },
            Error::NoDevices => String::from_str("No NVIDIA GPU devices found"),
            Error::InvalidDevice(i) => {
                let mut s = String::from_str("Invalid GPU device index: ");
                let d = u32_to_dec(*i);
                s.append(d.as_str());
                s
            },
            Error::ProcessInfo(m) => {
                let mut s = String::from_str("Failed to get process info: ");
                s.append(m.as_str());
                s
            },
            Error::Io(m) => {
                let mut s = String::from_str("IO error: ");
                s.append(m.as_str());
                s
            },
            Error::Serialization(m) => {
                let mut s = String::from_str("Serialization error: ");
                s.append(m.as_str());
                s
            },
        }
    }
}

/// Error response handed across an IPC boundary: just the message.
#[derive(Debug)]
pub struct CommandError {
    /// The operator-facing message.
    pub message: String,
}

impl CommandError {
    /// Wraps a monitoring error for the IPC boundary, keeping its
    /// operator-facing message.
    pub fn from_error(err: &Error) -> (r: CommandError)
        ensures
            r.message@ == error_message_of(err),
    {
        CommandError { message: err.message() }
    }
}

} // verus!
