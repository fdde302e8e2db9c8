//! The errors that platform and scanner operations report.
use vstd::prelude::*;

use crate::text::{concat2, concat3, decimal_string, spec_decimal, has_prefix};

verus! {

/// `std::io::Error`, carried inside [`PortlyError::IoError`].
#[verifier::external_type_specification]
#[verifier::external_body]
pub struct ExIoError(std::io::Error);

/// `<std::io::Error as Display>::fmt`, through `to_string`. Nothing is
/// stated of the text: it comes from the operating system.
#[verifier::external_body]
fn io_error_text(e: &std::io::Error) -> (r: String) {
    e.to_string()
}

/// Errors of port and process operations.
#[derive(Debug)]
pub enum PortlyError {
    PortNotFound { port: u16, suggestion: Option<String> },
    ProcessNotFound { pid: u32, suggestion: Option<String> },
    PlatformError(String),
    IoError(std::io::Error),
}

/// Crate-wide result type.
pub type Result<T> = std::result::Result<T, PortlyError>;

impl PortlyError {
    /// Returns the suggestion for this error, if available.
    pub fn suggestion(&self) -> (r: Option<&str>)
        ensures
            match self {
                PortlyError::PortNotFound { suggestion, .. } | PortlyError::ProcessNotFound {
                    suggestion,
                    ..
                } => match suggestion {
                    Some(s) => r matches Some(t) && t@ == s@,
                    None => r is None,
                },
                _ => r is None,
            },
    {
        match self {
            PortlyError::PortNotFound { suggestion, .. } | PortlyError::ProcessNotFound {
                suggestion,
                ..
            } => match suggestion {
                Some(s) => Some(s.as_str()),
                None => None,
            },
            PortlyError::PlatformError(_) | PortlyError::IoError(_) => None,
        }
    }

    /// `m` is the message of this error: the port or process that was not
    /// found, the platform's explanation, or the I/O error's own text
    /// after "IO error: ".
    pub open spec fn is_message(&self, m: Seq<char>) -> bool {
        match self {
            PortlyError::PortNotFound { port, .. } => m == "Port "@ + spec_decimal(*port as nat)
                + " is not in use"@,
            PortlyError::ProcessNotFound { pid, .. } => m == "Process "@ + spec_decimal(
                *pid as nat,
            ) + " not found"@,
            PortlyError::PlatformError(s) => m == "Platform operation failed: "@ + s@,
            PortlyError::IoError(_) => has_prefix(m, "IO error: "@),
        }
    }

    /// The error message (what the error displays).
    pub fn message(&self) -> (r: String)
        ensures
            self.is_message(r@),
    {
        match self {
            PortlyError::PortNotFound { port, .. } => {
                let wide: u64 = *port as u64;
                let n = decimal_string(wide);
                assert(wide as nat == *port as nat);
                concat3("Port ", n.as_str(), " is not in use")
            },
            PortlyError::ProcessNotFound { pid, .. } => {
                let n = decimal_string(*pid as u64);
                concat3("Process ", n.as_str(), " not found")
            },
            PortlyError::PlatformError(s) => concat2("Platform operation failed: ", s.as_str()),
            PortlyError::IoError(e) => {
                let t = io_error_text(e);
                let r = concat2("IO error: ", t.as_str());
                assert(r@.take("IO error: "@.len() as int) =~= "IO error: "@);
                r
            },
        }
    }
}

} // verus!
