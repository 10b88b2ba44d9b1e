//! The failures of a run.

use vstd::prelude::*;

verus! {

/// Why a run ended without success.
#[derive(Clone, Copy, Debug, PartialEq, Eq, Structural)]
pub enum ProtocolError {
    /// No enumerated endpoint satisfies the device descriptor.
    DeviceNotFound,
    /// The selected endpoint could not be opened.
    DeviceOpenFailed,
    /// A polling rate outside the supported set was requested.
    InvalidParameter,
    /// Opcode and argument bytes do not fit into a report.
    EncodingOverflow,
    /// Writing a report to the device failed.
    TransportError,
}

} // verus!
