//! The library's error taxonomy.

use vstd::prelude::*;

verus! {

/// Why an operation failed.
#[derive(Debug, Clone, Copy, PartialEq, Eq, Structural)]
pub enum Error {
    /// A received frame could not be decoded.
    Malformed,
    /// The link to the hub is gone.
    Disconnected,
    /// The device on the addressed port does not implement the command.
    Unsupported,
    /// No record exists for the requested port or device kind.
    NotFound,
}

} // verus!
