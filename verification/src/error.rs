//! The error kinds that the parameter queries report.

use vstd::prelude::*;

verus! {

/// Failure of a parameter query.
#[derive(Clone, Copy, Debug, PartialEq, Eq, Structural)]
pub enum SvsmError {
    /// The data supplied by the firmware or loader is inconsistent.
    Firmware,
}

} // verus!
