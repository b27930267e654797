//! The errors the display-configuration subsystem can report.

use vstd::prelude::*;

verus! {

/// Everything that can go wrong while querying or reconfiguring displays.
///
/// A rejection carries the native status code the operating system answered
/// with; the successful status is never stored here.
#[derive(Clone, Copy, Debug, PartialEq, Eq, Structural)]
pub enum DisplayError {
    /// An enumeration call failed for a reason other than reaching the end of
    /// the list.
    EnumerationError,
    /// A device reported no currently active settings.
    NotFound,
    /// The current settings carry a rotation code outside the defined values.
    InvalidOrientation,
    /// The system declined one device's staged change.
    ApplyRejected(i32),
    /// The system declined the final combined configuration.
    CommitRejected(i32),
}

} // verus!
