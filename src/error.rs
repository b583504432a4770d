use vstd::prelude::*;

verus! {

/// Why a bus operation did not complete.
#[derive(Debug, PartialEq, Eq)]
pub enum BusError {
    /// The notification could not be delivered to one or more windows; the
    /// table was still updated. Holds the channel's own description.
    EmitFailure(String),
    /// The lock over the table is unusable because another thread panicked
    /// while holding it.
    LockError,
    /// The wall clock could not be read as milliseconds since the Unix epoch.
    ClockError,
}

} // verus!
