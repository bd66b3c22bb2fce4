//! The failure kinds that emulation can surface.
//!
//! Recoverable-by-design outcomes (an optional capability opted out, a result
//! not yet resolved, allocation exhaustion) are ordinary return values; the
//! variants here abort the triggering call.

use vstd::prelude::*;

verus! {

/// A typed emulation failure.
#[derive(Debug, Clone, Copy, PartialEq, Eq, Structural)]
pub enum EmuError {
    /// A capability the component opted out of was invoked.
    Unsupported,
    /// A qubit id at or above the allocated width was used.
    QubitOutOfBounds,
    /// A gate was applied to a qubit that is not currently allocated.
    QubitNotActive,
    /// A result handle that no emission produced, or whose reference count
    /// has reached zero, was used.
    InvalidResultHandle,
    /// A foreign call failed catastrophically instead of returning a status.
    PluginPanicked,
    /// A foreign call returned a failing status.
    PluginFailed,
    /// A component broke its contract: a duplicate or missing result handle,
    /// a second write to a resolved future, or an empty batch where none was
    /// promised.
    ContractViolation,
    /// A future stayed unresolved after its resolution was forced.
    FutureNeverResolved,
    /// The result stream could not be written.
    IoError,
    /// A plugin rejected its initialization arguments.
    InvalidArguments,
    /// A call was made in a lifecycle state that does not permit it.
    InvalidState,
    /// A replay source ran out of recorded outcomes.
    MeasurementsExhausted,
    /// A shot id beyond the recorded range was started.
    ShotOutOfRange,
    /// A shot ended while recorded outcomes were still unconsumed.
    UnconsumedMeasurements,
}

impl EmuError {
    /// A short diagnostic name for the failure, derived by the host rather
    /// than by any plugin.
    pub fn describe(&self) -> String {
        match self {
            EmuError::Unsupported => "unsupported operation".to_string(),
            EmuError::QubitOutOfBounds => "qubit id out of bounds".to_string(),
            EmuError::QubitNotActive => "qubit is not active".to_string(),
            EmuError::InvalidResultHandle => "invalid result handle".to_string(),
            EmuError::PluginPanicked => "plugin panicked".to_string(),
            EmuError::PluginFailed => "plugin call failed".to_string(),
            EmuError::ContractViolation => "component contract violation".to_string(),
            EmuError::FutureNeverResolved => "future never resolved".to_string(),
            EmuError::IoError => "result stream write failed".to_string(),
            EmuError::InvalidArguments => "invalid plugin arguments".to_string(),
            EmuError::InvalidState => "call not permitted in this state".to_string(),
            EmuError::MeasurementsExhausted => "recorded measurements exhausted".to_string(),
            EmuError::ShotOutOfRange => "shot id beyond recorded range".to_string(),
            EmuError::UnconsumedMeasurements => "recorded measurements left unconsumed".to_string(),
        }
    }
}

} // verus!
