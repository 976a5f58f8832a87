//! Why a registration is turned down.

use vstd::prelude::*;

verus! {

/// The reasons for which a registration is refused. None of them leaves a
/// trace in the registry.
#[derive(Clone, Copy, Debug, PartialEq, Eq, Structural)]
pub enum RegisterError {
    /// The target handle names no object of the host.
    InvalidTarget,
    /// The method path has no final segment to call.
    InvalidMethodName,
    /// The universe id does not fit the 15 bits of a port address.
    InvalidUniverseId,
    /// The start channel is 0, or the range leaves the universe's channels.
    InvalidChannel,
    /// The footprint is 0.
    InvalidFootprint,
}

impl RegisterError {
    /// The sentence that goes with this error.
    pub open spec fn message_text(self) -> Seq<char> {
        match self {
            RegisterError::InvalidTarget => "Invalid target passed to dmx_register"@,
            RegisterError::InvalidMethodName => "Invalid proc path passed to dmx_register"@,
            RegisterError::InvalidUniverseId => "Invalid universe ID passed to dmx_register"@,
            RegisterError::InvalidChannel => "Start channel must be greater than 0 and end by 512"@,
            RegisterError::InvalidFootprint => "Footprint must be greater than 0"@,
        }
    }

    /// The error as a sentence for the host.
    pub fn message(&self) -> (text: String)
        ensures
            text@ == self.message_text(),
    {
        match self {
            RegisterError::InvalidTarget => "Invalid target passed to dmx_register".to_owned(),
            RegisterError::InvalidMethodName => "Invalid proc path passed to dmx_register".to_owned(),
            RegisterError::InvalidUniverseId => "Invalid universe ID passed to dmx_register".to_owned(),
            RegisterError::InvalidChannel => "Start channel must be greater than 0 and end by 512".to_owned(),
            RegisterError::InvalidFootprint => "Footprint must be greater than 0".to_owned(),
        }
    }
}

} // verus!
