//! The ways in which a summary can fail.

use vstd::prelude::*;

verus! {

/// Why a PSBT could not be summarized, or a single input not resolved.
#[derive(Clone, Copy, Debug, PartialEq, Eq, Structural)]
pub enum PsbtError {
    /// The text is not valid base64.
    Encoding,
    /// The bytes are not a structurally valid PSBT.
    Format,
    /// The output spent by the input at this index cannot be determined.
    ResolutionGap { input: usize },
    /// The fee cannot be computed because some input is unresolved.
    IncompleteData,
    /// The outputs are worth more than the resolved inputs.
    InvalidAmount,
    /// The network selector names no known network.
    UnknownNetwork,
}

impl PsbtError {
    /// The text that describes each error.
    pub open spec fn spec_message(self) -> Seq<char> {
        match self {
            PsbtError::Encoding => "input is not valid base64"@,
            PsbtError::Format => "bytes are not a valid PSBT"@,
            PsbtError::ResolutionGap { .. } => "spent output of an input is unknown"@,
            PsbtError::IncompleteData => "fee is unknown: an input is unresolved"@,
            PsbtError::InvalidAmount => "outputs exceed inputs"@,
            PsbtError::UnknownNetwork => "unknown network"@,
        }
    }

    /// A short human-readable description of the error.
    pub fn message(&self) -> (text: String)
        ensures
            text@ == self.spec_message(),
    {
        match self {
            PsbtError::Encoding => "input is not valid base64".to_owned(),
            PsbtError::Format => "bytes are not a valid PSBT".to_owned(),
            PsbtError::ResolutionGap { .. } => "spent output of an input is unknown".to_owned(),
            PsbtError::IncompleteData => "fee is unknown: an input is unresolved".to_owned(),
            PsbtError::InvalidAmount => "outputs exceed inputs".to_owned(),
            PsbtError::UnknownNetwork => "unknown network".to_owned(),
        }
    }
}

} // verus!
