//! Why frequency discovery can fail.

use vstd::prelude::*;

verus! {

/// The reason why no usable counter frequency could be found.
///
/// Each variant belongs to one step of the discovery; a later step is only
/// reached when the earlier ones passed.
#[derive(Debug, PartialEq, Eq, Structural)]
pub enum Error {
    /// The processor has no cycle counter.
    TscNotSupported,
    /// The counter exists, but its rate changes with the power state.
    InvariantTscNotSupported,
    /// The timing leaf gave a zero ratio, or values that yield no frequency.
    CpuidLeafTscFailed,
    /// The crystal frequency is not reported and the base frequency is zero.
    CpuidLeafFreqFailed,
}

impl Error {
    /// The text that stands for this error: the variant's own name.
    pub open spec fn name(self) -> Seq<char> {
        match self {
            Error::TscNotSupported => "TscNotSupported"@,
            Error::InvariantTscNotSupported => "InvariantTscNotSupported"@,
            Error::CpuidLeafTscFailed => "CpuidLeafTscFailed"@,
            Error::CpuidLeafFreqFailed => "CpuidLeafFreqFailed"@,
        }
    }

    /// Renders the error as text, which is the name of its variant.
    pub fn to_string(&self) -> (s: String)
        ensures
            s@ == self.name(),
    {
        match self {
            Error::TscNotSupported => "TscNotSupported".to_owned(),
            Error::InvariantTscNotSupported => "InvariantTscNotSupported".to_owned(),
            Error::CpuidLeafTscFailed => "CpuidLeafTscFailed".to_owned(),
            Error::CpuidLeafFreqFailed => "CpuidLeafFreqFailed".to_owned(),
        }
    }
}

} // verus!
