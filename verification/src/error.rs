//! The single way a profile can turn a request down.

use vstd::prelude::*;

verus! {

/// Why a request was refused.
#[derive(Debug, Clone, PartialEq, Eq)]
pub enum NightfallError {
    /// The profile cannot serve the request; the text says why.
    ProfileNotSupported(String),
}

impl NightfallError {
    /// The explanation carried by the error.
    pub open spec fn reason(self) -> Seq<char> {
        match self {
            NightfallError::ProfileNotSupported(text) => text@,
        }
    }

    /// The explanation carried by the error, for diagnostics.
    pub fn message(&self) -> (r: String)
        ensures
            r@ == self.reason(),
    {
        match self {
            NightfallError::ProfileNotSupported(text) => text.clone(),
        }
    }
}

} // verus!
