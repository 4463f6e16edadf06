//! The recoverable failures of verification, signing, binding and derivation.

use vstd::prelude::*;
use vstd::string::StringExecFns;

verus! {

/// A recoverable failure, with a detail text that names the cause.
#[derive(Debug)]
pub enum TransformError {
    /// A claim hash or an asset binding did not match on verification.
    Verification(String),
    /// The signer refused or failed to sign.
    Signing(String),
    /// An asset binding could not be constructed.
    Binding(String),
    /// The wrapped transform function itself failed; its message is kept.
    C2pa(String),
}

impl TransformError {
    /// The detail text carried by the error.
    pub open spec fn detail(&self) -> Seq<char> {
        match self {
            TransformError::Verification(d) => d@,
            TransformError::Signing(d) => d@,
            TransformError::Binding(d) => d@,
            TransformError::C2pa(d) => d@,
        }
    }

    /// The fixed text that introduces the detail when the error is shown.
    pub open spec fn prefix(&self) -> Seq<char> {
        match self {
            TransformError::Verification(_) => "verification failed: "@,
            TransformError::Signing(_) => "signing failed: "@,
            TransformError::Binding(_) => "binding failed: "@,
            TransformError::C2pa(_) => "C2PA error: "@,
        }
    }

    /// The error as shown to a user: the prefix of its kind, then the detail.
    pub open spec fn rendered(&self) -> Seq<char> {
        self.prefix() + self.detail()
    }

    /// Returns a copy of the detail text.
    pub fn message(&self) -> (text: String)
        ensures
            text@ == self.detail(),
    {
        match self {
            TransformError::Verification(d) => d.clone(),
            TransformError::Signing(d) => d.clone(),
            TransformError::Binding(d) => d.clone(),
            TransformError::C2pa(d) => d.clone(),
        }
    }

    /// Renders the error for display.
    pub fn to_string(&self) -> (text: String)
        ensures
            text@ == self.rendered(),
    {
        match self {
            TransformError::Verification(d) => String::from_str("verification failed: ").concat(
                d.as_str(),
            ),
            TransformError::Signing(d) => String::from_str("signing failed: ").concat(d.as_str()),
            TransformError::Binding(d) => String::from_str("binding failed: ").concat(d.as_str()),
            TransformError::C2pa(d) => String::from_str("C2PA error: ").concat(d.as_str()),
        }
    }
}

} // verus!
