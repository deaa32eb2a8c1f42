//! Why a trust store could not be assembled.

use vstd::prelude::*;

verus! {

/// The whole-source failures. A certificate that does not parse is not one of
/// them: it is counted and skipped.
#[derive(Debug, Clone, Copy, PartialEq, Eq, Structural)]
pub enum LoadError {
    /// Every candidate certificate failed to parse, and there was at least one.
    AllCertificatesInvalid,
    /// The operating system's trust store could not be read at all.
    SourceUnavailable,
}

impl LoadError {
    /// A one-line description for diagnostics.
    pub fn message(&self) -> (r: String)
        ensures
            *self == LoadError::AllCertificatesInvalid ==> r@ == "all certificates are invalid"@,
            *self == LoadError::SourceUnavailable ==> r@ == "native root certificates are unavailable"@,
    {
        match self {
            LoadError::AllCertificatesInvalid => String::from_str("all certificates are invalid"),
            LoadError::SourceUnavailable => String::from_str(
                "native root certificates are unavailable",
            ),
        }
    }
}

} // verus!
