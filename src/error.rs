use vstd::prelude::*;

verus! {

/// The ways in which a request or its response can fail.
#[derive(Clone, Copy, Debug, PartialEq, Eq, Structural)]
pub enum Error {
    /// The request could not be turned into the host's native form.
    TranslationError,
    /// The host reported a status outside the valid range.
    InvalidStatus,
    /// A header name or value could not be represented as text.
    InvalidHeaderEncoding,
    /// The host's fetch or one of its body reads failed.
    TransportError,
}

} // verus!
