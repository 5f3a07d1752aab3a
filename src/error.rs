use vstd::prelude::*;

verus! {

/// Why a lookup failed.
///
/// The transport reports the first three kinds; the adapter passes them on
/// unchanged.
#[derive(Debug, Clone, PartialEq, Eq)]
pub enum Error {
    /// The registry could not be reached, or the request timed out.
    Network(String),
    /// The registry answered with a status other than success.
    Status(u16),
    /// The body did not decode into the expected `{"version": string}` shape.
    Decode(String),
    /// A version string is not a valid semantic version.
    InvalidVersion,
}

} // verus!
