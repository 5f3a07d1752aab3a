use vstd::prelude::*;

use semver::Error as SemverError;
use semver::Version as SemVer;

use crate::error::Error;

verus! {

#[verifier::external_type_specification]
#[verifier::external_body]
pub struct ExSemVer(SemVer);

#[verifier::external_type_specification]
#[verifier::external_body]
pub struct ExSemverError(SemverError);

/// Whether `semver::Version::parse` accepts the text as a semantic version.
pub uninterp spec fn semver_accepts(text: Seq<char>) -> bool;

/// Relies on `semver::Version::parse`: it succeeds exactly on the texts it
/// accepts as semantic versions, and it rejects the empty text.
#[verifier::external_body]
fn parse_semver(text: &str) -> (r: Result<SemVer, SemverError>)
    ensures
        r is Ok <==> semver_accepts(text@),
        text@.len() == 0 ==> r is Err,
{
    SemVer::parse(text)
}

/// A package's currently installed version, already parsed.
#[derive(Debug)]
pub struct Version {
    inner: SemVer,
}

impl Version {
    /// Parses a semantic version; a text that is not one gives
    /// `Error::InvalidVersion`.
    pub fn parse(text: &str) -> (r: Result<Version, Error>)
        ensures
            r is Ok <==> semver_accepts(text@),
            r is Err ==> r == Err::<Version, Error>(Error::InvalidVersion),
            text@.len() == 0 ==> r is Err,
    {
        match parse_semver(text) {
            Ok(inner) => Ok(Version { inner }),
            Err(_) => Err(Error::InvalidVersion),
        }
    }
}

} // verus!
