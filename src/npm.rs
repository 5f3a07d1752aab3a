use vstd::prelude::*;

use crate::error::Error;
use crate::package::Package;
use crate::version::Version;

verus! {

/// Where the public npm registry is reached.
pub const REGISTRY_URL: &'static str = "https://registry.npmjs.org";

/// The path segment that names a package's latest release.
pub open spec fn latest_segment() -> Seq<char> {
    seq!['/', 'l', 'a', 't', 'e', 's', 't']
}

/// The address of a package's latest-release record under `base`:
/// `{base}/{package}/latest`.
pub open spec fn latest_url_of(base: Seq<char>, package: Seq<char>) -> Seq<char> {
    base + seq!['/'] + package + latest_segment()
}

/// What the registry's latest-release record holds: the version string.
#[derive(Debug, Clone)]
pub struct Response {
    pub version: String,
}

impl Response {
    pub fn new(version: &str) -> (r: Response)
        ensures
            r.version@ == version@,
    {
        Response { version: String::from_str(version) }
    }
}

/// How the transport's answer becomes the adapter's result: a decoded
/// record gives its version, and every failure is passed on as it came.
pub open spec fn latest_outcome(answer: Result<Response, Error>) -> Result<Option<String>, Error> {
    match answer {
        Ok(resp) => Ok(Some(resp.version)),
        Err(e) => Err(e),
    }
}

/// What a lookup through transport `get` may return for `package`: the
/// transport was asked for the package's latest-release address under
/// `REGISTRY_URL`, and its answer became the result by `latest_outcome`.
/// The current version takes no part.
pub open spec fn npm_lookup<F: Fn(&str) -> Result<Response, Error>>(
    get: F,
    package: Seq<char>,
    current_version: Version,
    r: Result<Option<String>, Error>,
) -> bool {
    exists|url: &str, answer: Result<Response, Error>|
        url@ == latest_url_of(REGISTRY_URL@, package) && #[trigger] get.ensures((url,), answer)
            && r == latest_outcome(answer)
}

/// A transport whose answer is determined by the address it is asked for.
pub open spec fn answers_by_address<F: Fn(&str) -> Result<Response, Error>>(get: F) -> bool {
    forall|u1: &str, u2: &str, a1: Result<Response, Error>, a2: Result<Response, Error>|
        u1@ == u2@ && #[trigger] get.ensures((u1,), a1) && #[trigger] get.ensures((u2,), a2)
            ==> a1 == a2
}

/// The npm package registry.
pub struct Npm;

impl Npm {
    /// The registry's name.
    pub const NAME: &'static str = "npm";

    /// Turns the transport's answer into the lookup's result: a decoded
    /// record gives `Ok(Some(version))`, and any failure is returned as it is.
    pub fn latest_from_response(answer: Result<Response, Error>) -> (r: Result<Option<String>, Error>)
        ensures
            r == latest_outcome(answer),
    {
        match answer {
            Ok(resp) => Ok(Some(resp.version)),
            Err(e) => Err(e),
        }
    }

    /// Asks the registry, through `get`, for the latest version of `pkg`.
    ///
    /// `get` sends one GET request to the address it is given and decodes the
    /// body; it is called exactly once, with `{REGISTRY_URL}/{pkg}/latest`.
    pub fn get_latest_version<F>(get: F, pkg: &Package, current_version: &Version) -> (r: Result<
        Option<String>,
        Error,
    >) where F: Fn(&str) -> Result<Response, Error>
        requires
            forall|url: &str| get.requires((url,)),
        ensures
            npm_lookup(get, pkg@, *current_version, r),
    {
        let base = get_base_url();
        let url = latest_url(base.as_str(), pkg);
        let target = url.as_str();
        let answer = get(target);
        Self::latest_from_response(answer)
    }
}

/// The base address that requests are sent to.
pub fn get_base_url() -> (r: String)
    ensures
        r@ == REGISTRY_URL@,
{
    String::from_str(REGISTRY_URL)
}

/// Builds `{base}/{package}/latest`, with the package name as it is.
pub fn latest_url(base: &str, pkg: &Package) -> (r: String)
    ensures
        r@ == latest_url_of(base@, pkg@),
{
    let mut url = String::from_str(base);
    url.append("/");
    url.append(pkg.name());
    url.append("/latest");
    proof {
        reveal_strlit("/");
        reveal_strlit("/latest");
        assert(url@ =~= latest_url_of(base@, pkg@));
    }
    url
}

/// The address asked for is `{base}/{package}/latest` and nothing more: it
/// starts with the base, then one `/`, then the package name as given, and
/// ends with the `/latest` segment.
pub proof fn lemma_latest_url_shape(base: Seq<char>, package: Seq<char>)
    requires
        package.len() > 0,
    ensures
        ({
            let url = latest_url_of(base, package);
            let b = base.len() as int;
            let p = package.len() as int;
            &&& url.len() == b + p + 8
            &&& url.subrange(0, b) == base
            &&& url[b] == '/'
            &&& url.subrange(b + 1, b + 1 + p) == package
            &&& url.subrange(b + 1 + p, b + p + 8) == latest_segment()
        }),
{
    let url = latest_url_of(base, package);
    let b = base.len() as int;
    let p = package.len() as int;
    assert(url.subrange(0, b) =~= base);
    assert(url.subrange(b + 1, b + 1 + p) =~= package);
    assert(url.subrange(b + 1 + p, b + p + 8) =~= latest_segment());
}

/// The current version never changes the outcome: with a transport whose
/// answer depends only on the address, two lookups of the same package give
/// the same result whatever current versions they were given.
pub proof fn lemma_current_version_is_inert<F: Fn(&str) -> Result<Response, Error>>(
    get: F,
    pkg: Package,
    v1: Version,
    v2: Version,
    r1: Result<Option<String>, Error>,
    r2: Result<Option<String>, Error>,
)
    requires
        answers_by_address(get),
        npm_lookup(get, pkg@, v1, r1),
        npm_lookup(get, pkg@, v2, r2),
    ensures
        r1 == r2,
{
    let (u1, a1) = choose|u: &str, a: Result<Response, Error>|
        u@ == latest_url_of(REGISTRY_URL@, pkg@) && #[trigger] get.ensures((u,), a)
            && r1 == latest_outcome(a);
    let (u2, a2) = choose|u: &str, a: Result<Response, Error>|
        u@ == latest_url_of(REGISTRY_URL@, pkg@) && #[trigger] get.ensures((u,), a)
            && r2 == latest_outcome(a);
    assert(a1 == a2);
}

/// Asking twice is the same as asking once: against a transport whose
/// answer has not changed, repeating the same lookup gives the same result,
/// since the adapter keeps nothing between calls.
pub proof fn lemma_repeated_lookup_agrees<F: Fn(&str) -> Result<Response, Error>>(
    get: F,
    pkg: Package,
    current_version: Version,
    first: Result<Option<String>, Error>,
    second: Result<Option<String>, Error>,
)
    requires
        answers_by_address(get),
        npm_lookup(get, pkg@, current_version, first),
        npm_lookup(get, pkg@, current_version, second),
    ensures
        first == second,
{
    lemma_current_version_is_inert(get, pkg, current_version, current_version, first, second);
}

/// No answer turns into a silent absence: a decoded record always gives a
/// version, and a failed request or a body that did not decode gives the
/// same error back.
pub proof fn lemma_failures_are_errors(answer: Result<Response, Error>)
    ensures
        latest_outcome(answer) != Ok::<Option<String>, Error>(None),
        answer is Err ==> latest_outcome(answer) == Err::<Option<String>, Error>(answer->Err_0),
{
}

} // verus!
