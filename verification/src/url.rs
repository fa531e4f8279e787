//! The URL builder: a pure function from a version tag to the download URL of
//! that version's distribution archive.

use vstd::prelude::*;
use vstd::string::StringExecFns;

verus! {

/// The download URL for a version: a fixed base, the version tag, and the
/// artifact name `node-<version>-<platform>.tar.gz` for the one supported
/// platform.
pub open spec fn url_of(version: Seq<char>) -> Seq<char> {
    "https://nodejs.org/dist/"@ + version + "/node-"@ + version + "-darwin-x64.tar.gz"@
}

/// Builds the download URL for `version`.
pub fn build_url(version: &str) -> (url: String)
    ensures
        url@ == url_of(version@),
{
    let mut url = String::new();
    url.append("https://nodejs.org/dist/");
    url.append(version);
    url.append("/node-");
    url.append(version);
    url.append("-darwin-x64.tar.gz");
    proof {
        assert(url@ =~= url_of(version@));
    }
    url
}

/// Building a URL is a pure function of the version tag: any two URLs built
/// from the same non-empty version are identical.
pub proof fn lemma_build_url_deterministic(version: Seq<char>, url1: Seq<char>, url2: Seq<char>)
    requires
        version.len() > 0,
        url1 == url_of(version),
        url2 == url_of(version),
    ensures
        url1 == url2,
{
}

} // verus!
