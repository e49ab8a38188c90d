//! Command bridge: the one request the presentation layer may issue into
//! the native core.

use vstd::prelude::*;
use vstd::string::*;

verus! {

/// The build-time version identifier of the application.
pub open spec fn spec_app_version() -> Seq<char> {
    "1.0.0"@
}

/// Returns the build-time version string.
///
/// Pure and deterministic: it takes no input, has no side effect, and no
/// failure mode; the result is always the version constant embedded at
/// build time.
pub fn get_app_version() -> (version: String)
    ensures
        version@ == spec_app_version(),
{
    String::from_str("1.0.0")
}

/// Any two values the command bridge hands out within one build are
/// identical: the command is pinned to the version constant.
pub proof fn lemma_app_version_pure(first: Seq<char>, second: Seq<char>)
    requires
        first == spec_app_version(),
        second == spec_app_version(),
    ensures
        first == second,
{
}

} // verus!
