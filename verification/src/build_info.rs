//! The build identity that tools record alongside their artifacts.

use crate::contracts::BuildInfo;
use crate::text::owned;
use vstd::prelude::*;

verus! {

/// The version of this build.
pub const BUILD_VERSION: &'static str = "0.1.0";
/// What a build records for a part of its identity it was not given.
pub const UNKNOWN: &'static str = "unknown";

/// The build identity of the named tool: this build's version, and
/// `unknown` for the revision, target triple and profile, which this build
/// is not given.
pub fn build_info(name: &str) -> (info: BuildInfo)
    ensures
        info.name@ == name@,
        info.version@ == BUILD_VERSION@,
        info.git_sha@ == UNKNOWN@,
        info.target_triple@ == UNKNOWN@,
        info.build_profile@ == UNKNOWN@,
{
    BuildInfo {
        name: owned(name),
        version: owned(BUILD_VERSION),
        git_sha: owned(UNKNOWN),
        target_triple: owned(UNKNOWN),
        build_profile: owned(UNKNOWN),
    }
}

} // verus!
