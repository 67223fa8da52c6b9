//! Command-pipeline core for a family of esoteric-language toolchain
//! subcommands: syntax resolution, option handling, stage composition,
//! and a uniform error and exit-code policy.
use vstd::prelude::*;

pub mod command;
pub mod options;
pub mod optparse;
pub mod policy;
pub mod router;
pub mod util;

verus! {

/// The toolchain's version string: major, minor and tiny release
/// numbers, with a pre-release marker.
pub open spec fn version_spec() -> Seq<char> {
    "0.1.0-pre"@
}

/// Renders the toolchain version shown by the top-level `version` subcommand.
pub fn version() -> (r: String)
    ensures
        r@ == version_spec(),
{
    String::from_str("0.1.0-pre")
}

} // verus!
