//! What the command line asks for.

use crate::types::AvailableProviders;
use vstd::prelude::*;

verus! {

#[verifier::external_type_specification]
#[verifier::external_body]
pub struct ExPathBuf(std::path::PathBuf);

/// The arguments of the `get` action.
#[derive(Debug)]
pub struct GetArgs {
    /// A location to look up the weather conditions for.
    pub location: String,
    /// An optional time offset token, such as `h8h` (eight hours ago).
    pub date: Option<String>,
}

/// The actions of the command line.
#[derive(Debug)]
pub enum Action {
    /// Get weather status for a given location.
    Get(GetArgs),
    /// Interactive configuration of a weather provider.
    Configure { provider: AvailableProviders },
    /// Set the default provider to be used later.
    Default { provider: AvailableProviders },
}

/// The whole command line.
#[derive(Debug)]
pub struct Args {
    pub action: Action,
    /// A path for the configuration file, in place of the usual one.
    pub config_path: Option<std::path::PathBuf>,
}

} // verus!
