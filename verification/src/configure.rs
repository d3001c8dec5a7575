use vstd::prelude::*;
use crate::indexer::IndexerConfig;

verus! {

/// Which settings profile the process runs under.
#[derive(Clone, Copy, PartialEq, Eq, PartialOrd, Ord, Structural, Debug)]
pub enum Profile {
    Test,
    Dev,
    Prod,
}

impl Profile {
    /// The profile's settings-file name.
    pub open spec fn spec_name(self) -> Seq<char> {
        match self {
            Profile::Test => "test"@,
            Profile::Dev => "dev"@,
            Profile::Prod => "prod"@,
        }
    }

    /// The profile's settings-file name.
    pub fn name(&self) -> (r: String)
        ensures
            r@ == self.spec_name(),
    {
        match self {
            Profile::Test => String::from_str("test"),
            Profile::Dev => String::from_str("dev"),
            Profile::Prod => String::from_str("prod"),
        }
    }
}

/// Connection settings for the chain node's RPC endpoint.
#[derive(Clone, Debug)]
pub struct BitcoinConfig {
    pub host: String,
    pub username: String,
    pub password: String,
}

impl BitcoinConfig {
    /// The host the RPC client connects to.
    pub fn get_host(&self) -> (r: String)
        ensures
            r@ == self.host@,
    {
        self.host.clone()
    }
}

/// Everything the process is configured with.  Read from disk and the
/// environment outside this crate, then treated as immutable.
#[derive(Clone, Debug)]
pub struct AppConfig {
    pub profile: Profile,
    pub bitcoin: BitcoinConfig,
    pub indexer: IndexerConfig,
}

} // verus!
