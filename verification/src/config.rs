//! The settings that every discovery document is built from.

use vstd::prelude::*;

verus! {

/// Process-wide settings, fixed at start-up and passed to each handler.
#[derive(Debug, PartialEq, Eq)]
pub struct Config {
    /// The URL under which this server is reached, without a trailing slash.
    pub base_url: String,
    /// The domain for which this server answers `acct:` queries.
    pub domain: String,
    /// The identifier of the running build.
    pub revision: String,
}

impl Config {
    /// Settings made of the three given texts.
    pub fn new(base_url: &str, domain: &str, revision: &str) -> (config: Config)
        ensures
            config.base_url@ == base_url@,
            config.domain@ == domain@,
            config.revision@ == revision@,
    {
        Config {
            base_url: base_url.to_owned(),
            domain: domain.to_owned(),
            revision: revision.to_owned(),
        }
    }
}

} // verus!
