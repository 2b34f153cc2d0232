//! The typed configuration the engine consumes: already-resolved values
//! only. Discovering, reading and decoding configuration files and command
//! line arguments is the surrounding process's business; it assembles the
//! parts and hands them to [`Configuration::new`].

use vstd::prelude::*;

pub mod cloudflare;
pub mod config;
pub mod help;

use cloudflare::Cloudflare;
use config::Config;

verus! {

/// Everything one reconciliation run is given: the provider account and
/// desired entries, the run's tunables, and the optional explicit proxied
/// override that selects proxy-flag reconciliation instead of address
/// reconciliation.
pub struct Configuration {
    pub cloudflare: Cloudflare,
    pub config: Config,
    pub proxied: Option<bool>,
}

impl Configuration {
    /// Assemble a run's configuration from its already-resolved parts.
    pub fn new(cloudflare: Cloudflare, config: Config, proxied: Option<bool>) -> (r: Self)
        ensures
            r.cloudflare == cloudflare,
            r.config == config,
            r.proxied == proxied,
    {
        Self { cloudflare, config, proxied }
    }
}

} // verus!
