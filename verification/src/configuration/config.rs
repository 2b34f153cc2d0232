use vstd::prelude::*;

pub mod timeout;

use timeout::Timeout;

verus! {

/// A run's tunables: whether a record whose stack is unavailable is hidden
/// by deleting it, and the per-call timeouts for the two remote services.
pub struct Config {
    pub unavailable_hide: bool,
    pub ip_sb_timeout: Timeout,
    pub cloudflare_timeout: Timeout,
}

/// The `unavailable_hide` value a configuration file gets when it names
/// none: records whose stack is absent are hidden.
pub fn unavailable_hide() -> (r: bool)
    ensures
        r == true,
{
    true
}

impl Default for Config {
    /// The configuration a run gets when no file is given at all: nothing
    /// hidden, and the default timeouts.
    fn default() -> (r: Self)
        ensures
            r.unavailable_hide == false,
            r.ip_sb_timeout@ == (300u64, 120u64, 30u64),
            r.cloudflare_timeout@ == (300u64, 120u64, 30u64),
    {
        Self {
            unavailable_hide: false,
            ip_sb_timeout: Timeout::default(),
            cloudflare_timeout: Timeout::default(),
        }
    }
}

} // verus!
