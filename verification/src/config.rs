//! The service's settings and the blocking policy they carry.

use vstd::prelude::*;

verus! {

/// When a listed address or a crawler is turned away.
#[derive(Clone, Copy, Debug, PartialEq, Eq)]
pub struct Policy {
    /// A listed address is blocked when its threat score is at least this.
    pub block_min_threat_score: u8,
    /// A listed address is blocked when its type mask shares a bit with
    /// this one (1 = suspicious, 2 = harvester, 4 = comment spammer).
    pub block_type_mask: u8,
    /// Whether verified search engines pass.
    pub allow_search_engines: bool,
}

/// Everything the service is configured with, fixed at start-up.
#[derive(Clone, Debug)]
pub struct Config {
    /// The http:BL access key that prefixes every query name.
    pub access_key: String,
    /// Where the service listens.
    pub bind_address: String,
    /// The request header that carries the client's address.
    pub client_ip_header: String,
    /// A listed address is blocked when its threat score is at least this.
    pub block_min_threat_score: u8,
    /// A listed address is blocked when its type mask shares a bit with
    /// this one.
    pub block_type_mask: u8,
    /// Whether verified search engines pass.
    pub allow_search_engines: bool,
}

impl Config {
    /// The settings made of the six values that the process environment
    /// gave, each taken as it is.
    pub fn from_env(
        access_key: String,
        bind_address: String,
        client_ip_header: String,
        block_min_threat_score: u8,
        block_type_mask: u8,
        allow_search_engines: bool,
    ) -> (config: Config)
        ensures
            config.access_key@ == access_key@,
            config.bind_address@ == bind_address@,
            config.client_ip_header@ == client_ip_header@,
            config.block_min_threat_score == block_min_threat_score,
            config.block_type_mask == block_type_mask,
            config.allow_search_engines == allow_search_engines,
    {
        Config {
            access_key,
            bind_address,
            client_ip_header,
            block_min_threat_score,
            block_type_mask,
            allow_search_engines,
        }
    }

    /// The policy part of the settings.
    pub open spec fn policy_spec(&self) -> Policy {
        Policy {
            block_min_threat_score: self.block_min_threat_score,
            block_type_mask: self.block_type_mask,
            allow_search_engines: self.allow_search_engines,
        }
    }

    /// The policy part of the settings.
    pub fn policy(&self) -> (p: Policy)
        ensures
            p == self.policy_spec(),
    {
        Policy {
            block_min_threat_score: self.block_min_threat_score,
            block_type_mask: self.block_type_mask,
            allow_search_engines: self.allow_search_engines,
        }
    }
}

} // verus!
