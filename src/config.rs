//! The transport client's configuration profiles.
use vstd::prelude::*;
use vstd::string::StringExecFns;

verus! {

/// Nanoseconds in a second.
pub const NANOS_PER_SEC: u32 = 1_000_000_000;

/// A span of time as whole seconds and the nanoseconds below them.
#[derive(Clone, Copy, Debug, PartialEq, Eq, Structural)]
pub struct Timeout {
    pub secs: u64,
    pub nanos: u32,
}

impl Timeout {
    /// The nanosecond part stays below one second.
    pub open spec fn wf(&self) -> bool {
        self.nanos < NANOS_PER_SEC
    }

    /// A span of whole seconds.
    pub fn from_secs(secs: u64) -> (t: Timeout)
        ensures
            t.wf(),
            t.secs == secs,
            t.nanos == 0,
    {
        Timeout { secs, nanos: 0 }
    }
}

/// Timeout of the profile used for lightweight version checks, in seconds.
pub const VERSION_CHECK_TIMEOUT_SECS: u64 = 3;

/// Timeout of the general-purpose profile, in seconds.
pub const DEFAULT_TIMEOUT_SECS: u64 = 30;

/// How a transport client is built: one timeout applied to connecting and
/// to the whole request, a fixed user agent, and compression negotiation.
#[derive(Clone, Debug)]
pub struct ClientConfig {
    pub timeout: Timeout,
    pub connect_timeout: Timeout,
    pub user_agent: String,
    pub gzip: bool,
}

/// The user agent for a product version: `mise/<version>`.
pub open spec fn user_agent_for(version: Seq<char>) -> Seq<char> {
    "mise/"@ + version
}

impl ClientConfig {
    /// The profile with `timeout` as both timeouts.
    pub fn new(timeout: Timeout, version: &str) -> (c: ClientConfig)
        ensures
            c.timeout == timeout,
            c.connect_timeout == timeout,
            c.user_agent@ == user_agent_for(version@),
            c.gzip,
    {
        let mut user_agent = String::from_str("mise/");
        user_agent.append(version);
        ClientConfig { timeout, connect_timeout: timeout, user_agent, gzip: true }
    }

    /// The short-timeout profile for version checks.
    pub fn version_check(version: &str) -> (c: ClientConfig)
        ensures
            c.timeout == (Timeout { secs: VERSION_CHECK_TIMEOUT_SECS, nanos: 0 }),
            c.connect_timeout == c.timeout,
            c.user_agent@ == user_agent_for(version@),
            c.gzip,
    {
        ClientConfig::new(Timeout::from_secs(VERSION_CHECK_TIMEOUT_SECS), version)
    }

    /// The general-purpose profile.
    pub fn general(version: &str) -> (c: ClientConfig)
        ensures
            c.timeout == (Timeout { secs: DEFAULT_TIMEOUT_SECS, nanos: 0 }),
            c.connect_timeout == c.timeout,
            c.user_agent@ == user_agent_for(version@),
            c.gzip,
    {
        ClientConfig::new(Timeout::from_secs(DEFAULT_TIMEOUT_SECS), version)
    }
}

} // verus!
