//! The settings a proxy is started with.

use vstd::prelude::*;
use vstd::string::StringExecFns;
use crate::text::decimal;
use crate::text::push_decimal;

verus! {

/// Everything the configuration names: where to listen and what to route.
#[derive(Debug, Clone)]
pub struct Config {
    /// The listening socket and the rate limit.
    pub proxy: ProxySettings,
    /// The virtual hosts, enabled or not.
    pub domains: Vec<DomainConfig>,
}

/// Where the proxy listens and how many requests a client may make.
#[derive(Debug, Clone)]
pub struct ProxySettings {
    /// The address to bind.
    pub host: String,
    /// The port to bind.
    pub port: u16,
    /// Requests admitted per client and minute; `None` switches rate
    /// limiting off.
    pub rate_limit_per_minute: Option<u32>,
}

/// One virtual host and the origin that serves it.
#[derive(Debug, Clone)]
pub struct DomainConfig {
    /// The virtual-host name.
    pub domain: String,
    /// The upstream origin URL prefix.
    pub origin: String,
    /// Whether requests for the host are routed.
    pub enabled: bool,
}

/// The socket address `host:port`, the port in decimal.
pub open spec fn socket_address(host: Seq<char>, port: u16) -> Seq<char> {
    host + ":"@ + decimal(port as nat)
}

impl ProxySettings {
    /// The address to listen on, as `host:port`.
    pub fn listen_addr(&self) -> (addr: String)
        ensures
            addr@ == socket_address(self.host@, self.port),
    {
        let mut addr = self.host.clone();
        addr.append(":");
        push_decimal(&mut addr, self.port as u128);
        addr
    }
}

} // verus!
