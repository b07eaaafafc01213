use vstd::prelude::*;

verus! {

/// Settings of the external proxy that lets a sidecar's internal proxy reach
/// the remote agent.
#[derive(Debug, Clone, PartialEq)]
pub struct ExternalProxyConfig {
    /// Whether connections from the internal proxy are accepted over TLS.
    pub tls_enable: bool,
    /// Seconds to wait for the first connection.
    pub start_idle_timeout: u64,
    /// Seconds to wait, with no active connection, before exiting.
    pub idle_timeout: u64,
    /// Log filter, used only when a log destination is set.
    pub log_level: Option<String>,
    /// File the proxy logs to.
    pub log_destination: Option<String>,
    /// Whether logs are written as JSON.
    pub json_log: bool,
}

impl Default for ExternalProxyConfig {
    fn default() -> (r: Self)
        ensures
            r.tls_enable,
            r.start_idle_timeout == 60,
            r.idle_timeout == 5,
            r.log_level is None,
            r.log_destination is None,
            r.json_log,
    {
        ExternalProxyConfig {
            tls_enable: true,
            start_idle_timeout: 60,
            idle_timeout: 5,
            log_level: None,
            log_destination: None,
            json_log: true,
        }
    }
}

} // verus!
