//! The agent's configuration and its defaults.
use vstd::prelude::*;
use crate::label::LabelMap;
use crate::relabel::RelabelRuleConfig;

verus! {

/// Collection interval, in seconds, when the configuration names none.
pub const AGENT_DEFAULT_INTERVAL: u64 = 60;

/// The whole configuration of the agent.
pub struct Config {
    /// Format version (`$version`).
    pub version: String,
    /// Configuration kind (`$type`).
    pub kind: String,
    pub agent: AgentConfig,
    pub sender: SenderConfig,
    pub collectors: Vec<CollectorConfig>,
}

/// Settings of the agent itself.
pub struct AgentConfig {
    /// Host name to report in place of the system's.
    pub host: Option<String>,
    /// Labels added to every measure.
    pub labels: Option<LabelMap>,
    pub defaults: AgentDefaults,
}

/// Defaults for collectors.
pub struct AgentDefaults {
    /// Collection interval in seconds.
    pub interval: u64,
}

/// Settings of the openmetrics endpoint.
pub struct SenderConfig {
    /// Sender kind (`type`); only `openmetrics` is supported.
    pub kind: String,
    /// Sender mode; only `pull` is supported.
    pub mode: String,
    /// Address of the plain HTTP endpoint.
    pub listen: Option<String>,
    /// Address of the HTTPS endpoint.
    pub listen_tls: Option<String>,
    /// Redirect plain HTTP requests to the HTTPS endpoint.
    pub tls_redirect: bool,
    pub cert_path: Option<String>,
    pub key_path: Option<String>,
    pub client_auth_requred_path: Option<String>,
    /// Path of the metrics endpoint.
    pub path: String,
}

/// Configuration of one collector instance.
pub struct CollectorConfig {
    /// Identifier of the instance.
    pub id: String,
    /// Collector type (`type`).
    pub kind: String,
    /// Collection interval in seconds.
    pub interval: Option<u64>,
    pub disabled: bool,
    /// Labels added to the collector's measures.
    pub labels: Option<LabelMap>,
    /// Relabeling rules.
    pub relabel: Option<Vec<RelabelRuleConfig>>,
}

impl Default for AgentDefaults {
    fn default() -> (r: AgentDefaults)
        ensures
            r.interval == AGENT_DEFAULT_INTERVAL,
    {
        AgentDefaults { interval: AGENT_DEFAULT_INTERVAL }
    }
}

impl Default for AgentConfig {
    fn default() -> (r: AgentConfig)
        ensures
            r.host.is_none(),
            r.labels.is_none(),
            r.defaults.interval == AGENT_DEFAULT_INTERVAL,
    {
        AgentConfig { host: None, labels: None, defaults: AgentDefaults::default() }
    }
}

impl Default for SenderConfig {
    fn default() -> (r: SenderConfig)
        ensures
            r.kind@ == "openmetrics"@,
            r.mode@ == "pull"@,
            r.listen matches Some(l) && l@ == "0.0.0.0:3000"@,
            r.listen_tls.is_none(),
            !r.tls_redirect,
            r.cert_path.is_none(),
            r.key_path.is_none(),
            r.client_auth_requred_path.is_none(),
            r.path@ == "/metrics"@,
    {
        SenderConfig {
            kind: default_openmetrics(),
            mode: default_pull(),
            listen: Some(default_3000()),
            listen_tls: None,
            tls_redirect: false,
            cert_path: None,
            key_path: None,
            client_auth_requred_path: None,
            path: default_metrics(),
        }
    }
}

/// Default sender kind.
pub fn default_openmetrics() -> (r: String)
    ensures
        r@ == "openmetrics"@,
{
    "openmetrics".to_owned()
}

/// Default sender mode.
pub fn default_pull() -> (r: String)
    ensures
        r@ == "pull"@,
{
    "pull".to_owned()
}

/// Default listen address of the HTTP endpoint.
pub fn default_3000() -> (r: String)
    ensures
        r@ == "0.0.0.0:3000"@,
{
    "0.0.0.0:3000".to_owned()
}

/// Default path of the metrics endpoint.
pub fn default_metrics() -> (r: String)
    ensures
        r@ == "/metrics"@,
{
    "/metrics".to_owned()
}

/// No host name configured.
pub fn default_none() -> (r: Option<String>)
    ensures
        r.is_none(),
{
    None
}

/// Default collection interval.
pub fn default_interval() -> (r: u64)
    ensures
        r == AGENT_DEFAULT_INTERVAL,
{
    AGENT_DEFAULT_INTERVAL
}

} // verus!
