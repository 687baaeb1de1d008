//! The openmetrics sender: its settings, the commands it handles, and
//! the addresses of its endpoints.
use vstd::prelude::*;
use crate::config::SenderConfig;
use crate::error::AgentError;
use crate::label::Labels;
use crate::mdb::{MetricsData, MetricsDb, apply_measures, db_text, measure_view};
use crate::measure::Measure;
use crate::netaddr::{SocketAddrV4, addr_of};
use crate::text::{chars_of, push_dec, push_str, str_eq, string_of};

verus! {

/// Content type of the metrics endpoint's replies.
pub const CONTENT_TYPE: &'static str = "application/openmetrics-text; version=1.0.0; charset=utf-8";

/// Capacity of the sender's command channel.
pub const SENDER_CHANNEL_BUFFER: usize = 10_000;

/// The plain HTTP endpoint.
#[derive(Debug, Clone)]
pub struct SenderHttp {
    pub listen: SocketAddrV4,
    /// Redirect requests to the HTTPS endpoint.
    pub tls_redirect: bool,
}

/// The HTTPS endpoint.
#[derive(Debug, Clone)]
pub struct SenderHttps {
    pub listen: SocketAddrV4,
    pub cert_path: String,
    pub key_path: String,
    pub client_auth_required_path: Option<String>,
}

/// Why each file of the HTTPS settings could not be read, for those that
/// could not; `None` where the file was read or is not configured.
pub struct FileChecks {
    pub key: Option<String>,
    pub cert: Option<String>,
    pub client_auth: Option<String>,
}

/// What the settings of an HTTPS endpoint hold.
pub struct HttpsView {
    pub listen: SocketAddrV4,
    pub cert_path: Seq<char>,
    pub key_path: Seq<char>,
    pub client_auth_required_path: Option<Seq<char>>,
}

/// What the endpoint settings hold.
pub struct SettingsView {
    pub http: Option<(SocketAddrV4, bool)>,
    pub https: Option<HttpsView>,
    pub path: Seq<char>,
}

pub open spec fn unreadable_text(path: Seq<char>, err: Seq<char>) -> Seq<char> {
    path + " file is not readable: "@ + err
}

pub open spec fn opt_view(o: Option<String>) -> Option<Seq<char>> {
    match o {
        Some(s) => Some(s@),
        None => None,
    }
}

/// The HTTP endpoint from the settings, or why the settings are refused.
pub open spec fn http_check(v: SenderConfig) -> Result<Option<(SocketAddrV4, bool)>, Seq<char>> {
    match v.listen {
        Some(a) => match addr_of(a@) {
            Some(x) => Ok(Some((x, v.tls_redirect))),
            None => Err("Invalid `sender.listen`"@),
        },
        None => if v.tls_redirect {
            Err("`sender.tls_redirect` must not be set when HTTP endpoint is disabled"@)
        } else {
            Ok(None)
        },
    }
}

/// The HTTPS endpoint from the settings and the file checks, or why the
/// settings are refused. The key is checked before the certificate, the
/// certificate before the client CA file, and the address last.
pub open spec fn https_check(v: SenderConfig, f: FileChecks) -> Result<Option<HttpsView>, Seq<char>> {
    match v.listen_tls {
        Some(a) => match v.key_path {
            None => Err("`sender.key_path` must be set for HTTPS endpoint"@),
            Some(k) => match f.key {
                Some(e) => Err(unreadable_text(k@, e@)),
                None => match v.cert_path {
                    None => Err("`sender.cert_path` must be set for HTTPS endpoint"@),
                    Some(c) => match f.cert {
                        Some(e) => Err(unreadable_text(c@, e@)),
                        None => match (v.client_auth_requred_path, f.client_auth) {
                            (Some(p), Some(e)) => Err(unreadable_text(p@, e@)),
                            _ => match addr_of(a@) {
                                None => Err("Invalid `sender.listen_tls`"@),
                                Some(x) => Ok(Some(HttpsView {
                                    listen: x,
                                    cert_path: c@,
                                    key_path: k@,
                                    client_auth_required_path: opt_view(v.client_auth_requred_path),
                                })),
                            },
                        },
                    },
                },
            },
        },
        None => if v.tls_redirect {
            Err("`sender.tls_redirect` must not be set when HTTPS endpoint is disabled"@)
        } else {
            Ok(None)
        },
    }
}

/// The endpoint settings, or the message of the configuration error:
/// the type and the mode are checked first, then the HTTP endpoint, then
/// the HTTPS endpoint.
pub open spec fn sender_check(v: SenderConfig, f: FileChecks) -> Result<SettingsView, Seq<char>> {
    if v.kind@ != "openmetrics"@ {
        Err("`sender.type` must be `openmetrics`"@)
    } else if v.mode@ != "pull"@ {
        Err("`sender.mode` must be `pull`"@)
    } else {
        match http_check(v) {
            Err(e) => Err(e),
            Ok(h) => match https_check(v, f) {
                Err(e) => Err(e),
                Ok(s) => Ok(SettingsView { http: h, https: s, path: v.path@ }),
            },
        }
    }
}

/// A command to the sender.
pub enum SenderCommand {
    /// Store the measures of a collector run.
    Data(MetricsData),
    /// Replace the agent's labels.
    SetAgentLabels(Labels),
    /// Print the metrics.
    Dump,
    /// Stop.
    Shutdown,
}

/// What the sender's loop does after a command.
pub enum SenderStep {
    /// Wait for the next command.
    Continue,
    /// Print the text, then wait for the next command.
    Print(String),
    /// Stop.
    Stop,
}

/// The sender: the metrics database and the endpoint settings.
pub struct Sender {
    pub db: MetricsDb,
    pub dump_metrics: bool,
    pub http: Option<SenderHttp>,
    pub https: Option<SenderHttps>,
    pub path: String,
}

impl Sender {
    pub open spec fn settings(&self) -> SettingsView {
        SettingsView {
            http: match self.http {
                Some(h) => Some((h.listen, h.tls_redirect)),
                None => None,
            },
            https: match self.https {
                Some(h) => Some(HttpsView {
                    listen: h.listen,
                    cert_path: h.cert_path@,
                    key_path: h.key_path@,
                    client_auth_required_path: opt_view(h.client_auth_required_path),
                }),
                None => None,
            },
            path: self.path@,
        }
    }

    /// The sender for the settings, with an empty database and metric
    /// dumps off; refused settings are a `ConfigurationError` with the
    /// message that `sender_check` gives.
    pub fn try_from(value: &SenderConfig, files: &FileChecks) -> (r: Result<Sender, AgentError>)
        ensures
            match sender_check(*value, *files) {
                Ok(st) => r matches Ok(s) && s.settings() == st && s.db.wf() && s.db@.families.len() == 0
                    && s.db@.labels.is_none() && !s.dump_metrics,
                Err(m) => r matches Err(AgentError::ConfigurationError(e)) && e@ == m,
            },
    {
        if !str_eq(value.kind.as_str(), "openmetrics") {
            return Err(AgentError::ConfigurationError("`sender.type` must be `openmetrics`".to_owned()));
        }
        if !str_eq(value.mode.as_str(), "pull") {
            return Err(AgentError::ConfigurationError("`sender.mode` must be `pull`".to_owned()));
        }
        let http = match &value.listen {
            Some(addr) => match SocketAddrV4::parse(addr.as_str()) {
                Some(x) => Some(SenderHttp { listen: x, tls_redirect: value.tls_redirect }),
                None => return Err(AgentError::ConfigurationError("Invalid `sender.listen`".to_owned())),
            },
            None => {
                if value.tls_redirect {
                    return Err(AgentError::ConfigurationError(
                        "`sender.tls_redirect` must not be set when HTTP endpoint is disabled".to_owned(),
                    ));
                }
                None
            },
        };
        let https = match &value.listen_tls {
            Some(addr) => {
                let key_path = match &value.key_path {
                    Some(p) => p.clone(),
                    None => return Err(AgentError::ConfigurationError(
                        "`sender.key_path` must be set for HTTPS endpoint".to_owned(),
                    )),
                };
                if let Some(e) = &files.key {
                    return Err(AgentError::ConfigurationError(unreadable(&key_path, e)));
                }
                let cert_path = match &value.cert_path {
                    Some(p) => p.clone(),
                    None => return Err(AgentError::ConfigurationError(
                        "`sender.cert_path` must be set for HTTPS endpoint".to_owned(),
                    )),
                };
                if let Some(e) = &files.cert {
                    return Err(AgentError::ConfigurationError(unreadable(&cert_path, e)));
                }
                let client_auth_required_path = match &value.client_auth_requred_path {
                    Some(p) => {
                        if let Some(e) = &files.client_auth {
                            return Err(AgentError::ConfigurationError(unreadable(p, e)));
                        }
                        Some(p.clone())
                    },
                    None => None,
                };
                match SocketAddrV4::parse(addr.as_str()) {
                    Some(x) => Some(SenderHttps { listen: x, cert_path, key_path, client_auth_required_path }),
                    None => return Err(AgentError::ConfigurationError("Invalid `sender.listen_tls`".to_owned())),
                }
            },
            None => {
                if value.tls_redirect {
                    return Err(AgentError::ConfigurationError(
                        "`sender.tls_redirect` must not be set when HTTPS endpoint is disabled".to_owned(),
                    ));
                }
                None
            },
        };
        Ok(Sender { db: MetricsDb::new(), dump_metrics: false, http, https, path: value.path.clone() })
    }

    /// Sets whether every update of the metrics is printed.
    pub fn set_dump_metrics(&mut self, status: bool) -> (r: &mut Self)
        ensures
            r.dump_metrics == status,
            r.db == old(self).db,
            r.settings() == old(self).settings(),
            *final(self) == *final(r),
    {
        self.dump_metrics = status;
        self
    }

    /// Handles one command: data is stored (and the metrics printed when
    /// dumps are on), labels are replaced, a dump prints the metrics, and
    /// shutdown stops the loop.
    pub fn process(&mut self, cmd: SenderCommand) -> (r: SenderStep)
        requires
            old(self).db.wf(),
        ensures
            final(self).db.wf(),
            final(self).dump_metrics == old(self).dump_metrics,
            final(self).settings() == old(self).settings(),
            match cmd {
                SenderCommand::Data(d) => {
                    &&& final(self).db@.labels == old(self).db@.labels
                    &&& final(self).db@.families == apply_measures(
                        old(self).db@.families,
                        d.collector@,
                        d.labels@,
                        d.ts,
                        d.measures@.map_values(|m: Measure| measure_view(m)),
                    )
                    &&& if old(self).dump_metrics {
                        r matches SenderStep::Print(t) && t@ == db_text(final(self).db@)
                    } else {
                        r is Continue
                    }
                },
                SenderCommand::SetAgentLabels(l) => {
                    &&& final(self).db@.labels == l@
                    &&& final(self).db@.families == old(self).db@.families
                    &&& r is Continue
                },
                SenderCommand::Dump => {
                    &&& final(self).db@ == old(self).db@
                    &&& r matches SenderStep::Print(t) && t@ == db_text(old(self).db@)
                },
                SenderCommand::Shutdown => final(self).db@ == old(self).db@ && r is Stop,
            },
    {
        match cmd {
            SenderCommand::Data(data) => {
                self.db.apply_data(&data);
                if self.dump_metrics {
                    match self.db.to_openmetrics_string() {
                        Ok(t) => SenderStep::Print(t),
                        Err(_) => SenderStep::Continue,
                    }
                } else {
                    SenderStep::Continue
                }
            },
            SenderCommand::SetAgentLabels(labels) => {
                self.db.set_labels(labels);
                SenderStep::Continue
            },
            SenderCommand::Dump => match self.db.to_openmetrics_string() {
                Ok(t) => SenderStep::Print(t),
                Err(_) => SenderStep::Continue,
            },
            SenderCommand::Shutdown => SenderStep::Stop,
        }
    }

    /// The port that plain HTTP requests are redirected to: the HTTPS
    /// endpoint's, else 443.
    pub fn tls_port(&self) -> (r: u16)
        ensures
            r == (match self.https {
                Some(h) => h.listen.port,
                None => 443,
            }),
    {
        match &self.https {
            Some(h) => h.listen.port,
            None => 443,
        }
    }
}

/// `path` and the reason it could not be read.
fn unreadable(path: &String, err: &String) -> (r: String)
    ensures
        r@ == unreadable_text(path@, err@),
{
    let mut out: Vec<char> = Vec::new();
    push_str(&mut out, path.as_str());
    push_str(&mut out, " file is not readable: ");
    push_str(&mut out, err.as_str());
    assert(out@ =~= unreadable_text(path@, err@));
    string_of(out.as_slice())
}

/// The path that an endpoint serves: the configured path without its
/// first character (the leading `/`).
pub fn endpoint_path(path: &str) -> (r: String)
    requires
        path@.len() > 0,
    ensures
        r@ == path@.drop_first(),
{
    let cs = chars_of(path);
    let mut out: Vec<char> = Vec::new();
    let mut i: usize = 1;
    while i < cs.len()
        invariant
            1 <= i <= cs.len(),
            cs@ == path@,
            out@ == cs@.subrange(1, i as int),
        decreases cs.len() - i,
    {
        out.push(cs[i]);
        assert(cs@.subrange(1, i + 1) =~= cs@.subrange(1, i as int).push(cs@[i as int]));
        i = i + 1;
    }
    assert(cs@.subrange(1, cs.len() as int) =~= path@.drop_first());
    string_of(out.as_slice())
}

/// The characters of `host` before its first `:`.
pub open spec fn host_name(host: Seq<char>) -> Seq<char>
    decreases host.len(),
{
    if host.len() == 0 || host[0] == ':' {
        Seq::empty()
    } else {
        seq![host[0]] + host_name(host.drop_first())
    }
}

/// Where a plain HTTP request is redirected: `https://`, the request's
/// host without its port, `:`, the HTTPS port, and the request's path.
pub open spec fn redirect_text(tls_port: u16, host: Seq<char>, path: Seq<char>) -> Seq<char> {
    "https://"@ + host_name(host) + seq![':'] + crate::text::dec_str(tls_port as nat) + path
}

proof fn lemma_host_name(host: Seq<char>, k: int)
    requires
        0 <= k <= host.len(),
        forall|j: int| 0 <= j < k ==> host[j] != ':',
        k == host.len() || host[k] == ':',
    ensures
        host_name(host) == host.take(k),
    decreases k,
{
    if k > 0 {
        lemma_host_name(host.drop_first(), k - 1);
        assert(host.take(k) =~= seq![host[0]] + host.drop_first().take(k - 1));
    } else {
        assert(host.take(0) =~= Seq::<char>::empty());
    }
}

/// The redirect URL for a plain HTTP request (see `redirect_text`).
pub fn tls_redirect_url(tls_port: u16, host: &str, path: &str) -> (r: String)
    ensures
        r@ == redirect_text(tls_port, host@, path@),
{
    let hs = chars_of(host);
    let mut out: Vec<char> = Vec::new();
    push_str(&mut out, "https://");
    let ghost start = out@;
    let mut i: usize = 0;
    while i < hs.len() && hs[i] != ':'
        invariant
            i <= hs.len(),
            hs@ == host@,
            forall|j: int| 0 <= j < i ==> hs@[j] != ':',
            out@ == start + hs@.take(i as int),
        decreases hs.len() - i,
    {
        out.push(hs[i]);
        assert(hs@.take(i + 1) =~= hs@.take(i as int).push(hs@[i as int]));
        i = i + 1;
    }
    proof { lemma_host_name(host@, i as int); }
    out.push(':');
    push_dec(&mut out, tls_port as u64);
    push_str(&mut out, path);
    assert(out@ =~= redirect_text(tls_port, host@, path@));
    string_of(out.as_slice())
}

} // verus!
