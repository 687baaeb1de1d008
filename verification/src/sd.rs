//! Service discovery of the scrape collector: the targets found, as
//! labels, and the URL scraped for each.
use vstd::prelude::*;
use crate::error::AgentError;
use crate::label::{Label, LabelView, label_views};
use crate::relabel::{ActiveLabels, insert_all};
use crate::text::{dec_str, join, push_dec, push_str, str_eq, string_of};

verus! {

pub const DEFAULT_SCHEMA: &'static str = "http";
pub const DEFAULT_PATH: &'static str = "/metrics";
pub const DEFAULT_ADDRESS: &'static str = "127.0.0.1:3000";
pub const LABEL_ADDRESS: &'static str = "__address__";
pub const LABEL_SCHEMA: &'static str = "__meta_sd_schema";
pub const LABEL_PATH: &'static str = "__meta_sd_path";
pub const DEFAULT_CONCURRENCY: usize = 10;
pub const DEFAULT_TAG_SEPARATOR: &'static str = ",";
pub const DEFAULT_QUERY_TYPE: &'static str = "A";

/// The value of `name` in `m`, or `default`.
pub open spec fn label_or(m: Map<Seq<char>, Seq<char>>, name: Seq<char>, default: Seq<char>) -> Seq<char> {
    if m.contains_key(name) {
        m[name]
    } else {
        default
    }
}

/// The address of a target: its `__address__` label, else `127.0.0.1:3000`.
pub open spec fn address_of(m: Map<Seq<char>, Seq<char>>) -> Seq<char> {
    label_or(m, LABEL_ADDRESS@, DEFAULT_ADDRESS@)
}

/// The URL of a target: its schema (`http` by default), `://`, its
/// address, and its path (`/metrics` by default).
pub open spec fn url_of(m: Map<Seq<char>, Seq<char>>) -> Seq<char> {
    label_or(m, LABEL_SCHEMA@, DEFAULT_SCHEMA@) + "://"@ + address_of(m) + label_or(m, LABEL_PATH@, DEFAULT_PATH@)
}

/// The address of a target (see `address_of`).
pub fn get_address(labels: &ActiveLabels) -> (r: String)
    requires
        labels.wf(),
    ensures
        r@ == address_of(labels@),
{
    let name = LABEL_ADDRESS.to_owned();
    match labels.get(&name) {
        Some(x) => x.clone(),
        None => DEFAULT_ADDRESS.to_owned(),
    }
}

/// The URL scraped for a target (see `url_of`).
pub fn get_url(labels: &ActiveLabels) -> (r: String)
    requires
        labels.wf(),
    ensures
        r@ == url_of(labels@),
{
    let schema_name = LABEL_SCHEMA.to_owned();
    let path_name = LABEL_PATH.to_owned();
    let schema = match labels.get(&schema_name) {
        Some(x) => x.clone(),
        None => DEFAULT_SCHEMA.to_owned(),
    };
    let address = get_address(labels);
    let path = match labels.get(&path_name) {
        Some(x) => x.clone(),
        None => DEFAULT_PATH.to_owned(),
    };
    let mut out: Vec<char> = Vec::new();
    push_str(&mut out, schema.as_str());
    push_str(&mut out, "://");
    push_str(&mut out, address.as_str());
    push_str(&mut out, path.as_str());
    assert(out@ =~= url_of(labels@));
    string_of(out.as_slice())
}

/// Static discovery: fixed targets.
pub struct StaticSd {
    pub items: Vec<ActiveLabels>,
}

impl StaticSd {
    /// One target per address, with its `__address__` label.
    pub fn try_from(targets: &Vec<String>) -> (r: Result<StaticSd, AgentError>)
        ensures
            r matches Ok(s) && s.items.len() == targets.len() && forall|i: int| 0 <= i < targets.len()
                ==> (#[trigger] s.items[i]).wf() && s.items[i]@ == Map::<Seq<char>, Seq<char>>::empty().insert(LABEL_ADDRESS@, targets[i]@),
    {
        let mut items: Vec<ActiveLabels> = Vec::new();
        let mut i: usize = 0;
        while i < targets.len()
            invariant
                i <= targets.len(),
                items.len() == i,
                forall|j: int| 0 <= j < i ==> (#[trigger] items[j]).wf()
                    && items[j]@ == Map::<Seq<char>, Seq<char>>::empty().insert(LABEL_ADDRESS@, targets[j]@),
            decreases targets.len() - i,
        {
            let mut v: Vec<Label> = Vec::new();
            let l = Label::new(LABEL_ADDRESS, targets[i].as_str());
            v.push(l);
            let a = ActiveLabels::new(v);
            proof {
                let iv = label_views(v@);
                assert(iv =~= seq![(LABEL_ADDRESS@, targets@[i as int]@)]);
                assert(iv.drop_last() =~= Seq::<LabelView>::empty());
                reveal_with_fuel(insert_all, 2);
            }
            items.push(a);
            i = i + 1;
        }
        Ok(StaticSd { items })
    }
}

/// The record type a DNS discovery queries.
#[derive(Debug, Clone, Copy, PartialEq, Eq, Structural)]
pub enum QueryType {
    A,
    Srv,
}

/// DNS discovery: the addresses a name resolves to.
pub struct DnsSd {
    pub query: String,
    pub query_type: QueryType,
    /// Port of the targets of an `A` query.
    pub port: u16,
}

/// Why a DNS discovery configuration is refused.
pub open spec fn dns_error(query_type: Seq<char>, port: Option<u16>) -> Option<Seq<char>> {
    if query_type != "A"@ && query_type != "SRV"@ {
        Some("query_type must be A or SRV"@)
    } else if port.is_some() && query_type != "A"@ {
        Some("port should be set only for query_type A"@)
    } else if port.is_none() && query_type == "A"@ {
        Some("port must be set for query_type A"@)
    } else {
        None
    }
}

impl DnsSd {
    /// The discovery for a name, a query type (`A` or `SRV`) and, for `A`
    /// only, a port; other settings are a `ConfigurationError`.
    pub fn try_from(query: &String, query_type: &String, port: Option<u16>) -> (r: Result<DnsSd, AgentError>)
        ensures
            match dns_error(query_type@, port) {
                Some(m) => r matches Err(AgentError::ConfigurationError(e)) && e@ == m,
                None => r matches Ok(d) && d.query@ == query@
                    && d.query_type == (if query_type@ == "A"@ { QueryType::A } else { QueryType::Srv })
                    && d.port == port.unwrap_or(0),
            },
    {
        let is_a = str_eq(query_type.as_str(), "A");
        let is_srv = str_eq(query_type.as_str(), "SRV");
        if !is_a && !is_srv {
            return Err(AgentError::ConfigurationError("query_type must be A or SRV".to_owned()));
        }
        match port {
            Some(_) => {
                if !is_a {
                    return Err(AgentError::ConfigurationError("port should be set only for query_type A".to_owned()));
                }
            },
            None => {
                if is_a {
                    return Err(AgentError::ConfigurationError("port must be set for query_type A".to_owned()));
                }
            },
        }
        Ok(DnsSd {
            query: query.clone(),
            query_type: if is_a { QueryType::A } else { QueryType::Srv },
            port: match port {
                Some(p) => p,
                None => 0,
            },
        })
    }
}

/// `a.b.c.d:port`.
pub open spec fn target_text(ip: (u8, u8, u8, u8), port: u16) -> Seq<char> {
    dec_str(ip.0 as nat) + seq!['.'] + dec_str(ip.1 as nat) + seq!['.'] + dec_str(ip.2 as nat) + seq!['.']
        + dec_str(ip.3 as nat) + seq![':'] + dec_str(port as nat)
}

/// A target found by DNS: the address and port, as its `__address__`.
pub fn dns_target(ip: (u8, u8, u8, u8), port: u16) -> (r: ActiveLabels)
    ensures
        r.wf(),
        r@ == Map::<Seq<char>, Seq<char>>::empty().insert(LABEL_ADDRESS@, target_text(ip, port)),
{
    let mut out: Vec<char> = Vec::new();
    push_dec(&mut out, ip.0 as u64);
    out.push('.');
    push_dec(&mut out, ip.1 as u64);
    out.push('.');
    push_dec(&mut out, ip.2 as u64);
    out.push('.');
    push_dec(&mut out, ip.3 as u64);
    out.push(':');
    push_dec(&mut out, port as u64);
    assert(out@ =~= target_text(ip, port));
    let t = string_of(out.as_slice());
    let mut v: Vec<Label> = Vec::new();
    v.push(Label::new(LABEL_ADDRESS, t.as_str()));
    proof {
        assert(label_views(v@) =~= seq![(LABEL_ADDRESS@, t@)]);
        assert(label_views(v@).drop_last() =~= Seq::<LabelView>::empty());
        reveal_with_fuel(insert_all, 2);
    }
    ActiveLabels::new(v)
}

/// A service as the Consul agent lists it.
pub struct AgentService {
    pub id: String,
    pub service: String,
    pub address: String,
    pub port: u16,
    pub datacenter: String,
    pub tags: Vec<String>,
    /// The service's metadata, in the order it was read.
    pub meta: Vec<(String, String)>,
}

/// Consul discovery: the services a Consul agent lists.
pub struct ConsulSd {
    pub server: String,
    pub filter: Option<String>,
    pub tag_separator: String,
}

pub open spec fn strings(v: Seq<String>) -> Seq<Seq<char>> {
    v.map_values(|s: String| s@)
}

/// The URL of the Consul agent's service list, with the filter when
/// there is one.
pub open spec fn consul_url(server: Seq<char>, filter: Option<Seq<char>>) -> Seq<char> {
    "http://"@ + server + "/v1/agent/services"@ + (match filter {
        Some(f) => "?filter="@ + f,
        None => Seq::empty(),
    })
}

/// The labels of a service: `__address__` (`address:port`), the
/// datacenter, the name, the identifier, the address, the port, the tags
/// joined by the separator, and `__meta_consul_meta_` and each metadata
/// key with its value.
pub open spec fn service_labels(svc: AgentService, sep: Seq<char>) -> Seq<LabelView> {
    seq![
        (LABEL_ADDRESS@, svc.address@ + seq![':'] + dec_str(svc.port as nat)),
        ("__meta_consul_dc"@, svc.datacenter@),
        ("__meta_consul_service"@, svc.service@),
        ("__meta_consul_service_id"@, svc.id@),
        ("__meta_consul_service_address"@, svc.address@),
        ("__meta_consul_service_port"@, dec_str(svc.port as nat)),
        ("__meta_consul_tags"@, join(strings(svc.tags@), sep)),
    ] + svc.meta@.map_values(|kv: (String, String)| ("__meta_consul_meta_"@ + kv.0@, kv.1@))
}

impl ConsulSd {
    /// The discovery for a server, a filter and a tag separator.
    pub fn try_from(server: String, filter: Option<String>, tag_separator: String) -> (r: Result<ConsulSd, AgentError>)
        ensures
            r matches Ok(c) && c.server == server && c.filter == filter && c.tag_separator == tag_separator,
    {
        Ok(ConsulSd { server, filter, tag_separator })
    }

    /// The URL of the service list (see `consul_url`).
    pub fn services_url(&self) -> (r: String)
        ensures
            r@ == consul_url(self.server@, match self.filter {
                Some(f) => Some(f@),
                None => None,
            }),
    {
        let mut out: Vec<char> = Vec::new();
        push_str(&mut out, "http://");
        push_str(&mut out, self.server.as_str());
        push_str(&mut out, "/v1/agent/services");
        let ghost base = out@;
        match &self.filter {
            Some(f) => {
                push_str(&mut out, "?filter=");
                push_str(&mut out, f.as_str());
                assert(out@ =~= base + ("?filter="@ + f@));
            },
            None => {
                assert(out@ =~= base + Seq::<char>::empty());
            },
        }
        string_of(out.as_slice())
    }

    /// The target of a listed service: its labels (see `service_labels`).
    pub fn service_target(&self, svc: &AgentService) -> (r: ActiveLabels)
        ensures
            r.wf(),
            r@ == insert_all(Map::empty(), service_labels(*svc, self.tag_separator@)),
    {
        let mut items: Vec<Label> = Vec::new();
        let port = port_text(svc.port);
        let mut addr: Vec<char> = Vec::new();
        push_str(&mut addr, svc.address.as_str());
        addr.push(':');
        push_str(&mut addr, port.as_str());
        assert(addr@ =~= svc.address@ + seq![':'] + dec_str(svc.port as nat));
        let addr = string_of(addr.as_slice());
        items.push(Label::new(LABEL_ADDRESS, addr.as_str()));
        items.push(Label::new("__meta_consul_dc", svc.datacenter.as_str()));
        items.push(Label::new("__meta_consul_service", svc.service.as_str()));
        items.push(Label::new("__meta_consul_service_id", svc.id.as_str()));
        items.push(Label::new("__meta_consul_service_address", svc.address.as_str()));
        items.push(Label::new("__meta_consul_service_port", port.as_str()));
        let tags = join_strings(&svc.tags, self.tag_separator.as_str());
        items.push(Label::new("__meta_consul_tags", tags.as_str()));
        let ghost head = label_views(items@);
        assert(head =~= seq![
            (LABEL_ADDRESS@, svc.address@ + seq![':'] + dec_str(svc.port as nat)),
            ("__meta_consul_dc"@, svc.datacenter@),
            ("__meta_consul_service"@, svc.service@),
            ("__meta_consul_service_id"@, svc.id@),
            ("__meta_consul_service_address"@, svc.address@),
            ("__meta_consul_service_port"@, dec_str(svc.port as nat)),
            ("__meta_consul_tags"@, join(strings(svc.tags@), self.tag_separator@)),
        ]);
        let ghost meta = svc.meta@.map_values(|kv: (String, String)| ("__meta_consul_meta_"@ + kv.0@, kv.1@));
        let mut i: usize = 0;
        while i < svc.meta.len()
            invariant
                i <= svc.meta.len(),
                meta == svc.meta@.map_values(|kv: (String, String)| ("__meta_consul_meta_"@ + kv.0@, kv.1@)),
                label_views(items@) == head + meta.take(i as int),
            decreases svc.meta.len() - i,
        {
            let mut k: Vec<char> = Vec::new();
            push_str(&mut k, "__meta_consul_meta_");
            push_str(&mut k, svc.meta[i].0.as_str());
            let k = string_of(k.as_slice());
            let ghost i0 = items@;
            items.push(Label::new(k.as_str(), svc.meta[i].1.as_str()));
            assert(label_views(items@) =~= label_views(i0).push(meta[i as int]));
            assert(meta.take(i + 1) =~= meta.take(i as int).push(meta[i as int]));
            i = i + 1;
        }
        assert(meta.take(i as int) =~= meta);
        assert(label_views(items@) =~= service_labels(*svc, self.tag_separator@));
        ActiveLabels::new(items)
    }
}

/// The decimal text of a port.
fn port_text(port: u16) -> (r: String)
    ensures
        r@ == dec_str(port as nat),
{
    let mut out: Vec<char> = Vec::new();
    push_dec(&mut out, port as u64);
    assert(out@ =~= dec_str(port as nat));
    string_of(out.as_slice())
}

/// The strings joined by `sep`.
pub fn join_strings(parts: &Vec<String>, sep: &str) -> (r: String)
    ensures
        r@ == join(strings(parts@), sep@),
{
    let mut out: Vec<char> = Vec::new();
    let mut i: usize = 0;
    while i < parts.len()
        invariant
            i <= parts.len(),
            out@ == join(strings(parts@).take(i as int), sep@),
        decreases parts.len() - i,
    {
        let ghost o0 = out@;
        if i > 0 {
            push_str(&mut out, sep);
        }
        push_str(&mut out, parts[i].as_str());
        proof {
            let t = strings(parts@).take(i + 1);
            assert(t.drop_last() =~= strings(parts@).take(i as int));
            assert(t.last() == parts@[i as int]@);
        }
        i = i + 1;
    }
    assert(strings(parts@).take(i as int) =~= strings(parts@));
    string_of(out.as_slice())
}

pub fn default_http() -> (r: String)
    ensures
        r@ == DEFAULT_SCHEMA@,
{
    DEFAULT_SCHEMA.to_owned()
}

pub fn default_metrics() -> (r: String)
    ensures
        r@ == DEFAULT_PATH@,
{
    DEFAULT_PATH.to_owned()
}

pub fn is_default_schema(v: &String) -> (r: bool)
    ensures
        r == (v@ == DEFAULT_SCHEMA@),
{
    str_eq(v.as_str(), DEFAULT_SCHEMA)
}

pub fn is_default_path(v: &String) -> (r: bool)
    ensures
        r == (v@ == DEFAULT_PATH@),
{
    str_eq(v.as_str(), DEFAULT_PATH)
}

pub fn default_a() -> (r: String)
    ensures
        r@ == DEFAULT_QUERY_TYPE@,
{
    DEFAULT_QUERY_TYPE.to_owned()
}

pub fn is_a(v: &String) -> (r: bool)
    ensures
        r == (v@ == DEFAULT_QUERY_TYPE@),
{
    str_eq(v.as_str(), DEFAULT_QUERY_TYPE)
}

pub fn default_server() -> (r: String)
    ensures
        r@ == "127.0.0.1:8500"@,
{
    "127.0.0.1:8500".to_owned()
}

pub fn default_tag_separator() -> (r: String)
    ensures
        r@ == DEFAULT_TAG_SEPARATOR@,
{
    DEFAULT_TAG_SEPARATOR.to_owned()
}

pub fn is_default_tag_separator(v: &String) -> (r: bool)
    ensures
        r == (v@ == DEFAULT_TAG_SEPARATOR@),
{
    str_eq(v.as_str(), DEFAULT_TAG_SEPARATOR)
}

pub fn default_false() -> (r: bool)
    ensures
        !r,
{
    false
}

pub fn default_concurrency() -> (r: usize)
    ensures
        r == DEFAULT_CONCURRENCY,
{
    DEFAULT_CONCURRENCY
}

pub fn is_default_concurrency(v: &usize) -> (r: bool)
    ensures
        r == (*v == DEFAULT_CONCURRENCY),
{
    *v == DEFAULT_CONCURRENCY
}


impl ConsulSd {
    /// The targets of the listed services, one per service in order.
    pub fn targets(&self, services: &Vec<AgentService>) -> (r: Vec<ActiveLabels>)
        ensures
            r.len() == services.len(),
            forall|i: int| 0 <= i < services.len() ==> (#[trigger] r[i]).wf()
                && r[i]@ == insert_all(Map::empty(), service_labels(services[i], self.tag_separator@)),
    {
        let mut r: Vec<ActiveLabels> = Vec::new();
        let mut i: usize = 0;
        while i < services.len()
            invariant
                i <= services.len(),
                r.len() == i,
                forall|j: int| 0 <= j < i ==> (#[trigger] r[j]).wf()
                    && r[j]@ == insert_all(Map::empty(), service_labels(services[j], self.tag_separator@)),
            decreases services.len() - i,
        {
            r.push(self.service_target(&services[i]));
            i = i + 1;
        }
        r
    }
}

/// A record of a DNS answer, as far as discovery reads it.
pub enum DnsRecord {
    /// An address.
    A((u8, u8, u8, u8)),
    /// A service: its port, and the addresses its target resolves to.
    Srv(u16, Vec<(u8, u8, u8, u8)>),
    /// Any other record.
    Other,
}

/// The targets of an answer: each address record with the discovery's
/// port, and each address of each service record's target with the
/// service's port, in order; other records give none.
pub open spec fn dns_targets(records: Seq<DnsRecord>, port: u16) -> Seq<Seq<char>>
    decreases records.len(),
{
    if records.len() == 0 {
        Seq::empty()
    } else {
        let prev = dns_targets(records.drop_last(), port);
        match records.last() {
            DnsRecord::A(ip) => prev.push(target_text(ip, port)),
            DnsRecord::Srv(p, addrs) => prev + addrs@.map_values(|ip: (u8, u8, u8, u8)| target_text(ip, p)),
            DnsRecord::Other => prev,
        }
    }
}

impl DnsSd {
    /// The targets of an answer (see `dns_targets`), each with its
    /// `__address__` label.
    pub fn targets(&self, records: &Vec<DnsRecord>) -> (r: Vec<ActiveLabels>)
        ensures
            r.len() == dns_targets(records@, self.port).len(),
            forall|i: int| 0 <= i < r.len() ==> (#[trigger] r[i]).wf()
                && r[i]@ == Map::<Seq<char>, Seq<char>>::empty().insert(LABEL_ADDRESS@, dns_targets(records@, self.port)[i]),
    {
        let mut r: Vec<ActiveLabels> = Vec::new();
        let mut i: usize = 0;
        while i < records.len()
            invariant
                i <= records.len(),
                r.len() == dns_targets(records@.take(i as int), self.port).len(),
                forall|j: int| 0 <= j < r.len() ==> (#[trigger] r[j]).wf()
                    && r[j]@ == Map::<Seq<char>, Seq<char>>::empty().insert(LABEL_ADDRESS@, dns_targets(records@.take(i as int), self.port)[j]),
            decreases records.len() - i,
        {
            let ghost prev = dns_targets(records@.take(i as int), self.port);
            assert(records@.take(i + 1).drop_last() =~= records@.take(i as int));
            assert(records@.take(i + 1).last() == records@[i as int]);
            match &records[i] {
                DnsRecord::A(ip) => {
                    r.push(dns_target(*ip, self.port));
                },
                DnsRecord::Srv(p, addrs) => {
                    let ghost more = addrs@.map_values(|ip: (u8, u8, u8, u8)| target_text(ip, *p));
                    let mut k: usize = 0;
                    while k < addrs.len()
                        invariant
                            k <= addrs.len(),
                            more == addrs@.map_values(|ip: (u8, u8, u8, u8)| target_text(ip, *p)),
                            r.len() == prev.len() + k,
                            forall|j: int| 0 <= j < r.len() ==> (#[trigger] r[j]).wf()
                                && r[j]@ == Map::<Seq<char>, Seq<char>>::empty().insert(LABEL_ADDRESS@, (prev + more)[j]),
                        decreases addrs.len() - k,
                    {
                        r.push(dns_target(addrs[k], *p));
                        k = k + 1;
                    }
                },
                DnsRecord::Other => {},
            }
            i = i + 1;
        }
        assert(records@.take(i as int) =~= records@);
        r
    }
}

proof fn lemma_insert_all_at(m: Map<Seq<char>, Seq<char>>, items: Seq<LabelView>, i: int)
    requires
        0 <= i < items.len(),
        forall|j: int| i < j < items.len() ==> (#[trigger] items[j]).0 != items[i].0,
    ensures
        insert_all(m, items).contains_key(items[i].0),
        insert_all(m, items)[items[i].0] == items[i].1,
    decreases items.len(),
{
    if i < items.len() - 1 {
        let pre = items.drop_last();
        assert forall|j: int| i < j < pre.len() implies (#[trigger] pre[j]).0 != pre[i].0 by {
            assert(pre[j] == items[j]);
        }
        lemma_insert_all_at(m, pre, i);
        assert(items.last() == items[items.len() - 1]);
    }
}

/// The target of a Consul service is labelled with the service's own
/// facts, whatever its tags and metadata: `__meta_consul_service` is its
/// name, `__meta_consul_service_id` its identifier, `__meta_consul_dc` its
/// datacenter, `__meta_consul_service_address` its address and
/// `__address__` its address and port.
pub proof fn lemma_consul_target_labels(svc: AgentService, sep: Seq<char>)
    ensures
        ({
            let m = insert_all(Map::empty(), service_labels(svc, sep));
            &&& m.contains_key("__meta_consul_service"@) && m["__meta_consul_service"@] == svc.service@
            &&& m.contains_key("__meta_consul_service_id"@) && m["__meta_consul_service_id"@] == svc.id@
            &&& m.contains_key("__meta_consul_dc"@) && m["__meta_consul_dc"@] == svc.datacenter@
            &&& m.contains_key("__meta_consul_service_address"@) && m["__meta_consul_service_address"@] == svc.address@
            &&& m.contains_key(LABEL_ADDRESS@) && m[LABEL_ADDRESS@] == svc.address@ + seq![':'] + dec_str(svc.port as nat)
        }),
{
    reveal_strlit("__address__");
    reveal_strlit("__meta_consul_dc");
    reveal_strlit("__meta_consul_service");
    reveal_strlit("__meta_consul_service_id");
    reveal_strlit("__meta_consul_service_address");
    reveal_strlit("__meta_consul_service_port");
    reveal_strlit("__meta_consul_tags");
    reveal_strlit("__meta_consul_meta_");
    let items = service_labels(svc, sep);
    let prefix = "__meta_consul_meta_"@;
    assert forall|j: int| 7 <= j < items.len() implies (#[trigger] items[j]).0.len() > 14 && items[j].0[14] == 'm' by {
        let kv = svc.meta@[j - 7];
        assert(items[j].0 == prefix + kv.0@);
        assert((prefix + kv.0@)[14] == prefix[14]);
    }
    assert(items[0].0 == LABEL_ADDRESS@);
    assert(items[1].0 == "__meta_consul_dc"@ && items[1].1 == svc.datacenter@);
    assert(items[2].0 == "__meta_consul_service"@ && items[2].1 == svc.service@);
    assert(items[3].0 == "__meta_consul_service_id"@ && items[3].1 == svc.id@);
    assert(items[4].0 == "__meta_consul_service_address"@ && items[4].1 == svc.address@);
    assert(items[5].0 == "__meta_consul_service_port"@);
    assert(items[6].0 == "__meta_consul_tags"@);
    assert forall|j: int| 0 < j < items.len() implies (#[trigger] items[j]).0 != items[0].0 by {
        if j >= 7 {
            assert(items[j].0[14] == 'm');
        }
    }
    assert forall|j: int| 1 < j < items.len() implies (#[trigger] items[j]).0 != items[1].0 by {
        if j >= 7 {
            assert(items[j].0[14] == 'm');
        }
    }
    assert forall|j: int| 2 < j < items.len() implies (#[trigger] items[j]).0 != items[2].0 by {
        if j >= 7 {
            assert(items[j].0[14] == 'm');
        }
    }
    assert forall|j: int| 3 < j < items.len() implies (#[trigger] items[j]).0 != items[3].0 by {
        if j >= 7 {
            assert(items[j].0[14] == 'm');
        }
    }
    assert forall|j: int| 4 < j < items.len() implies (#[trigger] items[j]).0 != items[4].0 by {
        if j >= 7 {
            assert(items[j].0[14] == 'm');
        }
    }
    let m = Map::<Seq<char>, Seq<char>>::empty();
    lemma_insert_all_at(m, items, 0);
    lemma_insert_all_at(m, items, 1);
    lemma_insert_all_at(m, items, 2);
    lemma_insert_all_at(m, items, 3);
    lemma_insert_all_at(m, items, 4);
}

} // verus!
