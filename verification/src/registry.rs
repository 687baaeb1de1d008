//! The registry of collector types.
use vstd::prelude::*;
use crate::config::CollectorConfig;
use crate::discovery::{ConfigDiscoveryOpts, OptsView, disabled_under};
use crate::error::AgentError;
use crate::text::{lemma_lt_at, lemma_lt_transitive, seq_lt, str_eq};

verus! {

/// The types of collectors the agent can run.
#[derive(Debug, Clone, Copy, PartialEq, Eq, Structural)]
pub enum Collectors {
    BlockIo,
    Cpu,
    Dns,
    Exec,
    Fs,
    Http,
    Memory,
    ModbusRtu,
    ModbusTcp,
    Mysql,
    Network,
    Pgbouncer,
    Postgres,
    PostgresQuery,
    Procstat,
    Redis,
    Sockets,
    Spool,
    TwampReflector,
    TwampSender,
    Uptime,
}

/// Every collector type, in registry order.
pub open spec fn all_kinds() -> Seq<Collectors> {
    seq![
        Collectors::BlockIo,
        Collectors::Cpu,
        Collectors::Dns,
        Collectors::Exec,
        Collectors::Fs,
        Collectors::Http,
        Collectors::Memory,
        Collectors::ModbusRtu,
        Collectors::ModbusTcp,
        Collectors::Mysql,
        Collectors::Network,
        Collectors::Pgbouncer,
        Collectors::Postgres,
        Collectors::PostgresQuery,
        Collectors::Procstat,
        Collectors::Redis,
        Collectors::Sockets,
        Collectors::Spool,
        Collectors::TwampReflector,
        Collectors::TwampSender,
        Collectors::Uptime
    ]
}

/// The name of a collector type, as written in configurations.
pub open spec fn kind_name(k: Collectors) -> Seq<char> {
    match k {
        Collectors::BlockIo => "block_io"@,
        Collectors::Cpu => "cpu"@,
        Collectors::Dns => "dns"@,
        Collectors::Exec => "exec"@,
        Collectors::Fs => "fs"@,
        Collectors::Http => "http"@,
        Collectors::Memory => "memory"@,
        Collectors::ModbusRtu => "modbus_rtu"@,
        Collectors::ModbusTcp => "modbus_tcp"@,
        Collectors::Mysql => "mysql"@,
        Collectors::Network => "network"@,
        Collectors::Pgbouncer => "pgbouncer"@,
        Collectors::Postgres => "postgres"@,
        Collectors::PostgresQuery => "postgres_query"@,
        Collectors::Procstat => "procstat"@,
        Collectors::Redis => "redis"@,
        Collectors::Sockets => "sockets"@,
        Collectors::Spool => "spool"@,
        Collectors::TwampReflector => "twamp_reflector"@,
        Collectors::TwampSender => "twamp_sender"@,
        Collectors::Uptime => "uptime"@,
    }
}

/// The collector type with the given name.
pub open spec fn kind_by_name(n: Seq<char>) -> Option<Collectors> {
    if n == "block_io"@ {
        Some(Collectors::BlockIo)
    } else if n == "cpu"@ {
        Some(Collectors::Cpu)
    } else if n == "dns"@ {
        Some(Collectors::Dns)
    } else if n == "exec"@ {
        Some(Collectors::Exec)
    } else if n == "fs"@ {
        Some(Collectors::Fs)
    } else if n == "http"@ {
        Some(Collectors::Http)
    } else if n == "memory"@ {
        Some(Collectors::Memory)
    } else if n == "modbus_rtu"@ {
        Some(Collectors::ModbusRtu)
    } else if n == "modbus_tcp"@ {
        Some(Collectors::ModbusTcp)
    } else if n == "mysql"@ {
        Some(Collectors::Mysql)
    } else if n == "network"@ {
        Some(Collectors::Network)
    } else if n == "pgbouncer"@ {
        Some(Collectors::Pgbouncer)
    } else if n == "postgres"@ {
        Some(Collectors::Postgres)
    } else if n == "postgres_query"@ {
        Some(Collectors::PostgresQuery)
    } else if n == "procstat"@ {
        Some(Collectors::Procstat)
    } else if n == "redis"@ {
        Some(Collectors::Redis)
    } else if n == "sockets"@ {
        Some(Collectors::Sockets)
    } else if n == "spool"@ {
        Some(Collectors::Spool)
    } else if n == "twamp_reflector"@ {
        Some(Collectors::TwampReflector)
    } else if n == "twamp_sender"@ {
        Some(Collectors::TwampSender)
    } else if n == "uptime"@ {
        Some(Collectors::Uptime)
    } else {
        None
    }
}

/// Whether the collector type proposes a configuration of its own during discovery.
pub open spec fn has_discovery(k: Collectors) -> bool {
    match k {
        Collectors::BlockIo => true,
        Collectors::Cpu => true,
        Collectors::Dns => false,
        Collectors::Exec => false,
        Collectors::Fs => true,
        Collectors::Http => false,
        Collectors::Memory => true,
        Collectors::ModbusRtu => false,
        Collectors::ModbusTcp => false,
        Collectors::Mysql => false,
        Collectors::Network => true,
        Collectors::Pgbouncer => false,
        Collectors::Postgres => false,
        Collectors::PostgresQuery => false,
        Collectors::Procstat => true,
        Collectors::Redis => false,
        Collectors::Sockets => true,
        Collectors::Spool => false,
        Collectors::TwampReflector => false,
        Collectors::TwampSender => false,
        Collectors::Uptime => false,
    }
}

/// A collector type is found again by its name: names are distinct, and
/// `kind_by_name` reads back what `kind_name` writes.
pub proof fn lemma_name_round_trip(k: Collectors)
    ensures
        kind_by_name(kind_name(k)) == Some(k),
{
    reveal_strlit("block_io");
    reveal_strlit("cpu");
    reveal_strlit("dns");
    reveal_strlit("exec");
    reveal_strlit("fs");
    reveal_strlit("http");
    reveal_strlit("memory");
    reveal_strlit("modbus_rtu");
    reveal_strlit("modbus_tcp");
    reveal_strlit("mysql");
    reveal_strlit("network");
    reveal_strlit("pgbouncer");
    reveal_strlit("postgres");
    reveal_strlit("postgres_query");
    reveal_strlit("procstat");
    reveal_strlit("redis");
    reveal_strlit("sockets");
    reveal_strlit("spool");
    reveal_strlit("twamp_reflector");
    reveal_strlit("twamp_sender");
    reveal_strlit("uptime");
    assert("block_io"@.len() == 8 && "block_io"@[0] == 'b');
    assert("cpu"@.len() == 3 && "cpu"@[0] == 'c');
    assert("dns"@.len() == 3 && "dns"@[0] == 'd');
    assert("exec"@.len() == 4 && "exec"@[0] == 'e');
    assert("fs"@.len() == 2 && "fs"@[0] == 'f');
    assert("http"@.len() == 4 && "http"@[0] == 'h');
    assert("memory"@.len() == 6 && "memory"@[0] == 'm');
    assert("modbus_rtu"@.len() == 10 && "modbus_rtu"@[0] == 'm');
    assert("modbus_tcp"@.len() == 10 && "modbus_tcp"@[0] == 'm');
    assert("mysql"@.len() == 5 && "mysql"@[0] == 'm');
    assert("network"@.len() == 7 && "network"@[0] == 'n');
    assert("pgbouncer"@.len() == 9 && "pgbouncer"@[0] == 'p');
    assert("postgres"@.len() == 8 && "postgres"@[0] == 'p');
    assert("postgres_query"@.len() == 14 && "postgres_query"@[0] == 'p');
    assert("procstat"@.len() == 8 && "procstat"@[0] == 'p');
    assert("redis"@.len() == 5 && "redis"@[0] == 'r');
    assert("sockets"@.len() == 7 && "sockets"@[0] == 's');
    assert("spool"@.len() == 5 && "spool"@[0] == 's');
    assert("twamp_reflector"@.len() == 15 && "twamp_reflector"@[0] == 't');
    assert("twamp_sender"@.len() == 12 && "twamp_sender"@[0] == 't');
    assert("uptime"@.len() == 6 && "uptime"@[0] == 'u');
    assert("modbus_rtu"@[7] == 'r' && "modbus_tcp"@[7] == 't');
    assert("postgres"@[0] == 'p' && "procstat"@[1] == 'r' && "postgres"@[1] == 'o');
}

/// The names of all collector types, in registry order.
pub open spec fn all_names() -> Seq<Seq<char>> {
    names_of(all_kinds())
}

/// The names of collector types, in order.
pub open spec fn names_of(ks: Seq<Collectors>) -> Seq<Seq<char>> {
    ks.map_values(|k: Collectors| kind_name(k))
}

/// Every name comes before every later one.
pub open spec fn strictly_ascending(s: Seq<Seq<char>>) -> bool {
    forall|i: int, j: int| 0 <= i < j < s.len() ==> seq_lt(#[trigger] s[i], #[trigger] s[j])
}

proof fn lemma_ascending_from_steps(s: Seq<Seq<char>>)
    requires
        forall|i: int| 0 <= i < s.len() - 1 ==> seq_lt(#[trigger] s[i], s[i + 1]),
    ensures
        strictly_ascending(s),
    decreases s.len(),
{
    if s.len() > 1 {
        let p = s.drop_last();
        assert forall|i: int| 0 <= i < p.len() - 1 implies seq_lt(#[trigger] p[i], p[i + 1]) by {
            assert(p[i] == s[i] && p[i + 1] == s[i + 1]);
        }
        lemma_ascending_from_steps(p);
        assert forall|i: int, j: int| 0 <= i < j < s.len() implies seq_lt(#[trigger] s[i], #[trigger] s[j]) by {
            if j < s.len() - 1 {
                assert(p[i] == s[i] && p[j] == s[j]);
            } else if i < j - 1 {
                assert(p[i] == s[i] && p[j - 1] == s[j - 1]);
                assert(seq_lt(s[j - 1], s[j]));
                lemma_lt_transitive(s[i], s[j - 1], s[j]);
            }
        }
    }
}

/// The registry lists its collector types in strictly ascending order of
/// their names, so no name occurs twice.
pub proof fn lemma_names_ascending()
    ensures
        strictly_ascending(all_names()),
{
    reveal_strlit("block_io");
    reveal_strlit("cpu");
    reveal_strlit("dns");
    reveal_strlit("exec");
    reveal_strlit("fs");
    reveal_strlit("http");
    reveal_strlit("memory");
    reveal_strlit("modbus_rtu");
    reveal_strlit("modbus_tcp");
    reveal_strlit("mysql");
    reveal_strlit("network");
    reveal_strlit("pgbouncer");
    reveal_strlit("postgres");
    reveal_strlit("postgres_query");
    reveal_strlit("procstat");
    reveal_strlit("redis");
    reveal_strlit("sockets");
    reveal_strlit("spool");
    reveal_strlit("twamp_reflector");
    reveal_strlit("twamp_sender");
    reveal_strlit("uptime");
    assert("block_io"@.take(0) =~= "cpu"@.take(0));
    lemma_lt_at("block_io"@, "cpu"@, 0);
    assert("cpu"@.take(0) =~= "dns"@.take(0));
    lemma_lt_at("cpu"@, "dns"@, 0);
    assert("dns"@.take(0) =~= "exec"@.take(0));
    lemma_lt_at("dns"@, "exec"@, 0);
    assert("exec"@.take(0) =~= "fs"@.take(0));
    lemma_lt_at("exec"@, "fs"@, 0);
    assert("fs"@.take(0) =~= "http"@.take(0));
    lemma_lt_at("fs"@, "http"@, 0);
    assert("http"@.take(0) =~= "memory"@.take(0));
    lemma_lt_at("http"@, "memory"@, 0);
    assert("memory"@.take(1) =~= "modbus_rtu"@.take(1));
    lemma_lt_at("memory"@, "modbus_rtu"@, 1);
    assert("modbus_rtu"@.take(7) =~= "modbus_tcp"@.take(7));
    lemma_lt_at("modbus_rtu"@, "modbus_tcp"@, 7);
    assert("modbus_tcp"@.take(1) =~= "mysql"@.take(1));
    lemma_lt_at("modbus_tcp"@, "mysql"@, 1);
    assert("mysql"@.take(0) =~= "network"@.take(0));
    lemma_lt_at("mysql"@, "network"@, 0);
    assert("network"@.take(0) =~= "pgbouncer"@.take(0));
    lemma_lt_at("network"@, "pgbouncer"@, 0);
    assert("pgbouncer"@.take(1) =~= "postgres"@.take(1));
    lemma_lt_at("pgbouncer"@, "postgres"@, 1);
    assert("postgres"@.take(8) =~= "postgres_query"@.take(8));
    lemma_lt_at("postgres"@, "postgres_query"@, 8);
    assert("postgres_query"@.take(1) =~= "procstat"@.take(1));
    lemma_lt_at("postgres_query"@, "procstat"@, 1);
    assert("procstat"@.take(0) =~= "redis"@.take(0));
    lemma_lt_at("procstat"@, "redis"@, 0);
    assert("redis"@.take(0) =~= "sockets"@.take(0));
    lemma_lt_at("redis"@, "sockets"@, 0);
    assert("sockets"@.take(1) =~= "spool"@.take(1));
    lemma_lt_at("sockets"@, "spool"@, 1);
    assert("spool"@.take(0) =~= "twamp_reflector"@.take(0));
    lemma_lt_at("spool"@, "twamp_reflector"@, 0);
    assert("twamp_reflector"@.take(6) =~= "twamp_sender"@.take(6));
    lemma_lt_at("twamp_reflector"@, "twamp_sender"@, 6);
    assert("twamp_sender"@.take(0) =~= "uptime"@.take(0));
    lemma_lt_at("twamp_sender"@, "uptime"@, 0);
    let s = all_names();
    assert forall|i: int| 0 <= i < s.len() - 1 implies seq_lt(#[trigger] s[i], s[i + 1]) by {
        assert(s[i] == kind_name(all_kinds()[i]));
        assert(s[i + 1] == kind_name(all_kinds()[i + 1]));
    }
    lemma_ascending_from_steps(s);
}

/// A configuration proposed by discovery: the one that the collector type
/// builds for itself.
#[derive(Debug, Clone, Copy, PartialEq, Eq, Structural)]
pub struct ConfigItem {
    pub collector: Collectors,
    /// The process collector's `self_pid` setting, where the configuration
    /// sets it; a proposed configuration sets no other setting.
    pub self_pid: Option<bool>,
}

/// The configuration a collector type proposes for itself: the process
/// collector watches the agent's own process, the others take no settings.
pub open spec fn proposed_item(k: Collectors) -> ConfigItem {
    ConfigItem { collector: k, self_pid: if k is Procstat { Some(true) } else { None } }
}

/// What discovery proposes for the types `ks`, in order: each type that
/// proposes a configuration and is not disabled, with its one configuration.
pub open spec fn discovered(ks: Seq<Collectors>, o: OptsView) -> Seq<(Seq<char>, Seq<ConfigItem>)>
    decreases ks.len(),
{
    if ks.len() == 0 {
        Seq::empty()
    } else {
        let prev = discovered(ks.drop_last(), o);
        let k = ks.last();
        if has_discovery(k) && !disabled_under(o, kind_name(k)) {
            prev.push((kind_name(k), seq![proposed_item(k)]))
        } else {
            prev
        }
    }
}

pub open spec fn discovery_views(v: Seq<(String, Vec<ConfigItem>)>) -> Seq<(Seq<char>, Seq<ConfigItem>)> {
    v.map_values(|p: (String, Vec<ConfigItem>)| (p.0@, p.1@))
}
impl Collectors {
    /// Whether the first collection waits a random part of the interval.
    pub open spec fn is_random_offset_spec(&self) -> bool {
        !(*self is TwampReflector)
    }

    /// The name of the collector type.
    pub fn get_name(&self) -> (r: &'static str)
        ensures
            r@ == kind_name(*self),
    {
        match self {
            Collectors::BlockIo => "block_io",
            Collectors::Cpu => "cpu",
            Collectors::Dns => "dns",
            Collectors::Exec => "exec",
            Collectors::Fs => "fs",
            Collectors::Http => "http",
            Collectors::Memory => "memory",
            Collectors::ModbusRtu => "modbus_rtu",
            Collectors::ModbusTcp => "modbus_tcp",
            Collectors::Mysql => "mysql",
            Collectors::Network => "network",
            Collectors::Pgbouncer => "pgbouncer",
            Collectors::Postgres => "postgres",
            Collectors::PostgresQuery => "postgres_query",
            Collectors::Procstat => "procstat",
            Collectors::Redis => "redis",
            Collectors::Sockets => "sockets",
            Collectors::Spool => "spool",
            Collectors::TwampReflector => "twamp_reflector",
            Collectors::TwampSender => "twamp_sender",
            Collectors::Uptime => "uptime",
        }
    }

    /// Whether the first collection is delayed by a random part of the
    /// interval; only the TWAMP reflector starts at once.
    pub fn is_random_offset(&self) -> (r: bool)
        ensures
            r == self.is_random_offset_spec(),
    {
        match self {
            Collectors::TwampReflector => false,
            _ => true,
        }
    }

    /// The names of all collector types, in registry order.
    pub fn to_vec() -> (r: Vec<String>)
        ensures
            r@.map_values(|s: String| s@) == all_kinds().map_values(|k: Collectors| kind_name(k)),
    {
        let ks = Collectors::all();
        let mut r: Vec<String> = Vec::new();
        let mut i: usize = 0;
        while i < ks.len()
            invariant
                i <= ks.len(),
                ks@ == all_kinds(),
                r@.map_values(|s: String| s@) == all_kinds().take(i as int).map_values(|k: Collectors| kind_name(k)),
            decreases ks.len() - i,
        {
            let name = ks[i].get_name();
            let ghost r0 = r@;
            r.push(name.to_owned());
            assert(r@.map_values(|s: String| s@) =~= r0.map_values(|s: String| s@).push(kind_name(ks@[i as int])));
            assert(all_kinds().take(i + 1) =~= all_kinds().take(i as int).push(ks@[i as int]));
            assert(all_kinds().take(i + 1).map_values(|k: Collectors| kind_name(k)) =~= all_kinds().take(i as int).map_values(|k: Collectors| kind_name(k)).push(kind_name(ks@[i as int])));
            i = i + 1;
        }
        assert(all_kinds().take(i as int) =~= all_kinds());
        r
    }

    /// Every collector type, in registry order.
    pub fn all() -> (r: Vec<Collectors>)
        ensures
            r@ == all_kinds(),
    {
        let r = vec![
            Collectors::BlockIo,
            Collectors::Cpu,
            Collectors::Dns,
            Collectors::Exec,
            Collectors::Fs,
            Collectors::Http,
            Collectors::Memory,
            Collectors::ModbusRtu,
            Collectors::ModbusTcp,
            Collectors::Mysql,
            Collectors::Network,
            Collectors::Pgbouncer,
            Collectors::Postgres,
            Collectors::PostgresQuery,
            Collectors::Procstat,
            Collectors::Redis,
            Collectors::Sockets,
            Collectors::Spool,
            Collectors::TwampReflector,
            Collectors::TwampSender,
            Collectors::Uptime
        ];
        assert(r@ =~= all_kinds());
        r
    }

    /// The collector type named `name`.
    pub fn from_name(name: &str) -> (r: Option<Collectors>)
        ensures
            r == kind_by_name(name@),
    {
        if str_eq(name, "block_io") {
            return Some(Collectors::BlockIo);
        }
        if str_eq(name, "cpu") {
            return Some(Collectors::Cpu);
        }
        if str_eq(name, "dns") {
            return Some(Collectors::Dns);
        }
        if str_eq(name, "exec") {
            return Some(Collectors::Exec);
        }
        if str_eq(name, "fs") {
            return Some(Collectors::Fs);
        }
        if str_eq(name, "http") {
            return Some(Collectors::Http);
        }
        if str_eq(name, "memory") {
            return Some(Collectors::Memory);
        }
        if str_eq(name, "modbus_rtu") {
            return Some(Collectors::ModbusRtu);
        }
        if str_eq(name, "modbus_tcp") {
            return Some(Collectors::ModbusTcp);
        }
        if str_eq(name, "mysql") {
            return Some(Collectors::Mysql);
        }
        if str_eq(name, "network") {
            return Some(Collectors::Network);
        }
        if str_eq(name, "pgbouncer") {
            return Some(Collectors::Pgbouncer);
        }
        if str_eq(name, "postgres") {
            return Some(Collectors::Postgres);
        }
        if str_eq(name, "postgres_query") {
            return Some(Collectors::PostgresQuery);
        }
        if str_eq(name, "procstat") {
            return Some(Collectors::Procstat);
        }
        if str_eq(name, "redis") {
            return Some(Collectors::Redis);
        }
        if str_eq(name, "sockets") {
            return Some(Collectors::Sockets);
        }
        if str_eq(name, "spool") {
            return Some(Collectors::Spool);
        }
        if str_eq(name, "twamp_reflector") {
            return Some(Collectors::TwampReflector);
        }
        if str_eq(name, "twamp_sender") {
            return Some(Collectors::TwampSender);
        }
        if str_eq(name, "uptime") {
            return Some(Collectors::Uptime);
        }
        None
    }

    /// The collector type of a configuration; an unknown type is an
    /// `InvalidCollectorError` carrying the type's name.
    pub fn try_from(value: &CollectorConfig) -> (r: Result<Collectors, AgentError>)
        ensures
            match kind_by_name(value.kind@) {
                Some(k) => r == Ok::<Collectors, AgentError>(k),
                None => r matches Err(AgentError::InvalidCollectorError(s)) && s@ == value.kind@,
            },
    {
        match Collectors::from_name(value.kind.as_str()) {
            Some(k) => Ok(k),
            None => Err(AgentError::InvalidCollectorError(value.kind.clone())),
        }
    }

    /// The collector configurations that discovery proposes: each type in
    /// registry order that has one and is not disabled by `opts`, with its
    /// name.
    pub fn discover_config(opts: &ConfigDiscoveryOpts) -> (r: Result<Vec<(String, Vec<ConfigItem>)>, AgentError>)
        ensures
            r matches Ok(v) && discovery_views(v@) == discovered(all_kinds(), opts@),
    {
        let ks = Collectors::all();
        let mut r: Vec<(String, Vec<ConfigItem>)> = Vec::new();
        let mut i: usize = 0;
        while i < ks.len()
            invariant
                i <= ks.len(),
                ks@ == all_kinds(),
                discovery_views(r@) == discovered(all_kinds().take(i as int), opts@),
            decreases ks.len() - i,
        {
            let k = ks[i];
            assert(all_kinds().take(i + 1).drop_last() =~= all_kinds().take(i as int));
            assert(all_kinds().take(i + 1).last() == k);
            let name = k.get_name();
            if k.proposes_config() && !opts.is_disabled(name) {
                let ghost r0 = r@;
                let mut items: Vec<ConfigItem> = Vec::new();
                items.push(k.proposed_item());
                assert(items@ =~= seq![proposed_item(k)]);
                r.push((name.to_owned(), items));
                assert(discovery_views(r@) =~= discovery_views(r0).push((kind_name(k), seq![proposed_item(k)])));
            }
            i = i + 1;
        }
        assert(all_kinds().take(i as int) =~= all_kinds());
        Ok(r)
    }

    /// The configuration the type proposes for itself (see `proposed_item`).
    pub fn proposed_item(&self) -> (r: ConfigItem)
        ensures
            r == proposed_item(*self),
    {
        let self_pid = match self {
            Collectors::Procstat => Some(true),
            _ => None,
        };
        ConfigItem { collector: *self, self_pid }
    }

    /// Whether the type proposes a configuration of its own during discovery.
    pub fn proposes_config(&self) -> (r: bool)
        ensures
            r == has_discovery(*self),
    {
        match self {
            Collectors::BlockIo | Collectors::Cpu | Collectors::Fs | Collectors::Memory | Collectors::Network
            | Collectors::Procstat | Collectors::Sockets => true,
            _ => false,
        }
    }
}

proof fn lemma_discovered_names(ks: Seq<Collectors>, o: OptsView, n: Seq<char>)
    ensures
        (exists|i: int| 0 <= i < discovered(ks, o).len() && (#[trigger] discovered(ks, o)[i]).0 == n)
            <==> (exists|j: int| 0 <= j < ks.len() && kind_name(#[trigger] ks[j]) == n && has_discovery(ks[j])
                && !disabled_under(o, n)),
    decreases ks.len(),
{
    if ks.len() > 0 {
        let pre = ks.drop_last();
        lemma_discovered_names(pre, o, n);
        let d = discovered(ks, o);
        let dp = discovered(pre, o);
        let k = ks.last();
        if exists|j: int| 0 <= j < ks.len() && kind_name(#[trigger] ks[j]) == n && has_discovery(ks[j]) && !disabled_under(o, n) {
            let j = choose|j: int| 0 <= j < ks.len() && kind_name(#[trigger] ks[j]) == n && has_discovery(ks[j]) && !disabled_under(o, n);
            if j < ks.len() - 1 {
                assert(pre[j] == ks[j]);
                let i = choose|i: int| 0 <= i < dp.len() && (#[trigger] dp[i]).0 == n;
                if has_discovery(k) && !disabled_under(o, kind_name(k)) {
                    assert(d[i] == dp[i]);
                } else {
                    assert(d == dp);
                }
            } else {
                assert(d[d.len() - 1].0 == n);
            }
        }
        if exists|i: int| 0 <= i < d.len() && (#[trigger] d[i]).0 == n {
            let i = choose|i: int| 0 <= i < d.len() && (#[trigger] d[i]).0 == n;
            if has_discovery(k) && !disabled_under(o, kind_name(k)) {
                if i < dp.len() {
                    assert(d[i] == dp[i]);
                    let j = choose|j: int| 0 <= j < pre.len() && kind_name(#[trigger] pre[j]) == n && has_discovery(pre[j]) && !disabled_under(o, n);
                    assert(ks[j] == pre[j]);
                } else {
                    assert(kind_name(ks[ks.len() - 1]) == n);
                }
            } else {
                assert(d == dp);
                let j = choose|j: int| 0 <= j < pre.len() && kind_name(#[trigger] pre[j]) == n && has_discovery(pre[j]) && !disabled_under(o, n);
                assert(ks[j] == pre[j]);
            }
        }
    }
}

/// Discovery proposes a collector type exactly when the type proposes a
/// configuration of its own and the options do not disable it.
pub proof fn lemma_discovery_respects_options(o: OptsView, k: Collectors)
    ensures
        (exists|i: int| 0 <= i < discovered(all_kinds(), o).len() && (#[trigger] discovered(all_kinds(), o)[i]).0 == kind_name(k))
            <==> (has_discovery(k) && !disabled_under(o, kind_name(k))),
{
    let ks = all_kinds();
    lemma_discovered_names(ks, o, kind_name(k));
    lemma_name_round_trip(k);
    assert forall|j: int| 0 <= j < ks.len() && kind_name(#[trigger] ks[j]) == kind_name(k) implies ks[j] == k by {
        lemma_name_round_trip(ks[j]);
    }
    let jk: int = match k {
        Collectors::BlockIo => 0,
        Collectors::Cpu => 1,
        Collectors::Dns => 2,
        Collectors::Exec => 3,
        Collectors::Fs => 4,
        Collectors::Http => 5,
        Collectors::Memory => 6,
        Collectors::ModbusRtu => 7,
        Collectors::ModbusTcp => 8,
        Collectors::Mysql => 9,
        Collectors::Network => 10,
        Collectors::Pgbouncer => 11,
        Collectors::Postgres => 12,
        Collectors::PostgresQuery => 13,
        Collectors::Procstat => 14,
        Collectors::Redis => 15,
        Collectors::Sockets => 16,
        Collectors::Spool => 17,
        Collectors::TwampReflector => 18,
        Collectors::TwampSender => 19,
        Collectors::Uptime => 20,
    };
    assert(ks[jk] == k);
}

/// The names of what discovery proposes.
pub open spec fn discovered_names(d: Seq<(Seq<char>, Seq<ConfigItem>)>) -> Seq<Seq<char>> {
    d.map_values(|p: (Seq<char>, Seq<ConfigItem>)| p.0)
}

proof fn lemma_discovered_ascending(ks: Seq<Collectors>, o: OptsView)
    requires
        strictly_ascending(names_of(ks)),
    ensures
        strictly_ascending(discovered_names(discovered(ks, o))),
        forall|i: int| 0 <= i < discovered(ks, o).len() ==> exists|j: int| 0 <= j < ks.len()
            && (#[trigger] discovered(ks, o)[i]).0 == kind_name(ks[j])
            && discovered(ks, o)[i].1 == seq![proposed_item(ks[j])]
            && has_discovery(ks[j]) && !disabled_under(o, kind_name(ks[j])),
    decreases ks.len(),
{
    if ks.len() > 0 {
        let pre = ks.drop_last();
        let names = names_of(ks);
        assert forall|i: int, j: int| 0 <= i < j < pre.len() implies
            seq_lt(#[trigger] names_of(pre)[i], #[trigger] names_of(pre)[j]) by {
            assert(names[i] == kind_name(ks[i]) && names[j] == kind_name(ks[j]));
        }
        lemma_discovered_ascending(pre, o);
        let dp = discovered(pre, o);
        let d = discovered(ks, o);
        let k = ks.last();
        if has_discovery(k) && !disabled_under(o, kind_name(k)) {
            assert forall|i: int| 0 <= i < d.len() implies exists|j: int| 0 <= j < ks.len()
                && (#[trigger] d[i]).0 == kind_name(ks[j]) && d[i].1 == seq![proposed_item(ks[j])]
                && has_discovery(ks[j]) && !disabled_under(o, kind_name(ks[j])) by {
                if i < dp.len() {
                    assert(d[i] == dp[i]);
                    let j = choose|j: int| 0 <= j < pre.len() && (#[trigger] dp[i]).0 == kind_name(pre[j])
                        && dp[i].1 == seq![proposed_item(pre[j])] && has_discovery(pre[j]) && !disabled_under(o, kind_name(pre[j]));
                    assert(ks[j] == pre[j]);
                } else {
                    assert(ks[ks.len() - 1] == k);
                }
            }
            let dn = discovered_names(d);
            assert forall|i: int, j: int| 0 <= i < j < dn.len() implies seq_lt(#[trigger] dn[i], #[trigger] dn[j]) by {
                if j < dp.len() {
                    assert(d[i] == dp[i] && d[j] == dp[j]);
                    assert(discovered_names(dp)[i] == dn[i] && discovered_names(dp)[j] == dn[j]);
                } else {
                    assert(d[i] == dp[i]);
                    let jj = choose|jj: int| 0 <= jj < pre.len() && (#[trigger] dp[i]).0 == kind_name(pre[jj])
                        && dp[i].1 == seq![proposed_item(pre[jj])] && has_discovery(pre[jj]) && !disabled_under(o, kind_name(pre[jj]));
                    assert(names[jj] == kind_name(ks[jj]) && ks[jj] == pre[jj]);
                    assert(names[ks.len() - 1] == kind_name(k));
                }
            }
        } else {
            assert(d == dp);
            assert forall|i: int| 0 <= i < d.len() implies exists|j: int| 0 <= j < ks.len()
                && (#[trigger] d[i]).0 == kind_name(ks[j]) && d[i].1 == seq![proposed_item(ks[j])]
                && has_discovery(ks[j]) && !disabled_under(o, kind_name(ks[j])) by {
                let j = choose|j: int| 0 <= j < pre.len() && (#[trigger] dp[i]).0 == kind_name(pre[j])
                    && dp[i].1 == seq![proposed_item(pre[j])] && has_discovery(pre[j]) && !disabled_under(o, kind_name(pre[j]));
                assert(ks[j] == pre[j]);
            }
        }
    }
}

/// What discovery proposes comes in the registry's order of names, each
/// name once: the names are strictly ascending, and each entry is a type
/// of the registry, not disabled, with the one configuration it proposes.
pub proof fn lemma_discovery_ordered(o: OptsView)
    ensures
        strictly_ascending(discovered_names(discovered(all_kinds(), o))),
        forall|i: int| 0 <= i < discovered(all_kinds(), o).len() ==> exists|j: int| 0 <= j < all_kinds().len()
            && (#[trigger] discovered(all_kinds(), o)[i]).0 == kind_name(all_kinds()[j])
            && discovered(all_kinds(), o)[i].1 == seq![proposed_item(all_kinds()[j])]
            && has_discovery(all_kinds()[j]) && !disabled_under(o, kind_name(all_kinds()[j])),
{
    lemma_names_ascending();
    lemma_discovered_ascending(all_kinds(), o);
}

} // verus!
