use gufo_agent::agent::{choose_hostname, Agent, AgentBuilder, CollectorAction, CollectorPlan, RunningCollector};
use gufo_agent::config::{CollectorConfig, SenderConfig, AGENT_DEFAULT_INTERVAL};
use gufo_agent::counters::{check_setup_mode, spool_order, ReflectorCollector, ReflectorStep, SpoolCollector, CollectorStats, DnsStats, ExecCollector, SessionStats, SpoolStats, compressed_size, dscp_of, get_reflector_port};
use gufo_agent::discovery::ConfigDiscoveryOpts;
use gufo_agent::error::AgentError;
use gufo_agent::fs::{is_ignored_fs, mount_measures, MountStat};
use gufo_agent::host::{block_measures, http_measures, network_measures, socket_measures, uptime_measures, BlockStat, NetStat, SocketStat};
use gufo_agent::label::{Label, LabelMap, Labels};
use gufo_agent::mdb::{MetricsData, MetricsDb, ValueType};
use gufo_agent::measure::{Measure, Value};
use gufo_agent::memory::{meminfo_measures, totals};
use gufo_agent::modbus_rtu::{coil_values, default_holding, items_from_config, CfgParity, CollectorConfigItem, CollectorItem, ConfigDefaults, RegisterType};
use gufo_agent::modbus_tcp::{TcpCollector, TcpConfigItem};
use gufo_agent::mysql_query::{ColumnReference, ConfigQueryItem, QueryItem, RowFields};
use gufo_agent::netaddr::SocketAddrV4;
use gufo_agent::pattern::{LabelMapRule, ProcstatConfig, ProcstatSettings};
use gufo_agent::pkt::{ImixConfig, ImixModel, PacketModel, IMIX_ROUND};
use gufo_agent::mysql::{parse_u64, status_measure};
use gufo_agent::postgres_query;
use gufo_agent::procstat::{process_measures, ProcStat};
use gufo_agent::pgstats::{pg_database_measures, pgbouncer_measures, PgDatabaseStats, PgbStatsRow};
use gufo_agent::redis::{parse, redis_gauges, redis_measure, InfoItem, InfoValue, RedisValue};
use gufo_agent::registry::{Collectors, ConfigItem};
use gufo_agent::relabel::{ActiveLabels, RelabelRuleConfig};
use gufo_agent::resolver::ConfigResolver;
use gufo_agent::schedule::{next_sleep, Schedule};
use gufo_agent::sd::{DnsRecord, get_address, get_url, join_strings, AgentService, ConsulSd, DnsSd, QueryType, StaticSd};
use gufo_agent::sender::{endpoint_path, tls_redirect_url, FileChecks, Sender, SenderCommand, SenderStep};
use gufo_agent::sqlrow::{Cell, ColumnInfo};

fn labels(pairs: &[(&str, &str)]) -> Labels {
    Labels::new(pairs.iter().map(|(k, v)| Label::new(k, v)).collect())
}

fn measure(name: &str, help: &str, value: Value, l: Labels) -> Measure {
    Measure { name: name.to_string(), help: help.to_string(), value, labels: l, timestamp: None }
}

fn collector_config(id: &str, kind: &str, interval: Option<u64>) -> CollectorConfig {
    CollectorConfig { id: id.to_string(), kind: kind.to_string(), interval, disabled: false, labels: None, relabel: None }
}

// ---- labels

#[test]
fn labels_push_skips_empty_values() {
    let mut l = Labels::default();
    l.push(Label::new("a", ""));
    assert!(l.is_empty());
    assert_eq!(l.len(), 0);
    l.push(Label::new("a", "1"));
    assert_eq!(l.len(), 1);
    assert_eq!(l.to_openmetrics(), "a=\"1\"");
}

#[test]
fn labels_merge_sort4_later_wins_and_sorts() {
    let a = labels(&[("zone", "a"), ("host", "h1")]);
    let b = labels(&[("collector", "cpu")]);
    let c = labels(&[("host", "h2"), ("empty", "")]);
    let d = Labels::default();
    let r = Labels::merge_sort4(&a, &b, &c, &d);
    assert_eq!(r.to_openmetrics(), "collector=\"cpu\",host=\"h2\",zone=\"a\"");
}

#[test]
fn labels_merge_sort4_all_empty_is_absent() {
    let r = Labels::merge_sort4(&Labels::default(), &labels(&[]), &Labels::default(), &Labels::default());
    assert_eq!(r, Labels::default());
}

#[test]
fn labels_compare_orders_absent_first() {
    let none = Labels::default();
    let a = labels(&[("a", "1")]);
    let b = labels(&[("a", "2")]);
    assert!(none.compare(&a) < 0);
    assert!(a.compare(&b) < 0);
    assert!(b.compare(&a) > 0);
    assert_eq!(a.compare(&a.duplicate()), 0);
    assert!(a.same_as(&labels(&[("a", "1")])));
}

#[test]
fn label_map_insert_then_get() {
    let mut m = LabelMap::new();
    m.insert("b".to_string(), "2".to_string());
    m.insert("a".to_string(), "1".to_string());
    m.insert("b".to_string(), "3".to_string());
    assert_eq!(m.len(), 2);
    assert_eq!(m.get("b").map(|s| s.as_str()), Some("3"));
    assert_eq!(m.get("c"), None);
    let e = m.entries();
    assert_eq!(e[0].key, "a");
    assert_eq!(e[1].value, "3");
    let from = Labels::from_config(&Some(m));
    assert_eq!(from.to_openmetrics(), "a=\"1\",b=\"3\"");
}

// ---- values and measures

#[test]
fn value_text() {
    assert_eq!(Value::Counter(42).to_string(), "42");
    assert_eq!(Value::GaugeI(-7).to_string(), "-7");
    assert_eq!(Value::GaugeF("0.5".to_string()).to_string(), "0.5");
    assert_eq!(ValueType::from_value(&Value::CounterF("1".to_string())).as_str(), "counter");
    assert_eq!(ValueType::from_value(&Value::GaugeI(1)).as_str(), "gauge");
}

// ---- metrics database

#[test]
fn empty_db_text_is_eof() {
    let db = MetricsDb::new();
    assert_eq!(db.to_openmetrics_string().unwrap(), "# EOF\n");
}

#[test]
fn db_text_after_data() {
    let mut db = MetricsDb::new();
    db.set_labels(labels(&[("host", "h")]));
    let data = MetricsData {
        collector: "cpu".to_string(),
        labels: labels(&[("dc", "x")]),
        measures: vec![
            measure("cpu_idle", "Idle", Value::Gauge(5), labels(&[("cpu", "1")])),
            measure("cpu_idle", "Idle", Value::Gauge(7), labels(&[("cpu", "0")])),
            measure("ticks", "", Value::Counter(3), Labels::default()),
        ],
        ts: 100,
    };
    db.apply_data(&data);
    let text = db.to_openmetrics_string().unwrap();
    let expected = "# HELP cpu_idle Idle\n# TYPE cpu_idle gauge\n\
cpu_idle{collector=\"cpu\",cpu=\"0\",dc=\"x\",host=\"h\"} 7 100\n\
cpu_idle{collector=\"cpu\",cpu=\"1\",dc=\"x\",host=\"h\"} 5 100\n\
# TYPE ticks counter\n\
ticks{collector=\"cpu\",dc=\"x\",host=\"h\"} 3 100\n# EOF\n";
    assert_eq!(text, expected);
}

#[test]
fn db_keeps_latest_value() {
    let mut db = MetricsDb::new();
    let first = MetricsData {
        collector: "uptime".to_string(),
        labels: Labels::default(),
        measures: vec![measure("uptime", "System uptime", Value::Counter(1), Labels::default())],
        ts: 0,
    };
    let second = MetricsData {
        collector: "uptime".to_string(),
        labels: Labels::default(),
        measures: vec![measure("uptime", "System uptime", Value::Counter(9), Labels::default())],
        ts: 0,
    };
    db.apply_data(&first);
    db.apply_data(&second);
    assert_eq!(
        db.to_openmetrics_string().unwrap(),
        "# HELP uptime System uptime\n# TYPE uptime counter\nuptime{collector=\"uptime\"} 9\n# EOF\n"
    );
}

#[test]
fn db_families_ordered_by_collector_then_name() {
    let mut db = MetricsDb::new();
    for (c, n) in [("b", "x"), ("a", "z"), ("a", "y")] {
        db.apply_data(&MetricsData {
            collector: c.to_string(),
            labels: Labels::default(),
            measures: vec![measure(n, "", Value::Gauge(1), Labels::default())],
            ts: 0,
        });
    }
    let text = db.to_openmetrics_string().unwrap();
    let y = text.find("# TYPE y").unwrap();
    let z = text.find("# TYPE z").unwrap();
    let x = text.find("# TYPE x").unwrap();
    assert!(y < z && z < x);
}

// ---- registry

#[test]
fn registry_names() {
    let names = Collectors::to_vec();
    assert_eq!(names.len(), 21);
    assert_eq!(names[0], "block_io");
    assert_eq!(names[20], "uptime");
    assert_eq!(names[9], "mysql");
    for n in names.iter() {
        let k = Collectors::from_name(n).unwrap();
        assert_eq!(k.get_name(), n.as_str());
    }
    assert!(Collectors::from_name("nope").is_none());
    assert!(!Collectors::TwampReflector.is_random_offset());
    assert!(Collectors::Cpu.is_random_offset());
}

#[test]
fn registry_try_from_unknown() {
    let r = Collectors::try_from(&collector_config("x", "nope", Some(1)));
    assert_eq!(r, Err(AgentError::InvalidCollectorError("nope".to_string())));
    assert_eq!(Collectors::try_from(&collector_config("x", "dns", Some(1))), Ok(Collectors::Dns));
}

#[test]
fn registry_discover_config() {
    let opts = ConfigDiscoveryOpts::try_from("-cpu".to_string()).unwrap();
    let found = Collectors::discover_config(&opts).unwrap();
    let names: Vec<&str> = found.iter().map(|(n, _)| n.as_str()).collect();
    assert_eq!(names, vec!["block_io", "fs", "memory", "network", "procstat", "sockets"]);
    assert_eq!(found[4].1, vec![ConfigItem { collector: Collectors::Procstat, self_pid: Some(true) }]);
    let only = ConfigDiscoveryOpts::try_from("-builtins,+memory,+dns".to_string()).unwrap();
    let found = Collectors::discover_config(&only).unwrap();
    assert_eq!(found.len(), 1);
    assert_eq!(found[0].0, "memory");
}

#[test]
fn discovery_script_paths_deduplicated() {
    let mut opts = ConfigDiscoveryOpts::try_from("".to_string()).unwrap();
    opts.script_path("/a");
    opts.script_path("/b");
    opts.script_path("/a");
    assert_eq!(opts.script_paths(), vec!["/a".to_string(), "/b".to_string()]);
}

// ---- resolver

#[test]
fn resolver_locations() {
    let mut b = ConfigResolver::builder();
    assert_eq!(b.build().config_path(), Err(AgentError::BootstrapError("Config location is not set".to_string())));
    b.set_url(Some("file:/etc/agent.yml".to_string()));
    assert_eq!(b.build().config_path(), Ok("/etc/agent.yml".to_string()));
    b.set_url(Some("/etc/x.yml".to_string()));
    assert_eq!(b.build().config_path(), Ok("/etc/x.yml".to_string()));
    b.set_url(Some("https://example.com/cfg".to_string()));
    assert_eq!(b.build().config_path(), Err(AgentError::NotImplementedError));
    b.set_cert_validation(true);
    assert!(b.cert_validation);
}

// ---- agent

fn plan(id: &str, disabled: bool, hash: u64, startable: bool) -> CollectorPlan {
    CollectorPlan { id: id.to_string(), disabled, config_hash: hash, startable }
}

fn running(agent: &Agent) -> Vec<(String, u64)> {
    let mut r: Vec<(String, u64)> = agent.running.iter().map(|x| (x.id.clone(), x.config_hash)).collect();
    r.sort();
    r
}

#[test]
fn agent_builder_hostname() {
    let mut b = Agent::builder();
    b.set_hostname(Some("node1".to_string())).set_dump_metrics(true).set_config(Some("a.yml".to_string()));
    let agent = b.build();
    assert_eq!(agent.hostname, "node1");
    assert!(agent.dump_metrics);
    assert!(agent.running.is_empty());
    assert_eq!(agent.resolver.config_path(), Ok("a.yml".to_string()));
    let default_agent = AgentBuilder::default().build();
    assert!(!default_agent.hostname.is_empty());
}

#[test]
fn agent_apply_starts_restarts_and_stops() {
    let mut agent = Agent::builder().build();
    let a1 = agent.apply_collectors(&vec![plan("a", false, 1, true), plan("b", false, 2, true), plan("c", false, 3, false)]);
    assert!(matches!(a1.as_slice(), [CollectorAction::Start(0), CollectorAction::Start(1)]));
    assert_eq!(running(&agent), vec![("a".to_string(), 1), ("b".to_string(), 2)]);
    // a unchanged, b changed, d new and disabled, b's old collector goes
    let a2 = agent.apply_collectors(&vec![plan("a", false, 1, true), plan("b", false, 5, true), plan("d", true, 4, true)]);
    assert!(matches!(a2.as_slice(), [CollectorAction::Stop(x), CollectorAction::Start(1)] if x == "b"));
    assert_eq!(running(&agent), vec![("a".to_string(), 1), ("b".to_string(), 5)]);
    // a disabled, b dropped from the configuration
    let a3 = agent.apply_collectors(&vec![plan("a", true, 1, true)]);
    assert!(matches!(a3.as_slice(), [CollectorAction::Stop(x), CollectorAction::Stop(y)] if x == "a" && y == "b"));
    assert!(agent.running.is_empty());
}

#[test]
fn agent_apply_changed_but_not_startable() {
    let mut agent = Agent::builder().build();
    agent.running.push(RunningCollector { id: "a".to_string(), config_hash: 1 });
    let acts = agent.apply_collectors(&vec![plan("a", false, 2, false)]);
    assert!(matches!(acts.as_slice(), [CollectorAction::Stop(x)] if x == "a"));
    assert!(agent.running.is_empty());
    assert!(RunningCollector { id: "x".to_string(), config_hash: 1 }.is_changed(2));
}

#[test]
fn agent_sender_labels_add_host() {
    let mut b = Agent::builder();
    b.set_hostname(Some("h1".to_string()));
    let agent = b.build();
    let mut m = LabelMap::new();
    m.insert("zone".to_string(), "z".to_string());
    let l = agent.sender_labels(&Some(m));
    assert_eq!(l.to_openmetrics(), "zone=\"z\",host=\"h1\"");
}

// ---- schedule

#[test]
fn schedule_try_from() {
    assert_eq!(
        Schedule::try_from(&collector_config("a", "cpu", None)).err(),
        Some(AgentError::ParseError("invalid interval".to_string()))
    );
    assert_eq!(
        Schedule::try_from(&collector_config("a", "bad", Some(5))).err(),
        Some(AgentError::InvalidCollectorError("bad".to_string()))
    );
    let s = Schedule::try_from(&collector_config("a", "twamp_reflector", Some(5))).unwrap();
    assert_eq!(s.interval, 5);
    assert_eq!(s.initial_delay(), 0);
    let s = Schedule::try_from(&collector_config("b", "cpu", Some(2))).unwrap();
    assert!(s.initial_delay() < 2_000_000_000);
    let d = s.data(vec![], 77);
    assert_eq!(d.collector, "cpu");
    assert_eq!(d.ts, 77);
}

#[test]
fn schedule_next_sleep() {
    assert_eq!(next_sleep(10, 2_500_000_000), 7_500_000_000);
    assert_eq!(next_sleep(10, 10_000_000_000), 10_000_000_000);
    assert_eq!(next_sleep(10, 9_999_999_999), 1);
    assert_eq!(AGENT_DEFAULT_INTERVAL, 60);
}

// ---- sender

fn no_files() -> FileChecks {
    FileChecks { key: None, cert: None, client_auth: None }
}

fn config_error(r: Result<Sender, AgentError>) -> String {
    match r {
        Err(AgentError::ConfigurationError(m)) => m,
        _ => panic!("expected a configuration error"),
    }
}

#[test]
fn sender_default_settings() {
    let s = Sender::try_from(&SenderConfig::default(), &no_files()).unwrap();
    let http = s.http.clone().unwrap();
    assert_eq!(http.listen.ip, (0, 0, 0, 0));
    assert_eq!(http.listen.port, 3000);
    assert!(s.https.is_none());
    assert_eq!(s.path, "/metrics");
    assert_eq!(s.tls_port(), 443);
}

#[test]
fn sender_refused_settings() {
    let mut c = SenderConfig::default();
    c.kind = "other".to_string();
    assert_eq!(config_error(Sender::try_from(&c, &no_files())), "`sender.type` must be `openmetrics`");
    let mut c = SenderConfig::default();
    c.mode = "push".to_string();
    assert_eq!(config_error(Sender::try_from(&c, &no_files())), "`sender.mode` must be `pull`");
    let mut c = SenderConfig::default();
    c.listen = Some("1.2.3:80".to_string());
    assert_eq!(config_error(Sender::try_from(&c, &no_files())), "Invalid `sender.listen`");
    let mut c = SenderConfig::default();
    c.listen = None;
    c.tls_redirect = true;
    assert_eq!(
        config_error(Sender::try_from(&c, &no_files())),
        "`sender.tls_redirect` must not be set when HTTP endpoint is disabled"
    );
    let mut c = SenderConfig::default();
    c.tls_redirect = true;
    assert_eq!(
        config_error(Sender::try_from(&c, &no_files())),
        "`sender.tls_redirect` must not be set when HTTPS endpoint is disabled"
    );
    let mut c = SenderConfig::default();
    c.listen_tls = Some("0.0.0.0:3443".to_string());
    assert_eq!(config_error(Sender::try_from(&c, &no_files())), "`sender.key_path` must be set for HTTPS endpoint");
    c.key_path = Some("k.pem".to_string());
    let files = FileChecks { key: Some("denied".to_string()), cert: None, client_auth: None };
    assert_eq!(config_error(Sender::try_from(&c, &files)), "k.pem file is not readable: denied");
    assert_eq!(config_error(Sender::try_from(&c, &no_files())), "`sender.cert_path` must be set for HTTPS endpoint");
    c.cert_path = Some("c.pem".to_string());
    c.listen_tls = Some("0.0.0.0:99999".to_string());
    assert_eq!(config_error(Sender::try_from(&c, &no_files())), "Invalid `sender.listen_tls`");
    c.listen_tls = Some("0.0.0.0:3443".to_string());
    c.tls_redirect = true;
    let s = Sender::try_from(&c, &no_files()).unwrap();
    assert_eq!(s.tls_port(), 3443);
    assert_eq!(s.https.unwrap().key_path, "k.pem");
}

#[test]
fn sender_process_commands() {
    let mut s = Sender::try_from(&SenderConfig::default(), &no_files()).unwrap();
    s.set_dump_metrics(true);
    let step = s.process(SenderCommand::Data(MetricsData {
        collector: "uptime".to_string(),
        labels: Labels::default(),
        measures: vec![measure("uptime", "", Value::Counter(4), Labels::default())],
        ts: 0,
    }));
    match step {
        SenderStep::Print(t) => assert_eq!(t, "# TYPE uptime counter\nuptime{collector=\"uptime\"} 4\n# EOF\n"),
        _ => panic!("expected a dump"),
    }
    assert!(matches!(s.process(SenderCommand::SetAgentLabels(labels(&[("host", "h")]))), SenderStep::Continue));
    match s.process(SenderCommand::Dump) {
        SenderStep::Print(t) => assert!(t.contains("host=\"h\"")),
        _ => panic!("expected a dump"),
    }
    assert!(matches!(s.process(SenderCommand::Shutdown), SenderStep::Stop));
}

#[test]
fn sender_redirect_and_path() {
    assert_eq!(tls_redirect_url(3443, "example.com:3000", "/metrics"), "https://example.com:3443/metrics");
    assert_eq!(tls_redirect_url(443, "example.com", "/m"), "https://example.com:443/m");
    assert_eq!(endpoint_path("/metrics"), "metrics");
}

// ---- addresses

#[test]
fn socket_addr_parse() {
    let a = SocketAddrV4::parse("192.168.0.1:8080").unwrap();
    assert_eq!(a.ip, (192, 168, 0, 1));
    assert_eq!(a.port, 8080);
    assert_eq!(SocketAddrV4::parse("10.0.0.1:00080").unwrap().port, 80);
    assert!(SocketAddrV4::parse("256.0.0.1:80").is_none());
    assert!(SocketAddrV4::parse("01.0.0.1:80").is_none());
    assert!(SocketAddrV4::parse("1.0.0.1:65536").is_none());
    assert!(SocketAddrV4::parse("1.0.0.1").is_none());
    assert!(SocketAddrV4::parse("1.0.0.1:80 ").is_none());
    assert!(SocketAddrV4::parse("1.0.0:80").is_none());
}

// ---- packet models

#[test]
fn packet_model_unknown() {
    assert_eq!(
        PacketModel::kind_of("wav"),
        Err(AgentError::ConfigurationError("Invalid model: wav".to_string()))
    );
}

// ---- modbus RTU

fn rtu_item() -> CollectorConfigItem {
    CollectorConfigItem {
        name: "temp".to_string(),
        help: "Temperature".to_string(),
        labels: None,
        serial_path: None,
        slave: None,
        baud_rate: None,
        data_bits: None,
        parity: None,
        stop_bits: None,
        register: 3,
        register_type: default_holding(),
    }
}

#[test]
fn modbus_rtu_settings() {
    let mut defaults = ConfigDefaults::default();
    assert_eq!(
        CollectorItem::from_config(&rtu_item(), &defaults).err(),
        Some(AgentError::ParseError("serial_path is not set".to_string()))
    );
    defaults.serial_path = Some("/dev/ttyS0".to_string());
    assert_eq!(
        CollectorItem::from_config(&rtu_item(), &defaults).err(),
        Some(AgentError::ParseError("slave is not set".to_string()))
    );
    defaults.slave = Some(1);
    let it = CollectorItem::from_config(&rtu_item(), &defaults).unwrap();
    assert_eq!(it.serial_settings(), "/dev/ttyS0@115200 (8N1)");
    let mut item = rtu_item();
    item.data_bits = Some(9);
    assert_eq!(
        CollectorItem::from_config(&item, &defaults).err(),
        Some(AgentError::ParseError("invalid data_bits".to_string()))
    );
    let mut item = rtu_item();
    item.stop_bits = Some(3);
    assert_eq!(
        CollectorItem::from_config(&item, &defaults).err(),
        Some(AgentError::ParseError("invalid stop_bits".to_string()))
    );
    let mut item = rtu_item();
    item.parity = Some(CfgParity::Even);
    item.data_bits = Some(7);
    item.stop_bits = Some(2);
    item.baud_rate = Some(9600);
    let it = CollectorItem::from_config(&item, &defaults).unwrap();
    assert_eq!(it.serial_settings(), "/dev/ttyS0@9600 (7E2)");
    assert!(items_from_config(&vec![rtu_item()], None).is_err());
}

// ---- SQL queries

fn cols(v: &[(&str, &str)]) -> Vec<ColumnInfo> {
    v.iter().map(|(n, t)| ColumnInfo { name: n.to_string(), column_type: t.to_string() }).collect()
}

#[test]
fn mysql_query_rows() {
    let ci = ConfigQueryItem {
        query: "SELECT".to_string(),
        name: Some("m".to_string()),
        name_column: None,
        help: None,
        help_column: None,
        labels: None,
        label_columns: Some(vec!["db".to_string()]),
        value_column: "value".to_string(),
    };
    let qi = QueryItem::from_config(&ci).unwrap();
    let columns = cols(&[("db", "VARCHAR"), ("value", "BIGINT")]);
    let f = RowFields::try_from(&qi, &columns).unwrap();
    let m = f.measure(&vec![Cell::Text("main".to_string()), Cell::I64(12)]).unwrap();
    assert_eq!(m.name, "m");
    assert_eq!(m.help, "");
    assert_eq!(m.value, Value::GaugeI(12));
    assert_eq!(m.labels.to_openmetrics(), "db=\"main\"");
    let bad = cols(&[("db", "VARCHAR"), ("value", "TEXT")]);
    assert_eq!(
        RowFields::try_from(&qi, &bad).err(),
        Some(AgentError::InternalError("unsupported column type TEXT".to_string()))
    );
    let missing = cols(&[("value", "INT")]);
    assert_eq!(RowFields::try_from(&qi, &missing).err(), Some(AgentError::InternalError("'db' is not found".to_string())));
    let mut no_name = ci;
    no_name.name = None;
    assert_eq!(
        QueryItem::from_config(&no_name).err(),
        Some(AgentError::ConfigurationError("either name or name_column must be set".to_string()))
    );
    assert!(matches!(
        ColumnReference::try_from(Some(&"f".to_string()), Some(&"c".to_string())),
        Ok(ColumnReference::Column(c)) if c == "c"
    ));
}

#[test]
fn mysql_query_decimal_overflow() {
    let ci = ConfigQueryItem {
        query: "SELECT".to_string(),
        name: None,
        name_column: Some("n".to_string()),
        help: None,
        help_column: None,
        labels: None,
        label_columns: None,
        value_column: "v".to_string(),
    };
    let qi = QueryItem::from_config(&ci).unwrap();
    let f = RowFields::try_from(&qi, &cols(&[("n", "VARCHAR"), ("v", "DECIMAL")])).unwrap();
    assert_eq!(
        f.measure(&vec![Cell::Text("x".to_string()), Cell::Undecodable]).err(),
        Some(AgentError::ParseError("Failed to decode value".to_string()))
    );
    let m = f.measure(&vec![Cell::Text("x".to_string()), Cell::Float("1.5".to_string())]).unwrap();
    assert_eq!(m.value, Value::GaugeF("1.5".to_string()));
}

#[test]
fn postgres_query_rows() {
    let ci = postgres_query::ConfigQueryItem {
        query: "SELECT".to_string(),
        name_column: postgres_query::default_name(),
        value_column: postgres_query::default_value(),
        help_column: Some("h".to_string()),
    };
    let qi = postgres_query::QueryItem::from_config(&ci);
    let f = postgres_query::RowFields::try_from(&qi, &cols(&[("name", "TEXT"), ("value", "INT8"), ("h", "TEXT")])).unwrap();
    let m = f
        .measure(&vec![Cell::Text("rows".to_string()), Cell::I64(-3), Cell::Text("Row count".to_string())])
        .unwrap();
    assert_eq!(m.name, "rows");
    assert_eq!(m.help, "Row count");
    assert_eq!(m.value, Value::GaugeI(-3));
    // A missing value column is reported under the name column's name.
    assert_eq!(
        postgres_query::RowFields::try_from(&qi, &cols(&[("name", "TEXT")])).err(),
        Some(AgentError::InternalError("'name' is not found".to_string()))
    );
}

// ---- service discovery

#[test]
fn sd_urls() {
    let t = ActiveLabels::new(vec![]);
    assert_eq!(get_address(&t), "127.0.0.1:3000");
    assert_eq!(get_url(&t), "http://127.0.0.1:3000/metrics");
    let t = ActiveLabels::new(vec![
        Label::new("__address__", "10.0.0.1:9100"),
        Label::new("__meta_sd_schema", "https"),
        Label::new("__meta_sd_path", "/m"),
    ]);
    assert_eq!(get_url(&t), "https://10.0.0.1:9100/m");
    let s = StaticSd::try_from(&vec!["a:1".to_string(), "b:2".to_string()]).unwrap();
    assert_eq!(s.items.len(), 2);
    assert_eq!(get_address(&s.items[1]), "b:2");
}

#[test]
fn sd_dns_settings() {
    let q = "example.com".to_string();
    let e = |t: &str, p: Option<u16>| match DnsSd::try_from(&q, &t.to_string(), p) {
        Err(AgentError::ConfigurationError(m)) => m,
        _ => "ok".to_string(),
    };
    assert_eq!(e("MX", None), "query_type must be A or SRV");
    assert_eq!(e("SRV", Some(1)), "port should be set only for query_type A");
    assert_eq!(e("A", None), "port must be set for query_type A");
    let d = DnsSd::try_from(&q, &"SRV".to_string(), None).unwrap();
    assert_eq!(d.query_type, QueryType::Srv);
    assert_eq!(get_address(&gufo_agent::sd::dns_target((10, 0, 0, 2), 9100)), "10.0.0.2:9100");
}

#[test]
fn sd_consul() {
    let c = ConsulSd::try_from("127.0.0.1:8500".to_string(), Some("x".to_string()), ",".to_string()).unwrap();
    assert_eq!(c.services_url(), "http://127.0.0.1:8500/v1/agent/services?filter=x");
    let svc = AgentService {
        id: "web-1".to_string(),
        service: "web".to_string(),
        address: "10.0.0.5".to_string(),
        port: 8080,
        datacenter: "dc1".to_string(),
        tags: vec!["a".to_string(), "b".to_string()],
        meta: vec![("team".to_string(), "ops".to_string())],
    };
    let t = c.service_target(&svc);
    assert_eq!(get_address(&t), "10.0.0.5:8080");
    assert_eq!(t.get(&"__meta_consul_tags".to_string()).unwrap(), "a,b");
    assert_eq!(t.get(&"__meta_consul_meta_team".to_string()).unwrap(), "ops");
    assert_eq!(t.get(&"__meta_consul_service_port".to_string()).unwrap(), "8080");
    assert_eq!(join_strings(&vec![], ","), "");
}

// ---- relabeling

#[test]
fn active_labels_to_measure() {
    let a = ActiveLabels::try_from(
        &labels(&[("__name__", "renamed"), ("host", "h")]),
        &labels(&[("host", "h2")]),
        &labels(&[("x", "")]),
    )
    .unwrap();
    let m = measure("orig", "help", Value::Gauge(1), Labels::default());
    let r = a.to_measure(&m);
    assert_eq!(r.name, "renamed");
    assert_eq!(r.labels.to_openmetrics(), "host=\"h2\"");
    assert!(ActiveLabels::is_virtual(&"__name__".to_string()));
}

#[test]
fn label_map_rule_settings() {
    let rule = |a: Option<&str>, r: Option<&str>, p: Option<&str>| RelabelRuleConfig {
        action: a.map(|s| s.to_string()),
        regex: r.map(|s| s.to_string()),
        replacement: p.map(|s| s.to_string()),
    };
    let msg = |c: RelabelRuleConfig| match LabelMapRule::try_from(&c) {
        Err(AgentError::ConfigurationError(m)) => m,
        _ => "ok".to_string(),
    };
    assert_eq!(msg(rule(Some("drop"), Some("a"), Some("b"))), "'action' must be 'labelmap'");
    assert_eq!(msg(rule(None, None, Some("b"))), "'regex' must be set");
    assert_eq!(msg(rule(Some("labelmap"), Some("a"), None)), "'replacement' must be set");
    assert!(msg(rule(None, Some("foo(bar"), Some("b"))).contains("unclosed group"));
    assert_eq!(LabelMapRule::try_from(&rule(None, Some("^x_(.*)"), Some("$1"))).unwrap().replacement, "$1");
}

#[test]
fn procstat_settings() {
    let c = ProcstatConfig { pid_file: None, pattern: None, self_pid: None, expose_labels: None };
    assert_eq!(
        ProcstatSettings::try_from(&c).err(),
        Some(AgentError::ConfigurationError("pid_file, pattern, or self_pid must be set".to_string()))
    );
    let c = ProcstatConfig { pid_file: None, pattern: Some("[".to_string()), self_pid: None, expose_labels: None };
    assert!(matches!(ProcstatSettings::try_from(&c), Err(AgentError::ConfigurationError(_))));
    let c = ProcstatConfig {
        pid_file: None,
        pattern: Some("nginx".to_string()),
        self_pid: Some(false),
        expose_labels: Some(vec!["user".to_string()]),
    };
    let s = ProcstatSettings::try_from(&c).unwrap();
    assert!(s.expose_user && s.pattern.is_some() && !s.self_pid);
}

// ---- collectors

#[test]
fn memory_meminfo() {
    let entries = vec![
        ("MemTotal".to_string(), 100u64),
        ("Unknown".to_string(), 1u64),
        ("Active(anon)".to_string(), 7u64),
    ];
    let r = meminfo_measures(&entries);
    assert_eq!(r.len(), 2);
    assert_eq!(r[0].name, "mem_total");
    assert_eq!(r[0].value, Value::Gauge(100));
    assert_eq!(r[1].name, "mem_active_anon");
    assert_eq!(r[1].help, "Active anonymous memory, bytes");
    let t = totals(10, 4);
    assert_eq!(t[0].name, "mem_total");
    assert_eq!(t[0].value, Value::Gauge(10));
    assert_eq!(t[1].name, "mem_free");
    assert_eq!(t[1].help, "Free memory in bytes");
    assert_eq!(t[1].value, Value::Gauge(4));
}

#[test]
fn fs_ignored() {
    assert!(is_ignored_fs("proc", "/x"));
    assert!(is_ignored_fs("ext4", "/dev/shm"));
    assert!(is_ignored_fs("ext4", "/sys"));
    assert!(!is_ignored_fs("ext4", "/"));
    assert!(!is_ignored_fs("ext4", "/device"));
    let s = MountStat {
        mounted_from: "/dev/sda1".to_string(),
        mounted_on: "/".to_string(),
        fs_type: "ext4".to_string(),
        files: 1,
        files_total: 2,
        files_avail: 3,
        free: 4,
        avail: 5,
        total: 6,
    };
    let r = mount_measures(&s);
    assert_eq!(r.len(), 6);
    assert_eq!(r[5].name, "fs_total");
    assert_eq!(r[5].value, Value::Gauge(6));
    assert_eq!(r[0].labels.to_openmetrics(), "dev=\"/dev/sda1\",mount=\"/\",type=\"ext4\"");
}

#[test]
fn counters_accumulate() {
    let mut e = ExecCollector::try_from(vec!["/bin/x".to_string()], None, None).unwrap();
    e.record(3);
    let m = e.record(2);
    assert_eq!(m.value, Value::Counter(5));
    assert_eq!(m.labels.to_openmetrics(), "script=\"/bin/x\"");
    assert!(ExecCollector::try_from(vec![], None, None).is_err());
    let mut s = SpoolStats::new();
    s.record(Some(4));
    s.record(None);
    let ms = s.measures("/spool");
    assert_eq!(ms[0].value, Value::Counter(2));
    assert_eq!(ms[1].value, Value::Counter(1));
    assert_eq!(ms[2].value, Value::Counter(1));
    assert_eq!(ms[3].value, Value::Counter(4));
    let mut ss = SessionStats::new();
    ss.reflected(41);
    let mut cs = CollectorStats::new();
    cs.record(ss);
    cs.record(SessionStats::new());
    let st = cs.get_stats();
    assert_eq!(st[0].value, Value::Counter(2));
    assert_eq!(st[1].value, Value::Counter(1));
    assert_eq!(st[2].value, Value::Counter(1));
    assert_eq!(st[3].value, Value::Counter(69));
    let mut d = DnsStats::new();
    d.record(5, 3);
    let dm = d.measures("example.com", "A");
    assert_eq!(dm[2].value, Value::Counter(2));
    assert_eq!(dscp_of(0x12345), 0x45);
    assert_eq!(get_reflector_port(None), Err(AgentError::NetworkError("socket not created".to_string())));
    assert_eq!(compressed_size(None, 7), 7);
    assert_eq!(compressed_size(Some(3), 7), 3);
}

// ---- redis

#[test]
fn redis_info_gauges() {
    let items = parse("# Server\r\nuptime_in_seconds:10\r\nredis_version:7.0\r\nmem_fragmentation_ratio:1.25\r\n").unwrap();
    assert_eq!(items[0], InfoItem::Ignored);
    assert_eq!(items[1], InfoItem::Value("uptime_in_seconds".to_string(), InfoValue::Int(10)));
    assert_eq!(items[3], InfoItem::Value("mem_fragmentation_ratio".to_string(), InfoValue::Float("1.25".to_string())));
    let g = redis_gauges(&items);
    assert_eq!(g.len(), 2);
    assert_eq!(g[0].name, "redis_uptime_in_seconds");
    assert_eq!(g[0].value, RedisValue::Unsigned(10));
    assert_eq!(g[1].value, RedisValue::Float("1.25".to_string()));
    let m = redis_measure("redis_x", Value::Gauge(1), "h", "6379");
    assert_eq!(m.labels.to_openmetrics(), "host=\"h\",port=\"6379\"");
}

// ---- MySQL status

#[test]
fn mysql_status_values() {
    assert_eq!(parse_u64("42"), Some(42));
    assert_eq!(parse_u64("+7"), Some(7));
    assert_eq!(parse_u64("18446744073709551615"), Some(u64::MAX));
    assert_eq!(parse_u64("18446744073709551616"), None);
    assert_eq!(parse_u64("-1"), None);
    assert_eq!(parse_u64(""), None);
    assert_eq!(parse_u64("+"), None);
    assert_eq!(parse_u64("1.5"), None);
    let m = status_measure("Threads_Connected", "12").unwrap();
    assert_eq!(m.name, "mysql_threads_connected");
    assert_eq!(m.value, Value::Gauge(12));
    assert!(status_measure("Version", "8.0.1").is_none());
}

#[test]
fn imix_round_bits() {
    let m = ImixModel::try_from(&ImixConfig { bandwidth: 1000 }).unwrap();
    let bits: usize = (0..12u64).map(|s| m.get_packet(s).size * 8).sum();
    assert_eq!(bits as u64, IMIX_ROUND);
    assert_eq!(m.get_packet(5).size, m.get_packet(17).size);
}

#[test]
fn sd_dns_and_consul_targets() {
    let d = DnsSd::try_from(&"x".to_string(), &"A".to_string(), Some(9100)).unwrap();
    let t = d.targets(&vec![
        DnsRecord::A((10, 0, 0, 1)),
        DnsRecord::Other,
        DnsRecord::Srv(8080, vec![(10, 0, 0, 2), (10, 0, 0, 3)]),
    ]);
    assert_eq!(t.len(), 3);
    assert_eq!(get_address(&t[0]), "10.0.0.1:9100");
    assert_eq!(get_address(&t[2]), "10.0.0.3:8080");
    let c = ConsulSd::try_from("s".to_string(), None, ";".to_string()).unwrap();
    assert_eq!(c.services_url(), "http://s/v1/agent/services");
    let svc = AgentService {
        id: "i".to_string(),
        service: "s".to_string(),
        address: "a".to_string(),
        port: 1,
        datacenter: "d".to_string(),
        tags: vec!["x".to_string(), "y".to_string()],
        meta: vec![],
    };
    let ts = c.targets(&vec![svc]);
    assert_eq!(ts.len(), 1);
    assert_eq!(ts[0].get(&"__meta_consul_tags".to_string()).unwrap(), "x;y");
}

// ---- host statistics

#[test]
fn host_block_device() {
    let s = BlockStat {
        name: "sda".to_string(),
        read_ios: 1,
        read_merges: 2,
        read_sectors: 3,
        read_ticks: 4,
        write_ios: 5,
        write_merges: 6,
        write_sectors: 7,
        write_ticks: 8,
        in_flight: 9,
        io_ticks: 10,
        time_in_queue: 11,
    };
    let r = block_measures(&s);
    assert_eq!(r.len(), 11);
    assert_eq!(r[0].name, "read_ios");
    assert_eq!(r[0].value, Value::Counter(1));
    assert_eq!(r[0].labels.to_openmetrics(), "dev=\"sda\"");
    assert_eq!(r[7].name, "write_ticks");
    assert_eq!(r[7].value, Value::Counter(8));
    assert_eq!(r[8].name, "in_flight");
    assert_eq!(r[8].help, "Number of I/Os currently in flight, requests");
    assert_eq!(r[8].value, Value::Gauge(9));
    assert_eq!(r[10].name, "time_in_queue");
    assert_eq!(r[10].value, Value::Gauge(11));
}

#[test]
fn host_network_and_sockets() {
    let n = NetStat {
        iface: "eth0".to_string(),
        rx_octets: 100,
        tx_octets: 200,
        rx_packets: 3,
        tx_packets: 4,
        rx_errors: 0,
        tx_errors: 1,
    };
    let r = network_measures(&n);
    assert_eq!(r.len(), 6);
    assert_eq!(r[1].name, "net_tx_octets");
    assert_eq!(r[1].value, Value::Counter(200));
    assert_eq!(r[5].labels.to_openmetrics(), "iface=\"eth0\"");
    let s = socket_measures(&SocketStat { tcp4: 10, tcp6: 2, udp4: 3, udp6: 0 });
    assert_eq!(s.len(), 4);
    assert_eq!(s[0].name, "tcp4_sockets_used");
    assert_eq!(s[0].value, Value::Gauge(10));
    assert_eq!(s[3].name, "udp6_sockets_used");
    assert!(s[3].labels.is_empty());
    let u = uptime_measures(3600);
    assert_eq!(u[0].name, "uptime");
    assert_eq!(u[0].value, Value::Counter(3600));
}

#[test]
fn host_http_probe() {
    let r = http_measures(1500, 4096, Some(1024));
    assert_eq!(r.len(), 3);
    assert_eq!(r[0].value, Value::Gauge(1500));
    assert_eq!(r[1].value, Value::Gauge(4096));
    assert_eq!(r[2].name, "compressed_bytes");
    assert_eq!(r[2].value, Value::Gauge(1024));
    let r = http_measures(1, 4096, None);
    assert_eq!(r[2].value, Value::Gauge(4096));
}

#[test]
fn twamp_setup_mode() {
    assert_eq!(check_setup_mode(1), Ok(()));
    assert_eq!(check_setup_mode(2), Err(AgentError::FrameError("unsupported mode".to_string())));
    assert_eq!(check_setup_mode(0), Err(AgentError::FrameError("unsupported mode".to_string())));
}

#[test]
fn modbus_tcp_settings() {
    let item = TcpConfigItem {
        name: "power".to_string(),
        help: "Power".to_string(),
        labels: None,
        register: 10,
        register_type: RegisterType::Input,
        slave: 255,
    };
    let c = TcpCollector::try_from("10.0.0.7", 502, 5000, &vec![item]).unwrap();
    assert_eq!(c.addr.ip, (10, 0, 0, 7));
    assert_eq!(c.addr.port, 502);
    assert_eq!(c.timeout_ms, 5000);
    assert_eq!(c.items.len(), 1);
    assert_eq!(c.items[0].register_type, RegisterType::Input);
    assert_eq!(c.items[0].slave, 255);
    assert_eq!(
        TcpCollector::try_from("plc.local", 502, 5000, &vec![]).err(),
        Some(AgentError::ParseError("cannot parse address".to_string()))
    );
    assert_eq!(coil_values(&vec![true, false, true]), vec![1, 0, 1]);
}

// ---- PostgreSQL and PgBouncer statistics

fn pg_row(datname: Option<&str>) -> PgDatabaseStats {
    PgDatabaseStats {
        datname: datname.map(|s| s.to_string()),
        numbackends: Some(3),
        xact_commit: Some(100),
        xact_rollback: None,
        blks_read: None,
        blks_hit: None,
        tup_returned: None,
        tup_fetched: None,
        tup_inserted: None,
        tup_updated: None,
        tup_deleted: None,
        conflicts: None,
        temp_files: None,
        temp_bytes: None,
        deadlocks: Some(-1),
        checksum_failures: None,
        blk_read_time: Some("1.5".to_string()),
        blk_write_time: None,
        session_time: None,
        active_time: None,
        idle_in_transaction_time: None,
        sessions: Some(7),
        sessions_abandoned: None,
        sessions_fatal: None,
        sessions_killed: None,
    }
}

#[test]
fn pg_database_stats() {
    assert!(pg_database_measures(&pg_row(None)).is_empty());
    let r = pg_database_measures(&pg_row(Some("app")));
    assert_eq!(r.len(), 5);
    assert_eq!(r[0].name, "pg_numbackends");
    assert_eq!(r[0].value, Value::Gauge(3));
    assert_eq!(r[0].labels.to_openmetrics(), "db=\"app\"");
    assert_eq!(r[1].name, "pg_xact_commit");
    assert_eq!(r[1].value, Value::Counter(100));
    assert_eq!(r[2].name, "pg_deadlocks");
    assert_eq!(r[2].value, Value::Counter(u64::MAX));
    assert_eq!(r[3].name, "pg_blk_read_time");
    assert_eq!(r[3].value, Value::CounterF("1.5".to_string()));
    assert_eq!(r[4].name, "pg_sessions");
    assert_eq!(r[4].help, "Total number of sessions established to this database.");
}

#[test]
fn pgbouncer_stats() {
    let row = |db: Option<&str>| PgbStatsRow {
        database: db.map(|s| s.to_string()),
        total_xact_count: Some(10),
        total_query_count: None,
        total_received: Some(2048),
        total_sent: None,
        total_xact_time: None,
        total_query_time: None,
        total_wait_time: Some("0.25".to_string()),
    };
    assert!(pgbouncer_measures("pgbouncer", &row(Some("pgbouncer"))).is_empty());
    assert!(pgbouncer_measures("pgbouncer", &row(None)).is_empty());
    let r = pgbouncer_measures("pgbouncer", &row(Some("app")));
    assert_eq!(r.len(), 3);
    assert_eq!(r[0].name, "pgb_total_xact_count");
    assert_eq!(r[0].value, Value::Counter(10));
    assert_eq!(r[1].name, "pgb_total_received");
    assert_eq!(r[2].name, "pgb_total_wait_time");
    assert_eq!(r[2].value, Value::CounterF("0.25".to_string()));
    assert_eq!(r[2].labels.to_openmetrics(), "db=\"app\"");
}

// ---- process statistics

#[test]
fn procstat_measures() {
    let s = ProcStat {
        num_fds: Some(12),
        num_threads: Some(4),
        voluntary_context_switches: None,
        involuntary_context_switches: None,
        minor_faults: None,
        major_faults: None,
        child_minor_faults: None,
        child_major_faults: None,
        cpu_time_user: Some("0.5".to_string()),
        cpu_time_system: None,
        cpu_time_iowait: None,
        cpu_usage: None,
        mem_total: None,
        mem_rss: Some(4096),
        mem_swap: None,
        mem_data: None,
        mem_stack: None,
        mem_text: None,
        mem_lib: None,
        mem_locked: None,
        io_read_count: None,
        io_write_count: None,
        io_read_bytes: None,
        io_write_bytes: Some(100),
    };
    let r = process_measures("agent", "", &s);
    assert_eq!(r.len(), 5);
    assert_eq!(r[0].name, "ps_num_fds");
    assert_eq!(r[0].value, Value::Gauge(12));
    assert_eq!(r[0].labels.len(), 2);
    assert_eq!(r[0].labels.to_openmetrics(), "process_name=\"agent\",user=\"\"");
    assert_eq!(r[2].name, "ps_cpu_time_user");
    assert_eq!(r[2].value, Value::CounterF("0.5".to_string()));
    assert_eq!(r[3].name, "ps_mem_rss");
    assert_eq!(r[4].name, "ps_write_bytes");
    assert_eq!(r[4].value, Value::Counter(100));
}

#[test]
fn counters_stay_consistent() {
    let mut s = SpoolStats::new();
    for p in [Some(1), None, Some(0), None, Some(7)] {
        s.record(p);
        assert_eq!(s.spool_jobs, s.spool_jobs_success + s.spool_jobs_failed);
    }
    let mut cs = CollectorStats::new();
    let mut hit = SessionStats::new();
    hit.reflected(10);
    for st in [SessionStats::new(), hit, SessionStats::new()] {
        cs.record(st);
        assert!(cs.session_started <= cs.session_attempts);
    }
    let mut d = DnsStats::new();
    d.record(3, 3);
    d.record(4, 0);
    assert_eq!(d.total, d.success + d.failed);
    assert_eq!(d.failed, 4);
}

// ---- laws on concrete values

#[test]
fn hostname_fallback() {
    assert_eq!(choose_hostname(&Some("node1".to_string()), Some("sys".to_string())), "node1");
    assert_eq!(choose_hostname(&None, Some("sys".to_string())), "sys");
    assert_eq!(choose_hostname(&None, None), "localhost");
}

#[test]
fn registry_names_ascending_and_discovery_ordered() {
    let names = Collectors::to_vec();
    for w in names.windows(2) {
        assert!(w[0] < w[1]);
    }
    let opts = ConfigDiscoveryOpts::try_from("".to_string()).unwrap();
    let found = Collectors::discover_config(&opts).unwrap();
    for w in found.windows(2) {
        assert!(w[0].0 < w[1].0);
    }
    for (name, items) in found.iter() {
        assert!(names.contains(name));
        assert!(!opts.is_disabled(name));
        assert_eq!(items.len(), 1);
        assert_eq!(items[0].self_pid.is_some(), name == "procstat");
    }
}

#[test]
fn discovery_tokens_decide() {
    for text in ["foo,-bar,+baz", "-builtins,+bar", "+bar,-builtins,-bar", ""] {
        let toks: Vec<&str> = text.split(',').collect();
        let opts = ConfigDiscoveryOpts::try_from(text.to_string()).unwrap();
        for name in ["foo", "bar", "baz", "builtins"] {
            let expected = if toks.contains(&"-builtins") {
                !toks.contains(&format!("+{}", name).as_str())
            } else {
                toks.contains(&format!("-{}", name).as_str())
            };
            assert_eq!(opts.is_disabled(name), expected, "{} {}", text, name);
        }
    }
}

#[test]
fn imix_any_twelve_packets() {
    let m = ImixModel::try_from(&ImixConfig { bandwidth: 1000 }).unwrap();
    for start in [0u64, 5, 11, 1_000_003] {
        let sizes: Vec<usize> = (start..start + 12).map(|s| m.get_packet(s).size).collect();
        assert_eq!(sizes.iter().filter(|&&x| x == 70).count(), 7);
        assert_eq!(sizes.iter().filter(|&&x| x == 576).count(), 4);
        assert_eq!(sizes.iter().filter(|&&x| x == 1500).count(), 1);
        assert_eq!(sizes.iter().sum::<usize>(), 4294);
    }
}

#[test]
fn reflector_totals_consistent() {
    let mut cs = CollectorStats::new();
    let mut s = SessionStats::new();
    s.reflected(0);
    s.reflected(100);
    cs.record(s);
    cs.record(SessionStats::new());
    assert!(cs.session_started <= cs.session_attempts);
    assert!(cs.reflected_pkt >= cs.session_started);
    assert!(cs.reflected_octets >= 28 * cs.reflected_pkt);
    assert_eq!(cs.reflected_octets, 156);
}

#[test]
fn agent_apply_refused_sender_keeps_collectors() {
    let mut agent = Agent::builder().build();
    agent.running.push(RunningCollector { id: "a".to_string(), config_hash: 1 });
    let mut c = SenderConfig::default();
    c.mode = "push".to_string();
    let r = agent.apply(&c, &no_files(), &vec![plan("b", false, 2, true)]);
    assert_eq!(r.err(), Some(AgentError::ConfigurationError("`sender.mode` must be `pull`".to_string())));
    assert!(!agent.sender_configured);
    assert_eq!(running(&agent), vec![("a".to_string(), 1)]);
    let (sender, actions) = agent.apply(&SenderConfig::default(), &no_files(), &vec![plan("b", false, 2, true)]).unwrap();
    assert!(sender.is_some());
    assert!(agent.sender_configured);
    assert!(matches!(actions.as_slice(), [CollectorAction::Start(0), CollectorAction::Stop(x)] if x == "a"));
    // Once a sender runs, a refused sender section is not looked at again.
    let (sender, _) = agent.apply(&c, &no_files(), &vec![]).unwrap();
    assert!(sender.is_none());
}

#[test]
fn spool_files_in_order() {
    let r = spool_order(vec!["b.txt".to_string(), "a.txt".to_string(), "c".to_string(), "a.txt".to_string()]);
    assert_eq!(r, vec!["a.txt", "a.txt", "b.txt", "c"]);
    assert!(spool_order(vec![]).is_empty());
}

#[test]
fn spool_collector_runs() {
    let mut c = SpoolCollector::new("/spool".to_string(), false);
    let m = |n: &str| measure(n, "", Value::Gauge(1), Labels::default());
    let r = c.collect(vec![Some(vec![m("a"), m("b")]), None, Some(vec![m("c")])]);
    assert_eq!(r.len(), 7);
    assert_eq!(r[0].name, "a");
    assert_eq!(r[2].name, "c");
    assert_eq!(r[3].name, "spool_jobs");
    assert_eq!(r[3].value, Value::Counter(3));
    assert_eq!(r[4].value, Value::Counter(2));
    assert_eq!(r[5].value, Value::Counter(1));
    assert_eq!(r[6].name, "spool_parsed");
    assert_eq!(r[6].value, Value::Counter(3));
    assert_eq!(r[6].labels.to_openmetrics(), "path=\"/spool\"");
    let r = c.collect(vec![]);
    assert_eq!(r.len(), 4);
    assert_eq!(r[0].value, Value::Counter(3));
    assert_eq!(c.stats.spool_jobs, c.stats.spool_jobs_success + c.stats.spool_jobs_failed);
}

#[test]
fn reflector_binds_then_reports() {
    let mut c = ReflectorCollector::try_from("0.0.0.0".to_string(), 862).unwrap();
    match c.collect_step() {
        ReflectorStep::Bind(a) => assert_eq!(a, "0.0.0.0:862"),
        ReflectorStep::Report(_) => panic!("reported before listening"),
    }
    assert!(matches!(c.bound(Err("address in use".to_string())), Err(AgentError::InternalError(m)) if m == "address in use"));
    assert!(!c.listening);
    assert!(matches!(c.bound(Ok(())), Ok(v) if v.is_empty()));
    let mut s = SessionStats::new();
    s.reflected(10);
    c.stats.record(s);
    match c.collect_step() {
        ReflectorStep::Report(ms) => {
            assert_eq!(ms.len(), 4);
            assert_eq!(ms[0].value, Value::Counter(1));
            assert_eq!(ms[3].value, Value::Counter(38));
        }
        ReflectorStep::Bind(_) => panic!("bound twice"),
    }
}
