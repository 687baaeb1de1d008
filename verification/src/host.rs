//! The host collectors that read the system's own statistics: block
//! devices, network interfaces, sockets, uptime, and the HTTP probe.
use vstd::prelude::*;
use crate::counters::{counter, counter_is, one_label, compressed_size};
use crate::label::{LabelView, Labels};
use crate::measure::{Measure, Value, reports};

verus! {

/// A gauge with the given labels.
pub open spec fn gauge_is(m: Measure, name: Seq<char>, help: Seq<char>, v: u64, labels: Option<Seq<LabelView>>) -> bool {
    m.name@ == name && m.help@ == help && m.value == Value::Gauge(v) && m.labels@ == labels && m.timestamp.is_none()
}

fn gauge(name: &str, help: &str, v: u64, labels: Labels) -> (m: Measure)
    ensures
        gauge_is(m, name@, help@, v, labels@),
{
    Measure::gauge(name, help, v, labels)
}

/// What the block I/O collector reads of one block device.
pub struct BlockStat {
    pub name: String,
    pub read_ios: u64,
    pub read_merges: u64,
    pub read_sectors: u64,
    pub read_ticks: u64,
    pub write_ios: u64,
    pub write_merges: u64,
    pub write_sectors: u64,
    pub write_ticks: u64,
    pub in_flight: u64,
    pub io_ticks: u64,
    pub time_in_queue: u64,
}

/// The label of a block device's measures.
pub open spec fn dev_label(s: BlockStat) -> Option<Seq<LabelView>> {
    Some(seq![("dev"@, s.name@)])
}

/// The eleven measures of a block device, in order: eight counters of
/// reads and writes, then three gauges.
pub open spec fn block_stats(ms: Seq<Measure>, s: BlockStat) -> bool {
    let l = dev_label(s);
    &&& ms.len() == 11
    &&& counter_is(ms[0], "read_ios"@, "Number of read I/Os processed"@, s.read_ios, l)
    &&& counter_is(ms[1], "read_merges"@, "Number of read I/Os merged with in-queue I/O"@, s.read_merges, l)
    &&& counter_is(ms[2], "read_sectors"@, "Number of sectors read"@, s.read_sectors, l)
    &&& counter_is(ms[3], "read_ticks"@, "Total wait time for read requests, ms"@, s.read_ticks, l)
    &&& counter_is(ms[4], "write_ios"@, "Number of write I/Os processed"@, s.write_ios, l)
    &&& counter_is(ms[5], "write_merges"@, "Number of write I/Os merged with in-queue I/O"@, s.write_merges, l)
    &&& counter_is(ms[6], "write_sectors"@, "Number of sectors written"@, s.write_sectors, l)
    &&& counter_is(ms[7], "write_ticks"@, "Total wait time for write requests, ms"@, s.write_ticks, l)
    &&& gauge_is(ms[8], "in_flight"@, "Number of I/Os currently in flight, requests"@, s.in_flight, l)
    &&& gauge_is(ms[9], "io_ticks"@, "Total time this block device has been active, ms"@, s.io_ticks, l)
    &&& gauge_is(ms[10], "time_in_queue"@, "Total wait time for all requests, ms"@, s.time_in_queue, l)
}

/// The measures of one block device.
pub fn block_measures(s: &BlockStat) -> (r: Vec<Measure>)
    ensures
        block_stats(r@, *s),
{
    let d = s.name.as_str();
    let mut r: Vec<Measure> = Vec::new();
    r.push(counter("read_ios", "Number of read I/Os processed", s.read_ios, one_label("dev", d)));
    r.push(counter("read_merges", "Number of read I/Os merged with in-queue I/O", s.read_merges, one_label("dev", d)));
    r.push(counter("read_sectors", "Number of sectors read", s.read_sectors, one_label("dev", d)));
    r.push(counter("read_ticks", "Total wait time for read requests, ms", s.read_ticks, one_label("dev", d)));
    r.push(counter("write_ios", "Number of write I/Os processed", s.write_ios, one_label("dev", d)));
    r.push(counter("write_merges", "Number of write I/Os merged with in-queue I/O", s.write_merges, one_label("dev", d)));
    r.push(counter("write_sectors", "Number of sectors written", s.write_sectors, one_label("dev", d)));
    r.push(counter("write_ticks", "Total wait time for write requests, ms", s.write_ticks, one_label("dev", d)));
    r.push(gauge("in_flight", "Number of I/Os currently in flight, requests", s.in_flight, one_label("dev", d)));
    r.push(gauge("io_ticks", "Total time this block device has been active, ms", s.io_ticks, one_label("dev", d)));
    r.push(gauge("time_in_queue", "Total wait time for all requests, ms", s.time_in_queue, one_label("dev", d)));
    r
}

/// What the network collector reads of one interface.
pub struct NetStat {
    pub iface: String,
    pub rx_octets: u64,
    pub tx_octets: u64,
    pub rx_packets: u64,
    pub tx_packets: u64,
    pub rx_errors: u64,
    pub tx_errors: u64,
}

/// The six counters of a network interface, in order, labelled with it.
pub open spec fn net_stats(ms: Seq<Measure>, s: NetStat) -> bool {
    let l = Some(seq![("iface"@, s.iface@)]);
    &&& ms.len() == 6
    &&& counter_is(ms[0], "net_rx_octets"@, "Total number of octets received"@, s.rx_octets, l)
    &&& counter_is(ms[1], "net_tx_octets"@, "Total number of octets sent"@, s.tx_octets, l)
    &&& counter_is(ms[2], "net_rx_packets"@, "Total number of packets received"@, s.rx_packets, l)
    &&& counter_is(ms[3], "net_tx_packets"@, "Total number of packets sent"@, s.tx_packets, l)
    &&& counter_is(ms[4], "net_rx_errors"@, "Total number of receive errors"@, s.rx_errors, l)
    &&& counter_is(ms[5], "net_tx_errors"@, "Total number of transmit errors"@, s.tx_errors, l)
}

/// The measures of one network interface.
pub fn network_measures(s: &NetStat) -> (r: Vec<Measure>)
    ensures
        net_stats(r@, *s),
{
    let i = s.iface.as_str();
    let mut r: Vec<Measure> = Vec::new();
    r.push(counter("net_rx_octets", "Total number of octets received", s.rx_octets, one_label("iface", i)));
    r.push(counter("net_tx_octets", "Total number of octets sent", s.tx_octets, one_label("iface", i)));
    r.push(counter("net_rx_packets", "Total number of packets received", s.rx_packets, one_label("iface", i)));
    r.push(counter("net_tx_packets", "Total number of packets sent", s.tx_packets, one_label("iface", i)));
    r.push(counter("net_rx_errors", "Total number of receive errors", s.rx_errors, one_label("iface", i)));
    r.push(counter("net_tx_errors", "Total number of transmit errors", s.tx_errors, one_label("iface", i)));
    r
}

/// Sockets in use, by protocol and address family.
pub struct SocketStat {
    pub tcp4: u64,
    pub tcp6: u64,
    pub udp4: u64,
    pub udp6: u64,
}

/// The four socket gauges, without labels.
pub fn socket_measures(s: &SocketStat) -> (r: Vec<Measure>)
    ensures
        r.len() == 4,
        gauge_is(r[0], "tcp4_sockets_used"@, "Total amount of IPv4 TCP sockets used"@, s.tcp4, None),
        gauge_is(r[1], "tcp6_sockets_used"@, "Total amount of IPv6 TCP sockets used"@, s.tcp6, None),
        gauge_is(r[2], "udp4_sockets_used"@, "Total amount of IPv4 UDP sockets used"@, s.udp4, None),
        gauge_is(r[3], "udp6_sockets_used"@, "Total amount of IPv6 UDP sockets used"@, s.udp6, None),
{
    let mut r: Vec<Measure> = Vec::new();
    r.push(gauge("tcp4_sockets_used", "Total amount of IPv4 TCP sockets used", s.tcp4, Labels::default()));
    r.push(gauge("tcp6_sockets_used", "Total amount of IPv6 TCP sockets used", s.tcp6, Labels::default()));
    r.push(gauge("udp4_sockets_used", "Total amount of IPv4 UDP sockets used", s.udp4, Labels::default()));
    r.push(gauge("udp6_sockets_used", "Total amount of IPv6 UDP sockets used", s.udp6, Labels::default()));
    r
}

/// The uptime counter, in seconds.
pub fn uptime_measures(seconds: u64) -> (r: Vec<Measure>)
    ensures
        r.len() == 1,
        counter_is(r[0], "uptime"@, "System uptime"@, seconds, None),
{
    let mut r: Vec<Measure> = Vec::new();
    r.push(counter("uptime", "System uptime", seconds, Labels::default()));
    r
}

/// The three gauges of an HTTP probe: the response time, the size of the
/// body, and the compressed size (the declared length, else the body's).
pub fn http_measures(time_ns: u64, uncompressed: u64, content_length: Option<u64>) -> (r: Vec<Measure>)
    ensures
        r.len() == 3,
        gauge_is(r[0], "time_ns"@, "Response time in nanoseconds"@, time_ns, None),
        gauge_is(r[1], "bytes"@, "Response size in bytes"@, uncompressed, None),
        gauge_is(r[2], "compressed_bytes"@, "Compressed response size in bytes"@,
            content_length.unwrap_or(uncompressed), None),
{
    let mut r: Vec<Measure> = Vec::new();
    r.push(gauge("time_ns", "Response time in nanoseconds", time_ns, Labels::default()));
    r.push(gauge("bytes", "Response size in bytes", uncompressed, Labels::default()));
    r.push(gauge("compressed_bytes", "Compressed response size in bytes", compressed_size(content_length, uncompressed),
        Labels::default()));
    r
}


/// Each statistic of a block device is reported under its own name, with
/// its own value: `read_ios` carries the reads, `write_ios` the writes, and
/// so on for all eleven.
pub proof fn lemma_block_named(ms: Seq<Measure>, s: BlockStat)
    requires
        block_stats(ms, s),
    ensures
        reports(ms, "read_ios"@, Value::Counter(s.read_ios)),
        reports(ms, "read_merges"@, Value::Counter(s.read_merges)),
        reports(ms, "read_sectors"@, Value::Counter(s.read_sectors)),
        reports(ms, "read_ticks"@, Value::Counter(s.read_ticks)),
        reports(ms, "write_ios"@, Value::Counter(s.write_ios)),
        reports(ms, "write_merges"@, Value::Counter(s.write_merges)),
        reports(ms, "write_sectors"@, Value::Counter(s.write_sectors)),
        reports(ms, "write_ticks"@, Value::Counter(s.write_ticks)),
        reports(ms, "in_flight"@, Value::Gauge(s.in_flight)),
        reports(ms, "io_ticks"@, Value::Gauge(s.io_ticks)),
        reports(ms, "time_in_queue"@, Value::Gauge(s.time_in_queue)),
{
    assert(ms[0].name@ == "read_ios"@ && ms[0].value == Value::Counter(s.read_ios));
    assert(ms[1].name@ == "read_merges"@ && ms[1].value == Value::Counter(s.read_merges));
    assert(ms[2].name@ == "read_sectors"@ && ms[2].value == Value::Counter(s.read_sectors));
    assert(ms[3].name@ == "read_ticks"@ && ms[3].value == Value::Counter(s.read_ticks));
    assert(ms[4].name@ == "write_ios"@ && ms[4].value == Value::Counter(s.write_ios));
    assert(ms[5].name@ == "write_merges"@ && ms[5].value == Value::Counter(s.write_merges));
    assert(ms[6].name@ == "write_sectors"@ && ms[6].value == Value::Counter(s.write_sectors));
    assert(ms[7].name@ == "write_ticks"@ && ms[7].value == Value::Counter(s.write_ticks));
    assert(ms[8].name@ == "in_flight"@ && ms[8].value == Value::Gauge(s.in_flight));
    assert(ms[9].name@ == "io_ticks"@ && ms[9].value == Value::Gauge(s.io_ticks));
    assert(ms[10].name@ == "time_in_queue"@ && ms[10].value == Value::Gauge(s.time_in_queue));
}

/// Each statistic of a network interface is reported under its own name:
/// `net_rx_octets` carries the octets received, `net_tx_octets` those sent,
/// and so on for packets and errors.
pub proof fn lemma_net_named(ms: Seq<Measure>, s: NetStat)
    requires
        net_stats(ms, s),
    ensures
        reports(ms, "net_rx_octets"@, Value::Counter(s.rx_octets)),
        reports(ms, "net_tx_octets"@, Value::Counter(s.tx_octets)),
        reports(ms, "net_rx_packets"@, Value::Counter(s.rx_packets)),
        reports(ms, "net_tx_packets"@, Value::Counter(s.tx_packets)),
        reports(ms, "net_rx_errors"@, Value::Counter(s.rx_errors)),
        reports(ms, "net_tx_errors"@, Value::Counter(s.tx_errors)),
{
    assert(ms[0].name@ == "net_rx_octets"@ && ms[0].value == Value::Counter(s.rx_octets));
    assert(ms[1].name@ == "net_tx_octets"@ && ms[1].value == Value::Counter(s.tx_octets));
    assert(ms[2].name@ == "net_rx_packets"@ && ms[2].value == Value::Counter(s.rx_packets));
    assert(ms[3].name@ == "net_tx_packets"@ && ms[3].value == Value::Counter(s.tx_packets));
    assert(ms[4].name@ == "net_rx_errors"@ && ms[4].value == Value::Counter(s.rx_errors));
    assert(ms[5].name@ == "net_tx_errors"@ && ms[5].value == Value::Counter(s.tx_errors));
}

} // verus!
