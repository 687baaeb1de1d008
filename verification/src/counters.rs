//! Collectors that count what they did: the exec and spool collectors'
//! totals and the TWAMP reflector's session statistics.
use vstd::prelude::*;
use crate::error::AgentError;
use crate::label::{Label, LabelView, Labels, label_views};
use crate::measure::{Measure, Value, reports};
use crate::discovery::string_views;
use crate::modbus_tcp::address_text;
use crate::text::{push_dec, push_str, string_of};
use crate::text::{compare_str, lemma_lt_asymmetric, lemma_lt_transitive, seq_lt};

verus! {

/// A counter with the given labels.
pub open spec fn counter_is(m: Measure, name: Seq<char>, help: Seq<char>, v: u64, labels: Option<Seq<LabelView>>) -> bool {
    m.name@ == name && m.help@ == help && m.value == Value::Counter(v) && m.labels@ == labels && m.timestamp.is_none()
}

pub(crate) fn counter(name: &str, help: &str, v: u64, labels: Labels) -> (m: Measure)
    ensures
        counter_is(m, name@, help@, v, labels@),
{
    Measure { name: name.to_owned(), help: help.to_owned(), value: Value::Counter(v), labels, timestamp: None }
}

/// Labels holding one label.
pub(crate) fn one_label(key: &str, value: &str) -> (r: Labels)
    ensures
        r@ == Some(seq![(key@, value@)]),
{
    let mut v: Vec<Label> = Vec::new();
    v.push(Label::new(key, value));
    assert(label_views(v@) =~= seq![(key@, value@)]);
    Labels::new(v)
}

/// The exec collector: the command to run, and how many metric items
/// its runs gave in all.
pub struct ExecCollector {
    pub cmd: Vec<String>,
    pub cd: Option<String>,
    pub env: Option<Vec<(String, String)>>,
    pub exec_parsed: u64,
}

impl ExecCollector {
    /// The collector for a command (program and arguments); an empty
    /// command is a `ConfigurationError`.
    pub fn try_from(cmd: Vec<String>, cd: Option<String>, env: Option<Vec<(String, String)>>) -> (r: Result<ExecCollector, AgentError>)
        ensures
            cmd.len() == 0 ==> (r matches Err(AgentError::ConfigurationError(m)) && m@ == "cmd must not be empty"@),
            cmd.len() > 0 ==> (r matches Ok(c) && c.cmd == cmd && c.cd == cd && c.env == env && c.exec_parsed == 0),
    {
        if cmd.len() == 0 {
            return Err(AgentError::ConfigurationError("cmd must not be empty".to_owned()));
        }
        Ok(ExecCollector { cmd, cd, env, exec_parsed: 0 })
    }

    /// Counts the items of a run and gives the `exec_parsed` counter,
    /// labelled with the program.
    pub fn record(&mut self, parsed: u64) -> (m: Measure)
        requires
            old(self).cmd.len() > 0,
            old(self).exec_parsed + parsed <= u64::MAX,
        ensures
            final(self).exec_parsed == old(self).exec_parsed + parsed,
            final(self).cmd == old(self).cmd,
            counter_is(m, "exec_parsed"@, "Parsed metric items"@, final(self).exec_parsed, Some(seq![("script"@, old(self).cmd@[0]@)])),
    {
        self.exec_parsed = self.exec_parsed + parsed;
        counter("exec_parsed", "Parsed metric items", self.exec_parsed, one_label("script", self.cmd[0].as_str()))
    }
}

/// The spool collector's totals.
pub struct SpoolStats {
    pub spool_jobs: u64,
    pub spool_jobs_success: u64,
    pub spool_jobs_failed: u64,
    pub spool_parsed: u64,
}

impl SpoolStats {
    /// No job yet.
    pub fn new() -> (r: SpoolStats)
        ensures
            r.spool_jobs == 0 && r.spool_jobs_success == 0 && r.spool_jobs_failed == 0 && r.spool_parsed == 0,
    {
        SpoolStats { spool_jobs: 0, spool_jobs_success: 0, spool_jobs_failed: 0, spool_parsed: 0 }
    }

    /// Counts a file processed: a success with `Some` of the items it
    /// gave, a failure with `None`.
    pub fn record(&mut self, parsed: Option<u64>)
        requires
            old(self).spool_jobs < u64::MAX,
            parsed is None ==> old(self).spool_jobs_failed < u64::MAX,
            parsed matches Some(n) ==> old(self).spool_jobs_success < u64::MAX && old(self).spool_parsed + n <= u64::MAX,
        ensures
            final(self).spool_jobs == old(self).spool_jobs + 1,
            match parsed {
                Some(n) => final(self).spool_jobs_success == old(self).spool_jobs_success + 1
                    && final(self).spool_parsed == old(self).spool_parsed + n
                    && final(self).spool_jobs_failed == old(self).spool_jobs_failed,
                None => final(self).spool_jobs_failed == old(self).spool_jobs_failed + 1
                    && final(self).spool_jobs_success == old(self).spool_jobs_success
                    && final(self).spool_parsed == old(self).spool_parsed,
            },
            old(self).spool_jobs == old(self).spool_jobs_success + old(self).spool_jobs_failed
                ==> final(self).spool_jobs == final(self).spool_jobs_success + final(self).spool_jobs_failed,
    {
        self.spool_jobs = self.spool_jobs + 1;
        match parsed {
            Some(n) => {
                self.spool_jobs_success = self.spool_jobs_success + 1;
                self.spool_parsed = self.spool_parsed + n;
            },
            None => {
                self.spool_jobs_failed = self.spool_jobs_failed + 1;
            },
        }
    }

    /// The four counters, each labelled with the spool path.
    pub fn measures(&self, path: &str) -> (r: Vec<Measure>)
        ensures
            r.len() == 4,
            counter_is(r[0], "spool_jobs"@, "Total spool jobs processed"@, self.spool_jobs, Some(seq![("path"@, path@)])),
            counter_is(r[1], "spool_jobs_success"@, "Spool jobs processed successfully"@, self.spool_jobs_success, Some(seq![("path"@, path@)])),
            counter_is(r[2], "spool_jobs_failed"@, "Spool jobs failed to process"@, self.spool_jobs_failed, Some(seq![("path"@, path@)])),
            counter_is(r[3], "spool_parsed"@, "Parsed metric items"@, self.spool_parsed, Some(seq![("path"@, path@)])),
    {
        let mut r: Vec<Measure> = Vec::new();
        r.push(counter("spool_jobs", "Total spool jobs processed", self.spool_jobs, one_label("path", path)));
        r.push(counter("spool_jobs_success", "Spool jobs processed successfully", self.spool_jobs_success, one_label("path", path)));
        r.push(counter("spool_jobs_failed", "Spool jobs failed to process", self.spool_jobs_failed, one_label("path", path)));
        r.push(counter("spool_parsed", "Parsed metric items", self.spool_parsed, one_label("path", path)));
        r
    }
}

/// Names in ascending order: no name comes before an earlier one.
pub open spec fn names_sorted(s: Seq<Seq<char>>) -> bool {
    forall|i: int, j: int| 0 <= i < j < s.len() ==> !seq_lt(#[trigger] s[j], #[trigger] s[i])
}

/// The order in which the spool collector processes the files of its
/// directory: their names in ascending order (the order of `str`), each
/// name as often as it was given.
pub fn spool_order(names: Vec<String>) -> (r: Vec<String>)
    ensures
        names_sorted(string_views(r@)),
        string_views(r@).to_multiset() == string_views(names@).to_multiset(),
{
    let mut r: Vec<String> = Vec::new();
    let mut k: usize = 0;
    assert(string_views(names@).take(0) =~= Seq::<Seq<char>>::empty());
    assert(string_views(r@) =~= Seq::<Seq<char>>::empty());
    while k < names.len()
        invariant
            k <= names.len(),
            names_sorted(string_views(r@)),
            string_views(r@).to_multiset() == string_views(names@).take(k as int).to_multiset(),
        decreases names.len() - k,
    {
        let x = names[k].clone();
        let ghost rv = string_views(r@);
        let mut i: usize = 0;
        while i < r.len() && compare_str(x.as_str(), r[i].as_str()) >= 0
            invariant
                i <= r.len(),
                rv == string_views(r@),
                forall|m: int| 0 <= m < i ==> !seq_lt(x@, #[trigger] rv[m]),
            decreases r.len() - i,
        {
            i = i + 1;
        }
        proof {
            assert(i < r.len() ==> seq_lt(x@, rv[i as int]));
        }
        r.insert(i, x);
        proof {
            let nv = string_views(r@);
            assert(nv =~= rv.insert(i as int, names@[k as int]@));
            assert forall|a: int, b: int| 0 <= a < b < nv.len() implies !seq_lt(#[trigger] nv[b], #[trigger] nv[a]) by {
                if b < i {
                    assert(nv[a] == rv[a] && nv[b] == rv[b]);
                } else if b == i {
                    assert(nv[a] == rv[a]);
                } else if a < i {
                    assert(nv[a] == rv[a] && nv[b] == rv[b - 1]);
                } else if a == i {
                    assert(nv[b] == rv[b - 1]);
                    if seq_lt(rv[b - 1], x@) {
                        if b - 1 > i {
                            lemma_lt_transitive(rv[b - 1], x@, rv[i as int]);
                            lemma_lt_asymmetric(rv[i as int], rv[b - 1]);
                        } else {
                            lemma_lt_asymmetric(x@, rv[i as int]);
                        }
                    }
                } else {
                    assert(nv[a] == rv[a - 1] && nv[b] == rv[b - 1]);
                }
            }
            let xv = names@[k as int]@;
            let pre = string_views(names@).take(k as int);
            assert(string_views(names@).take(k + 1) =~= pre.push(xv));
            vstd::seq_lib::to_multiset_build(pre, xv);
            vstd::seq_lib::to_multiset_insert(rv, i as int, xv);
        }
        k = k + 1;
    }
    assert(string_views(names@).take(names.len() as int) =~= string_views(names@));
    r
}

/// Every job counted is either a success or a failure.
pub open spec fn spool_consistent(s: SpoolStats) -> bool {
    s.spool_jobs == s.spool_jobs_success + s.spool_jobs_failed
}

/// The measures of the files processed successfully, in order.
pub open spec fn parsed_all(rs: Seq<Option<Vec<Measure>>>) -> Seq<Measure>
    decreases rs.len(),
{
    if rs.len() == 0 {
        Seq::empty()
    } else {
        parsed_all(rs.drop_last()) + match rs.last() {
            Some(v) => v@,
            None => Seq::empty(),
        }
    }
}

/// How many files were processed successfully.
pub open spec fn success_count(rs: Seq<Option<Vec<Measure>>>) -> nat
    decreases rs.len(),
{
    if rs.len() == 0 {
        0
    } else {
        success_count(rs.drop_last()) + if rs.last() is Some { 1nat } else { 0nat }
    }
}

proof fn lemma_spool_prefix(rs: Seq<Option<Vec<Measure>>>, k: int)
    requires
        0 <= k <= rs.len(),
    ensures
        parsed_all(rs.take(k)).len() <= parsed_all(rs).len(),
        success_count(rs.take(k)) <= k,
        success_count(rs) <= rs.len(),
    decreases rs.len(),
{
    if rs.len() > 0 {
        if k == rs.len() {
            assert(rs.take(k) =~= rs);
            lemma_spool_prefix(rs.drop_last(), k - 1);
            assert(rs.drop_last().take(k - 1) =~= rs.drop_last());
        } else {
            lemma_spool_prefix(rs.drop_last(), k);
            assert(rs.drop_last().take(k) =~= rs.take(k));
        }
    } else {
        assert(rs.take(k) =~= rs);
    }
}

/// The spool collector: the directory it reads, whether it keeps the
/// files it processed, and its totals.
pub struct SpoolCollector {
    pub path: String,
    pub dry_run: bool,
    pub stats: SpoolStats,
}

impl SpoolCollector {
    /// The collector for a directory, with no job counted yet.
    pub fn new(path: String, dry_run: bool) -> (r: SpoolCollector)
        ensures
            r.path == path,
            r.dry_run == dry_run,
            r.stats.spool_jobs == 0 && r.stats.spool_jobs_success == 0 && r.stats.spool_jobs_failed == 0
                && r.stats.spool_parsed == 0,
            spool_consistent(r.stats),
    {
        SpoolCollector { path, dry_run, stats: SpoolStats::new() }
    }

    /// One run over the directory: `results` holds, for each file in the
    /// order `spool_order` gives, its measures when it was read and parsed
    /// and `None` when it failed. The result is the measures of the
    /// successful files in that order, then the four totals, labelled with
    /// the directory. Every file is a job; a success adds its measures to
    /// the parsed count.
    pub fn collect(&mut self, results: Vec<Option<Vec<Measure>>>) -> (r: Vec<Measure>)
        requires
            old(self).stats.spool_jobs + results.len() <= u64::MAX,
            old(self).stats.spool_jobs_success + results.len() <= u64::MAX,
            old(self).stats.spool_jobs_failed + results.len() <= u64::MAX,
            old(self).stats.spool_parsed + parsed_all(results@).len() <= u64::MAX,
        ensures
            final(self).path == old(self).path,
            final(self).dry_run == old(self).dry_run,
            final(self).stats.spool_jobs == old(self).stats.spool_jobs + results.len(),
            final(self).stats.spool_jobs_success == old(self).stats.spool_jobs_success + success_count(results@),
            final(self).stats.spool_jobs_failed
                == old(self).stats.spool_jobs_failed + (results.len() - success_count(results@)),
            final(self).stats.spool_parsed == old(self).stats.spool_parsed + parsed_all(results@).len(),
            spool_consistent(old(self).stats) ==> spool_consistent(final(self).stats),
            ({
                let n = parsed_all(results@).len() as int;
                let l = Some(seq![("path"@, old(self).path@)]);
                let s = final(self).stats;
                &&& r.len() == n + 4
                &&& r@.take(n) == parsed_all(results@)
                &&& counter_is(r[n], "spool_jobs"@, "Total spool jobs processed"@, s.spool_jobs, l)
                &&& counter_is(r[n + 1], "spool_jobs_success"@, "Spool jobs processed successfully"@, s.spool_jobs_success, l)
                &&& counter_is(r[n + 2], "spool_jobs_failed"@, "Spool jobs failed to process"@, s.spool_jobs_failed, l)
                &&& counter_is(r[n + 3], "spool_parsed"@, "Parsed metric items"@, s.spool_parsed, l)
            }),
    {
        let ghost all = results@;
        let ghost s0 = self.stats;
        let mut rest = results;
        let mut out: Vec<Measure> = Vec::new();
        let mut k: usize = 0;
        let n = rest.len();
        proof {
            lemma_spool_prefix(all, all.len() as int);
            assert(all.take(0) =~= Seq::<Option<Vec<Measure>>>::empty());
            assert(all.skip(0) =~= all);
        }
        while k < n
            invariant
                n == all.len(),
                k <= n,
                rest@ == all.skip(k as int),
                out@ == parsed_all(all.take(k as int)),
                self.path == old(self).path,
                self.dry_run == old(self).dry_run,
                self.stats.spool_jobs == s0.spool_jobs + k,
                self.stats.spool_jobs_success == s0.spool_jobs_success + success_count(all.take(k as int)),
                self.stats.spool_jobs_failed == s0.spool_jobs_failed + (k - success_count(all.take(k as int))),
                self.stats.spool_parsed == s0.spool_parsed + parsed_all(all.take(k as int)).len(),
                s0.spool_jobs + n <= u64::MAX,
                s0.spool_jobs_success + n <= u64::MAX,
                s0.spool_jobs_failed + n <= u64::MAX,
                s0.spool_parsed + parsed_all(all).len() <= u64::MAX,
            decreases n - k,
        {
            proof {
                lemma_spool_prefix(all, k as int);
                lemma_spool_prefix(all, k + 1);
                assert(all.take(k + 1).drop_last() =~= all.take(k as int));
                assert(all.take(k + 1).last() == all[k as int]);
                assert(all.skip(k as int)[0] == all[k as int]);
                assert(all.skip(k as int).remove(0) =~= all.skip(k + 1));
            }
            let item = rest.remove(0);
            match item {
                Some(mut v) => {
                    let ghost vv = v@;
                    let c = v.len() as u64;
                    out.append(&mut v);
                    self.stats.record(Some(c));
                    assert(out@ =~= parsed_all(all.take(k + 1)));
                },
                None => {
                    self.stats.record(None);
                    assert(out@ =~= parsed_all(all.take(k + 1)));
                },
            }
            k = k + 1;
        }
        proof {
            assert(all.take(n as int) =~= all);
        }
        let ghost m = out@;
        let mut tail = self.stats.measures(self.path.as_str());
        out.append(&mut tail);
        proof {
            assert(out@.take(m.len() as int) =~= m);
        }
        out
    }
}

/// Octets of the IP header counted with each reflected packet.
pub const IP_OVERHEAD: u64 = 20;
/// Octets of the UDP header counted with each reflected packet.
pub const UDP_OVERHEAD: u64 = 8;

/// What one TWAMP test session reflected.
#[derive(Debug, Clone, Copy)]
pub struct SessionStats {
    pub reflected_pkt: u64,
    pub reflected_octets: u64,
}

/// Each reflected packet counts at least its IP and UDP headers.
pub open spec fn session_consistent(s: SessionStats) -> bool {
    s.reflected_octets >= (IP_OVERHEAD + UDP_OVERHEAD) * s.reflected_pkt
}

impl SessionStats {
    /// Nothing reflected yet.
    pub fn new() -> (r: SessionStats)
        ensures
            r.reflected_pkt == 0 && r.reflected_octets == 0,
            session_consistent(r),
    {
        SessionStats { reflected_pkt: 0, reflected_octets: 0 }
    }

    /// Counts a reflected packet of which `sent` octets were sent, with
    /// its IP and UDP headers.
    pub fn reflected(&mut self, sent: u64)
        requires
            old(self).reflected_pkt < u64::MAX,
            old(self).reflected_octets + sent + IP_OVERHEAD + UDP_OVERHEAD <= u64::MAX,
        ensures
            final(self).reflected_pkt == old(self).reflected_pkt + 1,
            final(self).reflected_octets == old(self).reflected_octets + sent + IP_OVERHEAD + UDP_OVERHEAD,
            session_consistent(*old(self)) ==> session_consistent(*final(self)),
    {
        self.reflected_octets = self.reflected_octets + sent + IP_OVERHEAD + UDP_OVERHEAD;
        self.reflected_pkt = self.reflected_pkt + 1;
    }
}

/// The TWAMP reflector's totals over all sessions.
pub struct CollectorStats {
    pub session_attempts: u64,
    pub session_started: u64,
    pub reflected_pkt: u64,
    pub reflected_octets: u64,
}

/// The reflector's totals agree with each other: no more sessions started
/// than attempted, at least one packet per started session, and at least
/// the headers' octets per packet.
pub open spec fn totals_consistent(c: CollectorStats) -> bool {
    &&& c.session_started <= c.session_attempts
    &&& c.reflected_pkt >= c.session_started
    &&& c.reflected_octets >= (IP_OVERHEAD + UDP_OVERHEAD) * c.reflected_pkt
}

impl CollectorStats {
    /// No session yet.
    pub fn new() -> (r: CollectorStats)
        ensures
            r.session_attempts == 0 && r.session_started == 0 && r.reflected_pkt == 0 && r.reflected_octets == 0,
            totals_consistent(r),
    {
        CollectorStats { session_attempts: 0, session_started: 0, reflected_pkt: 0, reflected_octets: 0 }
    }

    /// Counts a finished session: every session is an attempt; one that
    /// reflected packets is a started one, and its packets and octets add
    /// to the totals.
    pub fn record(&mut self, s: SessionStats)
        requires
            old(self).session_attempts < u64::MAX,
            s.reflected_pkt > 0 ==> old(self).session_started < u64::MAX
                && old(self).reflected_pkt + s.reflected_pkt <= u64::MAX
                && old(self).reflected_octets + s.reflected_octets <= u64::MAX,
        ensures
            final(self).session_attempts == old(self).session_attempts + 1,
            s.reflected_pkt > 0 ==> final(self).session_started == old(self).session_started + 1
                && final(self).reflected_pkt == old(self).reflected_pkt + s.reflected_pkt
                && final(self).reflected_octets == old(self).reflected_octets + s.reflected_octets,
            s.reflected_pkt == 0 ==> final(self).session_started == old(self).session_started
                && final(self).reflected_pkt == old(self).reflected_pkt
                && final(self).reflected_octets == old(self).reflected_octets,
            old(self).session_started <= old(self).session_attempts
                ==> final(self).session_started <= final(self).session_attempts,
            totals_consistent(*old(self)) && session_consistent(s) ==> totals_consistent(*final(self)),
    {
        self.session_attempts = self.session_attempts + 1;
        if s.reflected_pkt > 0 {
            self.session_started = self.session_started + 1;
            self.reflected_pkt = self.reflected_pkt + s.reflected_pkt;
            self.reflected_octets = self.reflected_octets + s.reflected_octets;
        }
    }

    /// The four counters, without labels.
    pub fn get_stats(&self) -> (r: Vec<Measure>)
        ensures
            r.len() == 4,
            counter_is(r[0], "twamp_session_attempts"@, "Total amount of the attempted sessions"@, self.session_attempts, None),
            counter_is(r[1], "twamp_session_started"@, "Total amount of the started sessions"@, self.session_started, None),
            counter_is(r[2], "twamp_reflected_pkt"@, "Total amount of the reflected packets"@, self.reflected_pkt, None),
            counter_is(r[3], "twamp_reflected_octets"@, "Total amount of the reflected octets"@, self.reflected_octets, None),
    {
        let mut r: Vec<Measure> = Vec::new();
        r.push(counter("twamp_session_attempts", "Total amount of the attempted sessions", self.session_attempts, Labels::default()));
        r.push(counter("twamp_session_started", "Total amount of the started sessions", self.session_started, Labels::default()));
        r.push(counter("twamp_reflected_pkt", "Total amount of the reflected packets", self.reflected_pkt, Labels::default()));
        r.push(counter("twamp_reflected_octets", "Total amount of the reflected octets", self.reflected_octets, Labels::default()));
        r
    }
}

/// The reflector's four counters, without labels.
pub open spec fn reflector_measures(ms: Seq<Measure>, c: CollectorStats) -> bool {
    &&& ms.len() == 4
    &&& counter_is(ms[0], "twamp_session_attempts"@, "Total amount of the attempted sessions"@, c.session_attempts, None)
    &&& counter_is(ms[1], "twamp_session_started"@, "Total amount of the started sessions"@, c.session_started, None)
    &&& counter_is(ms[2], "twamp_reflected_pkt"@, "Total amount of the reflected packets"@, c.reflected_pkt, None)
    &&& counter_is(ms[3], "twamp_reflected_octets"@, "Total amount of the reflected octets"@, c.reflected_octets, None)
}

/// The TWAMP reflector collector: the address it listens on, whether it
/// listens already, and its totals over the finished sessions.
pub struct ReflectorCollector {
    pub listen: String,
    pub port: u16,
    pub listening: bool,
    pub stats: CollectorStats,
}

/// What a collection of the reflector does next.
pub enum ReflectorStep {
    /// Listen on this address (`listen:port`); no measures yet.
    Bind(String),
    /// Report these measures.
    Report(Vec<Measure>),
}

impl ReflectorCollector {
    /// The collector for its settings: not listening yet, no session yet.
    pub fn try_from(listen: String, port: u16) -> (r: Result<ReflectorCollector, AgentError>)
        ensures
            r matches Ok(c) && c.listen == listen && c.port == port && !c.listening
                && c.stats.session_attempts == 0 && c.stats.session_started == 0 && c.stats.reflected_pkt == 0
                && c.stats.reflected_octets == 0 && totals_consistent(c.stats),
    {
        Ok(ReflectorCollector { listen, port, listening: false, stats: CollectorStats::new() })
    }

    /// A collection: once the reflector listens, the four totals; before,
    /// the address to listen on.
    pub fn collect_step(&self) -> (r: ReflectorStep)
        ensures
            self.listening ==> (r matches ReflectorStep::Report(ms) && reflector_measures(ms@, self.stats)),
            !self.listening ==> (r matches ReflectorStep::Bind(a) && a@ == address_text(self.listen@, self.port)),
    {
        if self.listening {
            ReflectorStep::Report(self.stats.get_stats())
        } else {
            let mut a: Vec<char> = Vec::new();
            push_str(&mut a, self.listen.as_str());
            a.push(':');
            push_dec(&mut a, self.port as u64);
            assert(a@ =~= address_text(self.listen@, self.port));
            ReflectorStep::Bind(string_of(a.as_slice()))
        }
    }

    /// The outcome of listening on the address: from a success on, the
    /// reflector listens, and this collection gives no measures; a failure
    /// is an `InternalError` with its text, and the next collection tries
    /// again.
    pub fn bound(&mut self, outcome: Result<(), String>) -> (r: Result<Vec<Measure>, AgentError>)
        ensures
            final(self).listen == old(self).listen,
            final(self).port == old(self).port,
            final(self).stats == old(self).stats,
            match outcome {
                Ok(()) => final(self).listening && (r matches Ok(ms) && ms.len() == 0),
                Err(e) => final(self).listening == old(self).listening
                    && (r matches Err(AgentError::InternalError(m)) && m@ == e@),
            },
    {
        match outcome {
            Ok(()) => {
                self.listening = true;
                Ok(Vec::new())
            },
            Err(e) => Err(AgentError::InternalError(e)),
        }
    }
}

/// The DSCP of a test session: the low byte of its Type-P descriptor.
pub fn dscp_of(type_p: u32) -> (r: u8)
    ensures
        r as int == type_p as int % 256,
{
    (type_p % 256) as u8
}

/// The TWAMP control mode without authentication, the only one the
/// reflector serves.
pub const MODE_UNAUTHENTICATED: u32 = 1;

/// The reflector's answer to the mode a client chose in its
/// Setup-Response: the unauthenticated mode goes on, any other is a
/// `FrameError`.
pub fn check_setup_mode(mode: u32) -> (r: Result<(), AgentError>)
    ensures
        mode == MODE_UNAUTHENTICATED ==> r is Ok,
        mode != MODE_UNAUTHENTICATED ==> (r matches Err(AgentError::FrameError(m)) && m@ == "unsupported mode"@),
{
    if mode == MODE_UNAUTHENTICATED {
        Ok(())
    } else {
        Err(AgentError::FrameError("unsupported mode".to_owned()))
    }
}

/// The reflector's port, once its socket exists; a `NetworkError`
/// before.
pub fn get_reflector_port(port: Option<u16>) -> (r: Result<u16, AgentError>)
    ensures
        match port {
            Some(p) => r == Ok::<u16, AgentError>(p),
            None => r matches Err(AgentError::NetworkError(m)) && m@ == "socket not created"@,
        },
{
    match port {
        Some(p) => Ok(p),
        None => Err(AgentError::NetworkError("socket not created".to_owned())),
    }
}

/// Default listen address of the reflector.
pub fn default_all() -> (r: String)
    ensures
        r@ == "0.0.0.0"@,
{
    "0.0.0.0".to_owned()
}

/// Default TWAMP control port.
pub fn default_862() -> (r: u16)
    ensures
        r == 862,
{
    862
}

/// Default setting for the spool's dry run and timestamps.
pub fn default_false() -> (r: bool)
    ensures
        !r,
{
    false
}


/// The DNS collector's totals over all series of requests.
pub struct DnsStats {
    pub total: u64,
    pub success: u64,
    pub failed: u64,
}

impl DnsStats {
    /// No request yet.
    pub fn new() -> (r: DnsStats)
        ensures
            r.total == 0 && r.success == 0 && r.failed == 0,
    {
        DnsStats { total: 0, success: 0, failed: 0 }
    }

    /// Counts a series of `n` requests of which `success` succeeded.
    pub fn record(&mut self, n: u64, success: u64)
        requires
            success <= n,
            old(self).total + n <= u64::MAX,
            old(self).success + success <= u64::MAX,
            old(self).failed + (n - success) <= u64::MAX,
        ensures
            final(self).total == old(self).total + n,
            final(self).success == old(self).success + success,
            final(self).failed == old(self).failed + (n - success),
            old(self).total == old(self).success + old(self).failed
                ==> final(self).total == final(self).success + final(self).failed,
    {
        self.total = self.total + n;
        self.success = self.success + success;
        self.failed = self.failed + (n - success);
    }

    /// The three request counters, labelled with the query and the
    /// record type.
    pub fn measures(&self, query: &str, record_type: &str) -> (r: Vec<Measure>)
        ensures
            r.len() == 3,
            counter_is(r[0], "requests_total"@, "Total DNS requests performed"@, self.total, Some(seq![("query"@, query@), ("type"@, record_type@)])),
            counter_is(r[1], "requests_success"@, "Successful DNS requests"@, self.success, Some(seq![("query"@, query@), ("type"@, record_type@)])),
            counter_is(r[2], "requests_failed"@, "Failed DNS requests"@, self.failed, Some(seq![("query"@, query@), ("type"@, record_type@)])),
    {
        let mut r: Vec<Measure> = Vec::new();
        r.push(counter("requests_total", "Total DNS requests performed", self.total, two_labels("query", query, "type", record_type)));
        r.push(counter("requests_success", "Successful DNS requests", self.success, two_labels("query", query, "type", record_type)));
        r.push(counter("requests_failed", "Failed DNS requests", self.failed, two_labels("query", query, "type", record_type)));
        r
    }
}

/// Labels holding two labels.
fn two_labels(k1: &str, v1: &str, k2: &str, v2: &str) -> (r: Labels)
    ensures
        r@ == Some(seq![(k1@, v1@), (k2@, v2@)]),
{
    let mut v: Vec<Label> = Vec::new();
    v.push(Label::new(k1, v1));
    v.push(Label::new(k2, v2));
    assert(label_views(v@) =~= seq![(k1@, v1@), (k2@, v2@)]);
    Labels::new(v)
}

/// Default record type of the DNS collector.
pub fn default_type_a() -> (r: String)
    ensures
        r@ == "A"@,
{
    "A".to_owned()
}

/// Default number of requests in a series.
pub fn default_one() -> (r: u64)
    ensures
        r == 1,
{
    1
}

/// The compressed size of an HTTP response: its declared length, else
/// the size of its body.
pub fn compressed_size(content_length: Option<u64>, uncompressed: u64) -> (r: u64)
    ensures
        r == content_length.unwrap_or(uncompressed),
{
    match content_length {
        Some(x) => x,
        None => uncompressed,
    }
}

/// Default database of the pgbouncer collector.
pub fn default_pgbouncer() -> (r: String)
    ensures
        r@ == "pgbouncer"@,
{
    "pgbouncer".to_owned()
}

/// Each total of the reflector is reported under its own name:
/// `twamp_session_attempts` the sessions attempted, `twamp_session_started`
/// those started, `twamp_reflected_pkt` the packets and
/// `twamp_reflected_octets` the octets reflected.
pub proof fn lemma_reflector_named(ms: Seq<Measure>, c: CollectorStats)
    requires
        reflector_measures(ms, c),
    ensures
        reports(ms, "twamp_session_attempts"@, Value::Counter(c.session_attempts)),
        reports(ms, "twamp_session_started"@, Value::Counter(c.session_started)),
        reports(ms, "twamp_reflected_pkt"@, Value::Counter(c.reflected_pkt)),
        reports(ms, "twamp_reflected_octets"@, Value::Counter(c.reflected_octets)),
{
    assert(ms[0].name@ == "twamp_session_attempts"@ && ms[0].value == Value::Counter(c.session_attempts));
    assert(ms[1].name@ == "twamp_session_started"@ && ms[1].value == Value::Counter(c.session_started));
    assert(ms[2].name@ == "twamp_reflected_pkt"@ && ms[2].value == Value::Counter(c.reflected_pkt));
    assert(ms[3].name@ == "twamp_reflected_octets"@ && ms[3].value == Value::Counter(c.reflected_octets));
}

} // verus!
