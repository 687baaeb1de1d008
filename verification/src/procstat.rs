//! The process statistics collector: the measures of one process.
//! CPU times and usage are floating-point; they come here as the text
//! `f32` displays, the usage already computed from the last run.
use vstd::prelude::*;
use crate::label::{Label, LabelView, Labels, label_views};
use crate::mdb::MeasureView;
use crate::measure::{Measure, Value};
use crate::pgstats::{no_timestamps, plain_views};

verus! {

/// What the collector read of one process; `None` where the system did
/// not give a value.
pub struct ProcStat {
    pub num_fds: Option<u64>,
    pub num_threads: Option<u64>,
    pub voluntary_context_switches: Option<u64>,
    pub involuntary_context_switches: Option<u64>,
    pub minor_faults: Option<u64>,
    pub major_faults: Option<u64>,
    pub child_minor_faults: Option<u64>,
    pub child_major_faults: Option<u64>,
    pub cpu_time_user: Option<String>,
    pub cpu_time_system: Option<String>,
    pub cpu_time_iowait: Option<String>,
    pub cpu_usage: Option<String>,
    pub mem_total: Option<u64>,
    pub mem_rss: Option<u64>,
    pub mem_swap: Option<u64>,
    pub mem_data: Option<u64>,
    pub mem_stack: Option<u64>,
    pub mem_text: Option<u64>,
    pub mem_lib: Option<u64>,
    pub mem_locked: Option<u64>,
    pub io_read_count: Option<u64>,
    pub io_write_count: Option<u64>,
    pub io_read_bytes: Option<u64>,
    pub io_write_bytes: Option<u64>,
}

/// The labels of a process's measures: its name and its user, both
/// present even when empty.
pub open spec fn process_labels(process_name: Seq<char>, user: Seq<char>) -> Option<Seq<LabelView>> {
    Some(seq![("process_name"@, process_name), ("user"@, user)])
}

/// The measure of a value, when there is one.
pub open spec fn opt_measure(v: Option<Value>, name: Seq<char>, help: Seq<char>, l: Option<Seq<LabelView>>) -> Seq<MeasureView> {
    match v {
        Some(x) => seq![MeasureView { name, help, value: x, labels: l }],
        None => Seq::empty(),
    }
}

/// An integer gauge, when there is a value.
pub open spec fn gauge_of(v: Option<u64>) -> Option<Value> {
    match v {
        Some(x) => Some(Value::Gauge(x)),
        None => None,
    }
}

/// An integer counter, when there is a value.
pub open spec fn counter_of(v: Option<u64>) -> Option<Value> {
    match v {
        Some(x) => Some(Value::Counter(x)),
        None => None,
    }
}

/// A floating-point counter, when there is a value.
pub open spec fn counter_f_of(v: Option<String>) -> Option<Value> {
    match v {
        Some(x) => Some(Value::CounterF(x)),
        None => None,
    }
}

/// A floating-point gauge, when there is a value.
pub open spec fn gauge_f_of(v: Option<String>) -> Option<Value> {
    match v {
        Some(x) => Some(Value::GaugeF(x)),
        None => None,
    }
}

/// The measures of a process, in the collector's order, each labelled
/// with the process name and user; a value the system did not give
/// gives none.
/// The measures of a process's open files, threads, context switches and page faults.
pub open spec fn process_counts(s: ProcStat, l: Option<Seq<LabelView>>) -> Seq<MeasureView> {
    opt_measure(gauge_of(s.num_fds), "ps_num_fds"@, "Number of open files"@, l)
        + opt_measure(gauge_of(s.num_threads), "ps_num_threads"@, "Number of threads"@, l)
        + opt_measure(counter_of(s.voluntary_context_switches), "ps_voluntary_context_switches"@, "Total voluntary context switches"@, l)
        + opt_measure(counter_of(s.involuntary_context_switches), "ps_involuntary_context_switches"@, "Total involuntary context switches"@, l)
        + opt_measure(counter_of(s.minor_faults), "ps_minor_faults"@, "Total number of minor faults which do not requirie loading memory from disk"@, l)
        + opt_measure(counter_of(s.major_faults), "ps_major_faults"@, "Total number of major faults which require loading memory from disk"@, l)
        + opt_measure(counter_of(s.child_minor_faults), "ps_child_minor_faults"@, "Total number of minor faults that process waited-for children made"@, l)
        + opt_measure(counter_of(s.child_major_faults), "ps_child_major_faults"@, "Total number of major faults that process waited-for children made"@, l)
}

/// The measures of a process's CPU times and usage.
pub open spec fn process_cpu(s: ProcStat, l: Option<Seq<LabelView>>) -> Seq<MeasureView> {
    opt_measure(counter_f_of(s.cpu_time_user), "ps_cpu_time_user"@, "CPU time in user mode in seconds"@, l)
        + opt_measure(counter_f_of(s.cpu_time_system), "ps_cpu_time_system"@, "CPU time in system mode in seconds"@, l)
        + opt_measure(counter_f_of(s.cpu_time_iowait), "ps_cpu_time_iowait"@, "CPU time iowait in seconds"@, l)
        + opt_measure(gauge_f_of(s.cpu_usage), "ps_cpu_usage"@, "Total CPU usage in percents"@, l)
}

/// The measures of a process's memory sizes.
pub open spec fn process_memory(s: ProcStat, l: Option<Seq<LabelView>>) -> Seq<MeasureView> {
    opt_measure(gauge_of(s.mem_total), "ps_mem_total"@, "Total memory"@, l)
        + opt_measure(gauge_of(s.mem_rss), "ps_mem_rss"@, "Resident set size"@, l)
        + opt_measure(gauge_of(s.mem_swap), "ps_mem_swap"@, "Swapped-out virtual memory size"@, l)
        + opt_measure(gauge_of(s.mem_data), "ps_mem_data"@, "Data segment size"@, l)
        + opt_measure(gauge_of(s.mem_stack), "ps_mem_stack"@, "Stack segment size"@, l)
        + opt_measure(gauge_of(s.mem_text), "ps_mem_text"@, "Text segment size"@, l)
        + opt_measure(gauge_of(s.mem_lib), "ps_mem_lib"@, "Shared library code size"@, l)
        + opt_measure(gauge_of(s.mem_locked), "ps_mem_locked"@, "Locked memory size"@, l)
}

/// The measures of a process's I/O operations and bytes.
pub open spec fn process_io(s: ProcStat, l: Option<Seq<LabelView>>) -> Seq<MeasureView> {
    opt_measure(counter_of(s.io_read_count), "ps_read_count"@, "Total read I/O operations"@, l)
        + opt_measure(counter_of(s.io_write_count), "ps_write_count"@, "Total write I/O operations"@, l)
        + opt_measure(counter_of(s.io_read_bytes), "ps_read_bytes"@, "Total bytes read"@, l)
        + opt_measure(counter_of(s.io_write_bytes), "ps_write_bytes"@, "Total bytes written"@, l)
}

/// The measures of a process, in the collector's order, each labelled
/// with the process name and user; a value the system did not give
/// gives none.
pub open spec fn process_views(s: ProcStat, process_name: Seq<char>, user: Seq<char>) -> Seq<MeasureView> {
    let l = process_labels(process_name, user);
    process_counts(s, l) + process_cpu(s, l) + process_memory(s, l) + process_io(s, l)
}

fn labels_of(process_name: &str, user: &str) -> (r: Labels)
    ensures
        r@ == process_labels(process_name@, user@),
{
    let mut v: Vec<Label> = Vec::new();
    v.push(Label::new("process_name", process_name));
    v.push(Label::new("user", user));
    assert(label_views(v@) =~= seq![("process_name"@, process_name@), ("user"@, user@)]);
    Labels::new(v)
}

fn push_opt(r: &mut Vec<Measure>, v: Option<Value>, name: &str, help: &str, process_name: &str, user: &str)
    ensures
        plain_views(final(r)@) == plain_views(old(r)@) + opt_measure(v, name@, help@, process_labels(process_name@, user@)),
        no_timestamps(old(r)@) ==> no_timestamps(final(r)@),
{
    match v {
        Some(x) => {
            let m = Measure {
                name: name.to_owned(),
                help: help.to_owned(),
                value: x,
                labels: labels_of(process_name, user),
                timestamp: None,
            };
            r.push(m);
        },
        None => {},
    }
    assert(plain_views(r@) =~= plain_views(old(r)@) + opt_measure(v, name@, help@, process_labels(process_name@, user@)));
}

fn push_process_counts(r: &mut Vec<Measure>, s: &ProcStat, pn: &str, user: &str)
    ensures
        plain_views(final(r)@) == plain_views(old(r)@) + process_counts(*s, process_labels(pn@, user@)),
        no_timestamps(old(r)@) ==> no_timestamps(final(r)@),
{
    let ghost r0 = plain_views(r@);
    push_opt(r, gauge_val(s.num_fds), "ps_num_fds", "Number of open files", pn, user);
    push_opt(r, gauge_val(s.num_threads), "ps_num_threads", "Number of threads", pn, user);
    push_opt(r, counter_val(s.voluntary_context_switches), "ps_voluntary_context_switches", "Total voluntary context switches", pn, user);
    push_opt(r, counter_val(s.involuntary_context_switches), "ps_involuntary_context_switches", "Total involuntary context switches", pn, user);
    push_opt(r, counter_val(s.minor_faults), "ps_minor_faults", "Total number of minor faults which do not requirie loading memory from disk", pn, user);
    push_opt(r, counter_val(s.major_faults), "ps_major_faults", "Total number of major faults which require loading memory from disk", pn, user);
    push_opt(r, counter_val(s.child_minor_faults), "ps_child_minor_faults", "Total number of minor faults that process waited-for children made", pn, user);
    push_opt(r, counter_val(s.child_major_faults), "ps_child_major_faults", "Total number of major faults that process waited-for children made", pn, user);
    assert(plain_views(r@) =~= r0 + process_counts(*s, process_labels(pn@, user@)));
}

fn push_process_cpu(r: &mut Vec<Measure>, s: &ProcStat, pn: &str, user: &str)
    ensures
        plain_views(final(r)@) == plain_views(old(r)@) + process_cpu(*s, process_labels(pn@, user@)),
        no_timestamps(old(r)@) ==> no_timestamps(final(r)@),
{
    let ghost r0 = plain_views(r@);
    push_opt(r, counter_f_val(&s.cpu_time_user), "ps_cpu_time_user", "CPU time in user mode in seconds", pn, user);
    push_opt(r, counter_f_val(&s.cpu_time_system), "ps_cpu_time_system", "CPU time in system mode in seconds", pn, user);
    push_opt(r, counter_f_val(&s.cpu_time_iowait), "ps_cpu_time_iowait", "CPU time iowait in seconds", pn, user);
    push_opt(r, gauge_f_val(&s.cpu_usage), "ps_cpu_usage", "Total CPU usage in percents", pn, user);
    assert(plain_views(r@) =~= r0 + process_cpu(*s, process_labels(pn@, user@)));
}

fn push_process_memory(r: &mut Vec<Measure>, s: &ProcStat, pn: &str, user: &str)
    ensures
        plain_views(final(r)@) == plain_views(old(r)@) + process_memory(*s, process_labels(pn@, user@)),
        no_timestamps(old(r)@) ==> no_timestamps(final(r)@),
{
    let ghost r0 = plain_views(r@);
    push_opt(r, gauge_val(s.mem_total), "ps_mem_total", "Total memory", pn, user);
    push_opt(r, gauge_val(s.mem_rss), "ps_mem_rss", "Resident set size", pn, user);
    push_opt(r, gauge_val(s.mem_swap), "ps_mem_swap", "Swapped-out virtual memory size", pn, user);
    push_opt(r, gauge_val(s.mem_data), "ps_mem_data", "Data segment size", pn, user);
    push_opt(r, gauge_val(s.mem_stack), "ps_mem_stack", "Stack segment size", pn, user);
    push_opt(r, gauge_val(s.mem_text), "ps_mem_text", "Text segment size", pn, user);
    push_opt(r, gauge_val(s.mem_lib), "ps_mem_lib", "Shared library code size", pn, user);
    push_opt(r, gauge_val(s.mem_locked), "ps_mem_locked", "Locked memory size", pn, user);
    assert(plain_views(r@) =~= r0 + process_memory(*s, process_labels(pn@, user@)));
}

fn push_process_io(r: &mut Vec<Measure>, s: &ProcStat, pn: &str, user: &str)
    ensures
        plain_views(final(r)@) == plain_views(old(r)@) + process_io(*s, process_labels(pn@, user@)),
        no_timestamps(old(r)@) ==> no_timestamps(final(r)@),
{
    let ghost r0 = plain_views(r@);
    push_opt(r, counter_val(s.io_read_count), "ps_read_count", "Total read I/O operations", pn, user);
    push_opt(r, counter_val(s.io_write_count), "ps_write_count", "Total write I/O operations", pn, user);
    push_opt(r, counter_val(s.io_read_bytes), "ps_read_bytes", "Total bytes read", pn, user);
    push_opt(r, counter_val(s.io_write_bytes), "ps_write_bytes", "Total bytes written", pn, user);
    assert(plain_views(r@) =~= r0 + process_io(*s, process_labels(pn@, user@)));
}

fn gauge_val(v: Option<u64>) -> (r: Option<Value>)
    ensures
        r == gauge_of(v),
{
    match v {
        Some(x) => Some(Value::Gauge(x)),
        None => None,
    }
}

fn counter_val(v: Option<u64>) -> (r: Option<Value>)
    ensures
        r == counter_of(v),
{
    match v {
        Some(x) => Some(Value::Counter(x)),
        None => None,
    }
}

fn counter_f_val(v: &Option<String>) -> (r: Option<Value>)
    ensures
        r == counter_f_of(*v),
{
    match v {
        Some(x) => Some(Value::CounterF(x.clone())),
        None => None,
    }
}

fn gauge_f_val(v: &Option<String>) -> (r: Option<Value>)
    ensures
        r == gauge_f_of(*v),
{
    match v {
        Some(x) => Some(Value::GaugeF(x.clone())),
        None => None,
    }
}

/// The measures of one process (see `process_views`).
pub fn process_measures(process_name: &str, user: &str, s: &ProcStat) -> (r: Vec<Measure>)
    ensures
        no_timestamps(r@),
        plain_views(r@) == process_views(*s, process_name@, user@),
{
    let mut r: Vec<Measure> = Vec::new();
    assert(plain_views(r@) =~= Seq::<MeasureView>::empty());
    push_process_counts(&mut r, s, process_name, user);
    push_process_cpu(&mut r, s, process_name, user);
    push_process_memory(&mut r, s, process_name, user);
    push_process_io(&mut r, s, process_name, user);
    assert(plain_views(r@) =~= process_views(*s, process_name@, user@));
    r
}


/// Whether `views` holds a measure named `name` with the value `v` and the
/// labels `l`.
pub open spec fn view_reports(views: Seq<MeasureView>, name: Seq<char>, v: Value, l: Option<Seq<LabelView>>) -> bool {
    exists|i: int| 0 <= i < views.len() && (#[trigger] views[i]).name == name && views[i].value == v && views[i].labels == l
}

proof fn lemma_reports_concat(a: Seq<MeasureView>, b: Seq<MeasureView>)
    ensures
        forall|n: Seq<char>, v: Value, l: Option<Seq<LabelView>>| #[trigger] view_reports(a, n, v, l) ==> view_reports(a + b, n, v, l),
        forall|n: Seq<char>, v: Value, l: Option<Seq<LabelView>>| #[trigger] view_reports(b, n, v, l) ==> view_reports(a + b, n, v, l),
{
    assert forall|n: Seq<char>, v: Value, l: Option<Seq<LabelView>>| #[trigger] view_reports(a, n, v, l) implies view_reports(a + b, n, v, l) by {
        let i = choose|i: int| 0 <= i < a.len() && (#[trigger] a[i]).name == n && a[i].value == v && a[i].labels == l;
        assert((a + b)[i] == a[i]);
    }
    assert forall|n: Seq<char>, v: Value, l: Option<Seq<LabelView>>| #[trigger] view_reports(b, n, v, l) implies view_reports(a + b, n, v, l) by {
        let i = choose|i: int| 0 <= i < b.len() && (#[trigger] b[i]).name == n && b[i].value == v && b[i].labels == l;
        assert((a + b)[a.len() + i] == b[i]);
    }
}

proof fn lemma_process_counts_reported(s: ProcStat, l: Option<Seq<LabelView>>)
    ensures
        s.num_fds matches Some(x) ==> view_reports(process_counts(s, l), "ps_num_fds"@, Value::Gauge(x), l),
        s.num_threads matches Some(x) ==> view_reports(process_counts(s, l), "ps_num_threads"@, Value::Gauge(x), l),
        s.voluntary_context_switches matches Some(x) ==> view_reports(process_counts(s, l), "ps_voluntary_context_switches"@, Value::Counter(x), l),
        s.involuntary_context_switches matches Some(x) ==> view_reports(process_counts(s, l), "ps_involuntary_context_switches"@, Value::Counter(x), l),
        s.minor_faults matches Some(x) ==> view_reports(process_counts(s, l), "ps_minor_faults"@, Value::Counter(x), l),
        s.major_faults matches Some(x) ==> view_reports(process_counts(s, l), "ps_major_faults"@, Value::Counter(x), l),
        s.child_minor_faults matches Some(x) ==> view_reports(process_counts(s, l), "ps_child_minor_faults"@, Value::Counter(x), l),
        s.child_major_faults matches Some(x) ==> view_reports(process_counts(s, l), "ps_child_major_faults"@, Value::Counter(x), l),
{
    let t0 = opt_measure(gauge_of(s.num_fds), "ps_num_fds"@, "Number of open files"@, l);
    let t1 = opt_measure(gauge_of(s.num_threads), "ps_num_threads"@, "Number of threads"@, l);
    let t2 = opt_measure(counter_of(s.voluntary_context_switches), "ps_voluntary_context_switches"@, "Total voluntary context switches"@, l);
    let t3 = opt_measure(counter_of(s.involuntary_context_switches), "ps_involuntary_context_switches"@, "Total involuntary context switches"@, l);
    let t4 = opt_measure(counter_of(s.minor_faults), "ps_minor_faults"@, "Total number of minor faults which do not requirie loading memory from disk"@, l);
    let t5 = opt_measure(counter_of(s.major_faults), "ps_major_faults"@, "Total number of major faults which require loading memory from disk"@, l);
    let t6 = opt_measure(counter_of(s.child_minor_faults), "ps_child_minor_faults"@, "Total number of minor faults that process waited-for children made"@, l);
    let t7 = opt_measure(counter_of(s.child_major_faults), "ps_child_major_faults"@, "Total number of major faults that process waited-for children made"@, l);
    let p0 = t0;
    let p1 = p0 + t1;
    lemma_reports_concat(p0, t1);
    let p2 = p1 + t2;
    lemma_reports_concat(p1, t2);
    let p3 = p2 + t3;
    lemma_reports_concat(p2, t3);
    let p4 = p3 + t4;
    lemma_reports_concat(p3, t4);
    let p5 = p4 + t5;
    lemma_reports_concat(p4, t5);
    let p6 = p5 + t6;
    lemma_reports_concat(p5, t6);
    let p7 = p6 + t7;
    lemma_reports_concat(p6, t7);
    assert(process_counts(s, l) == p7);
    match s.num_fds {
        Some(x) => {
            assert(t0[0] == MeasureView { name: "ps_num_fds"@, help: "Number of open files"@, value: Value::Gauge(x), labels: l });
            assert(view_reports(t0, "ps_num_fds"@, Value::Gauge(x), l));
        },
        None => {},
    }
    match s.num_threads {
        Some(x) => {
            assert(t1[0] == MeasureView { name: "ps_num_threads"@, help: "Number of threads"@, value: Value::Gauge(x), labels: l });
            assert(view_reports(t1, "ps_num_threads"@, Value::Gauge(x), l));
        },
        None => {},
    }
    match s.voluntary_context_switches {
        Some(x) => {
            assert(t2[0] == MeasureView { name: "ps_voluntary_context_switches"@, help: "Total voluntary context switches"@, value: Value::Counter(x), labels: l });
            assert(view_reports(t2, "ps_voluntary_context_switches"@, Value::Counter(x), l));
        },
        None => {},
    }
    match s.involuntary_context_switches {
        Some(x) => {
            assert(t3[0] == MeasureView { name: "ps_involuntary_context_switches"@, help: "Total involuntary context switches"@, value: Value::Counter(x), labels: l });
            assert(view_reports(t3, "ps_involuntary_context_switches"@, Value::Counter(x), l));
        },
        None => {},
    }
    match s.minor_faults {
        Some(x) => {
            assert(t4[0] == MeasureView { name: "ps_minor_faults"@, help: "Total number of minor faults which do not requirie loading memory from disk"@, value: Value::Counter(x), labels: l });
            assert(view_reports(t4, "ps_minor_faults"@, Value::Counter(x), l));
        },
        None => {},
    }
    match s.major_faults {
        Some(x) => {
            assert(t5[0] == MeasureView { name: "ps_major_faults"@, help: "Total number of major faults which require loading memory from disk"@, value: Value::Counter(x), labels: l });
            assert(view_reports(t5, "ps_major_faults"@, Value::Counter(x), l));
        },
        None => {},
    }
    match s.child_minor_faults {
        Some(x) => {
            assert(t6[0] == MeasureView { name: "ps_child_minor_faults"@, help: "Total number of minor faults that process waited-for children made"@, value: Value::Counter(x), labels: l });
            assert(view_reports(t6, "ps_child_minor_faults"@, Value::Counter(x), l));
        },
        None => {},
    }
    match s.child_major_faults {
        Some(x) => {
            assert(t7[0] == MeasureView { name: "ps_child_major_faults"@, help: "Total number of major faults that process waited-for children made"@, value: Value::Counter(x), labels: l });
            assert(view_reports(t7, "ps_child_major_faults"@, Value::Counter(x), l));
        },
        None => {},
    }
}

proof fn lemma_process_cpu_reported(s: ProcStat, l: Option<Seq<LabelView>>)
    ensures
        s.cpu_time_user matches Some(x) ==> view_reports(process_cpu(s, l), "ps_cpu_time_user"@, Value::CounterF(x), l),
        s.cpu_time_system matches Some(x) ==> view_reports(process_cpu(s, l), "ps_cpu_time_system"@, Value::CounterF(x), l),
        s.cpu_time_iowait matches Some(x) ==> view_reports(process_cpu(s, l), "ps_cpu_time_iowait"@, Value::CounterF(x), l),
        s.cpu_usage matches Some(x) ==> view_reports(process_cpu(s, l), "ps_cpu_usage"@, Value::GaugeF(x), l),
{
    let t0 = opt_measure(counter_f_of(s.cpu_time_user), "ps_cpu_time_user"@, "CPU time in user mode in seconds"@, l);
    let t1 = opt_measure(counter_f_of(s.cpu_time_system), "ps_cpu_time_system"@, "CPU time in system mode in seconds"@, l);
    let t2 = opt_measure(counter_f_of(s.cpu_time_iowait), "ps_cpu_time_iowait"@, "CPU time iowait in seconds"@, l);
    let t3 = opt_measure(gauge_f_of(s.cpu_usage), "ps_cpu_usage"@, "Total CPU usage in percents"@, l);
    let p0 = t0;
    let p1 = p0 + t1;
    lemma_reports_concat(p0, t1);
    let p2 = p1 + t2;
    lemma_reports_concat(p1, t2);
    let p3 = p2 + t3;
    lemma_reports_concat(p2, t3);
    assert(process_cpu(s, l) == p3);
    match s.cpu_time_user {
        Some(x) => {
            assert(t0[0] == MeasureView { name: "ps_cpu_time_user"@, help: "CPU time in user mode in seconds"@, value: Value::CounterF(x), labels: l });
            assert(view_reports(t0, "ps_cpu_time_user"@, Value::CounterF(x), l));
        },
        None => {},
    }
    match s.cpu_time_system {
        Some(x) => {
            assert(t1[0] == MeasureView { name: "ps_cpu_time_system"@, help: "CPU time in system mode in seconds"@, value: Value::CounterF(x), labels: l });
            assert(view_reports(t1, "ps_cpu_time_system"@, Value::CounterF(x), l));
        },
        None => {},
    }
    match s.cpu_time_iowait {
        Some(x) => {
            assert(t2[0] == MeasureView { name: "ps_cpu_time_iowait"@, help: "CPU time iowait in seconds"@, value: Value::CounterF(x), labels: l });
            assert(view_reports(t2, "ps_cpu_time_iowait"@, Value::CounterF(x), l));
        },
        None => {},
    }
    match s.cpu_usage {
        Some(x) => {
            assert(t3[0] == MeasureView { name: "ps_cpu_usage"@, help: "Total CPU usage in percents"@, value: Value::GaugeF(x), labels: l });
            assert(view_reports(t3, "ps_cpu_usage"@, Value::GaugeF(x), l));
        },
        None => {},
    }
}

proof fn lemma_process_memory_reported(s: ProcStat, l: Option<Seq<LabelView>>)
    ensures
        s.mem_total matches Some(x) ==> view_reports(process_memory(s, l), "ps_mem_total"@, Value::Gauge(x), l),
        s.mem_rss matches Some(x) ==> view_reports(process_memory(s, l), "ps_mem_rss"@, Value::Gauge(x), l),
        s.mem_swap matches Some(x) ==> view_reports(process_memory(s, l), "ps_mem_swap"@, Value::Gauge(x), l),
        s.mem_data matches Some(x) ==> view_reports(process_memory(s, l), "ps_mem_data"@, Value::Gauge(x), l),
        s.mem_stack matches Some(x) ==> view_reports(process_memory(s, l), "ps_mem_stack"@, Value::Gauge(x), l),
        s.mem_text matches Some(x) ==> view_reports(process_memory(s, l), "ps_mem_text"@, Value::Gauge(x), l),
        s.mem_lib matches Some(x) ==> view_reports(process_memory(s, l), "ps_mem_lib"@, Value::Gauge(x), l),
        s.mem_locked matches Some(x) ==> view_reports(process_memory(s, l), "ps_mem_locked"@, Value::Gauge(x), l),
{
    let t0 = opt_measure(gauge_of(s.mem_total), "ps_mem_total"@, "Total memory"@, l);
    let t1 = opt_measure(gauge_of(s.mem_rss), "ps_mem_rss"@, "Resident set size"@, l);
    let t2 = opt_measure(gauge_of(s.mem_swap), "ps_mem_swap"@, "Swapped-out virtual memory size"@, l);
    let t3 = opt_measure(gauge_of(s.mem_data), "ps_mem_data"@, "Data segment size"@, l);
    let t4 = opt_measure(gauge_of(s.mem_stack), "ps_mem_stack"@, "Stack segment size"@, l);
    let t5 = opt_measure(gauge_of(s.mem_text), "ps_mem_text"@, "Text segment size"@, l);
    let t6 = opt_measure(gauge_of(s.mem_lib), "ps_mem_lib"@, "Shared library code size"@, l);
    let t7 = opt_measure(gauge_of(s.mem_locked), "ps_mem_locked"@, "Locked memory size"@, l);
    let p0 = t0;
    let p1 = p0 + t1;
    lemma_reports_concat(p0, t1);
    let p2 = p1 + t2;
    lemma_reports_concat(p1, t2);
    let p3 = p2 + t3;
    lemma_reports_concat(p2, t3);
    let p4 = p3 + t4;
    lemma_reports_concat(p3, t4);
    let p5 = p4 + t5;
    lemma_reports_concat(p4, t5);
    let p6 = p5 + t6;
    lemma_reports_concat(p5, t6);
    let p7 = p6 + t7;
    lemma_reports_concat(p6, t7);
    assert(process_memory(s, l) == p7);
    match s.mem_total {
        Some(x) => {
            assert(t0[0] == MeasureView { name: "ps_mem_total"@, help: "Total memory"@, value: Value::Gauge(x), labels: l });
            assert(view_reports(t0, "ps_mem_total"@, Value::Gauge(x), l));
        },
        None => {},
    }
    match s.mem_rss {
        Some(x) => {
            assert(t1[0] == MeasureView { name: "ps_mem_rss"@, help: "Resident set size"@, value: Value::Gauge(x), labels: l });
            assert(view_reports(t1, "ps_mem_rss"@, Value::Gauge(x), l));
        },
        None => {},
    }
    match s.mem_swap {
        Some(x) => {
            assert(t2[0] == MeasureView { name: "ps_mem_swap"@, help: "Swapped-out virtual memory size"@, value: Value::Gauge(x), labels: l });
            assert(view_reports(t2, "ps_mem_swap"@, Value::Gauge(x), l));
        },
        None => {},
    }
    match s.mem_data {
        Some(x) => {
            assert(t3[0] == MeasureView { name: "ps_mem_data"@, help: "Data segment size"@, value: Value::Gauge(x), labels: l });
            assert(view_reports(t3, "ps_mem_data"@, Value::Gauge(x), l));
        },
        None => {},
    }
    match s.mem_stack {
        Some(x) => {
            assert(t4[0] == MeasureView { name: "ps_mem_stack"@, help: "Stack segment size"@, value: Value::Gauge(x), labels: l });
            assert(view_reports(t4, "ps_mem_stack"@, Value::Gauge(x), l));
        },
        None => {},
    }
    match s.mem_text {
        Some(x) => {
            assert(t5[0] == MeasureView { name: "ps_mem_text"@, help: "Text segment size"@, value: Value::Gauge(x), labels: l });
            assert(view_reports(t5, "ps_mem_text"@, Value::Gauge(x), l));
        },
        None => {},
    }
    match s.mem_lib {
        Some(x) => {
            assert(t6[0] == MeasureView { name: "ps_mem_lib"@, help: "Shared library code size"@, value: Value::Gauge(x), labels: l });
            assert(view_reports(t6, "ps_mem_lib"@, Value::Gauge(x), l));
        },
        None => {},
    }
    match s.mem_locked {
        Some(x) => {
            assert(t7[0] == MeasureView { name: "ps_mem_locked"@, help: "Locked memory size"@, value: Value::Gauge(x), labels: l });
            assert(view_reports(t7, "ps_mem_locked"@, Value::Gauge(x), l));
        },
        None => {},
    }
}

proof fn lemma_process_io_reported(s: ProcStat, l: Option<Seq<LabelView>>)
    ensures
        s.io_read_count matches Some(x) ==> view_reports(process_io(s, l), "ps_read_count"@, Value::Counter(x), l),
        s.io_write_count matches Some(x) ==> view_reports(process_io(s, l), "ps_write_count"@, Value::Counter(x), l),
        s.io_read_bytes matches Some(x) ==> view_reports(process_io(s, l), "ps_read_bytes"@, Value::Counter(x), l),
        s.io_write_bytes matches Some(x) ==> view_reports(process_io(s, l), "ps_write_bytes"@, Value::Counter(x), l),
{
    let t0 = opt_measure(counter_of(s.io_read_count), "ps_read_count"@, "Total read I/O operations"@, l);
    let t1 = opt_measure(counter_of(s.io_write_count), "ps_write_count"@, "Total write I/O operations"@, l);
    let t2 = opt_measure(counter_of(s.io_read_bytes), "ps_read_bytes"@, "Total bytes read"@, l);
    let t3 = opt_measure(counter_of(s.io_write_bytes), "ps_write_bytes"@, "Total bytes written"@, l);
    let p0 = t0;
    let p1 = p0 + t1;
    lemma_reports_concat(p0, t1);
    let p2 = p1 + t2;
    lemma_reports_concat(p1, t2);
    let p3 = p2 + t3;
    lemma_reports_concat(p2, t3);
    assert(process_io(s, l) == p3);
    match s.io_read_count {
        Some(x) => {
            assert(t0[0] == MeasureView { name: "ps_read_count"@, help: "Total read I/O operations"@, value: Value::Counter(x), labels: l });
            assert(view_reports(t0, "ps_read_count"@, Value::Counter(x), l));
        },
        None => {},
    }
    match s.io_write_count {
        Some(x) => {
            assert(t1[0] == MeasureView { name: "ps_write_count"@, help: "Total write I/O operations"@, value: Value::Counter(x), labels: l });
            assert(view_reports(t1, "ps_write_count"@, Value::Counter(x), l));
        },
        None => {},
    }
    match s.io_read_bytes {
        Some(x) => {
            assert(t2[0] == MeasureView { name: "ps_read_bytes"@, help: "Total bytes read"@, value: Value::Counter(x), labels: l });
            assert(view_reports(t2, "ps_read_bytes"@, Value::Counter(x), l));
        },
        None => {},
    }
    match s.io_write_bytes {
        Some(x) => {
            assert(t3[0] == MeasureView { name: "ps_write_bytes"@, help: "Total bytes written"@, value: Value::Counter(x), labels: l });
            assert(view_reports(t3, "ps_write_bytes"@, Value::Counter(x), l));
        },
        None => {},
    }
}

/// Each figure the system gave of a process is reported under its own
/// name with its own value, labelled with the process name and user:
/// `ps_num_fds` carries the open files, `ps_mem_rss` the resident size,
/// `ps_read_bytes` the bytes read, and so on for every figure.
pub proof fn lemma_process_figures_reported(s: ProcStat, pn: Seq<char>, user: Seq<char>)
    ensures
        s.num_fds matches Some(x) ==> view_reports(process_views(s, pn, user), "ps_num_fds"@, Value::Gauge(x), process_labels(pn, user)),
        s.num_threads matches Some(x) ==> view_reports(process_views(s, pn, user), "ps_num_threads"@, Value::Gauge(x), process_labels(pn, user)),
        s.voluntary_context_switches matches Some(x) ==> view_reports(process_views(s, pn, user), "ps_voluntary_context_switches"@, Value::Counter(x), process_labels(pn, user)),
        s.involuntary_context_switches matches Some(x) ==> view_reports(process_views(s, pn, user), "ps_involuntary_context_switches"@, Value::Counter(x), process_labels(pn, user)),
        s.minor_faults matches Some(x) ==> view_reports(process_views(s, pn, user), "ps_minor_faults"@, Value::Counter(x), process_labels(pn, user)),
        s.major_faults matches Some(x) ==> view_reports(process_views(s, pn, user), "ps_major_faults"@, Value::Counter(x), process_labels(pn, user)),
        s.child_minor_faults matches Some(x) ==> view_reports(process_views(s, pn, user), "ps_child_minor_faults"@, Value::Counter(x), process_labels(pn, user)),
        s.child_major_faults matches Some(x) ==> view_reports(process_views(s, pn, user), "ps_child_major_faults"@, Value::Counter(x), process_labels(pn, user)),
        s.cpu_time_user matches Some(x) ==> view_reports(process_views(s, pn, user), "ps_cpu_time_user"@, Value::CounterF(x), process_labels(pn, user)),
        s.cpu_time_system matches Some(x) ==> view_reports(process_views(s, pn, user), "ps_cpu_time_system"@, Value::CounterF(x), process_labels(pn, user)),
        s.cpu_time_iowait matches Some(x) ==> view_reports(process_views(s, pn, user), "ps_cpu_time_iowait"@, Value::CounterF(x), process_labels(pn, user)),
        s.cpu_usage matches Some(x) ==> view_reports(process_views(s, pn, user), "ps_cpu_usage"@, Value::GaugeF(x), process_labels(pn, user)),
        s.mem_total matches Some(x) ==> view_reports(process_views(s, pn, user), "ps_mem_total"@, Value::Gauge(x), process_labels(pn, user)),
        s.mem_rss matches Some(x) ==> view_reports(process_views(s, pn, user), "ps_mem_rss"@, Value::Gauge(x), process_labels(pn, user)),
        s.mem_swap matches Some(x) ==> view_reports(process_views(s, pn, user), "ps_mem_swap"@, Value::Gauge(x), process_labels(pn, user)),
        s.mem_data matches Some(x) ==> view_reports(process_views(s, pn, user), "ps_mem_data"@, Value::Gauge(x), process_labels(pn, user)),
        s.mem_stack matches Some(x) ==> view_reports(process_views(s, pn, user), "ps_mem_stack"@, Value::Gauge(x), process_labels(pn, user)),
        s.mem_text matches Some(x) ==> view_reports(process_views(s, pn, user), "ps_mem_text"@, Value::Gauge(x), process_labels(pn, user)),
        s.mem_lib matches Some(x) ==> view_reports(process_views(s, pn, user), "ps_mem_lib"@, Value::Gauge(x), process_labels(pn, user)),
        s.mem_locked matches Some(x) ==> view_reports(process_views(s, pn, user), "ps_mem_locked"@, Value::Gauge(x), process_labels(pn, user)),
        s.io_read_count matches Some(x) ==> view_reports(process_views(s, pn, user), "ps_read_count"@, Value::Counter(x), process_labels(pn, user)),
        s.io_write_count matches Some(x) ==> view_reports(process_views(s, pn, user), "ps_write_count"@, Value::Counter(x), process_labels(pn, user)),
        s.io_read_bytes matches Some(x) ==> view_reports(process_views(s, pn, user), "ps_read_bytes"@, Value::Counter(x), process_labels(pn, user)),
        s.io_write_bytes matches Some(x) ==> view_reports(process_views(s, pn, user), "ps_write_bytes"@, Value::Counter(x), process_labels(pn, user)),
{
    let l = process_labels(pn, user);
    let g1 = process_counts(s, l);
    let g2 = process_cpu(s, l);
    let g3 = process_memory(s, l);
    let g4 = process_io(s, l);
    lemma_process_counts_reported(s, l);
    lemma_process_cpu_reported(s, l);
    lemma_process_memory_reported(s, l);
    lemma_process_io_reported(s, l);
    lemma_reports_concat(g1, g2);
    lemma_reports_concat(g1 + g2, g3);
    lemma_reports_concat(g1 + g2 + g3, g4);
}

} // verus!
