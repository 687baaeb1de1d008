//! The metrics database: the latest value of every metric, grouped in
//! families, and its openmetrics text.
use vstd::prelude::*;
use crate::label::{Label, LabelView, Labels, items_of, labels_text, merged_labels, label_views, chars_order, opt_labels_order};
use crate::measure::{Measure, Value, value_text, is_counter};
use crate::error::AgentError;
use crate::text::{compare_str, dec_str, push_dec, push_str, seq_lt, string_of, lemma_lt_irreflexive, lemma_lt_asymmetric, lemma_lt_transitive, lemma_lt_total};

verus! {

/// The kind of a metric family.
#[derive(Debug, Clone, Copy, PartialEq, Eq)]
pub enum ValueType {
    Counter,
    Gauge,
}

/// The openmetrics name of a family kind.
pub open spec fn type_text(counter: bool) -> Seq<char> {
    if counter {
        seq!['c', 'o', 'u', 'n', 't', 'e', 'r']
    } else {
        seq!['g', 'a', 'u', 'g', 'e']
    }
}

impl ValueType {
    /// `counter` or `gauge`.
    pub fn as_str(&self) -> (r: &'static str)
        ensures
            r@ == type_text(*self is Counter),
    {
        proof {
            reveal_strlit("counter");
            reveal_strlit("gauge");
        }
        match self {
            ValueType::Counter => "counter",
            ValueType::Gauge => "gauge",
        }
    }

    /// The kind of a value: counters for `Counter` and `CounterF`, gauges otherwise.
    pub fn from_value(v: &Value) -> (r: ValueType)
        ensures
            (r is Counter) == is_counter(*v),
    {
        match v {
            Value::Counter(_) => ValueType::Counter,
            Value::CounterF(_) => ValueType::Counter,
            Value::Gauge(_) => ValueType::Gauge,
            Value::GaugeI(_) => ValueType::Gauge,
            Value::GaugeF(_) => ValueType::Gauge,
        }
    }
}

/// Measures of one collector run.
#[derive(Debug)]
pub struct MetricsData {
    /// Name of the collector.
    pub collector: String,
    /// Labels of the collector.
    pub labels: Labels,
    /// The measures.
    pub measures: Vec<Measure>,
    /// UNIX time of the run.
    pub ts: u64,
}

/// What a measure holds that the database keeps.
pub struct MeasureView {
    pub name: Seq<char>,
    pub help: Seq<char>,
    pub value: Value,
    pub labels: Option<Seq<LabelView>>,
}

pub open spec fn measure_view(m: Measure) -> MeasureView {
    MeasureView { name: m.name@, help: m.help@, value: m.value, labels: m.labels@ }
}

/// The latest value of one metric.
pub struct EntryView {
    pub labels: Option<Seq<LabelView>>,
    pub value: Value,
    pub collector_labels: Option<Seq<LabelView>>,
    pub ts: u64,
}

/// A metric family: all values of one metric name from one collector.
pub struct FamilyView {
    pub collector: Seq<char>,
    pub name: Seq<char>,
    pub help: Seq<char>,
    pub counter: bool,
    pub values: Seq<EntryView>,
}

/// The database: families in key order, and the agent's labels.
pub struct DbView {
    pub families: Seq<FamilyView>,
    pub labels: Option<Seq<LabelView>>,
}

/// Family keys are ordered by collector, then by name.
pub open spec fn key_lt(c1: Seq<char>, n1: Seq<char>, c2: Seq<char>, n2: Seq<char>) -> bool {
    seq_lt(c1, c2) || (c1 == c2 && seq_lt(n1, n2))
}

/// Family keys strictly increase.
pub open spec fn families_sorted(fs: Seq<FamilyView>) -> bool {
    forall|i: int, j: int|
        0 <= i < j < fs.len() ==> key_lt(#[trigger] fs[i].collector, fs[i].name, #[trigger] fs[j].collector, fs[j].name)
}

/// Some family has the key `(c, n)`.
pub open spec fn has_family(fs: Seq<FamilyView>, c: Seq<char>, n: Seq<char>) -> bool {
    exists|i: int| 0 <= i < fs.len() && #[trigger] fs[i].collector == c && fs[i].name == n
}

/// `fs` with `f` inserted before the first family with a greater key.
pub open spec fn add_family(fs: Seq<FamilyView>, f: FamilyView) -> Seq<FamilyView>
    decreases fs.len(),
{
    if fs.len() == 0 {
        seq![f]
    } else if key_lt(f.collector, f.name, fs[0].collector, fs[0].name) {
        seq![f] + fs
    } else {
        seq![fs[0]] + add_family(fs.drop_first(), f)
    }
}

/// `vs` with the value for `e.labels` set to `e`: the entry with the same
/// labels replaced, or `e` appended.
pub open spec fn set_entry(vs: Seq<EntryView>, e: EntryView) -> Seq<EntryView>
    decreases vs.len(),
{
    if vs.len() == 0 {
        seq![e]
    } else if vs[0].labels == e.labels {
        seq![e] + vs.drop_first()
    } else {
        seq![vs[0]] + set_entry(vs.drop_first(), e)
    }
}

/// One measure stored: its family is created when missing (with the
/// measure's help and kind), then its value is set for its labels.
pub open spec fn apply_measure(
    fs: Seq<FamilyView>,
    collector: Seq<char>,
    data_labels: Option<Seq<LabelView>>,
    ts: u64,
    m: MeasureView,
) -> Seq<FamilyView> {
    let fs1 = if has_family(fs, collector, m.name) {
        fs
    } else {
        add_family(
            fs,
            FamilyView { collector, name: m.name, help: m.help, counter: is_counter(m.value), values: Seq::empty() },
        )
    };
    let e = EntryView { labels: m.labels, value: m.value, collector_labels: data_labels, ts };
    fs1.map_values(|f: FamilyView| if f.collector == collector && f.name == m.name {
        FamilyView { values: set_entry(f.values, e), ..f }
    } else {
        f
    })
}

/// Measures stored in order.
pub open spec fn apply_measures(
    fs: Seq<FamilyView>,
    collector: Seq<char>,
    data_labels: Option<Seq<LabelView>>,
    ts: u64,
    ms: Seq<MeasureView>,
) -> Seq<FamilyView>
    decreases ms.len(),
{
    if ms.len() == 0 {
        fs
    } else {
        apply_measure(apply_measures(fs, collector, data_labels, ts, ms.drop_last()), collector, data_labels, ts, ms.last())
    }
}

/// One output line before it is written: its labels, value text and timestamp.
pub struct ItemView {
    pub labels: Option<Seq<LabelView>>,
    pub value: Seq<char>,
    pub ts: u64,
}

/// Output items compare by labels, then value text, then timestamp.
pub open spec fn item_order(a: ItemView, b: ItemView) -> int {
    let c = opt_labels_order(a.labels, b.labels);
    if c != 0 {
        c
    } else {
        let d = chars_order(a.value, b.value);
        if d != 0 { d } else if a.ts < b.ts { -1 } else if a.ts == b.ts { 0 } else { 1 }
    }
}

/// `x` inserted into `s` before the first item greater than it.
pub open spec fn insert_item(s: Seq<ItemView>, x: ItemView) -> Seq<ItemView>
    decreases s.len(),
{
    if s.len() == 0 {
        seq![x]
    } else if item_order(x, s[0]) < 0 {
        seq![x] + s
    } else {
        seq![s[0]] + insert_item(s.drop_first(), x)
    }
}

/// The items in increasing order (a stable insertion of each in turn).
pub open spec fn sort_items(s: Seq<ItemView>) -> Seq<ItemView>
    decreases s.len(),
{
    if s.len() == 0 {
        s
    } else {
        insert_item(sort_items(s.drop_last()), s.last())
    }
}

pub open spec fn collector_key() -> Seq<char> {
    seq!['c', 'o', 'l', 'l', 'e', 'c', 't', 'o', 'r']
}

/// The output item of one value of a family: the agent labels, the
/// `collector` label, the collector's labels and the value's own labels
/// merged in that order.
pub open spec fn entry_item(collector: Seq<char>, agent: Option<Seq<LabelView>>, e: EntryView) -> ItemView {
    ItemView {
        labels: merged_labels(agent, Some(seq![(collector_key(), collector)]), e.collector_labels, e.labels),
        value: value_text(e.value),
        ts: e.ts,
    }
}

/// The output items of a family, in storage order.
pub open spec fn family_items(f: FamilyView, agent: Option<Seq<LabelView>>) -> Seq<ItemView> {
    f.values.map_values(|e: EntryView| entry_item(f.collector, agent, e))
}

/// One sample line: name, `{labels}` when there are labels, value, and the
/// timestamp when it is not zero.
pub open spec fn item_line(name: Seq<char>, it: ItemView) -> Seq<char> {
    name + (if items_of(it.labels).len() == 0 {
        Seq::empty()
    } else {
        seq!['{'] + labels_text(items_of(it.labels)) + seq!['}']
    }) + seq![' '] + it.value + (if it.ts > 0 {
        seq![' '] + dec_str(it.ts as nat)
    } else {
        Seq::empty()
    }) + seq!['\n']
}

pub open spec fn items_text(name: Seq<char>, items: Seq<ItemView>) -> Seq<char>
    decreases items.len(),
{
    if items.len() == 0 {
        Seq::empty()
    } else {
        items_text(name, items.drop_last()) + item_line(name, items.last())
    }
}

pub open spec fn help_head() -> Seq<char> {
    seq!['#', ' ', 'H', 'E', 'L', 'P', ' ']
}

pub open spec fn type_head() -> Seq<char> {
    seq!['#', ' ', 'T', 'Y', 'P', 'E', ' ']
}

pub open spec fn eof_line() -> Seq<char> {
    seq!['#', ' ', 'E', 'O', 'F', '\n']
}

/// The text of one family: a `# HELP` line when there is help, a `# TYPE`
/// line, and its sample lines in increasing item order.
pub open spec fn family_text(f: FamilyView, agent: Option<Seq<LabelView>>) -> Seq<char> {
    (if f.help.len() > 0 {
        help_head() + f.name + seq![' '] + f.help + seq!['\n']
    } else {
        Seq::empty()
    }) + type_head() + f.name + seq![' '] + type_text(f.counter) + seq!['\n'] + items_text(
        f.name,
        sort_items(family_items(f, agent)),
    )
}

pub open spec fn families_text(fs: Seq<FamilyView>, agent: Option<Seq<LabelView>>) -> Seq<char>
    decreases fs.len(),
{
    if fs.len() == 0 {
        Seq::empty()
    } else {
        families_text(fs.drop_last(), agent) + family_text(fs.last(), agent)
    }
}

/// The openmetrics text of the database: every family in key order, then `# EOF`.
pub open spec fn db_text(db: DbView) -> Seq<char> {
    families_text(db.families, db.labels) + eof_line()
}

struct Entry {
    labels: Labels,
    value: Value,
    collector_labels: Labels,
    ts: u64,
}

impl View for Entry {
    type V = EntryView;

    closed spec fn view(&self) -> EntryView {
        EntryView { labels: self.labels@, value: self.value, collector_labels: self.collector_labels@, ts: self.ts }
    }
}

struct Family {
    collector: String,
    name: String,
    help: String,
    value_type: ValueType,
    values: Vec<Entry>,
}

impl View for Family {
    type V = FamilyView;

    closed spec fn view(&self) -> FamilyView {
        FamilyView {
            collector: self.collector@,
            name: self.name@,
            help: self.help@,
            counter: self.value_type is Counter,
            values: self.values@.map_values(|e: Entry| e@),
        }
    }
}

/// The metrics database.
pub struct MetricsDb {
    families: Vec<Family>,
    labels: Labels,
}

impl View for MetricsDb {
    type V = DbView;

    closed spec fn view(&self) -> DbView {
        DbView { families: self.families@.map_values(|f: Family| f@), labels: self.labels@ }
    }
}

impl MetricsDb {
    /// Family keys strictly increase.
    pub open spec fn wf(&self) -> bool {
        families_sorted(self@.families)
    }

    /// An empty database without agent labels.
    pub fn new() -> (r: MetricsDb)
        ensures
            r.wf(),
            r@.families.len() == 0,
            r@.labels == None::<Seq<LabelView>>,
    {
        let r = MetricsDb { families: Vec::new(), labels: Labels::default() };
        assert(r@.families.len() == 0);
        r
    }

    /// Replaces the agent labels.
    pub fn set_labels(&mut self, labels: Labels)
        ensures
            final(self)@.families == old(self)@.families,
            final(self)@.labels == labels@,
            final(self).wf() == old(self).wf(),
    {
        self.labels = labels;
    }
}


proof fn lemma_key_lt_irreflexive(c: Seq<char>, n: Seq<char>)
    ensures
        !key_lt(c, n, c, n),
{
    lemma_lt_irreflexive(c);
    lemma_lt_irreflexive(n);
}

proof fn lemma_key_lt_asymmetric(c1: Seq<char>, n1: Seq<char>, c2: Seq<char>, n2: Seq<char>)
    ensures
        key_lt(c1, n1, c2, n2) ==> !key_lt(c2, n2, c1, n1),
{
    lemma_lt_asymmetric(c1, c2);
    lemma_lt_asymmetric(n1, n2);
    lemma_lt_irreflexive(c1);
}

proof fn lemma_key_lt_transitive(
    c1: Seq<char>,
    n1: Seq<char>,
    c2: Seq<char>,
    n2: Seq<char>,
    c3: Seq<char>,
    n3: Seq<char>,
)
    requires
        key_lt(c1, n1, c2, n2),
        key_lt(c2, n2, c3, n3),
    ensures
        key_lt(c1, n1, c3, n3),
{
    if seq_lt(c1, c2) && seq_lt(c2, c3) {
        lemma_lt_transitive(c1, c2, c3);
    }
    if c1 == c2 && seq_lt(n1, n2) && c2 == c3 && seq_lt(n2, n3) {
        lemma_lt_transitive(n1, n2, n3);
    }
}

/// Inserting `f` at the first position whose key is greater is `add_family`,
/// and keeps the families sorted.
proof fn lemma_add_family_at(fs: Seq<FamilyView>, f: FamilyView, i: int)
    requires
        families_sorted(fs),
        0 <= i <= fs.len(),
        forall|j: int| 0 <= j < i ==> key_lt(#[trigger] fs[j].collector, fs[j].name, f.collector, f.name),
        i < fs.len() ==> key_lt(f.collector, f.name, fs[i].collector, fs[i].name),
    ensures
        add_family(fs, f) == fs.insert(i, f),
        families_sorted(fs.insert(i, f)),
    decreases fs.len(),
{
    let r = fs.insert(i, f);
    assert forall|a: int, b: int| 0 <= a < b < r.len() implies key_lt(
        #[trigger] r[a].collector,
        r[a].name,
        #[trigger] r[b].collector,
        r[b].name,
    ) by {
        if b < i {
            assert(r[a] == fs[a] && r[b] == fs[b]);
        } else if b == i {
            assert(r[a] == fs[a]);
        } else {
            assert(r[b] == fs[b - 1]);
            if a < i {
                assert(r[a] == fs[a]);
            } else if a == i {
                if b - 1 > i {
                    lemma_key_lt_transitive(f.collector, f.name, fs[i].collector, fs[i].name, fs[b - 1].collector, fs[b - 1].name);
                }
            } else {
                assert(r[a] == fs[a - 1]);
            }
        }
    }
    if fs.len() == 0 {
        assert(r =~= seq![f]);
    } else if i == 0 {
        assert(r =~= seq![f] + fs);
    } else {
        lemma_key_lt_asymmetric(fs[0].collector, fs[0].name, f.collector, f.name);
        let t = fs.drop_first();
        assert forall|j: int| 0 <= j < i - 1 implies key_lt(#[trigger] t[j].collector, t[j].name, f.collector, f.name) by {
            assert(t[j] == fs[j + 1]);
        }
        lemma_add_family_at(t, f, i - 1);
        assert(r =~= seq![fs[0]] + t.insert(i - 1, f));
    }
}

/// `set_entry` replaces the first entry with the same labels.
proof fn lemma_set_entry_found(vs: Seq<EntryView>, e: EntryView, k: int)
    requires
        0 <= k < vs.len(),
        vs[k].labels == e.labels,
        forall|j: int| 0 <= j < k ==> (#[trigger] vs[j]).labels != e.labels,
    ensures
        set_entry(vs, e) == vs.update(k, e),
    decreases vs.len(),
{
    if k == 0 {
        assert(vs.update(0, e) =~= seq![e] + vs.drop_first());
    } else {
        let t = vs.drop_first();
        assert forall|j: int| 0 <= j < k - 1 implies (#[trigger] t[j]).labels != e.labels by {
            assert(t[j] == vs[j + 1]);
        }
        lemma_set_entry_found(t, e, k - 1);
        assert(vs.update(k, e) =~= seq![vs[0]] + t.update(k - 1, e));
    }
}

/// `set_entry` appends an entry whose labels are new.
proof fn lemma_set_entry_absent(vs: Seq<EntryView>, e: EntryView)
    requires
        forall|j: int| 0 <= j < vs.len() ==> (#[trigger] vs[j]).labels != e.labels,
    ensures
        set_entry(vs, e) == vs.push(e),
    decreases vs.len(),
{
    if vs.len() == 0 {
        assert(vs.push(e) =~= seq![e]);
    } else {
        let t = vs.drop_first();
        assert forall|j: int| 0 <= j < t.len() implies (#[trigger] t[j]).labels != e.labels by {
            assert(t[j] == vs[j + 1]);
        }
        lemma_set_entry_absent(t, e);
        assert(vs.push(e) =~= seq![vs[0]] + t.push(e));
    }
}

impl Family {
    /// Sets the value for the labels of `e`.
    fn set_entry(&mut self, e: Entry)
        ensures
            final(self)@ == (FamilyView { values: set_entry(old(self)@.values, e@), ..old(self)@ }),
    {
        let ghost vs = old(self)@.values;
        let mut k: usize = 0;
        while k < self.values.len()
            invariant
                k <= self.values.len(),
                self@ == old(self)@,
                vs == self.values@.map_values(|x: Entry| x@),
                forall|j: int| 0 <= j < k ==> (#[trigger] vs[j]).labels != e@.labels,
            decreases self.values.len() - k,
        {
            if self.values[k].labels.same_as(&e.labels) {
                proof { lemma_set_entry_found(vs, e@, k as int); }
                self.values.set(k, e);
                assert(self.values@.map_values(|x: Entry| x@) =~= vs.update(k as int, e@));
                return;
            }
            k = k + 1;
        }
        proof { lemma_set_entry_absent(vs, e@); }
        self.values.push(e);
        assert(self.values@.map_values(|x: Entry| x@) =~= vs.push(e@));
    }
}

impl MetricsDb {
    /// Where the family `(collector, name)` is, or where it belongs.
    fn find_family(&self, collector: &str, name: &str) -> (r: (usize, bool))
        requires
            self.wf(),
        ensures
            r.0 <= self@.families.len(),
            forall|j: int| 0 <= j < r.0 ==> key_lt(#[trigger] self@.families[j].collector, self@.families[j].name, collector@, name@),
            r.1 ==> r.0 < self@.families.len() && self@.families[r.0 as int].collector == collector@
                && self@.families[r.0 as int].name == name@,
            !r.1 ==> (r.0 < self@.families.len() ==> key_lt(
                collector@,
                name@,
                self@.families[r.0 as int].collector,
                self@.families[r.0 as int].name,
            )),
            r.1 == has_family(self@.families, collector@, name@),
    {
        let ghost fs = self@.families;
        let mut i: usize = 0;
        while i < self.families.len()
            invariant
                fs == self@.families,
                families_sorted(fs),
                i <= fs.len(),
                forall|j: int| 0 <= j < i ==> key_lt(#[trigger] fs[j].collector, fs[j].name, collector@, name@),
            decreases self.families.len() - i,
        {
            let f = &self.families[i];
            assert(fs[i as int] == f@);
            let c = compare_str(f.collector.as_str(), collector);
            let o: i8 = if c != 0 { c } else { compare_str(f.name.as_str(), name) };
            if o == 0 {
                assert(fs[i as int].collector == collector@ && fs[i as int].name == name@);
                return (i, true);
            }
            if o > 0 {
                proof {
                    assert forall|j: int| 0 <= j < fs.len() implies !(#[trigger] fs[j].collector == collector@ && fs[j].name == name@) by {
                        if j < i {
                            lemma_key_lt_irreflexive(collector@, name@);
                        } else if j > i {
                            lemma_key_lt_transitive(collector@, name@, fs[i as int].collector, fs[i as int].name, fs[j].collector, fs[j].name);
                            lemma_key_lt_irreflexive(collector@, name@);
                        } else {
                            lemma_key_lt_irreflexive(collector@, name@);
                        }
                    }
                }
                return (i, false);
            }
            proof { lemma_lt_asymmetric(f@.collector, collector@); }
            i = i + 1;
        }
        proof {
            assert forall|j: int| 0 <= j < fs.len() implies !(#[trigger] fs[j].collector == collector@ && fs[j].name == name@) by {
                lemma_key_lt_irreflexive(collector@, name@);
            }
        }
        (i, false)
    }

    /// Stores one measure of a collector run.
    fn apply_measure(&mut self, collector: &String, data_labels: &Labels, ts: u64, m: &Measure)
        requires
            old(self).wf(),
        ensures
            final(self).wf(),
            final(self)@.labels == old(self)@.labels,
            final(self)@.families == apply_measure(old(self)@.families, collector@, data_labels@, ts, measure_view(*m)),
    {
        let ghost fs0 = old(self)@.families;
        let (pos, found) = self.find_family(collector.as_str(), m.name.as_str());
        let ghost nf = FamilyView {
            collector: collector@,
            name: m.name@,
            help: m.help@,
            counter: is_counter(m.value),
            values: Seq::empty(),
        };
        if !found {
            let fam = Family {
                collector: collector.clone(),
                name: m.name.clone(),
                help: m.help.clone(),
                value_type: ValueType::from_value(&m.value),
                values: Vec::new(),
            };
            assert(fam@.values =~= Seq::<EntryView>::empty());
            assert(fam@ == nf);
            self.families.insert(pos, fam);
            proof {
                lemma_add_family_at(fs0, nf, pos as int);
                assert(self@.families =~= fs0.insert(pos as int, nf));
            }
        }
        let ghost fs1 = self@.families;
        assert(fs1 == if has_family(fs0, collector@, m.name@) { fs0 } else { add_family(fs0, nf) });
        assert(families_sorted(fs1));
        assert(fs1[pos as int].collector == collector@ && fs1[pos as int].name == m.name@);
        let e = Entry {
            labels: m.labels.duplicate(),
            value: m.value.duplicate(),
            collector_labels: data_labels.duplicate(),
            ts,
        };
        let ghost ev = e@;
        let mut fam = self.families.remove(pos);
        fam.set_entry(e);
        self.families.insert(pos, fam);
        proof {
            let upd = fs1.update(pos as int, FamilyView { values: set_entry(fs1[pos as int].values, ev), ..fs1[pos as int] });
            assert(self@.families =~= upd);
            let want = fs1.map_values(|f: FamilyView| if f.collector == collector@ && f.name == m.name@ {
                FamilyView { values: set_entry(f.values, ev), ..f }
            } else {
                f
            });
            assert forall|j: int| 0 <= j < fs1.len() && j != pos implies !(#[trigger] fs1[j].collector == collector@ && fs1[j].name == m.name@) by {
                if j < pos {
                    assert(key_lt(fs1[j].collector, fs1[j].name, fs1[pos as int].collector, fs1[pos as int].name));
                    lemma_key_lt_irreflexive(collector@, m.name@);
                } else {
                    assert(key_lt(fs1[pos as int].collector, fs1[pos as int].name, fs1[j].collector, fs1[j].name));
                    lemma_key_lt_irreflexive(collector@, m.name@);
                }
            }
            assert(upd =~= want);
            assert forall|a: int, b: int| 0 <= a < b < upd.len() implies key_lt(
                #[trigger] upd[a].collector,
                upd[a].name,
                #[trigger] upd[b].collector,
                upd[b].name,
            ) by {
                assert(key_lt(fs1[a].collector, fs1[a].name, fs1[b].collector, fs1[b].name));
            }
        }
    }

    /// Stores the measures of a collector run: each measure's family is
    /// created when missing, and its value for the measure's labels is
    /// replaced by the new value, the run's labels and timestamp.
    pub fn apply_data(&mut self, data: &MetricsData)
        requires
            old(self).wf(),
        ensures
            final(self).wf(),
            final(self)@.labels == old(self)@.labels,
            final(self)@.families == apply_measures(
                old(self)@.families,
                data.collector@,
                data.labels@,
                data.ts,
                data.measures@.map_values(|m: Measure| measure_view(m)),
            ),
    {
        let ghost ms = data.measures@.map_values(|m: Measure| measure_view(m));
        let mut i: usize = 0;
        assert(ms.take(0) =~= Seq::<MeasureView>::empty());
        while i < data.measures.len()
            invariant
                i <= data.measures.len(),
                ms == data.measures@.map_values(|m: Measure| measure_view(m)),
                self.wf(),
                self@.labels == old(self)@.labels,
                self@.families == apply_measures(old(self)@.families, data.collector@, data.labels@, data.ts, ms.take(i as int)),
            decreases data.measures.len() - i,
        {
            self.apply_measure(&data.collector, &data.labels, data.ts, &data.measures[i]);
            assert(ms.take(i + 1).drop_last() =~= ms.take(i as int));
            assert(ms.take(i + 1).last() == measure_view(data.measures@[i as int]));
            i = i + 1;
        }
        assert(ms.take(i as int) =~= ms);
    }
}

/// One output line before it is written.
struct OutputItem {
    labels: Labels,
    value: String,
    ts: u64,
}

impl View for OutputItem {
    type V = ItemView;

    closed spec fn view(&self) -> ItemView {
        ItemView { labels: self.labels@, value: self.value@, ts: self.ts }
    }
}

spec fn item_views(v: Seq<OutputItem>) -> Seq<ItemView> {
    v.map_values(|x: OutputItem| x@)
}

/// Three-way comparison of output items, as `item_order`.
fn item_compare(a: &OutputItem, b: &OutputItem) -> (r: i8)
    ensures
        r as int == item_order(a@, b@),
{
    let c = a.labels.compare(&b.labels);
    if c != 0 {
        return c;
    }
    let d = compare_str(a.value.as_str(), b.value.as_str());
    if d < 0 {
        proof { lemma_lt_asymmetric(a.value@, b.value@); }
        -1
    } else if d > 0 {
        proof { lemma_lt_asymmetric(b.value@, a.value@); }
        1
    } else if a.ts < b.ts {
        -1
    } else if a.ts == b.ts {
        0
    } else {
        1
    }
}

/// `insert_item` places `x` at the first position whose item is greater.
proof fn lemma_insert_item_at(s: Seq<ItemView>, x: ItemView, k: int)
    requires
        0 <= k <= s.len(),
        forall|j: int| 0 <= j < k ==> item_order(x, #[trigger] s[j]) >= 0,
        k < s.len() ==> item_order(x, s[k]) < 0,
    ensures
        insert_item(s, x) == s.insert(k, x),
    decreases s.len(),
{
    if s.len() == 0 {
        assert(s.insert(k, x) =~= seq![x]);
    } else if k == 0 {
        assert(s.insert(0, x) =~= seq![x] + s);
    } else {
        let t = s.drop_first();
        assert forall|j: int| 0 <= j < k - 1 implies item_order(x, #[trigger] t[j]) >= 0 by {
            assert(t[j] == s[j + 1]);
        }
        lemma_insert_item_at(t, x, k - 1);
        assert(s.insert(k, x) =~= seq![s[0]] + t.insert(k - 1, x));
    }
}

/// Inserts `x` into sorted `items` after every item not greater than it.
fn insert_sorted(items: &mut Vec<OutputItem>, x: OutputItem)
    ensures
        item_views(final(items)@) == insert_item(item_views(old(items)@), x@),
{
    let ghost s = item_views(items@);
    let mut k: usize = 0;
    while k < items.len()
        invariant
            k <= items.len(),
            items@ == old(items)@,
            s == item_views(items@),
            forall|j: int| 0 <= j < k ==> item_order(x@, #[trigger] s[j]) >= 0,
        ensures
            k <= items.len(),
            items@ == old(items)@,
            forall|j: int| 0 <= j < k ==> item_order(x@, #[trigger] s[j]) >= 0,
            k < items.len() ==> item_order(x@, s[k as int]) < 0,
        decreases items.len() - k,
    {
        if item_compare(&x, &items[k]) < 0 {
            assert(s[k as int] == items@[k as int]@);
            break;
        }
        k = k + 1;
    }
    proof { lemma_insert_item_at(s, x@, k as int); }
    let ghost xv = x@;
    items.insert(k, x);
    assert(item_views(items@) =~= s.insert(k as int, xv));
}

/// Appends `t`, a literal whose characters are known, to `out`.
fn push_lit(out: &mut Vec<char>, t: &str)
    ensures
        final(out)@ == old(out)@ + t@,
{
    push_str(out, t);
}

/// Appends the sample line of `it` to `out`.
fn write_item_line(out: &mut Vec<char>, name: &String, it: &OutputItem)
    ensures
        final(out)@ == old(out)@ + item_line(name@, it@),
{
    let ghost start = out@;
    push_str(out, name.as_str());
    let ghost after_name = out@;
    if !it.labels.is_empty() {
        out.push('{');
        it.labels.write_openmetrics(out);
        out.push('}');
        assert(out@ =~= after_name + (seq!['{'] + labels_text(items_of(it@.labels)) + seq!['}']));
    } else {
        assert(out@ =~= after_name + Seq::<char>::empty());
    }
    let ghost after_labels = out@;
    out.push(' ');
    push_str(out, it.value.as_str());
    let ghost after_value = out@;
    if it.ts > 0 {
        out.push(' ');
        push_dec(out, it.ts);
        assert(out@ =~= after_value + (seq![' '] + dec_str(it.ts as nat)));
    } else {
        assert(out@ =~= after_value + Seq::<char>::empty());
    }
    out.push('\n');
    assert(out@ =~= start + item_line(name@, it@));
}

impl MetricsDb {
    /// Appends the text of one family to `out`.
    fn write_family(&self, out: &mut Vec<char>, f: &Family)
        ensures
            final(out)@ == old(out)@ + family_text(f@, self@.labels),
    {
        let ghost start = out@;
        let ghost fv = f@;
        if !f.help.as_str().is_empty() {
            proof { reveal_strlit("# HELP "); }
            push_lit(out, "# HELP ");
            push_str(out, f.name.as_str());
            out.push(' ');
            push_str(out, f.help.as_str());
            out.push('\n');
            assert(out@ =~= start + (help_head() + fv.name + seq![' '] + fv.help + seq!['\n']));
        } else {
            assert(out@ =~= start + Seq::<char>::empty());
        }
        let ghost after_help = out@;
        proof { reveal_strlit("# TYPE "); }
        push_lit(out, "# TYPE ");
        push_str(out, f.name.as_str());
        out.push(' ');
        push_str(out, f.value_type.as_str());
        out.push('\n');
        let ghost after_type = out@;
        assert(after_type =~= after_help + (type_head() + fv.name + seq![' '] + type_text(fv.counter) + seq!['\n']));
        // The items, sorted.
        proof { reveal_strlit("collector"); }
        let mut cl: Vec<Label> = Vec::new();
        let l = Label::new("collector", f.collector.as_str());
        assert(l@ == (collector_key(), fv.collector));
        cl.push(l);
        assert(label_views(cl@) =~= seq![(collector_key(), fv.collector)]);
        let collector_label = Labels::new(cl);
        assert(collector_label@ =~= Some(seq![(collector_key(), fv.collector)]));
        let ghost all = family_items(fv, self@.labels);
        let mut items: Vec<OutputItem> = Vec::new();
        let mut k: usize = 0;
        assert(all.take(0) =~= Seq::<ItemView>::empty());
        while k < f.values.len()
            invariant
                k <= f.values.len(),
                fv == f@,
                all == family_items(fv, self@.labels),
                collector_label@ == Some(seq![(collector_key(), fv.collector)]),
                item_views(items@) == sort_items(all.take(k as int)),
            decreases f.values.len() - k,
        {
            let e = &f.values[k];
            let it = OutputItem {
                labels: Labels::merge_sort4(&self.labels, &collector_label, &e.collector_labels, &e.labels),
                value: e.value.to_string(),
                ts: e.ts,
            };
            assert(fv.values[k as int] == e@);
            assert(it@ == all[k as int]);
            insert_sorted(&mut items, it);
            assert(all.take(k + 1).drop_last() =~= all.take(k as int));
            k = k + 1;
        }
        assert(all.take(k as int) =~= all);
        let ghost sorted = item_views(items@);
        let mut j: usize = 0;
        assert(sorted.take(0) =~= Seq::<ItemView>::empty());
        while j < items.len()
            invariant
                j <= items.len(),
                sorted == item_views(items@),
                fv == f@,
                out@ == after_type + items_text(fv.name, sorted.take(j as int)),
            decreases items.len() - j,
        {
            write_item_line(out, &f.name, &items[j]);
            assert(sorted.take(j + 1).drop_last() =~= sorted.take(j as int));
            assert(sorted.take(j + 1).last() == items@[j as int]@);
            j = j + 1;
        }
        assert(sorted.take(j as int) =~= sorted);
        assert(out@ =~= start + family_text(fv, self@.labels));
    }

    /// Appends the openmetrics text of the database to `out`: each family
    /// in key order with its `# HELP` (when it has help) and `# TYPE` lines
    /// and its samples in increasing order, then `# EOF`.
    pub fn write_openmetrics(&self, out: &mut Vec<char>)
        ensures
            final(out)@ == old(out)@ + db_text(self@),
    {
        let ghost start = out@;
        let ghost fs = self@.families;
        let mut i: usize = 0;
        assert(fs.take(0) =~= Seq::<FamilyView>::empty());
        while i < self.families.len()
            invariant
                i <= self.families.len(),
                fs == self@.families,
                out@ == start + families_text(fs.take(i as int), self@.labels),
            decreases self.families.len() - i,
        {
            self.write_family(out, &self.families[i]);
            assert(fs.take(i + 1).drop_last() =~= fs.take(i as int));
            assert(fs.take(i + 1).last() == self.families@[i as int]@);
            i = i + 1;
        }
        assert(fs.take(i as int) =~= fs);
        proof { reveal_strlit("# EOF\n"); }
        push_lit(out, "# EOF\n");
        assert(out@ =~= start + db_text(self@));
    }

    /// The openmetrics text of the database.
    pub fn to_openmetrics_string(&self) -> (r: Result<String, AgentError>)
        ensures
            r matches Ok(s) && s@ == db_text(self@),
    {
        let mut out: Vec<char> = Vec::new();
        self.write_openmetrics(&mut out);
        assert(out@ =~= db_text(self@));
        Ok(string_of(out.as_slice()))
    }
}

/// `set_entry` stores the entry it is given.
proof fn lemma_set_entry_holds(vs: Seq<EntryView>, e: EntryView)
    ensures
        set_entry(vs, e).contains(e),
    decreases vs.len(),
{
    if vs.len() == 0 {
        assert(set_entry(vs, e)[0] == e);
    } else if vs[0].labels == e.labels {
        assert(set_entry(vs, e)[0] == e);
    } else {
        lemma_set_entry_holds(vs.drop_first(), e);
        let t = set_entry(vs.drop_first(), e);
        let j = choose|j: int| 0 <= j < t.len() && t[j] == e;
        assert(set_entry(vs, e)[j + 1] == e);
    }
}

/// `add_family` adds a family with the given key.
proof fn lemma_add_family_has(fs: Seq<FamilyView>, f: FamilyView)
    ensures
        add_family(fs, f).contains(f),
    decreases fs.len(),
{
    if fs.len() == 0 || key_lt(f.collector, f.name, fs[0].collector, fs[0].name) {
        assert(add_family(fs, f)[0] == f);
    } else {
        lemma_add_family_has(fs.drop_first(), f);
        let t = add_family(fs.drop_first(), f);
        let j = choose|j: int| 0 <= j < t.len() && t[j] == f;
        assert(add_family(fs, f)[j + 1] == f);
    }
}

/// A stored measure can be read back: after a measure is applied, the
/// family of its collector and name exists and holds, for the measure's
/// labels, the measure's value with the run's labels and time.
pub proof fn lemma_measure_stored(
    fs: Seq<FamilyView>,
    collector: Seq<char>,
    data_labels: Option<Seq<LabelView>>,
    ts: u64,
    m: MeasureView,
)
    ensures
        ({
            let r = apply_measure(fs, collector, data_labels, ts, m);
            let e = EntryView { labels: m.labels, value: m.value, collector_labels: data_labels, ts };
            exists|i: int| 0 <= i < r.len() && (#[trigger] r[i]).collector == collector && r[i].name == m.name
                && r[i].values.contains(e)
        }),
{
    let e = EntryView { labels: m.labels, value: m.value, collector_labels: data_labels, ts };
    let nf = FamilyView { collector, name: m.name, help: m.help, counter: is_counter(m.value), values: Seq::empty() };
    let fs1 = if has_family(fs, collector, m.name) { fs } else { add_family(fs, nf) };
    let i = if has_family(fs, collector, m.name) {
        choose|i: int| 0 <= i < fs.len() && #[trigger] fs[i].collector == collector && fs[i].name == m.name
    } else {
        lemma_add_family_has(fs, nf);
        choose|i: int| 0 <= i < fs1.len() && fs1[i] == nf
    };
    let r = apply_measure(fs, collector, data_labels, ts, m);
    lemma_set_entry_holds(fs1[i].values, e);
    assert(r[i].values == set_entry(fs1[i].values, e));
}
} // verus!
