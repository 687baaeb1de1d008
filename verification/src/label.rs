//! Labels of measures and sorted label maps.
use vstd::prelude::*;
use crate::text::{chars_of, compare_str, push_all, push_str, seq_lt, join, lemma_lt_irreflexive, lemma_lt_transitive, lemma_lt_asymmetric, lemma_lt_total, string_of};

verus! {

/// A label as a pair of character sequences: key and value.
pub type LabelView = (Seq<char>, Seq<char>);

/// A single `key=value` label.
#[derive(Debug, Clone, PartialEq, Eq, Hash)]
pub struct Label {
    pub key: String,
    pub value: String,
}

impl View for Label {
    type V = LabelView;

    open spec fn view(&self) -> LabelView {
        (self.key@, self.value@)
    }
}

impl Label {
    /// A label with the given key and value.
    pub fn new(key: &str, value: &str) -> (l: Label)
        ensures
            l@ == (key@, value@),
    {
        Label { key: key.to_owned(), value: value.to_owned() }
    }

    /// A label is empty when its value is empty.
    pub fn is_empty(&self) -> (r: bool)
        ensures
            r == (self.value@.len() == 0),
    {
        self.value.as_str().is_empty()
    }

    /// An equal copy of this label.
    pub fn duplicate(&self) -> (r: Label)
        ensures
            r@ == self@,
    {
        Label { key: self.key.clone(), value: self.value.clone() }
    }
}

/// The views of a sequence of labels.
pub open spec fn label_views(v: Seq<Label>) -> Seq<LabelView> {
    v.map_values(|l: Label| l@)
}

/// An optional list of labels; `None` and an empty list both hold no label.
#[derive(Debug, Clone, PartialEq, Eq, Hash)]
pub struct Labels(Option<Vec<Label>>);

impl View for Labels {
    type V = Option<Seq<LabelView>>;

    closed spec fn view(&self) -> Option<Seq<LabelView>> {
        match self.0 {
            Some(v) => Some(label_views(v@)),
            None => None,
        }
    }
}

/// The labels held, in order, whether the list is absent or present.
pub open spec fn items_of(v: Option<Seq<LabelView>>) -> Seq<LabelView> {
    match v {
        Some(s) => s,
        None => Seq::empty(),
    }
}

impl Default for Labels {
    fn default() -> (r: Labels)
        ensures
            r@ == None::<Seq<LabelView>>,
    {
        Labels(None)
    }
}

/// `map` with every label of `items` that has a non-empty value inserted in
/// turn, so that a later label overrides an earlier one with the same key.
pub open spec fn update_map(map: Map<Seq<char>, Seq<char>>, items: Seq<LabelView>) -> Map<Seq<char>, Seq<char>>
    decreases items.len(),
{
    if items.len() == 0 {
        map
    } else {
        let m = update_map(map, items.drop_last());
        let l = items.last();
        if l.1.len() == 0 {
            m
        } else {
            m.insert(l.0, l.1)
        }
    }
}

/// The `key="value"` text of one label.
pub open spec fn label_text(l: LabelView) -> Seq<char> {
    l.0 + seq!['=', '"'] + l.1 + seq!['"']
}

/// The openmetrics text of a list of labels: `key="value"` items joined by commas.
pub open spec fn labels_text(items: Seq<LabelView>) -> Seq<char> {
    join(items.map_values(|l: LabelView| label_text(l)), seq![','])
}

impl Labels {
    /// Labels holding exactly the given list.
    pub fn new(v: Vec<Label>) -> (r: Labels)
        ensures
            r@ == Some(label_views(v@)),
    {
        Labels(Some(v))
    }

    /// Number of labels held.
    pub fn len(&self) -> (r: usize)
        ensures
            r == items_of(self@).len(),
    {
        match &self.0 {
            Some(x) => x.len(),
            None => 0,
        }
    }

    /// Whether no label is held.
    pub fn is_empty(&self) -> (r: bool)
        ensures
            r == (items_of(self@).len() == 0),
    {
        match &self.0 {
            Some(x) => x.len() == 0,
            None => true,
        }
    }

    /// Appends a label with a non-empty value; a label with an empty value is ignored.
    pub fn push(&mut self, v: Label)
        ensures
            v.value@.len() == 0 ==> final(self)@ == old(self)@,
            v.value@.len() > 0 ==> final(self)@ == Some(items_of(old(self)@).push(v@)),
    {
        if !v.is_empty() {
            let ghost vv = v@;
            match &mut self.0 {
                Some(x) => {
                    x.push(v);
                    assert(label_views(x@) =~= label_views(old(self).0.unwrap()@).push(vv));
                }
                None => {
                    let mut x: Vec<Label> = Vec::new();
                    x.push(v);
                    assert(label_views(x@) =~= seq![vv]);
                    self.0 = Some(x);
                    assert(items_of(old(self)@) =~= Seq::<LabelView>::empty());
                    assert(Seq::<LabelView>::empty().push(vv) =~= seq![vv]);
                }
            }
        }
    }

    /// Labels from a configuration map, in key order; an absent map gives
    /// absent labels.
    pub fn from_config(value: &Option<LabelMap>) -> (r: Labels)
        requires
            value matches Some(m) ==> m.wf(),
        ensures
            r@ == (match value {
                Some(m) => Some(m.entry_views()),
                None => None::<Seq<LabelView>>,
            }),
    {
        match value {
            Some(m) => Labels::new(m.entries()),
            None => Labels::default(),
        }
    }

    /// An equal copy of these labels.
    pub fn duplicate(&self) -> (r: Labels)
        ensures
            r@ == self@,
    {
        match &self.0 {
            Some(_) => {
                let v = self.to_vec();
                Labels(Some(v))
            }
            None => Labels(None),
        }
    }

    /// Whether two label lists are equal, absence included.
    pub fn same_as(&self, other: &Labels) -> (r: bool)
        ensures
            r == (self@ == other@),
    {
        self.compare(other) == 0
    }

    /// Three-way comparison of label lists: absent first, then lexicographic
    /// by key and value.
    pub fn compare(&self, other: &Labels) -> (r: i8)
        ensures
            r as int == opt_labels_order(self@, other@),
            r == 0 <==> self@ == other@,
    {
        match (&self.0, &other.0) {
            (None, None) => 0,
            (None, Some(_)) => -1,
            (Some(_), None) => 1,
            (Some(a), Some(b)) => {
                let ghost va = label_views(a@);
                let ghost vb = label_views(b@);
                let mut i: usize = 0;
                assert(va.skip(0) =~= va);
                assert(vb.skip(0) =~= vb);
                while i < a.len() && i < b.len()
                    invariant
                        va == label_views(a@),
                        vb == label_views(b@),
                        self@ == Some(va),
                        other@ == Some(vb),
                        i <= a.len(),
                        i <= b.len(),
                        va.take(i as int) == vb.take(i as int),
                        label_seq_order(va, vb) == label_seq_order(va.skip(i as int), vb.skip(i as int)),
                    decreases a.len() - i,
                {
                    proof {
                        assert(va.skip(i as int)[0] == va[i as int]);
                        assert(vb.skip(i as int)[0] == vb[i as int]);
                        assert(va.skip(i as int).drop_first() =~= va.skip(i + 1));
                        assert(vb.skip(i as int).drop_first() =~= vb.skip(i + 1));
                        assert(va[i as int] == a@[i as int]@);
                        assert(vb[i as int] == b@[i as int]@);
                    }
                    let ck = compare_text(&a[i].key, &b[i].key);
                    if ck != 0 {
                        proof {
                            if va == vb { assert(va[i as int] == vb[i as int]); }
                        }
                        return ck;
                    }
                    let cv = compare_text(&a[i].value, &b[i].value);
                    if cv != 0 {
                        proof {
                            if va == vb { assert(va[i as int] == vb[i as int]); }
                        }
                        return cv;
                    }
                    assert(va.take(i + 1) =~= va.take(i as int).push(va[i as int]));
                    assert(vb.take(i + 1) =~= vb.take(i as int).push(vb[i as int]));
                    i = i + 1;
                }
                if a.len() == b.len() {
                    assert(va =~= va.take(i as int));
                    assert(vb =~= vb.take(i as int));
                    0
                } else if a.len() < b.len() {
                    assert(va.skip(i as int).len() == 0);
                    assert(va.len() != vb.len());
                    -1
                } else {
                    assert(vb.skip(i as int).len() == 0);
                    assert(va.len() != vb.len());
                    1
                }
            }
        }
    }

    /// The labels held, copied into a vector.
    pub fn to_vec(&self) -> (r: Vec<Label>)
        ensures
            label_views(r@) == items_of(self@),
    {
        let mut r: Vec<Label> = Vec::new();
        match &self.0 {
            Some(x) => {
                let mut i: usize = 0;
                while i < x.len()
                    invariant
                        i <= x.len(),
                        label_views(r@) == label_views(x@).take(i as int),
                    decreases x.len() - i,
                {
                    let d = x[i].duplicate();
                    let ghost r0 = r@;
                    r.push(d);
                    assert(label_views(r@) =~= label_views(r0).push(d@));
                    assert(label_views(x@).take(i + 1) =~= label_views(x@).take(i as int).push(x@[i as int]@));
                    assert(label_views(r@) =~= label_views(x@).take(i + 1));
                    i = i + 1;
                }
                assert(label_views(x@).take(x.len() as int) =~= label_views(x@));
            }
            None => {
                assert(label_views(r@) =~= Seq::<LabelView>::empty());
            }
        }
        r
    }

    /// Inserts every label with a non-empty value into `map`, in order.
    pub fn update_map(&self, map: &mut LabelMap)
        requires
            old(map).wf(),
        ensures
            final(map).wf(),
            final(map)@ == update_map(old(map)@, items_of(self@)),
            final(map).entry_views() == upsert_all(old(map).entry_views(), items_of(self@)),
    {
        if let Some(v) = &self.0 {
            let mut i: usize = 0;
            while i < v.len()
                invariant
                    i <= v.len(),
                    map.wf(),
                    map@ == update_map(old(map)@, label_views(v@).take(i as int)),
                    map.entry_views() == upsert_all(old(map).entry_views(), label_views(v@).take(i as int)),
                decreases v.len() - i,
            {
                let ghost before = label_views(v@).take(i as int);
                assert(label_views(v@).take(i + 1).drop_last() =~= before);
                if !v[i].is_empty() {
                    map.insert(v[i].key.clone(), v[i].value.clone());
                }
                i = i + 1;
            }
            assert(label_views(v@).take(v.len() as int) =~= label_views(v@));
        } else {
            assert(items_of(self@) =~= Seq::<LabelView>::empty());
        }
    }

    /// Merges four label sets, later ones overriding earlier ones key by key
    /// and labels with empty values left out, and returns the result sorted
    /// by key; when all four are empty the result is the absent list.
    pub fn merge_sort4(v1: &Labels, v2: &Labels, v3: &Labels, v4: &Labels) -> (r: Labels)
        ensures
            ({
                let all_empty = items_of(v1@).len() == 0 && items_of(v2@).len() == 0
                    && items_of(v3@).len() == 0 && items_of(v4@).len() == 0;
                &&& all_empty ==> r@ == None::<Seq<LabelView>>
                &&& !all_empty ==> (r@ matches Some(s) && keys_sorted(s) && map_of(s) == merged4(v1@, v2@, v3@, v4@))
                &&& r@ == merged_labels(v1@, v2@, v3@, v4@)
            }),
    {
        if v1.is_empty() && v2.is_empty() && v3.is_empty() && v4.is_empty() {
            return Labels::default();
        }
        let mut map = LabelMap::new();
        assert(map.entry_views() =~= Seq::<LabelView>::empty());
        v1.update_map(&mut map);
        v2.update_map(&mut map);
        v3.update_map(&mut map);
        v4.update_map(&mut map);
        let entries = map.entries();
        Labels::new(entries)
    }

    /// The openmetrics form of the labels: `key="value"` items separated by commas.
    pub fn to_openmetrics(&self) -> (r: String)
        ensures
            r@ == labels_text(items_of(self@)),
    {
        let mut out: Vec<char> = Vec::new();
        self.write_openmetrics(&mut out);
        assert(out@ =~= labels_text(items_of(self@)));
        string_of(out.as_slice())
    }

    /// Appends the openmetrics form of the labels to `out`.
    pub fn write_openmetrics(&self, out: &mut Vec<char>)
        ensures
            final(out)@ == old(out)@ + labels_text(items_of(self@)),
    {
        match &self.0 {
            Some(labels) => {
                let ghost texts = label_views(labels@).map_values(|l: LabelView| label_text(l));
                let mut i: usize = 0;
                while i < labels.len()
                    invariant
                        i <= labels.len(),
                        texts == label_views(labels@).map_values(|l: LabelView| label_text(l)),
                        out@ == old(out)@ + join(texts.take(i as int), seq![',']),
                    decreases labels.len() - i,
                {
                    let ghost before = out@;
                    if i > 0 {
                        out.push(',');
                    }
                    push_str(out, labels[i].key.as_str());
                    out.push('=');
                    out.push('"');
                    push_str(out, labels[i].value.as_str());
                    out.push('"');
                    proof {
                        let t = texts.take(i + 1);
                        assert(t.drop_last() =~= texts.take(i as int));
                        assert(t.last() == label_text(labels@[i as int]@));
                        if i == 0 {
                            assert(t.len() == 1);
                            assert(out@ =~= old(out)@ + join(t, seq![',']));
                        } else {
                            assert(out@ =~= old(out)@ + join(t, seq![',']));
                        }
                    }
                    i = i + 1;
                }
                assert(texts.take(labels.len() as int) =~= texts);
            }
            None => {
                assert(items_of(self@) =~= Seq::<LabelView>::empty());
                assert(labels_text(Seq::<LabelView>::empty()) =~= Seq::<char>::empty());
                assert(old(out)@ + Seq::<char>::empty() =~= old(out)@);
            }
        }
    }
}

/// Three-way comparison of character sequences.
pub open spec fn chars_order(a: Seq<char>, b: Seq<char>) -> int {
    if a == b { 0 } else if seq_lt(a, b) { -1 } else { 1 }
}

/// Labels compare by key, then by value.
pub open spec fn label_order(x: LabelView, y: LabelView) -> int {
    let c = chars_order(x.0, y.0);
    if c != 0 { c } else { chars_order(x.1, y.1) }
}

/// Label lists compare lexicographically, a proper prefix first.
pub open spec fn label_seq_order(a: Seq<LabelView>, b: Seq<LabelView>) -> int
    decreases a.len(),
{
    if a.len() == 0 {
        if b.len() == 0 { 0 } else { -1 }
    } else if b.len() == 0 {
        1
    } else {
        let c = label_order(a[0], b[0]);
        if c != 0 { c } else { label_seq_order(a.drop_first(), b.drop_first()) }
    }
}

/// Absent labels come before present ones; present ones compare as lists.
pub open spec fn opt_labels_order(a: Option<Seq<LabelView>>, b: Option<Seq<LabelView>>) -> int {
    match (a, b) {
        (None, None) => 0,
        (None, Some(_)) => -1,
        (Some(_), None) => 1,
        (Some(x), Some(y)) => label_seq_order(x, y),
    }
}

fn compare_text(a: &String, b: &String) -> (r: i8)
    ensures
        r as int == chars_order(a@, b@),
{
    let c = compare_str(a.as_str(), b.as_str());
    if c < 0 {
        proof { lemma_lt_asymmetric(a@, b@); }
        -1
    } else if c == 0 {
        0
    } else {
        proof { lemma_lt_asymmetric(b@, a@); }
        1
    }
}

/// `s` with the entry for `k` set to `v`: replaced where `k` is present,
/// otherwise inserted before the first greater key.
pub open spec fn upsert(s: Seq<LabelView>, k: Seq<char>, v: Seq<char>) -> Seq<LabelView>
    decreases s.len(),
{
    if s.len() == 0 {
        seq![(k, v)]
    } else if s[0].0 == k {
        seq![(k, v)] + s.drop_first()
    } else if seq_lt(k, s[0].0) {
        seq![(k, v)] + s
    } else {
        seq![s[0]] + upsert(s.drop_first(), k, v)
    }
}

/// `s` with every label of `items` that has a non-empty value set in turn.
pub open spec fn upsert_all(s: Seq<LabelView>, items: Seq<LabelView>) -> Seq<LabelView>
    decreases items.len(),
{
    if items.len() == 0 {
        s
    } else {
        let t = upsert_all(s, items.drop_last());
        let l = items.last();
        if l.1.len() == 0 {
            t
        } else {
            upsert(t, l.0, l.1)
        }
    }
}

/// The entries, sorted by key, of four label sets merged in order.
pub open spec fn merged_entries(
    v1: Option<Seq<LabelView>>,
    v2: Option<Seq<LabelView>>,
    v3: Option<Seq<LabelView>>,
    v4: Option<Seq<LabelView>>,
) -> Seq<LabelView> {
    upsert_all(
        upsert_all(upsert_all(upsert_all(Seq::empty(), items_of(v1)), items_of(v2)), items_of(v3)),
        items_of(v4),
    )
}

/// The labels that `merge_sort4` gives for four label sets.
pub open spec fn merged_labels(
    v1: Option<Seq<LabelView>>,
    v2: Option<Seq<LabelView>>,
    v3: Option<Seq<LabelView>>,
    v4: Option<Seq<LabelView>>,
) -> Option<Seq<LabelView>> {
    if items_of(v1).len() == 0 && items_of(v2).len() == 0 && items_of(v3).len() == 0
        && items_of(v4).len() == 0 {
        None
    } else {
        Some(merged_entries(v1, v2, v3, v4))
    }
}

/// In a sorted sequence, setting a key splices the entry in at the key's position.
pub proof fn lemma_upsert_at(s: Seq<LabelView>, k: Seq<char>, v: Seq<char>, p: int, found: bool)
    requires
        keys_sorted(s),
        0 <= p <= s.len(),
        forall|j: int| 0 <= j < p ==> seq_lt(#[trigger] s[j].0, k),
        found ==> p < s.len() && s[p].0 == k,
        !found ==> forall|j: int| p <= j < s.len() ==> seq_lt(k, #[trigger] s[j].0),
    ensures
        upsert(s, k, v) == s.take(p) + seq![(k, v)] + s.skip(if found { p + 1 } else { p }),
    decreases p,
{
    if p == 0 {
        if found {
            assert(s.skip(1) =~= s.drop_first());
            assert(s.take(0) + seq![(k, v)] + s.skip(1) =~= seq![(k, v)] + s.drop_first());
        } else if s.len() == 0 {
            assert(s.take(0) + seq![(k, v)] + s.skip(0) =~= seq![(k, v)]);
        } else {
            assert(seq_lt(k, s[0].0));
            lemma_lt_irreflexive(k);
            assert(s.take(0) + seq![(k, v)] + s.skip(0) =~= seq![(k, v)] + s);
        }
    } else {
        let t = s.drop_first();
        assert(seq_lt(s[0].0, k));
        lemma_lt_irreflexive(k);
        lemma_lt_asymmetric(s[0].0, k);
        assert(keys_sorted(t)) by {
            assert forall|i: int, j: int| 0 <= i < j < t.len() implies seq_lt(#[trigger] t[i].0, #[trigger] t[j].0) by {
                assert(t[i] == s[i + 1] && t[j] == s[j + 1]);
            }
        }
        assert forall|j: int| 0 <= j < p - 1 implies seq_lt(#[trigger] t[j].0, k) by {
            assert(t[j] == s[j + 1]);
        }
        if !found {
            assert forall|j: int| p - 1 <= j < t.len() implies seq_lt(k, #[trigger] t[j].0) by {
                assert(t[j] == s[j + 1]);
            }
        } else {
            assert(t[p - 1] == s[p]);
        }
        lemma_upsert_at(t, k, v, p - 1, found);
        let q = if found { p + 1 } else { p };
        assert(seq![s[0]] + (t.take(p - 1) + seq![(k, v)] + t.skip(q - 1)) =~= s.take(p) + seq![(k, v)] + s.skip(q));
    }
}

/// The four label sets merged in order, each later one overriding.
pub open spec fn merged4(
    v1: Option<Seq<LabelView>>,
    v2: Option<Seq<LabelView>>,
    v3: Option<Seq<LabelView>>,
    v4: Option<Seq<LabelView>>,
) -> Map<Seq<char>, Seq<char>> {
    update_map(
        update_map(update_map(update_map(Map::empty(), items_of(v1)), items_of(v2)), items_of(v3)),
        items_of(v4),
    )
}

/// Keys strictly increase along the sequence.
pub open spec fn keys_sorted(s: Seq<LabelView>) -> bool {
    forall|i: int, j: int| 0 <= i < j < s.len() ==> seq_lt(#[trigger] s[i].0, #[trigger] s[j].0)
}

/// Some entry has key `k`.
pub open spec fn has_key(s: Seq<LabelView>, k: Seq<char>) -> bool {
    exists|i: int| 0 <= i < s.len() && #[trigger] s[i].0 == k
}

/// The value of the last entry with key `k`.
pub open spec fn value_at(s: Seq<LabelView>, k: Seq<char>) -> Seq<char>
    decreases s.len(),
{
    if s.len() == 0 {
        Seq::empty()
    } else if s.last().0 == k {
        s.last().1
    } else {
        value_at(s.drop_last(), k)
    }
}

/// The entries of `s` as a map from key to value.
pub open spec fn map_of(s: Seq<LabelView>) -> Map<Seq<char>, Seq<char>> {
    Map::new(|k: Seq<char>| has_key(s, k), |k: Seq<char>| value_at(s, k))
}

/// In a sequence with sorted keys, the entry with key `k` is the one at `i`.
pub proof fn lemma_value_at(s: Seq<LabelView>, i: int)
    requires
        keys_sorted(s),
        0 <= i < s.len(),
    ensures
        has_key(s, s[i].0),
        value_at(s, s[i].0) == s[i].1,
        map_of(s).contains_key(s[i].0),
        map_of(s)[s[i].0] == s[i].1,
    decreases s.len(),
{
    let k = s[i].0;
    assert(s[i].0 == k);
    let dom = Set::new(|k: Seq<char>| has_key(s, k));
    assert(dom.contains(k));
    assert(map_of(s) == dom.mk_map(|k: Seq<char>| value_at(s, k)));
    if i < s.len() - 1 {
        let pre = s.drop_last();
        assert(pre[i] == s[i]);
        assert(seq_lt(s[i].0, s[s.len() - 1].0));
        lemma_lt_irreflexive(k);
        lemma_value_at(pre, i);
    }
}

/// In a sequence with sorted keys, entries at different positions have different keys.
pub proof fn lemma_distinct_keys(s: Seq<LabelView>, i: int, j: int)
    requires
        keys_sorted(s),
        0 <= i < s.len(),
        0 <= j < s.len(),
        i != j,
    ensures
        s[i].0 != s[j].0,
{
    if i < j {
        assert(seq_lt(s[i].0, s[j].0));
    } else {
        assert(seq_lt(s[j].0, s[i].0));
    }
    lemma_lt_irreflexive(s[i].0);
}

/// A map from label keys to values, kept as a list of labels sorted by key.
pub struct LabelMap {
    entries: Vec<Label>,
}

impl View for LabelMap {
    type V = Map<Seq<char>, Seq<char>>;

    closed spec fn view(&self) -> Map<Seq<char>, Seq<char>> {
        map_of(label_views(self.entries@))
    }
}

impl LabelMap {
    /// The entries in key order.
    pub closed spec fn entry_views(&self) -> Seq<LabelView> {
        label_views(self.entries@)
    }

    /// Keys of the entries strictly increase.
    pub closed spec fn wf(&self) -> bool {
        keys_sorted(label_views(self.entries@))
    }

    /// The view is the map of the sorted entries.
    pub proof fn lemma_view(&self)
        ensures
            self@ == map_of(self.entry_views()),
    {
    }

    /// An empty map.
    pub fn new() -> (r: LabelMap)
        ensures
            r.wf(),
            r@ == Map::<Seq<char>, Seq<char>>::empty(),
            r.entry_views().len() == 0,
    {
        let r = LabelMap { entries: Vec::new() };
        assert(r@ =~= Map::<Seq<char>, Seq<char>>::empty());
        r
    }

    /// Number of entries.
    pub fn len(&self) -> (n: usize)
        ensures
            n == self.entry_views().len(),
    {
        self.entries.len()
    }

    /// Position of the first entry whose key is not below `key`, and whether
    /// that entry's key equals `key`.
    fn position(&self, key: &str) -> (r: (usize, bool))
        requires
            self.wf(),
        ensures
            r.0 <= self.entry_views().len(),
            forall|j: int| 0 <= j < r.0 ==> seq_lt(#[trigger] self.entry_views()[j].0, key@),
            r.1 ==> r.0 < self.entry_views().len() && self.entry_views()[r.0 as int].0 == key@,
            !r.1 ==> forall|j: int| r.0 <= j < self.entry_views().len() ==> seq_lt(key@, #[trigger] self.entry_views()[j].0),
    {
        let ghost s = self.entry_views();
        let mut i: usize = 0;
        while i < self.entries.len()
            invariant
                s == self.entry_views(),
                keys_sorted(s),
                i <= s.len(),
                forall|j: int| 0 <= j < i ==> seq_lt(#[trigger] s[j].0, key@),
            decreases self.entries.len() - i,
        {
            let c = compare_str(self.entries[i].key.as_str(), key);
            assert(s[i as int].0 == self.entries[i as int].key@);
            if c == 0 {
                return (i, true);
            } else if c > 0 {
                assert forall|j: int| i <= j < s.len() implies seq_lt(key@, #[trigger] s[j].0) by {
                    if j > i {
                        lemma_lt_transitive(key@, s[i as int].0, s[j].0);
                    }
                }
                return (i, false);
            }
            i = i + 1;
        }
        (i, false)
    }

    /// Sets `key` to `value`, replacing a previous value.
    pub fn insert(&mut self, key: String, value: String)
        requires
            old(self).wf(),
        ensures
            final(self).wf(),
            final(self)@ == old(self)@.insert(key@, value@),
            final(self).entry_views() == upsert(old(self).entry_views(), key@, value@),
    {
        let ghost s = self.entry_views();
        let ghost kv = key@;
        let ghost vv = value@;
        let (pos, found) = self.position(key.as_str());
        proof { lemma_upsert_at(s, kv, vv, pos as int, found); }
        if found {
            let l = Label { key, value };
            self.entries.set(pos, l);
            let ghost t = self.entry_views();
            assert(t =~= s.update(pos as int, (kv, vv)));
            assert(t =~= s.take(pos as int) + seq![(kv, vv)] + s.skip(pos + 1));
            assert(keys_sorted(t));
            assert(self@ =~= old(self)@.insert(kv, vv)) by {
                assert forall|k: Seq<char>| #[trigger] has_key(t, k) == (has_key(s, k) || k == kv) by {
                    if has_key(s, k) {
                        let j = choose|j: int| 0 <= j < s.len() && #[trigger] s[j].0 == k;
                        assert(t[j].0 == k);
                    }
                    if has_key(t, k) {
                        let j = choose|j: int| 0 <= j < t.len() && #[trigger] t[j].0 == k;
                        assert(s[j].0 == k);
                    }
                    if k == kv {
                        assert(t[pos as int].0 == k);
                    }
                }
                assert forall|k: Seq<char>| has_key(t, k) implies #[trigger] value_at(t, k) == (if k == kv { vv } else { value_at(s, k) }) by {
                    let j = choose|j: int| 0 <= j < t.len() && #[trigger] t[j].0 == k;
                    lemma_value_at(t, j);
                    if j != pos {
                        lemma_value_at(s, j);
                        lemma_distinct_keys(t, j, pos as int);
                    }
                }
            }
        } else {
            let l = Label { key, value };
            self.entries.insert(pos, l);
            let ghost t = self.entry_views();
            assert(t =~= s.insert(pos as int, (kv, vv)));
            assert(t =~= s.take(pos as int) + seq![(kv, vv)] + s.skip(pos as int));
            assert(keys_sorted(t)) by {
                assert forall|i: int, j: int| 0 <= i < j < t.len() implies seq_lt(#[trigger] t[i].0, #[trigger] t[j].0) by {
                    if j < pos {
                        assert(t[i] == s[i] && t[j] == s[j]);
                    } else if j == pos {
                        assert(t[i] == s[i]);
                    } else if i == pos {
                        assert(t[j] == s[j - 1]);
                    } else if i < pos {
                        assert(t[i] == s[i] && t[j] == s[j - 1]);
                        lemma_lt_transitive(s[i].0, kv, s[j - 1].0);
                    } else {
                        assert(t[i] == s[i - 1] && t[j] == s[j - 1]);
                    }
                }
            }
            assert(self@ =~= old(self)@.insert(kv, vv)) by {
                assert forall|k: Seq<char>| #[trigger] has_key(t, k) == (has_key(s, k) || k == kv) by {
                    if has_key(s, k) {
                        let j = choose|j: int| 0 <= j < s.len() && #[trigger] s[j].0 == k;
                        if j < pos {
                            assert(t[j].0 == k);
                        } else {
                            assert(t[j + 1].0 == k);
                        }
                    }
                    if has_key(t, k) {
                        let j = choose|j: int| 0 <= j < t.len() && #[trigger] t[j].0 == k;
                        if j < pos {
                            assert(s[j].0 == k);
                        } else if j > pos {
                            assert(s[j - 1].0 == k);
                        }
                    }
                    if k == kv {
                        assert(t[pos as int].0 == k);
                    }
                }
                assert forall|k: Seq<char>| has_key(t, k) implies #[trigger] value_at(t, k) == (if k == kv { vv } else { value_at(s, k) }) by {
                    let j = choose|j: int| 0 <= j < t.len() && #[trigger] t[j].0 == k;
                    lemma_value_at(t, j);
                    if j < pos {
                        lemma_value_at(s, j);
                        lemma_distinct_keys(t, j, pos as int);
                    } else if j > pos {
                        lemma_value_at(s, j - 1);
                        lemma_distinct_keys(t, j, pos as int);
                    }
                }
            }
        }
    }

    /// The value stored under `key`, if any.
    pub fn get(&self, key: &str) -> (r: Option<&String>)
        requires
            self.wf(),
        ensures
            r is Some <==> self@.contains_key(key@),
            r matches Some(v) ==> v@ == self@[key@],
    {
        let (pos, found) = self.position(key);
        if found {
            proof { lemma_value_at(self.entry_views(), pos as int); }
            Some(&self.entries[pos].value)
        } else {
            proof {
                let s = self.entry_views();
                if has_key(s, key@) {
                    let j = choose|j: int| 0 <= j < s.len() && #[trigger] s[j].0 == key@;
                    lemma_lt_irreflexive(key@);
                    if j >= pos {
                    }
                }
            }
            None
        }
    }

    /// The entries, sorted by key.
    pub fn entries(&self) -> (r: Vec<Label>)
        requires
            self.wf(),
        ensures
            label_views(r@) == self.entry_views(),
            keys_sorted(label_views(r@)),
            map_of(label_views(r@)) == self@,
    {
        let mut r: Vec<Label> = Vec::new();
        let mut i: usize = 0;
        while i < self.entries.len()
            invariant
                i <= self.entries.len(),
                label_views(r@) == self.entry_views().take(i as int),
            decreases self.entries.len() - i,
        {
            let d = self.entries[i].duplicate();
            let ghost r0 = r@;
            r.push(d);
            assert(label_views(r@) =~= label_views(r0).push(d@));
            assert(self.entry_views().take(i + 1) =~= self.entry_views().take(i as int).push(self.entries@[i as int]@));
            assert(label_views(r@) =~= self.entry_views().take(i + 1));
            i = i + 1;
        }
        assert(self.entry_views().take(self.entries.len() as int) =~= self.entry_views());
        r
    }

    /// Keeps only the entries whose key satisfies `keep`, which decides as
    /// `pred` does on the key's characters.
    pub fn retain<F: Fn(&String) -> bool>(&mut self, keep: F, Ghost(pred): Ghost<spec_fn(Seq<char>) -> bool>)
        requires
            old(self).wf(),
            forall|k: &String| #[trigger] keep.requires((k,)),
            forall|k: &String, b: bool| #[trigger] keep.ensures((k,), b) ==> b == pred(k@),
        ensures
            final(self).wf(),
            final(self).entry_views() == old(self).entry_views().filter(|l: LabelView| pred(l.0)),
    {
        let ghost s = self.entry_views();
        let ghost p = |l: LabelView| pred(l.0);
        let mut kept_entries: Vec<Label> = Vec::new();
        let mut i: usize = 0;
        while i < self.entries.len()
            invariant
                s == self.entry_views(),
                keys_sorted(s),
                i <= s.len(),
                p == (|l: LabelView| pred(l.0)),
                forall|k: &String| #[trigger] keep.requires((k,)),
                forall|k: &String, b: bool| #[trigger] keep.ensures((k,), b) ==> b == pred(k@),
                label_views(kept_entries@) == s.take(i as int).filter(p),
            decreases self.entries.len() - i,
        {
            let b = keep(&self.entries[i].key);
            proof {
                assert(s.take(i + 1).drop_last() =~= s.take(i as int));
                reveal(Seq::filter);
                assert(s[i as int].0 == self.entries[i as int].key@);
            }
            if b {
                kept_entries.push(self.entries[i].duplicate());
                assert(label_views(kept_entries@) =~= s.take(i + 1).filter(p));
            } else {
                assert(label_views(kept_entries@) =~= s.take(i + 1).filter(p));
            }
            i = i + 1;
        }
        assert(s.take(s.len() as int) =~= s);
        proof { lemma_filter_sorted(s, p); }
        self.entries = kept_entries;
    }
}

proof fn lemma_filter_sorted(s: Seq<LabelView>, p: spec_fn(LabelView) -> bool)
    requires
        keys_sorted(s),
    ensures
        keys_sorted(s.filter(p)),
    decreases s.len(),
{
    reveal(Seq::filter);
    if s.len() > 0 {
        let pre = s.drop_last();
        assert(keys_sorted(pre));
        lemma_filter_sorted(pre, p);
        let f = pre.filter(p);
        if p(s.last()) {
            assert forall|x: int| 0 <= x < f.len() implies seq_lt(#[trigger] f[x].0, s.last().0) by {
                assert(f.contains(f[x]));
                pre.lemma_filter_contains_rev(p, f[x]);
                let j = choose|j: int| 0 <= j < pre.len() && pre[j] == f[x];
                assert(s[j] == pre[j]);
            }
            assert(s.filter(p) =~= f.push(s.last()));
        }
    }
}

} // verus!
