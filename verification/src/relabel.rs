//! Relabeling: the labels a rule works on, and the rule configurations.
use vstd::prelude::*;
use crate::label::{Label, LabelMap, LabelView, Labels, items_of, label_views, update_map};
use crate::measure::Measure;
use crate::error::AgentError;
use crate::text::str_eq;

verus! {

/// Configuration of one relabeling rule.
pub struct RelabelRuleConfig {
    /// What the rule does.
    pub action: Option<String>,
    /// Regular expression matched against label names.
    pub regex: Option<String>,
    /// Replacement text for matched names.
    pub replacement: Option<String>,
}

/// The name of the label that holds the measure's name.
pub open spec fn name_label() -> Seq<char> {
    seq!['_', '_', 'n', 'a', 'm', 'e', '_', '_']
}

/// The labels of one measure while rules apply, by name; the measure's
/// name is held as the label `__name__`.
pub struct ActiveLabels {
    labels: LabelMap,
}

impl View for ActiveLabels {
    type V = Map<Seq<char>, Seq<char>>;

    closed spec fn view(&self) -> Map<Seq<char>, Seq<char>> {
        self.labels@
    }
}

/// `m` with every label of `items` set in turn, a later one replacing an
/// earlier one with the same name.
pub open spec fn insert_all(m: Map<Seq<char>, Seq<char>>, items: Seq<LabelView>) -> Map<Seq<char>, Seq<char>>
    decreases items.len(),
{
    if items.len() == 0 {
        m
    } else {
        insert_all(m, items.drop_last()).insert(items.last().0, items.last().1)
    }
}

impl ActiveLabels {
    pub closed spec fn wf(&self) -> bool {
        self.labels.wf()
    }

    /// The labels `items`, a later one replacing an earlier one with the
    /// same name.
    pub fn new(items: Vec<Label>) -> (r: ActiveLabels)
        ensures
            r.wf(),
            r@ == insert_all(Map::empty(), label_views(items@)),
    {
        let ghost iv = label_views(items@);
        let mut m = LabelMap::new();
        let mut i: usize = 0;
        while i < items.len()
            invariant
                i <= items.len(),
                iv == label_views(items@),
                m.wf(),
                m@ == insert_all(Map::empty(), iv.take(i as int)),
            decreases items.len() - i,
        {
            assert(iv.take(i + 1).drop_last() =~= iv.take(i as int));
            assert(iv.take(i + 1).last() == items@[i as int]@);
            m.insert(items[i].key.clone(), items[i].value.clone());
            i = i + 1;
        }
        assert(iv.take(i as int) =~= iv);
        ActiveLabels { labels: m }
    }

    /// The labels in name order.
    pub closed spec fn entries(&self) -> Seq<LabelView> {
        self.labels.entry_views()
    }

    /// The agent's, the collector's and the measure's labels, each later
    /// one overriding an earlier one with the same name; labels with empty
    /// values are left out.
    pub fn try_from(agent_labels: &Labels, collector_labels: &Labels, measure_labels: &Labels) -> (r: Result<ActiveLabels, AgentError>)
        ensures
            r matches Ok(a) && a.wf() && a@ == update_map(
                update_map(
                    update_map(Map::empty(), items_of(agent_labels@)),
                    items_of(collector_labels@),
                ),
                items_of(measure_labels@),
            ),
    {
        let mut m = LabelMap::new();
        agent_labels.update_map(&mut m);
        collector_labels.update_map(&mut m);
        measure_labels.update_map(&mut m);
        Ok(ActiveLabels { labels: m })
    }

    /// Sets the label's value, replacing a previous one.
    pub fn insert(&mut self, label: Label)
        requires
            old(self).wf(),
        ensures
            final(self).wf(),
            final(self)@ == old(self)@.insert(label.key@, label.value@),
    {
        self.labels.insert(label.key, label.value);
    }

    /// The value of the label `name`.
    pub fn get(&self, name: &String) -> (r: Option<&String>)
        requires
            self.wf(),
        ensures
            r is Some <==> self@.contains_key(name@),
            r matches Some(v) ==> v@ == self@[name@],
    {
        self.labels.get(name.as_str())
    }

    /// Whether `name` is a label that only carries the measure's name.
    pub fn is_virtual(name: &String) -> (r: bool)
        ensures
            r == (name@ == name_label()),
    {
        proof {
            reveal_strlit("__name__");
            assert("__name__"@ =~= name_label());
        }
        str_eq(name.as_str(), "__name__")
    }

    /// The measure with its name taken from `__name__` (unchanged when that
    /// label was dropped) and its labels replaced by the other labels here,
    /// in name order.
    pub fn to_measure(&self, measure: &Measure) -> (r: Measure)
        requires
            self.wf(),
        ensures
            r.name@ == (if self@.contains_key(name_label()) { self@[name_label()] } else { measure.name@ }),
            r.help@ == measure.help@,
            r.value == measure.value,
            r.labels@ == Some(self.entries().filter(|l: LabelView| l.0 != name_label())),
            r.timestamp == measure.timestamp,
    {
        proof {
            reveal_strlit("__name__");
            assert("__name__"@ =~= name_label());
        }
        let name = match self.labels.get("__name__") {
            Some(x) => x.clone(),
            None => measure.name.clone(),
        };
        let all = self.labels.entries();
        let ghost s = label_views(all@);
        let ghost p = |l: LabelView| l.0 != name_label();
        let mut kept: Vec<Label> = Vec::new();
        let mut i: usize = 0;
        while i < all.len()
            invariant
                i <= all.len(),
                s == label_views(all@),
                p == (|l: LabelView| l.0 != name_label()),
                label_views(kept@) == s.take(i as int).filter(p),
            decreases all.len() - i,
        {
            let virt = ActiveLabels::is_virtual(&all[i].key);
            proof {
                assert(s.take(i + 1).drop_last() =~= s.take(i as int));
                reveal(Seq::filter);
                assert(s[i as int].0 == all@[i as int].key@);
            }
            if !virt {
                let ghost k0 = kept@;
                kept.push(all[i].duplicate());
                assert(label_views(kept@) =~= label_views(k0).push(s[i as int]));
            }
            assert(label_views(kept@) =~= s.take(i + 1).filter(p));
            i = i + 1;
        }
        assert(s.take(s.len() as int) =~= s);
        Measure {
            name,
            help: measure.help.clone(),
            value: measure.value.duplicate(),
            labels: Labels::new(kept),
            timestamp: measure.timestamp,
        }
    }

    /// Keeps `__name__` and the labels whose name satisfies `keep`, which
    /// decides as `pred` does on the name's characters.
    pub fn retain<F: Fn(&String) -> bool>(&mut self, keep: F, Ghost(pred): Ghost<spec_fn(Seq<char>) -> bool>)
        requires
            old(self).wf(),
            forall|k: &String| #[trigger] keep.requires((k,)),
            forall|k: &String, b: bool| #[trigger] keep.ensures((k,), b) ==> b == pred(k@),
        ensures
            final(self).wf(),
            final(self).entries() == old(self).entries().filter(|l: LabelView| l.0 == name_label() || pred(l.0)),
    {
        let f = |name: &String| -> (b: bool)
            ensures
                b == (name@ == name_label() || pred(name@)),
            { ActiveLabels::is_virtual(name) || keep(name) };
        self.labels.retain(f, Ghost(|k: Seq<char>| k == name_label() || pred(k)));
        let ghost q = |k: Seq<char>| k == name_label() || pred(k);
        assert((|l: LabelView| q(l.0)) =~= (|l: LabelView| l.0 == name_label() || pred(l.0)));
    }
}

} // verus!
