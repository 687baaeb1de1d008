//! Measures taken by collectors.
use vstd::prelude::*;
use crate::label::{Labels, LabelView, items_of};
use crate::text::{dec_str, dec_str_int, push_dec, push_dec_signed, push_str, string_of};

verus! {

/// The value of a measure. Floating-point values are carried as the
/// decimal text that `f32`'s `Display` gives for them.
#[derive(Debug, Clone, PartialEq, Eq)]
pub enum Value {
    Counter(u64),
    CounterF(String),
    Gauge(u64),
    GaugeI(i64),
    GaugeF(String),
}

/// The text of a value as it is written out.
pub open spec fn value_text(v: Value) -> Seq<char> {
    match v {
        Value::Counter(x) => dec_str(x as nat),
        Value::CounterF(t) => t@,
        Value::Gauge(x) => dec_str(x as nat),
        Value::GaugeI(x) => dec_str_int(x as int),
        Value::GaugeF(t) => t@,
    }
}

impl Value {
    /// The text of the value: decimal for integers, the carried text for floats.
    pub fn to_string(&self) -> (r: String)
        ensures
            r@ == value_text(*self),
    {
        let mut out: Vec<char> = Vec::new();
        self.write(&mut out);
        assert(out@ =~= value_text(*self));
        string_of(out.as_slice())
    }

    /// Appends the text of the value to `out`.
    pub fn write(&self, out: &mut Vec<char>)
        ensures
            final(out)@ == old(out)@ + value_text(*self),
    {
        match self {
            Value::Counter(x) => push_dec(out, *x),
            Value::CounterF(t) => push_str(out, t.as_str()),
            Value::Gauge(x) => push_dec(out, *x),
            Value::GaugeI(x) => push_dec_signed(out, *x),
            Value::GaugeF(t) => push_str(out, t.as_str()),
        }
    }

    /// A copy of the value.
    pub fn duplicate(&self) -> (r: Value)
        ensures
            r == *self,
    {
        match self {
            Value::Counter(x) => Value::Counter(*x),
            Value::CounterF(t) => Value::CounterF(t.clone()),
            Value::Gauge(x) => Value::Gauge(*x),
            Value::GaugeI(x) => Value::GaugeI(*x),
            Value::GaugeF(t) => Value::GaugeF(t.clone()),
        }
    }
}

/// Whether a value is a counter (as opposed to a gauge).
pub open spec fn is_counter(v: Value) -> bool {
    v is Counter || v is CounterF
}

/// One measure: a named value with labels and an optional timestamp.
#[derive(Debug)]
pub struct Measure {
    pub name: String,
    pub help: String,
    pub value: Value,
    pub labels: Labels,
    pub timestamp: Option<u64>,
}


impl Measure {
    /// A counter.
    pub fn counter(name: &str, help: &str, v: u64, labels: Labels) -> (m: Measure)
        ensures
            m.name@ == name@ && m.help@ == help@ && m.value == Value::Counter(v) && m.labels@ == labels@
                && m.timestamp.is_none(),
    {
        Measure { name: name.to_owned(), help: help.to_owned(), value: Value::Counter(v), labels, timestamp: None }
    }

    /// A floating-point counter, carried as its text.
    pub fn counter_f(name: &str, help: &str, v: String, labels: Labels) -> (m: Measure)
        ensures
            m.name@ == name@ && m.help@ == help@ && m.value == Value::CounterF(v) && m.labels@ == labels@
                && m.timestamp.is_none(),
    {
        Measure { name: name.to_owned(), help: help.to_owned(), value: Value::CounterF(v), labels, timestamp: None }
    }

    /// A gauge.
    pub fn gauge(name: &str, help: &str, v: u64, labels: Labels) -> (m: Measure)
        ensures
            m.name@ == name@ && m.help@ == help@ && m.value == Value::Gauge(v) && m.labels@ == labels@
                && m.timestamp.is_none(),
    {
        Measure { name: name.to_owned(), help: help.to_owned(), value: Value::Gauge(v), labels, timestamp: None }
    }

    /// A signed gauge.
    pub fn gauge_i(name: &str, help: &str, v: i64, labels: Labels) -> (m: Measure)
        ensures
            m.name@ == name@ && m.help@ == help@ && m.value == Value::GaugeI(v) && m.labels@ == labels@
                && m.timestamp.is_none(),
    {
        Measure { name: name.to_owned(), help: help.to_owned(), value: Value::GaugeI(v), labels, timestamp: None }
    }

    /// A floating-point gauge, carried as its text.
    pub fn gauge_f(name: &str, help: &str, v: String, labels: Labels) -> (m: Measure)
        ensures
            m.name@ == name@ && m.help@ == help@ && m.value == Value::GaugeF(v) && m.labels@ == labels@
                && m.timestamp.is_none(),
    {
        Measure { name: name.to_owned(), help: help.to_owned(), value: Value::GaugeF(v), labels, timestamp: None }
    }
}

/// Whether `ms` holds a measure named `name` with the value `v`.
pub open spec fn reports(ms: Seq<Measure>, name: Seq<char>, v: Value) -> bool {
    exists|i: int| 0 <= i < ms.len() && (#[trigger] ms[i]).name@ == name && ms[i].value == v
}

} // verus!
