//! The MySQL collector: the gauges of `SHOW GLOBAL STATUS`.
use vstd::prelude::*;
use crate::label::{LabelView, Labels};
use crate::measure::{Measure, Value};
use crate::memory::{lowercase, lowercase_of};
use crate::redis::digits_value;
use crate::text::{chars_of, push_str, string_of};

verus! {

/// The unsigned number `s` writes: an optional `+`, then one or more
/// ASCII digits whose value fits a `u64` (as `u64`'s `FromStr` reads it).
pub open spec fn u64_text(s: Seq<char>) -> Option<u64> {
    let d = unsigned_digits(s);
    if d.len() > 0 && all_digits(d) && digits_value(d) <= u64::MAX {
        Some(digits_value(d) as u64)
    } else {
        None
    }
}

/// The text after an optional leading `+`.
pub open spec fn unsigned_digits(s: Seq<char>) -> Seq<char> {
    if s.len() > 0 && s[0] == '+' {
        s.drop_first()
    } else {
        s
    }
}

/// Every character is an ASCII digit.
pub open spec fn all_digits(d: Seq<char>) -> bool {
    forall|i: int| 0 <= i < d.len() ==> '0' <= #[trigger] d[i] <= '9'
}

/// The number `s` writes (see `u64_text`).
pub fn parse_u64(s: &str) -> (r: Option<u64>)
    ensures
        r == u64_text(s@),
{
    let cs = chars_of(s);
    let start: usize = if cs.len() > 0 && cs[0] == '+' { 1 } else { 0 };
    let ghost d = unsigned_digits(s@);
    assert(d =~= cs@.subrange(start as int, cs.len() as int));
    if start == cs.len() {
        return None;
    }
    let mut v: u64 = 0;
    let mut i: usize = start;
    while i < cs.len()
        invariant
            start <= i <= cs.len(),
            start < cs.len(),
            d == cs@.subrange(start as int, cs.len() as int),
            d == unsigned_digits(s@),
            forall|j: int| start <= j < i ==> '0' <= #[trigger] cs@[j] <= '9',
            v as int == digits_value(cs@.subrange(start as int, i as int)),
        decreases cs.len() - i,
    {
        let c = cs[i];
        if c < '0' || c > '9' {
            proof {
                let k = (i - start) as int;
                assert(d[k] == c);
                assert(!('0' <= d[k] <= '9'));
                assert(!all_digits(d));
            }
            return None;
        }
        let dg = (c as u32 - '0' as u32) as u64;
        assert(cs@.subrange(start as int, i + 1).drop_last() =~= cs@.subrange(start as int, i as int));
        if v > (u64::MAX - dg) / 10 {
            proof {
                let p = cs@.subrange(start as int, i + 1);
                assert(p =~= d.take(p.len() as int));
                if all_digits(d) {
                    lemma_digits_value_grows(p, d);
                }
            }
            return None;
        }
        v = v * 10 + dg;
        i = i + 1;
    }
    assert(cs@.subrange(start as int, i as int) =~= d);
    Some(v)
}

/// A longer run of digits is worth at least as much as its prefix.
proof fn lemma_digits_value_grows(p: Seq<char>, d: Seq<char>)
    requires
        p.len() <= d.len(),
        p == d.take(p.len() as int),
        forall|i: int| 0 <= i < d.len() ==> '0' <= #[trigger] d[i] <= '9',
    ensures
        digits_value(p) <= digits_value(d),
    decreases d.len() - p.len(),
{
    if p.len() < d.len() {
        let q = d.take(p.len() as int + 1);
        assert(q.drop_last() =~= p);
        assert(q.last() == d[p.len() as int]);
        assert forall|i: int| 0 <= i < p.len() implies '0' <= #[trigger] p[i] <= '9' by {
            assert(p[i] == d[i]);
        }
        lemma_digits_value_nonneg(p);
        assert(q =~= d.take(q.len() as int));
        lemma_digits_value_grows(q, d);
    } else {
        assert(p =~= d);
    }
}

proof fn lemma_digits_value_nonneg(p: Seq<char>)
    requires
        forall|i: int| 0 <= i < p.len() ==> '0' <= #[trigger] p[i] <= '9',
    ensures
        digits_value(p) >= 0,
    decreases p.len(),
{
    if p.len() > 0 {
        assert(p[p.len() - 1] == p.last());
        lemma_digits_value_nonneg(p.drop_last());
    }
}

/// The gauge of a status variable whose value is an unsigned number:
/// `mysql_` and the variable's name in lower case, with no help or labels;
/// `None` for other variables.
pub fn status_measure(name: &str, value: &str) -> (r: Option<Measure>)
    ensures
        match u64_text(value@) {
            None => r.is_none(),
            Some(v) => r matches Some(m) && m.name@ == "mysql_"@ + lowercase_of(name@) && m.help@.len() == 0
                && m.value == Value::Gauge(v) && m.labels@ == None::<Seq<LabelView>> && m.timestamp.is_none(),
        },
{
    match parse_u64(value) {
        Some(v) => {
            let mut out: Vec<char> = Vec::new();
            push_str(&mut out, "mysql_");
            let lower = lowercase(name);
            push_str(&mut out, lower.as_str());
            Some(Measure {
                name: string_of(out.as_slice()),
                help: String::new(),
                value: Value::Gauge(v),
                labels: Labels::default(),
                timestamp: None,
            })
        },
        None => None,
    }
}

} // verus!
