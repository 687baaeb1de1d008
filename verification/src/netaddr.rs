//! IPv4 socket addresses (`a.b.c.d:port`) as the sender's settings write
//! them.
use vstd::prelude::*;
use crate::redis::{digits_value, is_digit};
use crate::text::chars_of;

verus! {

/// An IPv4 address and a port.
#[derive(Debug, Clone, Copy)]
pub struct SocketAddrV4 {
    pub ip: (u8, u8, u8, u8),
    pub port: u16,
}

/// End of the run of ASCII digits that starts at `i`.
pub open spec fn digit_end(s: Seq<char>, i: int) -> int
    decreases s.len() - i,
{
    if 0 <= i < s.len() && is_digit(s[i]) {
        digit_end(s, i + 1)
    } else {
        i
    }
}

/// The decimal number at `i` and where it ends: at least one digit, at
/// most `max_digits` of them when that is positive, no leading zero
/// unless `zero_prefix` allows it or the number is `0` itself, and a
/// value not above `limit`.
pub open spec fn number_at(s: Seq<char>, i: int, max_digits: int, zero_prefix: bool, limit: int) -> Option<(int, int)> {
    let e = digit_end(s, i);
    let d = s.subrange(i, e);
    if e == i || (max_digits > 0 && e - i > max_digits) || (!zero_prefix && e - i > 1 && s[i] == '0')
        || digits_value(d) > limit {
        None
    } else {
        Some((digits_value(d), e))
    }
}

/// An octet of the address at `i`, and where it ends.
pub open spec fn octet_at(s: Seq<char>, i: int) -> Option<(int, int)> {
    number_at(s, i, 3, false, 255)
}

/// The octet at `i`, which must follow a `.` at `i - 1`.
pub open spec fn dotted_octet_at(s: Seq<char>, i: int) -> Option<(int, int)> {
    if 0 < i <= s.len() && s[i - 1] == '.' {
        octet_at(s, i)
    } else {
        None
    }
}

/// The address written in `s`: four decimal octets separated by `.`,
/// then `:` and a decimal port, and nothing else.
pub open spec fn addr_of(s: Seq<char>) -> Option<SocketAddrV4> {
    match octet_at(s, 0) {
        None => None,
        Some((a, e1)) => match dotted_octet_at(s, e1 + 1) {
            None => None,
            Some((b, e2)) => match dotted_octet_at(s, e2 + 1) {
                None => None,
                Some((c, e3)) => match dotted_octet_at(s, e3 + 1) {
                    None => None,
                    Some((d, e4)) => if e4 < s.len() && s[e4] == ':' {
                        match number_at(s, e4 + 1, 0, true, 65535) {
                            Some((p, e5)) => if e5 == s.len() {
                                Some(SocketAddrV4 { ip: (a as u8, b as u8, c as u8, d as u8), port: p as u16 })
                            } else {
                                None
                            },
                            None => None,
                        }
                    } else {
                        None
                    },
                },
            },
        },
    }
}

fn digit_run_end(s: &[char], i: usize) -> (r: usize)
    requires
        i <= s.len(),
    ensures
        r == digit_end(s@, i as int),
        i <= r <= s.len(),
    decreases s.len() - i,
{
    if i < s.len() && '0' <= s[i] && s[i] <= '9' {
        digit_run_end(s, i + 1)
    } else {
        i
    }
}

proof fn lemma_digit_end_digits(s: Seq<char>, i: int, k: int)
    requires
        0 <= i <= k < digit_end(s, i),
    ensures
        is_digit(s[k]),
    decreases s.len() - i,
{
    if k > i {
        lemma_digit_end_digits(s, i + 1, k);
    }
}

proof fn lemma_digit_end_bound(s: Seq<char>, i: int)
    requires
        0 <= i <= s.len(),
    ensures
        i <= digit_end(s, i) <= s.len(),
    decreases s.len() - i,
{
    if i < s.len() && is_digit(s[i]) {
        lemma_digit_end_bound(s, i + 1);
    }
}

/// The number at `i` (see `number_at`).
fn read_number(s: &[char], i: usize, max_digits: usize, zero_prefix: bool, limit: u64) -> (r: Option<(u64, usize)>)
    requires
        i <= s.len(),
        limit <= 65535,
    ensures
        match number_at(s@, i as int, max_digits as int, zero_prefix, limit as int) {
            Some((v, e)) => r == Some((v as u64, e as usize)) && i <= e <= s.len() && 0 <= v <= limit,
            None => r.is_none(),
        },
{
    let e = digit_run_end(s, i);
    proof { lemma_digit_end_bound(s@, i as int); }
    if e == i || (max_digits > 0 && e - i > max_digits) || (!zero_prefix && e - i > 1 && s[i] == '0') {
        return None;
    }
    let ghost d = s@.subrange(i as int, e as int);
    let mut v: u64 = 0;
    let mut big = false;
    let mut k: usize = i;
    while k < e
        invariant
            i <= k <= e <= s.len(),
            e == digit_end(s@, i as int),
            limit <= 65535,
            !big ==> v as int == digits_value(s@.subrange(i as int, k as int)) && v <= limit,
            big ==> digits_value(s@.subrange(i as int, k as int)) > limit,
            digits_value(s@.subrange(i as int, k as int)) >= 0,
        decreases e - k,
    {
        proof {
            lemma_digit_end_digits(s@, i as int, k as int);
            assert(s@.subrange(i as int, k + 1).drop_last() =~= s@.subrange(i as int, k as int));
            assert(s@.subrange(i as int, k + 1).last() == s[k as int]);
        }
        if !big {
            let dgt = (s[k] as u32 - '0' as u32) as u64;
            let nv = v * 10 + dgt;
            if nv > limit {
                big = true;
            } else {
                v = nv;
            }
        }
        k = k + 1;
    }
    if big {
        None
    } else {
        Some((v, e))
    }
}

impl SocketAddrV4 {
    /// The address written in `text` (see `addr_of`), or `None`.
    pub fn parse(text: &str) -> (r: Option<SocketAddrV4>)
        ensures
            r == addr_of(text@),
    {
        let cs = chars_of(text);
        let s = cs.as_slice();
        let (a, e1) = match read_number(s, 0, 3, false, 255) {
            Some(x) => x,
            None => return None,
        };
        if e1 >= s.len() || s[e1] != '.' {
            return None;
        }
        let (b, e2) = match read_number(s, e1 + 1, 3, false, 255) {
            Some(x) => x,
            None => return None,
        };
        if e2 >= s.len() || s[e2] != '.' {
            return None;
        }
        let (c, e3) = match read_number(s, e2 + 1, 3, false, 255) {
            Some(x) => x,
            None => return None,
        };
        if e3 >= s.len() || s[e3] != '.' {
            return None;
        }
        let (d, e4) = match read_number(s, e3 + 1, 3, false, 255) {
            Some(x) => x,
            None => return None,
        };
        if e4 >= s.len() || s[e4] != ':' {
            return None;
        }
        let (p, e5) = match read_number(s, e4 + 1, 0, true, 65535) {
            Some(x) => x,
            None => return None,
        };
        if e5 != s.len() {
            return None;
        }
        assert(octet_at(s@, 0) == Some((a as int, e1 as int)));
        assert(dotted_octet_at(s@, e1 + 1) == Some((b as int, e2 as int)));
        assert(dotted_octet_at(s@, e2 + 1) == Some((c as int, e3 as int)));
        assert(dotted_octet_at(s@, e3 + 1) == Some((d as int, e4 as int)));
        assert(number_at(s@, e4 + 1, 0, true, 65535) == Some((p as int, e5 as int)));
        Some(SocketAddrV4 { ip: (a as u8, b as u8, c as u8, d as u8), port: p as u16 })
    }
}

} // verus!
