//! Packet models of the TWAMP sender: the size of each test packet and
//! the pause before the next one.
use vstd::prelude::*;
use crate::error::AgentError;
use crate::text::{push_str, str_eq, string_of};

verus! {

/// Nanoseconds in a second.
pub const NS: u64 = 1_000_000_000;

/// A packet to send.
#[derive(Debug, PartialEq, Eq, Structural)]
pub struct Packet {
    pub seq: u64,
    pub size: usize,
    /// Nanoseconds to wait before the next packet.
    pub next_ns: u64,
}

/// Settings of the constant bitrate model.
pub struct CbrConfig {
    /// Bits per second.
    pub bandwidth: usize,
    /// Packet size in octets.
    pub size: usize,
}

/// Settings of the IMIX model.
pub struct ImixConfig {
    /// Bits per second.
    pub bandwidth: usize,
}

/// Packets of one size at a constant bitrate.
#[derive(Debug, Copy, Clone)]
pub struct CbrModel {
    pub size: usize,
    pub next_ns: u64,
}

/// G.729 voice: 60-octet packets, 50 per second.
#[derive(Debug, Copy, Clone)]
pub struct G729Model;

/// The simple IMIX mix: per round of twelve packets, seven of 70 octets
/// (64 padded to hold a TWAMP reply), four of 576 and one of 1500.
#[derive(Debug, Copy, Clone)]
pub struct ImixModel {
    pub next_ns: u64,
}

pub const IMIX1: usize = 70;
pub const IMIX1_COUNT: usize = 7;
pub const IMIX2: usize = 576;
pub const IMIX2_COUNT: usize = 4;
pub const IMIX3: usize = 1500;
pub const IMIX3_COUNT: usize = 1;
pub const IMIX_SAMPLE_COUNT: usize = 12;
/// Bits in one round of the mix.
pub const IMIX_ROUND: u64 = 34352;

/// The sizes of one IMIX round, in sending order.
pub open spec fn imix_sample() -> Seq<usize> {
    seq![IMIX1, IMIX2, IMIX1, IMIX2, IMIX1, IMIX2, IMIX1, IMIX2, IMIX1, IMIX1, IMIX1, IMIX3]
}

/// The IMIX round, as a table.
fn imix_table() -> (r: Vec<usize>)
    ensures
        r@ == imix_sample(),
{
    let r = vec![IMIX1, IMIX2, IMIX1, IMIX2, IMIX1, IMIX2, IMIX1, IMIX2, IMIX1, IMIX1, IMIX1, IMIX3];
    assert(r@ =~= imix_sample());
    r
}

impl CbrModel {
    /// The model for the settings: packets of the given size, spaced so
    /// that the bitrate is met (in whole packets per second).
    pub fn try_from(cfg: &CbrConfig) -> (r: Result<CbrModel, AgentError>)
        requires
            cfg.size > 0,
            cfg.size * 8 <= usize::MAX,
            cfg.bandwidth >= cfg.size * 8,
        ensures
            r matches Ok(m) && m.size == cfg.size && m.next_ns as int == NS as int / (cfg.bandwidth as int / (cfg.size as int * 8)),
    {
        let per_sec = cfg.bandwidth / (cfg.size * 8);
        assert(per_sec >= 1) by (nonlinear_arith)
            requires
                per_sec as int == cfg.bandwidth as int / (cfg.size as int * 8),
                cfg.bandwidth as int >= cfg.size as int * 8,
                cfg.size as int * 8 > 0,
        ;
        Ok(CbrModel { size: cfg.size, next_ns: NS / (per_sec as u64) })
    }

    /// The packet with number `seq`.
    pub fn get_packet(&self, seq: u64) -> (r: Packet)
        ensures
            r == (Packet { seq, size: self.size, next_ns: self.next_ns }),
    {
        Packet { seq, size: self.size, next_ns: self.next_ns }
    }
}

impl G729Model {
    /// The model; it has no settings.
    pub fn try_from() -> (r: Result<G729Model, AgentError>)
        ensures
            r is Ok,
    {
        Ok(G729Model)
    }

    /// The packet with number `seq`: 60 octets (20 of payload, 8 of UDP,
    /// 12 of RTP and 20 of IP), 20 ms apart.
    pub fn get_packet(&self, seq: u64) -> (r: Packet)
        ensures
            r == (Packet { seq, size: 60, next_ns: NS / 50 }),
    {
        Packet { seq, size: 20 + 8 + 12 + 20, next_ns: NS / 50 }
    }
}

impl ImixModel {
    /// The model for the settings: packets spaced so that a round of the
    /// mix takes the time the bandwidth allows.
    pub fn try_from(cfg: &ImixConfig) -> (r: Result<ImixModel, AgentError>)
        requires
            cfg.bandwidth > 0,
            cfg.bandwidth * IMIX_SAMPLE_COUNT <= usize::MAX,
        ensures
            r matches Ok(m) && m.next_ns as int == (NS as int * IMIX_ROUND as int) / (cfg.bandwidth as int * IMIX_SAMPLE_COUNT as int),
    {
        let per_round = cfg.bandwidth * IMIX_SAMPLE_COUNT;
        Ok(ImixModel { next_ns: NS * IMIX_ROUND / (per_round as u64) })
    }

    /// The packet with number `seq`: its size cycles through the IMIX round.
    pub fn get_packet(&self, seq: u64) -> (r: Packet)
        ensures
            r == (Packet { seq, size: imix_sample()[(seq % (IMIX_SAMPLE_COUNT as u64)) as int], next_ns: self.next_ns }),
    {
        let t = imix_table();
        let i = (seq % (IMIX_SAMPLE_COUNT as u64)) as usize;
        Packet { seq, size: t[i], next_ns: self.next_ns }
    }
}

/// The packet models a TWAMP sender can use.
#[derive(Debug, Copy, Clone)]
pub enum PacketModel {
    G729(G729Model),
    Cbr(CbrModel),
    Imix(ImixModel),
}

/// The kinds of packet models, by name.
#[derive(Debug, Copy, Clone, PartialEq, Eq, Structural)]
pub enum ModelKind {
    G711,
    G729,
    Cbr,
    Imix,
}

/// The model named `name`, or `None`.
pub open spec fn model_kind(name: Seq<char>) -> Option<ModelKind> {
    if name == "g711"@ {
        Some(ModelKind::G711)
    } else if name == "g729"@ {
        Some(ModelKind::G729)
    } else if name == "cbr"@ {
        Some(ModelKind::Cbr)
    } else if name == "imix"@ {
        Some(ModelKind::Imix)
    } else {
        None
    }
}

impl PacketModel {
    /// The kind of model named `model`; any other name is a
    /// `ConfigurationError` that names it.
    pub fn kind_of(model: &str) -> (r: Result<ModelKind, AgentError>)
        ensures
            match model_kind(model@) {
                Some(k) => r == Ok::<ModelKind, AgentError>(k),
                None => r matches Err(AgentError::ConfigurationError(m)) && m@ == "Invalid model: "@ + model@,
            },
    {
        if str_eq(model, "g711") {
            Ok(ModelKind::G711)
        } else if str_eq(model, "g729") {
            Ok(ModelKind::G729)
        } else if str_eq(model, "cbr") {
            Ok(ModelKind::Cbr)
        } else if str_eq(model, "imix") {
            Ok(ModelKind::Imix)
        } else {
            let mut out: Vec<char> = Vec::new();
            push_str(&mut out, "Invalid model: ");
            push_str(&mut out, model);
            Err(AgentError::ConfigurationError(string_of(out.as_slice())))
        }
    }

    /// The packet with number `seq` under the model.
    pub fn get_packet(&self, seq: u64) -> (r: Packet)
        ensures
            r == (match *self {
                PacketModel::G729(_) => Packet { seq, size: 60, next_ns: NS / 50 },
                PacketModel::Cbr(m) => Packet { seq, size: m.size, next_ns: m.next_ns },
                PacketModel::Imix(m) => Packet {
                    seq,
                    size: imix_sample()[(seq % (IMIX_SAMPLE_COUNT as u64)) as int],
                    next_ns: m.next_ns,
                },
            }),
    {
        match self {
            PacketModel::G729(m) => m.get_packet(seq),
            PacketModel::Cbr(m) => m.get_packet(seq),
            PacketModel::Imix(m) => m.get_packet(seq),
        }
    }
}


/// The octets of a sequence of packet sizes.
pub open spec fn octets(s: Seq<usize>) -> int
    decreases s.len(),
{
    if s.len() == 0 {
        0
    } else {
        octets(s.drop_last()) + s.last()
    }
}

/// The bits of an IMIX round are `IMIX_ROUND`: seven packets of 70
/// octets, four of 576 and one of 1500; the sizes repeat every round.
pub proof fn lemma_imix_round(seq: u64)
    requires
        seq <= u64::MAX - 12,
    ensures
        octets(imix_sample()) * 8 == IMIX_ROUND,
        imix_sample()[(seq as int + 12) % 12] == imix_sample()[seq as int % 12],
{
    let s = imix_sample();
    assert(octets(s.take(0)) == 0) by {
        assert(s.take(0) =~= Seq::<usize>::empty());
    }
    assert forall|k: int| 1 <= k <= 12 implies octets(#[trigger] s.take(k)) == octets(s.take(k - 1)) + s[k - 1] by {
        assert(s.take(k).drop_last() =~= s.take(k - 1));
    }
    assert(octets(s.take(1)) == 70);
    assert(octets(s.take(2)) == 646);
    assert(octets(s.take(3)) == 716);
    assert(octets(s.take(4)) == 1292);
    assert(octets(s.take(5)) == 1362);
    assert(octets(s.take(6)) == 1938);
    assert(octets(s.take(7)) == 2008);
    assert(octets(s.take(8)) == 2584);
    assert(octets(s.take(9)) == 2654);
    assert(octets(s.take(10)) == 2724);
    assert(octets(s.take(11)) == 2794);
    assert(octets(s.take(12)) == 4294);
    assert(s.take(12) =~= s);
}


/// How many of the sizes in `s` equal `v`.
pub open spec fn count_of(s: Seq<usize>, v: usize) -> nat
    decreases s.len(),
{
    if s.len() == 0 {
        0
    } else {
        count_of(s.drop_last(), v) + if s.last() == v { 1nat } else { 0nat }
    }
}

/// The sizes of the twelve packets numbered from `start` on.
pub open spec fn imix_window(start: int) -> Seq<usize> {
    Seq::new(12, |k: int| imix_sample()[(start + k) % 12])
}

proof fn lemma_concat(a: Seq<usize>, b: Seq<usize>, v: usize)
    ensures
        count_of(a + b, v) == count_of(a, v) + count_of(b, v),
        octets(a + b) == octets(a) + octets(b),
    decreases b.len(),
{
    if b.len() == 0 {
        assert(a + b =~= a);
    } else {
        lemma_concat(a, b.drop_last(), v);
        assert((a + b).drop_last() =~= a + b.drop_last());
    }
}

/// Any twelve consecutive packets of the IMIX model hold seven packets of
/// 70 octets, four of 576 and one of 1500: 4294 octets in all.
pub proof fn lemma_imix_window(start: u64)
    ensures
        imix_window(start as int).len() == 12,
        count_of(imix_window(start as int), IMIX1) == 7,
        count_of(imix_window(start as int), IMIX2) == 4,
        count_of(imix_window(start as int), IMIX3) == 1,
        octets(imix_window(start as int)) == 4294,
{
    let s = imix_sample();
    let r = start as int % 12;
    let w = imix_window(start as int);
    assert forall|k: int| 0 <= k < 12 implies #[trigger] w[k] == (s.skip(r) + s.take(r))[k] by {
        assert((start as int + k) % 12 == (r + k) % 12) by (nonlinear_arith)
            requires
                r == start as int % 12,
                0 <= k,
        ;
        if r + k < 12 {
            assert((r + k) % 12 == r + k);
        } else {
            assert((r + k) % 12 == r + k - 12);
        }
    }
    assert(w =~= s.skip(r) + s.take(r));
    assert(s.take(r) + s.skip(r) =~= s);
    lemma_concat(s.skip(r), s.take(r), IMIX1);
    lemma_concat(s.take(r), s.skip(r), IMIX1);
    lemma_concat(s.skip(r), s.take(r), IMIX2);
    lemma_concat(s.take(r), s.skip(r), IMIX2);
    lemma_concat(s.skip(r), s.take(r), IMIX3);
    lemma_concat(s.take(r), s.skip(r), IMIX3);
    lemma_imix_round(0);
    assert(s.take(0) =~= Seq::<usize>::empty());
    assert forall|k: int, v: usize| 1 <= k <= 12 implies #[trigger] count_of(s.take(k), v)
        == count_of(s.take(k - 1), v) + if s[k - 1] == v { 1nat } else { 0nat } by {
        assert(s.take(k).drop_last() =~= s.take(k - 1));
    }
    assert(count_of(s.take(1), IMIX1) == 1 && count_of(s.take(1), IMIX2) == 0 && count_of(s.take(1), IMIX3) == 0);
    assert(count_of(s.take(2), IMIX1) == 1 && count_of(s.take(2), IMIX2) == 1 && count_of(s.take(2), IMIX3) == 0);
    assert(count_of(s.take(3), IMIX1) == 2 && count_of(s.take(3), IMIX2) == 1 && count_of(s.take(3), IMIX3) == 0);
    assert(count_of(s.take(4), IMIX1) == 2 && count_of(s.take(4), IMIX2) == 2 && count_of(s.take(4), IMIX3) == 0);
    assert(count_of(s.take(5), IMIX1) == 3 && count_of(s.take(5), IMIX2) == 2 && count_of(s.take(5), IMIX3) == 0);
    assert(count_of(s.take(6), IMIX1) == 3 && count_of(s.take(6), IMIX2) == 3 && count_of(s.take(6), IMIX3) == 0);
    assert(count_of(s.take(7), IMIX1) == 4 && count_of(s.take(7), IMIX2) == 3 && count_of(s.take(7), IMIX3) == 0);
    assert(count_of(s.take(8), IMIX1) == 4 && count_of(s.take(8), IMIX2) == 4 && count_of(s.take(8), IMIX3) == 0);
    assert(count_of(s.take(9), IMIX1) == 5 && count_of(s.take(9), IMIX2) == 4 && count_of(s.take(9), IMIX3) == 0);
    assert(count_of(s.take(10), IMIX1) == 6 && count_of(s.take(10), IMIX2) == 4 && count_of(s.take(10), IMIX3) == 0);
    assert(count_of(s.take(11), IMIX1) == 7 && count_of(s.take(11), IMIX2) == 4 && count_of(s.take(11), IMIX3) == 0);
    assert(count_of(s.take(12), IMIX1) == 7 && count_of(s.take(12), IMIX2) == 4 && count_of(s.take(12), IMIX3) == 1);
    assert(s.take(12) =~= s);
}

} // verus!
