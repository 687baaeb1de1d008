//! Serial line settings of the Modbus RTU collector.
use vstd::prelude::*;
use crate::error::AgentError;
use crate::label::{LabelMap, LabelView, Labels};
use crate::text::{dec_str, push_dec, push_str, string_of};

verus! {

pub const DEFAULT_BAUD_RATE: u32 = 115_200;
pub const DEFAULT_DATA_BITS: usize = 8;
pub const DEFAULT_STOP_BITS: usize = 1;

/// Parity as configurations write it.
#[derive(Debug, Clone, Copy, PartialEq, Eq, Structural)]
pub enum CfgParity {
    NoParity,
    Odd,
    Even,
}

/// Bits per character on the line.
#[derive(Debug, Clone, Copy, PartialEq, Eq, Structural)]
pub enum DataBits {
    Five,
    Six,
    Seven,
    Eight,
}

/// Parity checking on the line.
#[derive(Debug, Clone, Copy, PartialEq, Eq, Structural)]
pub enum Parity {
    NoParity,
    Odd,
    Even,
}

/// Stop bits on the line.
#[derive(Debug, Clone, Copy, PartialEq, Eq, Structural)]
pub enum StopBits {
    One,
    Two,
}

/// Which registers an item reads.
#[derive(Debug, Clone, Copy, PartialEq, Eq, Structural)]
pub enum RegisterType {
    Holding,
    Input,
    Coil,
}

/// Settings that items leave out.
pub struct ConfigDefaults {
    pub serial_path: Option<String>,
    pub slave: Option<u8>,
    pub baud_rate: u32,
    pub data_bits: usize,
    pub parity: CfgParity,
    pub stop_bits: usize,
}

impl Default for ConfigDefaults {
    fn default() -> (r: ConfigDefaults)
        ensures
            r.serial_path.is_none(),
            r.slave.is_none(),
            r.baud_rate == DEFAULT_BAUD_RATE,
            r.data_bits == DEFAULT_DATA_BITS,
            r.parity == CfgParity::NoParity,
            r.stop_bits == DEFAULT_STOP_BITS,
    {
        ConfigDefaults {
            serial_path: None,
            slave: None,
            baud_rate: default_baud_rate(),
            data_bits: default_data_bits(),
            parity: default_parity(),
            stop_bits: default_stop_bits(),
        }
    }
}

/// The line settings of one configured register read.
pub struct CollectorConfigItem {
    pub name: String,
    pub help: String,
    pub labels: Option<LabelMap>,
    pub serial_path: Option<String>,
    pub slave: Option<u8>,
    pub baud_rate: Option<u32>,
    /// 5, 6, 7 or 8.
    pub data_bits: Option<usize>,
    pub parity: Option<CfgParity>,
    /// 1 or 2.
    pub stop_bits: Option<usize>,
    pub register: u16,
    pub register_type: RegisterType,
}

/// One register read with its line settings resolved.
pub struct CollectorItem {
    pub name: String,
    pub help: String,
    pub labels: Labels,
    pub serial_path: String,
    pub slave: u8,
    pub baud_rate: u32,
    pub data_bits: DataBits,
    pub parity: Parity,
    pub stop_bits: StopBits,
    pub register: u16,
    pub register_type: RegisterType,
}

pub open spec fn data_bits_of(n: usize) -> Option<DataBits> {
    if n == 5 {
        Some(DataBits::Five)
    } else if n == 6 {
        Some(DataBits::Six)
    } else if n == 7 {
        Some(DataBits::Seven)
    } else if n == 8 {
        Some(DataBits::Eight)
    } else {
        None
    }
}

pub open spec fn stop_bits_of(n: usize) -> Option<StopBits> {
    if n == 1 {
        Some(StopBits::One)
    } else if n == 2 {
        Some(StopBits::Two)
    } else {
        None
    }
}

pub open spec fn parity_of(p: CfgParity) -> Parity {
    match p {
        CfgParity::NoParity => Parity::NoParity,
        CfgParity::Odd => Parity::Odd,
        CfgParity::Even => Parity::Even,
    }
}

/// The item's setting, or the default's.
pub open spec fn or_default<T>(v: Option<T>, d: T) -> T {
    match v {
        Some(x) => x,
        None => d,
    }
}

/// Why an item's settings are refused, checked in this order: no serial
/// path, no slave, bad data bits, bad stop bits.
pub open spec fn item_error(c: CollectorConfigItem, d: ConfigDefaults) -> Option<Seq<char>> {
    if c.serial_path.is_none() && d.serial_path.is_none() {
        Some("serial_path is not set"@)
    } else if c.slave.is_none() && d.slave.is_none() {
        Some("slave is not set"@)
    } else if data_bits_of(or_default(c.data_bits, d.data_bits)).is_none() {
        Some("invalid data_bits"@)
    } else if stop_bits_of(or_default(c.stop_bits, d.stop_bits)).is_none() {
        Some("invalid stop_bits"@)
    } else {
        None
    }
}

pub open spec fn labels_config_view(l: Option<LabelMap>) -> Option<Seq<LabelView>> {
    match l {
        Some(m) => Some(m.entry_views()),
        None => None,
    }
}

/// The item's settings resolved against the defaults.
pub open spec fn resolved(c: CollectorConfigItem, d: ConfigDefaults, it: CollectorItem) -> bool {
    &&& it.name@ == c.name@
    &&& it.help@ == c.help@
    &&& it.labels@ == labels_config_view(c.labels)
    &&& it.serial_path@ == (match c.serial_path {
        Some(p) => p@,
        None => d.serial_path.unwrap()@,
    })
    &&& it.slave == or_default(c.slave, d.slave.unwrap_or(0))
    &&& it.baud_rate == or_default(c.baud_rate, d.baud_rate)
    &&& Some(it.data_bits) == data_bits_of(or_default(c.data_bits, d.data_bits))
    &&& it.parity == parity_of(or_default(c.parity, d.parity))
    &&& Some(it.stop_bits) == stop_bits_of(or_default(c.stop_bits, d.stop_bits))
    &&& it.register == c.register
    &&& it.register_type == c.register_type
}

impl CollectorItem {
    /// The item's settings, each taken from the item where it sets it and
    /// from the defaults otherwise; refused settings are a `ParseError`
    /// with the message of `item_error`.
    pub fn from_config(c: &CollectorConfigItem, defaults: &ConfigDefaults) -> (r: Result<CollectorItem, AgentError>)
        requires
            c.labels matches Some(m) ==> m.wf(),
        ensures
            match item_error(*c, *defaults) {
                Some(m) => r matches Err(AgentError::ParseError(e)) && e@ == m,
                None => r matches Ok(it) && resolved(*c, *defaults, it),
            },
    {
        let serial_path = match &c.serial_path {
            Some(x) => x.clone(),
            None => match &defaults.serial_path {
                Some(x) => x.clone(),
                None => return Err(AgentError::ParseError("serial_path is not set".to_owned())),
            },
        };
        let slave = match c.slave {
            Some(x) => x,
            None => match defaults.slave {
                Some(x) => x,
                None => return Err(AgentError::ParseError("slave is not set".to_owned())),
            },
        };
        let db = match c.data_bits {
            Some(x) => x,
            None => defaults.data_bits,
        };
        let data_bits = if db == 5 {
            DataBits::Five
        } else if db == 6 {
            DataBits::Six
        } else if db == 7 {
            DataBits::Seven
        } else if db == 8 {
            DataBits::Eight
        } else {
            return Err(AgentError::ParseError("invalid data_bits".to_owned()));
        };
        let baud_rate = match c.baud_rate {
            Some(x) => x,
            None => defaults.baud_rate,
        };
        let parity = match match c.parity {
            Some(p) => p,
            None => defaults.parity,
        } {
            CfgParity::NoParity => Parity::NoParity,
            CfgParity::Odd => Parity::Odd,
            CfgParity::Even => Parity::Even,
        };
        let sb = match c.stop_bits {
            Some(x) => x,
            None => defaults.stop_bits,
        };
        let stop_bits = if sb == 1 {
            StopBits::One
        } else if sb == 2 {
            StopBits::Two
        } else {
            return Err(AgentError::ParseError("invalid stop_bits".to_owned()));
        };
        Ok(CollectorItem {
            name: c.name.clone(),
            help: c.help.clone(),
            labels: Labels::from_config(&c.labels),
            serial_path,
            slave,
            baud_rate,
            data_bits,
            parity,
            stop_bits,
            register: c.register,
            register_type: c.register_type,
        })
    }

    /// The line settings as text: `path@baud (bits parity stop)`, such as
    /// `/dev/ttyS0@115200 (8N1)`.
    pub fn serial_settings(&self) -> (r: String)
        ensures
            r@ == serial_text(self.serial_path@, self.baud_rate, self.data_bits, self.parity, self.stop_bits),
    {
        let mut out: Vec<char> = Vec::new();
        push_str(&mut out, self.serial_path.as_str());
        out.push('@');
        push_dec(&mut out, self.baud_rate as u64);
        out.push(' ');
        out.push('(');
        let db: u64 = match self.data_bits {
            DataBits::Five => 5,
            DataBits::Six => 6,
            DataBits::Seven => 7,
            DataBits::Eight => 8,
        };
        push_dec(&mut out, db);
        let p = match self.parity {
            Parity::NoParity => 'N',
            Parity::Even => 'E',
            Parity::Odd => 'O',
        };
        out.push(p);
        let sb: u64 = match self.stop_bits {
            StopBits::One => 1,
            StopBits::Two => 2,
        };
        push_dec(&mut out, sb);
        out.push(')');
        assert(out@ =~= serial_text(self.serial_path@, self.baud_rate, self.data_bits, self.parity, self.stop_bits));
        string_of(out.as_slice())
    }
}

pub open spec fn data_bits_count(d: DataBits) -> nat {
    match d {
        DataBits::Five => 5,
        DataBits::Six => 6,
        DataBits::Seven => 7,
        DataBits::Eight => 8,
    }
}

pub open spec fn parity_char(p: Parity) -> char {
    match p {
        Parity::NoParity => 'N',
        Parity::Even => 'E',
        Parity::Odd => 'O',
    }
}

pub open spec fn stop_bits_count(s: StopBits) -> nat {
    match s {
        StopBits::One => 1,
        StopBits::Two => 2,
    }
}

pub open spec fn serial_text(path: Seq<char>, baud: u32, d: DataBits, p: Parity, s: StopBits) -> Seq<char> {
    path + seq!['@'] + dec_str(baud as nat) + seq![' ', '('] + dec_str(data_bits_count(d)) + seq![parity_char(p)]
        + dec_str(stop_bits_count(s)) + seq![')']
}

/// The defaults of a configuration, or the built-in ones where it has none.
pub open spec fn effective_defaults(defaults: Option<ConfigDefaults>) -> ConfigDefaults {
    match defaults {
        Some(x) => x,
        None => ConfigDefaults {
            serial_path: None,
            slave: None,
            baud_rate: DEFAULT_BAUD_RATE,
            data_bits: DEFAULT_DATA_BITS,
            parity: CfgParity::NoParity,
            stop_bits: DEFAULT_STOP_BITS,
        },
    }
}

/// The items of a configuration, resolved in order against its defaults
/// (the built-in defaults where it has none); the first refused item's
/// error is the result.
pub fn items_from_config(items: &Vec<CollectorConfigItem>, defaults: Option<ConfigDefaults>) -> (r: Result<Vec<CollectorItem>, AgentError>)
    requires
        forall|i: int| 0 <= i < items.len() ==> ((#[trigger] items[i]).labels matches Some(m) ==> m.wf()),
    ensures
        ({
            let d = effective_defaults(defaults);
            match r {
                Ok(v) => v.len() == items.len() && forall|i: int| 0 <= i < items.len() ==> item_error(#[trigger] items[i], d).is_none()
                    && resolved(items[i], d, v[i]),
                Err(e) => exists|k: int| 0 <= k < items.len() && (forall|i: int| 0 <= i < k ==> item_error(#[trigger] items[i], d).is_none())
                    && (item_error(#[trigger] items[k], d) matches Some(m) && e matches AgentError::ParseError(t) && t@ == m),
            }
        }),
{
    let d = match defaults {
        Some(x) => x,
        None => ConfigDefaults::default(),
    };
    let mut r: Vec<CollectorItem> = Vec::new();
    let mut i: usize = 0;
    while i < items.len()
        invariant
            i <= items.len(),
            r.len() == i,
            d == effective_defaults(defaults),
            forall|j: int| 0 <= j < items.len() ==> ((#[trigger] items[j]).labels matches Some(m) ==> m.wf()),
            forall|j: int| 0 <= j < i ==> item_error(#[trigger] items[j], d).is_none() && resolved(items[j], d, r[j]),
        decreases items.len() - i,
    {
        match CollectorItem::from_config(&items[i], &d) {
            Ok(it) => r.push(it),
            Err(e) => {
                assert(item_error(items[i as int], d) is Some);
                return Err(e);
            },
        }
        i = i + 1;
    }
    Ok(r)
}

/// Default timeout of a read, in milliseconds.
pub fn default_5000() -> (r: u64)
    ensures
        r == 5000,
{
    5_000
}

/// Registers read when an item does not say: the holding registers.
pub fn default_holding() -> (r: RegisterType)
    ensures
        r == RegisterType::Holding,
{
    RegisterType::Holding
}

/// The values of coils as register words: 1 for a set coil, 0 for a
/// clear one.
pub fn coil_values(bits: &Vec<bool>) -> (r: Vec<u16>)
    ensures
        r@ == bits@.map_values(|b: bool| if b { 1u16 } else { 0u16 }),
{
    let mut r: Vec<u16> = Vec::new();
    let mut i: usize = 0;
    while i < bits.len()
        invariant
            i <= bits.len(),
            r@ == bits@.take(i as int).map_values(|b: bool| if b { 1u16 } else { 0u16 }),
        decreases bits.len() - i,
    {
        r.push(if bits[i] { 1 } else { 0 });
        assert(bits@.take(i + 1) =~= bits@.take(i as int).push(bits@[i as int]));
        i = i + 1;
    }
    assert(bits@.take(bits.len() as int) =~= bits@);
    r
}

pub fn default_baud_rate() -> (r: u32)
    ensures
        r == DEFAULT_BAUD_RATE,
{
    DEFAULT_BAUD_RATE
}

pub fn default_data_bits() -> (r: usize)
    ensures
        r == DEFAULT_DATA_BITS,
{
    DEFAULT_DATA_BITS
}

pub fn default_stop_bits() -> (r: usize)
    ensures
        r == DEFAULT_STOP_BITS,
{
    DEFAULT_STOP_BITS
}

pub fn default_parity() -> (r: CfgParity)
    ensures
        r == CfgParity::NoParity,
{
    CfgParity::NoParity
}


/// An item's line settings are the ones configured, taken from the item
/// where it sets them and from the defaults otherwise: its parity is the
/// configured parity (`O` for odd, `E` for even, `N` for none in the
/// settings text), and its data bits, stop bits and baud rate are the
/// configured numbers.
pub proof fn lemma_settings_kept(c: CollectorConfigItem, d: ConfigDefaults, it: CollectorItem)
    requires
        resolved(c, d, it),
    ensures
        (or_default(c.parity, d.parity) == CfgParity::Odd) == (it.parity == Parity::Odd),
        (or_default(c.parity, d.parity) == CfgParity::Even) == (it.parity == Parity::Even),
        (or_default(c.parity, d.parity) == CfgParity::NoParity) == (it.parity == Parity::NoParity),
        parity_char(it.parity) == match or_default(c.parity, d.parity) {
            CfgParity::NoParity => 'N',
            CfgParity::Odd => 'O',
            CfgParity::Even => 'E',
        },
        data_bits_count(it.data_bits) == or_default(c.data_bits, d.data_bits),
        stop_bits_count(it.stop_bits) == or_default(c.stop_bits, d.stop_bits),
        it.baud_rate == or_default(c.baud_rate, d.baud_rate),
{
}

} // verus!
