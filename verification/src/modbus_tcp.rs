//! Settings of the Modbus TCP collector.
use vstd::prelude::*;
use crate::error::AgentError;
use crate::label::{LabelMap, Labels};
use crate::modbus_rtu::{labels_config_view, RegisterType};
use crate::netaddr::{addr_of, SocketAddrV4};
use crate::text::{dec_str, push_dec, push_str, string_of};

verus! {

/// One configured register read of a Modbus TCP device.
pub struct TcpConfigItem {
    pub name: String,
    pub help: String,
    pub labels: Option<LabelMap>,
    pub register: u16,
    pub register_type: RegisterType,
    pub slave: u8,
}

/// One register read, ready to run.
pub struct TcpItem {
    pub name: String,
    pub help: String,
    pub labels: Labels,
    pub register: u16,
    pub register_type: RegisterType,
    pub slave: u8,
}

/// The Modbus TCP collector: the device's address, the read timeout and
/// the reads.
pub struct TcpCollector {
    pub addr: SocketAddrV4,
    pub timeout_ms: u64,
    pub items: Vec<TcpItem>,
}

/// The device's address as the collector writes it: `address:port`.
pub open spec fn address_text(address: Seq<char>, port: u16) -> Seq<char> {
    address + seq![':'] + dec_str(port as nat)
}

/// A configured read taken over as it is.
pub open spec fn tcp_item_of(c: TcpConfigItem, it: TcpItem) -> bool {
    &&& it.name@ == c.name@
    &&& it.help@ == c.help@
    &&& it.labels@ == labels_config_view(c.labels)
    &&& it.register == c.register
    &&& it.register_type == c.register_type
    &&& it.slave == c.slave
}

impl TcpItem {
    /// The read of a configured item.
    pub fn from_config(c: &TcpConfigItem) -> (r: TcpItem)
        requires
            c.labels matches Some(m) ==> m.wf(),
        ensures
            tcp_item_of(*c, r),
    {
        TcpItem {
            name: c.name.clone(),
            help: c.help.clone(),
            labels: Labels::from_config(&c.labels),
            register: c.register,
            register_type: c.register_type,
            slave: c.slave,
        }
    }
}

impl TcpCollector {
    /// The collector of a device: `address:port` must be a socket
    /// address, else the result is a `ParseError`; the items are taken
    /// over in order.
    pub fn try_from(address: &str, port: u16, timeout_ms: u64, items: &Vec<TcpConfigItem>) -> (r: Result<TcpCollector, AgentError>)
        requires
            forall|i: int| 0 <= i < items.len() ==> ((#[trigger] items[i]).labels matches Some(m) ==> m.wf()),
        ensures
            match addr_of(address_text(address@, port)) {
                None => r matches Err(AgentError::ParseError(m)) && m@ == "cannot parse address"@,
                Some(a) => r matches Ok(c) && c.addr == a && c.timeout_ms == timeout_ms && c.items.len() == items.len()
                    && forall|i: int| 0 <= i < items.len() ==> tcp_item_of(#[trigger] items[i], c.items[i]),
            },
    {
        let mut text: Vec<char> = Vec::new();
        push_str(&mut text, address);
        text.push(':');
        push_dec(&mut text, port as u64);
        assert(text@ =~= address_text(address@, port));
        let s = string_of(text.as_slice());
        let addr = match SocketAddrV4::parse(s.as_str()) {
            Some(a) => a,
            None => return Err(AgentError::ParseError("cannot parse address".to_owned())),
        };
        let mut v: Vec<TcpItem> = Vec::new();
        let mut i: usize = 0;
        while i < items.len()
            invariant
                i <= items.len(),
                v.len() == i,
                forall|j: int| 0 <= j < items.len() ==> ((#[trigger] items[j]).labels matches Some(m) ==> m.wf()),
                forall|j: int| 0 <= j < i ==> tcp_item_of(#[trigger] items[j], v[j]),
            decreases items.len() - i,
        {
            v.push(TcpItem::from_config(&items[i]));
            i = i + 1;
        }
        Ok(TcpCollector { addr, timeout_ms, items: v })
    }
}

/// Default Modbus TCP port.
pub fn default_502() -> (r: u16)
    ensures
        r == 502,
{
    502
}

/// Default slave of a Modbus TCP read.
pub fn default_255() -> (r: u8)
    ensures
        r == 255,
{
    255
}

} // verus!
