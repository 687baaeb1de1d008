use vstd::prelude::*;

pub mod text;
pub mod label;
pub mod error;
pub mod discovery;
pub mod measure;
pub mod redis;
pub mod mdb;
pub mod config;
pub mod relabel;
pub mod registry;
pub mod resolver;
pub mod agent;
pub mod netaddr;
pub mod sender;
pub mod schedule;
pub mod pkt;
pub mod modbus_rtu;
pub mod modbus_tcp;
pub mod sqlrow;
pub mod mysql_query;
pub mod postgres_query;
pub mod pgstats;
pub mod procstat;
pub mod sd;
pub mod pattern;
pub mod memory;
pub mod fs;
pub mod host;
pub mod counters;
pub mod mysql;

verus! {

} // verus!
