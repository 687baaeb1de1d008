//! What the SQL query collectors read of a result row: its columns'
//! names and types, and the decoded cells.
use vstd::prelude::*;
use crate::measure::Value;
use crate::text::{push_str, str_eq, string_of};

verus! {

/// A column of a result row.
pub struct ColumnInfo {
    pub name: String,
    /// The database's name of the column's type.
    pub column_type: String,
}

/// A decoded cell of a result row.
#[derive(Debug, Clone)]
pub enum Cell {
    Text(String),
    I16(i16),
    I32(i32),
    I64(i64),
    /// A floating-point value, as the text `f32` displays.
    Float(String),
    /// A number that does not fit an `f32`.
    Undecodable,
}

/// How the value column is decoded.
#[derive(Debug, Clone, Copy, PartialEq, Eq, Structural)]
pub enum TargetType {
    I16,
    I32,
    I64,
    F32,
    F64,
    Numeric,
}

/// The first column from `i` on named `name`.
pub open spec fn column_from(cols: Seq<ColumnInfo>, name: Seq<char>, i: int) -> Option<int>
    decreases cols.len() - i,
{
    if i < 0 || i >= cols.len() {
        None
    } else if cols[i].name@ == name {
        Some(i)
    } else {
        column_from(cols, name, i + 1)
    }
}

/// The position of the first column named `name`.
pub open spec fn column_of(cols: Seq<ColumnInfo>, name: Seq<char>) -> Option<int> {
    column_from(cols, name, 0)
}

/// The position of the first column named `name`.
pub fn find_column(cols: &Vec<ColumnInfo>, name: &str) -> (r: Option<usize>)
    ensures
        match column_of(cols@, name@) {
            Some(k) => r == Some(k as usize) && 0 <= k < cols.len(),
            None => r.is_none(),
        },
{
    let mut i: usize = 0;
    while i < cols.len()
        invariant
            i <= cols.len(),
            column_of(cols@, name@) == column_from(cols@, name@, i as int),
        decreases cols.len() - i,
    {
        if str_eq(cols[i].name.as_str(), name) {
            return Some(i);
        }
        i = i + 1;
    }
    None
}

/// The message for a missing column.
pub open spec fn not_found_text(name: Seq<char>) -> Seq<char> {
    seq!['\''] + name + "' is not found"@
}

/// The message for a missing column.
pub fn not_found(name: &str) -> (r: String)
    ensures
        r@ == not_found_text(name@),
{
    let mut out: Vec<char> = Vec::new();
    out.push('\'');
    push_str(&mut out, name);
    push_str(&mut out, "' is not found");
    assert(out@ =~= not_found_text(name@));
    string_of(out.as_slice())
}

/// The message for a value column of an unsupported type.
pub open spec fn unsupported_text(column_type: Seq<char>) -> Seq<char> {
    "unsupported column type "@ + column_type
}

/// The message for a value column of an unsupported type.
pub fn unsupported(column_type: &str) -> (r: String)
    ensures
        r@ == unsupported_text(column_type@),
{
    let mut out: Vec<char> = Vec::new();
    push_str(&mut out, "unsupported column type ");
    push_str(&mut out, column_type);
    string_of(out.as_slice())
}

/// The text of a text cell.
pub open spec fn cell_text(c: Cell) -> Seq<char> {
    match c {
        Cell::Text(s) => s@,
        _ => Seq::empty(),
    }
}

/// Whether a cell is decoded as the target type asks.
pub open spec fn cell_fits(t: TargetType, c: Cell) -> bool {
    match t {
        TargetType::I16 => c is I16,
        TargetType::I32 => c is I32,
        TargetType::I64 => c is I64,
        TargetType::F32 => c is Float,
        TargetType::F64 => c is Float,
        TargetType::Numeric => c is Float || c is Undecodable,
    }
}

/// The gauge a value cell holds: integers as signed gauges, floats as
/// float gauges; `None` for a number that does not fit an `f32`.
pub open spec fn cell_value(c: Cell) -> Option<Value> {
    match c {
        Cell::I16(x) => Some(Value::GaugeI(x as i64)),
        Cell::I32(x) => Some(Value::GaugeI(x as i64)),
        Cell::I64(x) => Some(Value::GaugeI(x)),
        Cell::Float(s) => Some(Value::GaugeF(s)),
        _ => None,
    }
}

/// The text of a text cell.
pub fn text_of(c: &Cell) -> (r: String)
    requires
        c is Text,
    ensures
        r@ == cell_text(*c),
{
    match c {
        Cell::Text(s) => s.clone(),
        _ => String::new(),
    }
}

/// The gauge a value cell holds (see `cell_value`).
pub fn value_of(c: &Cell) -> (r: Option<Value>)
    ensures
        r == cell_value(*c),
{
    match c {
        Cell::I16(x) => Some(Value::GaugeI(*x as i64)),
        Cell::I32(x) => Some(Value::GaugeI(*x as i64)),
        Cell::I64(x) => Some(Value::GaugeI(*x)),
        Cell::Float(s) => Some(Value::GaugeF(s.clone())),
        _ => None,
    }
}

} // verus!
