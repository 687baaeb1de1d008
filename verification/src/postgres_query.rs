//! The PostgreSQL query collector: which measure each row of a query
//! gives.
use vstd::prelude::*;
use crate::error::{AgentError, AgentResult};
use crate::label::{LabelView, Labels};
use crate::measure::{Measure, Value};
use crate::sqlrow::{
    Cell, ColumnInfo, TargetType, cell_fits, cell_text, cell_value, column_of, find_column, not_found,
    not_found_text, text_of, unsupported, unsupported_text, value_of,
};
use crate::text::str_eq;

verus! {

/// One configured query.
pub struct ConfigQueryItem {
    pub query: String,
    /// Column of the measure's name.
    pub name_column: String,
    /// Column of the measure's value.
    pub value_column: String,
    /// Column of the measure's help.
    pub help_column: Option<String>,
}

/// A query of the collector.
pub struct QueryItem {
    pub query: String,
    pub name_column: String,
    pub value_column: String,
    pub help_column: Option<String>,
}

impl QueryItem {
    /// The query of a configuration item, as it is.
    pub fn from_config(ci: &ConfigQueryItem) -> (r: QueryItem)
        ensures
            r.query@ == ci.query@,
            r.name_column@ == ci.name_column@,
            r.value_column@ == ci.value_column@,
            r.help_column == ci.help_column,
    {
        QueryItem {
            query: ci.query.clone(),
            name_column: ci.name_column.clone(),
            value_column: ci.value_column.clone(),
            help_column: match &ci.help_column {
                Some(h) => Some(h.clone()),
                None => None,
            },
        }
    }
}

/// The queries of a configuration, in order.
pub fn query_items(items: &Vec<ConfigQueryItem>) -> (r: Vec<QueryItem>)
    ensures
        r.len() == items.len(),
        forall|i: int| 0 <= i < items.len() ==> (#[trigger] r[i]).query@ == items[i].query@
            && r[i].name_column@ == items[i].name_column@ && r[i].value_column@ == items[i].value_column@
            && r[i].help_column == items[i].help_column,
{
    let mut r: Vec<QueryItem> = Vec::new();
    let mut i: usize = 0;
    while i < items.len()
        invariant
            i <= items.len(),
            r.len() == i,
            forall|j: int| 0 <= j < i ==> (#[trigger] r[j]).query@ == items[j].query@
                && r[j].name_column@ == items[j].name_column@ && r[j].value_column@ == items[j].value_column@
                && r[j].help_column == items[j].help_column,
        decreases items.len() - i,
    {
        r.push(QueryItem::from_config(&items[i]));
        i = i + 1;
    }
    r
}

/// How the rows of a query become measures, found from the first row.
#[derive(Debug)]
pub struct RowFields {
    pub name: usize,
    pub value: usize,
    pub target: TargetType,
    pub labels: Option<usize>,
    pub help: Option<usize>,
}

/// The value column's target for a PostgreSQL type name.
pub open spec fn pg_target(t: Seq<char>) -> Option<TargetType> {
    if t == "SMALLINT"@ || t == "SMALLSERIAL"@ || t == "INT2"@ {
        Some(TargetType::I16)
    } else if t == "INT"@ || t == "INT4"@ || t == "SERIAL"@ {
        Some(TargetType::I32)
    } else if t == "BIGINT"@ || t == "BIGSERIAL"@ || t == "INT8"@ {
        Some(TargetType::I64)
    } else if t == "REAL"@ || t == "FLOAT4"@ {
        Some(TargetType::F32)
    } else if t == "DOUBLE PRECISION"@ || t == "FLOAT8"@ {
        Some(TargetType::F64)
    } else if t == "NUMERIC"@ {
        Some(TargetType::Numeric)
    } else {
        None
    }
}

fn target_of(t: &str) -> (r: Option<TargetType>)
    ensures
        r == pg_target(t@),
{
    if str_eq(t, "SMALLINT") || str_eq(t, "SMALLSERIAL") || str_eq(t, "INT2") {
        Some(TargetType::I16)
    } else if str_eq(t, "INT") || str_eq(t, "INT4") || str_eq(t, "SERIAL") {
        Some(TargetType::I32)
    } else if str_eq(t, "BIGINT") || str_eq(t, "BIGSERIAL") || str_eq(t, "INT8") {
        Some(TargetType::I64)
    } else if str_eq(t, "REAL") || str_eq(t, "FLOAT4") {
        Some(TargetType::F32)
    } else if str_eq(t, "DOUBLE PRECISION") || str_eq(t, "FLOAT8") {
        Some(TargetType::F64)
    } else if str_eq(t, "NUMERIC") {
        Some(TargetType::Numeric)
    } else {
        None
    }
}

/// What the row fields hold.
pub struct RowFieldsView {
    pub name: int,
    pub value: int,
    pub target: TargetType,
    pub help: Option<int>,
}

/// The row fields of a query for a row with columns `cols`, or the
/// message of the `InternalError`: the name column, the value column
/// (whose absence is reported under the name column's name), the value
/// column's type, then the help column.
pub open spec fn row_fields(qi: QueryItem, cols: Seq<ColumnInfo>) -> Result<RowFieldsView, Seq<char>> {
    match column_of(cols, qi.name_column@) {
        None => Err(not_found_text(qi.name_column@)),
        Some(n) => match column_of(cols, qi.value_column@) {
            None => Err(not_found_text(qi.name_column@)),
            Some(v) => match pg_target(cols[v].column_type@) {
                None => Err(unsupported_text(cols[v].column_type@)),
                Some(t) => match qi.help_column {
                    None => Ok(RowFieldsView { name: n, value: v, target: t, help: None }),
                    Some(h) => match column_of(cols, h@) {
                        None => Err(not_found_text(h@)),
                        Some(k) => Ok(RowFieldsView { name: n, value: v, target: t, help: Some(k) }),
                    },
                },
            },
        },
    }
}

impl RowFields {
    pub open spec fn view_of(&self) -> RowFieldsView {
        RowFieldsView {
            name: self.name as int,
            value: self.value as int,
            target: self.target,
            help: match self.help {
                Some(h) => Some(h as int),
                None => None,
            },
        }
    }

    /// The row fields of a query for a row with columns `cols` (see
    /// `row_fields`); they carry no label column.
    pub fn try_from(qi: &QueryItem, cols: &Vec<ColumnInfo>) -> (r: Result<RowFields, AgentError>)
        ensures
            match row_fields(*qi, cols@) {
                Ok(v) => r matches Ok(f) && f.view_of() == v && f.labels.is_none(),
                Err(m) => r matches Err(AgentError::InternalError(e)) && e@ == m,
            },
    {
        let name = match find_column(cols, qi.name_column.as_str()) {
            Some(k) => k,
            None => return Err(AgentError::InternalError(not_found(qi.name_column.as_str()))),
        };
        let value = match find_column(cols, qi.value_column.as_str()) {
            Some(k) => k,
            None => return Err(AgentError::InternalError(not_found(qi.name_column.as_str()))),
        };
        let target = match target_of(cols[value].column_type.as_str()) {
            Some(t) => t,
            None => return Err(AgentError::InternalError(unsupported(cols[value].column_type.as_str()))),
        };
        let help = match &qi.help_column {
            Some(h) => match find_column(cols, h.as_str()) {
                Some(k) => Some(k),
                None => return Err(AgentError::InternalError(not_found(h.as_str()))),
            },
            None => None,
        };
        Ok(RowFields { name, value, target, labels: None, help })
    }

    /// The measure of a row: its name, its value as a gauge, its help
    /// (empty without a help column) and no labels; a number that does not
    /// fit an `f32` is a `ParseError`.
    pub fn measure(&self, cells: &Vec<Cell>) -> (r: AgentResult<Measure>)
        requires
            self.name < cells.len() && cells@[self.name as int] is Text,
            self.value < cells.len() && cell_fits(self.target, cells@[self.value as int]),
            self.help matches Some(h) ==> h < cells.len() && cells@[h as int] is Text,
        ensures
            match cell_value(cells@[self.value as int]) {
                None => r matches Err(AgentError::ParseError(m)) && m@ == "Failed to decode value"@,
                Some(v) => r matches Ok(m) && m.name@ == cell_text(cells@[self.name as int])
                    && m.value == v
                    && m.help@ == (match self.help {
                        Some(h) => cell_text(cells@[h as int]),
                        None => Seq::empty(),
                    })
                    && m.labels@ == None::<Seq<LabelView>>
                    && m.timestamp.is_none(),
            },
    {
        let name = text_of(&cells[self.name]);
        let value: Value = match value_of(&cells[self.value]) {
            Some(v) => v,
            None => return Err(AgentError::ParseError("Failed to decode value".to_owned())),
        };
        let help = match self.help {
            Some(h) => text_of(&cells[h]),
            None => String::new(),
        };
        Ok(Measure { name, help, labels: Labels::default(), value, timestamp: None })
    }
}

/// Default name column.
pub fn default_name() -> (r: String)
    ensures
        r@ == "name"@,
{
    "name".to_owned()
}

/// Default value column.
pub fn default_value() -> (r: String)
    ensures
        r@ == "value"@,
{
    "value".to_owned()
}

} // verus!
