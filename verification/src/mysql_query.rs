//! The MySQL query collector: which measure each row of a query gives.
use vstd::prelude::*;
use crate::error::{AgentError, AgentResult};
use crate::label::{Label, LabelMap, LabelView, Labels, label_views, merged_labels};
use crate::measure::{Measure, Value};
use crate::sqlrow::{
    Cell, ColumnInfo, TargetType, cell_fits, cell_text, cell_value, column_of, find_column, not_found,
    not_found_text, text_of, unsupported, unsupported_text, value_of,
};
use crate::text::str_eq;

verus! {

/// One configured query.
pub struct ConfigQueryItem {
    pub query: String,
    pub name: Option<String>,
    pub name_column: Option<String>,
    pub help: Option<String>,
    pub help_column: Option<String>,
    pub labels: Option<LabelMap>,
    pub label_columns: Option<Vec<String>>,
    pub value_column: String,
}

/// Where a text comes from: fixed, or a column of each row.
#[derive(Debug)]
pub enum ColumnReference {
    Fixed(String),
    Column(String),
}

pub enum RefView {
    Fixed(Seq<char>),
    Column(Seq<char>),
}

impl View for ColumnReference {
    type V = RefView;

    open spec fn view(&self) -> RefView {
        match self {
            ColumnReference::Fixed(s) => RefView::Fixed(s@),
            ColumnReference::Column(s) => RefView::Column(s@),
        }
    }
}

impl ColumnReference {
    /// The column where one is given, else the fixed text; with neither a
    /// `ConfigurationError`.
    pub fn try_from(fixed: Option<&String>, column: Option<&String>) -> (r: Result<ColumnReference, AgentError>)
        ensures
            match (column, fixed) {
                (Some(c), _) => r matches Ok(x) && x@ == RefView::Column(c@),
                (None, Some(f)) => r matches Ok(x) && x@ == RefView::Fixed(f@),
                (None, None) => r matches Err(AgentError::ConfigurationError(m)) && m@ == "fixed or column value must be set"@,
            },
    {
        if let Some(c) = column {
            return Ok(ColumnReference::Column(c.clone()));
        }
        if let Some(f) = fixed {
            return Ok(ColumnReference::Fixed(f.clone()));
        }
        Err(AgentError::ConfigurationError("fixed or column value must be set".to_owned()))
    }

    fn duplicate(&self) -> (r: ColumnReference)
        ensures
            r@ == self@,
    {
        match self {
            ColumnReference::Fixed(s) => ColumnReference::Fixed(s.clone()),
            ColumnReference::Column(s) => ColumnReference::Column(s.clone()),
        }
    }
}

/// A query with its references resolved.
pub struct QueryItem {
    pub query: String,
    pub name: ColumnReference,
    pub help: ColumnReference,
    pub labels: Labels,
    pub label_columns: Option<Vec<String>>,
    pub value_column: String,
}

pub open spec fn opt_ref(o: Option<String>) -> Option<Seq<char>> {
    match o {
        Some(s) => Some(s@),
        None => None,
    }
}

pub open spec fn labels_config_view(l: Option<LabelMap>) -> Option<Seq<LabelView>> {
    match l {
        Some(m) => Some(m.entry_views()),
        None => None,
    }
}

/// The reference for a fixed text and a column, the column first.
pub open spec fn reference(fixed: Option<Seq<char>>, column: Option<Seq<char>>) -> Option<RefView> {
    match (column, fixed) {
        (Some(c), _) => Some(RefView::Column(c)),
        (None, Some(f)) => Some(RefView::Fixed(f)),
        (None, None) => None,
    }
}

/// The query of a configuration item: its query, its name reference, its
/// help reference (an empty fixed text without one), its labels, label
/// columns and value column.
pub open spec fn item_from(ci: ConfigQueryItem, q: QueryItem) -> bool {
    &&& reference(opt_ref(ci.name), opt_ref(ci.name_column)) matches Some(n) && q.name@ == n
    &&& q.query@ == ci.query@
    &&& q.help@ == (match reference(opt_ref(ci.help), opt_ref(ci.help_column)) {
        Some(h) => h,
        None => RefView::Fixed(Seq::empty()),
    })
    &&& q.labels@ == labels_config_view(ci.labels)
    &&& opt_names(q.label_columns) == opt_names(ci.label_columns)
    &&& q.value_column@ == ci.value_column@
}

impl QueryItem {
    /// The query of a configuration item: a name is required (fixed or
    /// from a column), help defaults to the empty text.
    pub fn from_config(ci: &ConfigQueryItem) -> (r: Result<QueryItem, AgentError>)
        requires
            ci.labels matches Some(m) ==> m.wf(),
        ensures
            match reference(opt_ref(ci.name), opt_ref(ci.name_column)) {
                None => r matches Err(AgentError::ConfigurationError(m)) && m@ == "either name or name_column must be set"@,
                Some(_) => r matches Ok(q) && item_from(*ci, q),
            },
    {
        let name = match ColumnReference::try_from(ci.name.as_ref(), ci.name_column.as_ref()) {
            Ok(x) => x,
            Err(_) => return Err(AgentError::ConfigurationError("either name or name_column must be set".to_owned())),
        };
        let help = match ColumnReference::try_from(ci.help.as_ref(), ci.help_column.as_ref()) {
            Ok(x) => x,
            Err(_) => ColumnReference::Fixed(String::new()),
        };
        Ok(QueryItem {
            query: ci.query.clone(),
            name,
            help,
            labels: Labels::from_config(&ci.labels),
            label_columns: clone_names(&ci.label_columns),
            value_column: ci.value_column.clone(),
        })
    }
}

pub open spec fn opt_names(v: Option<Vec<String>>) -> Option<Seq<Seq<char>>> {
    match v {
        Some(x) => Some(x@.map_values(|s: String| s@)),
        None => None,
    }
}

fn clone_names(v: &Option<Vec<String>>) -> (r: Option<Vec<String>>)
    ensures
        opt_names(r) == opt_names(*v),
{
    match v {
        Some(x) => {
            let mut out: Vec<String> = Vec::new();
            let mut i: usize = 0;
            while i < x.len()
                invariant
                    i <= x.len(),
                    out@.map_values(|s: String| s@) == x@.take(i as int).map_values(|s: String| s@),
                decreases x.len() - i,
            {
                let ghost o0 = out@;
                out.push(x[i].clone());
                assert(out@.map_values(|s: String| s@) =~= o0.map_values(|s: String| s@).push(x@[i as int]@));
                assert(x@.take(i + 1).map_values(|s: String| s@) =~= x@.take(i as int).map_values(|s: String| s@).push(x@[i as int]@));
                i = i + 1;
            }
            assert(x@.take(i as int) =~= x@);
            Some(out)
        },
        None => None,
    }
}

/// The queries of a configuration, in order; the first refused one's
/// error is the result.
pub fn query_items(items: &Vec<ConfigQueryItem>) -> (r: Result<Vec<QueryItem>, AgentError>)
    requires
        forall|i: int| 0 <= i < items.len() ==> ((#[trigger] items[i]).labels matches Some(m) ==> m.wf()),
    ensures
        match r {
            Ok(v) => v.len() == items.len() && forall|i: int| 0 <= i < items.len() ==> item_from(#[trigger] items[i], v[i]),
            Err(e) => exists|k: int| 0 <= k < items.len()
                && reference(opt_ref((#[trigger] items[k]).name), opt_ref(items[k].name_column)).is_none()
                && (e matches AgentError::ConfigurationError(m) && m@ == "either name or name_column must be set"@),
        },
{
    let mut r: Vec<QueryItem> = Vec::new();
    let mut i: usize = 0;
    while i < items.len()
        invariant
            i <= items.len(),
            r.len() == i,
            forall|j: int| 0 <= j < items.len() ==> ((#[trigger] items[j]).labels matches Some(m) ==> m.wf()),
            forall|j: int| 0 <= j < i ==> item_from(#[trigger] items[j], r[j]),
        decreases items.len() - i,
    {
        match QueryItem::from_config(&items[i]) {
            Ok(q) => r.push(q),
            Err(e) => {
                assert(reference(opt_ref(items[i as int].name), opt_ref(items[i as int].name_column)).is_none());
                return Err(e);
            },
        }
        i = i + 1;
    }
    Ok(r)
}

/// Where a row's text comes from.
#[derive(Debug)]
pub enum RowColumnReference {
    Fixed(String),
    Ordinal(usize),
}

/// A label taken from a column.
#[derive(Debug)]
pub struct LabelColumn {
    pub name: String,
    pub ordinal: usize,
}

/// How the rows of a query become measures, found from the first row.
#[derive(Debug)]
pub struct RowFields {
    pub name: RowColumnReference,
    pub help: RowColumnReference,
    pub value: usize,
    pub target: TargetType,
    pub labels: Labels,
    pub label_columns: Option<Vec<LabelColumn>>,
}

pub enum RowRefView {
    Fixed(Seq<char>),
    Ordinal(int),
}

pub open spec fn row_ref_view(r: RowColumnReference) -> RowRefView {
    match r {
        RowColumnReference::Fixed(s) => RowRefView::Fixed(s@),
        RowColumnReference::Ordinal(k) => RowRefView::Ordinal(k as int),
    }
}

/// The value column's target for a MySQL type name.
pub open spec fn mysql_target(t: Seq<char>) -> Option<TargetType> {
    if t == "SMALLINT"@ {
        Some(TargetType::I16)
    } else if t == "INT"@ {
        Some(TargetType::I32)
    } else if t == "BIGINT"@ {
        Some(TargetType::I64)
    } else if t == "FLOAT"@ {
        Some(TargetType::F32)
    } else if t == "DOUBLE"@ {
        Some(TargetType::F64)
    } else if t == "DECIMAL"@ {
        Some(TargetType::Numeric)
    } else {
        None
    }
}

/// A reference resolved against the row's columns, or the message of the
/// missing column.
pub open spec fn resolve_ref(r: RefView, cols: Seq<ColumnInfo>) -> Result<RowRefView, Seq<char>> {
    match r {
        RefView::Fixed(x) => Ok(RowRefView::Fixed(x)),
        RefView::Column(x) => match column_of(cols, x) {
            Some(k) => Ok(RowRefView::Ordinal(k)),
            None => Err(not_found_text(x)),
        },
    }
}

/// The label columns resolved in order, or the message of the first
/// missing one.
pub open spec fn resolve_labels(names: Seq<String>, cols: Seq<ColumnInfo>) -> Result<Seq<(Seq<char>, int)>, Seq<char>>
    decreases names.len(),
{
    if names.len() == 0 {
        Ok(Seq::empty())
    } else {
        match resolve_labels(names.drop_last(), cols) {
            Err(e) => Err(e),
            Ok(p) => match column_of(cols, names.last()@) {
                None => Err(not_found_text(names.last()@)),
                Some(k) => Ok(p.push((names.last()@, k))),
            },
        }
    }
}

/// What the row fields hold.
pub struct RowFieldsView {
    pub name: RowRefView,
    pub help: RowRefView,
    pub value: int,
    pub target: TargetType,
    pub labels: Option<Seq<LabelView>>,
    pub label_columns: Option<Seq<(Seq<char>, int)>>,
}

pub open spec fn label_column_views(v: Seq<LabelColumn>) -> Seq<(Seq<char>, int)> {
    v.map_values(|c: LabelColumn| (c.name@, c.ordinal as int))
}

impl RowFields {
    pub open spec fn view_of(&self) -> RowFieldsView {
        RowFieldsView {
            name: row_ref_view(self.name),
            help: row_ref_view(self.help),
            value: self.value as int,
            target: self.target,
            labels: self.labels@,
            label_columns: match self.label_columns {
                Some(v) => Some(label_column_views(v@)),
                None => None,
            },
        }
    }
}

/// The row fields of a query for a row with columns `cols`, or the
/// message of the `InternalError`: the name, the help, then the value
/// column are looked up, the value column's type is checked, and then
/// the label columns are looked up.
pub open spec fn row_fields(qi: QueryItem, cols: Seq<ColumnInfo>) -> Result<RowFieldsView, Seq<char>> {
    match resolve_ref(qi.name@, cols) {
        Err(e) => Err(e),
        Ok(n) => match resolve_ref(qi.help@, cols) {
            Err(e) => Err(e),
            Ok(h) => match column_of(cols, qi.value_column@) {
                None => Err(not_found_text(qi.value_column@)),
                Some(v) => match mysql_target(cols[v].column_type@) {
                    None => Err(unsupported_text(cols[v].column_type@)),
                    Some(t) => {
                        let lc = match qi.label_columns {
                            Some(names) => match resolve_labels(names@, cols) {
                                Ok(x) => Ok(Some(x)),
                                Err(e) => Err(e),
                            },
                            None => Ok(None),
                        };
                        match lc {
                            Err(e) => Err(e),
                            Ok(l) => Ok(RowFieldsView {
                                name: n,
                                help: h,
                                value: v,
                                target: t,
                                labels: qi.labels@,
                                label_columns: l,
                            }),
                        }
                    },
                },
            },
        },
    }
}

fn resolve(r: &ColumnReference, cols: &Vec<ColumnInfo>) -> (x: Result<RowColumnReference, AgentError>)
    ensures
        match resolve_ref(r@, cols@) {
            Ok(v) => x matches Ok(y) && row_ref_view(y) == v,
            Err(m) => x matches Err(AgentError::InternalError(e)) && e@ == m,
        },
{
    match r {
        ColumnReference::Fixed(x) => Ok(RowColumnReference::Fixed(x.clone())),
        ColumnReference::Column(x) => match find_column(cols, x.as_str()) {
            Some(k) => Ok(RowColumnReference::Ordinal(k)),
            None => Err(AgentError::InternalError(not_found(x.as_str()))),
        },
    }
}

fn target_of(t: &str) -> (r: Option<TargetType>)
    ensures
        r == mysql_target(t@),
{
    if str_eq(t, "SMALLINT") {
        Some(TargetType::I16)
    } else if str_eq(t, "INT") {
        Some(TargetType::I32)
    } else if str_eq(t, "BIGINT") {
        Some(TargetType::I64)
    } else if str_eq(t, "FLOAT") {
        Some(TargetType::F32)
    } else if str_eq(t, "DOUBLE") {
        Some(TargetType::F64)
    } else if str_eq(t, "DECIMAL") {
        Some(TargetType::Numeric)
    } else {
        None
    }
}

impl RowFields {
    /// The row fields of a query for a row with columns `cols` (see
    /// `row_fields`).
    pub fn try_from(qi: &QueryItem, cols: &Vec<ColumnInfo>) -> (r: Result<RowFields, AgentError>)
        ensures
            match row_fields(*qi, cols@) {
                Ok(v) => r matches Ok(f) && f.view_of() == v,
                Err(m) => r matches Err(AgentError::InternalError(e)) && e@ == m,
            },
    {
        let name = match resolve(&qi.name, cols) {
            Ok(x) => x,
            Err(e) => return Err(e),
        };
        let help = match resolve(&qi.help, cols) {
            Ok(x) => x,
            Err(e) => return Err(e),
        };
        let value = match find_column(cols, qi.value_column.as_str()) {
            Some(k) => k,
            None => return Err(AgentError::InternalError(not_found(qi.value_column.as_str()))),
        };
        let target = match target_of(cols[value].column_type.as_str()) {
            Some(t) => t,
            None => return Err(AgentError::InternalError(unsupported(cols[value].column_type.as_str()))),
        };
        let label_columns = match &qi.label_columns {
            Some(names) => match resolve_label_columns(names, cols) {
                Ok(v) => Some(v),
                Err(e) => return Err(e),
            },
            None => None,
        };
        Ok(RowFields { name, help, value, target, labels: qi.labels.duplicate(), label_columns })
    }
}


/// The label columns looked up in order (see `resolve_labels`).
fn resolve_label_columns(names: &Vec<String>, cols: &Vec<ColumnInfo>) -> (r: Result<Vec<LabelColumn>, AgentError>)
    ensures
        match resolve_labels(names@, cols@) {
            Ok(v) => r matches Ok(x) && label_column_views(x@) == v,
            Err(m) => r matches Err(AgentError::InternalError(e)) && e@ == m,
        },
{
    let mut r: Vec<LabelColumn> = Vec::new();
    let mut i: usize = 0;
    assert(names@.take(0) =~= Seq::<String>::empty());
    assert(label_column_views(r@) =~= Seq::<(Seq<char>, int)>::empty());
    while i < names.len()
        invariant
            i <= names.len(),
            resolve_labels(names@.take(i as int), cols@) == Ok::<Seq<(Seq<char>, int)>, Seq<char>>(label_column_views(r@)),
        decreases names.len() - i,
    {
        assert(names@.take(i + 1).drop_last() =~= names@.take(i as int));
        assert(names@.take(i + 1).last() == names@[i as int]);
        match find_column(cols, names[i].as_str()) {
            Some(k) => {
                let ghost r0 = r@;
                r.push(LabelColumn { name: names[i].clone(), ordinal: k });
                assert(label_column_views(r@) =~= label_column_views(r0).push((names@[i as int]@, k as int)));
            },
            None => {
                assert(resolve_labels(names@.take(i + 1), cols@) == Err::<Seq<(Seq<char>, int)>, Seq<char>>(not_found_text(names@[i as int]@)));
                proof { lemma_resolve_labels_err(names@, cols@, i as int); }
                return Err(AgentError::InternalError(not_found(names[i].as_str())));
            },
        }
        i = i + 1;
    }
    assert(names@.take(i as int) =~= names@);
    Ok(r)
}

/// An error on a prefix of the label columns is the error of all of them.
proof fn lemma_resolve_labels_err(names: Seq<String>, cols: Seq<ColumnInfo>, i: int)
    requires
        0 <= i < names.len(),
        resolve_labels(names.take(i + 1), cols) is Err,
    ensures
        resolve_labels(names, cols) == resolve_labels(names.take(i + 1), cols),
    decreases names.len(),
{
    if names.len() > i + 1 {
        assert(names.drop_last().take(i + 1) =~= names.take(i + 1));
        lemma_resolve_labels_err(names.drop_last(), cols, i);
    } else {
        assert(names.take(i + 1) =~= names);
    }
}

/// The text a reference gives for a row.
pub open spec fn row_text(r: RowRefView, cells: Seq<Cell>) -> Seq<char> {
    match r {
        RowRefView::Fixed(x) => x,
        RowRefView::Ordinal(k) => cell_text(cells[k]),
    }
}

/// The labels a row's label columns give.
pub open spec fn column_labels(lc: Seq<(Seq<char>, int)>, cells: Seq<Cell>) -> Seq<LabelView> {
    lc.map_values(|c: (Seq<char>, int)| (c.0, cell_text(cells[c.1])))
}

/// The row's cells are what the row fields read: text where a text is
/// read, and the value decoded as the target asks.
pub open spec fn cells_fit(f: RowFieldsView, cells: Seq<Cell>) -> bool {
    &&& (f.name matches RowRefView::Ordinal(k) ==> 0 <= k < cells.len() && cells[k] is Text)
    &&& (f.help matches RowRefView::Ordinal(k) ==> 0 <= k < cells.len() && cells[k] is Text)
    &&& 0 <= f.value < cells.len() && cell_fits(f.target, cells[f.value])
    &&& (f.label_columns matches Some(lc) ==> forall|i: int| 0 <= i < lc.len()
        ==> 0 <= (#[trigger] lc[i]).1 < cells.len() && cells[lc[i].1] is Text)
}

impl RowFields {
    fn ref_text(r: &RowColumnReference, cells: &Vec<Cell>) -> (t: String)
        requires
            r matches RowColumnReference::Ordinal(k) ==> k < cells.len() && cells[k as int] is Text,
        ensures
            t@ == row_text(row_ref_view(*r), cells@),
    {
        match r {
            RowColumnReference::Fixed(x) => x.clone(),
            RowColumnReference::Ordinal(k) => text_of(&cells[*k]),
        }
    }

    /// The measure of a row: its name and help, its value as a gauge, and
    /// the query's labels merged with the row's label columns; a number
    /// that does not fit an `f32` is a `ParseError`.
    pub fn measure(&self, cells: &Vec<Cell>) -> (r: AgentResult<Measure>)
        requires
            cells_fit(self.view_of(), cells@),
        ensures
            match cell_value(cells@[self.value as int]) {
                None => r matches Err(AgentError::ParseError(m)) && m@ == "Failed to decode value"@,
                Some(v) => r matches Ok(m) && m.name@ == row_text(self.view_of().name, cells@)
                    && m.help@ == row_text(self.view_of().help, cells@)
                    && m.value == v
                    && m.labels@ == merged_labels(
                        self.labels@,
                        match self.view_of().label_columns {
                            Some(lc) => Some(column_labels(lc, cells@)),
                            None => None,
                        },
                        None,
                        None,
                    )
                    && m.timestamp.is_none(),
            },
    {
        let name = RowFields::ref_text(&self.name, cells);
        let help = RowFields::ref_text(&self.help, cells);
        let value: Value = match value_of(&cells[self.value]) {
            Some(v) => v,
            None => return Err(AgentError::ParseError("Failed to decode value".to_owned())),
        };
        let column_labels = match &self.label_columns {
            Some(cols) => {
                let ghost lc = label_column_views(cols@);
                let mut r: Vec<Label> = Vec::new();
                let mut i: usize = 0;
                while i < cols.len()
                    invariant
                        i <= cols.len(),
                        lc == label_column_views(cols@),
                        forall|j: int| 0 <= j < lc.len() ==> 0 <= (#[trigger] lc[j]).1 < cells.len() && cells@[lc[j].1] is Text,
                        label_views(r@) == column_labels(lc.take(i as int), cells@),
                    decreases cols.len() - i,
                {
                    assert(lc[i as int] == (cols@[i as int].name@, cols@[i as int].ordinal as int));
                    let t = text_of(&cells[cols[i].ordinal]);
                    let ghost r0 = r@;
                    r.push(Label::new(cols[i].name.as_str(), t.as_str()));
                    assert(label_views(r@) =~= label_views(r0).push((cols@[i as int].name@, t@)));
                    assert(column_labels(lc.take(i + 1), cells@) =~= column_labels(lc.take(i as int), cells@).push(
                        (lc[i as int].0, cell_text(cells@[lc[i as int].1])),
                    ));
                    i = i + 1;
                }
                assert(lc.take(i as int) =~= lc);
                Labels::new(r)
            },
            None => Labels::default(),
        };
        let none = Labels::default();
        let labels = Labels::merge_sort4(&self.labels, &column_labels, &none, &none);
        Ok(Measure { name, help, value, labels, timestamp: None })
    }
}

/// Default value column.
pub fn default_value() -> (r: String)
    ensures
        r@ == "value"@,
{
    "value".to_owned()
}

} // verus!
