//! A builder of SQL statements for the operations of a virtual server. It
//! holds no state and runs no query: each method gives the text of one
//! statement.

use crate::deep::{deep, lemma_deep_add, lemma_deep_extend, lemma_deep_push};
use crate::filters::{FilterTerm, FilterTermView, Scalar, ScalarView};
use crate::ordered_map::{deep_entries, Entries, OrderedMap};
use crate::proto::{type_of_name, ColumnType, ViewPort};
use crate::text::{
    decimal, has_prefix, join, join_first, join_strings, push_decimal, replace, replace_char,
    signed_decimal, starts_with_underscores, trim, trimmed,
};
use crate::view_config::{SortDir, ViewConfig, ViewConfigView};
use vstd::prelude::*;

verus! {

/// Why a statement could not be built.
#[derive(Debug, Clone)]
pub enum GenericSQLError {
    /// A column that the statement needs is not in the schema.
    ColumnNotFound(String),
    /// The configuration cannot be turned into a statement.
    InvalidConfig(String),
    /// The operation is not supported.
    UnsupportedOperation(String),
}

impl GenericSQLError {
    /// The text that shows the error.
    pub open spec fn text(self) -> Seq<char> {
        match self {
            GenericSQLError::ColumnNotFound(col) => "Column not found: "@ + col@,
            GenericSQLError::InvalidConfig(msg) => "Invalid configuration: "@ + msg@,
            GenericSQLError::UnsupportedOperation(msg) => "Unsupported operation: "@ + msg@,
        }
    }

    pub fn to_string(&self) -> (out: String)
        ensures
            out@ == self.text(),
    {
        match self {
            GenericSQLError::ColumnNotFound(col) => "Column not found: ".to_owned().concat(
                col.as_str(),
            ),
            GenericSQLError::InvalidConfig(msg) => "Invalid configuration: ".to_owned().concat(
                msg.as_str(),
            ),
            GenericSQLError::UnsupportedOperation(msg) => "Unsupported operation: ".to_owned().concat(
                msg.as_str(),
            ),
        }
    }
}

pub type GenericSQLResult<T> = Result<T, GenericSQLError>;

/// The words that a dialect puts in place of the builder's own.
#[derive(Clone, Debug)]
pub struct GenericSQLVirtualServerModelArgs {
    /// The kind of entity that `CREATE` makes, in place of `TABLE`.
    pub create_entity: Option<String>,
    /// The function that numbers the rolled-up levels, in place of
    /// `GROUPING_ID`.
    pub grouping_fn: Option<String>,
}

impl Default for GenericSQLVirtualServerModelArgs {
    fn default() -> (args: Self)
        ensures
            args.create_entity is None,
            args.grouping_fn is None,
    {
        GenericSQLVirtualServerModelArgs { create_entity: None, grouping_fn: None }
    }
}

/// The literal that stands for a scalar in a statement; `Null` has none.
pub open spec fn scalar_sql(s: ScalarView) -> Option<Seq<char>> {
    match s {
        ScalarView::Null => None,
        ScalarView::Bool(b) => Some(
            if b {
                "TRUE"@
            } else {
                "FALSE"@
            },
        ),
        ScalarView::Float(f) => Some(f),
        ScalarView::DateTime(t) => Some(signed_decimal(t as int)),
        ScalarView::String(s) => Some("'"@ + replace_char(s, '\'', "''"@) + "'"@),
    }
}

/// The literals of the scalars that have one, in order.
pub open spec fn scalar_literals(xs: Seq<ScalarView>) -> Seq<Seq<char>>
    decreases xs.len(),
{
    if xs.len() == 0 {
        Seq::empty()
    } else {
        match scalar_sql(xs.last()) {
            Some(lit) => scalar_literals(xs.drop_last()).push(lit),
            None => scalar_literals(xs.drop_last()),
        }
    }
}

/// The literal that stands for a filter's operand: a scalar's literal, or
/// the literals of a list's scalars in round brackets. A scalar without
/// literal, and a list without any, has none.
pub open spec fn term_sql(t: FilterTermView) -> Option<Seq<char>> {
    match t {
        FilterTermView::Scalar(x) => scalar_sql(x),
        FilterTermView::Array(xs) => if scalar_literals(xs).len() == 0 {
            None
        } else {
            Some("("@ + join(scalar_literals(xs), ", "@) + ")"@)
        },
    }
}

/// The text of a sort direction.
pub open spec fn sort_dir_text(dir: SortDir) -> Seq<char> {
    match dir {
        SortDir::Unsorted => ""@,
        SortDir::Asc | SortDir::ColAsc | SortDir::AscAbs | SortDir::ColAscAbs => "ASC"@,
        SortDir::Desc | SortDir::ColDesc | SortDir::DescAbs | SortDir::ColDescAbs => "DESC"@,
    }
}

/// What a column's name stands for in a statement: the expression behind
/// the name, or the name in double quotes.
pub open spec fn col_name(c: ViewConfigView, col: Seq<char>) -> Seq<char> {
    match c.expressions.get(col) {
        Some(expr) => expr,
        None => "\""@ + col + "\""@,
    }
}

/// The name of the aggregate function of a column; `any_value` where the
/// configuration names none.
pub open spec fn agg_name(c: ViewConfigView, col: Seq<char>) -> Seq<char> {
    match c.aggregates.get(col) {
        Some(agg) => agg.name(),
        None => "any_value"@,
    }
}

/// The name under which a column is selected: double quotes doubled, `_`
/// turned into `-`.
pub open spec fn alias(col: Seq<char>) -> Seq<char> {
    replace_char(replace_char(col, '"', "\"\""@), '_', "-"@)
}

/// The name of the synthetic column that holds level `idx` of the row path.
pub open spec fn row_path_name(idx: nat) -> Seq<char> {
    "__ROW_PATH_"@ + decimal(idx) + "__"@
}

/// The name of the window of level `idx`.
pub open spec fn window_name(idx: nat) -> Seq<char> {
    "__WINDOW_"@ + decimal(idx) + "__"@
}

/// The literal that stands for a scalar in a statement, if it has one.
pub fn scalar_to_sql(scalar: &Scalar) -> (lit: Option<String>)
    ensures
        match lit {
            Some(s) => scalar_sql(scalar@) == Some(s@),
            None => scalar_sql(scalar@) is None,
        },
{
    match scalar {
        Scalar::Null => None,
        Scalar::Bool(b) => Some(
            if *b {
                "TRUE".to_owned()
            } else {
                "FALSE".to_owned()
            },
        ),
        Scalar::Float(f) => Some(f.as_str().to_owned()),
        Scalar::DateTime(t) => Some(Scalar::DateTime(*t).to_string()),
        Scalar::String(s) => {
            let mut out = "'".to_owned();
            let escaped = replace(s.as_str(), '\'', "''");
            out.append(escaped.as_str());
            out.append("'");
            Some(out)
        },
    }
}

/// The literal that stands for a filter's operand in a statement, if it
/// has one.
pub fn filter_term_to_sql(term: &FilterTerm) -> (lit: Option<String>)
    ensures
        match lit {
            Some(s) => term_sql(term@) == Some(s@),
            None => term_sql(term@) is None,
        },
{
    match term {
        FilterTerm::Scalar(scalar) => scalar_to_sql(scalar),
        FilterTerm::Array(scalars) => {
            let mut values: Vec<String> = Vec::new();
            let mut i: usize = 0;
            while i < scalars.len()
                invariant
                    i <= scalars.len(),
                    deep(values@) == scalar_literals(deep(scalars@).take(i as int)),
                decreases scalars.len() - i,
            {
                proof {
                    let all = deep(scalars@);
                    assert(all.take(i + 1).drop_last() == all.take(i as int));
                    assert(all.take(i + 1).last() == scalars@[i as int]@);
                }
                match scalar_to_sql(&scalars[i]) {
                    Some(lit) => {
                        proof {
                            lemma_deep_push(values@, lit);
                        }
                        values.push(lit);
                    },
                    None => {},
                }
                i = i + 1;
            }
            proof {
                assert(deep(scalars@).take(scalars.len() as int) == deep(scalars@));
            }
            if values.len() == 0 {
                None
            } else {
                let mut out = "(".to_owned();
                let joined = join_strings(&values, ", ");
                out.append(joined.as_str());
                out.append(")");
                Some(out)
            }
        },
    }
}

fn sort_dir_to_string(dir: SortDir) -> (s: &'static str)
    ensures
        s@ == sort_dir_text(dir),
{
    match dir {
        SortDir::Unsorted => "",
        SortDir::Asc | SortDir::ColAsc | SortDir::AscAbs | SortDir::ColAscAbs => "ASC",
        SortDir::Desc | SortDir::ColDesc | SortDir::DescAbs | SortDir::ColDescAbs => "DESC",
    }
}

fn column_name(config: &ViewConfig, col: &str) -> (out: String)
    ensures
        out@ == col_name(config.deep_view(), col@),
{
    let found = config.expressions.get(col);
    match found {
        Some(expr) => expr.clone(),
        None => {
            let mut out = "\"".to_owned();
            out.append(col);
            out.append("\"");
            out
        },
    }
}

fn aggregate_name(config: &ViewConfig, col: &str) -> (out: String)
    ensures
        out@ == agg_name(config.deep_view(), col@),
{
    let found = config.aggregates.get(col);
    match found {
        Some(crate::view_config::Aggregate::SingleAggregate(name)) => name.clone(),
        Some(crate::view_config::Aggregate::MultiAggregate(name, _)) => name.clone(),
        None => "any_value".to_owned(),
    }
}

fn column_alias(col: &str) -> (out: String)
    ensures
        out@ == alias(col@),
{
    let doubled = replace(col, '"', "\"\"");
    replace(doubled.as_str(), '_', "-")
}

fn row_path_column(idx: usize) -> (out: String)
    ensures
        out@ == row_path_name(idx as nat),
{
    let mut out = "__ROW_PATH_".to_owned();
    push_decimal(&mut out, idx as u64);
    out.append("__");
    out
}

fn window_label(idx: usize) -> (out: String)
    ensures
        out@ == window_name(idx as nat),
{
    let mut out = "__WINDOW_".to_owned();
    push_decimal(&mut out, idx as u64);
    out.append("__");
    out
}

/// The function that numbers the rolled-up levels.
pub open spec fn grouping_fn_text(args: GenericSQLVirtualServerModelArgs) -> Seq<char> {
    match args.grouping_fn {
        Some(f) => f@,
        None => "GROUPING_ID"@,
    }
}

/// The kind of entity that `CREATE` makes.
pub open spec fn entity_text(args: GenericSQLVirtualServerModelArgs) -> Seq<char> {
    match args.create_entity {
        Some(e) => e@,
        None => "TABLE"@,
    }
}

/// What the group-by columns stand for in a statement, in order.
pub open spec fn group_names(c: ViewConfigView) -> Seq<Seq<char>> {
    Seq::new(c.group_by.len(), |i: int| col_name(c, c.group_by[i]))
}

/// The first `n` group-by columns, with commas between them.
pub open spec fn group_prefix(c: ViewConfigView, n: int) -> Seq<char> {
    join(group_names(c).take(n), ", "@)
}

/// The clause that selects a column of a grouped view.
pub open spec fn aggregated_column(c: ViewConfigView, col: Seq<char>) -> Seq<char> {
    agg_name(c, col) + "("@ + col_name(c, col) + ") as \""@ + alias(col) + "\""@
}

/// The clause that selects a column of a view without groups.
pub open spec fn plain_column(c: ViewConfigView, col: Seq<char>) -> Seq<char> {
    col_name(c, col) + " as \""@ + alias(col) + "\""@
}

/// The clauses that select the first `k` entries of `columns`; an entry
/// that holds a place open has none.
pub open spec fn column_clauses(c: ViewConfigView, k: nat) -> Seq<Seq<char>>
    decreases k,
{
    if k == 0 {
        Seq::empty()
    } else {
        let prev = column_clauses(c, (k - 1) as nat);
        match c.columns[k - 1] {
            Some(col) => prev.push(
                if c.group_by.len() > 0 {
                    aggregated_column(c, col)
                } else {
                    plain_column(c, col)
                },
            ),
            None => prev,
        }
    }
}

/// The clause that selects level `idx` of the row path.
pub open spec fn row_path_clause(c: ViewConfigView, idx: int) -> Seq<char> {
    col_name(c, c.group_by[idx]) + " as "@ + row_path_name(idx as nat)
}

/// One clause for each level of the row path.
pub open spec fn row_path_clauses(c: ViewConfigView) -> Seq<Seq<char>> {
    Seq::new(c.group_by.len(), |i: int| row_path_clause(c, i))
}

/// The clause that selects the grouping id.
pub open spec fn grouping_clause(
    args: GenericSQLVirtualServerModelArgs,
    c: ViewConfigView,
) -> Seq<char> {
    grouping_fn_text(args) + "("@ + join(group_names(c), ", "@) + ") AS __GROUPING_ID__"@
}

/// The select list. A grouped view that is not split also selects one
/// column for each level of the row path, and the grouping id.
pub open spec fn select_clauses(
    args: GenericSQLVirtualServerModelArgs,
    c: ViewConfigView,
) -> Seq<Seq<char>> {
    let cols = column_clauses(c, c.columns.len());
    if c.group_by.len() > 0 && c.split_by.len() == 0 {
        (cols + row_path_clauses(c)).push(grouping_clause(args, c))
    } else {
        cols
    }
}

/// The clause that orders level `level` of a grouped view by a sort. The
/// deepest level orders by the aggregate itself, a level above it by the
/// aggregate's first value over the level's window.
pub open spec fn level_sort_clause(
    c: ViewConfigView,
    level: int,
    col: Seq<char>,
    dir: SortDir,
) -> Seq<char> {
    if level >= c.group_by.len() - 1 {
        agg_name(c, col) + "("@ + col_name(c, col) + ") "@ + sort_dir_text(dir)
    } else {
        "first("@ + agg_name(c, col) + "("@ + col_name(c, col) + ")) OVER "@ + window_name(
            level as nat,
        ) + " "@ + sort_dir_text(dir)
    }
}

/// The clauses that order level `level` by the first `k` sorts; a sort
/// without direction has none.
pub open spec fn level_sort_clauses(c: ViewConfigView, level: int, k: nat) -> Seq<Seq<char>>
    decreases k,
{
    if k == 0 {
        Seq::empty()
    } else {
        let prev = level_sort_clauses(c, level, (k - 1) as nat);
        let s = c.sort[k - 1];
        if s.1 != SortDir::Unsorted {
            prev.push(level_sort_clause(c, level, s.0, s.1))
        } else {
            prev
        }
    }
}

/// The clause that puts the rolled-up rows of level `level` first.
pub open spec fn level_rollup_clause(
    args: GenericSQLVirtualServerModelArgs,
    c: ViewConfigView,
    level: int,
) -> Seq<char> {
    grouping_fn_text(args) + "("@ + group_prefix(c, level + 1) + ") DESC"@
}

/// The clauses that order level `level`: the rolled-up rows first (in a
/// view that is not split), then the sorts, then the row path.
pub open spec fn level_order_clauses(
    args: GenericSQLVirtualServerModelArgs,
    c: ViewConfigView,
    level: int,
) -> Seq<Seq<char>> {
    let head = if c.split_by.len() == 0 {
        seq![level_rollup_clause(args, c, level)]
    } else {
        Seq::empty()
    };
    (head + level_sort_clauses(c, level, c.sort.len())).push(
        row_path_name(level as nat) + " ASC"@,
    )
}

/// The clauses that order the first `levels` levels, outermost first.
pub open spec fn grouped_order_clauses(
    args: GenericSQLVirtualServerModelArgs,
    c: ViewConfigView,
    levels: nat,
) -> Seq<Seq<char>>
    decreases levels,
{
    if levels == 0 {
        Seq::empty()
    } else {
        grouped_order_clauses(args, c, (levels - 1) as nat) + level_order_clauses(
            args,
            c,
            levels - 1,
        )
    }
}

/// The clauses that order a view without groups by the first `k` sorts.
pub open spec fn flat_sort_clauses(c: ViewConfigView, k: nat) -> Seq<Seq<char>>
    decreases k,
{
    if k == 0 {
        Seq::empty()
    } else {
        let prev = flat_sort_clauses(c, (k - 1) as nat);
        let s = c.sort[k - 1];
        if s.1 != SortDir::Unsorted {
            prev.push(col_name(c, s.0) + " "@ + sort_dir_text(s.1))
        } else {
            prev
        }
    }
}

/// The `ORDER BY` list.
pub open spec fn order_by_clauses(
    args: GenericSQLVirtualServerModelArgs,
    c: ViewConfigView,
) -> Seq<Seq<char>> {
    if c.group_by.len() > 0 {
        grouped_order_clauses(args, c, c.group_by.len())
    } else {
        flat_sort_clauses(c, c.sort.len())
    }
}

/// The names of the first `n` levels of the row path.
pub open spec fn partition_names(n: nat) -> Seq<Seq<char>> {
    Seq::new(n, |i: int| row_path_name(i as nat))
}

/// The window of level `level`: the rows that share the rolled-up levels
/// and the row path down to this level, in the order of the group-by
/// columns.
pub open spec fn window_clause(
    args: GenericSQLVirtualServerModelArgs,
    c: ViewConfigView,
    level: int,
) -> Seq<char> {
    window_name(level as nat) + " AS (PARTITION BY "@ + grouping_fn_text(args) + "("@
        + group_prefix(c, level + 1) + "), "@ + join(partition_names((level + 1) as nat), ", "@)
        + " ORDER BY "@ + join(group_names(c), ", "@) + ")"@
}

/// The `WINDOW` list: one window for each level but the deepest, in a view
/// that has a sort and more than one level.
pub open spec fn window_clauses(
    args: GenericSQLVirtualServerModelArgs,
    c: ViewConfigView,
) -> Seq<Seq<char>> {
    if c.sort.len() > 0 && c.group_by.len() > 1 {
        Seq::new((c.group_by.len() - 1) as nat, |i: int| window_clause(args, c, i))
    } else {
        Seq::empty()
    }
}

/// The conditions of the first `k` filters; a filter whose operand has no
/// literal has none.
pub open spec fn where_clauses(c: ViewConfigView, k: nat) -> Seq<Seq<char>>
    decreases k,
{
    if k == 0 {
        Seq::empty()
    } else {
        let prev = where_clauses(c, (k - 1) as nat);
        let f = c.filter[k - 1];
        match term_sql(f.term) {
            Some(lit) => prev.push(col_name(c, f.column) + " "@ + f.op.text() + " "@ + lit),
            None => prev,
        }
    }
}

/// The clauses that name the levels of the row path around a pivot.
pub open spec fn group_aliases(c: ViewConfigView) -> Seq<Seq<char>> {
    Seq::new(
        c.group_by.len(),
        |i: int| col_name(c, c.group_by[i]) + " AS "@ + row_path_name(i as nat),
    )
}

/// The split-by columns in double quotes.
pub open spec fn pivot_names(c: ViewConfigView) -> Seq<Seq<char>> {
    Seq::new(c.split_by.len(), |i: int| "\""@ + c.split_by[i] + "\""@)
}

/// The query up to its source.
pub open spec fn base_query(
    args: GenericSQLVirtualServerModelArgs,
    c: ViewConfigView,
    table_id: Seq<char>,
) -> Seq<char> {
    if c.split_by.len() > 0 {
        "SELECT * FROM "@ + table_id
    } else {
        "SELECT "@ + join(select_clauses(args, c), ", "@) + " FROM "@ + table_id
    }
}

/// The query up to its conditions.
pub open spec fn filtered_query(
    args: GenericSQLVirtualServerModelArgs,
    c: ViewConfigView,
    table_id: Seq<char>,
) -> Seq<char> {
    let conditions = where_clauses(c, c.filter.len());
    if conditions.len() > 0 {
        base_query(args, c, table_id) + " WHERE "@ + join(conditions, " AND "@)
    } else {
        base_query(args, c, table_id)
    }
}

/// The query up to its groups: a pivot around it where the view is split, a
/// rollup behind it where it is only grouped.
pub open spec fn grouped_query(
    args: GenericSQLVirtualServerModelArgs,
    c: ViewConfigView,
    table_id: Seq<char>,
) -> Seq<char> {
    let q = filtered_query(args, c, table_id);
    let groups = join(group_names(c), ", "@);
    if c.split_by.len() > 0 {
        "SELECT * EXCLUDE ("@ + groups + ") , "@ + join(group_aliases(c), ", "@)
            + " FROM (PIVOT ("@ + q + ") ON "@ + join(pivot_names(c), ", "@) + " USING "@ + join(
            select_clauses(args, c),
            ", "@,
        ) + " GROUP BY "@ + groups + ")"@
    } else if c.group_by.len() > 0 {
        q + " GROUP BY ROLLUP("@ + groups + ")"@
    } else {
        q
    }
}

/// The query up to its windows.
pub open spec fn windowed_query(
    args: GenericSQLVirtualServerModelArgs,
    c: ViewConfigView,
    table_id: Seq<char>,
) -> Seq<char> {
    let windows = window_clauses(args, c);
    if windows.len() > 0 {
        grouped_query(args, c, table_id) + " WINDOW "@ + join(windows, ", "@)
    } else {
        grouped_query(args, c, table_id)
    }
}

/// The whole query.
pub open spec fn view_query(
    args: GenericSQLVirtualServerModelArgs,
    c: ViewConfigView,
    table_id: Seq<char>,
) -> Seq<char> {
    let order = order_by_clauses(args, c);
    if order.len() > 0 {
        windowed_query(args, c, table_id) + " ORDER BY "@ + join(order, ", "@)
    } else {
        windowed_query(args, c, table_id)
    }
}

/// The statement that makes a view.
pub open spec fn make_view_sql(
    args: GenericSQLVirtualServerModelArgs,
    c: ViewConfigView,
    table_id: Seq<char>,
    view_id: Seq<char>,
) -> Seq<char> {
    "CREATE "@ + entity_text(args) + " "@ + view_id + " AS ("@ + view_query(args, c, table_id)
        + ")"@
}

/// A builder of SQL statements.
#[derive(Debug, Clone)]
pub struct GenericSQLVirtualServerModel(GenericSQLVirtualServerModelArgs);

impl Default for GenericSQLVirtualServerModel {
    fn default() -> (model: Self)
        ensures
            model.args().create_entity is None,
            model.args().grouping_fn is None,
    {
        GenericSQLVirtualServerModel(GenericSQLVirtualServerModelArgs::default())
    }
}

fn group_names_of(config: &ViewConfig) -> (out: Vec<String>)
    ensures
        deep(out@) == group_names(config.deep_view()),
{
    let ghost c = config.deep_view();
    let mut out: Vec<String> = Vec::new();
    let mut i: usize = 0;
    while i < config.group_by.len()
        invariant
            i <= config.group_by.len(),
            c == config.deep_view(),
            deep(out@) == group_names(c).take(i as int),
        decreases config.group_by.len() - i,
    {
        let name = column_name(config, config.group_by[i].as_str());
        proof {
            lemma_deep_extend(out@, name, group_names(c), i as int);
        }
        out.push(name);
        i = i + 1;
    }
    proof {
        assert(group_names(c).take(config.group_by.len() as int) =~= group_names(c));
    }
    out
}

fn column_clauses_of(config: &ViewConfig) -> (out: Vec<String>)
    ensures
        deep(out@) == column_clauses(config.deep_view(), config.columns.len() as nat),
{
    let ghost c = config.deep_view();
    let grouped = config.group_by.len() > 0;
    let mut out: Vec<String> = Vec::new();
    let mut i: usize = 0;
    while i < config.columns.len()
        invariant
            i <= config.columns.len(),
            c == config.deep_view(),
            grouped == (c.group_by.len() > 0),
            deep(out@) == column_clauses(c, i as nat),
        decreases config.columns.len() - i,
    {
        proof {
            assert(c.columns[i as int] == config.columns@[i as int].deep_view());
        }
        match &config.columns[i] {
            Some(col) => {
                let mut clause = if grouped {
                    let mut clause = aggregate_name(config, col.as_str());
                    clause.append("(");
                    let name = column_name(config, col.as_str());
                    clause.append(name.as_str());
                    clause.append(") as \"");
                    clause
                } else {
                    let mut clause = column_name(config, col.as_str());
                    clause.append(" as \"");
                    clause
                };
                let shown = column_alias(col.as_str());
                clause.append(shown.as_str());
                clause.append("\"");
                proof {
                    lemma_deep_push(out@, clause);
                }
                out.push(clause);
            },
            None => {},
        }
        i = i + 1;
    }
    out
}

fn flat_sort_clauses_of(config: &ViewConfig) -> (out: Vec<String>)
    ensures
        deep(out@) == flat_sort_clauses(config.deep_view(), config.sort.len() as nat),
{
    let ghost c = config.deep_view();
    let mut out: Vec<String> = Vec::new();
    let mut k: usize = 0;
    while k < config.sort.len()
        invariant
            k <= config.sort.len(),
            c == config.deep_view(),
            deep(out@) == flat_sort_clauses(c, k as nat),
        decreases config.sort.len() - k,
    {
        proof {
            assert(c.sort[k as int] == config.sort@[k as int].deep_view());
        }
        let sort = &config.sort[k];
        match sort.1 {
            SortDir::Unsorted => {},
            dir => {
                let mut clause = column_name(config, sort.0.as_str());
                clause.append(" ");
                clause.append(sort_dir_to_string(dir));
                proof {
                    lemma_deep_push(out@, clause);
                }
                out.push(clause);
            },
        }
        k = k + 1;
    }
    out
}

fn where_clauses_of(config: &ViewConfig) -> (out: Vec<String>)
    ensures
        deep(out@) == where_clauses(config.deep_view(), config.filter.len() as nat),
{
    let ghost c = config.deep_view();
    let mut out: Vec<String> = Vec::new();
    let mut k: usize = 0;
    while k < config.filter.len()
        invariant
            k <= config.filter.len(),
            c == config.deep_view(),
            deep(out@) == where_clauses(c, k as nat),
        decreases config.filter.len() - k,
    {
        proof {
            assert(c.filter[k as int] == config.filter@[k as int].deep_view());
        }
        let flt = &config.filter[k];
        match filter_term_to_sql(flt.term()) {
            Some(lit) => {
                let mut clause = column_name(config, flt.column());
                clause.append(" ");
                clause.append(flt.op());
                clause.append(" ");
                clause.append(lit.as_str());
                proof {
                    lemma_deep_push(out@, clause);
                }
                out.push(clause);
            },
            None => {},
        }
        k = k + 1;
    }
    out
}

fn group_aliases_of(config: &ViewConfig) -> (out: Vec<String>)
    ensures
        deep(out@) == group_aliases(config.deep_view()),
{
    let ghost c = config.deep_view();
    let mut out: Vec<String> = Vec::new();
    let mut i: usize = 0;
    while i < config.group_by.len()
        invariant
            i <= config.group_by.len(),
            c == config.deep_view(),
            deep(out@) == group_aliases(c).take(i as int),
        decreases config.group_by.len() - i,
    {
        let mut clause = column_name(config, config.group_by[i].as_str());
        clause.append(" AS ");
        let path = row_path_column(i);
        clause.append(path.as_str());
        proof {
            lemma_deep_extend(out@, clause, group_aliases(c), i as int);
        }
        out.push(clause);
        i = i + 1;
    }
    proof {
        assert(group_aliases(c).take(config.group_by.len() as int) =~= group_aliases(c));
    }
    out
}

fn pivot_names_of(config: &ViewConfig) -> (out: Vec<String>)
    ensures
        deep(out@) == pivot_names(config.deep_view()),
{
    let ghost c = config.deep_view();
    let mut out: Vec<String> = Vec::new();
    let mut i: usize = 0;
    while i < config.split_by.len()
        invariant
            i <= config.split_by.len(),
            c == config.deep_view(),
            deep(out@) == pivot_names(c).take(i as int),
        decreases config.split_by.len() - i,
    {
        let mut name = "\"".to_owned();
        name.append(config.split_by[i].as_str());
        name.append("\"");
        proof {
            lemma_deep_extend(out@, name, pivot_names(c), i as int);
        }
        out.push(name);
        i = i + 1;
    }
    proof {
        assert(pivot_names(c).take(config.split_by.len() as int) =~= pivot_names(c));
    }
    out
}

fn partition_names_of(n: usize) -> (out: Vec<String>)
    ensures
        deep(out@) == partition_names(n as nat),
{
    let mut out: Vec<String> = Vec::new();
    let mut i: usize = 0;
    while i < n
        invariant
            i <= n,
            deep(out@) == partition_names(n as nat).take(i as int),
        decreases n - i,
    {
        let name = row_path_column(i);
        proof {
            lemma_deep_extend(out@, name, partition_names(n as nat), i as int);
        }
        out.push(name);
        i = i + 1;
    }
    proof {
        assert(partition_names(n as nat).take(n as int) =~= partition_names(n as nat));
    }
    out
}

impl GenericSQLVirtualServerModel {
    /// The words of the dialect.
    pub closed spec fn args(&self) -> GenericSQLVirtualServerModelArgs {
        self.0
    }

    pub fn new(args: GenericSQLVirtualServerModelArgs) -> (model: Self)
        ensures
            model.args() == args,
    {
        GenericSQLVirtualServerModel(args)
    }

    fn grouping_fn(&self) -> (f: &str)
        ensures
            f@ == grouping_fn_text(self.args()),
    {
        match &self.0.grouping_fn {
            Some(f) => f.as_str(),
            None => "GROUPING_ID",
        }
    }

    fn create_entity(&self) -> (e: &str)
        ensures
            e@ == entity_text(self.args()),
    {
        match &self.0.create_entity {
            Some(e) => e.as_str(),
            None => "TABLE",
        }
    }

    fn select_clauses_of(&self, config: &ViewConfig, groups: &Vec<String>) -> (out: Vec<String>)
        requires
            deep(groups@) == group_names(config.deep_view()),
        ensures
            deep(out@) == select_clauses(self.args(), config.deep_view()),
    {
        let ghost c = config.deep_view();
        let mut out = column_clauses_of(config);
        if config.group_by.len() > 0 && config.split_by.len() == 0 {
            let ghost cols = deep(out@);
            let mut i: usize = 0;
            while i < config.group_by.len()
                invariant
                    i <= config.group_by.len(),
                    c == config.deep_view(),
                    deep(out@) == cols + row_path_clauses(c).take(i as int),
                decreases config.group_by.len() - i,
            {
                let mut clause = column_name(config, config.group_by[i].as_str());
                clause.append(" as ");
                let path = row_path_column(i);
                clause.append(path.as_str());
                proof {
                    lemma_deep_push(out@, clause);
                    assert((cols + row_path_clauses(c).take(i as int)).push(clause@) =~= cols
                        + row_path_clauses(c).take(i + 1));
                }
                out.push(clause);
                i = i + 1;
            }
            let mut clause = self.grouping_fn().to_owned();
            clause.append("(");
            let joined = join_strings(groups, ", ");
            clause.append(joined.as_str());
            clause.append(") AS __GROUPING_ID__");
            proof {
                assert(row_path_clauses(c).take(config.group_by.len() as int) =~= row_path_clauses(
                    c,
                ));
                lemma_deep_push(out@, clause);
            }
            out.push(clause);
        }
        out
    }

    fn level_order_clauses_of(
        &self,
        config: &ViewConfig,
        groups: &Vec<String>,
        level: usize,
    ) -> (out: Vec<String>)
        requires
            deep(groups@) == group_names(config.deep_view()),
            level < config.group_by.len(),
        ensures
            deep(out@) == level_order_clauses(self.args(), config.deep_view(), level as int),
    {
        let ghost c = config.deep_view();
        let mut out: Vec<String> = Vec::new();
        proof {
            assert(groups@.len() == deep(groups@).len());
        }
        if config.split_by.len() == 0 {
            let mut clause = self.grouping_fn().to_owned();
            clause.append("(");
            let joined = join_first(groups, level + 1, ", ");
            clause.append(joined.as_str());
            clause.append(") DESC");
            proof {
                lemma_deep_push(out@, clause);
                assert(deep(out@).push(clause@) =~= seq![clause@]);
            }
            out.push(clause);
        } else {
            proof {
                assert(deep(out@) =~= Seq::<Seq<char>>::empty());
            }
        }
        let ghost head = deep(out@);
        let deepest = level >= config.group_by.len() - 1;
        let mut k: usize = 0;
        proof {
            assert(head + level_sort_clauses(c, level as int, 0) =~= head);
        }
        while k < config.sort.len()
            invariant
                k <= config.sort.len(),
                c == config.deep_view(),
                level < config.group_by.len(),
                deepest == (level >= c.group_by.len() - 1),
                deep(out@) == head + level_sort_clauses(c, level as int, k as nat),
            decreases config.sort.len() - k,
        {
            proof {
                assert(c.sort[k as int] == config.sort@[k as int].deep_view());
            }
            let sort = &config.sort[k];
            match sort.1 {
                SortDir::Unsorted => {},
                dir => {
                    let agg = aggregate_name(config, sort.0.as_str());
                    let name = column_name(config, sort.0.as_str());
                    let mut clause = if deepest {
                        let mut clause = agg;
                        clause.append("(");
                        clause.append(name.as_str());
                        clause.append(") ");
                        clause
                    } else {
                        let mut clause = "first(".to_owned();
                        clause.append(agg.as_str());
                        clause.append("(");
                        clause.append(name.as_str());
                        clause.append(")) OVER ");
                        let window = window_label(level);
                        clause.append(window.as_str());
                        clause.append(" ");
                        clause
                    };
                    clause.append(sort_dir_to_string(dir));
                    proof {
                        lemma_deep_push(out@, clause);
                        assert((head + level_sort_clauses(c, level as int, k as nat)).push(clause@)
                            =~= head + level_sort_clauses(c, level as int, k as nat).push(
                            clause@,
                        ));
                    }
                    out.push(clause);
                },
            }
            k = k + 1;
        }
        let mut clause = row_path_column(level);
        clause.append(" ASC");
        proof {
            lemma_deep_push(out@, clause);
        }
        out.push(clause);
        out
    }

    fn order_by_clauses_of(&self, config: &ViewConfig, groups: &Vec<String>) -> (out: Vec<String>)
        requires
            deep(groups@) == group_names(config.deep_view()),
        ensures
            deep(out@) == order_by_clauses(self.args(), config.deep_view()),
    {
        let ghost c = config.deep_view();
        if config.group_by.len() > 0 {
            let mut out: Vec<String> = Vec::new();
            let mut level: usize = 0;
            while level < config.group_by.len()
                invariant
                    level <= config.group_by.len(),
                    c == config.deep_view(),
                    deep(groups@) == group_names(c),
                    deep(out@) == grouped_order_clauses(self.args(), c, level as nat),
                decreases config.group_by.len() - level,
            {
                let mut clauses = self.level_order_clauses_of(config, groups, level);
                proof {
                    lemma_deep_add(out@, clauses@);
                }
                out.append(&mut clauses);
                level = level + 1;
            }
            out
        } else {
            flat_sort_clauses_of(config)
        }
    }

    fn window_clauses_of(&self, config: &ViewConfig, groups: &Vec<String>) -> (out: Vec<String>)
        requires
            deep(groups@) == group_names(config.deep_view()),
        ensures
            deep(out@) == window_clauses(self.args(), config.deep_view()),
    {
        let ghost c = config.deep_view();
        let mut out: Vec<String> = Vec::new();
        proof {
            assert(groups@.len() == deep(groups@).len());
        }
        if config.sort.len() > 0 && config.group_by.len() > 1 {
            let all_groups = join_strings(groups, ", ");
            let mut level: usize = 0;
            while level < config.group_by.len() - 1
                invariant
                    level <= config.group_by.len() - 1,
                    config.group_by.len() > 1,
                    c.sort.len() > 0,
                    c == config.deep_view(),
                    deep(groups@) == group_names(c),
                    groups@.len() == c.group_by.len(),
                    all_groups@ == join(group_names(c), ", "@),
                    deep(out@) == window_clauses(self.args(), c).take(level as int),
                decreases config.group_by.len() - 1 - level,
            {
                let mut clause = window_label(level);
                clause.append(" AS (PARTITION BY ");
                clause.append(self.grouping_fn());
                clause.append("(");
                let sub_groups = join_first(groups, level + 1, ", ");
                clause.append(sub_groups.as_str());
                clause.append("), ");
                let names = partition_names_of(level + 1);
                let partition = join_strings(&names, ", ");
                clause.append(partition.as_str());
                clause.append(" ORDER BY ");
                clause.append(all_groups.as_str());
                clause.append(")");
                proof {
                    lemma_deep_extend(out@, clause, window_clauses(self.args(), c), level as int);
                }
                out.push(clause);
                level = level + 1;
            }
            proof {
                assert(window_clauses(self.args(), c).take(config.group_by.len() - 1)
                    =~= window_clauses(self.args(), c));
            }
        } else {
            proof {
                assert(deep(out@) =~= Seq::<Seq<char>>::empty());
            }
        }
        out
    }

    /// The statement that makes the view `view_id` of the table `table_id`
    /// as `config` describes it.
    pub fn table_make_view(&self, table_id: &str, view_id: &str, config: &ViewConfig) -> (sql:
        GenericSQLResult<String>)
        ensures
            sql is Ok,
            sql->Ok_0@ == make_view_sql(self.args(), config.deep_view(), table_id@, view_id@),
    {
        let ghost c = config.deep_view();
        let groups = group_names_of(config);
        let order_by = self.order_by_clauses_of(config, &groups);
        let windows = self.window_clauses_of(config, &groups);
        let conditions = where_clauses_of(config);
        let select = self.select_clauses_of(config, &groups);
        let all_groups = join_strings(&groups, ", ");

        let mut query = if config.split_by.len() > 0 {
            "SELECT * FROM ".to_owned().concat(table_id)
        } else {
            let mut query = "SELECT ".to_owned();
            let joined = join_strings(&select, ", ");
            query.append(joined.as_str());
            query.append(" FROM ");
            query.append(table_id);
            query
        };
        assert(query@ == base_query(self.args(), c, table_id@));
        proof {
            assert(conditions@.len() == deep(conditions@).len());
            assert(windows@.len() == deep(windows@).len());
            assert(order_by@.len() == deep(order_by@).len());
        }
        if conditions.len() > 0 {
            query.append(" WHERE ");
            let joined = join_strings(&conditions, " AND ");
            query.append(joined.as_str());
        }
        assert(query@ == filtered_query(self.args(), c, table_id@));
        if config.split_by.len() > 0 {
            let aliases = group_aliases_of(config);
            let pivot_on = pivot_names_of(config);
            let mut outer = "SELECT * EXCLUDE (".to_owned();
            outer.append(all_groups.as_str());
            outer.append(") , ");
            let joined_aliases = join_strings(&aliases, ", ");
            outer.append(joined_aliases.as_str());
            outer.append(" FROM (PIVOT (");
            outer.append(query.as_str());
            outer.append(") ON ");
            let joined_pivot = join_strings(&pivot_on, ", ");
            outer.append(joined_pivot.as_str());
            outer.append(" USING ");
            let joined_select = join_strings(&select, ", ");
            outer.append(joined_select.as_str());
            outer.append(" GROUP BY ");
            outer.append(all_groups.as_str());
            outer.append(")");
            query = outer;
        } else if config.group_by.len() > 0 {
            query.append(" GROUP BY ROLLUP(");
            query.append(all_groups.as_str());
            query.append(")");
        }
        assert(query@ == grouped_query(self.args(), c, table_id@));
        if windows.len() > 0 {
            query.append(" WINDOW ");
            let joined = join_strings(&windows, ", ");
            query.append(joined.as_str());
        }
        assert(query@ == windowed_query(self.args(), c, table_id@));
        if order_by.len() > 0 {
            query.append(" ORDER BY ");
            let joined = join_strings(&order_by, ", ");
            query.append(joined.as_str());
        }
        assert(query@ == view_query(self.args(), c, table_id@));
        let mut sql = "CREATE ".to_owned();
        sql.append(self.create_entity());
        sql.append(" ");
        sql.append(view_id);
        sql.append(" AS (");
        sql.append(query.as_str());
        sql.append(")");
        Ok(sql)
    }
}

/// The names among the first `k` that do not begin with two underscores:
/// the columns that hold data.
pub open spec fn data_names(keys: Seq<Seq<char>>, k: nat) -> Seq<Seq<char>>
    decreases k,
{
    if k == 0 {
        Seq::empty()
    } else {
        let prev = data_names(keys, (k - 1) as nat);
        if has_prefix(keys[k - 1], seq!['_', '_']) {
            prev
        } else {
            prev.push(keys[k - 1])
        }
    }
}

/// The part of `names` from position `start` up to, not including, `end`
/// (to the last one where `end` is absent), as far as `names` reaches.
pub open spec fn column_window(names: Seq<Seq<char>>, start: int, end: Option<int>) -> Seq<
    Seq<char>,
> {
    let lo = if start < names.len() {
        start
    } else {
        names.len() as int
    };
    let hi = match end {
        Some(e) => if e < names.len() {
            e
        } else {
            names.len() as int
        },
        None => names.len() as int,
    };
    names.subrange(lo, hi)
}

/// Each name in double quotes.
pub open spec fn quoted(names: Seq<Seq<char>>) -> Seq<Seq<char>> {
    Seq::new(names.len(), |i: int| "\""@ + names[i] + "\""@)
}

/// The synthetic columns of a grouped view: the grouping id (in a view that
/// is not split), then the levels of the row path.
pub open spec fn synthetic_columns(c: ViewConfigView) -> Seq<Seq<char>> {
    if c.group_by.len() > 0 {
        let head = if c.split_by.len() == 0 {
            seq!["\"__GROUPING_ID__\""@]
        } else {
            Seq::empty()
        };
        head + quoted(partition_names(c.group_by.len()))
    } else {
        Seq::empty()
    }
}

/// The first row of a viewport.
pub open spec fn first_row(viewport: ViewPort) -> int {
    match viewport.start_row {
        Some(r) => r as int,
        None => 0,
    }
}

/// The first column of a viewport.
pub open spec fn first_col(viewport: ViewPort) -> int {
    match viewport.start_col {
        Some(c) => c as int,
        None => 0,
    }
}

/// A viewport ends, where it ends at all, no earlier than it starts.
pub open spec fn viewport_in_order(viewport: ViewPort) -> bool {
    &&& viewport.end_row is Some ==> first_row(viewport) <= viewport.end_row->0
    &&& viewport.end_col is Some ==> first_col(viewport) <= viewport.end_col->0
}

/// The clause that pages the rows; none for a viewport without last row.
pub open spec fn limit_clause(viewport: ViewPort) -> Seq<char> {
    match viewport.end_row {
        Some(end) => "LIMIT "@ + decimal((end - first_row(viewport)) as nat) + " OFFSET "@
            + decimal(first_row(viewport) as nat),
        None => Seq::empty(),
    }
}

/// The columns that a page selects: all synthetic columns, then the data
/// columns inside the viewport.
pub open spec fn page_columns(
    c: ViewConfigView,
    viewport: ViewPort,
    keys: Seq<Seq<char>>,
) -> Seq<Seq<char>> {
    synthetic_columns(c) + quoted(
        column_window(
            data_names(keys, keys.len()),
            first_col(viewport),
            match viewport.end_col {
                Some(e) => Some(e as int),
                None => None,
            },
        ),
    )
}

/// The statement that fetches a page of a view.
pub open spec fn get_data_sql(
    c: ViewConfigView,
    viewport: ViewPort,
    keys: Seq<Seq<char>>,
    view_id: Seq<char>,
) -> Seq<char> {
    trim(
        "SELECT "@ + join(page_columns(c, viewport, keys), ", "@) + " FROM "@ + view_id + " "@
            + limit_clause(viewport),
    )
}

proof fn lemma_window_push(names: Seq<Seq<char>>, x: Seq<char>, start: int, end: Option<int>)
    requires
        0 <= start,
        end is Some ==> start <= end->0,
    ensures
        column_window(names.push(x), start, end) == if start <= names.len() && (end is None
            || names.len() < end->0) {
            column_window(names, start, end).push(x)
        } else {
            column_window(names, start, end)
        },
{
    if start <= names.len() && (end is None || names.len() < end->0) {
        assert(column_window(names.push(x), start, end) =~= column_window(names, start, end).push(
            x,
        ));
    } else {
        assert(column_window(names.push(x), start, end) =~= column_window(names, start, end));
    }
}

fn synthetic_columns_of(config: &ViewConfig) -> (out: Vec<String>)
    ensures
        deep(out@) == synthetic_columns(config.deep_view()),
{
    let ghost c = config.deep_view();
    let mut out: Vec<String> = Vec::new();
    let n = config.group_by.len();
    if n > 0 {
        if config.split_by.len() == 0 {
            let id = "\"__GROUPING_ID__\"".to_owned();
            proof {
                lemma_deep_push(out@, id);
                assert(deep(out@).push(id@) =~= seq![id@]);
            }
            out.push(id);
        } else {
            proof {
                assert(deep(out@) =~= Seq::<Seq<char>>::empty());
            }
        }
        let ghost head = deep(out@);
        let ghost target = quoted(partition_names(n as nat));
        let mut i: usize = 0;
        proof {
            assert(head + target.take(0) =~= head);
        }
        while i < n
            invariant
                i <= n,
                target == quoted(partition_names(n as nat)),
                deep(out@) == head + target.take(i as int),
            decreases n - i,
        {
            let mut name = "\"".to_owned();
            let path = row_path_column(i);
            name.append(path.as_str());
            name.append("\"");
            proof {
                lemma_deep_push(out@, name);
                assert((head + target.take(i as int)).push(name@) =~= head + target.take(i + 1));
            }
            out.push(name);
            i = i + 1;
        }
        proof {
            assert(target.take(n as int) =~= target);
        }
    } else {
        proof {
            assert(deep(out@) =~= Seq::<Seq<char>>::empty());
        }
    }
    out
}

impl GenericSQLVirtualServerModel {
    /// The statement that lists the tables.
    pub fn get_hosted_tables(&self) -> (sql: GenericSQLResult<String>)
        ensures
            sql is Ok,
            sql->Ok_0@ == "SHOW ALL TABLES"@,
    {
        Ok("SHOW ALL TABLES".to_owned())
    }

    /// The statement that describes a table.
    pub fn table_schema(&self, table_id: &str) -> (sql: GenericSQLResult<String>)
        ensures
            sql is Ok,
            sql->Ok_0@ == "DESCRIBE "@ + table_id@,
    {
        Ok("DESCRIBE ".to_owned().concat(table_id))
    }

    /// The statement that counts the rows of a table.
    pub fn table_size(&self, table_id: &str) -> (sql: GenericSQLResult<String>)
        ensures
            sql is Ok,
            sql->Ok_0@ == "SELECT COUNT(*) FROM "@ + table_id@,
    {
        Ok("SELECT COUNT(*) FROM ".to_owned().concat(table_id))
    }

    /// The statement that counts the columns of a view.
    pub fn view_column_size(&self, view_id: &str) -> (sql: GenericSQLResult<String>)
        ensures
            sql is Ok,
            sql->Ok_0@ == "SELECT COUNT(*) FROM (DESCRIBE "@ + view_id@ + ")"@,
    {
        Ok("SELECT COUNT(*) FROM (DESCRIBE ".to_owned().concat(view_id).concat(")"))
    }

    /// The statement that tells the type of an expression over a table.
    pub fn table_validate_expression(&self, table_id: &str, expression: &str) -> (sql:
        GenericSQLResult<String>)
        ensures
            sql is Ok,
            sql->Ok_0@ == "DESCRIBE (SELECT "@ + expression@ + " FROM "@ + table_id@ + ")"@,
    {
        Ok(
            "DESCRIBE (SELECT ".to_owned().concat(expression).concat(" FROM ").concat(
                table_id,
            ).concat(")"),
        )
    }

    /// The statement that deletes a view.
    pub fn view_delete(&self, view_id: &str) -> (sql: GenericSQLResult<String>)
        ensures
            sql is Ok,
            sql->Ok_0@ == "DROP TABLE IF EXISTS "@ + view_id@,
    {
        Ok("DROP TABLE IF EXISTS ".to_owned().concat(view_id))
    }

    /// The statement that describes a view.
    pub fn view_schema(&self, view_id: &str) -> (sql: GenericSQLResult<String>)
        ensures
            sql is Ok,
            sql->Ok_0@ == "DESCRIBE "@ + view_id@,
    {
        Ok("DESCRIBE ".to_owned().concat(view_id))
    }

    /// The statement that counts the rows of a view.
    pub fn view_size(&self, view_id: &str) -> (sql: GenericSQLResult<String>)
        ensures
            sql is Ok,
            sql->Ok_0@ == "SELECT COUNT(*) FROM "@ + view_id@,
    {
        Ok("SELECT COUNT(*) FROM ".to_owned().concat(view_id))
    }

    /// The statement that fetches the page `viewport` of the view `view_id`,
    /// whose columns `schema` lists. A viewport that ends before it starts
    /// is refused.
    pub fn view_get_data(
        &self,
        view_id: &str,
        config: &ViewConfig,
        viewport: &ViewPort,
        schema: &OrderedMap<ColumnType>,
    ) -> (sql: GenericSQLResult<String>)
        ensures
            sql is Ok == viewport_in_order(*viewport),
            sql is Ok ==> sql->Ok_0@ == get_data_sql(
                config.deep_view(),
                *viewport,
                schema@.keys,
                view_id@,
            ),
            sql is Err ==> sql->Err_0 is InvalidConfig,
    {
        let ghost c = config.deep_view();
        let ghost keys = schema@.keys;
        let start_col: usize = match viewport.start_col {
            Some(c) => c as usize,
            None => 0,
        };
        let start_row: u32 = match viewport.start_row {
            Some(r) => r,
            None => 0,
        };
        let end_col: Option<usize> = match viewport.end_col {
            Some(e) => Some(e as usize),
            None => None,
        };
        let rows_in_order = match viewport.end_row {
            Some(end) => start_row <= end,
            None => true,
        };
        let cols_in_order = match end_col {
            Some(end) => start_col <= end,
            None => true,
        };
        if !rows_in_order || !cols_in_order {
            return Err(
                GenericSQLError::InvalidConfig("viewport ends before it starts".to_owned()),
            );
        }
        let limit = match viewport.end_row {
            Some(end) => {
                let mut limit = "LIMIT ".to_owned();
                push_decimal(&mut limit, (end - start_row) as u64);
                limit.append(" OFFSET ");
                push_decimal(&mut limit, start_row as u64);
                limit
            },
            None => String::new(),
        };
        assert(limit@ == limit_clause(*viewport));

        let ghost end_spec: Option<int> = match viewport.end_col {
            Some(e) => Some(e as int),
            None => None,
        };
        let mut columns = synthetic_columns_of(config);
        let ghost head = deep(columns@);
        let mut seen: usize = 0;
        let mut i: usize = 0;
        proof {
            assert(head + quoted(column_window(data_names(keys, 0), start_col as int, end_spec))
                =~= head);
        }
        while i < schema.len()
            invariant
                i <= schema@.len(),
                keys == schema@.keys,
                seen == data_names(keys, i as nat).len(),
                seen <= i,
                end_spec == match end_col {
                    Some(e) => Some(e as int),
                    None => None::<int>,
                },
                end_col is Some ==> start_col <= end_col->0,
                deep(columns@) == head + quoted(
                    column_window(data_names(keys, i as nat), start_col as int, end_spec),
                ),
            decreases schema@.len() - i,
        {
            match schema.get_index(i) {
                Some((name, _)) => {
                    proof {
                        assert(keys[i as int] == name@);
                    }
                    if !starts_with_underscores(name.as_str()) {
                        let inside = start_col <= seen && match end_col {
                            Some(end) => seen < end,
                            None => true,
                        };
                        proof {
                            lemma_window_push(
                                data_names(keys, i as nat),
                                name@,
                                start_col as int,
                                end_spec,
                            );
                        }
                        if inside {
                            let mut column = "\"".to_owned();
                            column.append(name.as_str());
                            column.append("\"");
                            proof {
                                let before = column_window(
                                    data_names(keys, i as nat),
                                    start_col as int,
                                    end_spec,
                                );
                                lemma_deep_push(columns@, column);
                                assert((head + quoted(before)).push(column@) =~= head + quoted(
                                    before.push(name@),
                                ));
                            }
                            columns.push(column);
                        }
                        seen = seen + 1;
                    }
                },
                None => {},
            }
            i = i + 1;
        }
        let mut sql = "SELECT ".to_owned();
        let joined = join_strings(&columns, ", ");
        sql.append(joined.as_str());
        sql.append(" FROM ");
        sql.append(view_id);
        sql.append(" ");
        sql.append(limit.as_str());
        Ok(trimmed(sql.as_str()))
    }
}

/// Two runs of `table_make_view` on the same input give the same statement.
pub proof fn lemma_table_make_view_deterministic(
    model: GenericSQLVirtualServerModel,
    table_id: &str,
    view_id: &str,
    config: ViewConfig,
    first: GenericSQLResult<String>,
    second: GenericSQLResult<String>,
)
    requires
        call_ensures(
            GenericSQLVirtualServerModel::table_make_view,
            (&model, table_id, view_id, &config),
            first,
        ),
        call_ensures(
            GenericSQLVirtualServerModel::table_make_view,
            (&model, table_id, view_id, &config),
            second,
        ),
    ensures
        first is Ok,
        second is Ok,
        first->Ok_0@ == second->Ok_0@,
{
}

/// Two runs of `get_hosted_tables` on the same input give the same statement.
pub proof fn lemma_get_hosted_tables_deterministic(
    model: GenericSQLVirtualServerModel,
    first: GenericSQLResult<String>,
    second: GenericSQLResult<String>,
)
    requires
        call_ensures(GenericSQLVirtualServerModel::get_hosted_tables, (&model, ), first),
        call_ensures(GenericSQLVirtualServerModel::get_hosted_tables, (&model, ), second),
    ensures
        first is Ok,
        second is Ok,
        first->Ok_0@ == second->Ok_0@,
{
}

/// Two runs of `table_schema` on the same input give the same statement.
pub proof fn lemma_table_schema_deterministic(
    model: GenericSQLVirtualServerModel,
    table_id: &str,
    first: GenericSQLResult<String>,
    second: GenericSQLResult<String>,
)
    requires
        call_ensures(GenericSQLVirtualServerModel::table_schema, (&model, table_id), first),
        call_ensures(GenericSQLVirtualServerModel::table_schema, (&model, table_id), second),
    ensures
        first is Ok,
        second is Ok,
        first->Ok_0@ == second->Ok_0@,
{
}

/// Two runs of `table_size` on the same input give the same statement.
pub proof fn lemma_table_size_deterministic(
    model: GenericSQLVirtualServerModel,
    table_id: &str,
    first: GenericSQLResult<String>,
    second: GenericSQLResult<String>,
)
    requires
        call_ensures(GenericSQLVirtualServerModel::table_size, (&model, table_id), first),
        call_ensures(GenericSQLVirtualServerModel::table_size, (&model, table_id), second),
    ensures
        first is Ok,
        second is Ok,
        first->Ok_0@ == second->Ok_0@,
{
}

/// Two runs of `view_column_size` on the same input give the same statement.
pub proof fn lemma_view_column_size_deterministic(
    model: GenericSQLVirtualServerModel,
    view_id: &str,
    first: GenericSQLResult<String>,
    second: GenericSQLResult<String>,
)
    requires
        call_ensures(GenericSQLVirtualServerModel::view_column_size, (&model, view_id), first),
        call_ensures(GenericSQLVirtualServerModel::view_column_size, (&model, view_id), second),
    ensures
        first is Ok,
        second is Ok,
        first->Ok_0@ == second->Ok_0@,
{
}

/// Two runs of `view_delete` on the same input give the same statement.
pub proof fn lemma_view_delete_deterministic(
    model: GenericSQLVirtualServerModel,
    view_id: &str,
    first: GenericSQLResult<String>,
    second: GenericSQLResult<String>,
)
    requires
        call_ensures(GenericSQLVirtualServerModel::view_delete, (&model, view_id), first),
        call_ensures(GenericSQLVirtualServerModel::view_delete, (&model, view_id), second),
    ensures
        first is Ok,
        second is Ok,
        first->Ok_0@ == second->Ok_0@,
{
}

/// Two runs of `view_schema` on the same input give the same statement.
pub proof fn lemma_view_schema_deterministic(
    model: GenericSQLVirtualServerModel,
    view_id: &str,
    first: GenericSQLResult<String>,
    second: GenericSQLResult<String>,
)
    requires
        call_ensures(GenericSQLVirtualServerModel::view_schema, (&model, view_id), first),
        call_ensures(GenericSQLVirtualServerModel::view_schema, (&model, view_id), second),
    ensures
        first is Ok,
        second is Ok,
        first->Ok_0@ == second->Ok_0@,
{
}

/// Two runs of `view_size` on the same input give the same statement.
pub proof fn lemma_view_size_deterministic(
    model: GenericSQLVirtualServerModel,
    view_id: &str,
    first: GenericSQLResult<String>,
    second: GenericSQLResult<String>,
)
    requires
        call_ensures(GenericSQLVirtualServerModel::view_size, (&model, view_id), first),
        call_ensures(GenericSQLVirtualServerModel::view_size, (&model, view_id), second),
    ensures
        first is Ok,
        second is Ok,
        first->Ok_0@ == second->Ok_0@,
{
}

/// Two runs of `table_validate_expression` on the same input give the same statement.
pub proof fn lemma_table_validate_expression_deterministic(
    model: GenericSQLVirtualServerModel,
    table_id: &str,
    expression: &str,
    first: GenericSQLResult<String>,
    second: GenericSQLResult<String>,
)
    requires
        call_ensures(GenericSQLVirtualServerModel::table_validate_expression, (&model, table_id, expression), first),
        call_ensures(GenericSQLVirtualServerModel::table_validate_expression, (&model, table_id, expression), second),
    ensures
        first is Ok,
        second is Ok,
        first->Ok_0@ == second->Ok_0@,
{
}

/// Two runs of `view_get_data` on the same input both give the same
/// statement, or both refuse the viewport.
pub proof fn lemma_view_get_data_deterministic(
    model: GenericSQLVirtualServerModel,
    view_id: &str,
    config: ViewConfig,
    viewport: ViewPort,
    schema: OrderedMap<ColumnType>,
    first: GenericSQLResult<String>,
    second: GenericSQLResult<String>,
)
    requires
        call_ensures(
            GenericSQLVirtualServerModel::view_get_data,
            (&model, view_id, &config, &viewport, &schema),
            first,
        ),
        call_ensures(
            GenericSQLVirtualServerModel::view_get_data,
            (&model, view_id, &config, &viewport, &schema),
            second,
        ),
    ensures
        first is Ok == second is Ok,
        first is Ok ==> first->Ok_0@ == second->Ok_0@,
        first is Err ==> first->Err_0 is InvalidConfig && second->Err_0 is InvalidConfig,
{
}

/// The literals of two lists, one after the other, are the literals of the
/// lists put together.
pub proof fn lemma_scalar_literals_add(a: Seq<ScalarView>, b: Seq<ScalarView>)
    ensures
        scalar_literals(a + b) == scalar_literals(a) + scalar_literals(b),
    decreases b.len(),
{
    if b.len() == 0 {
        assert(a + b =~= a);
        assert(scalar_literals(a) + scalar_literals(b) =~= scalar_literals(a));
    } else {
        assert((a + b).drop_last() =~= a + b.drop_last());
        assert((a + b).last() == b.last());
        lemma_scalar_literals_add(a, b.drop_last());
        match scalar_sql(b.last()) {
            Some(lit) => {
                assert((scalar_literals(a) + scalar_literals(b.drop_last())).push(lit)
                    =~= scalar_literals(a) + scalar_literals(b.drop_last()).push(lit));
            },
            None => {},
        }
    }
}

/// A `Null` adds no literal to a filter's operand: alone it has none, and
/// in a list the literal is what it would be without it.
pub proof fn lemma_null_adds_no_literal(before: Seq<ScalarView>, after: Seq<ScalarView>)
    ensures
        term_sql(FilterTermView::Scalar(ScalarView::Null)) is None,
        scalar_literals(before + seq![ScalarView::Null] + after) == scalar_literals(before + after),
        term_sql(FilterTermView::Array(before + seq![ScalarView::Null] + after)) == term_sql(
            FilterTermView::Array(before + after),
        ),
{
    let null = seq![ScalarView::Null];
    lemma_scalar_literals_add(before + null, after);
    lemma_scalar_literals_add(before, null);
    lemma_scalar_literals_add(before, after);
    assert(null.len() == 1 && null.last() == ScalarView::Null);
    assert(null.drop_last().len() == 0);
    assert(scalar_literals(null.drop_last()) =~= Seq::<Seq<char>>::empty());
    assert(scalar_literals(null) =~= Seq::<Seq<char>>::empty());
    assert(scalar_literals(before) + scalar_literals(null) =~= scalar_literals(before));
}

/// The schema that the first `k` pairs of a column's name and its type's
/// name stand for, or what tells of the first type name that stands for no
/// type.
pub open spec fn schema_of_names(pairs: Seq<(Seq<char>, Seq<char>)>, k: nat) -> Result<
    Entries<ColumnType>,
    Seq<char>,
>
    decreases k,
{
    if k == 0 {
        Ok(Entries::empty())
    } else {
        match schema_of_names(pairs, (k - 1) as nat) {
            Err(e) => Err(e),
            Ok(schema) => match type_of_name(pairs[k - 1].1) {
                Some(t) => Ok(schema.put(pairs[k - 1].0, t)),
                None => Err("Unknown column type: "@ + pairs[k - 1].1),
            },
        }
    }
}

/// Reads a schema from pairs of a column's name and the name of its type.
pub fn parse_schema(pairs: &Vec<(String, String)>) -> (schema: Result<
    OrderedMap<ColumnType>,
    String,
>)
    ensures
        match schema {
            Ok(m) => schema_of_names(deep(pairs@), pairs@.len()) == Ok::<Entries<ColumnType>, Seq<char>>(
                m.deep_view(),
            ),
            Err(e) => schema_of_names(deep(pairs@), pairs@.len()) == Err::<Entries<ColumnType>, Seq<char>>(
                e@,
            ),
        },
{
    let ghost all = deep(pairs@);
    let mut schema: OrderedMap<ColumnType> = OrderedMap::new();
    let mut i: usize = 0;
    proof {
        assert(schema.deep_view().values =~= Map::empty());
    }
    while i < pairs.len()
        invariant
            i <= pairs.len(),
            all == deep(pairs@),
            schema_of_names(all, i as nat) == Ok::<Entries<ColumnType>, Seq<char>>(
                schema.deep_view(),
            ),
        ensures
            i == pairs.len(),
        decreases pairs.len() - i,
    {
        proof {
            assert(all[i as int] == pairs@[i as int].deep_view());
        }
        match ColumnType::from_name(pairs[i].1.as_str()) {
            Some(t) => {
                let ghost before = schema@;
                schema.insert(pairs[i].0.clone(), t);
                proof {
                    assert(deep_entries(before.put(pairs@[i as int].0@, t)).values =~= deep_entries(
                        before,
                    ).put(pairs@[i as int].0@, t).values);
                }
            },
            None => {
                let why = "Unknown column type: ".to_owned().concat(pairs[i].1.as_str());
                proof {
                    lemma_schema_error_stays(all, (i + 1) as nat, pairs@.len());
                }
                return Err(why);
            },
        }
        i = i + 1;
    }
    Ok(schema)
}

proof fn lemma_schema_error_stays(pairs: Seq<(Seq<char>, Seq<char>)>, k: nat, n: nat)
    requires
        k <= n,
        schema_of_names(pairs, k) is Err,
    ensures
        schema_of_names(pairs, n) == schema_of_names(pairs, k),
    decreases n - k,
{
    if k < n {
        lemma_schema_error_stays(pairs, k, (n - 1) as nat);
    }
}

/// The select list of a grouped view that is not split holds, behind the
/// clauses of the columns, one clause for each level of the row path and,
/// last, the one clause of the grouping id; its query ends in a rollup over
/// the group-by columns. The select list of any other view holds the clauses
/// of the columns and no more.
pub proof fn lemma_rollup_shape(
    args: GenericSQLVirtualServerModelArgs,
    c: ViewConfigView,
    table_id: Seq<char>,
)
    ensures
        c.group_by.len() > 0 && c.split_by.len() == 0 ==> {
            &&& select_clauses(args, c).len() == column_clauses(c, c.columns.len()).len()
                + c.group_by.len() + 1
            &&& select_clauses(args, c).last() == grouping_clause(args, c)
            &&& forall|i: int|
                0 <= i < c.group_by.len() ==> #[trigger] select_clauses(args, c)[column_clauses(
                    c,
                    c.columns.len(),
                ).len() + i] == row_path_clause(c, i)
            &&& grouped_query(args, c, table_id) == filtered_query(args, c, table_id)
                + " GROUP BY ROLLUP("@ + join(group_names(c), ", "@) + ")"@
        },
        !(c.group_by.len() > 0 && c.split_by.len() == 0) ==> select_clauses(args, c)
            == column_clauses(c, c.columns.len()),
{
}

/// The data columns of a page are columns of the schema, and none of them is
/// synthetic.
pub proof fn lemma_page_holds_data_columns(
    keys: Seq<Seq<char>>,
    k: nat,
    start: int,
    end: Option<int>,
    i: int,
)
    requires
        k <= keys.len(),
        0 <= start,
        end is Some ==> start <= end->0,
        0 <= i < column_window(data_names(keys, k), start, end).len(),
    ensures
        !has_prefix(column_window(data_names(keys, k), start, end)[i], seq!['_', '_']),
        keys.contains(column_window(data_names(keys, k), start, end)[i]),
{
    let names = data_names(keys, k);
    let lo = if start < names.len() {
        start
    } else {
        names.len() as int
    };
    lemma_data_names(keys, k, lo + i);
}

proof fn lemma_data_names(keys: Seq<Seq<char>>, k: nat, j: int)
    requires
        k <= keys.len(),
        0 <= j < data_names(keys, k).len(),
    ensures
        !has_prefix(data_names(keys, k)[j], seq!['_', '_']),
        keys.contains(data_names(keys, k)[j]),
    decreases k,
{
    if k > 0 {
        let prev = data_names(keys, (k - 1) as nat);
        if j < prev.len() {
            lemma_data_names(keys, (k - 1) as nat, j);
        } else {
            assert(data_names(keys, k)[j] == keys[k - 1]);
        }
    }
}

/// How often a character stands in a text.
pub open spec fn occurrences(s: Seq<char>, c: char) -> nat
    decreases s.len(),
{
    if s.len() == 0 {
        0
    } else {
        occurrences(s.drop_last(), c) + if s.last() == c {
            1nat
        } else {
            0nat
        }
    }
}

proof fn lemma_occurrences_push(s: Seq<char>, x: char, c: char)
    ensures
        occurrences(s.push(x), c) == occurrences(s, c) + if x == c {
            1nat
        } else {
            0nat
        },
{
    assert(s.push(x).drop_last() =~= s);
}

/// The literal of a string holds each single quote of the string twice,
/// and one more at either end: a string with one single quote has one
/// doubled quote in its literal.
pub proof fn lemma_string_literal_doubles_quotes(s: Seq<char>)
    ensures
        occurrences(replace_char(s, '\'', seq!['\'', '\'']), '\'') == 2 * occurrences(
            s,
            '\'',
        ),
        scalar_sql(ScalarView::String(s)) matches Some(lit) && occurrences(lit, '\'') == 2
            * occurrences(s, '\'') + 2,
{
    let q = '\'';
    let qq = seq![q, q];
    reveal_strlit("'");
    reveal_strlit("''");
    assert("''"@ =~= qq);
    assert("'"@ =~= seq![q]);
    lemma_doubled(s);
    let body = replace_char(s, q, qq);
    let lit = seq![q] + body + seq![q];
    lemma_occurrences_add(seq![q], body, q);
    lemma_occurrences_add(seq![q] + body, seq![q], q);
    lemma_occurrences_push(Seq::<char>::empty(), q, q);
    assert(Seq::<char>::empty().push(q) =~= seq![q]);
}

proof fn lemma_doubled(s: Seq<char>)
    ensures
        occurrences(replace_char(s, '\'', seq!['\'', '\'']), '\'') == 2 * occurrences(
            s,
            '\'',
        ),
    decreases s.len(),
{
    let q = '\'';
    let qq = seq![q, q];
    if s.len() > 0 {
        lemma_doubled(s.drop_last());
        let prev = replace_char(s.drop_last(), q, qq);
        if s.last() == q {
            assert(prev + qq =~= prev.push(q).push(q));
            lemma_occurrences_push(prev, q, q);
            lemma_occurrences_push(prev.push(q), q, q);
        } else {
            lemma_occurrences_push(prev, s.last(), q);
        }
    }
}

proof fn lemma_occurrences_add(a: Seq<char>, b: Seq<char>, c: char)
    ensures
        occurrences(a + b, c) == occurrences(a, c) + occurrences(b, c),
    decreases b.len(),
{
    if b.len() == 0 {
        assert(a + b =~= a);
    } else {
        assert((a + b).drop_last() =~= a + b.drop_last());
        lemma_occurrences_add(a, b.drop_last(), c);
    }
}

/// The scalars of a list that have a literal: all but `Null`, in order.
pub open spec fn with_literal(xs: Seq<ScalarView>) -> Seq<ScalarView> {
    xs.filter(|x: ScalarView| !(x is Null))
}

/// The literal of each scalar of a list in which each has one.
pub open spec fn literals_of(xs: Seq<ScalarView>) -> Seq<Seq<char>> {
    xs.map_values(|x: ScalarView| scalar_sql(x)->0)
}

/// A scalar has no literal exactly where it is `Null`. The literals of a
/// list are the literals of its scalars other than `Null`, in their order.
pub proof fn lemma_literals_of_list(xs: Seq<ScalarView>)
    ensures
        forall|x: ScalarView| #[trigger] scalar_sql(x) is None <==> x is Null,
        scalar_literals(xs) == literals_of(with_literal(xs)),
    decreases xs.len(),
{
    reveal(Seq::filter);
    if xs.len() == 0 {
        assert(literals_of(with_literal(xs)) =~= Seq::<Seq<char>>::empty());
    } else {
        lemma_literals_of_list(xs.drop_last());
        let rest = with_literal(xs.drop_last());
        if xs.last() is Null {
            assert(with_literal(xs) == rest);
        } else {
            assert(with_literal(xs) == rest.push(xs.last()));
            assert(literals_of(rest.push(xs.last())) =~= literals_of(rest).push(
                scalar_sql(xs.last())->0,
            ));
        }
    }
}

/// The operand of a filter has no literal exactly where it is `Null`, or a
/// list that holds nothing but `Null` (the empty list among them): such a
/// filter adds no condition. Every other operand has one: a single value
/// its own, a list the literals of its scalars other than `Null`, in order,
/// with `, ` between them, in round brackets.
pub proof fn lemma_term_literal(t: FilterTermView)
    ensures
        term_sql(t) is None <==> (t matches FilterTermView::Scalar(x) && x is Null) || (
        t matches FilterTermView::Array(xs) && forall|i: int|
            0 <= i < xs.len() ==> (#[trigger] xs[i]) is Null),
        t matches FilterTermView::Scalar(x) ==> term_sql(t) == scalar_sql(x),
        t is Array && term_sql(t) is Some ==> term_sql(t) == Some(
            "("@ + join(literals_of(with_literal(t->Array_0)), ", "@) + ")"@,
        ),
{
    match t {
        FilterTermView::Scalar(x) => {},
        FilterTermView::Array(xs) => {
            lemma_literals_of_list(xs);
            lemma_no_literals(xs);
        },
    }
}

proof fn lemma_no_literals(xs: Seq<ScalarView>)
    ensures
        scalar_literals(xs).len() == 0 <==> forall|i: int|
            0 <= i < xs.len() ==> (#[trigger] xs[i]) is Null,
    decreases xs.len(),
{
    if xs.len() > 0 {
        lemma_no_literals(xs.drop_last());
        if xs.last() is Null {
            assert forall|i: int| 0 <= i < xs.len() - 1 implies ((#[trigger] xs[i]) is Null
                <==> xs.drop_last()[i] is Null) by {}
            if forall|i: int| 0 <= i < xs.drop_last().len() ==> (#[trigger] xs.drop_last()[i]) is Null {
                assert forall|i: int| 0 <= i < xs.len() implies (#[trigger] xs[i]) is Null by {
                    if i < xs.len() - 1 {
                        assert(xs.drop_last()[i] is Null);
                    }
                }
            } else {
                let j = choose|j: int| 0 <= j < xs.drop_last().len() && !(xs.drop_last()[j] is Null);
                assert(!(xs[j] is Null));
            }
        } else {
            assert(!(xs[xs.len() - 1] is Null));
        }
    }
}

} // verus!
