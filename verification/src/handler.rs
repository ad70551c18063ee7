//! What a virtual server asks of the handler behind it, what the handler
//! answers, and what stands in for an operation that a handler leaves out.

use crate::data::{CellView, ColumnView, VirtualDataCell, VirtualDataSlice};
use crate::deep::deep;
use crate::features::Features;
use crate::ordered_map::{Entries, OrderedMap};
use crate::proto::{ColumnType, HostedTable, TableMakePortReq, ViewPort};
use crate::view_config::{ViewConfig, ViewConfigView};
use vstd::prelude::*;

verus! {

/// One operation that the server asks of the handler, or of the writer of
/// JSON beside it.
#[derive(Debug)]
pub enum HandlerCall {
    GetFeatures,
    GetHostedTables,
    TableSchema { table_id: String },
    TableSize { table_id: String },
    TableColumnSize { table_id: String },
    TableMakePort { req: TableMakePortReq },
    /// Make the view; the handler may rewrite the configuration.
    TableMakeView { table_id: String, view_id: String, config: ViewConfig },
    TableValidateExpression { table_id: String, expression: String },
    ViewSchema { view_id: String, config: ViewConfig },
    ViewSize { view_id: String },
    ViewColumnSize { view_id: String, config: ViewConfig },
    ViewDelete { view_id: String },
    ViewGetData {
        view_id: String,
        config: ViewConfig,
        schema: OrderedMap<ColumnType>,
        viewport: ViewPort,
    },
    MakeTable { table_id: String, data: Vec<u8> },
    /// Write these rows as JSON.
    RowsToJson { rows: Vec<OrderedMap<VirtualDataCell>> },
    /// Write these columns as JSON.
    ColumnsToJson { columns: VirtualDataSlice },
}

pub enum HandlerCallView {
    GetFeatures,
    GetHostedTables,
    TableSchema { table_id: Seq<char> },
    TableSize { table_id: Seq<char> },
    TableColumnSize { table_id: Seq<char> },
    TableMakePort { req: TableMakePortReq },
    TableMakeView { table_id: Seq<char>, view_id: Seq<char>, config: ViewConfigView },
    TableValidateExpression { table_id: Seq<char>, expression: Seq<char> },
    ViewSchema { view_id: Seq<char>, config: ViewConfigView },
    ViewSize { view_id: Seq<char> },
    ViewColumnSize { view_id: Seq<char>, config: ViewConfigView },
    ViewDelete { view_id: Seq<char> },
    ViewGetData {
        view_id: Seq<char>,
        config: ViewConfigView,
        schema: Entries<ColumnType>,
        viewport: ViewPort,
    },
    MakeTable { table_id: Seq<char>, data: Seq<u8> },
    RowsToJson { rows: Seq<Entries<CellView>> },
    ColumnsToJson { columns: Entries<ColumnView> },
}

impl DeepView for HandlerCall {
    type V = HandlerCallView;

    open spec fn deep_view(&self) -> HandlerCallView {
        match self {
            HandlerCall::GetFeatures => HandlerCallView::GetFeatures,
            HandlerCall::GetHostedTables => HandlerCallView::GetHostedTables,
            HandlerCall::TableSchema { table_id } => HandlerCallView::TableSchema {
                table_id: table_id@,
            },
            HandlerCall::TableSize { table_id } => HandlerCallView::TableSize {
                table_id: table_id@,
            },
            HandlerCall::TableColumnSize { table_id } => HandlerCallView::TableColumnSize {
                table_id: table_id@,
            },
            HandlerCall::TableMakePort { req } => HandlerCallView::TableMakePort { req: *req },
            HandlerCall::TableMakeView { table_id, view_id, config } =>
                HandlerCallView::TableMakeView {
                table_id: table_id@,
                view_id: view_id@,
                config: config.deep_view(),
            },
            HandlerCall::TableValidateExpression { table_id, expression } =>
                HandlerCallView::TableValidateExpression {
                table_id: table_id@,
                expression: expression@,
            },
            HandlerCall::ViewSchema { view_id, config } => HandlerCallView::ViewSchema {
                view_id: view_id@,
                config: config.deep_view(),
            },
            HandlerCall::ViewSize { view_id } => HandlerCallView::ViewSize { view_id: view_id@ },
            HandlerCall::ViewColumnSize { view_id, config } => HandlerCallView::ViewColumnSize {
                view_id: view_id@,
                config: config.deep_view(),
            },
            HandlerCall::ViewDelete { view_id } => HandlerCallView::ViewDelete {
                view_id: view_id@,
            },
            HandlerCall::ViewGetData { view_id, config, schema, viewport } =>
                HandlerCallView::ViewGetData {
                view_id: view_id@,
                config: config.deep_view(),
                schema: schema.deep_view(),
                viewport: *viewport,
            },
            HandlerCall::MakeTable { table_id, data } => HandlerCallView::MakeTable {
                table_id: table_id@,
                data: data@,
            },
            HandlerCall::RowsToJson { rows } => HandlerCallView::RowsToJson { rows: deep(rows@) },
            HandlerCall::ColumnsToJson { columns } => HandlerCallView::ColumnsToJson {
                columns: columns.deep_view(),
            },
        }
    }
}

/// What came of an operation.
#[derive(Debug)]
pub enum HandlerReply {
    Features(Features),
    HostedTables(Vec<HostedTable>),
    Schema(OrderedMap<ColumnType>),
    /// A number of rows or columns, or of a port.
    Size(u32),
    /// The view was made; `config` is the configuration as the handler
    /// left it.
    ViewMade { view_id: String, config: ViewConfig },
    ExpressionType(ColumnType),
    /// The operation was done and gives nothing back.
    Done,
    Data(VirtualDataSlice),
    Json(String),
    /// The handler failed. `message` shows the error to a reader, `detail`
    /// shows it to whoever looks for its cause.
    Failed { message: String, detail: String },
    /// The data could not be written as JSON; the text shows why.
    InvalidJson(String),
}

/// What stands in for an operation that a handler leaves out.
#[derive(Debug)]
pub enum Fallback {
    /// Nothing: every handler has this operation.
    Required,
    /// The answer to this other operation.
    Ask(HandlerCall),
    /// The number of columns of the schema that this other operation gives.
    AskLength(HandlerCall),
    /// This type.
    AnswerType(ColumnType),
    /// No features at all.
    AnswerNoFeatures,
    /// This port.
    AnswerPort(u32),
    /// Nothing: the operation fails.
    Unimplemented,
}

pub enum FallbackView {
    Required,
    Ask(HandlerCallView),
    AskLength(HandlerCallView),
    AnswerType(ColumnType),
    AnswerNoFeatures,
    AnswerPort(u32),
    Unimplemented,
}

impl DeepView for Fallback {
    type V = FallbackView;

    open spec fn deep_view(&self) -> FallbackView {
        match self {
            Fallback::Required => FallbackView::Required,
            Fallback::Ask(call) => FallbackView::Ask(call.deep_view()),
            Fallback::AskLength(call) => FallbackView::AskLength(call.deep_view()),
            Fallback::AnswerType(t) => FallbackView::AnswerType(*t),
            Fallback::AnswerNoFeatures => FallbackView::AnswerNoFeatures,
            Fallback::AnswerPort(p) => FallbackView::AnswerPort(*p),
            Fallback::Unimplemented => FallbackView::Unimplemented,
        }
    }
}

/// What stands in for each operation: a table has as many columns as its
/// schema; a view has the rows and the schema of the table of its name, and
/// as many columns as its schema; every expression is a number; there are no
/// features; the port is 0; a table cannot be made. The other operations
/// have no stand-in.
pub open spec fn fallback_of(call: HandlerCallView) -> FallbackView {
    match call {
        HandlerCallView::TableColumnSize { table_id } => FallbackView::AskLength(
            HandlerCallView::TableSchema { table_id },
        ),
        HandlerCallView::ViewSize { view_id } => FallbackView::Ask(
            HandlerCallView::TableSize { table_id: view_id },
        ),
        HandlerCallView::ViewColumnSize { view_id, config } => FallbackView::AskLength(
            HandlerCallView::ViewSchema { view_id, config },
        ),
        HandlerCallView::ViewSchema { view_id, config } => FallbackView::Ask(
            HandlerCallView::TableSchema { table_id: view_id },
        ),
        HandlerCallView::TableValidateExpression { .. } => FallbackView::AnswerType(
            ColumnType::Float,
        ),
        HandlerCallView::GetFeatures => FallbackView::AnswerNoFeatures,
        HandlerCallView::TableMakePort { .. } => FallbackView::AnswerPort(0),
        HandlerCallView::MakeTable { .. } => FallbackView::Unimplemented,
        _ => FallbackView::Required,
    }
}

/// What stands in for `call` where a handler leaves it out.
pub fn fallback(call: HandlerCall) -> (f: Fallback)
    ensures
        f.deep_view() == fallback_of(call.deep_view()),
{
    match call {
        HandlerCall::TableColumnSize { table_id } => Fallback::AskLength(
            HandlerCall::TableSchema { table_id },
        ),
        HandlerCall::ViewSize { view_id } => Fallback::Ask(
            HandlerCall::TableSize { table_id: view_id },
        ),
        HandlerCall::ViewColumnSize { view_id, config } => Fallback::AskLength(
            HandlerCall::ViewSchema { view_id, config },
        ),
        HandlerCall::ViewSchema { view_id, config } => Fallback::Ask(
            HandlerCall::TableSchema { table_id: view_id },
        ),
        HandlerCall::TableValidateExpression { .. } => Fallback::AnswerType(ColumnType::Float),
        HandlerCall::GetFeatures => Fallback::AnswerNoFeatures,
        HandlerCall::TableMakePort { .. } => Fallback::AnswerPort(0),
        HandlerCall::MakeTable { .. } => Fallback::Unimplemented,
        _ => Fallback::Required,
    }
}

/// The number of columns of a schema, as far as 32 bits count.
pub open spec fn schema_size(len: nat) -> u32 {
    if len <= u32::MAX {
        len as u32
    } else {
        u32::MAX
    }
}

/// The number of columns of a schema.
pub fn schema_length(schema: &OrderedMap<ColumnType>) -> (n: u32)
    ensures
        n == schema_size(schema@.len()),
{
    let len = schema.len();
    if len <= u32::MAX as usize {
        len as u32
    } else {
        u32::MAX
    }
}

} // verus!
