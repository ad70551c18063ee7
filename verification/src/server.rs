//! The protocol engine of a virtual server.
//!
//! The engine answers requests about tables and views with the help of a
//! handler. It never calls the handler itself. Given a request, it says what
//! to ask the handler; given the handler's answer, it says what to ask next,
//! or what to respond. Between the two it keeps which table each view was
//! made of, how each view is configured, and the schema of each view that
//! was asked for.

use crate::deep::{deep, lemma_deep_extend, lemma_deep_push, DeepClone};
use crate::error::VirtualServerError;
use crate::features::{distinct_first, features_to_wire};
use crate::handler::{HandlerCall, HandlerCallView, HandlerReply};
use crate::ordered_map::{
    deep_entries, lemma_deep_wf, lemma_pairs_distinct, lemma_put_wf, lemma_without_wf, Entries,
    OrderedMap,
};
use crate::proto::{
    ClientReq, ClientResp, ClientRespView, ColumnType, ExprValidationError, Request, Response,
    ResponseView, ViewPort,
};
use crate::text::{last_segment, last_segment_of};
use crate::filters::FilterReducer;
use crate::view_config::{ViewConfig, ViewConfigView};
use vstd::prelude::*;

verus! {

/// Where the work on a request stands: which answer of the handler it waits
/// for.
#[derive(Clone, Copy, Debug, PartialEq, Eq, Structural)]
pub enum Stage {
    Features,
    HostedTables,
    TableSchema,
    TableMakePort,
    TableMakeView,
    TableSize,
    ValidateExpr,
    ViewSchema,
    /// The dimensions of a view: the rows of its table.
    TableRows,
    /// Then the columns of its table.
    TableColumns { rows: u32 },
    /// Then its own columns.
    ViewColumns { rows: u32, columns: u32 },
    /// Then its own rows.
    ViewRows { rows: u32, columns: u32, view_columns: u32 },
    ExprSchema,
    ColumnPaths,
    /// The data of a view: first its schema, where it was not asked for yet.
    DataSchema { as_rows: bool },
    /// Then the data.
    Data { as_rows: bool },
    /// Then the data as JSON.
    Json { as_rows: bool },
    ViewDelete,
    MakeTable,
}

/// The work on a request that waits for an answer of the handler.
#[derive(Debug)]
pub struct Continuation {
    msg_id: u32,
    entity_id: String,
    stage: Stage,
    subject: String,
    viewport: ViewPort,
    pairs: Vec<(String, String)>,
    at: usize,
    types: Vec<(String, i32)>,
    errors: Vec<(String, ExprValidationError)>,
}

pub struct ContinuationView {
    /// The number of the request.
    pub msg_id: u32,
    /// The table or view that the request is about.
    pub entity_id: Seq<char>,
    pub stage: Stage,
    /// The view that is being made, or the table of the view that the
    /// request is about.
    pub subject: Seq<char>,
    /// The page that was asked for.
    pub viewport: ViewPort,
    /// The expressions that are being validated, each under its name.
    pub pairs: Seq<(Seq<char>, Seq<char>)>,
    /// How many of them were answered.
    pub at: nat,
    /// The types of those that are valid, by the codes of the types.
    pub types: Seq<(Seq<char>, i32)>,
    /// The errors of those that are not.
    pub errors: Seq<(Seq<char>, (Seq<char>, u32, u32))>,
}

impl DeepView for Continuation {
    type V = ContinuationView;

    closed spec fn deep_view(&self) -> ContinuationView {
        ContinuationView {
            msg_id: self.msg_id,
            entity_id: self.entity_id@,
            stage: self.stage,
            subject: self.subject@,
            viewport: self.viewport,
            pairs: deep(self.pairs@),
            at: self.at as nat,
            types: deep(self.types@),
            errors: deep(self.errors@),
        }
    }
}

/// What the engine wants next: an answer of the handler, or the response
/// sent.
#[derive(Debug)]
pub enum Step {
    Call(HandlerCall, Continuation),
    Done(Response),
}

pub enum StepView {
    Call(HandlerCallView, ContinuationView),
    Done(ResponseView),
}

impl DeepView for Step {
    type V = StepView;

    open spec fn deep_view(&self) -> StepView {
        match self {
            Step::Call(call, next) => StepView::Call(call.deep_view(), next.deep_view()),
            Step::Done(response) => StepView::Done(response.deep_view()),
        }
    }
}

/// What the engine keeps between requests, by the names of the views.
pub struct ServerView {
    /// The table that each view was made of.
    pub view_to_table: Entries<Seq<char>>,
    /// The configuration of each view, as the handler left it.
    pub view_configs: Entries<ViewConfigView>,
    /// The schema of each view that was asked for.
    pub view_schemas: Entries<Entries<ColumnType>>,
}

impl ServerView {
    /// No view goes by two names in any of the three.
    pub open spec fn wf(self) -> bool {
        &&& self.view_to_table.wf()
        &&& self.view_configs.wf()
        &&& self.view_schemas.wf()
    }
}

/// The configuration of a view that was configured in no way.
pub open spec fn default_config() -> ViewConfigView {
    ViewConfigView {
        columns: Seq::empty(),
        group_by: Seq::empty(),
        split_by: Seq::empty(),
        aggregates: Entries::empty(),
        sort: Seq::empty(),
        filter: Seq::empty(),
        filter_op: FilterReducer::And,
        expressions: Entries::empty(),
    }
}

/// The viewport that leaves every side open.
pub open spec fn open_viewport() -> ViewPort {
    ViewPort { start_row: None, start_col: None, end_row: None, end_col: None }
}

/// The work on a request that has just begun.
pub open spec fn fresh(msg_id: u32, entity_id: Seq<char>, stage: Stage) -> ContinuationView {
    ContinuationView {
        msg_id,
        entity_id,
        stage,
        subject: Seq::empty(),
        viewport: open_viewport(),
        pairs: Seq::empty(),
        at: 0,
        types: Seq::empty(),
        errors: Seq::empty(),
    }
}

/// The response that `payload` makes to the request.
pub open spec fn respond(msg_id: u32, entity_id: Seq<char>, payload: ClientRespView) -> StepView {
    StepView::Done(ResponseView { msg_id, entity_id, client_resp: payload })
}

/// The response that tells of a failure.
pub open spec fn failure(msg_id: u32, entity_id: Seq<char>, message: Seq<char>) -> StepView {
    respond(msg_id, entity_id, ClientRespView::ServerError { message, status_code: 1 })
}

/// The response to a request about a view that the engine does not know.
pub open spec fn unknown_view(msg_id: u32, entity_id: Seq<char>) -> StepView {
    failure(msg_id, entity_id, "View not found '"@ + entity_id + "'"@)
}

/// The response to an answer that does not fit what was asked.
pub open spec fn unexpected_reply(msg_id: u32, entity_id: Seq<char>) -> StepView {
    failure(msg_id, entity_id, "Unexpected reply from handler"@)
}

/// The columns of a schema with the codes of their types.
pub open spec fn schema_codes(schema: Entries<ColumnType>) -> Seq<(Seq<char>, i32)> {
    Seq::new(
        schema.keys.len(),
        |i: int| (schema.keys[i], schema.value_at(i).spec_code() as i32),
    )
}

/// The first `k` columns of a schema under their public names: what stands
/// behind the last underscore of each name. Of columns that come to share a
/// name, the first keeps its place and the last gives the type.
pub open spec fn public_schema(schema: Entries<ColumnType>, k: nat) -> Entries<ColumnType>
    decreases k,
{
    if k == 0 {
        Entries::empty()
    } else {
        public_schema(schema, (k - 1) as nat).put(
            last_segment(schema.keys[k - 1], '_'),
            schema.value_at(k - 1),
        )
    }
}

/// What the engine asks first for the data of a view: the data, where it
/// has the schema; else the schema.
pub open spec fn begin_data(
    s: ServerView,
    msg_id: u32,
    id: Seq<char>,
    viewport: ViewPort,
    as_rows: bool,
) -> StepView {
    match s.view_configs.get(id) {
        None => unknown_view(msg_id, id),
        Some(config) => match s.view_schemas.get(id) {
            Some(schema) => StepView::Call(
                HandlerCallView::ViewGetData { view_id: id, config, schema, viewport },
                ContinuationView { viewport, ..fresh(msg_id, id, Stage::Data { as_rows }) },
            ),
            None => StepView::Call(
                HandlerCallView::ViewSchema { view_id: id, config },
                ContinuationView { viewport, ..fresh(msg_id, id, Stage::DataSchema { as_rows }) },
            ),
        },
    }
}

/// What the engine asks next for a batch of expressions of which `next.at`
/// were answered: the type of the next one, or nothing more.
pub open spec fn next_expression(next: ContinuationView, table_id: Seq<char>) -> StepView {
    if next.at < next.pairs.len() {
        StepView::Call(
            HandlerCallView::TableValidateExpression {
                table_id,
                expression: next.pairs[next.at as int].1,
            },
            next,
        )
    } else if next.stage == Stage::ValidateExpr {
        respond(
            next.msg_id,
            next.entity_id,
            ClientRespView::TableValidateExprResp {
                expression_schema: next.types,
                errors: next.errors,
                expression_alias: next.pairs,
            },
        )
    } else {
        respond(
            next.msg_id,
            next.entity_id,
            ClientRespView::ViewExpressionSchemaResp { schema: next.types },
        )
    }
}

/// What the engine wants next once a request has come in. A request alone
/// changes nothing of what the engine keeps: that changes only with an
/// answer of the handler.
pub open spec fn begin(s: ServerView, msg: Request) -> StepView {
    let id = msg.entity_id@;
    let n = msg.msg_id;
    match msg.client_req {
        None => failure(n, id, "Unhandled request: None"@),
        Some(ClientReq::GetFeaturesReq) => StepView::Call(
            HandlerCallView::GetFeatures,
            fresh(n, id, Stage::Features),
        ),
        Some(ClientReq::GetHostedTablesReq) => StepView::Call(
            HandlerCallView::GetHostedTables,
            fresh(n, id, Stage::HostedTables),
        ),
        Some(ClientReq::TableSchemaReq) => StepView::Call(
            HandlerCallView::TableSchema { table_id: id },
            fresh(n, id, Stage::TableSchema),
        ),
        Some(ClientReq::TableMakePortReq(req)) => StepView::Call(
            HandlerCallView::TableMakePort { req },
            fresh(n, id, Stage::TableMakePort),
        ),
        Some(ClientReq::TableMakeViewReq { view_id, config }) => StepView::Call(
            HandlerCallView::TableMakeView {
                table_id: id,
                view_id: view_id@,
                config: match config {
                    Some(c) => c.deep_view(),
                    None => default_config(),
                },
            },
            ContinuationView { subject: view_id@, ..fresh(n, id, Stage::TableMakeView) },
        ),
        Some(ClientReq::TableSizeReq) => StepView::Call(
            HandlerCallView::TableSize { table_id: id },
            fresh(n, id, Stage::TableSize),
        ),
        Some(ClientReq::TableValidateExprReq { column_to_expr }) => next_expression(
            ContinuationView { pairs: deep(column_to_expr@), ..fresh(n, id, Stage::ValidateExpr) },
            id,
        ),
        Some(ClientReq::ViewSchemaReq) => match s.view_schemas.get(id) {
            Some(schema) => respond(
                n,
                id,
                ClientRespView::ViewSchemaResp {
                    schema: schema_codes(public_schema(schema, schema.keys.len())),
                },
            ),
            None => match s.view_configs.get(id) {
                Some(config) => StepView::Call(
                    HandlerCallView::ViewSchema { view_id: id, config },
                    fresh(n, id, Stage::ViewSchema),
                ),
                None => unknown_view(n, id),
            },
        },
        Some(ClientReq::ViewDimensionsReq) => match s.view_to_table.get(id) {
            Some(table_id) => StepView::Call(
                HandlerCallView::TableSize { table_id },
                ContinuationView { subject: table_id, ..fresh(n, id, Stage::TableRows) },
            ),
            None => unknown_view(n, id),
        },
        Some(ClientReq::ViewGetConfigReq) => match s.view_configs.get(id) {
            Some(config) => respond(n, id, ClientRespView::ViewGetConfigResp { config }),
            None => unknown_view(n, id),
        },
        Some(ClientReq::ViewExpressionSchemaReq) => match s.view_configs.get(id) {
            Some(config) => match s.view_to_table.get(id) {
                Some(table_id) => next_expression(
                    ContinuationView {
                        subject: table_id,
                        pairs: config.expressions.pairs(),
                        ..fresh(n, id, Stage::ExprSchema)
                    },
                    table_id,
                ),
                None => if config.expressions.keys.len() == 0 {
                    respond(
                        n,
                        id,
                        ClientRespView::ViewExpressionSchemaResp { schema: Seq::empty() },
                    )
                } else {
                    unknown_view(n, id)
                },
            },
            None => unknown_view(n, id),
        },
        Some(ClientReq::ViewColumnPathsReq) => match s.view_configs.get(id) {
            Some(config) => StepView::Call(
                HandlerCallView::ViewSchema { view_id: id, config },
                fresh(n, id, Stage::ColumnPaths),
            ),
            None => unknown_view(n, id),
        },
        Some(ClientReq::ViewToRowsStringReq { viewport }) => begin_data(
            s,
            n,
            id,
            match viewport {
                Some(v) => v,
                None => open_viewport(),
            },
            true,
        ),
        Some(ClientReq::ViewToColumnsStringReq { viewport }) => begin_data(
            s,
            n,
            id,
            match viewport {
                Some(v) => v,
                None => open_viewport(),
            },
            false,
        ),
        Some(ClientReq::ViewDeleteReq) => StepView::Call(
            HandlerCallView::ViewDelete { view_id: id },
            fresh(n, id, Stage::ViewDelete),
        ),
        Some(ClientReq::MakeTableReq { data }) => match data {
            Some(bytes) => StepView::Call(
                HandlerCallView::MakeTable { table_id: id, data: bytes@ },
                fresh(n, id, Stage::MakeTable),
            ),
            None => failure(n, id, "Missing table data"@),
        },
        Some(ClientReq::TableOnDeleteReq) => respond(n, id, ClientRespView::TableOnDeleteResp),
        Some(ClientReq::ViewOnUpdateReq) => respond(n, id, ClientRespView::ViewOnUpdateResp { delta: None, port_id: 0 }),
        Some(ClientReq::ViewOnDeleteReq) => respond(n, id, ClientRespView::ViewOnDeleteResp),
        Some(ClientReq::ViewRemoveOnUpdateReq) => respond(n, id, ClientRespView::ViewRemoveOnUpdateResp),
        Some(ClientReq::TableRemoveDeleteReq) => respond(n, id, ClientRespView::TableRemoveDeleteResp),
        Some(ClientReq::ViewRemoveDeleteReq) => respond(n, id, ClientRespView::ViewRemoveDeleteResp),
        Some(ClientReq::Other(kind)) => failure(n, id, "Unhandled request: "@ + kind@),
    }
}

/// What the engine keeps, and what it wants next, once the handler has
/// answered.
///
/// A failure of the handler ends the request with a response that tells of
/// it, and leaves what the engine keeps as it is. The one exception is the
/// type of an expression: there a failure is one result among the others.
pub open spec fn resume(s: ServerView, c: ContinuationView, reply: HandlerReply) -> (
    ServerView,
    StepView,
) {
    let n = c.msg_id;
    let id = c.entity_id;
    match (c.stage, reply) {
        (Stage::ValidateExpr, HandlerReply::ExpressionType(t)) => if c.at < c.pairs.len() {
            (
                s,
                next_expression(
                    ContinuationView {
                        at: c.at + 1,
                        types: c.types.push((c.pairs[c.at as int].0, t.spec_code() as i32)),
                        ..c
                    },
                    id,
                ),
            )
        } else {
            (s, unexpected_reply(n, id))
        },
        (Stage::ValidateExpr, HandlerReply::Failed { message, detail }) => if c.at
            < c.pairs.len() {
            (
                s,
                next_expression(
                    ContinuationView {
                        at: c.at + 1,
                        errors: c.errors.push((c.pairs[c.at as int].0, (message@, 0u32, 0u32))),
                        ..c
                    },
                    id,
                ),
            )
        } else {
            (s, unexpected_reply(n, id))
        },
        (Stage::ExprSchema, HandlerReply::ExpressionType(t)) => if c.at < c.pairs.len() {
            (
                s,
                next_expression(
                    ContinuationView {
                        at: c.at + 1,
                        types: c.types.push((c.pairs[c.at as int].0, t.spec_code() as i32)),
                        ..c
                    },
                    c.subject,
                ),
            )
        } else {
            (s, unexpected_reply(n, id))
        },
        (Stage::ExprSchema, HandlerReply::Failed { message, detail }) => if c.at < c.pairs.len() {
            (s, next_expression(ContinuationView { at: c.at + 1, ..c }, c.subject))
        } else {
            (s, unexpected_reply(n, id))
        },
        (_, HandlerReply::Failed { message, detail }) => (
            s,
            failure(n, id, "External Error: "@ + detail@),
        ),
        (Stage::Features, HandlerReply::Features(f)) => (
            s,
            respond(n, id, ClientRespView::GetFeaturesResp(features_to_wire(f.deep_view()))),
        ),
        (Stage::HostedTables, HandlerReply::HostedTables(tables)) => (
            s,
            respond(n, id, ClientRespView::GetHostedTablesResp { table_infos: deep(tables@) }),
        ),
        (Stage::TableSchema, HandlerReply::Schema(schema)) => (
            s,
            respond(
                n,
                id,
                ClientRespView::TableSchemaResp { schema: schema_codes(schema.deep_view()) },
            ),
        ),
        (Stage::TableMakePort, HandlerReply::Size(port_id)) => (
            s,
            respond(n, id, ClientRespView::TableMakePortResp { port_id }),
        ),
        (Stage::TableMakeView, HandlerReply::ViewMade { view_id, config }) => (
            ServerView {
                view_to_table: s.view_to_table.put(c.subject, id),
                view_configs: s.view_configs.put(c.subject, config.deep_view()),
                ..s
            },
            respond(n, id, ClientRespView::TableMakeViewResp { view_id: view_id@ }),
        ),
        (Stage::TableSize, HandlerReply::Size(size)) => (
            s,
            respond(n, id, ClientRespView::TableSizeResp { size }),
        ),
        (Stage::ViewSchema, HandlerReply::Schema(schema)) => (
            ServerView { view_schemas: s.view_schemas.put(id, schema.deep_view()), ..s },
            respond(
                n,
                id,
                ClientRespView::ViewSchemaResp {
                    schema: schema_codes(
                        public_schema(schema.deep_view(), schema.deep_view().keys.len()),
                    ),
                },
            ),
        ),
        (Stage::TableRows, HandlerReply::Size(rows)) => (
            s,
            StepView::Call(
                HandlerCallView::TableColumnSize { table_id: c.subject },
                ContinuationView { stage: Stage::TableColumns { rows }, ..c },
            ),
        ),
        (Stage::TableColumns { rows }, HandlerReply::Size(columns)) => (
            s,
            match s.view_configs.get(id) {
                Some(config) => StepView::Call(
                    HandlerCallView::ViewColumnSize { view_id: id, config },
                    ContinuationView { stage: Stage::ViewColumns { rows, columns }, ..c },
                ),
                None => unknown_view(n, id),
            },
        ),
        (Stage::ViewColumns { rows, columns }, HandlerReply::Size(view_columns)) => (
            s,
            StepView::Call(
                HandlerCallView::ViewSize { view_id: id },
                ContinuationView { stage: Stage::ViewRows { rows, columns, view_columns }, ..c },
            ),
        ),
        (Stage::ViewRows { rows, columns, view_columns }, HandlerReply::Size(view_rows)) => (
            s,
            respond(
                n,
                id,
                ClientRespView::ViewDimensionsResp {
                    num_table_rows: rows,
                    num_table_columns: columns,
                    num_view_rows: view_rows,
                    num_view_columns: view_columns,
                },
            ),
        ),
        (Stage::ColumnPaths, HandlerReply::Schema(schema)) => (
            s,
            respond(
                n,
                id,
                ClientRespView::ViewColumnPathsResp { paths: schema.deep_view().keys },
            ),
        ),
        (Stage::DataSchema { as_rows }, HandlerReply::Schema(schema)) => (
            ServerView { view_schemas: s.view_schemas.put(id, schema.deep_view()), ..s },
            match s.view_configs.get(id) {
                Some(config) => StepView::Call(
                    HandlerCallView::ViewGetData {
                        view_id: id,
                        config,
                        schema: schema.deep_view(),
                        viewport: c.viewport,
                    },
                    ContinuationView { stage: Stage::Data { as_rows }, ..c },
                ),
                None => unknown_view(n, id),
            },
        ),
        (Stage::Data { as_rows }, HandlerReply::Data(slice)) => (
            s,
            if !as_rows {
                StepView::Call(
                    HandlerCallView::ColumnsToJson { columns: slice.deep_view() },
                    ContinuationView { stage: Stage::Json { as_rows }, ..c },
                )
            } else if crate::data::rectangular(slice.deep_view()) {
                StepView::Call(
                    HandlerCallView::RowsToJson { rows: crate::data::rows_of(slice.deep_view()) },
                    ContinuationView { stage: Stage::Json { as_rows }, ..c },
                )
            } else {
                failure(n, id, crate::data::DataSliceError::RaggedColumns.text())
            },
        ),
        (Stage::Json { as_rows }, HandlerReply::Json(json_string)) => (
            s,
            respond(
                n,
                id,
                if as_rows {
                    ClientRespView::ViewToRowsStringResp { json_string: json_string@ }
                } else {
                    ClientRespView::ViewToColumnsStringResp { json_string: json_string@ }
                },
            ),
        ),
        (Stage::Json { as_rows }, HandlerReply::InvalidJson(why)) => (
            s,
            failure(n, id, "Invalid JSON'"@ + why@ + "'"@),
        ),
        (Stage::ViewDelete, HandlerReply::Done) => (
            ServerView {
                view_to_table: s.view_to_table.without(id),
                view_configs: s.view_configs.without(id),
                view_schemas: s.view_schemas.without(id),
            },
            respond(n, id, ClientRespView::ViewDeleteResp),
        ),
        (Stage::MakeTable, HandlerReply::Done) => (s, respond(n, id, ClientRespView::MakeTableResp)),
        _ => (s, unexpected_reply(n, id)),
    }
}

/// The protocol engine of a virtual server.
#[derive(Debug)]
pub struct VirtualServer {
    view_to_table: OrderedMap<String>,
    view_configs: OrderedMap<ViewConfig>,
    view_schemas: OrderedMap<OrderedMap<ColumnType>>,
}

impl DeepView for VirtualServer {
    type V = ServerView;

    closed spec fn deep_view(&self) -> ServerView {
        ServerView {
            view_to_table: self.view_to_table.deep_view(),
            view_configs: self.view_configs.deep_view(),
            view_schemas: self.view_schemas.deep_view(),
        }
    }
}

fn fresh_work(msg_id: u32, entity_id: String, stage: Stage) -> (next: Continuation)
    ensures
        next.deep_view() == fresh(msg_id, entity_id@, stage),
{
    let next = Continuation {
        msg_id,
        entity_id,
        stage,
        subject: String::new(),
        viewport: ViewPort { start_row: None, start_col: None, end_row: None, end_col: None },
        pairs: Vec::new(),
        at: 0,
        types: Vec::new(),
        errors: Vec::new(),
    };
    proof {
        let v = next.deep_view();
        assert(v.pairs =~= Seq::empty());
        assert(v.types =~= Seq::empty());
        assert(v.errors =~= Seq::empty());
    }
    next
}

fn respond_with(msg_id: u32, entity_id: String, payload: ClientResp) -> (step: Step)
    ensures
        step.deep_view() == respond(msg_id, entity_id@, payload.deep_view()),
{
    Step::Done(Response { msg_id, entity_id, client_resp: payload })
}

fn fail(msg_id: u32, entity_id: String, message: String) -> (step: Step)
    ensures
        step.deep_view() == failure(msg_id, entity_id@, message@),
{
    respond_with(msg_id, entity_id, ClientResp::ServerError { message, status_code: 1 })
}

fn fail_with(msg_id: u32, entity_id: String, error: VirtualServerError<String>) -> (step: Step)
    ensures
        step.deep_view() == failure(msg_id, entity_id@, error.full_text()),
{
    let message = error.to_string();
    fail(msg_id, entity_id, message)
}

fn fail_unknown_view(msg_id: u32, entity_id: String) -> (step: Step)
    ensures
        step.deep_view() == unknown_view(msg_id, entity_id@),
{
    let error = VirtualServerError::UnknownViewId(entity_id.clone());
    fail_with(msg_id, entity_id, error)
}

fn fail_unexpected(msg_id: u32, entity_id: String) -> (step: Step)
    ensures
        step.deep_view() == unexpected_reply(msg_id, entity_id@),
{
    fail(msg_id, entity_id, "Unexpected reply from handler".to_owned())
}

fn schema_codes_of(schema: &OrderedMap<ColumnType>) -> (out: Vec<(String, i32)>)
    ensures
        deep(out@) == schema_codes(schema.deep_view()),
{
    let ghost target = schema_codes(schema.deep_view());
    let mut out: Vec<(String, i32)> = Vec::new();
    let mut i: usize = 0;
    while i < schema.len()
        invariant
            i <= schema@.len(),
            target == schema_codes(schema.deep_view()),
            deep(out@) == target.take(i as int),
        decreases schema@.len() - i,
    {
        match schema.get_index(i) {
            Some((name, column_type)) => {
                let entry = (name.clone(), column_type.code());
                proof {
                    lemma_deep_extend(out@, entry, target, i as int);
                }
                out.push(entry);
            },
            None => {},
        }
        i = i + 1;
    }
    proof {
        assert(target.take(schema@.len() as int) =~= target);
    }
    out
}

fn keys_of_schema(schema: &OrderedMap<ColumnType>) -> (out: Vec<String>)
    ensures
        deep(out@) == schema.deep_view().keys,
{
    let ghost target = schema.deep_view().keys;
    let mut out: Vec<String> = Vec::new();
    let mut i: usize = 0;
    while i < schema.len()
        invariant
            i <= schema@.len(),
            target == schema.deep_view().keys,
            deep(out@) == target.take(i as int),
        decreases schema@.len() - i,
    {
        match schema.get_index(i) {
            Some((name, _)) => {
                let key = name.clone();
                proof {
                    lemma_deep_extend(out@, key, target, i as int);
                }
                out.push(key);
            },
            None => {},
        }
        i = i + 1;
    }
    proof {
        assert(target.take(schema@.len() as int) =~= target);
    }
    out
}

fn public_schema_of(schema: &OrderedMap<ColumnType>) -> (out: OrderedMap<ColumnType>)
    ensures
        out.deep_view() == public_schema(schema.deep_view(), schema.deep_view().keys.len()),
{
    let ghost full = schema.deep_view();
    let mut out: OrderedMap<ColumnType> = OrderedMap::new();
    let mut i: usize = 0;
    proof {
        assert(out.deep_view().values =~= public_schema(full, 0).values);
    }
    while i < schema.len()
        invariant
            i <= schema@.len(),
            full == schema.deep_view(),
            out.deep_view() == public_schema(full, i as nat),
        decreases schema@.len() - i,
    {
        match schema.get_index(i) {
            Some((name, column_type)) => {
                let public = last_segment_of(name.as_str(), '_');
                let ghost before = out@;
                out.insert(public, *column_type);
                proof {
                    assert(deep_entries(before.put(public@, *column_type)).values =~= deep_entries(
                        before,
                    ).put(public@, *column_type).values);
                }
            },
            None => {},
        }
        i = i + 1;
    }
    out
}

fn pairs_of(expressions: &OrderedMap<String>) -> (out: Vec<(String, String)>)
    ensures
        deep(out@) == expressions.deep_view().pairs(),
{
    let ghost target = expressions.deep_view().pairs();
    let mut out: Vec<(String, String)> = Vec::new();
    let mut i: usize = 0;
    while i < expressions.len()
        invariant
            i <= expressions@.len(),
            target == expressions.deep_view().pairs(),
            deep(out@) == target.take(i as int),
        decreases expressions@.len() - i,
    {
        match expressions.get_index(i) {
            Some((name, expression)) => {
                let entry = (name.clone(), expression.clone());
                proof {
                    lemma_deep_extend(out@, entry, target, i as int);
                }
                out.push(entry);
            },
            None => {},
        }
        i = i + 1;
    }
    proof {
        assert(target.take(expressions@.len() as int) =~= target);
    }
    out
}

fn next_expression_step(next: Continuation, table_id: String) -> (step: Step)
    ensures
        step.deep_view() == next_expression(next.deep_view(), table_id@),
{
    if next.at < next.pairs.len() {
        let expression = next.pairs[next.at].1.clone();
        Step::Call(HandlerCall::TableValidateExpression { table_id, expression }, next)
    } else {
        let Continuation { msg_id, entity_id, stage, types, errors, pairs, .. } = next;
        match stage {
            Stage::ValidateExpr => respond_with(
                msg_id,
                entity_id,
                ClientResp::TableValidateExprResp {
                    expression_schema: types,
                    errors,
                    expression_alias: pairs,
                },
            ),
            _ => respond_with(
                msg_id,
                entity_id,
                ClientResp::ViewExpressionSchemaResp { schema: types },
            ),
        }
    }
}

impl VirtualServer {
    /// An engine that knows no view.
    pub fn new() -> (server: Self)
        ensures
            server.deep_view() == (ServerView {
                view_to_table: Entries::empty(),
                view_configs: Entries::empty(),
                view_schemas: Entries::empty(),
            }),
            server.deep_view().wf(),
            paired(server.deep_view()),
    {
        let server = VirtualServer {
            view_to_table: OrderedMap::new(),
            view_configs: OrderedMap::new(),
            view_schemas: OrderedMap::new(),
        };
        proof {
            let v = server.deep_view();
            assert(v.view_to_table.values =~= Map::empty());
            assert(v.view_configs.values =~= Map::empty());
            assert(v.view_schemas.values =~= Map::empty());
        }
        server
    }

    /// In each of the three, no view goes by two names.
    fn names_are_distinct(&self)
        ensures
            self.deep_view().wf(),
            self.view_to_table@.wf(),
            self.view_configs@.wf(),
            self.view_schemas@.wf(),
    {
        let _ = self.view_to_table.len();
        let _ = self.view_configs.len();
        let _ = self.view_schemas.len();
        proof {
            lemma_deep_wf(self.view_to_table@);
            lemma_deep_wf(self.view_configs@);
            lemma_deep_wf(self.view_schemas@);
        }
    }

    fn table_of(&self, id: &str) -> (table: Option<String>)
        ensures
            match table {
                Some(t) => self.deep_view().view_to_table.get(id@) == Some(t@),
                None => self.deep_view().view_to_table.get(id@) is None,
            },
    {
        let found = self.view_to_table.get(id);
        match found {
            Some(t) => Some(t.clone()),
            None => None,
        }
    }

    fn config_of(&self, id: &str) -> (config: Option<ViewConfig>)
        ensures
            match config {
                Some(c) => self.deep_view().view_configs.get(id@) == Some(c.deep_view()),
                None => self.deep_view().view_configs.get(id@) is None,
            },
    {
        let found = self.view_configs.get(id);
        match found {
            Some(c) => Some(c.deep_clone()),
            None => None,
        }
    }

    fn schema_of(&self, id: &str) -> (schema: Option<OrderedMap<ColumnType>>)
        ensures
            match schema {
                Some(m) => self.deep_view().view_schemas.get(id@) == Some(m.deep_view()),
                None => self.deep_view().view_schemas.get(id@) is None,
            },
    {
        let found = self.view_schemas.get(id);
        match found {
            Some(m) => Some(m.deep_clone()),
            None => None,
        }
    }

    fn begin_data_step(&self, msg_id: u32, id: String, viewport: ViewPort, as_rows: bool) -> (step:
        Step)
        ensures
            step.deep_view() == begin_data(self.deep_view(), msg_id, id@, viewport, as_rows),
    {
        match self.config_of(id.as_str()) {
            None => fail_unknown_view(msg_id, id),
            Some(config) => match self.schema_of(id.as_str()) {
                Some(schema) => {
                    let mut next = fresh_work(msg_id, id.clone(), Stage::Data { as_rows });
                    next.viewport = viewport;
                    Step::Call(HandlerCall::ViewGetData { view_id: id, config, schema, viewport }, next)
                },
                None => {
                    let mut next = fresh_work(msg_id, id.clone(), Stage::DataSchema { as_rows });
                    next.viewport = viewport;
                    Step::Call(HandlerCall::ViewSchema { view_id: id, config }, next)
                },
            },
        }
    }
}

impl VirtualServer {
    /// Takes a request in. The result says what to ask the handler first,
    /// or holds the response where the engine needs no handler for it.
    pub fn handle_request(&self, msg: Request) -> (step: Step)
        ensures
            self.deep_view().wf(),
            step.deep_view() == begin(self.deep_view(), msg),
    {
        self.names_are_distinct();
        let Request { msg_id, entity_id, client_req } = msg;
        let n = msg_id;
        match client_req {
            None => fail(n, entity_id, "Unhandled request: None".to_owned()),
            Some(ClientReq::GetFeaturesReq) => Step::Call(
                HandlerCall::GetFeatures,
                fresh_work(n, entity_id, Stage::Features),
            ),
            Some(ClientReq::GetHostedTablesReq) => Step::Call(
                HandlerCall::GetHostedTables,
                fresh_work(n, entity_id, Stage::HostedTables),
            ),
            Some(ClientReq::TableSchemaReq) => Step::Call(
                HandlerCall::TableSchema { table_id: entity_id.clone() },
                fresh_work(n, entity_id, Stage::TableSchema),
            ),
            Some(ClientReq::TableMakePortReq(req)) => Step::Call(
                HandlerCall::TableMakePort { req },
                fresh_work(n, entity_id, Stage::TableMakePort),
            ),
            Some(ClientReq::TableMakeViewReq { view_id, config }) => {
                let config = match config {
                    Some(c) => c,
                    None => ViewConfig::default(),
                };
                let mut next = fresh_work(n, entity_id.clone(), Stage::TableMakeView);
                next.subject = view_id.clone();
                Step::Call(HandlerCall::TableMakeView { table_id: entity_id, view_id, config }, next)
            },
            Some(ClientReq::TableSizeReq) => Step::Call(
                HandlerCall::TableSize { table_id: entity_id.clone() },
                fresh_work(n, entity_id, Stage::TableSize),
            ),
            Some(ClientReq::TableValidateExprReq { column_to_expr }) => {
                let mut next = fresh_work(n, entity_id.clone(), Stage::ValidateExpr);
                next.pairs = column_to_expr;
                next_expression_step(next, entity_id)
            },
            Some(ClientReq::ViewSchemaReq) => match self.schema_of(entity_id.as_str()) {
                Some(schema) => {
                    let public = public_schema_of(&schema);
                    respond_with(
                        n,
                        entity_id,
                        ClientResp::ViewSchemaResp { schema: schema_codes_of(&public) },
                    )
                },
                None => match self.config_of(entity_id.as_str()) {
                    Some(config) => Step::Call(
                        HandlerCall::ViewSchema { view_id: entity_id.clone(), config },
                        fresh_work(n, entity_id, Stage::ViewSchema),
                    ),
                    None => fail_unknown_view(n, entity_id),
                },
            },
            Some(ClientReq::ViewDimensionsReq) => match self.table_of(entity_id.as_str()) {
                Some(table_id) => {
                    let mut next = fresh_work(n, entity_id, Stage::TableRows);
                    next.subject = table_id.clone();
                    Step::Call(HandlerCall::TableSize { table_id }, next)
                },
                None => fail_unknown_view(n, entity_id),
            },
            Some(ClientReq::ViewGetConfigReq) => match self.config_of(entity_id.as_str()) {
                Some(config) => respond_with(
                    n,
                    entity_id,
                    ClientResp::ViewGetConfigResp { config },
                ),
                None => fail_unknown_view(n, entity_id),
            },
            Some(ClientReq::ViewExpressionSchemaReq) => match self.config_of(entity_id.as_str()) {
                Some(config) => {
                    let pairs = pairs_of(&config.expressions);
                    match self.table_of(entity_id.as_str()) {
                        Some(table_id) => {
                            let mut next = fresh_work(n, entity_id, Stage::ExprSchema);
                            next.subject = table_id.clone();
                            next.pairs = pairs;
                            next_expression_step(next, table_id)
                        },
                        None => if pairs.len() == 0 {
                            let schema: Vec<(String, i32)> = Vec::new();
                            proof {
                                assert(deep(schema@) =~= Seq::empty());
                                assert(deep(pairs@).len() == pairs@.len());
                            }
                            respond_with(
                                n,
                                entity_id,
                                ClientResp::ViewExpressionSchemaResp { schema },
                            )
                        } else {
                            proof {
                                assert(deep(pairs@).len() == pairs@.len());
                            }
                            fail_unknown_view(n, entity_id)
                        },
                    }
                },
                None => fail_unknown_view(n, entity_id),
            },
            Some(ClientReq::ViewColumnPathsReq) => match self.config_of(entity_id.as_str()) {
                Some(config) => Step::Call(
                    HandlerCall::ViewSchema { view_id: entity_id.clone(), config },
                    fresh_work(n, entity_id, Stage::ColumnPaths),
                ),
                None => fail_unknown_view(n, entity_id),
            },
            Some(ClientReq::ViewToRowsStringReq { viewport }) => {
                let viewport = match viewport {
                    Some(v) => v,
                    None => ViewPort {
                        start_row: None,
                        start_col: None,
                        end_row: None,
                        end_col: None,
                    },
                };
                self.begin_data_step(n, entity_id, viewport, true)
            },
            Some(ClientReq::ViewToColumnsStringReq { viewport }) => {
                let viewport = match viewport {
                    Some(v) => v,
                    None => ViewPort {
                        start_row: None,
                        start_col: None,
                        end_row: None,
                        end_col: None,
                    },
                };
                self.begin_data_step(n, entity_id, viewport, false)
            },
            Some(ClientReq::ViewDeleteReq) => Step::Call(
                HandlerCall::ViewDelete { view_id: entity_id.clone() },
                fresh_work(n, entity_id, Stage::ViewDelete),
            ),
            Some(ClientReq::MakeTableReq { data }) => match data {
                Some(bytes) => Step::Call(
                    HandlerCall::MakeTable { table_id: entity_id.clone(), data: bytes },
                    fresh_work(n, entity_id, Stage::MakeTable),
                ),
                None => fail(n, entity_id, "Missing table data".to_owned()),
            },
            Some(ClientReq::TableOnDeleteReq) => respond_with(
                n,
                entity_id,
                ClientResp::TableOnDeleteResp,
            ),
            Some(ClientReq::ViewOnUpdateReq) => respond_with(
                n,
                entity_id,
                ClientResp::ViewOnUpdateResp { delta: None, port_id: 0 },
            ),
            Some(ClientReq::ViewOnDeleteReq) => respond_with(
                n,
                entity_id,
                ClientResp::ViewOnDeleteResp,
            ),
            Some(ClientReq::ViewRemoveOnUpdateReq) => respond_with(
                n,
                entity_id,
                ClientResp::ViewRemoveOnUpdateResp,
            ),
            Some(ClientReq::TableRemoveDeleteReq) => respond_with(
                n,
                entity_id,
                ClientResp::TableRemoveDeleteResp,
            ),
            Some(ClientReq::ViewRemoveDeleteReq) => respond_with(
                n,
                entity_id,
                ClientResp::ViewRemoveDeleteResp,
            ),
            Some(ClientReq::Other(kind)) => fail(
                n,
                entity_id,
                "Unhandled request: ".to_owned().concat(kind.as_str()),
            ),
        }
    }

    /// Takes the handler's answer in. The result says what to ask the
    /// handler next, or holds the response.
    pub fn resume(&mut self, next: Continuation, reply: HandlerReply) -> (step: Step)
        ensures
            old(self).deep_view().wf(),
            final(self).deep_view().wf(),
            final(self).deep_view() == resume(old(self).deep_view(), next.deep_view(), reply).0,
            step.deep_view() == resume(old(self).deep_view(), next.deep_view(), reply).1,
            paired(old(self).deep_view()) ==> paired(final(self).deep_view()),
    {
        self.names_are_distinct();
        proof {
            lemma_resume_wf(self.deep_view(), next.deep_view(), reply);
        }
        let ghost c = next.deep_view();
        let ghost s = self.deep_view();
        let n = next.msg_id;
        match (next.stage, reply) {
            (Stage::ValidateExpr, HandlerReply::ExpressionType(t)) => {
                proof {
                    assert(deep(next.pairs@).len() == next.pairs@.len());
                }
                if next.at < next.pairs.len() {
                    let mut next = next;
                    let entry = (next.pairs[next.at].0.clone(), t.code());
                    proof {
                        lemma_deep_push(next.types@, entry);
                    }
                    next.types.push(entry);
                    next.at = next.at + 1;
                    let table_id = next.entity_id.clone();
                    next_expression_step(next, table_id)
                } else {
                    fail_unexpected(n, next.entity_id)
                }
            },
            (Stage::ValidateExpr, HandlerReply::Failed { message, detail }) => {
                proof {
                    assert(deep(next.pairs@).len() == next.pairs@.len());
                }
                if next.at < next.pairs.len() {
                    let mut next = next;
                    let entry = (
                        next.pairs[next.at].0.clone(),
                        ExprValidationError { error_message: message, line: 0, column: 0 },
                    );
                    proof {
                        lemma_deep_push(next.errors@, entry);
                    }
                    next.errors.push(entry);
                    next.at = next.at + 1;
                    let table_id = next.entity_id.clone();
                    next_expression_step(next, table_id)
                } else {
                    fail_unexpected(n, next.entity_id)
                }
            },
            (Stage::ExprSchema, HandlerReply::ExpressionType(t)) => {
                proof {
                    assert(deep(next.pairs@).len() == next.pairs@.len());
                }
                if next.at < next.pairs.len() {
                    let mut next = next;
                    let entry = (next.pairs[next.at].0.clone(), t.code());
                    proof {
                        lemma_deep_push(next.types@, entry);
                    }
                    next.types.push(entry);
                    next.at = next.at + 1;
                    let table_id = next.subject.clone();
                    next_expression_step(next, table_id)
                } else {
                    fail_unexpected(n, next.entity_id)
                }
            },
            (Stage::ExprSchema, HandlerReply::Failed { message, detail }) => {
                proof {
                    assert(deep(next.pairs@).len() == next.pairs@.len());
                }
                if next.at < next.pairs.len() {
                    let mut next = next;
                    next.at = next.at + 1;
                    let table_id = next.subject.clone();
                    next_expression_step(next, table_id)
                } else {
                    fail_unexpected(n, next.entity_id)
                }
            },
            (_, HandlerReply::Failed { message, detail }) => fail_with(
                n,
                next.entity_id,
                VirtualServerError::InternalError(detail),
            ),
            (Stage::Features, HandlerReply::Features(f)) => respond_with(
                n,
                next.entity_id,
                ClientResp::GetFeaturesResp(f.to_wire()),
            ),
            (Stage::HostedTables, HandlerReply::HostedTables(tables)) => respond_with(
                n,
                next.entity_id,
                ClientResp::GetHostedTablesResp { table_infos: tables },
            ),
            (Stage::TableSchema, HandlerReply::Schema(schema)) => respond_with(
                n,
                next.entity_id,
                ClientResp::TableSchemaResp { schema: schema_codes_of(&schema) },
            ),
            (Stage::TableMakePort, HandlerReply::Size(port_id)) => respond_with(
                n,
                next.entity_id,
                ClientResp::TableMakePortResp { port_id },
            ),
            (Stage::TableMakeView, HandlerReply::ViewMade { view_id, config }) => {
                let ghost tables = self.view_to_table@;
                let ghost configs = self.view_configs@;
                proof {
                    assert(deep_entries(tables.put(next.subject@, next.entity_id)).values
                        =~= deep_entries(tables).put(next.subject@, next.entity_id@).values);
                    assert(deep_entries(configs.put(next.subject@, config)).values =~= deep_entries(
                        configs,
                    ).put(next.subject@, config.deep_view()).values);
                }
                self.view_to_table.insert(next.subject.clone(), next.entity_id.clone());
                self.view_configs.insert(next.subject, config);
                proof {
                    lemma_deep_wf(self.view_to_table@);
                    lemma_deep_wf(self.view_configs@);
                }
                respond_with(n, next.entity_id, ClientResp::TableMakeViewResp { view_id })
            },
            (Stage::TableSize, HandlerReply::Size(size)) => respond_with(
                n,
                next.entity_id,
                ClientResp::TableSizeResp { size },
            ),
            (Stage::ViewSchema, HandlerReply::Schema(schema)) => {
                let public = public_schema_of(&schema);
                let codes = schema_codes_of(&public);
                let ghost before = self.view_schemas@;
                proof {
                    assert(deep_entries(before.put(next.entity_id@, schema)).values =~= deep_entries(
                        before,
                    ).put(next.entity_id@, schema.deep_view()).values);
                }
                self.view_schemas.insert(next.entity_id.clone(), schema);
                proof {
                    lemma_deep_wf(self.view_schemas@);
                }
                respond_with(n, next.entity_id, ClientResp::ViewSchemaResp { schema: codes })
            },
            (Stage::TableRows, HandlerReply::Size(rows)) => {
                let mut next = next;
                next.stage = Stage::TableColumns { rows };
                Step::Call(HandlerCall::TableColumnSize { table_id: next.subject.clone() }, next)
            },
            (Stage::TableColumns { rows }, HandlerReply::Size(columns)) => {
                match self.config_of(next.entity_id.as_str()) {
                    Some(config) => {
                        let mut next = next;
                        next.stage = Stage::ViewColumns { rows, columns };
                        Step::Call(
                            HandlerCall::ViewColumnSize { view_id: next.entity_id.clone(), config },
                            next,
                        )
                    },
                    None => fail_unknown_view(n, next.entity_id),
                }
            },
            (Stage::ViewColumns { rows, columns }, HandlerReply::Size(view_columns)) => {
                let mut next = next;
                next.stage = Stage::ViewRows { rows, columns, view_columns };
                Step::Call(HandlerCall::ViewSize { view_id: next.entity_id.clone() }, next)
            },
            (Stage::ViewRows { rows, columns, view_columns }, HandlerReply::Size(view_rows)) =>
                respond_with(
                n,
                next.entity_id,
                ClientResp::ViewDimensionsResp {
                    num_table_rows: rows,
                    num_table_columns: columns,
                    num_view_rows: view_rows,
                    num_view_columns: view_columns,
                },
            ),
            (Stage::ColumnPaths, HandlerReply::Schema(schema)) => respond_with(
                n,
                next.entity_id,
                ClientResp::ViewColumnPathsResp { paths: keys_of_schema(&schema) },
            ),
            (Stage::DataSchema { as_rows }, HandlerReply::Schema(schema)) => {
                let found = self.config_of(next.entity_id.as_str());
                let copy = schema.deep_clone();
                let ghost before = self.view_schemas@;
                proof {
                    assert(deep_entries(before.put(next.entity_id@, schema)).values =~= deep_entries(
                        before,
                    ).put(next.entity_id@, schema.deep_view()).values);
                }
                self.view_schemas.insert(next.entity_id.clone(), schema);
                proof {
                    lemma_deep_wf(self.view_schemas@);
                }
                match found {
                    Some(config) => {
                        let mut next = next;
                        next.stage = Stage::Data { as_rows };
                        Step::Call(
                            HandlerCall::ViewGetData {
                                view_id: next.entity_id.clone(),
                                config,
                                schema: copy,
                                viewport: next.viewport,
                            },
                            next,
                        )
                    },
                    None => fail_unknown_view(n, next.entity_id),
                }
            },
            (Stage::Data { as_rows }, HandlerReply::Data(slice)) => {
                let mut next = next;
                next.stage = Stage::Json { as_rows };
                if !as_rows {
                    Step::Call(HandlerCall::ColumnsToJson { columns: slice }, next)
                } else {
                    match slice.to_rows() {
                        Ok(rows) => Step::Call(HandlerCall::RowsToJson { rows }, next),
                        Err(e) => fail(n, next.entity_id, e.message().to_owned()),
                    }
                }
            },
            (Stage::Json { as_rows }, HandlerReply::Json(json_string)) => respond_with(
                n,
                next.entity_id,
                if as_rows {
                    ClientResp::ViewToRowsStringResp { json_string }
                } else {
                    ClientResp::ViewToColumnsStringResp { json_string }
                },
            ),
            (Stage::Json { as_rows }, HandlerReply::InvalidJson(why)) => fail_with(
                n,
                next.entity_id,
                VirtualServerError::InvalidJSON(why),
            ),
            (Stage::ViewDelete, HandlerReply::Done) => {
                let ghost tables = self.view_to_table@;
                let ghost configs = self.view_configs@;
                let ghost schemas = self.view_schemas@;
                let ghost id = next.entity_id@;
                let _ = self.view_to_table.shift_remove(next.entity_id.as_str());
                let _ = self.view_configs.shift_remove(next.entity_id.as_str());
                let _ = self.view_schemas.shift_remove(next.entity_id.as_str());
                proof {
                    assert(deep_entries(tables.without(id)).values =~= deep_entries(
                        tables,
                    ).without(id).values);
                    assert(deep_entries(configs.without(id)).values =~= deep_entries(
                        configs,
                    ).without(id).values);
                    assert(deep_entries(schemas.without(id)).values =~= deep_entries(
                        schemas,
                    ).without(id).values);
                    lemma_deep_wf(self.view_to_table@);
                    lemma_deep_wf(self.view_configs@);
                    lemma_deep_wf(self.view_schemas@);
                }
                respond_with(n, next.entity_id, ClientResp::ViewDeleteResp)
            },
            (Stage::MakeTable, HandlerReply::Done) => respond_with(
                n,
                next.entity_id,
                ClientResp::MakeTableResp,
            ),
            _ => fail_unexpected(n, next.entity_id),
        }
    }
}

/// The engine knows the view: it was made of a table, and is configured.
pub open spec fn knows_view(s: ServerView, id: Seq<char>) -> bool {
    s.view_to_table.has_key(id) && s.view_configs.has_key(id)
}

/// The engine keeps nothing under this name.
pub open spec fn forgot_view(s: ServerView, id: Seq<char>) -> bool {
    &&& !s.view_to_table.has_key(id)
    &&& !s.view_configs.has_key(id)
    &&& !s.view_schemas.has_key(id)
}

/// The engine keeps the same under this name in both states.
pub open spec fn same_view(a: ServerView, b: ServerView, id: Seq<char>) -> bool {
    &&& a.view_to_table.get(id) == b.view_to_table.get(id)
    &&& a.view_configs.get(id) == b.view_configs.get(id)
    &&& a.view_schemas.get(id) == b.view_schemas.get(id)
}

/// The request asks about a view that was made: for its schema, its
/// dimensions, its configuration, the types of its expressions, the paths of
/// its columns, or its data.
pub open spec fn reads_view(req: ClientReq) -> bool {
    ||| req is ViewSchemaReq
    ||| req is ViewDimensionsReq
    ||| req is ViewGetConfigReq
    ||| req is ViewExpressionSchemaReq
    ||| req is ViewColumnPathsReq
    ||| req is ViewToRowsStringReq
    ||| req is ViewToColumnsStringReq
}

/// The step is a response that tells of a failure.
pub open spec fn is_failure(step: StepView) -> bool {
    step matches StepView::Done(response) && response.client_resp is ServerError
}

/// The engine keeps a table for exactly the views that it keeps a
/// configuration for.
pub open spec fn paired(s: ServerView) -> bool {
    forall|id: Seq<char>| #[trigger]
        s.view_to_table.has_key(id) <==> s.view_configs.has_key(id)
}

/// An answer of the handler leaves no view under two names, and leaves the
/// tables and the configurations paired.
pub proof fn lemma_resume_wf(s: ServerView, next: ContinuationView, reply: HandlerReply)
    requires
        s.wf(),
    ensures
        resume(s, next, reply).0.wf(),
        paired(s) ==> paired(resume(s, next, reply).0),
{
    let after = resume(s, next, reply).0;
    if paired(s) {
        assert forall|id: Seq<char>| #[trigger]
            after.view_to_table.has_key(id) <==> after.view_configs.has_key(id) by {
            assert(s.view_to_table.has_key(id) <==> s.view_configs.has_key(id));
        }
    }
    match (next.stage, reply) {
        (Stage::TableMakeView, HandlerReply::ViewMade { view_id, config }) => {
            lemma_put_wf(s.view_to_table, next.subject, next.entity_id);
            lemma_put_wf(s.view_configs, next.subject, config.deep_view());
        },
        (Stage::ViewSchema, HandlerReply::Schema(schema)) => {
            lemma_put_wf(s.view_schemas, next.entity_id, schema.deep_view());
        },
        (Stage::DataSchema { as_rows }, HandlerReply::Schema(schema)) => {
            lemma_put_wf(s.view_schemas, next.entity_id, schema.deep_view());
        },
        (Stage::ViewDelete, HandlerReply::Done) => {
            lemma_without_wf(s.view_to_table, next.entity_id);
            lemma_without_wf(s.view_configs, next.entity_id);
            lemma_without_wf(s.view_schemas, next.entity_id);
        },
        _ => {},
    }
}

/// Once the handler has made a view, the engine knows it: the request to
/// make the view `view_id` of the table `table_id` asks the handler to make
/// it, and with the handler's answer the engine responds with the name that
/// the handler gave, and keeps the view's table and its configuration as
/// the handler left it.
pub proof fn lemma_made_view_is_known(
    s: ServerView,
    msg_id: u32,
    table_id: String,
    view_id: String,
    config: Option<ViewConfig>,
    made: String,
    left: ViewConfig,
)
    ensures
        ({
            let msg = Request {
                msg_id,
                entity_id: table_id,
                client_req: Some(ClientReq::TableMakeViewReq { view_id, config }),
            };
            let reply = HandlerReply::ViewMade { view_id: made, config: left };
            &&& begin(s, msg) matches StepView::Call(call, next)
            &&& call matches HandlerCallView::TableMakeView { table_id: t, view_id: v, .. }
            &&& t == table_id@
            &&& v == view_id@
            &&& resume(s, next, reply).1 == respond(
                msg_id,
                table_id@,
                ClientRespView::TableMakeViewResp { view_id: made@ },
            )
            &&& knows_view(resume(s, next, reply).0, view_id@)
            &&& resume(s, next, reply).0.view_to_table.get(view_id@) == Some(table_id@)
            &&& resume(s, next, reply).0.view_configs.get(view_id@) == Some(left.deep_view())
        }),
{
}

/// A view whose making failed is not made: where the handler fails to make
/// a view, the engine keeps what it kept before the request came. A view
/// that it did not know it still does not know, and a view that it knew it
/// knows as it did, with the table that it was made of.
pub proof fn lemma_failed_view_is_not_made(
    s: ServerView,
    msg_id: u32,
    table_id: String,
    view_id: String,
    config: Option<ViewConfig>,
    message: String,
    detail: String,
)
    ensures
        ({
            let msg = Request {
                msg_id,
                entity_id: table_id,
                client_req: Some(ClientReq::TableMakeViewReq { view_id, config }),
            };
            let reply = HandlerReply::Failed { message, detail };
            &&& begin(s, msg) matches StepView::Call(_, next)
            &&& resume(s, next, reply).0 == s
            &&& resume(s, next, reply).1 == failure(
                msg_id,
                table_id@,
                "External Error: "@ + detail@,
            )
        }),
{
}

/// A request that asks about a view that the engine knows does not fail
/// for want of the view.
pub proof fn lemma_known_view_is_served(s: ServerView, msg: Request)
    requires
        msg.client_req is Some,
        reads_view(msg.client_req->0),
        knows_view(s, msg.entity_id@),
    ensures
        !is_failure(begin(s, msg)),
{
}

/// A request that asks about a view that the engine does not know is
/// answered with "view not found", and nothing is asked of the handler.
pub proof fn lemma_unknown_view_is_refused(s: ServerView, msg: Request)
    requires
        paired(s),
        msg.client_req is Some,
        reads_view(msg.client_req->0),
        !knows_view(s, msg.entity_id@),
        !s.view_schemas.has_key(msg.entity_id@),
    ensures
        begin(s, msg) == unknown_view(msg.msg_id, msg.entity_id@),
{
}

/// Once a view is deleted, the engine has forgotten it, and answers every
/// request that asks about it with "view not found".
pub proof fn lemma_deleted_view_is_unknown(s: ServerView, next: ContinuationView, msg: Request)
    requires
        next.stage == Stage::ViewDelete,
        msg.client_req is Some,
        reads_view(msg.client_req->0),
        msg.entity_id@ == next.entity_id,
    ensures
        resume(s, next, HandlerReply::Done).1 == respond(
            next.msg_id,
            next.entity_id,
            ClientRespView::ViewDeleteResp,
        ),
        forgot_view(resume(s, next, HandlerReply::Done).0, next.entity_id),
        begin(resume(s, next, HandlerReply::Done).0, msg) == unknown_view(
            msg.msg_id,
            next.entity_id,
        ),
{
}

/// A request whose first call of the handler fails leaves the engine as it
/// was before the request came: what it keeps after the failure is what it
/// kept before the request, whatever the request asked for.
pub proof fn lemma_failed_request_keeps_state(
    s: ServerView,
    msg: Request,
    message: String,
    detail: String,
)
    ensures
        begin(s, msg) matches StepView::Call(_, next) ==> resume(
            s,
            next,
            HandlerReply::Failed { message, detail },
        ).0 == s,
{
}

/// A failure of the handler, at whatever call of a request it comes, leaves
/// what the engine keeps as it is.
pub proof fn lemma_failure_keeps_state(
    s: ServerView,
    next: ContinuationView,
    message: String,
    detail: String,
)
    ensures
        resume(s, next, HandlerReply::Failed { message, detail }).0 == s,
{
}

/// A failure of the handler ends the request with a response that tells of
/// it, unless the request asks for the types of expressions.
pub proof fn lemma_failure_is_told(
    s: ServerView,
    next: ContinuationView,
    message: String,
    detail: String,
)
    requires
        next.stage != Stage::ValidateExpr,
        next.stage != Stage::ExprSchema,
    ensures
        resume(s, next, HandlerReply::Failed { message, detail }).1 == failure(
            next.msg_id,
            next.entity_id,
            "External Error: "@ + detail@,
        ),
{
}

/// An expression that is not valid does not end the batch: the engine
/// records the error under the expression's name and goes on to the next
/// expression, or responds with all results.
pub proof fn lemma_invalid_expression_is_recorded(
    s: ServerView,
    next: ContinuationView,
    message: String,
    detail: String,
)
    requires
        next.stage == Stage::ValidateExpr,
        next.at < next.pairs.len(),
    ensures
        ({
            let step = resume(s, next, HandlerReply::Failed { message, detail }).1;
            let errors = next.errors.push((next.pairs[next.at as int].0, (message@, 0u32, 0u32)));
            &&& !is_failure(step)
            &&& step matches StepView::Call(_, after) ==> after.errors == errors && after.at
                == next.at + 1
            &&& step matches StepView::Done(response) ==> response.client_resp
                == (ClientRespView::TableValidateExprResp {
                expression_schema: next.types,
                errors,
                expression_alias: next.pairs,
            })
        }),
{
}

/// An answer of the handler changes what the engine keeps under the names
/// that the request is about, and under no other.
pub proof fn lemma_answer_leaves_other_views(
    s: ServerView,
    next: ContinuationView,
    reply: HandlerReply,
    other: Seq<char>,
)
    requires
        other != next.entity_id,
        other != next.subject,
    ensures
        same_view(s, resume(s, next, reply).0, other),
{
}

/// The schema of a view is asked of the handler once: with the handler's
/// answer the engine keeps it, and answers the next request for it without
/// the handler.
pub proof fn lemma_schema_is_asked_once(
    s: ServerView,
    next: ContinuationView,
    schema: OrderedMap<ColumnType>,
    msg_id: u32,
    view_id: String,
)
    requires
        next.stage == Stage::ViewSchema,
        next.entity_id == view_id@,
    ensures
        ({
            let kept = resume(s, next, HandlerReply::Schema(schema)).0;
            let msg = Request { msg_id, entity_id: view_id, client_req: Some(ClientReq::ViewSchemaReq) };
            &&& kept.view_schemas.get(view_id@) == Some(schema.deep_view())
            &&& begin(kept, msg) == respond(
                msg_id,
                view_id@,
                ClientRespView::ViewSchemaResp {
                    schema: schema_codes(
                        public_schema(schema.deep_view(), schema.deep_view().keys.len()),
                    ),
                },
            )
        }),
{
}

/// The columns of a schema with the codes of their types hold each column
/// once.
pub proof fn lemma_schema_codes_distinct(schema: Entries<ColumnType>)
    requires
        schema.wf(),
    ensures
        distinct_first(schema_codes(schema)),
{
    assert forall|i: int, j: int| 0 <= i < j < schema_codes(schema).len() implies (
    #[trigger] schema_codes(schema)[i]).0 != (#[trigger] schema_codes(schema)[j]).0 by {
        assert(schema.keys[i] != schema.keys[j]);
    }
}

/// A schema under its public names holds each name once.
pub proof fn lemma_public_schema_distinct(schema: Entries<ColumnType>, k: nat)
    ensures
        public_schema(schema, k).wf(),
        distinct_first(schema_codes(public_schema(schema, k))),
    decreases k,
{
    if k > 0 {
        lemma_public_schema_distinct(schema, (k - 1) as nat);
        lemma_put_wf(
            public_schema(schema, (k - 1) as nat),
            last_segment(schema.keys[k - 1], '_'),
            schema.value_at(k - 1),
        );
    } else {
        assert(public_schema(schema, 0).wf());
    }
    lemma_schema_codes_distinct(public_schema(schema, k));
}

/// The results of a batch of expressions so far: the expressions are under
/// distinct names, the types and the errors each hold a name once, and none
/// of them holds the name of an expression that is still to be answered.
pub open spec fn batch_wf(c: ContinuationView) -> bool {
    &&& c.at <= c.pairs.len()
    &&& distinct_first(c.pairs)
    &&& distinct_first(c.types)
    &&& distinct_first(c.errors)
    &&& forall|i: int, j: int|
        0 <= i < c.types.len() && c.at <= j < c.pairs.len() ==> (#[trigger] c.types[i]).0 != (
        #[trigger] c.pairs[j]).0
    &&& forall|i: int, j: int|
        0 <= i < c.errors.len() && c.at <= j < c.pairs.len() ==> (#[trigger] c.errors[i]).0 != (
        #[trigger] c.pairs[j]).0
}

/// What a step tells of a batch of expressions holds each name once: the
/// work that goes on, and the lists of the response that ends it.
pub open spec fn batch_step_wf(step: StepView) -> bool {
    match step {
        StepView::Call(_, next) => batch_wf(next),
        StepView::Done(response) => match response.client_resp {
            ClientRespView::TableValidateExprResp { expression_schema, errors, expression_alias } => {
                &&& distinct_first(expression_schema)
                &&& distinct_first(errors)
                &&& distinct_first(expression_alias)
            },
            ClientRespView::ViewExpressionSchemaResp { schema } => distinct_first(schema),
            _ => true,
        },
    }
}

/// A batch of expressions under distinct names begins with results that
/// hold each name once.
pub proof fn lemma_batch_begins_distinct(s: ServerView, msg: Request)
    requires
        msg.client_req matches Some(ClientReq::TableValidateExprReq { column_to_expr })
            ==> distinct_first(deep(column_to_expr@)),
        msg.client_req == Some(ClientReq::ViewExpressionSchemaReq) ==> (s.view_configs.get(
            msg.entity_id@,
        ) matches Some(config) ==> config.expressions.wf()),
        msg.client_req matches Some(req) && (req is TableValidateExprReq
            || req is ViewExpressionSchemaReq),
    ensures
        batch_step_wf(begin(s, msg)),
{
    match msg.client_req {
        Some(ClientReq::ViewExpressionSchemaReq) => {
            match s.view_configs.get(msg.entity_id@) {
                Some(config) => {
                    lemma_pairs_distinct(config.expressions);
                },
                None => {},
            }
        },
        _ => {},
    }
}

/// Each answer to a batch of expressions leaves its results holding each
/// name once.
pub proof fn lemma_batch_stays_distinct(s: ServerView, c: ContinuationView, reply: HandlerReply)
    requires
        batch_wf(c),
        c.stage == Stage::ValidateExpr || c.stage == Stage::ExprSchema,
    ensures
        batch_step_wf(resume(s, c, reply).1),
{
    if c.at < c.pairs.len() {
        let name = c.pairs[c.at as int].0;
        match reply {
            HandlerReply::ExpressionType(t) => {
                let types = c.types.push((name, t.spec_code() as i32));
                assert forall|i: int, j: int| 0 <= i < j < types.len() implies (
                #[trigger] types[i]).0 != (#[trigger] types[j]).0 by {
                    assert(types[i] == c.types[i]);
                    if j < c.types.len() {
                        assert(types[j] == c.types[j]);
                    } else {
                        assert(c.types[i].0 != c.pairs[c.at as int].0);
                    }
                }
                assert forall|i: int, j: int|
                    0 <= i < types.len() && c.at + 1 <= j < c.pairs.len() implies (
                #[trigger] types[i]).0 != (#[trigger] c.pairs[j]).0 by {
                    if i < c.types.len() {
                        assert(types[i] == c.types[i]);
                    } else {
                        assert(c.pairs[c.at as int].0 != c.pairs[j].0);
                    }
                }
            },
            HandlerReply::Failed { message, detail } => {
                if c.stage == Stage::ValidateExpr {
                    let errors = c.errors.push((name, (message@, 0u32, 0u32)));
                    assert forall|i: int, j: int| 0 <= i < j < errors.len() implies (
                    #[trigger] errors[i]).0 != (#[trigger] errors[j]).0 by {
                        assert(errors[i] == c.errors[i]);
                        if j < c.errors.len() {
                            assert(errors[j] == c.errors[j]);
                        } else {
                            assert(c.errors[i].0 != c.pairs[c.at as int].0);
                        }
                    }
                    assert forall|i: int, j: int|
                        0 <= i < errors.len() && c.at + 1 <= j < c.pairs.len() implies (
                    #[trigger] errors[i]).0 != (#[trigger] c.pairs[j]).0 by {
                        if i < c.errors.len() {
                            assert(errors[i] == c.errors[i]);
                        } else {
                            assert(c.pairs[c.at as int].0 != c.pairs[j].0);
                        }
                    }
                }
            },
            _ => {},
        }
    }
}

} // verus!
