//! The values that travel on the wire, as the protocol's messages hold them.

use crate::deep::{deep, DeepClone};
use crate::features::{GetFeaturesResp, GetFeaturesRespView};
use crate::number::Float;
use crate::view_config::{ViewConfig, ViewConfigView};
use vstd::prelude::*;

verus! {

/// The type of a column.
#[derive(Clone, Copy, Debug, PartialEq, Eq, Hash, Structural)]
pub enum ColumnType {
    String,
    Date,
    Datetime,
    Integer,
    Float,
    Boolean,
}

impl ColumnType {
    /// The number that stands for the type on the wire.
    pub open spec fn spec_code(self) -> int {
        match self {
            ColumnType::String => 0,
            ColumnType::Date => 1,
            ColumnType::Datetime => 2,
            ColumnType::Integer => 3,
            ColumnType::Float => 4,
            ColumnType::Boolean => 5,
        }
    }

    #[verifier::when_used_as_spec(spec_code_i32)]
    pub fn code(self) -> (c: i32)
        ensures
            c == self.spec_code(),
    {
        match self {
            ColumnType::String => 0,
            ColumnType::Date => 1,
            ColumnType::Datetime => 2,
            ColumnType::Integer => 3,
            ColumnType::Float => 4,
            ColumnType::Boolean => 5,
        }
    }

    pub open spec fn spec_code_i32(self) -> i32 {
        self.spec_code() as i32
    }
}

/// The type that a name stands for, if it stands for one.
pub open spec fn type_of_name(name: Seq<char>) -> Option<ColumnType> {
    if name == "string"@ {
        Some(ColumnType::String)
    } else if name == "date"@ {
        Some(ColumnType::Date)
    } else if name == "datetime"@ {
        Some(ColumnType::Datetime)
    } else if name == "integer"@ {
        Some(ColumnType::Integer)
    } else if name == "float"@ {
        Some(ColumnType::Float)
    } else if name == "boolean"@ {
        Some(ColumnType::Boolean)
    } else {
        None
    }
}

impl ColumnType {
    /// The type that `name` stands for; `None` for a name that stands for
    /// none.
    pub fn from_name(name: &str) -> (t: Option<ColumnType>)
        ensures
            t == type_of_name(name@),
    {
        if name.eq("string") {
            Some(ColumnType::String)
        } else if name.eq("date") {
            Some(ColumnType::Date)
        } else if name.eq("datetime") {
            Some(ColumnType::Datetime)
        } else if name.eq("integer") {
            Some(ColumnType::Integer)
        } else if name.eq("float") {
            Some(ColumnType::Float)
        } else if name.eq("boolean") {
            Some(ColumnType::Boolean)
        } else {
            None
        }
    }
}

impl DeepView for ColumnType {
    type V = ColumnType;

    open spec fn deep_view(&self) -> ColumnType {
        *self
    }
}

impl DeepClone for ColumnType {
    fn deep_clone(&self) -> (copy: Self) {
        *self
    }
}

/// A window of rows and columns. A bound that is absent leaves that side open.
#[derive(Clone, Copy, Debug, PartialEq, Eq, Structural)]
pub struct ViewPort {
    pub start_row: Option<u32>,
    pub start_col: Option<u32>,
    pub end_row: Option<u32>,
    pub end_col: Option<u32>,
}

/// The payload of a wire scalar.
#[derive(Debug, PartialEq)]
pub enum ScalarValue {
    Bool(bool),
    Date(i64),
    Datetime(i64),
    Float(Float),
    Int(i64),
    String(String),
    Null(i32),
}

pub enum ScalarValueView {
    Bool(bool),
    Date(i64),
    Datetime(i64),
    Float(Seq<char>),
    Int(i64),
    String(Seq<char>),
    Null(i32),
}

impl View for ScalarValue {
    type V = ScalarValueView;

    open spec fn view(&self) -> ScalarValueView {
        match self {
            ScalarValue::Bool(x) => ScalarValueView::Bool(*x),
            ScalarValue::Date(x) => ScalarValueView::Date(*x),
            ScalarValue::Datetime(x) => ScalarValueView::Datetime(*x),
            ScalarValue::Float(x) => ScalarValueView::Float(x@),
            ScalarValue::Int(x) => ScalarValueView::Int(*x),
            ScalarValue::String(x) => ScalarValueView::String(x@),
            ScalarValue::Null(x) => ScalarValueView::Null(*x),
        }
    }
}

/// A scalar as a message holds it: one payload, or none.
#[derive(Debug, PartialEq)]
pub struct Scalar {
    pub scalar: Option<ScalarValue>,
}

impl View for Scalar {
    type V = Option<ScalarValueView>;

    open spec fn view(&self) -> Option<ScalarValueView> {
        match self.scalar {
            Some(v) => Some(v@),
            None => None,
        }
    }
}

impl DeepView for Scalar {
    type V = Option<ScalarValueView>;

    open spec fn deep_view(&self) -> Option<ScalarValueView> {
        self@
    }
}

/// A filter as a message holds it: the operator is a number, the operand
/// its scalars, and `list` tells an operand that is a list from one that is
/// a single value.
#[derive(Debug, PartialEq)]
pub struct Filter {
    pub column: String,
    pub op: u32,
    pub value: Vec<Scalar>,
    pub list: bool,
}

pub struct FilterView {
    pub column: Seq<char>,
    pub op: u32,
    pub value: Seq<Option<ScalarValueView>>,
    pub list: bool,
}

impl View for Filter {
    type V = FilterView;

    open spec fn view(&self) -> FilterView {
        FilterView {
            column: self.column@,
            op: self.op,
            value: deep(self.value@),
            list: self.list,
        }
    }
}

/// A table that a handler hosts.
#[derive(Debug, PartialEq)]
pub struct HostedTable {
    pub entity_id: String,
    pub index: Option<String>,
    pub limit: Option<u32>,
}

impl DeepView for HostedTable {
    /// The name, the index, the limit.
    type V = (Seq<char>, Option<Seq<char>>, Option<u32>);

    open spec fn deep_view(&self) -> (Seq<char>, Option<Seq<char>>, Option<u32>) {
        (self.entity_id@, self.index.deep_view(), self.limit)
    }
}

/// What a request for a new port holds: nothing.
#[derive(Clone, Copy, Debug, PartialEq, Eq, Structural)]
pub struct TableMakePortReq {}

/// Why an expression is not valid.
#[derive(Debug, PartialEq)]
pub struct ExprValidationError {
    pub error_message: String,
    pub line: u32,
    pub column: u32,
}

impl DeepView for ExprValidationError {
    /// The message, the line, the column.
    type V = (Seq<char>, u32, u32);

    open spec fn deep_view(&self) -> (Seq<char>, u32, u32) {
        (self.error_message@, self.line, self.column)
    }
}

/// What a request asks for.
#[derive(Debug)]
pub enum ClientReq {
    GetFeaturesReq,
    GetHostedTablesReq,
    TableSchemaReq,
    TableMakePortReq(TableMakePortReq),
    TableMakeViewReq { view_id: String, config: Option<ViewConfig> },
    TableSizeReq,
    /// The expressions to validate, each under its name.
    TableValidateExprReq { column_to_expr: Vec<(String, String)> },
    ViewSchemaReq,
    ViewDimensionsReq,
    ViewGetConfigReq,
    ViewExpressionSchemaReq,
    ViewColumnPathsReq,
    ViewToRowsStringReq { viewport: Option<ViewPort> },
    ViewToColumnsStringReq { viewport: Option<ViewPort> },
    ViewDeleteReq,
    /// The data of the new table, as the message holds it.
    MakeTableReq { data: Option<Vec<u8>> },
    TableOnDeleteReq,
    ViewOnUpdateReq,
    ViewOnDeleteReq,
    ViewRemoveOnUpdateReq,
    TableRemoveDeleteReq,
    ViewRemoveDeleteReq,
    /// A request of any other kind; the text shows it.
    Other(String),
}

/// A request: what is asked, of which table or view, and the number by
/// which the response is told from others.
#[derive(Debug)]
pub struct Request {
    pub msg_id: u32,
    pub entity_id: String,
    pub client_req: Option<ClientReq>,
}

/// What a response holds.
#[derive(Debug)]
pub enum ClientResp {
    GetFeaturesResp(GetFeaturesResp),
    GetHostedTablesResp { table_infos: Vec<HostedTable> },
    /// The columns of the table with the codes of their types.
    TableSchemaResp { schema: Vec<(String, i32)> },
    TableMakePortResp { port_id: u32 },
    TableMakeViewResp { view_id: String },
    TableSizeResp { size: u32 },
    TableValidateExprResp {
        expression_schema: Vec<(String, i32)>,
        errors: Vec<(String, ExprValidationError)>,
        expression_alias: Vec<(String, String)>,
    },
    ViewSchemaResp { schema: Vec<(String, i32)> },
    ViewDimensionsResp {
        num_table_rows: u32,
        num_table_columns: u32,
        num_view_rows: u32,
        num_view_columns: u32,
    },
    ViewGetConfigResp { config: ViewConfig },
    ViewExpressionSchemaResp { schema: Vec<(String, i32)> },
    ViewColumnPathsResp { paths: Vec<String> },
    ViewToRowsStringResp { json_string: String },
    ViewToColumnsStringResp { json_string: String },
    ViewDeleteResp,
    MakeTableResp,
    TableOnDeleteResp,
    /// What changed in the view, if anything is told, and on which port.
    ViewOnUpdateResp { delta: Option<Vec<u8>>, port_id: u32 },
    ViewOnDeleteResp,
    ViewRemoveOnUpdateResp,
    TableRemoveDeleteResp,
    ViewRemoveDeleteResp,
    /// The request failed.
    ServerError { message: String, status_code: u32 },
}

pub enum ClientRespView {
    GetFeaturesResp(GetFeaturesRespView),
    GetHostedTablesResp { table_infos: Seq<(Seq<char>, Option<Seq<char>>, Option<u32>)> },
    TableSchemaResp { schema: Seq<(Seq<char>, i32)> },
    TableMakePortResp { port_id: u32 },
    TableMakeViewResp { view_id: Seq<char> },
    TableSizeResp { size: u32 },
    TableValidateExprResp {
        expression_schema: Seq<(Seq<char>, i32)>,
        errors: Seq<(Seq<char>, (Seq<char>, u32, u32))>,
        expression_alias: Seq<(Seq<char>, Seq<char>)>,
    },
    ViewSchemaResp { schema: Seq<(Seq<char>, i32)> },
    ViewDimensionsResp {
        num_table_rows: u32,
        num_table_columns: u32,
        num_view_rows: u32,
        num_view_columns: u32,
    },
    ViewGetConfigResp { config: ViewConfigView },
    ViewExpressionSchemaResp { schema: Seq<(Seq<char>, i32)> },
    ViewColumnPathsResp { paths: Seq<Seq<char>> },
    ViewToRowsStringResp { json_string: Seq<char> },
    ViewToColumnsStringResp { json_string: Seq<char> },
    ViewDeleteResp,
    MakeTableResp,
    TableOnDeleteResp,
    ViewOnUpdateResp { delta: Option<Seq<u8>>, port_id: u32 },
    ViewOnDeleteResp,
    ViewRemoveOnUpdateResp,
    TableRemoveDeleteResp,
    ViewRemoveDeleteResp,
    ServerError { message: Seq<char>, status_code: u32 },
}

impl DeepView for ClientResp {
    type V = ClientRespView;

    open spec fn deep_view(&self) -> ClientRespView {
        match self {
            ClientResp::GetFeaturesResp(f) => ClientRespView::GetFeaturesResp(f.deep_view()),
            ClientResp::GetHostedTablesResp { table_infos } => ClientRespView::GetHostedTablesResp {
                table_infos: deep(table_infos@),
            },
            ClientResp::TableSchemaResp { schema } => ClientRespView::TableSchemaResp {
                schema: deep(schema@),
            },
            ClientResp::TableMakePortResp { port_id } => ClientRespView::TableMakePortResp {
                port_id: *port_id,
            },
            ClientResp::TableMakeViewResp { view_id } => ClientRespView::TableMakeViewResp {
                view_id: view_id@,
            },
            ClientResp::TableSizeResp { size } => ClientRespView::TableSizeResp { size: *size },
            ClientResp::TableValidateExprResp { expression_schema, errors, expression_alias } =>
                ClientRespView::TableValidateExprResp {
                expression_schema: deep(expression_schema@),
                errors: deep(errors@),
                expression_alias: deep(expression_alias@),
            },
            ClientResp::ViewSchemaResp { schema } => ClientRespView::ViewSchemaResp {
                schema: deep(schema@),
            },
            ClientResp::ViewDimensionsResp {
                num_table_rows,
                num_table_columns,
                num_view_rows,
                num_view_columns,
            } => ClientRespView::ViewDimensionsResp {
                num_table_rows: *num_table_rows,
                num_table_columns: *num_table_columns,
                num_view_rows: *num_view_rows,
                num_view_columns: *num_view_columns,
            },
            ClientResp::ViewGetConfigResp { config } => ClientRespView::ViewGetConfigResp {
                config: config.deep_view(),
            },
            ClientResp::ViewExpressionSchemaResp { schema } =>
                ClientRespView::ViewExpressionSchemaResp { schema: deep(schema@) },
            ClientResp::ViewColumnPathsResp { paths } => ClientRespView::ViewColumnPathsResp {
                paths: deep(paths@),
            },
            ClientResp::ViewToRowsStringResp { json_string } =>
                ClientRespView::ViewToRowsStringResp { json_string: json_string@ },
            ClientResp::ViewToColumnsStringResp { json_string } =>
                ClientRespView::ViewToColumnsStringResp { json_string: json_string@ },
            ClientResp::ViewDeleteResp => ClientRespView::ViewDeleteResp,
            ClientResp::MakeTableResp => ClientRespView::MakeTableResp,
            ClientResp::TableOnDeleteResp => ClientRespView::TableOnDeleteResp,
            ClientResp::ViewOnUpdateResp { delta, port_id } => ClientRespView::ViewOnUpdateResp {
                delta: match delta {
                    Some(bytes) => Some(bytes@),
                    None => None,
                },
                port_id: *port_id,
            },
            ClientResp::ViewOnDeleteResp => ClientRespView::ViewOnDeleteResp,
            ClientResp::ViewRemoveOnUpdateResp => ClientRespView::ViewRemoveOnUpdateResp,
            ClientResp::TableRemoveDeleteResp => ClientRespView::TableRemoveDeleteResp,
            ClientResp::ViewRemoveDeleteResp => ClientRespView::ViewRemoveDeleteResp,
            ClientResp::ServerError { message, status_code } => ClientRespView::ServerError {
                message: message@,
                status_code: *status_code,
            },
        }
    }
}

/// A response: what it holds, and the request's number and entity.
#[derive(Debug)]
pub struct Response {
    pub msg_id: u32,
    pub entity_id: String,
    pub client_resp: ClientResp,
}

pub struct ResponseView {
    pub msg_id: u32,
    pub entity_id: Seq<char>,
    pub client_resp: ClientRespView,
}

impl DeepView for Response {
    type V = ResponseView;

    open spec fn deep_view(&self) -> ResponseView {
        ResponseView {
            msg_id: self.msg_id,
            entity_id: self.entity_id@,
            client_resp: self.client_resp.deep_view(),
        }
    }
}

} // verus!
