use virtual_server::data::VirtualDataSlice;
use virtual_server::features::Features;
use virtual_server::handler::{HandlerCall, HandlerReply};
use virtual_server::ordered_map::OrderedMap;
use virtual_server::proto::{
    ClientReq, ClientResp, ColumnType, ExprValidationError, HostedTable, Request, Response,
    TableMakePortReq, ViewPort,
};
use virtual_server::server::{Step, VirtualServer};
use virtual_server::view_config::ViewConfig;

fn request(msg_id: u32, entity_id: &str, req: ClientReq) -> Request {
    Request {
        msg_id,
        entity_id: entity_id.to_string(),
        client_req: Some(req),
    }
}

fn schema_of(names: &[(&str, ColumnType)]) -> OrderedMap<ColumnType> {
    let mut schema = OrderedMap::new();
    for (name, column_type) in names {
        schema.insert(name.to_string(), *column_type);
    }
    schema
}

fn failed(text: &str) -> HandlerReply {
    HandlerReply::Failed {
        message: text.to_string(),
        detail: format!("Debug({})", text),
    }
}

/// A handler that answers every call in the plainest way and notes the call.
fn plain_handler(log: &mut Vec<String>, call: HandlerCall) -> HandlerReply {
    match call {
        HandlerCall::GetFeatures => {
            log.push("get_features".to_string());
            HandlerReply::Features(Features::default())
        },
        HandlerCall::GetHostedTables => {
            log.push("get_hosted_tables".to_string());
            HandlerReply::HostedTables(vec![HostedTable {
                entity_id: "t".to_string(),
                index: None,
                limit: Some(10),
            }])
        },
        HandlerCall::TableSchema { table_id } => {
            log.push(format!("table_schema({})", table_id));
            HandlerReply::Schema(schema_of(&[
                ("a", ColumnType::String),
                ("b", ColumnType::Float),
            ]))
        },
        HandlerCall::TableSize { table_id } => {
            log.push(format!("table_size({})", table_id));
            HandlerReply::Size(100)
        },
        HandlerCall::TableColumnSize { table_id } => {
            log.push(format!("table_column_size({})", table_id));
            HandlerReply::Size(2)
        },
        HandlerCall::TableMakePort { .. } => {
            log.push("table_make_port".to_string());
            HandlerReply::Size(4)
        },
        HandlerCall::TableMakeView {
            table_id,
            view_id,
            mut config,
        } => {
            log.push(format!("table_make_view({}, {})", table_id, view_id));
            config.columns.push(Some("added".to_string()));
            HandlerReply::ViewMade { view_id, config }
        },
        HandlerCall::TableValidateExpression {
            table_id,
            expression,
        } => {
            log.push(format!("validate({}, {})", table_id, expression));
            if expression.contains("bad") {
                failed("no such column")
            } else {
                HandlerReply::ExpressionType(ColumnType::Integer)
            }
        },
        HandlerCall::ViewSchema { view_id, config } => {
            log.push(format!(
                "view_schema({}, {} columns)",
                view_id,
                config.columns.len()
            ));
            HandlerReply::Schema(schema_of(&[
                ("__ROW_PATH_0__", ColumnType::String),
                ("x_price", ColumnType::Float),
                ("y_price", ColumnType::Integer),
                ("plain", ColumnType::Boolean),
            ]))
        },
        HandlerCall::ViewSize { view_id } => {
            log.push(format!("view_size({})", view_id));
            HandlerReply::Size(50)
        },
        HandlerCall::ViewColumnSize { view_id, .. } => {
            log.push(format!("view_column_size({})", view_id));
            HandlerReply::Size(3)
        },
        HandlerCall::ViewDelete { view_id } => {
            log.push(format!("view_delete({})", view_id));
            HandlerReply::Done
        },
        HandlerCall::ViewGetData {
            view_id,
            schema,
            viewport,
            ..
        } => {
            log.push(format!(
                "view_get_data({}, {} columns, {:?})",
                view_id,
                schema.len(),
                viewport.end_row
            ));
            let mut slice = VirtualDataSlice::default();
            slice.set_col("n", None, 0, Some(1i32)).unwrap();
            slice.set_col("n", None, 1, Some(2i32)).unwrap();
            HandlerReply::Data(slice)
        },
        HandlerCall::MakeTable { table_id, data } => {
            log.push(format!("make_table({}, {} bytes)", table_id, data.len()));
            HandlerReply::Done
        },
        HandlerCall::RowsToJson { rows } => {
            log.push(format!("rows_to_json({})", rows.len()));
            HandlerReply::Json(format!("[{} rows]", rows.len()))
        },
        HandlerCall::ColumnsToJson { columns } => {
            log.push(format!("columns_to_json({})", columns.columns().len()));
            HandlerReply::Json("{columns}".to_string())
        },
    }
}

fn drive_with(
    server: &mut VirtualServer,
    msg: Request,
    log: &mut Vec<String>,
    handler: &mut dyn FnMut(&mut Vec<String>, HandlerCall) -> HandlerReply,
) -> Response {
    let mut step = server.handle_request(msg);
    loop {
        match step {
            Step::Done(response) => return response,
            Step::Call(call, next) => {
                let reply = handler(log, call);
                step = server.resume(next, reply);
            },
        }
    }
}

fn drive(server: &mut VirtualServer, msg: Request, log: &mut Vec<String>) -> Response {
    drive_with(server, msg, log, &mut plain_handler)
}

fn make_view(server: &mut VirtualServer, table: &str, view: &str, log: &mut Vec<String>) {
    let response = drive(
        server,
        request(
            1,
            table,
            ClientReq::TableMakeViewReq {
                view_id: view.to_string(),
                config: None,
            },
        ),
        log,
    );
    match response.client_resp {
        ClientResp::TableMakeViewResp { view_id } => assert_eq!(view_id, view),
        other => panic!("unexpected {:?}", other),
    }
}

fn error_message(response: &Response) -> &str {
    match &response.client_resp {
        ClientResp::ServerError {
            message,
            status_code,
        } => {
            assert_eq!(*status_code, 1);
            message
        },
        other => panic!("expected an error, got {:?}", other),
    }
}

fn view_requests() -> Vec<ClientReq> {
    vec![
        ClientReq::ViewSchemaReq,
        ClientReq::ViewDimensionsReq,
        ClientReq::ViewGetConfigReq,
        ClientReq::ViewExpressionSchemaReq,
        ClientReq::ViewColumnPathsReq,
        ClientReq::ViewToRowsStringReq { viewport: None },
        ClientReq::ViewToColumnsStringReq { viewport: None },
    ]
}

#[test]
fn session_lifecycle() {
    let mut server = VirtualServer::new();
    let mut log = Vec::new();
    for req in view_requests() {
        let response = drive(&mut server, request(7, "v1", req), &mut log);
        assert_eq!(error_message(&response), "View not found 'v1'");
        assert_eq!(response.msg_id, 7);
        assert_eq!(response.entity_id, "v1");
    }
    assert!(log.is_empty());

    make_view(&mut server, "t", "v1", &mut log);
    assert_eq!(log, vec!["table_make_view(t, v1)"]);
    for req in view_requests() {
        let response = drive(&mut server, request(8, "v1", req), &mut log);
        match response.client_resp {
            ClientResp::ServerError { message, .. } => panic!("failed with {}", message),
            _ => {},
        }
        assert_eq!(response.msg_id, 8);
        assert_eq!(response.entity_id, "v1");
    }

    log.clear();
    let response = drive(&mut server, request(9, "v1", ClientReq::ViewDeleteReq), &mut log);
    assert!(matches!(response.client_resp, ClientResp::ViewDeleteResp));
    assert_eq!(log, vec!["view_delete(v1)"]);
    log.clear();
    for req in view_requests() {
        let response = drive(&mut server, request(10, "v1", req), &mut log);
        assert_eq!(error_message(&response), "View not found 'v1'");
    }
    assert!(log.is_empty());
}

#[test]
fn engine_keeps_the_config_that_the_handler_left() {
    let mut server = VirtualServer::new();
    let mut log = Vec::new();
    let mut config = ViewConfig::default();
    config.group_by = vec!["g".to_string()];
    let response = drive(
        &mut server,
        request(
            1,
            "t",
            ClientReq::TableMakeViewReq {
                view_id: "v".to_string(),
                config: Some(config),
            },
        ),
        &mut log,
    );
    assert!(matches!(
        response.client_resp,
        ClientResp::TableMakeViewResp { .. }
    ));
    let response = drive(&mut server, request(2, "v", ClientReq::ViewGetConfigReq), &mut log);
    match response.client_resp {
        ClientResp::ViewGetConfigResp { config } => {
            assert_eq!(config.group_by, vec!["g".to_string()]);
            assert_eq!(config.columns, vec![Some("added".to_string())]);
        },
        other => panic!("unexpected {:?}", other),
    }
}

#[test]
fn view_schema_is_asked_once_and_shown_under_public_names() {
    let mut server = VirtualServer::new();
    let mut log = Vec::new();
    make_view(&mut server, "t", "v", &mut log);
    log.clear();
    for _ in 0..3 {
        let response = drive(&mut server, request(3, "v", ClientReq::ViewSchemaReq), &mut log);
        match response.client_resp {
            ClientResp::ViewSchemaResp { schema } => assert_eq!(
                schema,
                vec![
                    ("".to_string(), 0),
                    ("price".to_string(), 3),
                    ("plain".to_string(), 5),
                ]
            ),
            other => panic!("unexpected {:?}", other),
        }
    }
    assert_eq!(log, vec!["view_schema(v, 1 columns)"]);
}

#[test]
fn data_is_fetched_with_the_cached_schema() {
    let mut server = VirtualServer::new();
    let mut log = Vec::new();
    make_view(&mut server, "t", "v", &mut log);
    log.clear();
    let viewport = ViewPort {
        start_row: Some(0),
        end_row: Some(2),
        start_col: None,
        end_col: None,
    };
    let response = drive(
        &mut server,
        request(
            4,
            "v",
            ClientReq::ViewToRowsStringReq {
                viewport: Some(viewport),
            },
        ),
        &mut log,
    );
    match response.client_resp {
        ClientResp::ViewToRowsStringResp { json_string } => assert_eq!(json_string, "[2 rows]"),
        other => panic!("unexpected {:?}", other),
    }
    let response = drive(
        &mut server,
        request(5, "v", ClientReq::ViewToColumnsStringReq { viewport: None }),
        &mut log,
    );
    match response.client_resp {
        ClientResp::ViewToColumnsStringResp { json_string } => {
            assert_eq!(json_string, "{columns}")
        },
        other => panic!("unexpected {:?}", other),
    }
    assert_eq!(
        log,
        vec![
            "view_schema(v, 1 columns)",
            "view_get_data(v, 4 columns, Some(2))",
            "rows_to_json(2)",
            "view_get_data(v, 4 columns, None)",
            "columns_to_json(1)",
        ]
    );
}

#[test]
fn data_that_cannot_be_written_fails_the_request() {
    let mut server = VirtualServer::new();
    let mut log = Vec::new();
    make_view(&mut server, "t", "v", &mut log);
    let mut no_json = |log: &mut Vec<String>, call: HandlerCall| match call {
        HandlerCall::RowsToJson { .. } => HandlerReply::InvalidJson("key must be a string".to_string()),
        HandlerCall::ViewGetData { .. } => {
            let mut slice = VirtualDataSlice::default();
            slice.set_col("a", None, 0, Some(1i32)).unwrap();
            slice.set_col("b", None, 0, Some(1i32)).unwrap();
            HandlerReply::Data(slice)
        },
        other => plain_handler(log, other),
    };
    let response = drive_with(
        &mut server,
        request(1, "v", ClientReq::ViewToRowsStringReq { viewport: None }),
        &mut log,
        &mut no_json,
    );
    assert_eq!(
        error_message(&response),
        "Invalid JSON'key must be a string'"
    );

    let mut ragged = |log: &mut Vec<String>, call: HandlerCall| match call {
        HandlerCall::ViewGetData { .. } => {
            let mut slice = VirtualDataSlice::default();
            slice.set_col("a", None, 0, Some(1i32)).unwrap();
            slice.set_col("b", None, 0, Some(1i32)).unwrap();
            slice.set_col("b", None, 1, Some(1i32)).unwrap();
            HandlerReply::Data(slice)
        },
        other => plain_handler(log, other),
    };
    let response = drive_with(
        &mut server,
        request(2, "v", ClientReq::ViewToRowsStringReq { viewport: None }),
        &mut log,
        &mut ragged,
    );
    assert_eq!(error_message(&response), "Columns differ in length");
}

#[test]
fn dimensions_take_four_answers() {
    let mut server = VirtualServer::new();
    let mut log = Vec::new();
    make_view(&mut server, "t", "v", &mut log);
    log.clear();
    let response = drive(&mut server, request(6, "v", ClientReq::ViewDimensionsReq), &mut log);
    match response.client_resp {
        ClientResp::ViewDimensionsResp {
            num_table_rows,
            num_table_columns,
            num_view_rows,
            num_view_columns,
        } => {
            assert_eq!(
                (num_table_rows, num_table_columns, num_view_rows, num_view_columns),
                (100, 2, 50, 3)
            );
        },
        other => panic!("unexpected {:?}", other),
    }
    assert_eq!(
        log,
        vec![
            "table_size(t)",
            "table_column_size(t)",
            "view_column_size(v)",
            "view_size(v)"
        ]
    );
}

#[test]
fn expression_batch_survives_a_failure() {
    let mut server = VirtualServer::new();
    let mut log = Vec::new();
    let response = drive(
        &mut server,
        request(
            1,
            "t",
            ClientReq::TableValidateExprReq {
                column_to_expr: vec![
                    ("one".to_string(), "a + 1".to_string()),
                    ("two".to_string(), "bad + 1".to_string()),
                    ("three".to_string(), "b".to_string()),
                ],
            },
        ),
        &mut log,
    );
    match response.client_resp {
        ClientResp::TableValidateExprResp {
            expression_schema,
            errors,
            expression_alias,
        } => {
            assert_eq!(
                expression_schema,
                vec![("one".to_string(), 3), ("three".to_string(), 3)]
            );
            assert_eq!(
                errors,
                vec![(
                    "two".to_string(),
                    ExprValidationError {
                        error_message: "no such column".to_string(),
                        line: 0,
                        column: 0
                    }
                )]
            );
            assert_eq!(
                expression_alias,
                vec![
                    ("one".to_string(), "a + 1".to_string()),
                    ("two".to_string(), "bad + 1".to_string()),
                    ("three".to_string(), "b".to_string()),
                ]
            );
        },
        other => panic!("unexpected {:?}", other),
    }
    assert_eq!(
        log,
        vec!["validate(t, a + 1)", "validate(t, bad + 1)", "validate(t, b)"]
    );

    let response = drive(
        &mut server,
        request(
            2,
            "t",
            ClientReq::TableValidateExprReq {
                column_to_expr: vec![],
            },
        ),
        &mut log,
    );
    assert!(matches!(
        response.client_resp,
        ClientResp::TableValidateExprResp { .. }
    ));
    assert_eq!(log.len(), 3);
}

#[test]
fn expression_schema_asks_the_table_of_the_view() {
    let mut server = VirtualServer::new();
    let mut log = Vec::new();
    let mut config = ViewConfig::default();
    config
        .expressions
        .insert("e1".to_string(), "a * 2".to_string());
    config
        .expressions
        .insert("e2".to_string(), "bad".to_string());
    let mut keep = |log: &mut Vec<String>, call: HandlerCall| match call {
        HandlerCall::TableMakeView {
            view_id, config, ..
        } => HandlerReply::ViewMade { view_id, config },
        other => plain_handler(log, other),
    };
    drive_with(
        &mut server,
        request(
            1,
            "t",
            ClientReq::TableMakeViewReq {
                view_id: "v".to_string(),
                config: Some(config),
            },
        ),
        &mut log,
        &mut keep,
    );
    let response = drive(
        &mut server,
        request(2, "v", ClientReq::ViewExpressionSchemaReq),
        &mut log,
    );
    match response.client_resp {
        ClientResp::ViewExpressionSchemaResp { schema } => {
            assert_eq!(schema, vec![("e1".to_string(), 3)])
        },
        other => panic!("unexpected {:?}", other),
    }
    assert_eq!(log, vec!["validate(t, a * 2)", "validate(t, bad)"]);
}

#[test]
fn failure_of_the_handler_is_told_and_isolated() {
    let mut server = VirtualServer::new();
    let mut log = Vec::new();
    make_view(&mut server, "t", "good", &mut log);
    let mut failing = |_: &mut Vec<String>, _: HandlerCall| failed("boom");
    let response = drive_with(
        &mut server,
        request(
            2,
            "t",
            ClientReq::TableMakeViewReq {
                view_id: "broken".to_string(),
                config: None,
            },
        ),
        &mut log,
        &mut failing,
    );
    assert_eq!(error_message(&response), "External Error: Debug(boom)");
    let response = drive_with(
        &mut server,
        request(3, "good", ClientReq::ViewSchemaReq),
        &mut log,
        &mut failing,
    );
    assert_eq!(error_message(&response), "External Error: Debug(boom)");
    let response = drive_with(
        &mut server,
        request(4, "good", ClientReq::ViewDeleteReq),
        &mut log,
        &mut failing,
    );
    assert_eq!(error_message(&response), "External Error: Debug(boom)");

    for req in view_requests() {
        let response = drive(&mut server, request(5, "good", req), &mut log);
        match response.client_resp {
            ClientResp::ServerError { message, .. } => panic!("failed with {}", message),
            _ => {},
        }
    }
    let response = drive(&mut server, request(6, "broken", ClientReq::ViewGetConfigReq), &mut log);
    assert_eq!(error_message(&response), "View not found 'broken'");
}

#[test]
fn table_requests_pass_the_answers_on() {
    let mut server = VirtualServer::new();
    let mut log = Vec::new();
    let response = drive(&mut server, request(1, "t", ClientReq::TableSchemaReq), &mut log);
    match response.client_resp {
        ClientResp::TableSchemaResp { schema } => {
            assert_eq!(schema, vec![("a".to_string(), 0), ("b".to_string(), 4)])
        },
        other => panic!("unexpected {:?}", other),
    }
    let response = drive(&mut server, request(2, "t", ClientReq::TableSizeReq), &mut log);
    assert!(matches!(
        response.client_resp,
        ClientResp::TableSizeResp { size: 100 }
    ));
    let response = drive(
        &mut server,
        request(3, "t", ClientReq::TableMakePortReq(TableMakePortReq {})),
        &mut log,
    );
    assert!(matches!(
        response.client_resp,
        ClientResp::TableMakePortResp { port_id: 4 }
    ));
    let response = drive(&mut server, request(4, "", ClientReq::GetHostedTablesReq), &mut log);
    match response.client_resp {
        ClientResp::GetHostedTablesResp { table_infos } => {
            assert_eq!(table_infos.len(), 1);
            assert_eq!(table_infos[0].entity_id, "t");
        },
        other => panic!("unexpected {:?}", other),
    }
    let response = drive(&mut server, request(5, "", ClientReq::GetFeaturesReq), &mut log);
    match response.client_resp {
        ClientResp::GetFeaturesResp(features) => {
            assert!(!features.group_by && !features.sort);
            assert!(features.aggregates.is_empty() && features.filter_ops.is_empty());
        },
        other => panic!("unexpected {:?}", other),
    }
    let response = drive(&mut server, request(6, "v", ClientReq::ViewColumnPathsReq), &mut log);
    assert_eq!(error_message(&response), "View not found 'v'");
    make_view(&mut server, "t", "v", &mut log);
    let response = drive(&mut server, request(7, "v", ClientReq::ViewColumnPathsReq), &mut log);
    match response.client_resp {
        ClientResp::ViewColumnPathsResp { paths } => {
            assert_eq!(paths, vec!["__ROW_PATH_0__", "x_price", "y_price", "plain"])
        },
        other => panic!("unexpected {:?}", other),
    }
    let response = drive(
        &mut server,
        request(
            8,
            "new",
            ClientReq::MakeTableReq {
                data: Some(vec![1, 2, 3]),
            },
        ),
        &mut log,
    );
    assert!(matches!(response.client_resp, ClientResp::MakeTableResp));
    assert_eq!(log.last().unwrap(), "make_table(new, 3 bytes)");
    let response = drive(
        &mut server,
        request(9, "new", ClientReq::MakeTableReq { data: None }),
        &mut log,
    );
    assert_eq!(error_message(&response), "Missing table data");
}

#[test]
fn requests_without_support_get_stub_responses() {
    let mut server = VirtualServer::new();
    let mut log = Vec::new();
    let stubs = vec![
        ClientReq::TableOnDeleteReq,
        ClientReq::ViewOnUpdateReq,
        ClientReq::ViewOnDeleteReq,
        ClientReq::ViewRemoveOnUpdateReq,
        ClientReq::TableRemoveDeleteReq,
        ClientReq::ViewRemoveDeleteReq,
    ];
    let mut kinds = Vec::new();
    for req in stubs {
        let response = drive(&mut server, request(11, "anything", req), &mut log);
        assert_eq!(response.msg_id, 11);
        assert_eq!(response.entity_id, "anything");
        kinds.push(match response.client_resp {
            ClientResp::TableOnDeleteResp => 0,
            ClientResp::ViewOnUpdateResp {
                delta: None,
                port_id: 0,
            } => 1,
            ClientResp::ViewOnDeleteResp => 2,
            ClientResp::ViewRemoveOnUpdateResp => 3,
            ClientResp::TableRemoveDeleteResp => 4,
            ClientResp::ViewRemoveDeleteResp => 5,
            other => panic!("unexpected {:?}", other),
        });
    }
    assert_eq!(kinds, vec![0, 1, 2, 3, 4, 5]);
    assert!(log.is_empty());
}

#[test]
fn other_requests_are_unhandled() {
    let mut server = VirtualServer::new();
    let mut log = Vec::new();
    let response = drive(
        &mut server,
        request(1, "t", ClientReq::Other("ViewToArrowReq".to_string())),
        &mut log,
    );
    assert_eq!(
        error_message(&response),
        "Unhandled request: ViewToArrowReq"
    );
    let response = drive(
        &mut server,
        Request {
            msg_id: 2,
            entity_id: "t".to_string(),
            client_req: None,
        },
        &mut log,
    );
    assert_eq!(error_message(&response), "Unhandled request: None");
}

#[test]
fn answer_of_the_wrong_kind_fails_the_request() {
    let mut server = VirtualServer::new();
    let mut log = Vec::new();
    let mut confused = |_: &mut Vec<String>, _: HandlerCall| HandlerReply::Done;
    let response = drive_with(
        &mut server,
        request(1, "t", ClientReq::TableSizeReq),
        &mut log,
        &mut confused,
    );
    assert_eq!(error_message(&response), "Unexpected reply from handler");
}

#[test]
fn view_whose_making_failed_is_not_made() {
    let mut server = VirtualServer::new();
    let mut log = Vec::new();
    let mut failing = |_: &mut Vec<String>, _: HandlerCall| failed("boom");
    let response = drive_with(
        &mut server,
        request(
            1,
            "t",
            ClientReq::TableMakeViewReq {
                view_id: "v2".to_string(),
                config: None,
            },
        ),
        &mut log,
        &mut failing,
    );
    assert_eq!(error_message(&response), "External Error: Debug(boom)");
    for req in view_requests() {
        let response = drive(&mut server, request(2, "v2", req), &mut log);
        assert_eq!(error_message(&response), "View not found 'v2'");
    }
    assert!(log.is_empty());
}

#[test]
fn failed_remaking_leaves_the_view_with_its_table() {
    let mut server = VirtualServer::new();
    let mut log = Vec::new();
    make_view(&mut server, "t", "v", &mut log);
    let mut failing = |_: &mut Vec<String>, _: HandlerCall| failed("boom");
    let response = drive_with(
        &mut server,
        request(
            2,
            "other",
            ClientReq::TableMakeViewReq {
                view_id: "v".to_string(),
                config: None,
            },
        ),
        &mut log,
        &mut failing,
    );
    assert_eq!(error_message(&response), "External Error: Debug(boom)");
    log.clear();
    let response = drive(&mut server, request(3, "v", ClientReq::ViewDimensionsReq), &mut log);
    assert!(matches!(
        response.client_resp,
        ClientResp::ViewDimensionsResp { .. }
    ));
    assert_eq!(log[0], "table_size(t)");
    assert_eq!(log[1], "table_column_size(t)");

    make_view(&mut server, "other", "v", &mut log);
    log.clear();
    drive(&mut server, request(4, "v", ClientReq::ViewDimensionsReq), &mut log);
    assert_eq!(log[0], "table_size(other)");
}

