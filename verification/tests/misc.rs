use virtual_server::column_locator::{ColumnLocator, ColumnSettingsTab, OpenColumnSettings};
use virtual_server::error::{ResultExt, VirtualServerError};
use virtual_server::features::{
    AggSpec, AggregateArgs, AggregateOptions, ColumnTypeAggregates, ColumnTypeOptions, Features,
    FilterOptions,
};
use virtual_server::handler::{fallback, schema_length, Fallback, HandlerCall};
use virtual_server::ordered_map::OrderedMap;
use virtual_server::proto::{ColumnType, TableMakePortReq};
use virtual_server::view_config::ViewConfig;

#[test]
fn locator_names_table_columns_and_saved_expressions() {
    let table = ColumnLocator::Table("a".to_string());
    let saved = ColumnLocator::Expression("e".to_string());
    let new = ColumnLocator::NewExpression;
    assert_eq!(table.name(), Some(&"a".to_string()));
    assert_eq!(saved.name(), Some(&"e".to_string()));
    assert_eq!(new.name(), None);
    assert_eq!(
        (table.is_expr(), table.is_saved_expr(), table.is_new_expr()),
        (false, false, false)
    );
    assert_eq!(
        (saved.is_expr(), saved.is_saved_expr(), saved.is_new_expr()),
        (true, true, false)
    );
    assert_eq!(
        (new.is_expr(), new.is_saved_expr(), new.is_new_expr()),
        (true, false, true)
    );
}

#[test]
fn open_settings_name_their_column() {
    assert_eq!(OpenColumnSettings::default().name(), None);
    let open = OpenColumnSettings {
        locator: Some(ColumnLocator::Expression("e".to_string())),
        tab: Some(ColumnSettingsTab::Style),
    };
    assert_eq!(open.name(), Some("e".to_string()));
    let new = OpenColumnSettings {
        locator: Some(ColumnLocator::NewExpression),
        tab: None,
    };
    assert_eq!(new.name(), None);
    assert_eq!(ColumnSettingsTab::default(), ColumnSettingsTab::Attributes);
    assert_eq!(ColumnSettingsTab::Attributes.to_string(), "Attributes");
    assert_eq!(ColumnSettingsTab::Style.to_string(), "Style");
}

#[test]
fn internal_errors_are_told_from_the_others() {
    let ok: Result<u8, VirtualServerError<i32>> = Ok(3);
    assert_eq!(ok.get_internal_error(), Ok(3));
    let internal: Result<u8, VirtualServerError<i32>> = Err(VirtualServerError::InternalError(7));
    assert_eq!(internal.get_internal_error(), Err(Ok(7)));
    let cases: Vec<(VirtualServerError<i32>, &str)> = vec![
        (VirtualServerError::DecodeError("d".to_string()), "d"),
        (VirtualServerError::EncodeError("e".to_string()), "e"),
        (
            VirtualServerError::UnknownViewId("v".to_string()),
            "View not found 'v'",
        ),
        (
            VirtualServerError::InvalidJSON("j".to_string()),
            "Invalid JSON'j'",
        ),
        (VirtualServerError::Other("o".to_string()), "o"),
    ];
    for (error, text) in cases {
        let result: Result<u8, VirtualServerError<i32>> = Err(error);
        assert_eq!(result.get_internal_error(), Err(Err(text.to_string())));
    }
    assert_eq!(
        VirtualServerError::InternalError("Boom { code: 1 }".to_string()).to_string(),
        "External Error: Boom { code: 1 }"
    );
    assert_eq!(
        VirtualServerError::<String>::UnknownViewId("v".to_string()).to_string(),
        "View not found 'v'"
    );
}

#[test]
fn features_go_to_the_wire_by_type_codes() {
    let mut features = Features::default();
    features.group_by = true;
    features.sort = true;
    features.on_update = true;
    features.set_filter_ops(
        ColumnType::Boolean,
        vec!["==".to_string(), "!=".to_string()],
    );
    features.set_aggregates(
        ColumnType::Float,
        vec![
            AggSpec::Single("sum".to_string()),
            AggSpec::Multiple(
                "weighted_mean".to_string(),
                vec![ColumnType::Integer, ColumnType::Datetime],
            ),
        ],
    );
    features.set_aggregates(ColumnType::String, vec![]);
    let wire = features.to_wire();
    assert!(wire.group_by && !wire.split_by && wire.sort && !wire.expressions && wire.on_update);
    assert_eq!(
        wire.filter_ops,
        vec![ColumnTypeOptions {
            column_type: 5,
            options: vec!["==".to_string(), "!=".to_string()],
        }]
    );
    assert_eq!(
        wire.aggregates,
        vec![
            ColumnTypeAggregates {
                column_type: 4,
                aggregates: vec![
                    AggregateArgs {
                        name: "sum".to_string(),
                        args: vec![],
                    },
                    AggregateArgs {
                        name: "weighted_mean".to_string(),
                        args: vec![3, 2],
                    },
                ],
            },
            ColumnTypeAggregates {
                column_type: 0,
                aggregates: vec![],
            },
        ]
    );
    let none = Features::default().to_wire();
    assert!(!none.group_by && none.aggregates.is_empty() && none.filter_ops.is_empty());
}

#[test]
fn features_hold_each_column_type_once() {
    let mut features = Features::default();
    features.set_filter_ops(ColumnType::Float, vec![">".to_string()]);
    features.set_filter_ops(ColumnType::String, vec!["contains".to_string()]);
    features.set_filter_ops(ColumnType::Float, vec!["<".to_string(), "==".to_string()]);
    features.set_aggregates(ColumnType::Date, vec![AggSpec::Single("min".to_string())]);
    features.set_aggregates(ColumnType::Date, vec![AggSpec::Single("max".to_string())]);
    assert_eq!(
        *features.filter_ops(),
        vec![
            FilterOptions {
                column_type: ColumnType::Float,
                options: vec!["<".to_string(), "==".to_string()],
            },
            FilterOptions {
                column_type: ColumnType::String,
                options: vec!["contains".to_string()],
            },
        ]
    );
    assert_eq!(
        *features.aggregates(),
        vec![AggregateOptions {
            column_type: ColumnType::Date,
            aggregates: vec![AggSpec::Single("max".to_string())],
        }]
    );
    let wire = features.to_wire();
    let codes: Vec<u32> = wire.filter_ops.iter().map(|e| e.column_type).collect();
    assert_eq!(codes, vec![4, 0]);
    assert_eq!(wire.aggregates.len(), 1);
}

#[test]
fn column_types_have_codes_and_names() {
    let all = [
        (ColumnType::String, 0, "string"),
        (ColumnType::Date, 1, "date"),
        (ColumnType::Datetime, 2, "datetime"),
        (ColumnType::Integer, 3, "integer"),
        (ColumnType::Float, 4, "float"),
        (ColumnType::Boolean, 5, "boolean"),
    ];
    for (column_type, code, name) in all {
        assert_eq!(column_type.code(), code);
        assert_eq!(ColumnType::from_name(name), Some(column_type));
    }
    assert_eq!(ColumnType::from_name("String"), None);
    assert_eq!(ColumnType::from_name(""), None);
}

#[test]
fn optional_operations_have_stand_ins() {
    let config = ViewConfig::default();
    match fallback(HandlerCall::TableColumnSize {
        table_id: "t".to_string(),
    }) {
        Fallback::AskLength(HandlerCall::TableSchema { table_id }) => assert_eq!(table_id, "t"),
        other => panic!("unexpected {:?}", other),
    }
    match fallback(HandlerCall::ViewSize {
        view_id: "v".to_string(),
    }) {
        Fallback::Ask(HandlerCall::TableSize { table_id }) => assert_eq!(table_id, "v"),
        other => panic!("unexpected {:?}", other),
    }
    match fallback(HandlerCall::ViewColumnSize {
        view_id: "v".to_string(),
        config: ViewConfig::default(),
    }) {
        Fallback::AskLength(HandlerCall::ViewSchema { view_id, .. }) => assert_eq!(view_id, "v"),
        other => panic!("unexpected {:?}", other),
    }
    match fallback(HandlerCall::ViewSchema {
        view_id: "v".to_string(),
        config,
    }) {
        Fallback::Ask(HandlerCall::TableSchema { table_id }) => assert_eq!(table_id, "v"),
        other => panic!("unexpected {:?}", other),
    }
    assert!(matches!(
        fallback(HandlerCall::TableValidateExpression {
            table_id: "t".to_string(),
            expression: "x".to_string()
        }),
        Fallback::AnswerType(ColumnType::Float)
    ));
    assert!(matches!(
        fallback(HandlerCall::GetFeatures),
        Fallback::AnswerNoFeatures
    ));
    assert!(matches!(
        fallback(HandlerCall::TableMakePort {
            req: TableMakePortReq {}
        }),
        Fallback::AnswerPort(0)
    ));
    assert!(matches!(
        fallback(HandlerCall::MakeTable {
            table_id: "t".to_string(),
            data: vec![]
        }),
        Fallback::Unimplemented
    ));
    for required in [
        HandlerCall::GetHostedTables,
        HandlerCall::TableSchema {
            table_id: "t".to_string(),
        },
        HandlerCall::TableSize {
            table_id: "t".to_string(),
        },
        HandlerCall::ViewDelete {
            view_id: "v".to_string(),
        },
    ] {
        assert!(matches!(fallback(required), Fallback::Required));
    }
}

#[test]
fn schema_length_counts_the_columns() {
    let mut schema = OrderedMap::new();
    assert_eq!(schema_length(&schema), 0);
    schema.insert("a".to_string(), ColumnType::String);
    schema.insert("b".to_string(), ColumnType::String);
    schema.insert("a".to_string(), ColumnType::Float);
    assert_eq!(schema_length(&schema), 2);
}
