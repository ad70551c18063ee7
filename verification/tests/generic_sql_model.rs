use virtual_server::filters::{Filter, FilterOp, FilterTerm, Scalar};
use virtual_server::generic_sql_model::{
    parse_schema, GenericSQLError, GenericSQLVirtualServerModel, GenericSQLVirtualServerModelArgs,
};
use virtual_server::number::Float;
use virtual_server::ordered_map::OrderedMap;
use virtual_server::proto::{ColumnType, ViewPort};
use virtual_server::view_config::{Aggregate, Sort, SortDir, ViewConfig};

#[test]
fn test_get_hosted_tables() {
    let builder = GenericSQLVirtualServerModel::new(GenericSQLVirtualServerModelArgs::default());
    assert_eq!(builder.get_hosted_tables().unwrap(), "SHOW ALL TABLES");
}

#[test]
fn test_table_schema() {
    let builder = GenericSQLVirtualServerModel::new(GenericSQLVirtualServerModelArgs::default());
    assert_eq!(
        builder.table_schema("my_table").unwrap(),
        "DESCRIBE my_table"
    );
}

#[test]
fn test_table_size() {
    let builder = GenericSQLVirtualServerModel::new(GenericSQLVirtualServerModelArgs::default());
    assert_eq!(
        builder.table_size("my_table").unwrap(),
        "SELECT COUNT(*) FROM my_table"
    );
}

#[test]
fn test_view_delete() {
    let builder = GenericSQLVirtualServerModel::new(GenericSQLVirtualServerModelArgs::default());
    assert_eq!(
        builder.view_delete("my_view").unwrap(),
        "DROP TABLE IF EXISTS my_view"
    );
}

#[test]
fn test_table_make_view_simple() {
    let builder = GenericSQLVirtualServerModel::new(GenericSQLVirtualServerModelArgs::default());
    let mut config = ViewConfig::default();
    config.columns = vec![Some("col1".to_string()), Some("col2".to_string())];
    let sql = builder
        .table_make_view("source_table", "dest_view", &config)
        .unwrap();

    assert!(sql.starts_with("CREATE TABLE dest_view AS"));
    assert!(sql.contains("\"col1\""));
    assert!(sql.contains("\"col2\""));
    assert_eq!(
        sql,
        "CREATE TABLE dest_view AS (SELECT \"col1\" as \"col1\", \"col2\" as \"col2\" FROM source_table)"
    );
}

#[test]
fn test_table_make_view_with_group_by() {
    let builder = GenericSQLVirtualServerModel::new(GenericSQLVirtualServerModelArgs::default());
    let mut config = ViewConfig::default();
    config.columns = vec![Some("value".to_string())];
    config.group_by = vec!["category".to_string()];
    let sql = builder
        .table_make_view("source_table", "dest_view", &config)
        .unwrap();

    assert!(sql.contains("GROUP BY ROLLUP"));
    assert!(sql.contains("__ROW_PATH_0__"));
    assert!(sql.contains("__GROUPING_ID__"));
    assert_eq!(
        sql,
        "CREATE TABLE dest_view AS (SELECT any_value(\"value\") as \"value\", \"category\" as __ROW_PATH_0__, GROUPING_ID(\"category\") AS __GROUPING_ID__ FROM source_table GROUP BY ROLLUP(\"category\") ORDER BY GROUPING_ID(\"category\") DESC, __ROW_PATH_0__ ASC)"
    );
}

#[test]
fn test_view_get_data() {
    let builder = GenericSQLVirtualServerModel::new(GenericSQLVirtualServerModelArgs::default());
    let config = ViewConfig::default();
    let viewport = ViewPort {
        start_row: Some(0),
        end_row: Some(100),
        start_col: Some(0),
        end_col: Some(5),
    };

    let mut schema = OrderedMap::new();
    schema.insert("col1".to_string(), ColumnType::String);
    schema.insert("col2".to_string(), ColumnType::Integer);
    let sql = builder
        .view_get_data("my_view", &config, &viewport, &schema)
        .unwrap();

    assert!(sql.contains("SELECT"));
    assert!(sql.contains("FROM my_view"));
    assert!(sql.contains("LIMIT 100 OFFSET 0"));
    assert_eq!(
        sql,
        "SELECT \"col1\", \"col2\" FROM my_view LIMIT 100 OFFSET 0"
    );
}

fn default_builder() -> GenericSQLVirtualServerModel {
    GenericSQLVirtualServerModel::new(GenericSQLVirtualServerModelArgs::default())
}

#[test]
fn simple_statements_are_exact() {
    let builder = default_builder();
    assert_eq!(builder.table_schema("t").unwrap(), "DESCRIBE t");
    assert_eq!(builder.view_delete("v").unwrap(), "DROP TABLE IF EXISTS v");
    assert_eq!(builder.view_schema("v").unwrap(), "DESCRIBE v");
    assert_eq!(builder.view_size("v").unwrap(), "SELECT COUNT(*) FROM v");
    assert_eq!(
        builder.view_column_size("v").unwrap(),
        "SELECT COUNT(*) FROM (DESCRIBE v)"
    );
    assert_eq!(
        builder.table_validate_expression("t", "a + b").unwrap(),
        "DESCRIBE (SELECT a + b FROM t)"
    );
}

#[test]
fn builder_is_deterministic() {
    let builder = default_builder();
    let mut config = ViewConfig::default();
    config.columns = vec![Some("value".to_string()), None, Some("other".to_string())];
    config.group_by = vec!["a".to_string(), "b".to_string()];
    config.sort = vec![Sort("value".to_string(), SortDir::Desc)];
    let first = builder.table_make_view("t", "v", &config).unwrap();
    let second = builder.table_make_view("t", "v", &config).unwrap();
    assert_eq!(first, second);
    let viewport = ViewPort {
        start_row: Some(3),
        end_row: Some(10),
        start_col: None,
        end_col: None,
    };
    let mut schema = OrderedMap::new();
    schema.insert("value".to_string(), ColumnType::Float);
    let first = builder
        .view_get_data("v", &config, &viewport, &schema)
        .unwrap();
    let second = builder
        .view_get_data("v", &config, &viewport, &schema)
        .unwrap();
    assert_eq!(first, second);
}

#[test]
fn string_literal_doubles_single_quotes() {
    let builder = default_builder();
    let mut config = ViewConfig::default();
    config.columns = vec![Some("name".to_string())];
    config.filter = vec![Filter::new(
        "name".to_string(),
        FilterOp::Eq,
        FilterTerm::Scalar(Scalar::String("O'Brien".to_string())),
    )];
    let sql = builder.table_make_view("t", "v", &config).unwrap();
    assert_eq!(
        sql,
        "CREATE TABLE v AS (SELECT \"name\" as \"name\" FROM t WHERE \"name\" == 'O''Brien')"
    );
    assert_eq!(sql.matches("''").count(), 1);
}

#[test]
fn null_term_drops_the_filter() {
    let builder = default_builder();
    let mut config = ViewConfig::default();
    config.columns = vec![Some("a".to_string())];
    config.filter = vec![
        Filter::new(
            "a".to_string(),
            FilterOp::Eq,
            FilterTerm::Scalar(Scalar::Null),
        ),
        Filter::new(
            "a".to_string(),
            FilterOp::In,
            FilterTerm::Array(vec![Scalar::Null, Scalar::Null]),
        ),
    ];
    let sql = builder.table_make_view("t", "v", &config).unwrap();
    assert_eq!(sql, "CREATE TABLE v AS (SELECT \"a\" as \"a\" FROM t)");
}

#[test]
fn array_term_skips_nulls_and_renders_each_kind() {
    let builder = default_builder();
    let mut config = ViewConfig::default();
    config.columns = vec![Some("a".to_string())];
    config.filter = vec![
        Filter::new(
            "a".to_string(),
            FilterOp::In,
            FilterTerm::Array(vec![
                Scalar::Float(Float::parse("1.5").unwrap()),
                Scalar::Null,
                Scalar::Bool(true),
                Scalar::Bool(false),
                Scalar::String("x".to_string()),
                Scalar::DateTime(-12),
            ]),
        ),
        Filter::new(
            "b".to_string(),
            FilterOp::Ge,
            FilterTerm::Scalar(Scalar::Float(Float::from_i64(3))),
        ),
    ];
    let sql = builder.table_make_view("t", "v", &config).unwrap();
    assert_eq!(
        sql,
        "CREATE TABLE v AS (SELECT \"a\" as \"a\" FROM t WHERE \"a\" in (1.5, TRUE, FALSE, 'x', -12) AND \"b\" >= 3)"
    );
}

#[test]
fn group_by_rollup_shape() {
    let builder = default_builder();
    let mut config = ViewConfig::default();
    config.columns = vec![Some("value".to_string())];
    config.group_by = vec!["category".to_string()];
    let sql = builder.table_make_view("t", "v", &config).unwrap();
    assert!(sql.contains("GROUP BY ROLLUP(\"category\")"));
    assert_eq!(sql.matches(" as __ROW_PATH_0__").count(), 1);
    assert_eq!(sql.matches("AS __GROUPING_ID__").count(), 1);
    assert_eq!(sql.matches("__GROUPING_ID__").count(), 1);

    config.split_by = vec!["s".to_string()];
    let sql = builder.table_make_view("t", "v", &config).unwrap();
    assert_eq!(sql.matches("__GROUPING_ID__").count(), 0);
    assert_eq!(
        sql,
        "CREATE TABLE v AS (SELECT * EXCLUDE (\"category\") , \"category\" AS __ROW_PATH_0__ FROM (PIVOT (SELECT * FROM t) ON \"s\" USING any_value(\"value\") as \"value\" GROUP BY \"category\") ORDER BY __ROW_PATH_0__ ASC)"
    );
}

#[test]
fn two_levels_sort_through_a_window() {
    let builder = default_builder();
    let mut config = ViewConfig::default();
    config.columns = vec![Some("value".to_string())];
    config.group_by = vec!["a".to_string(), "b".to_string()];
    config.sort = vec![
        Sort("value".to_string(), SortDir::Desc),
        Sort("value".to_string(), SortDir::Unsorted),
    ];
    config.aggregates.insert(
        "value".to_string(),
        Aggregate::SingleAggregate("sum".to_string()),
    );
    let sql = builder.table_make_view("t", "v", &config).unwrap();
    assert_eq!(
        sql,
        "CREATE TABLE v AS (SELECT sum(\"value\") as \"value\", \"a\" as __ROW_PATH_0__, \"b\" as __ROW_PATH_1__, GROUPING_ID(\"a\", \"b\") AS __GROUPING_ID__ FROM t GROUP BY ROLLUP(\"a\", \"b\") WINDOW __WINDOW_0__ AS (PARTITION BY GROUPING_ID(\"a\"), __ROW_PATH_0__ ORDER BY \"a\", \"b\") ORDER BY GROUPING_ID(\"a\") DESC, first(sum(\"value\")) OVER __WINDOW_0__ DESC, __ROW_PATH_0__ ASC, GROUPING_ID(\"a\", \"b\") DESC, sum(\"value\") DESC, __ROW_PATH_1__ ASC)"
    );
}

#[test]
fn flat_sort_and_multi_aggregate() {
    let builder = default_builder();
    let mut config = ViewConfig::default();
    config.columns = vec![Some("x".to_string())];
    config.sort = vec![
        Sort("x".to_string(), SortDir::ColAscAbs),
        Sort("y".to_string(), SortDir::Unsorted),
        Sort("z".to_string(), SortDir::DescAbs),
    ];
    let sql = builder.table_make_view("t", "v", &config).unwrap();
    assert_eq!(
        sql,
        "CREATE TABLE v AS (SELECT \"x\" as \"x\" FROM t ORDER BY \"x\" ASC, \"z\" DESC)"
    );

    let mut grouped = ViewConfig::default();
    grouped.columns = vec![Some("x".to_string())];
    grouped.group_by = vec!["g".to_string()];
    grouped.aggregates.insert(
        "x".to_string(),
        Aggregate::MultiAggregate("weighted_mean".to_string(), vec!["w".to_string()]),
    );
    let sql = builder.table_make_view("t", "v", &grouped).unwrap();
    assert!(sql.contains("weighted_mean(\"x\") as \"x\""));
}

#[test]
fn alias_doubles_quotes_and_turns_underscores_into_dashes() {
    let builder = default_builder();
    let mut config = ViewConfig::default();
    config.columns = vec![Some("my_col\"x".to_string()), Some("e".to_string())];
    config
        .expressions
        .insert("e".to_string(), "a + b".to_string());
    let sql = builder.table_make_view("t", "v", &config).unwrap();
    assert_eq!(
        sql,
        "CREATE TABLE v AS (SELECT \"my_col\"x\" as \"my-col\"\"x\", a + b as \"e\" FROM t)"
    );
}

#[test]
fn custom_words_replace_the_defaults() {
    let builder = GenericSQLVirtualServerModel::new(GenericSQLVirtualServerModelArgs {
        create_entity: Some("VIEW".to_string()),
        grouping_fn: Some("GROUPING".to_string()),
    });
    let mut config = ViewConfig::default();
    config.columns = vec![Some("value".to_string())];
    config.group_by = vec!["category".to_string()];
    let sql = builder.table_make_view("t", "v", &config).unwrap();
    assert_eq!(
        sql,
        "CREATE VIEW v AS (SELECT any_value(\"value\") as \"value\", \"category\" as __ROW_PATH_0__, GROUPING(\"category\") AS __GROUPING_ID__ FROM t GROUP BY ROLLUP(\"category\") ORDER BY GROUPING(\"category\") DESC, __ROW_PATH_0__ ASC)"
    );
}

#[test]
fn empty_config_selects_nothing() {
    let builder = default_builder();
    let config = ViewConfig::default();
    let sql = builder.table_make_view("t", "v", &config).unwrap();
    assert_eq!(sql, "CREATE TABLE v AS (SELECT  FROM t)");
}

#[test]
fn viewport_pages_data_columns_only() {
    let builder = default_builder();
    let mut config = ViewConfig::default();
    config.group_by = vec!["a".to_string(), "b".to_string()];
    let mut schema = OrderedMap::new();
    schema.insert("__ROW_PATH_0__".to_string(), ColumnType::String);
    schema.insert("c0".to_string(), ColumnType::Integer);
    schema.insert("__GROUPING_ID__".to_string(), ColumnType::Integer);
    schema.insert("c1".to_string(), ColumnType::Integer);
    schema.insert("c2".to_string(), ColumnType::Integer);
    schema.insert("_c3".to_string(), ColumnType::Integer);
    let viewport = ViewPort {
        start_row: Some(20),
        end_row: Some(25),
        start_col: Some(1),
        end_col: Some(3),
    };
    let sql = builder
        .view_get_data("v", &config, &viewport, &schema)
        .unwrap();
    assert_eq!(
        sql,
        "SELECT \"__GROUPING_ID__\", \"__ROW_PATH_0__\", \"__ROW_PATH_1__\", \"c1\", \"c2\" FROM v LIMIT 5 OFFSET 20"
    );

    config.split_by = vec!["s".to_string()];
    let open = ViewPort {
        start_row: None,
        end_row: None,
        start_col: Some(2),
        end_col: None,
    };
    let sql = builder.view_get_data("v", &config, &open, &schema).unwrap();
    assert_eq!(
        sql,
        "SELECT \"__ROW_PATH_0__\", \"__ROW_PATH_1__\", \"c2\", \"_c3\" FROM v"
    );

    let beyond = ViewPort {
        start_row: None,
        end_row: Some(7),
        start_col: Some(9),
        end_col: Some(12),
    };
    let flat = ViewConfig::default();
    let sql = builder.view_get_data("v", &flat, &beyond, &schema).unwrap();
    assert_eq!(sql, "SELECT  FROM v LIMIT 7 OFFSET 0");
}

#[test]
fn viewport_that_ends_before_it_starts_is_refused() {
    let builder = default_builder();
    let config = ViewConfig::default();
    let schema = OrderedMap::new();
    let rows = ViewPort {
        start_row: Some(5),
        end_row: Some(4),
        start_col: None,
        end_col: None,
    };
    let cols = ViewPort {
        start_row: None,
        end_row: None,
        start_col: Some(2),
        end_col: Some(1),
    };
    for viewport in [rows, cols] {
        match builder.view_get_data("v", &config, &viewport, &schema) {
            Err(GenericSQLError::InvalidConfig(_)) => {},
            other => panic!("expected InvalidConfig, got {:?}", other),
        }
    }
}

#[test]
fn sql_errors_show_their_kind() {
    assert_eq!(
        GenericSQLError::ColumnNotFound("c".to_string()).to_string(),
        "Column not found: c"
    );
    assert_eq!(
        GenericSQLError::InvalidConfig("m".to_string()).to_string(),
        "Invalid configuration: m"
    );
    assert_eq!(
        GenericSQLError::UnsupportedOperation("m".to_string()).to_string(),
        "Unsupported operation: m"
    );
}

#[test]
fn schema_is_read_from_type_names() {
    let pairs = vec![
        ("a".to_string(), "string".to_string()),
        ("b".to_string(), "datetime".to_string()),
        ("a".to_string(), "float".to_string()),
        ("c".to_string(), "boolean".to_string()),
        ("d".to_string(), "date".to_string()),
        ("e".to_string(), "integer".to_string()),
    ];
    let schema = parse_schema(&pairs).unwrap();
    assert_eq!(schema.len(), 5);
    let (name, column_type) = schema.get_index(0).unwrap();
    assert_eq!((name.as_str(), *column_type), ("a", ColumnType::Float));
    let (name, column_type) = schema.get_index(1).unwrap();
    assert_eq!((name.as_str(), *column_type), ("b", ColumnType::Datetime));
    assert_eq!(schema.get("e"), Some(&ColumnType::Integer));

    let bad = vec![
        ("a".to_string(), "string".to_string()),
        ("b".to_string(), "text".to_string()),
        ("c".to_string(), "nope".to_string()),
    ];
    assert_eq!(
        parse_schema(&bad).unwrap_err(),
        "Unknown column type: text"
    );
}
