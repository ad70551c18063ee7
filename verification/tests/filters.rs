use virtual_server::filters::{
    Filter, FilterOp, FilterReducer, FilterTerm, Scalar, UnknownFilterOp,
};
use virtual_server::number::Float;
use virtual_server::proto;

fn all_ops() -> Vec<FilterOp> {
    vec![
        FilterOp::Contains,
        FilterOp::In,
        FilterOp::NotIn,
        FilterOp::BeginsWith,
        FilterOp::EndsWith,
        FilterOp::IsNull,
        FilterOp::IsNotNull,
        FilterOp::Gt,
        FilterOp::Lt,
        FilterOp::Eq,
        FilterOp::Ge,
        FilterOp::Le,
        FilterOp::Ne,
    ]
}

fn sample_scalars() -> Vec<Scalar> {
    vec![
        Scalar::Float(Float::parse("1.5").unwrap()),
        Scalar::Float(Float::parse("NaN").unwrap()),
        Scalar::String("".to_string()),
        Scalar::String("123".to_string()),
        Scalar::Bool(true),
        Scalar::Bool(false),
        Scalar::DateTime(0),
        Scalar::DateTime(-1700000000000),
        Scalar::Null,
    ]
}

#[test]
fn scalar_round_trips_through_the_wire() {
    for s in sample_scalars() {
        let back = Scalar::from_wire(s.clone().to_wire());
        assert_eq!(back, s);
    }
}

#[test]
fn scalar_takes_its_wire_shape() {
    assert_eq!(
        Scalar::Null.to_wire(),
        proto::Scalar {
            scalar: Some(proto::ScalarValue::Null(0))
        }
    );
    assert_eq!(
        Scalar::DateTime(5).to_wire(),
        proto::Scalar {
            scalar: Some(proto::ScalarValue::Datetime(5))
        }
    );
    assert_eq!(
        Scalar::String("123".to_string()).to_wire(),
        proto::Scalar {
            scalar: Some(proto::ScalarValue::String("123".to_string()))
        }
    );
    assert_eq!(
        Scalar::Float(Float::from_i64(123)).to_wire(),
        proto::Scalar {
            scalar: Some(proto::ScalarValue::Float(Float::from_i64(123)))
        }
    );
}

#[test]
fn wire_integers_and_dates_widen() {
    let wire = |v| proto::Scalar { scalar: Some(v) };
    assert_eq!(
        Scalar::from_wire(wire(proto::ScalarValue::Int(-7))),
        Scalar::Float(Float::parse("-7").unwrap())
    );
    assert_eq!(
        Scalar::from_wire(wire(proto::ScalarValue::Date(3))),
        Scalar::DateTime(3)
    );
    assert_eq!(
        Scalar::from_wire(wire(proto::ScalarValue::Null(9))),
        Scalar::Null
    );
    assert_eq!(
        Scalar::from_wire(proto::Scalar { scalar: None }),
        Scalar::Null
    );
}

#[test]
fn scalar_defaults_to_null() {
    assert_eq!(Scalar::default(), Scalar::Null);
    assert_eq!(FilterTerm::default(), FilterTerm::Scalar(Scalar::Null));
    assert_eq!(FilterReducer::default(), FilterReducer::And);
}

#[test]
fn scalars_and_terms_show_their_values() {
    assert_eq!(Scalar::Null.to_string(), "");
    assert_eq!(Scalar::Bool(true).to_string(), "true");
    assert_eq!(Scalar::Bool(false).to_string(), "false");
    assert_eq!(Scalar::DateTime(-42).to_string(), "-42");
    assert_eq!(Scalar::String("a,b".to_string()).to_string(), "a,b");
    assert_eq!(
        Scalar::Float(Float::parse("2.5").unwrap()).to_string(),
        "2.5"
    );
    let term = FilterTerm::Array(vec![
        Scalar::String("a".to_string()),
        Scalar::Null,
        Scalar::Bool(true),
    ]);
    assert_eq!(term.to_string(), "a,,true");
    assert_eq!(FilterTerm::Array(vec![]).to_string(), "");
    assert_eq!(FilterTerm::Scalar(Scalar::Bool(false)).to_string(), "false");
}

#[test]
fn every_operator_round_trips_through_its_code() {
    let texts = [
        "contains",
        "in",
        "not in",
        "begins with",
        "ends with",
        "is null",
        "is not null",
        ">",
        "<",
        "==",
        ">=",
        "<=",
        "!=",
    ];
    for (i, op) in all_ops().into_iter().enumerate() {
        assert_eq!(op.code(), i as u32);
        assert_eq!(FilterOp::from_code(op.code()), Some(op));
        assert_eq!(op.as_str(), texts[i]);
    }
    assert_eq!(FilterOp::from_code(13), None);
    assert_eq!(FilterOp::from_code(u32::MAX), None);
}

#[test]
fn every_operator_is_named_by_its_text() {
    for op in all_ops() {
        assert_eq!(FilterOp::parse(op.as_str()), Some(op));
    }
    for text in ["", "=", "IN", "not  in", "contains ", "is", "=>", "<>"] {
        assert_eq!(FilterOp::parse(text), None, "{:?}", text);
    }
}

#[test]
fn filter_round_trips_through_the_wire() {
    for op in all_ops() {
        for term in [
            FilterTerm::Scalar(Scalar::Null),
            FilterTerm::Scalar(Scalar::String("x".to_string())),
            FilterTerm::Array(vec![]),
            FilterTerm::Array(vec![Scalar::Null]),
            FilterTerm::Array(vec![Scalar::String("x".to_string())]),
            FilterTerm::Array(vec![Scalar::Bool(true), Scalar::Null]),
            FilterTerm::Array(sample_scalars()),
        ] {
            let filter = Filter::new("col".to_string(), op, term);
            let back = Filter::from_wire(filter.clone().to_wire());
            assert_eq!(back, Ok(filter));
        }
    }
}

#[test]
fn list_of_one_comes_back_as_a_list() {
    let filter = Filter::new(
        "col".to_string(),
        FilterOp::In,
        FilterTerm::Array(vec![Scalar::Bool(true)]),
    );
    let wire = filter.clone().to_wire();
    assert_eq!(wire.value.len(), 1);
    assert!(wire.list);
    let back = Filter::from_wire(wire).unwrap();
    assert_eq!(*back.term(), FilterTerm::Array(vec![Scalar::Bool(true)]));
    assert_eq!(back, filter);

    let single = Filter::new(
        "col".to_string(),
        FilterOp::Eq,
        FilterTerm::Scalar(Scalar::Bool(true)),
    );
    let wire = single.clone().to_wire();
    assert_eq!(wire.value.len(), 1);
    assert!(!wire.list);
    assert_eq!(Filter::from_wire(wire), Ok(single));
}

#[test]
fn unmarked_wire_operands_go_by_their_length() {
    let scalar = |b| proto::Scalar {
        scalar: Some(proto::ScalarValue::Bool(b)),
    };
    assert_eq!(
        FilterTerm::from_wire(vec![scalar(true)], false),
        FilterTerm::Scalar(Scalar::Bool(true))
    );
    assert_eq!(
        FilterTerm::from_wire(vec![], false),
        FilterTerm::Array(vec![])
    );
    assert_eq!(
        FilterTerm::from_wire(vec![scalar(true), scalar(false)], false),
        FilterTerm::Array(vec![Scalar::Bool(true), Scalar::Bool(false)])
    );
    assert_eq!(
        FilterTerm::from_wire(vec![scalar(true)], true),
        FilterTerm::Array(vec![Scalar::Bool(true)])
    );
    assert!(FilterTerm::Array(vec![]).is_list());
    assert!(!FilterTerm::Scalar(Scalar::Null).is_list());
}

#[test]
fn unknown_operator_code_is_refused() {
    let wire = proto::Filter {
        column: "col".to_string(),
        op: 13,
        value: vec![],
        list: false,
    };
    assert_eq!(Filter::from_wire(wire), Err(UnknownFilterOp(13)));
}

#[test]
fn filter_gives_and_takes_its_parts() {
    let mut filter = Filter::new(
        "col".to_string(),
        FilterOp::Lt,
        FilterTerm::Scalar(Scalar::Null),
    );
    assert_eq!(filter.column(), "col");
    assert_eq!(filter.op(), "<");
    assert_eq!(filter.operator(), FilterOp::Lt);
    assert_eq!(*filter.term(), FilterTerm::Scalar(Scalar::Null));
    filter.column_mut().push_str("umn");
    *filter.op_mut() = FilterOp::NotIn;
    *filter.term_mut() = FilterTerm::Array(vec![Scalar::DateTime(1)]);
    assert_eq!(
        filter,
        Filter::new(
            "column".to_string(),
            FilterOp::NotIn,
            FilterTerm::Array(vec![Scalar::DateTime(1)])
        )
    );
    let wire = filter.to_wire();
    assert_eq!(wire.column, "column");
    assert_eq!(wire.op, 2);
}
