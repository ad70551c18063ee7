use virtual_server::data::{
    DataSliceError, SetVirtualDataColumn, VirtualDataCell, VirtualDataColumn, VirtualDataSlice,
};
use virtual_server::filters::Scalar;
use virtual_server::number::Float;

fn column<'a>(slice: &'a VirtualDataSlice, name: &str) -> &'a VirtualDataColumn {
    slice.columns().get(name).unwrap()
}

#[test]
fn row_path_fills_the_rows_that_were_skipped() {
    let mut slice = VirtualDataSlice::default();
    slice
        .set_col("ignored", Some(0), 0, Some("a".to_string()))
        .unwrap();
    slice
        .set_col("ignored", Some(0), 3, Some("b".to_string()))
        .unwrap();
    assert_eq!(slice.columns().len(), 1);
    let path = column(&slice, "__ROW_PATH__");
    assert_eq!(path.len(), 4);
    assert_eq!(
        *path,
        VirtualDataColumn::RowPath(vec![
            vec![Scalar::String("a".to_string())],
            vec![],
            vec![],
            vec![Scalar::String("b".to_string())],
        ])
    );
}

#[test]
fn row_path_grows_level_by_level() {
    let mut slice = VirtualDataSlice::default();
    slice.set_col("x", Some(0), 0, Some(true)).unwrap();
    slice.set_col("x", Some(1), 0, Some(7i32)).unwrap();
    slice.set_col("x", Some(2), 0, None::<i64>).unwrap();
    slice.set_col("x", Some(0), 1, Some(-3i64)).unwrap();
    slice
        .set_col("x", Some(0), 1, Some(Float::parse("0.5").unwrap()))
        .unwrap();
    assert_eq!(
        *column(&slice, "__ROW_PATH__"),
        VirtualDataColumn::RowPath(vec![
            vec![
                Scalar::Bool(true),
                Scalar::Float(Float::parse("7").unwrap()),
                Scalar::Null
            ],
            vec![
                Scalar::Float(Float::parse("-3").unwrap()),
                Scalar::Float(Float::parse("0.5").unwrap())
            ],
        ])
    );
}

#[test]
fn values_are_appended_to_the_column_of_their_type() {
    let mut slice = VirtualDataSlice::default();
    slice.set_col("i", None, 0, Some(1i32)).unwrap();
    slice.set_col("s", None, 0, Some("x".to_string())).unwrap();
    slice.set_col("i", None, 9, None::<i32>).unwrap();
    slice.set_col("s", None, 1, None::<String>).unwrap();
    slice.set_col("b", None, 0, Some(false)).unwrap();
    slice.set_col("d", None, 0, Some(5i64)).unwrap();
    slice
        .set_col("f", None, 0, Some(Float::from_i64(2)))
        .unwrap();
    assert_eq!(
        *column(&slice, "i"),
        VirtualDataColumn::Integer(vec![Some(1), None])
    );
    assert_eq!(
        *column(&slice, "s"),
        VirtualDataColumn::String(vec![Some("x".to_string()), None])
    );
    assert_eq!(
        *column(&slice, "b"),
        VirtualDataColumn::Boolean(vec![Some(false)])
    );
    assert_eq!(
        *column(&slice, "d"),
        VirtualDataColumn::Datetime(vec![Some(5)])
    );
    assert_eq!(
        *column(&slice, "f"),
        VirtualDataColumn::Float(vec![Some(Float::from_i64(2))])
    );
    let names: Vec<String> = (0..slice.columns().len())
        .map(|i| slice.columns().get_index(i).unwrap().0.clone())
        .collect();
    assert_eq!(names, vec!["i", "s", "b", "d", "f"]);
}

#[test]
fn value_of_another_type_is_refused_and_changes_nothing() {
    let mut slice = VirtualDataSlice::default();
    slice.set_col("i", None, 0, Some(1i32)).unwrap();
    let refused = slice.set_col("i", None, 1, Some("x".to_string()));
    assert_eq!(refused, Err(DataSliceError::BadType));
    assert_eq!(refused.unwrap_err().message(), "Bad type");
    assert_eq!(
        *column(&slice, "i"),
        VirtualDataColumn::Integer(vec![Some(1)])
    );
    assert_eq!(slice.columns().len(), 1);
}

#[test]
fn row_path_name_taken_by_a_data_column_is_refused() {
    let mut slice = VirtualDataSlice::default();
    slice.set_col("__ROW_PATH__", None, 0, Some(1i32)).unwrap();
    let refused = slice.set_col("x", Some(0), 0, Some(2i32));
    assert_eq!(refused, Err(DataSliceError::RowPathType));
    assert_eq!(
        *column(&slice, "__ROW_PATH__"),
        VirtualDataColumn::Integer(vec![Some(1)])
    );
}

#[test]
fn rows_project_every_column() {
    let mut slice = VirtualDataSlice::default();
    for (row, (name, n)) in [("a", 1i32), ("b", 2)].iter().enumerate() {
        slice.set_col("x", Some(0), row, Some(name.to_string())).unwrap();
        slice.set_col("n", None, row, Some(*n)).unwrap();
        slice.set_col("s", None, row, None::<String>).unwrap();
    }
    let rows = slice.to_rows().unwrap();
    assert_eq!(rows.len(), 2);
    let row = &rows[1];
    assert_eq!(row.len(), 3);
    let (name, cell) = row.get_index(0).unwrap();
    assert_eq!(name, "__ROW_PATH__");
    assert_eq!(
        *cell,
        VirtualDataCell::RowPath(vec![Scalar::String("b".to_string())])
    );
    assert_eq!(row.get("n"), Some(&VirtualDataCell::Integer(Some(2))));
    assert_eq!(row.get("s"), Some(&VirtualDataCell::String(None)));
    assert_eq!(rows[0].get("n"), Some(&VirtualDataCell::Integer(Some(1))));
}

#[test]
fn empty_slice_has_no_rows() {
    let slice = VirtualDataSlice::default();
    assert_eq!(slice.to_rows().unwrap().len(), 0);
}

#[test]
fn columns_of_different_length_have_no_rows() {
    let mut slice = VirtualDataSlice::default();
    slice.set_col("a", None, 0, Some(1i32)).unwrap();
    slice.set_col("b", None, 0, Some(1i32)).unwrap();
    slice.set_col("b", None, 1, Some(2i32)).unwrap();
    assert_eq!(slice.to_rows().unwrap_err(), DataSliceError::RaggedColumns);
    let mut other = VirtualDataSlice::default();
    other.set_col("a", None, 0, Some(1i32)).unwrap();
    other.set_col("a", None, 1, Some(2i32)).unwrap();
    other.set_col("b", None, 0, Some(1i32)).unwrap();
    assert_eq!(other.to_rows().unwrap_err(), DataSliceError::RaggedColumns);
}

#[test]
fn columns_know_their_length() {
    let empty = <Option<bool> as SetVirtualDataColumn>::new_column();
    assert!(empty.is_empty());
    assert_eq!(empty.len(), 0);
    assert_eq!(empty, VirtualDataColumn::Boolean(vec![]));
    let mut col = <Option<i64> as SetVirtualDataColumn>::new_column();
    assert_eq!(Some(4i64).write_to(&mut col), Ok(()));
    assert_eq!(Some(4i32).write_to(&mut col), Err("Bad type"));
    assert!(!col.is_empty());
    assert_eq!(col.len(), 1);
    let index = VirtualDataColumn::IntegerIndex(vec![Some(vec![1, 2]), None]);
    assert_eq!(index.len(), 2);
}

#[test]
fn values_become_scalars() {
    assert_eq!(Some(5i32).to_scalar(), Scalar::Float(Float::from_i64(5)));
    assert_eq!(
        Some(i64::MIN).to_scalar(),
        Scalar::Float(Float::parse("-9223372036854775808").unwrap())
    );
    assert_eq!(None::<i32>.to_scalar(), Scalar::Null);
    assert_eq!(Some(true).to_scalar(), Scalar::Bool(true));
    assert_eq!(
        Some("s".to_string()).to_scalar(),
        Scalar::String("s".to_string())
    );
    assert_eq!(
        Some(Float::parse("1.25").unwrap()).to_scalar(),
        Scalar::Float(Float::parse("1.25").unwrap())
    );
    assert_eq!(None::<Float>.to_scalar(), Scalar::Null);
}

#[test]
fn whole_columns_can_be_put() {
    let mut slice = VirtualDataSlice::default();
    let index = VirtualDataColumn::IntegerIndex(vec![Some(vec![1, 2]), None]);
    assert_eq!(slice.insert("i".to_string(), index), None);
    assert_eq!(
        slice.insert("b".to_string(), VirtualDataColumn::Boolean(vec![None, Some(true)])),
        None
    );
    assert_eq!(
        slice.insert(
            "i".to_string(),
            VirtualDataColumn::IntegerIndex(vec![None, Some(vec![3])])
        ),
        Some(VirtualDataColumn::IntegerIndex(vec![Some(vec![1, 2]), None]))
    );
    assert_eq!(slice.columns().get_index(0).unwrap().0, "i");
    let rows = slice.to_rows().unwrap();
    assert_eq!(rows.len(), 2);
    assert_eq!(
        rows[1].get("i"),
        Some(&VirtualDataCell::IntegerIndex(Some(vec![3])))
    );
    assert_eq!(rows[1].get("b"), Some(&VirtualDataCell::Boolean(Some(true))));
    assert_eq!(
        slice.set_col("i", None, 2, Some(1i32)),
        Err(DataSliceError::BadType)
    );
}

