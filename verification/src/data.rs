//! The data that a handler gives back for a page of a view: named columns
//! of typed values, filled cell by cell.

use crate::deep::{clone_vec, deep, lemma_deep_extend, lemma_deep_push, DeepClone};
use crate::filters::{Scalar, ScalarView};
use crate::number::Float;
use crate::ordered_map::{deep_entries, lemma_deep_wf, lemma_index_of, Entries, OrderedMap};
use crate::text::signed_decimal;
use vstd::prelude::*;

verus! {

/// A column of values; `None` stands for a missing value.
#[derive(Debug, PartialEq)]
pub enum VirtualDataColumn {
    Boolean(Vec<Option<bool>>),
    String(Vec<Option<String>>),
    Float(Vec<Option<Float>>),
    Integer(Vec<Option<i32>>),
    Datetime(Vec<Option<i64>>),
    /// Cells that hold several integers each.
    IntegerIndex(Vec<Option<Vec<i32>>>),
    /// For each row, the path of group values that leads to it.
    RowPath(Vec<Vec<Scalar>>),
}

pub enum ColumnView {
    Boolean(Seq<Option<bool>>),
    String(Seq<Option<Seq<char>>>),
    Float(Seq<Option<Seq<char>>>),
    Integer(Seq<Option<i32>>),
    Datetime(Seq<Option<i64>>),
    IntegerIndex(Seq<Option<Seq<i32>>>),
    RowPath(Seq<Seq<ScalarView>>),
}

/// The deep views of the rows of a row path.
pub open spec fn deep_paths(rows: Seq<Vec<Scalar>>) -> Seq<Seq<ScalarView>> {
    Seq::new(rows.len(), |i: int| deep(rows[i]@))
}

/// The views of cells that hold several integers.
pub open spec fn deep_indices(cells: Seq<Option<Vec<i32>>>) -> Seq<Option<Seq<i32>>> {
    Seq::new(
        cells.len(),
        |i: int|
            match cells[i] {
                Some(v) => Some(v@),
                None => None,
            },
    )
}

impl DeepView for VirtualDataColumn {
    type V = ColumnView;

    open spec fn deep_view(&self) -> ColumnView {
        match self {
            VirtualDataColumn::Boolean(v) => ColumnView::Boolean(v@),
            VirtualDataColumn::String(v) => ColumnView::String(deep(v@)),
            VirtualDataColumn::Float(v) => ColumnView::Float(deep(v@)),
            VirtualDataColumn::Integer(v) => ColumnView::Integer(v@),
            VirtualDataColumn::Datetime(v) => ColumnView::Datetime(v@),
            VirtualDataColumn::IntegerIndex(v) => ColumnView::IntegerIndex(deep_indices(v@)),
            VirtualDataColumn::RowPath(v) => ColumnView::RowPath(deep_paths(v@)),
        }
    }
}

/// One value of a row.
#[derive(Debug, PartialEq)]
pub enum VirtualDataCell {
    Boolean(Option<bool>),
    String(Option<String>),
    Float(Option<Float>),
    Integer(Option<i32>),
    Datetime(Option<i64>),
    IntegerIndex(Option<Vec<i32>>),
    RowPath(Vec<Scalar>),
}

pub enum CellView {
    Boolean(Option<bool>),
    String(Option<Seq<char>>),
    Float(Option<Seq<char>>),
    Integer(Option<i32>),
    Datetime(Option<i64>),
    IntegerIndex(Option<Seq<i32>>),
    RowPath(Seq<ScalarView>),
}

impl DeepView for VirtualDataCell {
    type V = CellView;

    open spec fn deep_view(&self) -> CellView {
        match self {
            VirtualDataCell::Boolean(x) => CellView::Boolean(*x),
            VirtualDataCell::String(x) => CellView::String(x.deep_view()),
            VirtualDataCell::Float(x) => CellView::Float(x.deep_view()),
            VirtualDataCell::Integer(x) => CellView::Integer(*x),
            VirtualDataCell::Datetime(x) => CellView::Datetime(*x),
            VirtualDataCell::IntegerIndex(x) => CellView::IntegerIndex(
                match x {
                    Some(v) => Some(v@),
                    None => None,
                },
            ),
            VirtualDataCell::RowPath(x) => CellView::RowPath(deep(x@)),
        }
    }
}

impl ColumnView {
    /// The number of rows.
    pub open spec fn len(self) -> nat {
        match self {
            ColumnView::Boolean(v) => v.len(),
            ColumnView::String(v) => v.len(),
            ColumnView::Float(v) => v.len(),
            ColumnView::Integer(v) => v.len(),
            ColumnView::Datetime(v) => v.len(),
            ColumnView::IntegerIndex(v) => v.len(),
            ColumnView::RowPath(v) => v.len(),
        }
    }

    /// The cell of row `row`.
    pub open spec fn cell(self, row: int) -> CellView {
        match self {
            ColumnView::Boolean(v) => CellView::Boolean(v[row]),
            ColumnView::String(v) => CellView::String(v[row]),
            ColumnView::Float(v) => CellView::Float(v[row]),
            ColumnView::Integer(v) => CellView::Integer(v[row]),
            ColumnView::Datetime(v) => CellView::Datetime(v[row]),
            ColumnView::IntegerIndex(v) => CellView::IntegerIndex(v[row]),
            ColumnView::RowPath(v) => CellView::RowPath(v[row]),
        }
    }
}

fn clone_ints(v: &Vec<i32>) -> (copy: Vec<i32>)
    ensures
        copy@ == v@,
{
    let mut copy: Vec<i32> = Vec::new();
    let mut i: usize = 0;
    while i < v.len()
        invariant
            i <= v.len(),
            copy@ == v@.take(i as int),
        decreases v.len() - i,
    {
        copy.push(v[i]);
        proof {
            assert(v@.take(i + 1) =~= v@.take(i as int).push(v@[i as int]));
        }
        i = i + 1;
    }
    proof {
        assert(v@.take(v.len() as int) =~= v@);
    }
    copy
}

impl VirtualDataColumn {
    /// Whether the column has no rows.
    pub fn is_empty(&self) -> (b: bool)
        ensures
            b == (self.deep_view().len() == 0),
    {
        self.len() == 0
    }

    /// The number of rows.
    pub fn len(&self) -> (n: usize)
        ensures
            n == self.deep_view().len(),
    {
        match self {
            VirtualDataColumn::Boolean(v) => v.len(),
            VirtualDataColumn::String(v) => v.len(),
            VirtualDataColumn::Float(v) => v.len(),
            VirtualDataColumn::Integer(v) => v.len(),
            VirtualDataColumn::Datetime(v) => v.len(),
            VirtualDataColumn::IntegerIndex(v) => v.len(),
            VirtualDataColumn::RowPath(v) => v.len(),
        }
    }

    /// A copy of the cell of row `row`.
    fn cell(&self, row: usize) -> (cell: VirtualDataCell)
        requires
            row < self.deep_view().len(),
        ensures
            cell.deep_view() == self.deep_view().cell(row as int),
    {
        match self {
            VirtualDataColumn::Boolean(v) => VirtualDataCell::Boolean(v[row]),
            VirtualDataColumn::String(v) => VirtualDataCell::String(v[row].deep_clone()),
            VirtualDataColumn::Float(v) => VirtualDataCell::Float(v[row].deep_clone()),
            VirtualDataColumn::Integer(v) => VirtualDataCell::Integer(v[row]),
            VirtualDataColumn::Datetime(v) => VirtualDataCell::Datetime(v[row]),
            VirtualDataColumn::IntegerIndex(v) => VirtualDataCell::IntegerIndex(
                match &v[row] {
                    Some(ints) => Some(clone_ints(ints)),
                    None => None,
                },
            ),
            VirtualDataColumn::RowPath(v) => VirtualDataCell::RowPath(clone_vec(&v[row])),
        }
    }
}

/// A value that can be written to a column as its next row.
pub trait SetVirtualDataColumn: Sized {
    /// Whether a column holds values of this type.
    spec fn fits(col: ColumnView) -> bool;

    /// The column with this value as its new last row.
    spec fn appended(self, col: ColumnView) -> ColumnView;

    /// A column of this type without rows.
    spec fn empty_column() -> ColumnView;

    /// The scalar that stands for this value in a row path.
    spec fn scalar(self) -> ScalarView;

    /// Writes the value to the column as its next row. A column of another
    /// type stays as it is, and the call fails.
    fn write_to(self, col: &mut VirtualDataColumn) -> (done: Result<(), &'static str>)
        ensures
            done is Ok == Self::fits(old(col).deep_view()),
            done is Ok ==> final(col).deep_view() == self.appended(old(col).deep_view()),
            done is Err ==> final(col).deep_view() == old(col).deep_view(),
            done is Err ==> done->Err_0@ == "Bad type"@,
    ;

    /// A column of this type without rows.
    fn new_column() -> (col: VirtualDataColumn)
        ensures
            col.deep_view() == Self::empty_column(),
            Self::fits(Self::empty_column()),
    ;

    /// The scalar that stands for this value in a row path.
    fn to_scalar(self) -> (s: Scalar)
        ensures
            s@ == self.scalar(),
    ;
}

impl SetVirtualDataColumn for Option<String> {
    open spec fn fits(col: ColumnView) -> bool {
        col is String
    }

    open spec fn appended(self, col: ColumnView) -> ColumnView {
        ColumnView::String(col->String_0.push(self.deep_view()))
    }

    open spec fn empty_column() -> ColumnView {
        ColumnView::String(Seq::empty())
    }

    open spec fn scalar(self) -> ScalarView {
        match self {
            Some(x) => ScalarView::String(x@),
            None => ScalarView::Null,
        }
    }

    fn write_to(self, col: &mut VirtualDataColumn) -> (done: Result<(), &'static str>) {
        match col {
            VirtualDataColumn::String(x) => {
                proof {
                    lemma_deep_push(x@, self);
                }
                x.push(self);
                Ok(())
            },
            _ => Err("Bad type"),
        }
    }

    fn new_column() -> (col: VirtualDataColumn) {
        let col = VirtualDataColumn::String(Vec::new());
        proof {
            assert(col.deep_view()->String_0 =~= Seq::empty());
        }
        col
    }

    fn to_scalar(self) -> (s: Scalar) {
        match self {
            Some(x) => Scalar::String(x),
            None => Scalar::Null,
        }
    }
}

impl SetVirtualDataColumn for Option<Float> {
    open spec fn fits(col: ColumnView) -> bool {
        col is Float
    }

    open spec fn appended(self, col: ColumnView) -> ColumnView {
        ColumnView::Float(col->Float_0.push(self.deep_view()))
    }

    open spec fn empty_column() -> ColumnView {
        ColumnView::Float(Seq::empty())
    }

    open spec fn scalar(self) -> ScalarView {
        match self {
            Some(x) => ScalarView::Float(x@),
            None => ScalarView::Null,
        }
    }

    fn write_to(self, col: &mut VirtualDataColumn) -> (done: Result<(), &'static str>) {
        match col {
            VirtualDataColumn::Float(x) => {
                proof {
                    lemma_deep_push(x@, self);
                }
                x.push(self);
                Ok(())
            },
            _ => Err("Bad type"),
        }
    }

    fn new_column() -> (col: VirtualDataColumn) {
        let col = VirtualDataColumn::Float(Vec::new());
        proof {
            assert(col.deep_view()->Float_0 =~= Seq::empty());
        }
        col
    }

    fn to_scalar(self) -> (s: Scalar) {
        match self {
            Some(x) => Scalar::Float(x),
            None => Scalar::Null,
        }
    }
}

impl SetVirtualDataColumn for Option<i32> {
    open spec fn fits(col: ColumnView) -> bool {
        col is Integer
    }

    open spec fn appended(self, col: ColumnView) -> ColumnView {
        ColumnView::Integer(col->Integer_0.push(self))
    }

    open spec fn empty_column() -> ColumnView {
        ColumnView::Integer(Seq::empty())
    }

    /// An integer widens to a number.
    open spec fn scalar(self) -> ScalarView {
        match self {
            Some(x) => ScalarView::Float(signed_decimal(x as int)),
            None => ScalarView::Null,
        }
    }

    fn write_to(self, col: &mut VirtualDataColumn) -> (done: Result<(), &'static str>) {
        match col {
            VirtualDataColumn::Integer(x) => {
                x.push(self);
                Ok(())
            },
            _ => Err("Bad type"),
        }
    }

    fn new_column() -> (col: VirtualDataColumn) {
        VirtualDataColumn::Integer(Vec::new())
    }

    fn to_scalar(self) -> (s: Scalar) {
        match self {
            Some(x) => Scalar::Float(Float::from_i64(x as i64)),
            None => Scalar::Null,
        }
    }
}

impl SetVirtualDataColumn for Option<i64> {
    open spec fn fits(col: ColumnView) -> bool {
        col is Datetime
    }

    open spec fn appended(self, col: ColumnView) -> ColumnView {
        ColumnView::Datetime(col->Datetime_0.push(self))
    }

    open spec fn empty_column() -> ColumnView {
        ColumnView::Datetime(Seq::empty())
    }

    /// A point in time widens to a number.
    open spec fn scalar(self) -> ScalarView {
        match self {
            Some(x) => ScalarView::Float(signed_decimal(x as int)),
            None => ScalarView::Null,
        }
    }

    fn write_to(self, col: &mut VirtualDataColumn) -> (done: Result<(), &'static str>) {
        match col {
            VirtualDataColumn::Datetime(x) => {
                x.push(self);
                Ok(())
            },
            _ => Err("Bad type"),
        }
    }

    fn new_column() -> (col: VirtualDataColumn) {
        VirtualDataColumn::Datetime(Vec::new())
    }

    fn to_scalar(self) -> (s: Scalar) {
        match self {
            Some(x) => Scalar::Float(Float::from_i64(x)),
            None => Scalar::Null,
        }
    }
}

impl SetVirtualDataColumn for Option<bool> {
    open spec fn fits(col: ColumnView) -> bool {
        col is Boolean
    }

    open spec fn appended(self, col: ColumnView) -> ColumnView {
        ColumnView::Boolean(col->Boolean_0.push(self))
    }

    open spec fn empty_column() -> ColumnView {
        ColumnView::Boolean(Seq::empty())
    }

    open spec fn scalar(self) -> ScalarView {
        match self {
            Some(x) => ScalarView::Bool(x),
            None => ScalarView::Null,
        }
    }

    fn write_to(self, col: &mut VirtualDataColumn) -> (done: Result<(), &'static str>) {
        match col {
            VirtualDataColumn::Boolean(x) => {
                x.push(self);
                Ok(())
            },
            _ => Err("Bad type"),
        }
    }

    fn new_column() -> (col: VirtualDataColumn) {
        VirtualDataColumn::Boolean(Vec::new())
    }

    fn to_scalar(self) -> (s: Scalar) {
        match self {
            Some(x) => Scalar::Bool(x),
            None => Scalar::Null,
        }
    }
}

/// Why a slice refused a value or could not be read by rows.
#[derive(Clone, Copy, Debug, PartialEq, Eq, Structural)]
pub enum DataSliceError {
    /// The column holds values of another type.
    BadType,
    /// The column named `__ROW_PATH__` does not hold row paths.
    RowPathType,
    /// The columns differ in length.
    RaggedColumns,
}

impl DataSliceError {
    pub open spec fn text(self) -> Seq<char> {
        match self {
            DataSliceError::BadType => "Bad type"@,
            DataSliceError::RowPathType => "__ROW_PATH__ column has unexpected type"@,
            DataSliceError::RaggedColumns => "Columns differ in length"@,
        }
    }

    /// The text that shows the error.
    pub fn message(&self) -> (m: &'static str)
        ensures
            m@ == self.text(),
    {
        match self {
            DataSliceError::BadType => "Bad type",
            DataSliceError::RowPathType => "__ROW_PATH__ column has unexpected type",
            DataSliceError::RaggedColumns => "Columns differ in length",
        }
    }
}

/// The name of the column that holds the row paths.
pub open spec fn row_path_key() -> Seq<char> {
    "__ROW_PATH__"@
}

/// The columns, with a new last column `fresh` under `name` where they had
/// none of that name.
pub open spec fn with_column(
    cols: Entries<ColumnView>,
    name: Seq<char>,
    fresh: ColumnView,
) -> Entries<ColumnView> {
    if cols.has_key(name) {
        cols
    } else {
        cols.put(name, fresh)
    }
}

/// `n` empty paths.
pub open spec fn empty_paths(n: nat) -> Seq<Seq<ScalarView>> {
    Seq::new(n, |i: int| Seq::empty())
}

/// The row paths after `s` was written at row `index`: the path of a row
/// that exists grows by `s`; else the rows up to `index` come to exist with
/// empty paths, and row `index` with the path of `s` alone.
pub open spec fn row_path_written(
    rows: Seq<Seq<ScalarView>>,
    index: int,
    s: ScalarView,
) -> Seq<Seq<ScalarView>> {
    if index < rows.len() {
        rows.update(index, rows[index].push(s))
    } else {
        (rows + empty_paths((index - rows.len()) as nat)).push(seq![s])
    }
}

/// The columns after `s` was written to the row path at row `index`.
pub open spec fn set_row_path(cols: Entries<ColumnView>, index: int, s: ScalarView) -> Result<
    Entries<ColumnView>,
    DataSliceError,
> {
    let all = with_column(cols, row_path_key(), ColumnView::RowPath(Seq::empty()));
    match all.get(row_path_key()) {
        Some(ColumnView::RowPath(rows)) => Ok(
            all.put(row_path_key(), ColumnView::RowPath(row_path_written(rows, index, s))),
        ),
        _ => Err(DataSliceError::RowPathType),
    }
}

/// The columns after `value` was written to the column `name` as its next
/// row.
pub open spec fn set_value<T: SetVirtualDataColumn>(
    cols: Entries<ColumnView>,
    name: Seq<char>,
    value: T,
) -> Result<Entries<ColumnView>, DataSliceError> {
    let all = with_column(cols, name, T::empty_column());
    let col = all.values[name];
    if T::fits(col) {
        Ok(all.put(name, value.appended(col)))
    } else {
        Err(DataSliceError::BadType)
    }
}

/// All columns have the same number of rows.
pub open spec fn rectangular(cols: Entries<ColumnView>) -> bool {
    forall|i: int| 0 <= i < cols.keys.len() ==> (#[trigger] cols.value_at(i)).len() == cols.value_at(0).len()
}

/// The number of rows of rectangular columns.
pub open spec fn row_count(cols: Entries<ColumnView>) -> nat {
    if cols.keys.len() == 0 {
        0
    } else {
        cols.value_at(0).len()
    }
}

/// Row `row`: under each column's name, the column's cell of that row.
pub open spec fn row_of(cols: Entries<ColumnView>, row: int) -> Entries<CellView> {
    Entries { keys: cols.keys, values: cols.values.map_values(|c: ColumnView| c.cell(row)) }
}

/// The rows of rectangular columns.
pub open spec fn rows_of(cols: Entries<ColumnView>) -> Seq<Entries<CellView>> {
    Seq::new(row_count(cols), |r: int| row_of(cols, r))
}

/// A slice of a view's data: named columns, in the order in which they came
/// to exist.
#[derive(Debug)]
pub struct VirtualDataSlice(OrderedMap<VirtualDataColumn>);

impl DeepView for VirtualDataSlice {
    type V = Entries<ColumnView>;

    closed spec fn deep_view(&self) -> Entries<ColumnView> {
        self.0.deep_view()
    }
}

impl Default for VirtualDataSlice {
    fn default() -> (slice: Self)
        ensures
            slice.deep_view() == Entries::<ColumnView>::empty(),
            slice.deep_view().wf(),
    {
        let slice = VirtualDataSlice(OrderedMap::new());
        proof {
            assert(slice.deep_view().values =~= Map::<Seq<char>, ColumnView>::empty());
        }
        slice
    }
}

fn write_row_path(rows: &mut Vec<Vec<Scalar>>, index: usize, scalar: Scalar)
    ensures
        deep_paths(final(rows)@) == row_path_written(deep_paths(old(rows)@), index as int, scalar@),
{
    let ghost before = deep_paths(rows@);
    if index < rows.len() {
        let mut filler: Vec<Scalar> = Vec::new();
        rows.push(filler);
        let mut row = rows.swap_remove(index);
        proof {
            lemma_deep_push(row@, scalar);
        }
        row.push(scalar);
        rows.push(row);
        let _ = rows.swap_remove(index);
        proof {
            assert(deep_paths(rows@) =~= before.update(index as int, before[index as int].push(scalar@)));
        }
    } else {
        let ghost start = rows@.len();
        while rows.len() < index
            invariant
                start <= rows@.len() <= index,
                before.len() == start,
                deep_paths(rows@) == before + empty_paths((rows@.len() - start) as nat),
            decreases index - rows.len(),
        {
            let ghost prev = rows@;
            rows.push(Vec::new());
            proof {
                assert(deep(Seq::<Scalar>::empty()) =~= Seq::<ScalarView>::empty());
                let target = before + empty_paths((rows@.len() - start) as nat);
                assert forall|i: int| 0 <= i < rows@.len() implies deep_paths(rows@)[i]
                    == target[i] by {
                    if i < prev.len() {
                        assert(deep_paths(prev)[i] == deep(prev[i]@));
                    }
                }
                assert(deep_paths(rows@) =~= target);
            }
        }
        let mut row: Vec<Scalar> = Vec::new();
        proof {
            lemma_deep_push(row@, scalar);
            assert(deep(row@).push(scalar@) =~= seq![scalar@]);
        }
        row.push(scalar);
        let ghost padded = deep_paths(rows@);
        rows.push(row);
        proof {
            assert(deep_paths(rows@) =~= padded.push(seq![scalar@]));
        }
    }
}

impl VirtualDataSlice {
    /// The columns.
    pub fn columns(&self) -> (cols: &OrderedMap<VirtualDataColumn>)
        ensures
            cols.deep_view() == self.deep_view(),
    {
        &self.0
    }

    /// Puts a whole column under `name` and gives back the column that
    /// stood there. A name that the slice has keeps its place; a new name
    /// goes last.
    pub fn insert(&mut self, name: String, column: VirtualDataColumn) -> (previous: Option<
        VirtualDataColumn,
    >)
        ensures
            old(self).deep_view().wf(),
            final(self).deep_view().wf(),
            final(self).deep_view() == old(self).deep_view().put(name@, column.deep_view()),
            previous.deep_view() == old(self).deep_view().get(name@),
    {
        let ghost cols = self.0@;
        proof {
            assert(deep_entries(cols.put(name@, column)).values =~= deep_entries(cols).put(
                name@,
                column.deep_view(),
            ).values);
        }
        let previous = self.0.insert(name, column);
        proof {
            lemma_deep_wf(cols);
            lemma_deep_wf(self.0@);
        }
        previous
    }

    /// Writes a value to the slice.
    ///
    /// With a `group_by_index`, the value's scalar is added to the path of
    /// row `index` in the column `__ROW_PATH__`, which comes to exist with
    /// the first such call; rows that `index` skips get empty paths. Without
    /// one, the value becomes the next row of the column `name`, which comes
    /// to exist with the type of its first value. A column of another type
    /// refuses the value, and the slice stays as it is.
    pub fn set_col<T: SetVirtualDataColumn>(
        &mut self,
        name: &str,
        group_by_index: Option<usize>,
        index: usize,
        value: T,
    ) -> (done: Result<(), DataSliceError>)
        ensures
            old(self).deep_view().wf(),
            final(self).deep_view().wf(),
            match done {
                Ok(()) => Ok::<Entries<ColumnView>, DataSliceError>(final(self).deep_view()) == (
                if group_by_index is Some {
                    set_row_path(old(self).deep_view(), index as int, value.scalar())
                } else {
                    set_value(old(self).deep_view(), name@, value)
                }),
                Err(e) => {
                    &&& final(self).deep_view() == old(self).deep_view()
                    &&& Err::<Entries<ColumnView>, DataSliceError>(e) == (if group_by_index is Some {
                        set_row_path(old(self).deep_view(), index as int, value.scalar())
                    } else {
                        set_value(old(self).deep_view(), name@, value)
                    })
                },
            },
    {
        let ghost cols = self.0@;
        let row_path = group_by_index.is_some();
        let key: &str = if row_path {
            "__ROW_PATH__"
        } else {
            name
        };
        let ghost fresh: ColumnView = if row_path {
            ColumnView::RowPath(Seq::empty())
        } else {
            T::empty_column()
        };
        let at = match self.0.get_index_of(key) {
            Some(i) => i,
            None => {
                let column = if row_path {
                    let column = VirtualDataColumn::RowPath(Vec::new());
                    proof {
                        assert(column.deep_view()->RowPath_0 =~= Seq::empty());
                    }
                    column
                } else {
                    T::new_column()
                };
                proof {
                    assert(deep_entries(cols.put(key@, column)).values =~= deep_entries(cols).put(
                        key@,
                        column.deep_view(),
                    ).values);
                }
                self.0.insert(key.to_owned(), column);
                self.0.len() - 1
            },
        };
        let ghost all = self.0@;
        proof {
            assert(deep_entries(all) == with_column(deep_entries(cols), key@, fresh));
            assert(all.keys[at as int] == key@);
            lemma_index_of(all.keys, at as int);
            lemma_deep_wf(cols);
            lemma_deep_wf(all);
        }
        let column = self.0.replace_value(at, VirtualDataColumn::Boolean(Vec::new()));
        assert(column == all.values[key@]);
        if row_path {
            match column {
                VirtualDataColumn::RowPath(rows) => {
                    let mut rows = rows;
                    write_row_path(&mut rows, index, value.to_scalar());
                    let written = VirtualDataColumn::RowPath(rows);
                    self.0.replace_value(at, written);
                    proof {
                        assert(self.0@.values =~= all.put(key@, written).values);
                        assert(deep_entries(all.put(key@, written)).values =~= deep_entries(
                            all,
                        ).put(key@, written.deep_view()).values);
                        lemma_deep_wf(self.0@);
                    }
                    Ok(())
                },
                other => {
                    self.0.replace_value(at, other);
                    proof {
                        assert(self.0@.values =~= all.values);
                        assert(cols.has_key(key@)) by {
                            if !cols.has_key(key@) {
                                assert(all.values[key@].deep_view() is RowPath);
                            }
                        }
                    }
                    Err(DataSliceError::RowPathType)
                },
            }
        } else {
            let mut column = column;
            let written = value.write_to(&mut column);
            self.0.replace_value(at, column);
            match written {
                Ok(()) => {
                    proof {
                        assert(self.0@.values =~= all.put(key@, column).values);
                        assert(deep_entries(all.put(key@, column)).values =~= deep_entries(all).put(
                            key@,
                            column.deep_view(),
                        ).values);
                        lemma_deep_wf(self.0@);
                    }
                    Ok(())
                },
                Err(_) => {
                    proof {
                        assert(cols.has_key(key@));
                        assert(deep_entries(self.0@).values =~= deep_entries(all).values);
                    }
                    Err(DataSliceError::BadType)
                },
            }
        }
    }

    /// The slice by rows: for each row, under every column's name the
    /// column's cell of that row, in the order of the columns. Columns that
    /// differ in length have no rows: the call fails.
    pub fn to_rows(&self) -> (rows: Result<Vec<OrderedMap<VirtualDataCell>>, DataSliceError>)
        ensures
            match rows {
                Ok(rows) => rectangular(self.deep_view()) && deep(rows@) == rows_of(
                    self.deep_view(),
                ),
                Err(e) => !rectangular(self.deep_view()) && e == DataSliceError::RaggedColumns,
            },
    {
        let ghost v = self.deep_view();
        let width = self.0.len();
        let height: usize = match self.0.get_index(0) {
            Some((_, col)) => col.len(),
            None => 0,
        };
        let mut j: usize = 0;
        while j < width
            invariant
                j <= width,
                width == self.0@.len(),
                self.0@.wf(),
                v == deep_entries(self.0@),
                height == row_count(v),
                forall|i: int| 0 <= i < j ==> (#[trigger] v.value_at(i)).len() == height,
            decreases width - j,
        {
            match self.0.get_index(j) {
                Some((_, col)) => {
                    if col.len() != height {
                        proof {
                            assert(v.value_at(j as int).len() != v.value_at(0).len());
                        }
                        return Err(DataSliceError::RaggedColumns);
                    }
                },
                None => {},
            }
            j = j + 1;
        }
        let mut rows: Vec<OrderedMap<VirtualDataCell>> = Vec::new();
        let mut r: usize = 0;
        while r < height
            invariant
                r <= height,
                width == self.0@.len(),
                self.0@.wf(),
                v == deep_entries(self.0@),
                height == row_count(v),
                forall|i: int| 0 <= i < width ==> (#[trigger] v.value_at(i)).len() == height,
                rows@.len() == r,
                deep(rows@) == rows_of(v).take(r as int),
            decreases height - r,
        {
            let mut row: OrderedMap<VirtualDataCell> = OrderedMap::new();
            let mut j: usize = 0;
            while j < width
                invariant
                    j <= width,
                    r < height,
                    width == self.0@.len(),
                    self.0@.wf(),
                    row@.wf(),
                    v == deep_entries(self.0@),
                    forall|i: int| 0 <= i < width ==> (#[trigger] v.value_at(i)).len() == height,
                    row@.keys == self.0@.keys.take(j as int),
                    forall|i: int|
                        0 <= i < j ==> (#[trigger] row@.value_at(i)).deep_view() == v.value_at(
                            i,
                        ).cell(r as int),
                decreases width - j,
            {
                let ghost before = row@;
                match self.0.get_index(j) {
                    Some((name, col)) => {
                        proof {
                            assert(v.value_at(j as int) == col.deep_view());
                            if before.keys.contains(name@) {
                                let i = before.keys.index_of(name@);
                                assert(self.0@.keys[i] == self.0@.keys[j as int]);
                            }
                        }
                        let cell = col.cell(r);
                        row.insert(name.clone(), cell);
                        proof {
                            assert(row@.keys =~= self.0@.keys.take(j + 1));
                            assert forall|i: int| 0 <= i < j + 1 implies (#[trigger] row@.value_at(
                                i,
                            )).deep_view() == v.value_at(i).cell(r as int) by {
                                if i < j {
                                    assert(before.keys[i] == self.0@.keys[i]);
                                    assert(before.value_at(i) == row@.value_at(i));
                                }
                            }
                        }
                    },
                    None => {},
                }
                j = j + 1;
            }
            proof {
                let target = row_of(v, r as int);
                let got = deep_entries(row@);
                assert(row@.keys =~= self.0@.keys);
                assert forall|k: Seq<char>| #[trigger] got.values.contains_key(k) implies target.values.contains_key(
                    k,
                ) && got.values[k] == target.values[k] by {
                    assert(row@.keys.contains(k));
                    let i = row@.keys.index_of(k);
                    assert(row@.value_at(i).deep_view() == v.value_at(i).cell(r as int));
                }
                assert forall|k: Seq<char>| #[trigger] target.values.contains_key(k) implies got.values.contains_key(
                    k,
                ) by {
                    assert(self.0@.keys.contains(k));
                }
                assert(got.values =~= target.values);
                lemma_deep_extend(rows@, row, rows_of(v), r as int);
            }
            rows.push(row);
            r = r + 1;
        }
        proof {
            assert(rows_of(v).take(height as int) =~= rows_of(v));
        }
        Ok(rows)
    }
}

/// Writing to a row behind the last one brings the rows between into being
/// with empty paths: the row path then has `index + 1` rows, the old rows
/// are what they were, the rows that were skipped are empty, and row `index`
/// holds the one scalar.
pub proof fn lemma_row_path_gap_fill(rows: Seq<Seq<ScalarView>>, index: int, s: ScalarView)
    requires
        rows.len() <= index,
    ensures
        row_path_written(rows, index, s).len() == index + 1,
        row_path_written(rows, index, s).take(rows.len() as int) == rows,
        forall|i: int|
            rows.len() <= i < index ==> #[trigger] row_path_written(rows, index, s)[i]
                == Seq::<ScalarView>::empty(),
        row_path_written(rows, index, s)[index] == seq![s],
{
    assert(row_path_written(rows, index, s).take(rows.len() as int) =~= rows);
}

} // verus!
