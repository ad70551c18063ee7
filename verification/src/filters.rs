//! Scalars, filter operands, filter operators and filters, and their passage
//! to and from the wire.

use crate::deep::{deep, DeepClone};
use crate::number::Float;
use crate::proto;
use crate::text::{join, join_strings, push_signed_decimal, signed_decimal};
use vstd::prelude::*;

verus! {

/// A single value: a filter's operand, or one step of a row path.
#[derive(Debug, PartialEq)]
pub enum Scalar {
    Float(Float),
    String(String),
    Bool(bool),
    /// Milliseconds since the epoch.
    DateTime(i64),
    Null,
}

pub enum ScalarView {
    Float(Seq<char>),
    String(Seq<char>),
    Bool(bool),
    DateTime(i64),
    Null,
}

impl View for Scalar {
    type V = ScalarView;

    open spec fn view(&self) -> ScalarView {
        match self {
            Scalar::Float(x) => ScalarView::Float(x@),
            Scalar::String(x) => ScalarView::String(x@),
            Scalar::Bool(x) => ScalarView::Bool(*x),
            Scalar::DateTime(x) => ScalarView::DateTime(*x),
            Scalar::Null => ScalarView::Null,
        }
    }
}

impl DeepView for Scalar {
    type V = ScalarView;

    open spec fn deep_view(&self) -> ScalarView {
        self@
    }
}

impl DeepClone for Scalar {
    fn deep_clone(&self) -> (copy: Self) {
        self.clone()
    }
}

impl Default for Scalar {
    fn default() -> (s: Self)
        ensures
            s@ == ScalarView::Null,
    {
        Scalar::Null
    }
}

impl Clone for Scalar {
    fn clone(&self) -> (c: Self)
        ensures
            c@ == self@,
    {
        match self {
            Scalar::Float(x) => Scalar::Float(x.clone()),
            Scalar::String(x) => Scalar::String(x.clone()),
            Scalar::Bool(x) => Scalar::Bool(*x),
            Scalar::DateTime(x) => Scalar::DateTime(*x),
            Scalar::Null => Scalar::Null,
        }
    }
}

/// The text that shows a scalar: its value, and nothing for `Null`.
pub open spec fn scalar_text(s: ScalarView) -> Seq<char> {
    match s {
        ScalarView::Float(x) => x,
        ScalarView::String(x) => x,
        ScalarView::Bool(x) => if x {
            "true"@
        } else {
            "false"@
        },
        ScalarView::DateTime(x) => signed_decimal(x as int),
        ScalarView::Null => Seq::empty(),
    }
}

/// A scalar as the wire holds it.
pub open spec fn scalar_to_wire(s: ScalarView) -> Option<proto::ScalarValueView> {
    Some(
        match s {
            ScalarView::Float(x) => proto::ScalarValueView::Float(x),
            ScalarView::String(x) => proto::ScalarValueView::String(x),
            ScalarView::Bool(x) => proto::ScalarValueView::Bool(x),
            ScalarView::DateTime(x) => proto::ScalarValueView::Datetime(x),
            ScalarView::Null => proto::ScalarValueView::Null(0),
        },
    )
}

/// The scalar that a wire scalar stands for. Integers become numbers, dates
/// become points in time, and a scalar without payload is `Null`.
pub open spec fn scalar_from_wire(w: Option<proto::ScalarValueView>) -> ScalarView {
    match w {
        Some(proto::ScalarValueView::Bool(x)) => ScalarView::Bool(x),
        Some(proto::ScalarValueView::String(x)) => ScalarView::String(x),
        Some(proto::ScalarValueView::Int(x)) => ScalarView::Float(signed_decimal(x as int)),
        Some(proto::ScalarValueView::Date(x)) => ScalarView::DateTime(x),
        Some(proto::ScalarValueView::Float(x)) => ScalarView::Float(x),
        Some(proto::ScalarValueView::Datetime(x)) => ScalarView::DateTime(x),
        Some(proto::ScalarValueView::Null(_)) => ScalarView::Null,
        None => ScalarView::Null,
    }
}

impl Scalar {
    /// The text that shows the scalar.
    pub fn to_string(&self) -> (out: String)
        ensures
            out@ == scalar_text(self@),
    {
        match self {
            Scalar::Float(x) => x.as_str().to_owned(),
            Scalar::String(x) => x.clone(),
            Scalar::Bool(x) => if *x {
                "true".to_owned()
            } else {
                "false".to_owned()
            },
            Scalar::DateTime(x) => {
                let mut out = String::new();
                push_signed_decimal(&mut out, *x);
                assert(out@ =~= signed_decimal(*x as int));
                out
            },
            Scalar::Null => String::new(),
        }
    }

    /// The scalar as the wire holds it.
    pub fn to_wire(self) -> (w: proto::Scalar)
        ensures
            w@ == scalar_to_wire(self@),
    {
        proto::Scalar {
            scalar: Some(
                match self {
                    Scalar::Float(x) => proto::ScalarValue::Float(x),
                    Scalar::String(x) => proto::ScalarValue::String(x),
                    Scalar::Bool(x) => proto::ScalarValue::Bool(x),
                    Scalar::DateTime(x) => proto::ScalarValue::Datetime(x),
                    Scalar::Null => proto::ScalarValue::Null(0),
                },
            ),
        }
    }

    /// The scalar that a wire scalar stands for.
    pub fn from_wire(w: proto::Scalar) -> (s: Self)
        ensures
            s@ == scalar_from_wire(w@),
    {
        match w.scalar {
            Some(proto::ScalarValue::Bool(x)) => Scalar::Bool(x),
            Some(proto::ScalarValue::String(x)) => Scalar::String(x),
            Some(proto::ScalarValue::Int(x)) => Scalar::Float(Float::from_i64(x)),
            Some(proto::ScalarValue::Date(x)) => Scalar::DateTime(x),
            Some(proto::ScalarValue::Float(x)) => Scalar::Float(x),
            Some(proto::ScalarValue::Datetime(x)) => Scalar::DateTime(x),
            Some(proto::ScalarValue::Null(_)) => Scalar::Null,
            None => Scalar::Null,
        }
    }
}

/// The operand of a filter: one value, or a list of values.
#[derive(Debug, PartialEq)]
pub enum FilterTerm {
    Array(Vec<Scalar>),
    Scalar(Scalar),
}

pub enum FilterTermView {
    Array(Seq<ScalarView>),
    Scalar(ScalarView),
}

impl View for FilterTerm {
    type V = FilterTermView;

    open spec fn view(&self) -> FilterTermView {
        match self {
            FilterTerm::Array(xs) => FilterTermView::Array(deep(xs@)),
            FilterTerm::Scalar(x) => FilterTermView::Scalar(x@),
        }
    }
}

impl DeepView for FilterTerm {
    type V = FilterTermView;

    open spec fn deep_view(&self) -> FilterTermView {
        self@
    }
}

impl DeepClone for FilterTerm {
    fn deep_clone(&self) -> (copy: Self) {
        self.clone()
    }
}

impl Default for FilterTerm {
    fn default() -> (t: Self)
        ensures
            t@ == FilterTermView::Scalar(ScalarView::Null),
    {
        FilterTerm::Scalar(Scalar::Null)
    }
}

impl Clone for FilterTerm {
    fn clone(&self) -> (c: Self)
        ensures
            c@ == self@,
    {
        match self {
            FilterTerm::Array(xs) => FilterTerm::Array(crate::deep::clone_vec(xs)),
            FilterTerm::Scalar(x) => FilterTerm::Scalar(x.clone()),
        }
    }
}

/// The texts of the scalars.
pub open spec fn scalar_texts(xs: Seq<ScalarView>) -> Seq<Seq<char>> {
    xs.map_values(|x: ScalarView| scalar_text(x))
}

/// The scalars as the wire holds them.
pub open spec fn scalars_to_wire(xs: Seq<ScalarView>) -> Seq<Option<proto::ScalarValueView>> {
    xs.map_values(|x: ScalarView| scalar_to_wire(x))
}

/// The scalars that wire scalars stand for.
pub open spec fn scalars_from_wire(ws: Seq<Option<proto::ScalarValueView>>) -> Seq<ScalarView> {
    ws.map_values(|w: Option<proto::ScalarValueView>| scalar_from_wire(w))
}

/// The text that shows an operand: a scalar's text, or the texts of a list's
/// scalars with commas between them.
pub open spec fn term_text(t: FilterTermView) -> Seq<char> {
    match t {
        FilterTermView::Scalar(x) => scalar_text(x),
        FilterTermView::Array(xs) => join(scalar_texts(xs), seq![',']),
    }
}

/// The scalars that stand for an operand on the wire.
pub open spec fn term_to_wire(t: FilterTermView) -> Seq<Option<proto::ScalarValueView>> {
    match t {
        FilterTermView::Scalar(x) => seq![scalar_to_wire(x)],
        FilterTermView::Array(xs) => scalars_to_wire(xs),
    }
}

/// Whether an operand is a list.
pub open spec fn term_is_list(t: FilterTermView) -> bool {
    t is Array
}

/// The operand that wire scalars stand for: a single value where they are
/// one scalar that is not marked as a list, else a list.
pub open spec fn term_from_wire(
    ws: Seq<Option<proto::ScalarValueView>>,
    list: bool,
) -> FilterTermView {
    if !list && ws.len() == 1 {
        FilterTermView::Scalar(scalar_from_wire(ws[0]))
    } else {
        FilterTermView::Array(scalars_from_wire(ws))
    }
}

fn wire_scalars(xs: Vec<Scalar>) -> (out: Vec<proto::Scalar>)
    ensures
        deep(out@) == scalars_to_wire(deep(xs@)),
{
    let ghost all = xs@;
    let mut out: Vec<proto::Scalar> = Vec::new();
    for x in it: xs.into_iter()
        invariant
            it.seq() == all,
            out@.len() == it.index(),
            deep(out@) == scalars_to_wire(deep(all)).take(it.index() as int),
    {
        let ghost prev = out@;
        out.push(x.to_wire());
        proof {
            let i = it.index() as int;
            let target = scalars_to_wire(deep(all));
            assert forall|j: int| 0 <= j < out@.len() implies deep(out@)[j]
                == target.take(i + 1)[j] by {
                if j < i {
                    assert(deep(prev)[j] == target.take(i)[j]);
                }
            }
            assert(deep(out@) =~= target.take(i + 1));
        }
    }
    proof {
        let target = scalars_to_wire(deep(all));
        assert(target.take(all.len() as int) =~= target);
    }
    out
}

fn scalars_of_wire(ws: Vec<proto::Scalar>) -> (out: Vec<Scalar>)
    ensures
        deep(out@) == scalars_from_wire(deep(ws@)),
{
    let ghost all = ws@;
    let mut out: Vec<Scalar> = Vec::new();
    for w in it: ws.into_iter()
        invariant
            it.seq() == all,
            out@.len() == it.index(),
            deep(out@) == scalars_from_wire(deep(all)).take(
                it.index() as int,
            ),
    {
        let ghost prev = out@;
        out.push(Scalar::from_wire(w));
        proof {
            let i = it.index() as int;
            let target = scalars_from_wire(deep(all));
            assert forall|j: int| 0 <= j < out@.len() implies deep(out@)[j] == target.take(
                i + 1,
            )[j] by {
                if j < i {
                    assert(deep(prev)[j] == target.take(i)[j]);
                }
            }
            assert(deep(out@) =~= target.take(i + 1));
        }
    }
    proof {
        let target = scalars_from_wire(deep(all));
        assert(target.take(all.len() as int) =~= target);
    }
    out
}

impl FilterTerm {
    /// The text that shows the operand.
    pub fn to_string(&self) -> (out: String)
        ensures
            out@ == term_text(self@),
    {
        match self {
            FilterTerm::Scalar(x) => x.to_string(),
            FilterTerm::Array(xs) => {
                let mut parts: Vec<String> = Vec::new();
                let mut i: usize = 0;
                while i < xs.len()
                    invariant
                        i <= xs.len(),
                        parts@.len() == i,
                        deep(parts@) == scalar_texts(deep(xs@)).take(
                            i as int,
                        ),
                    decreases xs.len() - i,
                {
                    let ghost prev = parts@;
                    parts.push(xs[i].to_string());
                    proof {
                        let target = scalar_texts(deep(xs@));
                        assert forall|j: int| 0 <= j < parts@.len() implies deep(
                            parts@,
                        )[j] == target.take(i + 1)[j] by {
                            if j < i {
                                assert(deep(prev)[j] == target.take(i as int)[j]);
                            }
                        }
                        assert(deep(parts@) =~= target.take(i + 1));
                    }
                    i = i + 1;
                }
                proof {
                    let target = scalar_texts(deep(xs@));
                    assert(target.take(xs.len() as int) =~= target);
                    reveal_strlit(",");
                    assert(","@ =~= seq![',']);
                }
                join_strings(&parts, ",")
            },
        }
    }

    /// The scalars that stand for the operand on the wire.
    pub fn to_wire(self) -> (ws: Vec<proto::Scalar>)
        ensures
            deep(ws@) == term_to_wire(self@),
    {
        match self {
            FilterTerm::Scalar(x) => {
                let mut ws: Vec<proto::Scalar> = Vec::new();
                ws.push(x.to_wire());
                proof {
                    assert(deep(ws@) =~= seq![scalar_to_wire(x@)]);
                }
                ws
            },
            FilterTerm::Array(xs) => wire_scalars(xs),
        }
    }

    /// Whether the operand is a list.
    pub fn is_list(&self) -> (list: bool)
        ensures
            list == term_is_list(self@),
    {
        match self {
            FilterTerm::Array(_) => true,
            FilterTerm::Scalar(_) => false,
        }
    }

    /// The operand that wire scalars stand for; `list` says whether they
    /// are a list.
    pub fn from_wire(ws: Vec<proto::Scalar>, list: bool) -> (t: Self)
        ensures
            t@ == term_from_wire(deep(ws@), list),
    {
        if !list && ws.len() == 1 {
            let mut ws = ws;
            let w = ws.pop().unwrap();
            FilterTerm::Scalar(Scalar::from_wire(w))
        } else {
            FilterTerm::Array(scalars_of_wire(ws))
        }
    }
}

/// The operator of a filter.
#[derive(Clone, Copy, Debug, PartialEq, Eq, Structural)]
pub enum FilterOp {
    Contains,
    In,
    NotIn,
    BeginsWith,
    EndsWith,
    IsNull,
    IsNotNull,
    Gt,
    Lt,
    Eq,
    Ge,
    Le,
    Ne,
}

/// The operator that a wire code stands for, if it stands for one.
pub open spec fn op_from_code(code: u32) -> Option<FilterOp> {
    if code == 0 {
        Some(FilterOp::Contains)
    } else if code == 1 {
        Some(FilterOp::In)
    } else if code == 2 {
        Some(FilterOp::NotIn)
    } else if code == 3 {
        Some(FilterOp::BeginsWith)
    } else if code == 4 {
        Some(FilterOp::EndsWith)
    } else if code == 5 {
        Some(FilterOp::IsNull)
    } else if code == 6 {
        Some(FilterOp::IsNotNull)
    } else if code == 7 {
        Some(FilterOp::Gt)
    } else if code == 8 {
        Some(FilterOp::Lt)
    } else if code == 9 {
        Some(FilterOp::Eq)
    } else if code == 10 {
        Some(FilterOp::Ge)
    } else if code == 11 {
        Some(FilterOp::Le)
    } else if code == 12 {
        Some(FilterOp::Ne)
    } else {
        None
    }
}

/// The operator that a text names, if it names one.
pub open spec fn op_from_text(text: Seq<char>) -> Option<FilterOp> {
    if text == "contains"@ {
        Some(FilterOp::Contains)
    } else if text == "in"@ {
        Some(FilterOp::In)
    } else if text == "not in"@ {
        Some(FilterOp::NotIn)
    } else if text == "begins with"@ {
        Some(FilterOp::BeginsWith)
    } else if text == "ends with"@ {
        Some(FilterOp::EndsWith)
    } else if text == "is null"@ {
        Some(FilterOp::IsNull)
    } else if text == "is not null"@ {
        Some(FilterOp::IsNotNull)
    } else if text == ">"@ {
        Some(FilterOp::Gt)
    } else if text == "<"@ {
        Some(FilterOp::Lt)
    } else if text == "=="@ {
        Some(FilterOp::Eq)
    } else if text == ">="@ {
        Some(FilterOp::Ge)
    } else if text == "<="@ {
        Some(FilterOp::Le)
    } else if text == "!="@ {
        Some(FilterOp::Ne)
    } else {
        None
    }
}

impl FilterOp {
    /// The operator that `text` names; `None` for a text that names none.
    pub fn parse(text: &str) -> (op: Option<FilterOp>)
        ensures
            op == op_from_text(text@),
    {
        if text.eq("contains") {
            Some(FilterOp::Contains)
        } else if text.eq("in") {
            Some(FilterOp::In)
        } else if text.eq("not in") {
            Some(FilterOp::NotIn)
        } else if text.eq("begins with") {
            Some(FilterOp::BeginsWith)
        } else if text.eq("ends with") {
            Some(FilterOp::EndsWith)
        } else if text.eq("is null") {
            Some(FilterOp::IsNull)
        } else if text.eq("is not null") {
            Some(FilterOp::IsNotNull)
        } else if text.eq(">") {
            Some(FilterOp::Gt)
        } else if text.eq("<") {
            Some(FilterOp::Lt)
        } else if text.eq("==") {
            Some(FilterOp::Eq)
        } else if text.eq(">=") {
            Some(FilterOp::Ge)
        } else if text.eq("<=") {
            Some(FilterOp::Le)
        } else if text.eq("!=") {
            Some(FilterOp::Ne)
        } else {
            None
        }
    }

    /// The operator's text, which shows it and stands for it in a query.
    pub open spec fn text(self) -> Seq<char> {
        match self {
            FilterOp::Contains => "contains"@,
            FilterOp::In => "in"@,
            FilterOp::NotIn => "not in"@,
            FilterOp::BeginsWith => "begins with"@,
            FilterOp::EndsWith => "ends with"@,
            FilterOp::IsNull => "is null"@,
            FilterOp::IsNotNull => "is not null"@,
            FilterOp::Gt => ">"@,
            FilterOp::Lt => "<"@,
            FilterOp::Eq => "=="@,
            FilterOp::Ge => ">="@,
            FilterOp::Le => "<="@,
            FilterOp::Ne => "!="@,
        }
    }

    /// The number that stands for the operator on the wire.
    pub open spec fn spec_code(self) -> u32 {
        match self {
            FilterOp::Contains => 0,
            FilterOp::In => 1,
            FilterOp::NotIn => 2,
            FilterOp::BeginsWith => 3,
            FilterOp::EndsWith => 4,
            FilterOp::IsNull => 5,
            FilterOp::IsNotNull => 6,
            FilterOp::Gt => 7,
            FilterOp::Lt => 8,
            FilterOp::Eq => 9,
            FilterOp::Ge => 10,
            FilterOp::Le => 11,
            FilterOp::Ne => 12,
        }
    }

    pub fn as_str(&self) -> (s: &'static str)
        ensures
            s@ == self.text(),
    {
        match self {
            FilterOp::Contains => "contains",
            FilterOp::In => "in",
            FilterOp::NotIn => "not in",
            FilterOp::BeginsWith => "begins with",
            FilterOp::EndsWith => "ends with",
            FilterOp::IsNull => "is null",
            FilterOp::IsNotNull => "is not null",
            FilterOp::Gt => ">",
            FilterOp::Lt => "<",
            FilterOp::Eq => "==",
            FilterOp::Ge => ">=",
            FilterOp::Le => "<=",
            FilterOp::Ne => "!=",
        }
    }

    #[verifier::when_used_as_spec(spec_code)]
    pub fn code(self) -> (c: u32)
        ensures
            c == self.spec_code(),
    {
        match self {
            FilterOp::Contains => 0,
            FilterOp::In => 1,
            FilterOp::NotIn => 2,
            FilterOp::BeginsWith => 3,
            FilterOp::EndsWith => 4,
            FilterOp::IsNull => 5,
            FilterOp::IsNotNull => 6,
            FilterOp::Gt => 7,
            FilterOp::Lt => 8,
            FilterOp::Eq => 9,
            FilterOp::Ge => 10,
            FilterOp::Le => 11,
            FilterOp::Ne => 12,
        }
    }

    /// The operator that `code` stands for; `None` for a code that stands
    /// for none.
    pub fn from_code(code: u32) -> (op: Option<FilterOp>)
        ensures
            op == op_from_code(code),
    {
        if code == 0 {
            Some(FilterOp::Contains)
        } else if code == 1 {
            Some(FilterOp::In)
        } else if code == 2 {
            Some(FilterOp::NotIn)
        } else if code == 3 {
            Some(FilterOp::BeginsWith)
        } else if code == 4 {
            Some(FilterOp::EndsWith)
        } else if code == 5 {
            Some(FilterOp::IsNull)
        } else if code == 6 {
            Some(FilterOp::IsNotNull)
        } else if code == 7 {
            Some(FilterOp::Gt)
        } else if code == 8 {
            Some(FilterOp::Lt)
        } else if code == 9 {
            Some(FilterOp::Eq)
        } else if code == 10 {
            Some(FilterOp::Ge)
        } else if code == 11 {
            Some(FilterOp::Le)
        } else if code == 12 {
            Some(FilterOp::Ne)
        } else {
            None
        }
    }
}

/// A wire filter whose operator code stands for no operator.
#[derive(Clone, Copy, Debug, PartialEq, Eq, Structural)]
pub struct UnknownFilterOp(pub u32);

/// A condition on one column: the column, the operator, the operand.
#[derive(Debug, PartialEq)]
pub struct Filter(String, FilterOp, FilterTerm);

pub struct FilterView {
    pub column: Seq<char>,
    pub op: FilterOp,
    pub term: FilterTermView,
}

impl View for Filter {
    type V = FilterView;

    closed spec fn view(&self) -> FilterView {
        FilterView { column: self.0@, op: self.1, term: self.2@ }
    }
}

impl Clone for Filter {
    fn clone(&self) -> (c: Self)
        ensures
            c@ == self@,
    {
        Filter(self.0.clone(), self.1, self.2.clone())
    }
}

impl DeepView for Filter {
    type V = FilterView;

    open spec fn deep_view(&self) -> FilterView {
        self@
    }
}

impl DeepClone for Filter {
    fn deep_clone(&self) -> (copy: Self) {
        self.clone()
    }
}

/// A filter as the wire holds it.
pub open spec fn filter_to_wire(f: FilterView) -> proto::FilterView {
    proto::FilterView {
        column: f.column,
        op: f.op.spec_code(),
        value: term_to_wire(f.term),
        list: term_is_list(f.term),
    }
}

/// The filter that a wire filter stands for, or its operator code where that
/// stands for no operator.
pub open spec fn filter_from_wire(w: proto::FilterView) -> Result<FilterView, UnknownFilterOp> {
    match op_from_code(w.op) {
        Some(op) => Ok(
            FilterView { column: w.column, op, term: term_from_wire(w.value, w.list) },
        ),
        None => Err(UnknownFilterOp(w.op)),
    }
}

impl Filter {
    pub fn new(column: String, op: FilterOp, term: FilterTerm) -> (f: Self)
        ensures
            f@ == (FilterView { column: column@, op, term: term@ }),
    {
        Filter(column, op, term)
    }

    pub fn column(&self) -> (c: &str)
        ensures
            c@ == self@.column,
    {
        self.0.as_str()
    }

    /// The operator's text.
    pub fn op(&self) -> (o: &str)
        ensures
            o@ == self@.op.text(),
    {
        self.1.as_str()
    }

    pub fn operator(&self) -> (o: FilterOp)
        ensures
            o == self@.op,
    {
        self.1
    }

    pub fn term(&self) -> (t: &FilterTerm)
        ensures
            t@ == self@.term,
    {
        &self.2
    }

    pub fn column_mut(&mut self) -> (c: &mut String)
        ensures
            c@ == old(self)@.column,
            final(self)@ == (FilterView { column: final(c)@, ..old(self)@ }),
    {
        &mut self.0
    }

    pub fn op_mut(&mut self) -> (o: &mut FilterOp)
        ensures
            *o == old(self)@.op,
            final(self)@ == (FilterView { op: *final(o), ..old(self)@ }),
    {
        &mut self.1
    }

    pub fn term_mut(&mut self) -> (t: &mut FilterTerm)
        ensures
            t@ == old(self)@.term,
            final(self)@ == (FilterView { term: final(t)@, ..old(self)@ }),
    {
        &mut self.2
    }

    /// The filter as the wire holds it.
    pub fn to_wire(self) -> (w: proto::Filter)
        ensures
            w@ == filter_to_wire(self@),
    {
        let list = self.2.is_list();
        proto::Filter { column: self.0, op: self.1.code(), value: self.2.to_wire(), list }
    }

    /// The filter that a wire filter stands for. A wire filter whose
    /// operator code stands for no operator is refused.
    pub fn from_wire(w: proto::Filter) -> (f: Result<Self, UnknownFilterOp>)
        ensures
            match f {
                Ok(filter) => filter_from_wire(w@) == Ok::<FilterView, UnknownFilterOp>(filter@),
                Err(e) => filter_from_wire(w@) == Err::<FilterView, UnknownFilterOp>(e),
            },
    {
        match FilterOp::from_code(w.op) {
            Some(op) => Ok(Filter(w.column, op, FilterTerm::from_wire(w.value, w.list))),
            None => Err(UnknownFilterOp(w.op)),
        }
    }
}

/// How the filters of a view combine.
#[derive(Clone, Copy, Debug, PartialEq, Eq, Structural)]
pub enum FilterReducer {
    And,
    Or,
}

impl Default for FilterReducer {
    fn default() -> (r: Self)
        ensures
            r == FilterReducer::And,
    {
        FilterReducer::And
    }
}

/// A scalar that goes to the wire and comes back is the scalar it was.
pub proof fn lemma_scalar_round_trip(s: ScalarView)
    ensures
        scalar_from_wire(scalar_to_wire(s)) == s,
{
}

/// An operator that goes to its wire code and comes back is the operator it
/// was.
pub proof fn lemma_op_round_trip(op: FilterOp)
    ensures
        op_from_code(op.spec_code()) == Some(op),
{
}

/// The text of an operator names that operator.
pub proof fn lemma_op_text_round_trip(op: FilterOp)
    ensures
        op_from_text(op.text()) == Some(op),
{
    reveal_strlit("contains");
    reveal_strlit("in");
    reveal_strlit("not in");
    reveal_strlit("begins with");
    reveal_strlit("ends with");
    reveal_strlit("is null");
    reveal_strlit("is not null");
    reveal_strlit(">");
    reveal_strlit("<");
    reveal_strlit("==");
    reveal_strlit(">=");
    reveal_strlit("<=");
    reveal_strlit("!=");
    let t = op.text();
    match op {
        FilterOp::Contains => {},
        FilterOp::In => {
            assert(t.len() != "contains"@.len());
        },
        FilterOp::NotIn => {
            assert(t.len() == 6);
        },
        FilterOp::BeginsWith => {
            assert(t.len() == 11);
            assert(t[0] == 'b');
        },
        FilterOp::EndsWith => {
            assert(t.len() == 9);
        },
        FilterOp::IsNull => {
            assert(t.len() == 7);
        },
        FilterOp::IsNotNull => {
            assert(t.len() == 11);
            assert(t[0] == 'i');
            assert("begins with"@[0] == 'b');
        },
        FilterOp::Gt => {
            assert(t.len() == 1);
        },
        FilterOp::Lt => {
            assert(t.len() == 1);
            assert(t[0] == '<');
            assert(">"@[0] == '>');
        },
        FilterOp::Eq => {
            assert(t.len() == 2);
            assert(t[0] == '=');
            assert("in"@[0] == 'i');
        },
        FilterOp::Ge => {
            assert(t.len() == 2);
            assert(t[0] == '>');
            assert("in"@[0] == 'i');
            assert("=="@[0] == '=');
        },
        FilterOp::Le => {
            assert(t.len() == 2);
            assert(t[0] == '<');
            assert("in"@[0] == 'i');
            assert("=="@[0] == '=');
            assert(">="@[0] == '>');
        },
        FilterOp::Ne => {
            assert(t.len() == 2);
            assert(t[0] == '!');
            assert("in"@[0] == 'i');
            assert("=="@[0] == '=');
            assert(">="@[0] == '>');
            assert("<="@[0] == '<');
        },
    }
}

/// An operand that goes to the wire and comes back is the operand it was:
/// a list comes back as a list, whatever its length, and a single value as
/// a single value.
pub proof fn lemma_term_round_trip(t: FilterTermView)
    ensures
        term_from_wire(term_to_wire(t), term_is_list(t)) == t,
{
    match t {
        FilterTermView::Scalar(x) => {},
        FilterTermView::Array(xs) => {
            assert(scalars_from_wire(scalars_to_wire(xs)) =~= xs);
        },
    }
}

/// A filter that goes to the wire and comes back is the filter it was.
pub proof fn lemma_filter_round_trip(f: FilterView)
    ensures
        filter_from_wire(filter_to_wire(f)) == Ok::<FilterView, UnknownFilterOp>(f),
{
    lemma_op_round_trip(f.op);
    lemma_term_round_trip(f.term);
}

} // verus!
