//! The configuration of a view: what it shows, groups, splits, aggregates,
//! sorts and filters.

use crate::deep::{clone_vec, deep, DeepClone};
use crate::filters::{Filter, FilterReducer, FilterView};
use crate::ordered_map::{Entries, OrderedMap};
use vstd::prelude::*;

verus! {

/// How the rows of a group collapse into one value.
#[derive(Debug, PartialEq)]
pub enum Aggregate {
    /// An aggregate of the column itself.
    SingleAggregate(String),
    /// An aggregate that takes further columns.
    MultiAggregate(String, Vec<String>),
}

pub enum AggregateView {
    SingleAggregate(Seq<char>),
    MultiAggregate(Seq<char>, Seq<Seq<char>>),
}

impl DeepView for Aggregate {
    type V = AggregateView;

    open spec fn deep_view(&self) -> AggregateView {
        match self {
            Aggregate::SingleAggregate(name) => AggregateView::SingleAggregate(name@),
            Aggregate::MultiAggregate(name, args) => AggregateView::MultiAggregate(
                name@,
                deep(args@),
            ),
        }
    }
}

impl DeepClone for Aggregate {
    fn deep_clone(&self) -> (copy: Self) {
        match self {
            Aggregate::SingleAggregate(name) => Aggregate::SingleAggregate(name.clone()),
            Aggregate::MultiAggregate(name, args) => Aggregate::MultiAggregate(
                name.clone(),
                clone_vec(args),
            ),
        }
    }
}

impl AggregateView {
    /// The name of the aggregate function.
    pub open spec fn name(self) -> Seq<char> {
        match self {
            AggregateView::SingleAggregate(name) => name,
            AggregateView::MultiAggregate(name, _) => name,
        }
    }
}

/// The direction of a sort.
#[derive(Clone, Copy, Debug, PartialEq, Eq, Structural)]
pub enum SortDir {
    Unsorted,
    Asc,
    Desc,
    ColAsc,
    ColDesc,
    AscAbs,
    DescAbs,
    ColAscAbs,
    ColDescAbs,
}

/// A sort: the column and the direction.
#[derive(Debug, PartialEq)]
pub struct Sort(pub String, pub SortDir);

impl DeepView for Sort {
    type V = (Seq<char>, SortDir);

    open spec fn deep_view(&self) -> (Seq<char>, SortDir) {
        (self.0@, self.1)
    }
}

impl DeepClone for Sort {
    fn deep_clone(&self) -> (copy: Self) {
        Sort(self.0.clone(), self.1)
    }
}

/// The configuration of a view.
#[derive(Debug)]
pub struct ViewConfig {
    /// The columns to show; `None` holds a place open.
    pub columns: Vec<Option<String>>,
    pub group_by: Vec<String>,
    pub split_by: Vec<String>,
    /// The aggregate of a column, by the column's name.
    pub aggregates: OrderedMap<Aggregate>,
    pub sort: Vec<Sort>,
    pub filter: Vec<Filter>,
    pub filter_op: FilterReducer,
    /// The expression behind a name.
    pub expressions: OrderedMap<String>,
}

pub struct ViewConfigView {
    pub columns: Seq<Option<Seq<char>>>,
    pub group_by: Seq<Seq<char>>,
    pub split_by: Seq<Seq<char>>,
    pub aggregates: Entries<AggregateView>,
    pub sort: Seq<(Seq<char>, SortDir)>,
    pub filter: Seq<FilterView>,
    pub filter_op: FilterReducer,
    pub expressions: Entries<Seq<char>>,
}

impl DeepView for ViewConfig {
    type V = ViewConfigView;

    open spec fn deep_view(&self) -> ViewConfigView {
        ViewConfigView {
            columns: deep(self.columns@),
            group_by: deep(self.group_by@),
            split_by: deep(self.split_by@),
            aggregates: self.aggregates.deep_view(),
            sort: deep(self.sort@),
            filter: deep(self.filter@),
            filter_op: self.filter_op,
            expressions: self.expressions.deep_view(),
        }
    }
}

impl DeepClone for ViewConfig {
    fn deep_clone(&self) -> (copy: Self) {
        ViewConfig {
            columns: clone_vec(&self.columns),
            group_by: clone_vec(&self.group_by),
            split_by: clone_vec(&self.split_by),
            aggregates: self.aggregates.deep_clone(),
            sort: clone_vec(&self.sort),
            filter: clone_vec(&self.filter),
            filter_op: self.filter_op,
            expressions: self.expressions.deep_clone(),
        }
    }
}

impl Default for ViewConfig {
    fn default() -> (config: Self)
        ensures
            config.deep_view() == (ViewConfigView {
                columns: Seq::empty(),
                group_by: Seq::empty(),
                split_by: Seq::empty(),
                aggregates: Entries::empty(),
                sort: Seq::empty(),
                filter: Seq::empty(),
                filter_op: FilterReducer::And,
                expressions: Entries::empty(),
            }),
    {
        let config = ViewConfig {
            columns: Vec::new(),
            group_by: Vec::new(),
            split_by: Vec::new(),
            aggregates: OrderedMap::new(),
            sort: Vec::new(),
            filter: Vec::new(),
            filter_op: FilterReducer::And,
            expressions: OrderedMap::new(),
        };
        proof {
            let v = config.deep_view();
            assert(v.columns =~= Seq::empty());
            assert(v.group_by =~= Seq::empty());
            assert(v.split_by =~= Seq::empty());
            assert(v.aggregates.values =~= Map::empty());
            assert(v.sort =~= Seq::empty());
            assert(v.filter =~= Seq::empty());
            assert(v.expressions.values =~= Map::empty());
        }
        config
    }
}

} // verus!
