//! What a handler can do, and how that is told on the wire.

use crate::deep::{deep, lemma_deep_extend, lemma_deep_push};
use crate::proto::ColumnType;
use vstd::prelude::*;

verus! {

/// An aggregate that a handler offers.
#[derive(Debug, PartialEq)]
pub enum AggSpec {
    /// An aggregate of the column alone.
    Single(String),
    /// An aggregate that takes further columns, of these types.
    Multiple(String, Vec<ColumnType>),
}

pub enum AggSpecView {
    Single(Seq<char>),
    Multiple(Seq<char>, Seq<ColumnType>),
}

impl DeepView for AggSpec {
    type V = AggSpecView;

    open spec fn deep_view(&self) -> AggSpecView {
        match self {
            AggSpec::Single(name) => AggSpecView::Single(name@),
            AggSpec::Multiple(name, types) => AggSpecView::Multiple(name@, types@),
        }
    }
}

/// The filter operators that a handler offers for one column type.
#[derive(Debug, PartialEq)]
pub struct FilterOptions {
    pub column_type: ColumnType,
    pub options: Vec<String>,
}

impl DeepView for FilterOptions {
    type V = (ColumnType, Seq<Seq<char>>);

    open spec fn deep_view(&self) -> (ColumnType, Seq<Seq<char>>) {
        (self.column_type, deep(self.options@))
    }
}

/// The aggregates that a handler offers for one column type.
#[derive(Debug, PartialEq)]
pub struct AggregateOptions {
    pub column_type: ColumnType,
    pub aggregates: Vec<AggSpec>,
}

impl DeepView for AggregateOptions {
    type V = (ColumnType, Seq<AggSpecView>);

    open spec fn deep_view(&self) -> (ColumnType, Seq<AggSpecView>) {
        (self.column_type, deep(self.aggregates@))
    }
}

/// No two entries stand under one key.
pub open spec fn distinct_first<K, X>(entries: Seq<(K, X)>) -> bool {
    forall|i: int, j: int|
        0 <= i < j < entries.len() ==> (#[trigger] entries[i]).0 != (#[trigger] entries[j]).0
}

/// Whether some entry stands under the column type.
pub open spec fn has_type<X>(entries: Seq<(ColumnType, X)>, t: ColumnType) -> bool {
    exists|i: int| 0 <= i < entries.len() && (#[trigger] entries[i]).0 == t
}

/// Where the entry of the column type stands; meaningful where `has_type`
/// holds.
pub open spec fn type_position<X>(entries: Seq<(ColumnType, X)>, t: ColumnType) -> int {
    choose|i: int| 0 <= i < entries.len() && (#[trigger] entries[i]).0 == t
}

/// The entries after `x` was set for the column type: an entry of that type
/// keeps its place and gets `x`, a new type goes last.
pub open spec fn with_entry<X>(entries: Seq<(ColumnType, X)>, t: ColumnType, x: X) -> Seq<
    (ColumnType, X),
> {
    if has_type(entries, t) {
        entries.update(type_position(entries, t), (t, x))
    } else {
        entries.push((t, x))
    }
}

/// Setting an entry leaves the column types distinct.
pub proof fn lemma_with_entry_distinct<X>(entries: Seq<(ColumnType, X)>, t: ColumnType, x: X)
    requires
        distinct_first(entries),
    ensures
        distinct_first(with_entry(entries, t, x)),
{
    let after = with_entry(entries, t, x);
    if has_type(entries, t) {
        let at = type_position(entries, t);
        assert(entries[at].0 == t);
        assert forall|i: int, j: int| 0 <= i < j < after.len() implies (#[trigger] after[i]).0 != (
        #[trigger] after[j]).0 by {
            assert(after[i].0 == entries[i].0);
            assert(after[j].0 == entries[j].0);
        }
    } else {
        assert forall|i: int, j: int| 0 <= i < j < after.len() implies (#[trigger] after[i]).0 != (
        #[trigger] after[j]).0 by {
            assert(after[i] == entries[i]);
            if j < entries.len() {
                assert(after[j] == entries[j]);
            }
        }
    }
}

fn place_options(entries: Vec<FilterOptions>, entry: FilterOptions) -> (out: Vec<FilterOptions>)
    requires
        distinct_first(deep(entries@)),
    ensures
        deep(out@) == with_entry(deep(entries@), entry.column_type, deep(entry.options@)),
        distinct_first(deep(out@)),
{
    let mut list = entries;
    let ghost before = deep(list@);
    let ghost all = list@;
    let t = entry.column_type;
    proof {
        lemma_with_entry_distinct(before, t, deep(entry.options@));
    }
    let mut i: usize = 0;
    while i < list.len()
        invariant
            i <= list.len(),
            list@ == all,
            all == entries@,
            before == deep(all),
            distinct_first(before),
            t == entry.column_type,
            forall|j: int| 0 <= j < i ==> (#[trigger] before[j]).0 != t,
        decreases list.len() - i,
    {
        if list[i].column_type == t {
            list.push(entry);
            let _ = list.swap_remove(i);
            proof {
                assert(before[i as int].0 == t);
                let at = type_position(before, t);
                assert(before[at].0 == t);
                assert(at == i) by {
                    if at < i {
                        assert(before[at].0 != before[i as int].0);
                    } else if i < at {
                        assert(before[i as int].0 != before[at].0);
                    }
                }
                assert(deep(list@) =~= before.update(at, entry.deep_view()));
            }
            return list;
        }
        i = i + 1;
    }
    proof {
        if has_type(before, t) {
            let at = type_position(before, t);
            assert(before[at].0 == t);
        }
        lemma_deep_push(list@, entry);
    }
    list.push(entry);
    list
}

fn place_aggregates(entries: Vec<AggregateOptions>, entry: AggregateOptions) -> (out: Vec<
    AggregateOptions,
>)
    requires
        distinct_first(deep(entries@)),
    ensures
        deep(out@) == with_entry(deep(entries@), entry.column_type, deep(entry.aggregates@)),
        distinct_first(deep(out@)),
{
    let mut list = entries;
    let ghost before = deep(list@);
    let ghost all = list@;
    let t = entry.column_type;
    proof {
        lemma_with_entry_distinct(before, t, deep(entry.aggregates@));
    }
    let mut i: usize = 0;
    while i < list.len()
        invariant
            i <= list.len(),
            list@ == all,
            all == entries@,
            before == deep(all),
            distinct_first(before),
            t == entry.column_type,
            forall|j: int| 0 <= j < i ==> (#[trigger] before[j]).0 != t,
        decreases list.len() - i,
    {
        if list[i].column_type == t {
            list.push(entry);
            let _ = list.swap_remove(i);
            proof {
                assert(before[i as int].0 == t);
                let at = type_position(before, t);
                assert(before[at].0 == t);
                assert(at == i) by {
                    if at < i {
                        assert(before[at].0 != before[i as int].0);
                    } else if i < at {
                        assert(before[i as int].0 != before[at].0);
                    }
                }
                assert(deep(list@) =~= before.update(at, entry.deep_view()));
            }
            return list;
        }
        i = i + 1;
    }
    proof {
        if has_type(before, t) {
            let at = type_position(before, t);
            assert(before[at].0 == t);
        }
        lemma_deep_push(list@, entry);
    }
    list.push(entry);
    list
}

/// What a handler can do. Each column type has at most one entry of filter
/// operators and one of aggregates.
#[derive(Debug, PartialEq)]
pub struct Features {
    /// Whether views can be grouped.
    pub group_by: bool,
    /// Whether views can be split.
    pub split_by: bool,
    filter_ops: Vec<FilterOptions>,
    aggregates: Vec<AggregateOptions>,
    /// Whether views can be sorted.
    pub sort: bool,
    /// Whether views can hold expressions.
    pub expressions: bool,
    /// Whether updates are announced.
    pub on_update: bool,
}

pub struct FeaturesView {
    pub group_by: bool,
    pub split_by: bool,
    /// The filter operators, by column type.
    pub filter_ops: Seq<(ColumnType, Seq<Seq<char>>)>,
    /// The aggregates, by column type.
    pub aggregates: Seq<(ColumnType, Seq<AggSpecView>)>,
    pub sort: bool,
    pub expressions: bool,
    pub on_update: bool,
}

impl FeaturesView {
    /// No column type has two entries of filter operators or of aggregates.
    pub open spec fn wf(self) -> bool {
        distinct_first(self.filter_ops) && distinct_first(self.aggregates)
    }
}

impl DeepView for Features {
    type V = FeaturesView;

    closed spec fn deep_view(&self) -> FeaturesView {
        FeaturesView {
            group_by: self.group_by,
            split_by: self.split_by,
            filter_ops: deep(self.filter_ops@),
            aggregates: deep(self.aggregates@),
            sort: self.sort,
            expressions: self.expressions,
            on_update: self.on_update,
        }
    }
}

impl Default for Features {
    /// A handler that offers nothing.
    fn default() -> (features: Self)
        ensures
            features.deep_view() == (FeaturesView {
                group_by: false,
                split_by: false,
                filter_ops: Seq::empty(),
                aggregates: Seq::empty(),
                sort: false,
                expressions: false,
                on_update: false,
            }),
            features.deep_view().wf(),
    {
        let features = Features {
            group_by: false,
            split_by: false,
            filter_ops: Vec::new(),
            aggregates: Vec::new(),
            sort: false,
            expressions: false,
            on_update: false,
        };
        proof {
            assert(features.deep_view().filter_ops =~= Seq::empty());
            assert(features.deep_view().aggregates =~= Seq::empty());
        }
        features
    }
}

/// An aggregate as the wire names it: the name, and the codes of the types
/// of its further columns.
#[derive(Debug, PartialEq)]
pub struct AggregateArgs {
    pub name: String,
    pub args: Vec<i32>,
}

impl DeepView for AggregateArgs {
    type V = (Seq<char>, Seq<i32>);

    open spec fn deep_view(&self) -> (Seq<char>, Seq<i32>) {
        (self.name@, self.args@)
    }
}

/// The filter operators of one column type, by the type's code.
#[derive(Debug, PartialEq)]
pub struct ColumnTypeOptions {
    pub column_type: u32,
    pub options: Vec<String>,
}

impl DeepView for ColumnTypeOptions {
    type V = (u32, Seq<Seq<char>>);

    open spec fn deep_view(&self) -> (u32, Seq<Seq<char>>) {
        (self.column_type, deep(self.options@))
    }
}

/// The aggregates of one column type, by the type's code.
#[derive(Debug, PartialEq)]
pub struct ColumnTypeAggregates {
    pub column_type: u32,
    pub aggregates: Vec<AggregateArgs>,
}

impl DeepView for ColumnTypeAggregates {
    type V = (u32, Seq<(Seq<char>, Seq<i32>)>);

    open spec fn deep_view(&self) -> (u32, Seq<(Seq<char>, Seq<i32>)>) {
        (self.column_type, deep(self.aggregates@))
    }
}

/// What a handler can do, as the wire tells it.
#[derive(Debug, PartialEq)]
pub struct GetFeaturesResp {
    pub group_by: bool,
    pub split_by: bool,
    pub expressions: bool,
    pub on_update: bool,
    pub sort: bool,
    pub aggregates: Vec<ColumnTypeAggregates>,
    pub filter_ops: Vec<ColumnTypeOptions>,
}

pub struct GetFeaturesRespView {
    pub group_by: bool,
    pub split_by: bool,
    pub expressions: bool,
    pub on_update: bool,
    pub sort: bool,
    pub aggregates: Seq<(u32, Seq<(Seq<char>, Seq<i32>)>)>,
    pub filter_ops: Seq<(u32, Seq<Seq<char>>)>,
}

impl DeepView for GetFeaturesResp {
    type V = GetFeaturesRespView;

    open spec fn deep_view(&self) -> GetFeaturesRespView {
        GetFeaturesRespView {
            group_by: self.group_by,
            split_by: self.split_by,
            expressions: self.expressions,
            on_update: self.on_update,
            sort: self.sort,
            aggregates: deep(self.aggregates@),
            filter_ops: deep(self.filter_ops@),
        }
    }
}

/// The codes of column types.
pub open spec fn type_codes(types: Seq<ColumnType>) -> Seq<i32> {
    Seq::new(types.len(), |i: int| types[i].spec_code() as i32)
}

/// An aggregate as the wire names it. One of the column alone has no
/// further types.
pub open spec fn aggregate_args(agg: AggSpecView) -> (Seq<char>, Seq<i32>) {
    match agg {
        AggSpecView::Single(name) => (name, Seq::empty()),
        AggSpecView::Multiple(name, types) => (name, type_codes(types)),
    }
}

/// The aggregates of one column type as the wire tells them.
pub open spec fn aggregates_to_wire(entry: (ColumnType, Seq<AggSpecView>)) -> (
    u32,
    Seq<(Seq<char>, Seq<i32>)>,
) {
    (entry.0.spec_code() as u32, Seq::new(entry.1.len(), |i: int| aggregate_args(entry.1[i])))
}

/// The filter operators of one column type as the wire tells them.
pub open spec fn options_to_wire(entry: (ColumnType, Seq<Seq<char>>)) -> (u32, Seq<Seq<char>>) {
    (entry.0.spec_code() as u32, entry.1)
}

/// What a handler can do, as the wire tells it: the flags as they are, the
/// column types by their codes.
pub open spec fn features_to_wire(f: FeaturesView) -> GetFeaturesRespView {
    GetFeaturesRespView {
        group_by: f.group_by,
        split_by: f.split_by,
        expressions: f.expressions,
        on_update: f.on_update,
        sort: f.sort,
        aggregates: Seq::new(f.aggregates.len(), |i: int| aggregates_to_wire(f.aggregates[i])),
        filter_ops: Seq::new(f.filter_ops.len(), |i: int| options_to_wire(f.filter_ops[i])),
    }
}

fn codes_of(types: &Vec<ColumnType>) -> (codes: Vec<i32>)
    ensures
        codes@ == type_codes(types@),
{
    let mut codes: Vec<i32> = Vec::new();
    let mut i: usize = 0;
    while i < types.len()
        invariant
            i <= types.len(),
            codes@ == type_codes(types@).take(i as int),
        decreases types.len() - i,
    {
        codes.push(types[i].code());
        proof {
            assert(codes@ =~= type_codes(types@).take(i + 1));
        }
        i = i + 1;
    }
    proof {
        assert(type_codes(types@).take(types.len() as int) =~= type_codes(types@));
    }
    codes
}

fn aggregates_of(column_type: ColumnType, aggregates: Vec<AggSpec>) -> (out: ColumnTypeAggregates)
    ensures
        out.deep_view() == aggregates_to_wire((column_type, deep(aggregates@))),
{
    let ghost all = aggregates@;
    let ghost target = aggregates_to_wire((column_type, deep(all))).1;
    let mut out: Vec<AggregateArgs> = Vec::new();
    for agg in it: aggregates.into_iter()
        invariant
            it.seq() == all,
            target == aggregates_to_wire((column_type, deep(all))).1,
            out@.len() == it.index(),
            deep(out@) == target.take(it.index() as int),
    {
        let args = match agg {
            AggSpec::Single(name) => AggregateArgs { name, args: Vec::new() },
            AggSpec::Multiple(name, types) => AggregateArgs { name, args: codes_of(&types) },
        };
        proof {
            assert(args.deep_view().1 =~= aggregate_args(agg.deep_view()).1);
            lemma_deep_extend(out@, args, target, it.index() as int);
        }
        out.push(args);
    }
    proof {
        assert(target.take(all.len() as int) =~= target);
    }
    ColumnTypeAggregates { column_type: column_type.code() as u32, aggregates: out }
}

/// The column types of a wire list are distinct where those of the list
/// that it tells are.
proof fn lemma_codes_distinct<X, Y>(entries: Seq<(ColumnType, X)>, wire: Seq<(u32, Y)>)
    requires
        distinct_first(entries),
        wire.len() == entries.len(),
        forall|i: int| 0 <= i < wire.len() ==> (#[trigger] wire[i]).0 == entries[i].0.spec_code() as u32,
    ensures
        distinct_first(wire),
{
    assert forall|i: int, j: int| 0 <= i < j < wire.len() implies (#[trigger] wire[i]).0 != (
    #[trigger] wire[j]).0 by {
        assert(entries[i].0 != entries[j].0);
    }
}

impl Features {
    #[verifier::type_invariant]
    closed spec fn distinct_types(&self) -> bool {
        distinct_first(deep(self.filter_ops@)) && distinct_first(deep(self.aggregates@))
    }

    /// The filter operators, by column type.
    pub fn filter_ops(&self) -> (list: &Vec<FilterOptions>)
        ensures
            deep(list@) == self.deep_view().filter_ops,
            self.deep_view().wf(),
    {
        proof {
            use_type_invariant(self);
        }
        &self.filter_ops
    }

    /// The aggregates, by column type.
    pub fn aggregates(&self) -> (list: &Vec<AggregateOptions>)
        ensures
            deep(list@) == self.deep_view().aggregates,
            self.deep_view().wf(),
    {
        proof {
            use_type_invariant(self);
        }
        &self.aggregates
    }

    /// Sets the filter operators of a column type, in place of those that
    /// were set for it before.
    pub fn set_filter_ops(&mut self, column_type: ColumnType, options: Vec<String>)
        ensures
            final(self).deep_view() == (FeaturesView {
                filter_ops: with_entry(
                    old(self).deep_view().filter_ops,
                    column_type,
                    deep(options@),
                ),
                ..old(self).deep_view()
            }),
            old(self).deep_view().wf(),
            final(self).deep_view().wf(),
    {
        let mut taken = Features::default();
        std::mem::swap(self, &mut taken);
        proof {
            use_type_invariant(&taken);
        }
        let Features { group_by, split_by, filter_ops, aggregates, sort, expressions, on_update } =
            taken;
        let filter_ops = place_options(filter_ops, FilterOptions { column_type, options });
        *self = Features { group_by, split_by, filter_ops, aggregates, sort, expressions, on_update };
    }

    /// Sets the aggregates of a column type, in place of those that were
    /// set for it before.
    pub fn set_aggregates(&mut self, column_type: ColumnType, aggregates: Vec<AggSpec>)
        ensures
            final(self).deep_view() == (FeaturesView {
                aggregates: with_entry(
                    old(self).deep_view().aggregates,
                    column_type,
                    deep(aggregates@),
                ),
                ..old(self).deep_view()
            }),
            old(self).deep_view().wf(),
            final(self).deep_view().wf(),
    {
        let mut taken = Features::default();
        std::mem::swap(self, &mut taken);
        proof {
            use_type_invariant(&taken);
        }
        let ghost set = deep(aggregates@);
        let entry = AggregateOptions { column_type, aggregates };
        let Features { group_by, split_by, filter_ops, aggregates, sort, expressions, on_update } =
            taken;
        let aggregates = place_aggregates(aggregates, entry);
        *self = Features { group_by, split_by, filter_ops, aggregates, sort, expressions, on_update };
    }

    /// The features as the wire tells them. No column type is told twice.
    pub fn to_wire(self) -> (resp: GetFeaturesResp)
        ensures
            resp.deep_view() == features_to_wire(self.deep_view()),
            self.deep_view().wf(),
            distinct_first(resp.deep_view().filter_ops),
            distinct_first(resp.deep_view().aggregates),
    {
        proof {
            use_type_invariant(&self);
        }
        let ghost f = self.deep_view();
        let ghost target = features_to_wire(f);
        proof {
            lemma_codes_distinct(f.filter_ops, target.filter_ops);
            lemma_codes_distinct(f.aggregates, target.aggregates);
        }
        let Features { group_by, split_by, filter_ops: options, aggregates: offered, sort, expressions, on_update } =
            self;
        let ghost all_aggregates = offered@;
        let ghost all_options = options@;
        let mut aggregates: Vec<ColumnTypeAggregates> = Vec::new();
        for entry in it: offered.into_iter()
            invariant
                it.seq() == all_aggregates,
                f.aggregates == deep(all_aggregates),
                target == features_to_wire(f),
                aggregates@.len() == it.index(),
                deep(aggregates@) == target.aggregates.take(it.index() as int),
        {
            let wire = aggregates_of(entry.column_type, entry.aggregates);
            proof {
                lemma_deep_extend(aggregates@, wire, target.aggregates, it.index() as int);
            }
            aggregates.push(wire);
        }
        let mut filter_ops: Vec<ColumnTypeOptions> = Vec::new();
        for entry in it: options.into_iter()
            invariant
                it.seq() == all_options,
                f.filter_ops == deep(all_options),
                target == features_to_wire(f),
                filter_ops@.len() == it.index(),
                deep(filter_ops@) == target.filter_ops.take(it.index() as int),
        {
            let wire = ColumnTypeOptions {
                column_type: entry.column_type.code() as u32,
                options: entry.options,
            };
            proof {
                lemma_deep_extend(filter_ops@, wire, target.filter_ops, it.index() as int);
            }
            filter_ops.push(wire);
        }
        proof {
            assert(target.aggregates.take(all_aggregates.len() as int) =~= target.aggregates);
            assert(target.filter_ops.take(all_options.len() as int) =~= target.filter_ops);
        }
        GetFeaturesResp { group_by, split_by, expressions, on_update, sort, aggregates, filter_ops }
    }
}

} // verus!
