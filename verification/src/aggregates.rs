//! The aggregate translator: a pure, total function from an ordered aggregate
//! selection to an ordered mapping of output field name to protocol aggregate
//! descriptor. All branching is on input shape only; it cannot fail.

use vstd::prelude::*;
use indexmap::IndexMap;
use crate::ir::AggregateFieldSelection;
use crate::ir::AggregateSelectionSet;
use crate::outside::aggregates_entries;
use crate::outside::aggregates_insert;
use crate::outside::aggregates_new;
use crate::outside::ne_elements;
use crate::outside::ne_head;
use crate::outside::ne_tail;
use crate::protocol::Aggregate;

verus! {

/// The nested field path `fp` is exactly `rest`: absent when `rest` is empty,
/// never an empty sequence.
pub open spec fn nested_path_of(rest: Seq<Seq<char>>, fp: Option<Vec<String>>) -> bool {
    if rest.len() == 0 {
        fp is None
    } else {
        fp matches Some(v) && v.deep_view() == rest
    }
}

/// `r` is the count descriptor for the column path `path`: a star count when
/// the path is empty, else a column count on the path's head with the rest as
/// nested field path.
pub open spec fn count_descriptor(path: Seq<Seq<char>>, distinct: bool, r: Aggregate) -> bool {
    if path.len() == 0 {
        r is StarCount
    } else {
        r matches Aggregate::ColumnCount { column, field_path, distinct: d } && column@ == path[0]
            && nested_path_of(path.skip(1), field_path) && d == distinct
    }
}

/// `r` is the single-column descriptor applying `function` to the non-empty
/// column path `path`.
pub open spec fn function_descriptor(function: Seq<char>, path: Seq<Seq<char>>, r: Aggregate) -> bool {
    path.len() > 0 && (r matches Aggregate::SingleColumn { column, field_path, function: f }
        && column@ == path[0] && nested_path_of(path.skip(1), field_path) && f@ == function)
}

/// `r` is the protocol descriptor of the one aggregate selection `sel`.
pub open spec fn aggregate_of(sel: AggregateFieldSelection, r: Aggregate) -> bool {
    match sel {
        AggregateFieldSelection::Count { column_path } => count_descriptor(
            column_path.deep_view(),
            false,
            r,
        ),
        AggregateFieldSelection::CountDistinct { column_path } => count_descriptor(
            column_path.deep_view(),
            true,
            r,
        ),
        AggregateFieldSelection::AggregationFunction { function_name, column_path } => function_descriptor(
            function_name@,
            ne_elements(column_path),
            r,
        ),
    }
}

/// The output map `m` translates the selection set `s`: same keys, in the same
/// order, each mapped to the descriptor of its selection.
pub open spec fn aggregates_match(s: AggregateSelectionSet, m: IndexMap<String, Aggregate>) -> bool {
    &&& aggregates_entries(m).len() == s.fields@.len()
    &&& forall|i: int|
        0 <= i < s.fields@.len() ==> (#[trigger] aggregates_entries(m)[i]).0 == s.fields@[i].0@
            && aggregate_of(s.fields@[i].1, aggregates_entries(m)[i].1)
}

/// Creates the appropriate count aggregation: a star count when no column is
/// selected, else a column count on the first path element with the remaining
/// elements as nested field path.
pub fn ndc_count_aggregate(column_path: &Vec<String>, distinct: bool) -> (r: Aggregate)
    ensures
        count_descriptor(column_path.deep_view(), distinct, r),
{
    if column_path.len() == 0 {
        Aggregate::StarCount
    } else {
        let column = column_path[0].clone();
        let mut remaining_path: Vec<String> = Vec::new();
        let mut i: usize = 1;
        while i < column_path.len()
            invariant
                1 <= i <= column_path@.len(),
                remaining_path@.len() == i - 1,
                forall|j: int| 0 <= j < i - 1 ==> remaining_path@[j]@ == column_path@[j + 1]@,
            decreases column_path@.len() - i,
        {
            remaining_path.push(column_path[i].clone());
            i = i + 1;
        }
        proof {
            assert(remaining_path.deep_view() =~= column_path.deep_view().skip(1));
        }
        let nested_field_path = if remaining_path.len() == 0 {
            None
        } else {
            Some(remaining_path)
        };
        Aggregate::ColumnCount { column, field_path: nested_field_path, distinct }
    }
}

/// Translates one aggregate selection into its protocol descriptor.
pub fn ndc_aggregate(selection: &AggregateFieldSelection) -> (r: Aggregate)
    ensures
        aggregate_of(*selection, r),
{
    match selection {
        AggregateFieldSelection::Count { column_path } => ndc_count_aggregate(column_path, false),
        AggregateFieldSelection::CountDistinct { column_path } => ndc_count_aggregate(
            column_path,
            true,
        ),
        AggregateFieldSelection::AggregationFunction { function_name, column_path } => {
            let column = ne_head(column_path);
            let field_path = ne_tail(column_path);
            let nested_field_path = if field_path.len() == 0 {
                None
            } else {
                Some(field_path)
            };
            Aggregate::SingleColumn {
                column,
                field_path: nested_field_path,
                function: function_name.clone(),
            }
        },
    }
}

/// Translates an ordered aggregate selection set into the protocol aggregates
/// map: exactly the same keys, in the same order, each mapped to the
/// descriptor of its selection.
pub fn ndc_aggregates(aggregate_selection_set: &AggregateSelectionSet) -> (r: IndexMap<
    String,
    Aggregate,
>)
    requires
        aggregate_selection_set.wf(),
    ensures
        aggregates_match(*aggregate_selection_set, r),
{
    let mut m = aggregates_new();
    let mut i: usize = 0;
    while i < aggregate_selection_set.fields.len()
        invariant
            aggregate_selection_set.wf(),
            0 <= i <= aggregate_selection_set.fields@.len(),
            aggregates_entries(m).len() == i,
            forall|j: int|
                0 <= j < i ==> (#[trigger] aggregates_entries(m)[j]).0
                    == aggregate_selection_set.fields@[j].0@ && aggregate_of(
                    aggregate_selection_set.fields@[j].1,
                    aggregates_entries(m)[j].1,
                ),
        decreases aggregate_selection_set.fields@.len() - i,
    {
        let entry = &aggregate_selection_set.fields[i];
        let aggregate = ndc_aggregate(&entry.1);
        proof {
            assert forall|k: int| 0 <= k < aggregates_entries(m).len() implies (
            #[trigger] aggregates_entries(m)[k]).0 != entry.0@ by {
                assert(aggregates_entries(m)[k].0 == aggregate_selection_set.fields@[k].0@);
            }
        }
        aggregates_insert(&mut m, entry.0.clone(), aggregate);
        i = i + 1;
    }
    m
}

/// Two nested field paths hold the same contents.
pub open spec fn opt_path_obs_eq(a: Option<Vec<String>>, b: Option<Vec<String>>) -> bool {
    match (a, b) {
        (None, None) => true,
        (Some(x), Some(y)) => x.deep_view() == y.deep_view(),
        _ => false,
    }
}

/// Two aggregate descriptors are structurally equal: same shape, same column
/// and function characters, same nested path contents, same distinct flag.
pub open spec fn aggregate_obs_eq(a: Aggregate, b: Aggregate) -> bool {
    match (a, b) {
        (Aggregate::StarCount, Aggregate::StarCount) => true,
        (
            Aggregate::ColumnCount { column: c1, field_path: f1, distinct: d1 },
            Aggregate::ColumnCount { column: c2, field_path: f2, distinct: d2 },
        ) => c1@ == c2@ && opt_path_obs_eq(f1, f2) && d1 == d2,
        (
            Aggregate::SingleColumn { column: c1, field_path: f1, function: g1 },
            Aggregate::SingleColumn { column: c2, field_path: f2, function: g2 },
        ) => c1@ == c2@ && opt_path_obs_eq(f1, f2) && g1@ == g2@,
        _ => false,
    }
}

/// Two aggregates maps are structurally equal: same keys in the same order,
/// structurally equal descriptors.
pub open spec fn aggregates_obs_eq(
    m1: IndexMap<String, Aggregate>,
    m2: IndexMap<String, Aggregate>,
) -> bool {
    &&& aggregates_entries(m1).len() == aggregates_entries(m2).len()
    &&& forall|i: int|
        0 <= i < aggregates_entries(m1).len() ==> (#[trigger] aggregates_entries(m1)[i]).0
            == aggregates_entries(m2)[i].0 && aggregate_obs_eq(
            aggregates_entries(m1)[i].1,
            aggregates_entries(m2)[i].1,
        )
}

/// The aggregate translation is deterministic: one selection allows only one
/// descriptor, up to structural equality.
pub proof fn lemma_aggregate_of_deterministic(
    sel: AggregateFieldSelection,
    a: Aggregate,
    b: Aggregate,
)
    requires
        aggregate_of(sel, a),
        aggregate_of(sel, b),
    ensures
        aggregate_obs_eq(a, b),
{
}

/// Translating one selection set twice yields structurally equal aggregates
/// maps, whatever else went on between the two translations.
pub proof fn lemma_aggregates_deterministic(
    s: AggregateSelectionSet,
    m1: IndexMap<String, Aggregate>,
    m2: IndexMap<String, Aggregate>,
)
    requires
        aggregates_match(s, m1),
        aggregates_match(s, m2),
    ensures
        aggregates_obs_eq(m1, m2),
{
    assert forall|i: int| 0 <= i < aggregates_entries(m1).len() implies (
    #[trigger] aggregates_entries(m1)[i]).0 == aggregates_entries(m2)[i].0 && aggregate_obs_eq(
        aggregates_entries(m1)[i].1,
        aggregates_entries(m2)[i].1,
    ) by {
        lemma_aggregate_of_deterministic(
            s.fields@[i].1,
            aggregates_entries(m1)[i].1,
            aggregates_entries(m2)[i].1,
        );
    }
}

/// The output aggregate map has exactly the same keys, in the same order, as
/// the input selection set.
pub proof fn lemma_aggregates_preserve_keys(s: AggregateSelectionSet, m: IndexMap<String, Aggregate>)
    requires
        aggregates_match(s, m),
    ensures
        aggregates_entries(m).map_values(|e: (Seq<char>, Aggregate)| e.0) == s.fields@.map_values(
            |e: (String, AggregateFieldSelection)| e.0@,
        ),
{
    let keys_out = aggregates_entries(m).map_values(|e: (Seq<char>, Aggregate)| e.0);
    let keys_in = s.fields@.map_values(|e: (String, AggregateFieldSelection)| e.0@);
    assert(keys_out =~= keys_in);
}

} // verus!
