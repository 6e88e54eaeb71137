//! Declarations and contracts for the outside crates this library leans on:
//! `nonempty` (the non-empty column path of a function aggregate) and
//! `indexmap` (the insertion-ordered map that carries the translated
//! aggregates).

use vstd::prelude::*;
use indexmap::IndexMap;
use nonempty::NonEmpty;
use crate::protocol::Aggregate;

verus! {

#[verifier::external_type_specification]
#[verifier::external_body]
#[verifier::reject_recursive_types(T)]
pub struct ExNonEmpty<T>(NonEmpty<T>);

#[verifier::external_type_specification]
#[verifier::external_body]
#[verifier::reject_recursive_types(K)]
#[verifier::reject_recursive_types(V)]
#[verifier::reject_recursive_types(S)]
pub struct ExIndexMap<K, V, S>(IndexMap<K, V, S>);

/// The elements a non-empty column path holds, in order, each as its sequence
/// of characters. A `NonEmpty` holds at least one element by construction.
pub uninterp spec fn ne_elements(ne: NonEmpty<String>) -> Seq<Seq<char>>;

/// Relies on `nonempty::NonEmpty`'s public fields: the value holds its first
/// element in `head` and the remaining elements in `tail`, so its elements are
/// the returned head followed by the tail — in particular, never empty.
#[verifier::external_body]
pub fn ne_head(ne: &NonEmpty<String>) -> (r: String)
    ensures
        ne_elements(*ne) == seq![r@] + ne_elements(*ne).skip(1),
{
    ne.head.clone()
}

/// Relies on `nonempty::NonEmpty`'s public `tail` field: the elements after
/// the first, in order.
#[verifier::external_body]
pub fn ne_tail(ne: &NonEmpty<String>) -> (r: Vec<String>)
    ensures
        r.deep_view() == ne_elements(*ne).skip(1),
{
    ne.tail.clone()
}

/// The entries an aggregates map holds, in insertion order: each output field
/// name (as its sequence of characters) with its aggregate descriptor.
pub uninterp spec fn aggregates_entries(m: IndexMap<String, Aggregate>) -> Seq<
    (Seq<char>, Aggregate),
>;

/// Relies on `indexmap::IndexMap::new`: a fresh map holds no entries.
#[verifier::external_body]
pub fn aggregates_new() -> (r: IndexMap<String, Aggregate>)
    ensures
        aggregates_entries(r) == Seq::<(Seq<char>, Aggregate)>::empty(),
{
    IndexMap::new()
}

/// Relies on `indexmap::IndexMap::insert`: when no equivalent key exists in
/// the map, the new pair is inserted last in order. (When the key already
/// exists, its value is replaced in place; no caller relies on that case.)
#[verifier::external_body]
pub fn aggregates_insert(m: &mut IndexMap<String, Aggregate>, key: String, value: Aggregate)
    ensures
        (forall|i: int|
            0 <= i < aggregates_entries(*old(m)).len() ==> aggregates_entries(*old(m))[i].0
                != key@) ==> aggregates_entries(*final(m)) == aggregates_entries(*old(m)).push(
            (key@, value),
        ),
{
    m.insert(key, value);
}

} // verus!
