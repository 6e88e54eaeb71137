//! The protocol-facing descriptors this compiler produces: aggregate
//! descriptors and ordering descriptors, as the standardized query protocol
//! shared by all connectors states them.

use vstd::prelude::*;

verus! {

/// A protocol aggregate descriptor: count all rows ("star count"), count a
/// (possibly nested) column's values, or apply a named function to a
/// (possibly nested) column.
///
/// A nested field path is represented as absent, never as an empty sequence,
/// to match protocol optionality conventions.
#[derive(Clone, Debug, PartialEq, Eq)]
pub enum Aggregate {
    ColumnCount { column: String, field_path: Option<Vec<String>>, distinct: bool },
    SingleColumn { column: String, field_path: Option<Vec<String>>, function: String },
    StarCount,
}

/// The direction of one protocol ordering element.
#[derive(Clone, Copy, Debug, PartialEq, Eq, Structural)]
pub enum OrderDirection {
    Asc,
    Desc,
}

/// A predicate expression attached to a relationship hop. The only shape this
/// compiler emits is the empty conjunction (trivially true): predicate-scoped
/// partial sorting is a reserved future capability.
#[derive(Debug)]
pub enum Expression {
    And { expressions: Vec<Expression> },
}

/// The arguments carried by one relationship hop. No hop argument is ever
/// produced at this stage, so the type holds nothing; it stands explicit so
/// the protocol field is present.
#[derive(Clone, Copy, Debug, PartialEq, Eq, Structural)]
pub struct PathArguments {}

/// One hop of a relationship traversal path: the relationship name, the hop's
/// (empty) arguments, and a trivially-true join condition.
#[derive(Debug)]
pub struct PathElement {
    pub relationship: String,
    pub arguments: PathArguments,
    pub predicate: Option<Expression>,
}

/// What one protocol ordering element orders by: a column, reached through a
/// (possibly empty) relationship traversal path. Nested field-path navigation
/// is not supported for ordering in the current design, so `field_path` is
/// always absent.
#[derive(Debug)]
pub enum OrderByTarget {
    Column { name: String, path: Vec<PathElement>, field_path: Option<Vec<String>> },
}

/// One protocol ordering element.
#[derive(Debug)]
pub struct OrderByElement {
    pub order_direction: OrderDirection,
    pub target: OrderByTarget,
}

/// The protocol ordering descriptor: the elements, in input order.
#[derive(Debug)]
pub struct OrderBy {
    pub elements: Vec<OrderByElement>,
}

} // verus!
