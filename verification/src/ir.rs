//! The internal representation (IR) of one data query, as this compiler
//! consumes it: collection, connector descriptor, optional aggregate
//! selection, optional ordering, pagination, and the parts that external
//! collaborators interpret (field selection, filter clause, arguments).

use vstd::prelude::*;
use nonempty::NonEmpty;

verus! {

/// The protocol version a connector supports.
#[derive(Clone, Copy, Debug, PartialEq, Eq, Structural)]
pub enum NdcVersion {
    V01,
    V02,
}

/// A reference to the backend connector a query is compiled for, with the
/// protocol version it supports.
#[derive(Debug)]
pub struct DataConnector {
    pub name: String,
    pub supported_ndc_version: NdcVersion,
}

impl DataConnector {
    /// An owned copy of the connector reference, equal to the original.
    pub fn duplicate(&self) -> (r: DataConnector)
        ensures
            r == *self,
    {
        DataConnector { name: self.name.clone(), supported_ndc_version: self.supported_ndc_version }
    }
}

/// The direction of one ordering element.
#[derive(Clone, Copy, Debug, PartialEq, Eq, Structural)]
pub enum OrderByDirection {
    Asc,
    Desc,
}

/// What one ordering element orders by: today always a column, optionally
/// reached through an ordered sequence of relationship names (root-to-leaf
/// traversal order).
#[derive(Debug)]
pub enum OrderByTarget {
    Column { name: String, relationship_path: Vec<String> },
}

/// One ordering element: a direction and a target.
#[derive(Debug)]
pub struct OrderByElement {
    pub order_direction: OrderByDirection,
    pub target: OrderByTarget,
}

/// The ordering clause of an IR node.
#[derive(Debug)]
pub struct ModelOrderBy {
    pub order_by_elements: Vec<OrderByElement>,
}

/// One aggregate selection: count all rows over an optional column path,
/// count distinct values, or apply a named aggregation function to a
/// non-empty column path.
#[derive(Debug)]
pub enum AggregateFieldSelection {
    Count { column_path: Vec<String> },
    CountDistinct { column_path: Vec<String> },
    AggregationFunction { function_name: String, column_path: NonEmpty<String> },
}

/// An ordered mapping from output field name to aggregate selection. The
/// field names are pairwise distinct (`wf`), as an ordered mapping demands.
#[derive(Debug)]
pub struct AggregateSelectionSet {
    pub fields: Vec<(String, AggregateFieldSelection)>,
}

impl AggregateSelectionSet {
    /// Well-formedness: output field names are pairwise distinct.
    pub open spec fn wf(&self) -> bool {
        forall|i: int, j: int|
            0 <= i < j < self.fields@.len() ==> self.fields@[i].0@ != self.fields@[j].0@
    }
}

/// One IR query node (consumed read-only). `Sel` is the field-selection tree,
/// `Filt` the filter clause and `Args` the arguments mapping; all three are
/// interpreted by external collaborators, never by this compiler.
#[derive(Debug)]
pub struct ModelSelection<Sel, Filt, Args> {
    pub collection: String,
    pub data_connector: DataConnector,
    pub selection: Option<Sel>,
    pub aggregate_selection: Option<AggregateSelectionSet>,
    pub filter_clause: Filt,
    pub order_by: Option<ModelOrderBy>,
    pub limit: Option<u32>,
    pub offset: Option<u32>,
    pub arguments: Args,
}

} // verus!
