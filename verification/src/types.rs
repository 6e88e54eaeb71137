//! The output side of the compiler: one query node of the execution plan, and
//! the execution plan itself.

use vstd::prelude::*;
use std::collections::BTreeMap;
use indexmap::IndexMap;
use crate::ir::DataConnector;
use crate::protocol::Aggregate;
use crate::protocol::OrderBy;

verus! {

/// A reserved grouping descriptor. Grouping is not compiled at this stage, so
/// no value of it is ever produced: the `groups` field of every query node is
/// absent. The type stands explicit so the protocol field is present for
/// forward compatibility.
#[derive(Clone, Copy, Debug, PartialEq, Eq, Structural)]
pub struct Grouping {}

/// A reserved set of query variables. This compiler never sets one: the
/// `variables` slot of every execution plan is absent.
#[derive(Clone, Copy, Debug, PartialEq, Eq, Structural)]
pub struct VariableSet {}

/// One output query node. `Fields` is the planned fields map and `Expr` the
/// planned predicate expression, both produced by external collaborators.
#[derive(Debug)]
pub struct QueryNode<Fields, Expr> {
    pub limit: Option<u32>,
    pub offset: Option<u32>,
    pub order_by: Option<OrderBy>,
    pub predicate: Option<Expr>,
    pub aggregates: Option<IndexMap<String, Aggregate>>,
    pub fields: Option<Fields>,
    pub groups: Option<Grouping>,
}

/// The final execution plan for one top-level query: the root query node, the
/// collection it runs against, the translated arguments, the full
/// relationship registry collected during compilation, an (always absent)
/// variables slot, and the connector the plan is addressed to.
#[derive(Debug)]
pub struct QueryExecutionPlan<Fields, Expr, NdcArgs, Rel> {
    pub query_node: QueryNode<Fields, Expr>,
    pub collection: String,
    pub arguments: NdcArgs,
    pub collection_relationships: BTreeMap<String, Rel>,
    pub variables: Option<VariableSet>,
    pub data_connector: DataConnector,
}

} // verus!
