//! The query node builder and the execution plan assembler: the recursive
//! orchestrator that assembles one output query node per IR node, and the
//! entry point that packages the final execution plan.
//!
//! Field-selection planning, filter planning, relationship discovery and
//! argument planning are external collaborators, reached through the
//! [`Collaborators`] trait. Any collaborator failure aborts construction
//! immediately and propagates unchanged: no partial node or plan is returned.

use vstd::prelude::*;
use std::collections::BTreeMap;
use indexmap::IndexMap;
use crate::aggregates::aggregates_match;
use crate::aggregates::aggregates_obs_eq;
use crate::aggregates::lemma_aggregates_deterministic;
use crate::aggregates::ndc_aggregates;
use crate::counter::MonotonicCounter;
use crate::ir::ModelSelection;
use crate::ir::NdcVersion;
use crate::join_tree::JoinLocations;
use crate::order_by::ndc_order_by;
use crate::order_by::lemma_order_by_deterministic;
use crate::order_by::order_by_obs_eq;
use crate::order_by::order_by_of;
use crate::protocol::Aggregate;
use crate::types::QueryExecutionPlan;
use crate::types::QueryNode;

verus! {

/// The external collaborators one compilation delegates to. Each method takes
/// the registry (and, for selection planning, the counter) by exclusive
/// reference, so nested recursion inside a collaborator shares the same
/// relationship map and identifier space. Each may fail with a structural
/// error, which the compiler propagates unchanged.
pub trait Collaborators: Sized {
    /// The IR field-selection tree.
    type Selection;

    /// The IR filter clause.
    type FilterClause;

    /// The IR arguments mapping.
    type Arguments;

    /// The planned fields map of one query node.
    type Fields;

    /// The planned predicate expression.
    type FilterExpression;

    /// The translated connector arguments.
    type NdcArguments;

    /// One relationship definition in the registry.
    type Relationship;

    /// One remote join descriptor in the join placeholder tree.
    type RemoteJoin;

    /// The structural error any collaborator may fail with.
    type Error;

    /// Plans the field selection of one IR node: its fields map and the join
    /// placeholders its nested levels produced.
    fn plan_selection_set(
        &mut self,
        selection: &Self::Selection,
        join_id_counter: &mut MonotonicCounter,
        ndc_version: NdcVersion,
        relationships: &mut BTreeMap<String, Self::Relationship>,
    ) -> Result<(Self::Fields, JoinLocations<Self::RemoteJoin>), Self::Error>;

    /// Plans the filter clause of one IR node into an optional predicate.
    fn plan_filter_expression(
        &mut self,
        filter: &Self::FilterClause,
        relationships: &mut BTreeMap<String, Self::Relationship>,
    ) -> Result<Option<Self::FilterExpression>, Self::Error>;

    /// Walks the whole IR once and inserts every referenced relationship name
    /// and definition into the registry.
    fn collect_relationships(
        &mut self,
        ir: &ModelSelection<Self::Selection, Self::FilterClause, Self::Arguments>,
        relationships: &mut BTreeMap<String, Self::Relationship>,
    ) -> Result<(), Self::Error>;

    /// Translates the arguments mapping for the connector.
    fn plan_ndc_arguments(
        &mut self,
        arguments: &Self::Arguments,
        ndc_version: NdcVersion,
        relationships: &mut BTreeMap<String, Self::Relationship>,
    ) -> Result<Self::NdcArguments, Self::Error>;
}

/// The output node `node` is the translation of the IR node `ir`: limit and
/// offset pass through unchanged, ordering and aggregates are the (pure)
/// translations of their IR counterparts, fields are present exactly when the
/// IR carries a field selection, and grouping is always absent at this stage.
pub open spec fn node_matches<Sel, Filt, Args, Fields, Expr>(
    ir: ModelSelection<Sel, Filt, Args>,
    node: QueryNode<Fields, Expr>,
) -> bool {
    &&& node.limit == ir.limit
    &&& node.offset == ir.offset
    &&& match ir.order_by {
        Some(ob) => node.order_by matches Some(r) && order_by_of(ob.order_by_elements@, r),
        None => node.order_by is None,
    }
    &&& match ir.aggregate_selection {
        Some(s) => node.aggregates matches Some(m) && aggregates_match(s, m),
        None => node.aggregates is None,
    }
    &&& (ir.selection is Some <==> node.fields is Some)
    &&& node.groups is None
}

/// Two output query nodes are structurally equal: equal pagination, equal
/// fields map and predicate, structurally equal ordering and aggregates, and
/// grouping absent in both. Join identifiers never appear in a query node —
/// they live only in the placeholder tree — so this is full structural
/// equality of the node.
pub open spec fn query_node_obs_eq<Fields, Expr>(
    a: QueryNode<Fields, Expr>,
    b: QueryNode<Fields, Expr>,
) -> bool {
    &&& a.limit == b.limit
    &&& a.offset == b.offset
    &&& match (a.order_by, b.order_by) {
        (None, None) => true,
        (Some(x), Some(y)) => order_by_obs_eq(x, y),
        _ => false,
    }
    &&& match (a.aggregates, b.aggregates) {
        (None, None) => true,
        (Some(x), Some(y)) => aggregates_obs_eq(x, y),
        _ => false,
    }
    &&& a.fields == b.fields
    &&& a.predicate == b.predicate
    &&& a.groups is None
    &&& b.groups is None
}

/// Two compilations of the same IR node produce structurally equal query
/// nodes, however their counters differ: join identifiers are confined to the
/// placeholder tree and never enter the node. The fields map and the
/// predicate come from the collaborators, so the law takes the collaborators
/// having answered alike as given.
pub proof fn lemma_compilation_deterministic<Sel, Filt, Args, Fields, Expr>(
    ir: ModelSelection<Sel, Filt, Args>,
    n1: QueryNode<Fields, Expr>,
    n2: QueryNode<Fields, Expr>,
)
    requires
        node_matches(ir, n1),
        node_matches(ir, n2),
        n1.fields == n2.fields,
        n1.predicate == n2.predicate,
    ensures
        query_node_obs_eq(n1, n2),
{
    match ir.order_by {
        Some(ob) => {
            lemma_order_by_deterministic(
                ob.order_by_elements@,
                n1.order_by->Some_0,
                n2.order_by->Some_0,
            );
        },
        None => {},
    }
    match ir.aggregate_selection {
        Some(s) => {
            lemma_aggregates_deterministic(s, n1.aggregates->Some_0, n2.aggregates->Some_0);
        },
        None => {},
    }
}

/// Creates one output query node from one IR node.
///
/// The field selection, if present, is delegated to the selection-set
/// collaborator; its placeholders become the node's join subtree. Aggregates
/// and ordering are translated by the pure translators, the filter clause by
/// the filter collaborator. Limit and offset are copied verbatim; grouping is
/// left unset. The first collaborator failure aborts node construction with
/// no partial node returned.
pub fn plan_query_node<C: Collaborators>(
    ir: &ModelSelection<C::Selection, C::FilterClause, C::Arguments>,
    collaborators: &mut C,
    relationships: &mut BTreeMap<String, C::Relationship>,
    join_id_counter: &mut MonotonicCounter,
) -> (r: Result<
    (QueryNode<C::Fields, C::FilterExpression>, JoinLocations<C::RemoteJoin>),
    C::Error,
>)
    requires
        ir.aggregate_selection matches Some(s) ==> s.wf(),
    ensures
        r matches Ok(p) ==> node_matches(*ir, p.0) && (ir.selection is None
            ==> p.1.locations@.len() == 0),
{
    let mut query_fields: Option<C::Fields> = None;
    let mut join_locations: JoinLocations<C::RemoteJoin> = JoinLocations::new();
    if let Some(selection) = &ir.selection {
        let planned = collaborators.plan_selection_set(
            selection,
            join_id_counter,
            ir.data_connector.supported_ndc_version,
            relationships,
        );
        match planned {
            Ok((fields, locations)) => {
                query_fields = Some(fields);
                join_locations = locations;
            },
            Err(e) => {
                return Err(e);
            },
        }
    }
    let aggregates: Option<IndexMap<String, Aggregate>> = match &ir.aggregate_selection {
        Some(aggregate_selection) => Some(ndc_aggregates(aggregate_selection)),
        None => None,
    };
    let predicate = match collaborators.plan_filter_expression(&ir.filter_clause, relationships) {
        Ok(predicate) => predicate,
        Err(e) => {
            return Err(e);
        },
    };
    let order_by = match &ir.order_by {
        Some(x) => Some(ndc_order_by(&x.order_by_elements)),
        None => None,
    };
    let query_node = QueryNode {
        limit: ir.limit,
        offset: ir.offset,
        order_by,
        predicate,
        aggregates,
        fields: query_fields,
        groups: None,
    };
    Ok((query_node, join_locations))
}

/// Generates the execution plan for one top-level query, in strict order:
/// relationship discovery into a fresh registry, the root query node with
/// that registry and the given counter, argument translation, and final
/// assembly. Returns the plan together with the full join placeholder tree so
/// a later execution phase can resolve remote joins. The first collaborator
/// failure propagates unchanged with no partial plan returned.
pub fn plan_query_execution<C: Collaborators>(
    ir: &ModelSelection<C::Selection, C::FilterClause, C::Arguments>,
    collaborators: &mut C,
    join_id_counter: &mut MonotonicCounter,
) -> (r: Result<
    (
        QueryExecutionPlan<C::Fields, C::FilterExpression, C::NdcArguments, C::Relationship>,
        JoinLocations<C::RemoteJoin>,
    ),
    C::Error,
>)
    requires
        ir.aggregate_selection matches Some(s) ==> s.wf(),
    ensures
        r matches Ok(p) ==> node_matches(*ir, p.0.query_node) && p.0.collection == ir.collection
            && p.0.variables is None && p.0.data_connector == ir.data_connector && (
        ir.selection is None ==> p.1.locations@.len() == 0),
{
    let mut collection_relationships: BTreeMap<String, C::Relationship> = BTreeMap::new();
    match collaborators.collect_relationships(ir, &mut collection_relationships) {
        Ok(_) => {},
        Err(e) => {
            return Err(e);
        },
    }
    let planned = plan_query_node(ir, collaborators, &mut collection_relationships, join_id_counter);
    let (query, join_locations) = match planned {
        Ok(p) => p,
        Err(e) => {
            return Err(e);
        },
    };
    let arguments = match collaborators.plan_ndc_arguments(
        &ir.arguments,
        ir.data_connector.supported_ndc_version,
        &mut collection_relationships,
    ) {
        Ok(arguments) => arguments,
        Err(e) => {
            return Err(e);
        },
    };
    let execution_node = QueryExecutionPlan {
        query_node: query,
        collection: ir.collection.clone(),
        arguments,
        collection_relationships,
        variables: None,
        data_connector: ir.data_connector.duplicate(),
    };
    Ok((execution_node, join_locations))
}

} // verus!
