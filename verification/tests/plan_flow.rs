//! Tests of the query node builder, the execution plan assembler, the
//! monotonic counter and the error propagation, with a small stand-in for the
//! external collaborators.

use std::collections::BTreeMap;

use nonempty::NonEmpty;
use plan_compiler::MonotonicCounter;
use plan_compiler::ir::AggregateFieldSelection;
use plan_compiler::ir::AggregateSelectionSet;
use plan_compiler::ir::DataConnector;
use plan_compiler::ir::ModelOrderBy;
use plan_compiler::ir::ModelSelection;
use plan_compiler::ir::NdcVersion;
use plan_compiler::ir::OrderByDirection;
use plan_compiler::join_tree::JoinLocations;
use plan_compiler::join_tree::JoinNode;
use plan_compiler::join_tree::Location;
use plan_compiler::plan::Collaborators;
use plan_compiler::plan::plan_query_execution;
use plan_compiler::plan::plan_query_node;
use plan_compiler::protocol::Aggregate;
use plan_compiler::protocol::OrderDirection;

/// A stand-in for the external collaborators: deterministic apart from the
/// join identifiers it draws from the shared counter.
struct TestPlanner {
    filter_fails: bool,
    discovery_fails: bool,
}

impl TestPlanner {
    fn new() -> TestPlanner {
        TestPlanner { filter_fails: false, discovery_fails: false }
    }
}

impl Collaborators for TestPlanner {
    type Selection = Vec<String>;
    type FilterClause = String;
    type Arguments = Vec<(String, String)>;
    type Fields = String;
    type FilterExpression = String;
    type NdcArguments = String;
    type Relationship = String;
    type RemoteJoin = String;
    type Error = String;

    fn plan_selection_set(
        &mut self,
        selection: &Vec<String>,
        join_id_counter: &mut MonotonicCounter,
        _ndc_version: NdcVersion,
        relationships: &mut BTreeMap<String, String>,
    ) -> Result<(String, JoinLocations<String>), String> {
        relationships.insert("author".to_string(), "article_to_author".to_string());
        // Two nested levels, each marking one remote join with a fresh id.
        let outer_id = join_id_counter.get_next();
        let inner_id = join_id_counter.get_next();
        let inner = JoinLocations {
            locations: vec![(
                "comments".to_string(),
                Location {
                    join_node: JoinNode::Remote("remote_comments".to_string(), inner_id),
                    rest: JoinLocations { locations: vec![] },
                },
            )],
        };
        let locations = JoinLocations {
            locations: vec![(
                "author".to_string(),
                Location {
                    join_node: JoinNode::Remote("remote_author".to_string(), outer_id),
                    rest: inner,
                },
            )],
        };
        Ok((selection.join(","), locations))
    }

    fn plan_filter_expression(
        &mut self,
        filter: &String,
        _relationships: &mut BTreeMap<String, String>,
    ) -> Result<Option<String>, String> {
        if self.filter_fails {
            Err("malformed filter".to_string())
        } else if filter.is_empty() {
            Ok(None)
        } else {
            Ok(Some(format!("predicate({filter})")))
        }
    }

    fn collect_relationships(
        &mut self,
        _ir: &ModelSelection<Vec<String>, String, Vec<(String, String)>>,
        relationships: &mut BTreeMap<String, String>,
    ) -> Result<(), String> {
        if self.discovery_fails {
            return Err("unknown relationship".to_string());
        }
        relationships.insert("author".to_string(), "article_to_author".to_string());
        Ok(())
    }

    fn plan_ndc_arguments(
        &mut self,
        arguments: &Vec<(String, String)>,
        _ndc_version: NdcVersion,
        _relationships: &mut BTreeMap<String, String>,
    ) -> Result<String, String> {
        Ok(format!("{} arguments", arguments.len()))
    }
}

fn sample_ir() -> ModelSelection<Vec<String>, String, Vec<(String, String)>> {
    ModelSelection {
        collection: "articles".to_string(),
        data_connector: DataConnector {
            name: "postgres_db".to_string(),
            supported_ndc_version: NdcVersion::V02,
        },
        selection: Some(vec!["id".to_string(), "title".to_string()]),
        aggregate_selection: Some(AggregateSelectionSet {
            fields: vec![
                ("row_count".to_string(), AggregateFieldSelection::Count { column_path: vec![] }),
                (
                    "total".to_string(),
                    AggregateFieldSelection::AggregationFunction {
                        function_name: "sum".to_string(),
                        column_path: NonEmpty { head: "amount".to_string(), tail: vec![] },
                    },
                ),
            ],
        }),
        filter_clause: "published".to_string(),
        order_by: Some(ModelOrderBy {
            order_by_elements: vec![plan_compiler::ir::OrderByElement {
                order_direction: OrderByDirection::Asc,
                target: plan_compiler::ir::OrderByTarget::Column {
                    name: "age".to_string(),
                    relationship_path: vec!["R1".to_string(), "R2".to_string()],
                },
            }],
        }),
        limit: Some(10),
        offset: Some(5),
        arguments: vec![("lang".to_string(), "en".to_string())],
    }
}

fn remote_ids(locations: &JoinLocations<String>) -> Vec<u64> {
    let mut ids = Vec::new();
    for (_, location) in &locations.locations {
        if let JoinNode::Remote(_, id) = &location.join_node {
            ids.push(*id);
        }
        ids.extend(remote_ids(&location.rest));
    }
    ids
}

#[test]
fn limit_and_offset_pass_through_unchanged() {
    let ir = sample_ir();
    let mut planner = TestPlanner::new();
    let mut relationships = BTreeMap::new();
    let mut counter = MonotonicCounter::new();
    let (node, _) =
        plan_query_node(&ir, &mut planner, &mut relationships, &mut counter).unwrap();
    assert_eq!(node.limit, Some(10));
    assert_eq!(node.offset, Some(5));
}

#[test]
fn node_assembles_all_parts() {
    let ir = sample_ir();
    let mut planner = TestPlanner::new();
    let mut relationships = BTreeMap::new();
    let mut counter = MonotonicCounter::new();
    let (node, locations) =
        plan_query_node(&ir, &mut planner, &mut relationships, &mut counter).unwrap();
    assert_eq!(node.fields, Some("id,title".to_string()));
    assert_eq!(node.predicate, Some("predicate(published)".to_string()));
    assert!(node.groups.is_none());
    let aggregates = node.aggregates.unwrap();
    assert_eq!(aggregates.len(), 2);
    assert_eq!(aggregates.get_index(0).unwrap().1, &Aggregate::StarCount);
    let order_by = node.order_by.unwrap();
    assert_eq!(order_by.elements.len(), 1);
    assert!(matches!(order_by.elements[0].order_direction, OrderDirection::Asc));
    assert_eq!(remote_ids(&locations), vec![1, 2]);
    assert_eq!(relationships.get("author"), Some(&"article_to_author".to_string()));
}

#[test]
fn node_without_selection_has_no_fields_and_no_placeholders() {
    let mut ir = sample_ir();
    ir.selection = None;
    let mut planner = TestPlanner::new();
    let mut relationships = BTreeMap::new();
    let mut counter = MonotonicCounter::new();
    let (node, locations) =
        plan_query_node(&ir, &mut planner, &mut relationships, &mut counter).unwrap();
    assert!(node.fields.is_none());
    assert!(locations.locations.is_empty());
    assert_eq!(counter.get_next(), 1);
}

#[test]
fn filter_failure_aborts_node_construction() {
    let ir = sample_ir();
    let mut planner = TestPlanner::new();
    planner.filter_fails = true;
    let mut relationships = BTreeMap::new();
    let mut counter = MonotonicCounter::new();
    let r = plan_query_node(&ir, &mut planner, &mut relationships, &mut counter);
    assert_eq!(r.unwrap_err(), "malformed filter");
}

#[test]
fn discovery_failure_aborts_plan_assembly() {
    let ir = sample_ir();
    let mut planner = TestPlanner::new();
    planner.discovery_fails = true;
    let mut counter = MonotonicCounter::new();
    let r = plan_query_execution(&ir, &mut planner, &mut counter);
    assert_eq!(r.unwrap_err(), "unknown relationship");
}

#[test]
fn execution_plan_packages_everything() {
    let ir = sample_ir();
    let mut planner = TestPlanner::new();
    let mut counter = MonotonicCounter::new();
    let (plan, locations) = plan_query_execution(&ir, &mut planner, &mut counter).unwrap();
    assert_eq!(plan.collection, "articles");
    assert_eq!(plan.arguments, "1 arguments");
    assert!(plan.variables.is_none());
    assert_eq!(plan.data_connector.name, "postgres_db");
    assert_eq!(
        plan.collection_relationships.get("author"),
        Some(&"article_to_author".to_string())
    );
    assert_eq!(plan.query_node.limit, Some(10));
    assert_eq!(remote_ids(&locations), vec![1, 2]);
}

#[test]
fn two_compilations_give_equal_nodes_apart_from_join_ids() {
    let ir = sample_ir();

    let mut planner1 = TestPlanner::new();
    let mut relationships1 = BTreeMap::new();
    let mut counter1 = MonotonicCounter::new();
    let (node1, locations1) =
        plan_query_node(&ir, &mut planner1, &mut relationships1, &mut counter1).unwrap();

    // An independent counter, already advanced, so the second compilation
    // issues different join identifiers.
    let mut planner2 = TestPlanner::new();
    let mut relationships2 = BTreeMap::new();
    let mut counter2 = MonotonicCounter::new();
    for _ in 0..7 {
        counter2.get_next();
    }
    let (node2, locations2) =
        plan_query_node(&ir, &mut planner2, &mut relationships2, &mut counter2).unwrap();

    // The placeholder trees carry different identifiers...
    assert_eq!(remote_ids(&locations1), vec![1, 2]);
    assert_eq!(remote_ids(&locations2), vec![8, 9]);

    // ...while the query nodes are structurally equal.
    assert_eq!(node1.limit, node2.limit);
    assert_eq!(node1.offset, node2.offset);
    assert_eq!(node1.fields, node2.fields);
    assert_eq!(node1.predicate, node2.predicate);
    assert!(node1.groups.is_none() && node2.groups.is_none());
    assert_eq!(node1.aggregates.as_ref().unwrap(), node2.aggregates.as_ref().unwrap());
    let order1 = node1.order_by.as_ref().unwrap();
    let order2 = node2.order_by.as_ref().unwrap();
    assert_eq!(order1.elements.len(), order2.elements.len());
    for (e1, e2) in order1.elements.iter().zip(order2.elements.iter()) {
        assert_eq!(e1.order_direction, e2.order_direction);
        let plan_compiler::protocol::OrderByTarget::Column { name: n1, path: p1, field_path: f1 } =
            &e1.target;
        let plan_compiler::protocol::OrderByTarget::Column { name: n2, path: p2, field_path: f2 } =
            &e2.target;
        assert_eq!(n1, n2);
        assert_eq!(f1, f2);
        assert_eq!(p1.len(), p2.len());
        for (h1, h2) in p1.iter().zip(p2.iter()) {
            assert_eq!(h1.relationship, h2.relationship);
        }
    }
}

#[test]
fn join_ids_strictly_increase_and_never_repeat() {
    let mut counter = MonotonicCounter::new();
    let mut seen = Vec::new();
    // Interleave direct draws with nested planning runs sharing the counter.
    seen.push(counter.get_next());
    let ir = sample_ir();
    let mut planner = TestPlanner::new();
    let mut relationships = BTreeMap::new();
    let (_, locations) =
        plan_query_node(&ir, &mut planner, &mut relationships, &mut counter).unwrap();
    seen.extend(remote_ids(&locations));
    seen.push(counter.get_next());
    let (_, locations) =
        plan_query_node(&ir, &mut planner, &mut relationships, &mut counter).unwrap();
    seen.extend(remote_ids(&locations));
    for window in seen.windows(2) {
        assert!(window[1] > window[0]);
    }
    assert_eq!(seen, vec![1, 2, 3, 4, 5, 6]);
}
