//! The order-by translator: a pure, total function from the ordering IR to
//! the protocol ordering descriptor, preserving input order and direction and
//! turning each relationship path into traversal-ordered hops.

use vstd::prelude::*;
use crate::ir;
use crate::protocol::Expression;
use crate::protocol::OrderBy;
use crate::protocol::OrderByElement;
use crate::protocol::OrderByTarget;
use crate::protocol::OrderDirection;
use crate::protocol::PathArguments;
use crate::protocol::PathElement;

verus! {

/// `e` is the trivially-true join condition: an empty conjunction. It says
/// that the column is reached by joining all the relationship hops provided;
/// predicate-scoped partial sorting (sort only a filtered subset) is a
/// reserved future capability, so no further condition is ever attached.
pub open spec fn trivially_true(e: Expression) -> bool {
    e matches Expression::And { expressions } && expressions@.len() == 0
}

/// `e` is the protocol hop for the relationship named `rel`: no arguments and
/// a trivially-true join condition.
pub open spec fn path_element_of(rel: String, e: PathElement) -> bool {
    e.relationship@ == rel@ && (e.predicate matches Some(p) && trivially_true(p))
}

/// `t` is the protocol target for the IR target `ir_t`: the same column name,
/// one hop per relationship in traversal order, and no nested field path
/// (nested field-path navigation is not supported for ordering in the current
/// design).
pub open spec fn order_target_of(ir_t: ir::OrderByTarget, t: OrderByTarget) -> bool {
    match ir_t {
        ir::OrderByTarget::Column { name, relationship_path } => t matches OrderByTarget::Column {
            name: n,
            path,
            field_path,
        } && n@ == name@ && path@.len() == relationship_path@.len() && (forall|i: int|
            0 <= i < path@.len() ==> path_element_of(relationship_path@[i], #[trigger] path@[i]))
            && field_path is None,
    }
}

/// `o` is the protocol direction for the IR direction `d`.
pub open spec fn direction_of(d: ir::OrderByDirection, o: OrderDirection) -> bool {
    match d {
        ir::OrderByDirection::Asc => o is Asc,
        ir::OrderByDirection::Desc => o is Desc,
    }
}

/// `r` is the protocol ordering element for the IR element `e`: same
/// direction, translated target.
pub open spec fn order_by_element_of(e: ir::OrderByElement, r: OrderByElement) -> bool {
    direction_of(e.order_direction, r.order_direction) && order_target_of(e.target, r.target)
}

/// `r` is the protocol ordering descriptor for the IR elements `elements`:
/// one output element per input element, in input order.
pub open spec fn order_by_of(elements: Seq<ir::OrderByElement>, r: OrderBy) -> bool {
    &&& r.elements@.len() == elements.len()
    &&& forall|i: int|
        0 <= i < elements.len() ==> order_by_element_of(elements[i], #[trigger] r.elements@[i])
}

/// Two hops are structurally equal: same relationship name, and both carry
/// the trivially-true join condition (the only condition ever attached).
pub open spec fn path_element_obs_eq(a: PathElement, b: PathElement) -> bool {
    &&& a.relationship@ == b.relationship@
    &&& a.predicate matches Some(p1) && trivially_true(p1)
    &&& b.predicate matches Some(p2) && trivially_true(p2)
}

/// Two protocol ordering targets are structurally equal: same column name,
/// pairwise structurally equal hops, both without a nested field path.
pub open spec fn order_target_obs_eq(a: OrderByTarget, b: OrderByTarget) -> bool {
    match (a, b) {
        (
            OrderByTarget::Column { name: n1, path: p1, field_path: f1 },
            OrderByTarget::Column { name: n2, path: p2, field_path: f2 },
        ) => n1@ == n2@ && p1@.len() == p2@.len() && (forall|i: int|
            0 <= i < p1@.len() ==> path_element_obs_eq(#[trigger] p1@[i], p2@[i])) && f1 is None
            && f2 is None,
    }
}

/// Two protocol ordering descriptors are structurally equal: same length,
/// pairwise same direction and structurally equal targets.
pub open spec fn order_by_obs_eq(a: OrderBy, b: OrderBy) -> bool {
    &&& a.elements@.len() == b.elements@.len()
    &&& forall|i: int|
        0 <= i < a.elements@.len() ==> (#[trigger] a.elements@[i]).order_direction
            == b.elements@[i].order_direction && order_target_obs_eq(
            a.elements@[i].target,
            b.elements@[i].target,
        )
}

/// The ordering translation is deterministic: one IR ordering clause allows
/// only one protocol descriptor, up to structural equality.
pub proof fn lemma_order_by_deterministic(elements: Seq<ir::OrderByElement>, a: OrderBy, b: OrderBy)
    requires
        order_by_of(elements, a),
        order_by_of(elements, b),
    ensures
        order_by_obs_eq(a, b),
{
    assert forall|i: int| 0 <= i < a.elements@.len() implies (
    #[trigger] a.elements@[i]).order_direction == b.elements@[i].order_direction
        && order_target_obs_eq(a.elements@[i].target, b.elements@[i].target) by {
        assert(order_by_element_of(elements[i], a.elements@[i]));
        assert(order_by_element_of(elements[i], b.elements@[i]));
        match elements[i].order_direction {
            ir::OrderByDirection::Asc => {},
            ir::OrderByDirection::Desc => {},
        }
        match elements[i].target {
            ir::OrderByTarget::Column { name, relationship_path } => {},
        }
    }
}

/// Translates one IR ordering target. For a non-empty relationship path the
/// hops come in traversal order: the order decides how the column is reached,
/// so it is not reorderable.
pub fn ndc_order_by_target(target: &ir::OrderByTarget) -> (r: OrderByTarget)
    ensures
        order_target_of(*target, r),
{
    match target {
        ir::OrderByTarget::Column { name, relationship_path } => {
            let mut order_by_element_path: Vec<PathElement> = Vec::new();
            let mut i: usize = 0;
            while i < relationship_path.len()
                invariant
                    0 <= i <= relationship_path@.len(),
                    order_by_element_path@.len() == i,
                    forall|j: int|
                        0 <= j < i ==> path_element_of(
                            relationship_path@[j],
                            #[trigger] order_by_element_path@[j],
                        ),
                decreases relationship_path@.len() - i,
            {
                order_by_element_path.push(
                    PathElement {
                        relationship: relationship_path[i].clone(),
                        arguments: PathArguments {},
                        predicate: Some(Expression::And { expressions: Vec::new() }),
                    },
                );
                i = i + 1;
            }
            OrderByTarget::Column {
                name: name.clone(),
                path: order_by_element_path,
                field_path: None,
            }
        },
    }
}

/// Translates the IR ordering clause into the protocol ordering descriptor,
/// preserving input order and direction.
pub fn ndc_order_by(order_by_elements: &Vec<ir::OrderByElement>) -> (r: OrderBy)
    ensures
        order_by_of(order_by_elements@, r),
{
    let mut elements: Vec<OrderByElement> = Vec::new();
    let mut i: usize = 0;
    while i < order_by_elements.len()
        invariant
            0 <= i <= order_by_elements@.len(),
            elements@.len() == i,
            forall|j: int|
                0 <= j < i ==> order_by_element_of(order_by_elements@[j], #[trigger] elements@[j]),
        decreases order_by_elements@.len() - i,
    {
        let element = &order_by_elements[i];
        let order_direction = match element.order_direction {
            ir::OrderByDirection::Asc => OrderDirection::Asc,
            ir::OrderByDirection::Desc => OrderDirection::Desc,
        };
        let target = ndc_order_by_target(&element.target);
        elements.push(OrderByElement { order_direction, target });
        i = i + 1;
    }
    OrderBy { elements }
}

} // verus!
