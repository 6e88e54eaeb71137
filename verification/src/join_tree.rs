//! The join placeholder tree: positions in the output tree, each annotated
//! with a unique identifier issued by the compilation's counter, marking a
//! join against another connector that a later execution phase resolves.

use vstd::prelude::*;

verus! {

/// What a purely local position in the tree stands for.
#[derive(Clone, Copy, Debug, PartialEq, Eq, Structural)]
pub enum LocationKind {
    NestedData,
    LocalRelationship,
}

/// One node of the join placeholder tree: either a local position, or a
/// remote join descriptor `J` together with the identifier issued for it.
#[derive(Debug)]
pub enum JoinNode<J> {
    Local(LocationKind),
    Remote(J, u64),
}

/// One named position: its node and the subtree beneath it.
#[derive(Debug)]
pub struct Location<J> {
    pub join_node: JoinNode<J>,
    pub rest: JoinLocations<J>,
}

/// The join placeholder tree produced by one compilation: named positions in
/// the output tree, in the order the planner reported them.
#[derive(Debug)]
pub struct JoinLocations<J> {
    pub locations: Vec<(String, Location<J>)>,
}

impl<J> JoinLocations<J> {
    /// A tree with no placeholders.
    pub fn new() -> (r: JoinLocations<J>)
        ensures
            r.locations@.len() == 0,
    {
        JoinLocations { locations: Vec::new() }
    }
}

} // verus!
