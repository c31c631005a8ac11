//! Plans: operators wired into a graph by the values that they read and produce.

use vstd::prelude::*;

use crate::plans::nodes::NodeKind;

verus! {

/// The identifier, in one plan, of the output value of a node.
#[derive(Debug, Clone, Copy, PartialEq, Eq, Hash, Structural)]
pub struct RefId(pub u32);

/// One node in a plan: an operator, the values that it reads and the one that it produces.
#[derive(Debug, Clone)]
pub struct PlanNode {
    pub kind: NodeKind,
    pub inputs: Vec<RefId>,
    pub output: RefId,
}

/// A plan: a sequence of nodes, of which each comes after the nodes whose outputs it reads. The last node
/// is the terminal one, whose rows are the result.
#[derive(Debug, Clone)]
pub struct Plan {
    pub nodes: Vec<PlanNode>,
}

impl Plan {
    /// Is each value produced by one node only?
    pub open spec fn outputs_are_distinct(self) -> bool {
        forall|i: int, j: int|
            0 <= i < j < self.nodes@.len() ==> (#[trigger] self.nodes@[i]).output != (
            #[trigger] self.nodes@[j]).output
    }

    /// Does a node before the `i`-th one produce the value?
    pub open spec fn bound_before(self, i: int, value: RefId) -> bool {
        exists|j: int| 0 <= j < i && (#[trigger] self.nodes@[j]).output == value
    }

    /// Does each node come after the nodes whose outputs it reads?
    pub open spec fn inputs_are_bound(self) -> bool {
        forall|i: int, k: int|
            0 <= i < self.nodes@.len() && 0 <= k < self.nodes@[i].inputs@.len()
                ==> self.bound_before(i, #[trigger] self.nodes@[i].inputs@[k])
    }

    /// Does a node read the value?
    pub open spec fn is_read(self, value: RefId) -> bool {
        exists|i: int, k: int|
            0 <= i < self.nodes@.len() && 0 <= k < self.nodes@[i].inputs@.len()
                && #[trigger] self.nodes@[i].inputs@[k] == value
    }

    /// Is the last node the only one whose output no node reads?
    pub open spec fn last_is_terminal(self) -> bool {
        forall|i: int|
            0 <= i < self.nodes@.len() ==> (self.is_read((#[trigger] self.nodes@[i]).output) <==> i
                < self.nodes@.len() - 1)
    }

    /// A plan has a node, its values form a graph without cycles in the order of the nodes, its last node
    /// is the terminal one, and each operator has the inputs and the payload that it asks for.
    pub open spec fn well_formed(self) -> bool {
        &&& self.nodes@.len() > 0
        &&& self.outputs_are_distinct()
        &&& self.inputs_are_bound()
        &&& self.last_is_terminal()
        &&& forall|i: int|
            0 <= i < self.nodes@.len() ==> (#[trigger] self.nodes@[i]).kind.takes(
                self.nodes@[i].inputs@.len(),
            ) && self.nodes@[i].kind.payload_fits()
    }

    /// The output of the last node, whose rows are the result, or None if there is no node.
    pub fn result(&self) -> (r: Option<RefId>)
        ensures
            r == (if self.nodes@.len() == 0 {
                None
            } else {
                Some(self.nodes@.last().output)
            }),
    {
        if self.nodes.len() == 0 {
            None
        } else {
            Some(self.nodes[self.nodes.len() - 1].output)
        }
    }
}

} // verus!
