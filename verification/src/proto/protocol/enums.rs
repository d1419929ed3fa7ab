//! Protocol enumerations.
use vstd::prelude::*;

verus! {

/// Whether a topology transaction adds or removes a mapping.
#[derive(Debug, Clone, Copy, PartialEq, Eq, Structural, Hash)]
pub enum TopologyChangeOp {
    Unspecified,
    AddReplace,
    Remove,
}

/// The wire value of a topology change operation.
pub open spec fn topology_change_op_value(op: TopologyChangeOp) -> i32 {
    match op {
        TopologyChangeOp::Unspecified => 0,
        TopologyChangeOp::AddReplace => 1,
        TopologyChangeOp::Remove => 2,
    }
}

impl TopologyChangeOp {
    /// The wire value of this operation.
    pub fn as_i32(self) -> (n: i32)
        ensures
            n == topology_change_op_value(self),
    {
        match self {
            TopologyChangeOp::Unspecified => 0,
            TopologyChangeOp::AddReplace => 1,
            TopologyChangeOp::Remove => 2,
        }
    }
}

} // verus!
