use vstd::prelude::*;

verus! {

/// A copyable reference to a running unit: the node it lives on and its
/// identifier there. It does not own the unit.
#[derive(Clone, Copy, Debug, PartialEq, Eq, Structural)]
pub struct ProcessRef {
    pub node_id: u64,
    pub process_id: u64,
}

/// A runtime configuration for spawned units, identified by the runtime.
#[derive(Clone, Copy, Debug, PartialEq, Eq, Structural)]
pub struct ProcessConfig {
    pub id: u64,
}

} // verus!
