use vstd::prelude::*;

verus! {

/// Keys under which the registry keeps its persistent state.
#[derive(Clone, Copy, Debug, PartialEq, Eq)]
pub enum DataKey {
    Counter,
    Admin,
    CrowdfundMap,
    CrowdfundId(u64),
}

} // verus!
