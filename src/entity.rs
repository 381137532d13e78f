use vstd::prelude::*;

verus! {

/// A ledger identity: an account key or a contract id.
#[derive(Clone, Copy, Debug, PartialEq, Eq, Hash)]
pub enum Address {
    Account([u8; 32]),
    Contract([u8; 32]),
}

impl Address {
    /// Whether `self` and `other` name the same identity.
    pub fn same(&self, other: &Address) -> (r: bool)
        ensures
            r == (*self == *other),
    {
        match (self, other) {
            (Address::Account(a), Address::Account(b)) => same_key(a, b),
            (Address::Contract(a), Address::Contract(b)) => same_key(a, b),
            _ => false,
        }
    }
}

fn same_key(a: &[u8; 32], b: &[u8; 32]) -> (r: bool)
    ensures
        r == (*a == *b),
{
    let mut i: usize = 0;
    while i < 32
        invariant
            0 <= i <= 32,
            forall|j: int| 0 <= j < i ==> a[j] == b[j],
        decreases 32 - i,
    {
        if a[i] != b[i] {
            return false;
        }
        i = i + 1;
    }
    assert(*a =~= *b);
    true
}

/// Parameters of one campaign to create.
#[derive(Clone, Copy, Debug, PartialEq, Eq)]
pub struct CrowdfundArgs {
    pub recipient: Address,
    pub deadline: u64,
    pub target_amount: i128,
    pub token: Address,
}

/// One deposit instruction of a batch.
#[derive(Clone, Copy, Debug, PartialEq, Eq)]
pub struct Pledge {
    pub donor: Address,
    pub amount: i128,
    pub crowdfund_id: u64,
}

/// One withdrawal instruction of a batch.
#[derive(Clone, Copy, Debug, PartialEq, Eq)]
pub struct Withdraw {
    pub drawer: Address,
    pub crowdfund_id: u64,
}

} // verus!
