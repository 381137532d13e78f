use vstd::prelude::*;
use crate::entity::{Address, CrowdfundArgs, Pledge, Withdraw};

verus! {

/// An event that the registry publishes, with its payload.
#[derive(Clone, Debug, PartialEq, Eq)]
pub enum RegistryEvent {
    /// The registry was initialized with this admin.
    RegistryInit { admin: Address },
    /// One campaign was created under `id`.
    CrowdfundCreated {
        id: u64,
        recipient: Address,
        deadline: u64,
        target_amount: i128,
        token: Address,
    },
    /// A whole batch of campaigns was created, in this order.
    CrowdfundsCreated { crowdfund_args_list: Vec<CrowdfundArgs> },
    /// A batch of pledges was forwarded to its campaigns.
    DepositBatch { pledges: Vec<Pledge> },
    /// A batch of withdrawals was forwarded to its campaigns.
    WithdrawBatch { withdraws: Vec<Withdraw> },
}

/// The topic under which an event is published.
pub open spec fn topic_of(e: RegistryEvent) -> Seq<char> {
    match e {
        RegistryEvent::RegistryInit { .. } => "registry_init_success"@,
        RegistryEvent::CrowdfundCreated { .. } => "creat_crowdfund_event"@,
        RegistryEvent::CrowdfundsCreated { .. } => "creat_crowdfund_event"@,
        RegistryEvent::DepositBatch { .. } => "deposit_batch_crowdfunds_event"@,
        RegistryEvent::WithdrawBatch { .. } => "withdraw_batch_crowdfunds_event"@,
    }
}

/// The creation event of campaign `id`, made with `args`.
pub open spec fn created_event(id: u64, args: CrowdfundArgs) -> RegistryEvent {
    RegistryEvent::CrowdfundCreated {
        id,
        recipient: args.recipient,
        deadline: args.deadline,
        target_amount: args.target_amount,
        token: args.token,
    }
}

impl RegistryEvent {
    /// The topic under which this event is published.
    pub fn topic(&self) -> (r: &'static str)
        ensures
            r@ == topic_of(*self),
    {
        match self {
            RegistryEvent::RegistryInit { .. } => "registry_init_success",
            RegistryEvent::CrowdfundCreated { .. } => "creat_crowdfund_event",
            RegistryEvent::CrowdfundsCreated { .. } => "creat_crowdfund_event",
            RegistryEvent::DepositBatch { .. } => "deposit_batch_crowdfunds_event",
            RegistryEvent::WithdrawBatch { .. } => "withdraw_batch_crowdfunds_event",
        }
    }
}

/// The event of one created campaign.
pub fn creat_crowdfund_event(
    id: u64,
    recipient: Address,
    deadline: u64,
    target_amount: i128,
    token: Address,
) -> (r: RegistryEvent)
    ensures
        r == (RegistryEvent::CrowdfundCreated { id, recipient, deadline, target_amount, token }),
{
    RegistryEvent::CrowdfundCreated { id, recipient, deadline, target_amount, token }
}

/// The event of a whole created batch.
pub fn creat_crowdfund_event_v2(crowdfund_args_list: Vec<CrowdfundArgs>) -> (r: RegistryEvent)
    ensures
        r == (RegistryEvent::CrowdfundsCreated { crowdfund_args_list }),
{
    RegistryEvent::CrowdfundsCreated { crowdfund_args_list }
}

/// The event of a successful initialization.
pub fn register_init_event(admin: Address) -> (r: RegistryEvent)
    ensures
        r == (RegistryEvent::RegistryInit { admin }),
{
    RegistryEvent::RegistryInit { admin }
}

/// The event of a forwarded deposit batch.
pub fn deposit_batch_crowdfunds_event(pledges: Vec<Pledge>) -> (r: RegistryEvent)
    ensures
        r == (RegistryEvent::DepositBatch { pledges }),
{
    RegistryEvent::DepositBatch { pledges }
}

/// The event of a forwarded withdrawal batch.
pub fn withdraw_batch_crowdfunds_event(withdraws: Vec<Withdraw>) -> (r: RegistryEvent)
    ensures
        r == (RegistryEvent::WithdrawBatch { withdraws }),
{
    RegistryEvent::WithdrawBatch { withdraws }
}

} // verus!
