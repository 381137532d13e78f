use vstd::prelude::*;
use crate::entity::{Address, CrowdfundArgs};

verus! {

/// An entry point of a campaign instance, with its arguments.
#[derive(Clone, Copy, Debug, PartialEq, Eq)]
pub enum CampaignCall {
    /// The constructor: `initialize(recipient, deadline, target_amount, token)`.
    Initialize(CrowdfundArgs),
    /// `deposit(donor, amount)`.
    Deposit { donor: Address, amount: i128 },
    /// `withdraw(drawer)`.
    Withdraw { drawer: Address },
}

/// A call into a deployed campaign instance.
#[derive(Clone, Copy, Debug, PartialEq, Eq)]
pub struct Invocation {
    /// Address of the campaign instance.
    pub contract: Address,
    pub call: CampaignCall,
    /// Identity whose authorization must be required before the call;
    /// `None` when that identity is the registry itself.
    pub authorizer: Option<Address>,
}

/// The code a campaign instance is deployed from.
#[derive(Clone, Copy, Debug, PartialEq, Eq)]
pub enum CampaignCode {
    /// The campaign module bundled with the registry, uploaded before use.
    Bundled,
    /// A module already uploaded to the ledger, by its hash.
    Uploaded([u8; 32]),
}

/// A deployment of one campaign instance. The instance's address is derived
/// from `deployer` and `salt`; after deployment `constructor` is invoked on it.
#[derive(Clone, Copy, Debug, PartialEq, Eq)]
pub struct DeployRequest {
    pub deployer: Address,
    pub salt: [u8; 32],
    pub code: CampaignCode,
    pub constructor: CampaignCall,
    /// Identity whose authorization must be required before deploying;
    /// `None` when the deployer is the registry itself.
    pub authorizer: Option<Address>,
}

/// Whose authorization a call on behalf of `who` needs, when made by the
/// registry at address `this`: none when `who` is the registry itself.
pub open spec fn authorizer_for(this: Address, who: Address) -> Option<Address> {
    if who == this {
        None
    } else {
        Some(who)
    }
}

fn authorizer(this: &Address, who: &Address) -> (r: Option<Address>)
    ensures
        r == authorizer_for(*this, *who),
{
    if who.same(this) {
        None
    } else {
        Some(*who)
    }
}

/// The deposit call of `donor` for `amount` into the campaign at
/// `crowdfund_address`.
pub open spec fn deposit_call(this: Address, crowdfund_address: Address, donor: Address, amount: i128) -> Invocation {
    Invocation {
        contract: crowdfund_address,
        call: CampaignCall::Deposit { donor, amount },
        authorizer: authorizer_for(this, donor),
    }
}

/// The withdrawal call of `drawer` from the campaign at `crowdfund_address`.
pub open spec fn withdraw_call(this: Address, crowdfund_address: Address, drawer: Address) -> Invocation {
    Invocation {
        contract: crowdfund_address,
        call: CampaignCall::Withdraw { drawer },
        authorizer: authorizer_for(this, drawer),
    }
}

/// The deployment of a campaign with `init_args` from `code`.
pub open spec fn deploy_request(
    this: Address,
    deployer: Address,
    code: CampaignCode,
    salt: [u8; 32],
    init_args: CrowdfundArgs,
) -> DeployRequest {
    DeployRequest {
        deployer,
        salt,
        code,
        constructor: CampaignCall::Initialize(init_args),
        authorizer: authorizer_for(this, deployer),
    }
}

/// Forwards a deposit of `amount` by `donor` to the campaign at
/// `crowdfund_address`, from the registry at `this`.
pub fn deposit(this: &Address, crowdfund_address: Address, donor: Address, amount: i128) -> (r: Invocation)
    ensures
        r == deposit_call(*this, crowdfund_address, donor, amount),
{
    let authorizer = authorizer(this, &donor);
    Invocation { contract: crowdfund_address, call: CampaignCall::Deposit { donor, amount }, authorizer }
}

/// Forwards a withdrawal by `drawer` to the campaign at `crowdfund_address`,
/// from the registry at `this`.
pub fn withdraw(this: &Address, crowdfund_address: Address, drawer: Address) -> (r: Invocation)
    ensures
        r == withdraw_call(*this, crowdfund_address, drawer),
{
    let authorizer = authorizer(this, &drawer);
    Invocation { contract: crowdfund_address, call: CampaignCall::Withdraw { drawer }, authorizer }
}

/// Deploys the bundled campaign module on behalf of `deployer` with `salt`,
/// and constructs it with `init_args`.
pub fn deploy(this: &Address, deployer: Address, salt: [u8; 32], init_args: CrowdfundArgs) -> (r: DeployRequest)
    ensures
        r == deploy_request(*this, deployer, CampaignCode::Bundled, salt, init_args),
{
    let authorizer = authorizer(this, &deployer);
    DeployRequest {
        deployer,
        salt,
        code: CampaignCode::Bundled,
        constructor: CampaignCall::Initialize(init_args),
        authorizer,
    }
}

/// Deploys the uploaded campaign module `wasm_hash` on behalf of `deployer`
/// with `salt`, and constructs it with `init_args`.
pub fn deploy_v2(
    this: &Address,
    deployer: Address,
    wasm_hash: [u8; 32],
    salt: [u8; 32],
    init_args: CrowdfundArgs,
) -> (r: DeployRequest)
    ensures
        r == deploy_request(*this, deployer, CampaignCode::Uploaded(wasm_hash), salt, init_args),
{
    let authorizer = authorizer(this, &deployer);
    DeployRequest {
        deployer,
        salt,
        code: CampaignCode::Uploaded(wasm_hash),
        constructor: CampaignCall::Initialize(init_args),
        authorizer,
    }
}

} // verus!
