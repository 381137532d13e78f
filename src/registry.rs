use vstd::prelude::*;
use crate::crowdfund_client::{
    deploy,
    deploy_request,
    deploy_v2,
    deposit,
    deposit_call,
    withdraw,
    withdraw_call,
    CampaignCode,
    DeployRequest,
    Invocation,
};
use crate::dispatch::BatchDispatch;
use crate::entity::{Address, CrowdfundArgs, Pledge, Withdraw};
use crate::ids::id_range;
use crate::events::{
    created_event,
    creat_crowdfund_event,
    creat_crowdfund_event_v2,
    deposit_batch_crowdfunds_event,
    register_init_event,
    withdraw_batch_crowdfunds_event,
    RegistryEvent,
};

verus! {

/// Why a registry operation was refused. Every error aborts the whole
/// operation: nothing of it is committed.
#[derive(Clone, Debug, PartialEq, Eq)]
pub enum RegistryError {
    /// The caller is not the registry's admin.
    Unauthorized,
    /// No campaign is registered under this id.
    UnknownCampaign(u64),
    /// A deployed instance landed on an address that a campaign already has.
    DeploymentCollision(Address),
    /// A campaign instance rejected a forwarded call, with its reason.
    DownstreamFailure(String),
}

/// The salt of every campaign deployment: 32 zero bytes.
pub open spec fn zero_salt() -> [u8; 32] {
    choose|s: [u8; 32]| is_zero(s)
}

/// Whether every byte of `s` is zero.
pub open spec fn is_zero(s: [u8; 32]) -> bool {
    forall|i: int| 0 <= i < 32 ==> s[i] == 0
}

fn make_zero_salt() -> (r: [u8; 32])
    ensures
        r == zero_salt(),
{
    let salt = [0u8; 32];
    assert(is_zero(salt));
    let ghost z = zero_salt();
    assert(z =~= salt);
    salt
}

/// The deployment that creates a campaign with `args` from `code`, made by the
/// registry at `this`. The campaign's recipient deploys it.
pub open spec fn creation_request(this: Address, code: CampaignCode, args: CrowdfundArgs) -> DeployRequest {
    deploy_request(this, args.recipient, code, zero_salt(), args)
}

/// Whether `a` is an address of `deployed` that repeats one of `existing` or
/// one earlier in `deployed`.
pub open spec fn collision(existing: Seq<Address>, deployed: Seq<Address>, a: Address) -> bool {
    exists|k: int| 0 <= k < deployed.len() && deployed[k] == a && (existing + deployed.take(k)).contains(a)
}

/// The campaign ids of a batch of pledges, in order.
pub open spec fn pledge_ids(pledges: Seq<Pledge>) -> Seq<u64> {
    pledges.map_values(|p: Pledge| p.crowdfund_id)
}

/// The campaign ids of a batch of withdrawals, in order.
pub open spec fn withdraw_ids(withdraws: Seq<Withdraw>) -> Seq<u64> {
    withdraws.map_values(|w: Withdraw| w.crowdfund_id)
}

/// The persistent state of the registry: its admin, the number of campaigns
/// created so far, and the address of each campaign, campaign `id` at
/// position `id - 1`.
pub struct CrowdfundRegistryContract {
    admin: Address,
    counter: u64,
    crowdfunds: Vec<Address>,
}

impl CrowdfundRegistryContract {
    /// The identity allowed to create campaigns and forward batches.
    pub closed spec fn admin_view(&self) -> Address {
        self.admin
    }

    /// The number of campaigns created so far.
    pub closed spec fn counter_view(&self) -> nat {
        self.counter as nat
    }

    /// The campaigns' addresses: campaign `id` at position `id - 1`.
    pub closed spec fn crowdfunds_view(&self) -> Seq<Address> {
        self.crowdfunds@
    }

    /// The counter fits in 64 bits and equals the number of campaigns, whose
    /// addresses are pairwise distinct.
    pub open spec fn wf(&self) -> bool {
        &&& self.counter_view() <= u64::MAX
        &&& self.crowdfunds_view().len() == self.counter_view()
        &&& self.crowdfunds_view().no_duplicates()
    }

    /// Whether a campaign is registered under `id`: the ids in use are
    /// exactly `1..=counter`.
    pub open spec fn has_crowdfund(&self, id: u64) -> bool {
        1 <= id <= self.counter_view()
    }

    /// The address of campaign `id`.
    pub open spec fn address_of(&self, id: u64) -> Address {
        self.crowdfunds_view()[id - 1]
    }

    /// The map from campaign id to address.
    pub open spec fn crowdfund_map(&self) -> Map<u64, Address> {
        Map::new(|id: u64| self.has_crowdfund(id), |id: u64| self.address_of(id))
    }

    /// Whether `self` is `before` with the instances at `deployed` registered
    /// as the next campaigns, in order.
    pub open spec fn extends(&self, before: Self, deployed: Seq<Address>) -> bool {
        &&& self.admin_view() == before.admin_view()
        &&& self.counter_view() == before.counter_view() + deployed.len()
        &&& self.crowdfunds_view() == before.crowdfunds_view() + deployed
    }

    /// Whether `k` is the first position of `ids` that names no campaign.
    pub open spec fn first_unknown(&self, ids: Seq<u64>, k: int) -> bool {
        &&& 0 <= k < ids.len()
        &&& !self.has_crowdfund(ids[k])
        &&& forall|j: int| 0 <= j < k ==> self.has_crowdfund(ids[j])
    }

    /// Whether every id of `ids` names a campaign.
    pub open spec fn all_known(&self, ids: Seq<u64>) -> bool {
        forall|j: int| 0 <= j < ids.len() ==> self.has_crowdfund(ids[j])
    }

    /// A fresh registry with `admin`, no campaign, and its initialization
    /// event.
    pub fn initialize(admin: Address) -> (r: (CrowdfundRegistryContract, RegistryEvent))
        ensures
            r.0.wf(),
            r.0.admin_view() == admin,
            r.0.counter_view() == 0,
            r.0.crowdfund_map() == Map::<u64, Address>::empty(),
            r.1 == (RegistryEvent::RegistryInit { admin }),
    {
        let registry = CrowdfundRegistryContract { admin, counter: 0, crowdfunds: Vec::new() };
        assert(registry.crowdfund_map() =~= Map::<u64, Address>::empty());
        (registry, register_init_event(admin))
    }

    /// The registry kept as `admin`, `counter` and the campaigns' addresses in
    /// id order; `None` when these do not form a registry.
    pub fn restore(admin: Address, counter: u64, crowdfunds: Vec<Address>) -> (r: Option<CrowdfundRegistryContract>)
        ensures
            r is Some <==> (crowdfunds@.len() == counter && crowdfunds@.no_duplicates()),
            r matches Some(reg) ==> {
                &&& reg.wf()
                &&& reg.admin_view() == admin
                &&& reg.counter_view() == counter
                &&& reg.crowdfunds_view() == crowdfunds@
            },
    {
        if crowdfunds.len() as u64 != counter || !no_repeats(&crowdfunds) {
            return None;
        }
        Some(CrowdfundRegistryContract { admin, counter, crowdfunds })
    }

    /// The admin identity.
    pub fn admin(&self) -> (r: Address)
        ensures
            r == self.admin_view(),
    {
        self.admin
    }

    /// The number of campaigns created so far.
    pub fn counter(&self) -> (r: u64)
        ensures
            r == self.counter_view(),
    {
        self.counter
    }

    /// The address of campaign `crowdfund_id`, if there is one.
    pub fn get_crowdfund_from_map(&self, crowdfund_id: u64) -> (r: Option<Address>)
        requires
            self.wf(),
        ensures
            r == if self.has_crowdfund(crowdfund_id) {
                Some(self.address_of(crowdfund_id))
            } else {
                None::<Address>
            },
    {
        let n = self.crowdfunds.len();
        if crowdfund_id == 0 || crowdfund_id > n as u64 {
            None
        } else {
            Some(self.crowdfunds[(crowdfund_id - 1) as usize])
        }
    }
}

/// The deployment of a campaign with `crowdfund_args` from the bundled module,
/// made by the registry at `this`.
pub fn creat_crowdfund(this: &Address, crowdfund_args: &CrowdfundArgs) -> (r: DeployRequest)
    ensures
        r == creation_request(*this, CampaignCode::Bundled, *crowdfund_args),
{
    let salt = make_zero_salt();
    deploy(this, crowdfund_args.recipient, salt, *crowdfund_args)
}

/// The deployment of a campaign with `crowdfund_args` from the uploaded module
/// `wasm_hash`, made by the registry at `this`.
pub fn creat_crowdfund_v2(this: &Address, wasm_hash: &[u8; 32], crowdfund_args: CrowdfundArgs) -> (r: DeployRequest)
    ensures
        r == creation_request(*this, CampaignCode::Uploaded(*wasm_hash), crowdfund_args),
{
    let salt = make_zero_salt();
    let deployer = crowdfund_args.recipient;
    deploy_v2(this, deployer, *wasm_hash, salt, crowdfund_args)
}

impl CrowdfundRegistryContract {
    /// The deployments that a batch creation by `caller` makes, one per entry
    /// of `crowdfund_args_list` and in its order, from `code`, by the registry
    /// at `this`. Only the admin may create campaigns.
    pub fn plan_batch_crowdfunds(
        &self,
        caller: &Address,
        this: &Address,
        code: CampaignCode,
        crowdfund_args_list: &Vec<CrowdfundArgs>,
    ) -> (r: Result<Vec<DeployRequest>, RegistryError>)
        ensures
            *caller != self.admin_view() ==> r == Err::<Vec<DeployRequest>, RegistryError>(
                RegistryError::Unauthorized,
            ),
            *caller == self.admin_view() ==> (r matches Ok(reqs) && reqs@ == crowdfund_args_list@.map_values(
                |a: CrowdfundArgs| creation_request(*this, code, a),
            )),
    {
        if !caller.same(&self.admin) {
            return Err(RegistryError::Unauthorized);
        }
        let mut reqs: Vec<DeployRequest> = Vec::new();
        let mut i: usize = 0;
        while i < crowdfund_args_list.len()
            invariant
                0 <= i <= crowdfund_args_list.len(),
                reqs@ == crowdfund_args_list@.take(i as int).map_values(
                    |a: CrowdfundArgs| creation_request(*this, code, a),
                ),
            decreases crowdfund_args_list.len() - i,
        {
            let args = crowdfund_args_list[i];
            let req = match code {
                CampaignCode::Bundled => creat_crowdfund(this, &args),
                CampaignCode::Uploaded(wasm_hash) => creat_crowdfund_v2(this, &wasm_hash, args),
            };
            reqs.push(req);
            assert(crowdfund_args_list@.take(i + 1) =~= crowdfund_args_list@.take(i as int).push(args));
            i = i + 1;
        }
        assert(crowdfund_args_list@.take(i as int) =~= crowdfund_args_list@);
        Ok(reqs)
    }

    /// Registers the instances at `deployed` as the next campaigns, in order,
    /// and returns their ids. Fails, changing nothing, where an address repeats
    /// one that is already registered or earlier in `deployed`.
    fn append_crowdfunds(&mut self, deployed: &Vec<Address>) -> (r: Result<Vec<u64>, RegistryError>)
        requires
            old(self).wf(),
            old(self).counter_view() + deployed@.len() <= u64::MAX,
        ensures
            final(self).wf(),
            r is Ok <==> (old(self).crowdfunds_view() + deployed@).no_duplicates(),
            r matches Ok(ids) ==> {
                &&& ids@ == id_range(old(self).counter_view() as int, deployed@.len() as int)
                &&& final(self).extends(*old(self), deployed@)
            },
            r matches Err(e) ==> {
                &&& *final(self) == *old(self)
                &&& (e matches RegistryError::DeploymentCollision(a) && collision(
                    old(self).crowdfunds_view(),
                    deployed@,
                    a,
                ))
            },
    {
        let ghost existing = self.crowdfunds@;
        let mut all: Vec<Address> = Vec::new();
        let mut i: usize = 0;
        while i < self.crowdfunds.len()
            invariant
                0 <= i <= self.crowdfunds.len(),
                all@ == self.crowdfunds@.take(i as int),
            decreases self.crowdfunds.len() - i,
        {
            all.push(self.crowdfunds[i]);
            assert(self.crowdfunds@.take(i + 1) =~= self.crowdfunds@.take(i as int).push(self.crowdfunds@[i as int]));
            i = i + 1;
        }
        assert(self.crowdfunds@.take(i as int) =~= self.crowdfunds@);
        let mut ids: Vec<u64> = Vec::new();
        let mut k: usize = 0;
        while k < deployed.len()
            invariant
                self.wf(),
                self.crowdfunds@ == existing,
                self.counter_view() + deployed@.len() <= u64::MAX,
                0 <= k <= deployed.len(),
                all@ == existing + deployed@.take(k as int),
                all@.no_duplicates(),
                ids@ == id_range(self.counter_view() as int, k as int),
            decreases deployed.len() - k,
        {
            let a = deployed[k];
            if contains(&all, &a) {
                let ghost whole = existing + deployed@;
                let ghost j = all@.index_of(a);
                assert(whole[j] == all@[j]);
                assert(whole[existing.len() + k] == a);
                return Err(RegistryError::DeploymentCollision(a));
            }
            proof {
                assert forall|x: int, y: int|
                    0 <= x < all@.len() + 1 && 0 <= y < all@.len() + 1 && x != y implies all@.push(a)[x]
                        != all@.push(a)[y] by {
                    if x < all@.len() && y < all@.len() {
                    } else if x < all@.len() {
                        assert(all@.contains(all@[x]));
                    } else {
                        assert(all@.contains(all@[y]));
                    }
                }
            }
            all.push(a);
            ids.push(self.counter + k as u64 + 1);
            assert(deployed@.take(k + 1) =~= deployed@.take(k as int).push(a));
            assert(ids@ =~= id_range(self.counter_view() as int, k + 1));
            k = k + 1;
        }
        assert(deployed@.take(k as int) =~= deployed@);
        self.counter = self.counter + deployed.len() as u64;
        self.crowdfunds = all;
        Ok(ids)
    }

    /// Creates one campaign per entry of `crowdfund_args_list`, in order, at
    /// the instances that its deployments produced (`deployed`, in the same
    /// order). The new campaigns get the next ids; each gets a creation
    /// event. Only the admin may create campaigns; nothing is registered when
    /// the call fails.
    pub fn creat_batch_crowdfunds(
        &mut self,
        caller: &Address,
        crowdfund_args_list: Vec<CrowdfundArgs>,
        deployed: &Vec<Address>,
    ) -> (r: Result<(Vec<u64>, Vec<RegistryEvent>), RegistryError>)
        requires
            old(self).wf(),
            deployed@.len() == crowdfund_args_list@.len(),
            old(self).counter_view() + deployed@.len() <= u64::MAX,
        ensures
            final(self).wf(),
            r is Err ==> *final(self) == *old(self),
            *caller != old(self).admin_view() ==> r == Err::<(Vec<u64>, Vec<RegistryEvent>), RegistryError>(
                RegistryError::Unauthorized,
            ),
            *caller == old(self).admin_view() ==> (r is Ok <==> (old(self).crowdfunds_view()
                + deployed@).no_duplicates()),
            r matches Ok((ids, events)) ==> {
                &&& ids@ == id_range(old(self).counter_view() as int, deployed@.len() as int)
                &&& final(self).extends(*old(self), deployed@)
                &&& events@ == Seq::new(
                    ids@.len(),
                    |i: int| created_event(ids@[i], crowdfund_args_list@[i]),
                )
            },
            *caller == old(self).admin_view() && r is Err ==> (r matches Err(
                RegistryError::DeploymentCollision(a),
            ) && collision(old(self).crowdfunds_view(), deployed@, a)),
    {
        if !caller.same(&self.admin) {
            return Err(RegistryError::Unauthorized);
        }
        let ids = match self.append_crowdfunds(deployed) {
            Ok(ids) => ids,
            Err(e) => {
                return Err(e);
            },
        };
        let mut events: Vec<RegistryEvent> = Vec::new();
        let mut i: usize = 0;
        while i < ids.len()
            invariant
                0 <= i <= ids.len(),
                ids@.len() == crowdfund_args_list@.len(),
                events@ == Seq::new(i as nat, |j: int| created_event(ids@[j], crowdfund_args_list@[j])),
            decreases ids.len() - i,
        {
            let args = crowdfund_args_list[i];
            let event = creat_crowdfund_event(ids[i], args.recipient, args.deadline, args.target_amount, args.token);
            events.push(event);
            assert(events@ =~= Seq::new((i + 1) as nat, |j: int| created_event(ids@[j], crowdfund_args_list@[j])));
            i = i + 1;
        }
        Ok((ids, events))
    }

    /// Creates one campaign per entry of `crowdfund_args_list` as
    /// [`Self::creat_batch_crowdfunds`] does, with one event for the whole
    /// batch that carries the list.
    pub fn creat_batch_crowdfunds_v2(
        &mut self,
        caller: &Address,
        crowdfund_args_list: Vec<CrowdfundArgs>,
        deployed: &Vec<Address>,
    ) -> (r: Result<(Vec<u64>, RegistryEvent), RegistryError>)
        requires
            old(self).wf(),
            deployed@.len() == crowdfund_args_list@.len(),
            old(self).counter_view() + deployed@.len() <= u64::MAX,
        ensures
            final(self).wf(),
            r is Err ==> *final(self) == *old(self),
            *caller != old(self).admin_view() ==> r == Err::<(Vec<u64>, RegistryEvent), RegistryError>(
                RegistryError::Unauthorized,
            ),
            *caller == old(self).admin_view() ==> (r is Ok <==> (old(self).crowdfunds_view()
                + deployed@).no_duplicates()),
            r matches Ok((ids, event)) ==> {
                &&& ids@ == id_range(old(self).counter_view() as int, deployed@.len() as int)
                &&& final(self).extends(*old(self), deployed@)
                &&& event == (RegistryEvent::CrowdfundsCreated { crowdfund_args_list })
            },
            *caller == old(self).admin_view() && r is Err ==> (r matches Err(
                RegistryError::DeploymentCollision(a),
            ) && collision(old(self).crowdfunds_view(), deployed@, a)),
    {
        if !caller.same(&self.admin) {
            return Err(RegistryError::Unauthorized);
        }
        match self.append_crowdfunds(deployed) {
            Ok(ids) => Ok((ids, creat_crowdfund_event_v2(crowdfund_args_list))),
            Err(e) => Err(e),
        }
    }

    /// Forwards each pledge of `batch_pledge`, in order, as a deposit into the
    /// campaign registered under its id, on behalf of `caller`, from the
    /// registry at `this`. Only the admin may forward; an id that names no
    /// campaign refuses the whole batch.
    pub fn deposit_to_batch_crowdfunds(
        &self,
        caller: &Address,
        this: &Address,
        batch_pledge: Vec<Pledge>,
    ) -> (r: Result<BatchDispatch, RegistryError>)
        requires
            self.wf(),
        ensures
            *caller != self.admin_view() ==> r == Err::<BatchDispatch, RegistryError>(
                RegistryError::Unauthorized,
            ),
            *caller == self.admin_view() ==> (r is Ok <==> self.all_known(pledge_ids(batch_pledge@))),
            r matches Ok(d) ==> {
                &&& d.wf()
                &&& d.done_view() == 0
                &&& d.calls_view() == batch_pledge@.map_values(
                    |p: Pledge| deposit_call(*this, self.address_of(p.crowdfund_id), p.donor, p.amount),
                )
                &&& d.event_view() == (RegistryEvent::DepositBatch { pledges: batch_pledge })
            },
            *caller == self.admin_view() && r is Err ==> (r matches Err(
                RegistryError::UnknownCampaign(id),
            ) && exists|k: int| self.first_unknown(pledge_ids(batch_pledge@), k) && id == batch_pledge@[k].crowdfund_id),
    {
        if !caller.same(&self.admin) {
            return Err(RegistryError::Unauthorized);
        }
        let ghost ids = pledge_ids(batch_pledge@);
        let mut calls: Vec<Invocation> = Vec::new();
        let mut i: usize = 0;
        while i < batch_pledge.len()
            invariant
                self.wf(),
                *caller == self.admin_view(),
                ids == pledge_ids(batch_pledge@),
                0 <= i <= batch_pledge.len(),
                self.all_known(ids.take(i as int)),
                calls@ == batch_pledge@.take(i as int).map_values(
                    |p: Pledge| deposit_call(*this, self.address_of(p.crowdfund_id), p.donor, p.amount),
                ),
            decreases batch_pledge.len() - i,
        {
            let p = batch_pledge[i];
            match self.get_crowdfund_from_map(p.crowdfund_id) {
                None => {
                    assert(forall|j: int| 0 <= j < i ==> ids.take(i as int)[j] == ids[j]);
                    assert(self.first_unknown(ids, i as int));
                    return Err(RegistryError::UnknownCampaign(p.crowdfund_id));
                },
                Some(address) => {
                    calls.push(deposit(this, address, p.donor, p.amount));
                },
            }
            assert(batch_pledge@.take(i + 1) =~= batch_pledge@.take(i as int).push(p));
            assert(ids.take(i + 1) =~= ids.take(i as int).push(p.crowdfund_id));
            i = i + 1;
        }
        assert(batch_pledge@.take(i as int) =~= batch_pledge@);
        assert(ids.take(i as int) =~= ids);
        Ok(BatchDispatch::new(calls, deposit_batch_crowdfunds_event(batch_pledge)))
    }

    /// Forwards each request of `batch_withdraw`, in order, as a withdrawal
    /// from the campaign registered under its id, on behalf of `caller`, from
    /// the registry at `this`. Only the admin may forward; an id that names no
    /// campaign refuses the whole batch.
    pub fn withdraw_from_batch_crowdfunds(
        &self,
        caller: &Address,
        this: &Address,
        batch_withdraw: Vec<Withdraw>,
    ) -> (r: Result<BatchDispatch, RegistryError>)
        requires
            self.wf(),
        ensures
            *caller != self.admin_view() ==> r == Err::<BatchDispatch, RegistryError>(
                RegistryError::Unauthorized,
            ),
            *caller == self.admin_view() ==> (r is Ok <==> self.all_known(withdraw_ids(batch_withdraw@))),
            r matches Ok(d) ==> {
                &&& d.wf()
                &&& d.done_view() == 0
                &&& d.calls_view() == batch_withdraw@.map_values(
                    |w: Withdraw| withdraw_call(*this, self.address_of(w.crowdfund_id), w.drawer),
                )
                &&& d.event_view() == (RegistryEvent::WithdrawBatch { withdraws: batch_withdraw })
            },
            *caller == self.admin_view() && r is Err ==> (r matches Err(
                RegistryError::UnknownCampaign(id),
            ) && exists|k: int| self.first_unknown(withdraw_ids(batch_withdraw@), k) && id == batch_withdraw@[k].crowdfund_id),
    {
        if !caller.same(&self.admin) {
            return Err(RegistryError::Unauthorized);
        }
        let ghost ids = withdraw_ids(batch_withdraw@);
        let mut calls: Vec<Invocation> = Vec::new();
        let mut i: usize = 0;
        while i < batch_withdraw.len()
            invariant
                self.wf(),
                *caller == self.admin_view(),
                ids == withdraw_ids(batch_withdraw@),
                0 <= i <= batch_withdraw.len(),
                self.all_known(ids.take(i as int)),
                calls@ == batch_withdraw@.take(i as int).map_values(
                    |w: Withdraw| withdraw_call(*this, self.address_of(w.crowdfund_id), w.drawer),
                ),
            decreases batch_withdraw.len() - i,
        {
            let w = batch_withdraw[i];
            match self.get_crowdfund_from_map(w.crowdfund_id) {
                None => {
                    assert(forall|j: int| 0 <= j < i ==> ids.take(i as int)[j] == ids[j]);
                    assert(self.first_unknown(ids, i as int));
                    return Err(RegistryError::UnknownCampaign(w.crowdfund_id));
                },
                Some(address) => {
                    calls.push(withdraw(this, address, w.drawer));
                },
            }
            assert(batch_withdraw@.take(i + 1) =~= batch_withdraw@.take(i as int).push(w));
            assert(ids.take(i + 1) =~= ids.take(i as int).push(w.crowdfund_id));
            i = i + 1;
        }
        assert(batch_withdraw@.take(i as int) =~= batch_withdraw@);
        assert(ids.take(i as int) =~= ids);
        Ok(BatchDispatch::new(calls, withdraw_batch_crowdfunds_event(batch_withdraw)))
    }
}

/// Registering campaigns never drops or changes a registered one: every entry
/// of the map stays as it was, and the new ids map to the new instances in
/// order.
pub proof fn lemma_extends_is_append_only(
    before: CrowdfundRegistryContract,
    after: CrowdfundRegistryContract,
    deployed: Seq<Address>,
)
    requires
        before.wf(),
        after.wf(),
        after.extends(before, deployed),
    ensures
        before.crowdfund_map().submap_of(after.crowdfund_map()),
        forall|i: int|
            0 <= i < deployed.len() ==> after.crowdfund_map()[(before.counter_view() + i + 1) as u64]
                == deployed[i],
{
    assert forall|id: u64| #[trigger] before.crowdfund_map().contains_key(id) implies after.crowdfund_map().contains_key(
        id,
    ) && after.crowdfund_map()[id] == before.crowdfund_map()[id] by {
        assert((before.crowdfunds_view() + deployed)[id - 1] == before.crowdfunds_view()[id - 1]);
    }
    assert forall|i: int| 0 <= i < deployed.len() implies after.crowdfund_map()[(before.counter_view() + i + 1) as u64]
        == deployed[i] by {
        let id = (before.counter_view() + i + 1) as u64;
        assert(after.has_crowdfund(id));
        assert((before.crowdfunds_view() + deployed)[id - 1] == deployed[i]);
    }
}

fn contains(v: &Vec<Address>, a: &Address) -> (r: bool)
    ensures
        r == v@.contains(*a),
{
    let mut i: usize = 0;
    while i < v.len()
        invariant
            0 <= i <= v.len(),
            forall|j: int| 0 <= j < i ==> v@[j] != *a,
        decreases v.len() - i,
    {
        if v[i].same(a) {
            return true;
        }
        i = i + 1;
    }
    false
}

fn no_repeats(v: &Vec<Address>) -> (r: bool)
    ensures
        r == v@.no_duplicates(),
{
    let mut i: usize = 0;
    while i < v.len()
        invariant
            0 <= i <= v.len(),
            v@.take(i as int).no_duplicates(),
        decreases v.len() - i,
    {
        let mut j: usize = 0;
        while j < i
            invariant
                0 <= j <= i < v.len(),
                forall|k: int| 0 <= k < j ==> v@[k] != v@[i as int],
            decreases i - j,
        {
            if v[j].same(&v[i]) {
                assert(v@[j as int] == v@[i as int]);
                return false;
            }
            j = j + 1;
        }
        assert(v@.take(i as int + 1) =~= v@.take(i as int).push(v@[i as int]));
        i = i + 1;
    }
    assert(v@.take(v.len() as int) =~= v@);
    true
}

} // verus!
