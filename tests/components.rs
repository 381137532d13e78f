use crowdfund_registry::crowdfund_client::{
    deploy, deploy_v2, deposit, withdraw, CampaignCall, CampaignCode, DeployRequest, Invocation,
};
use crowdfund_registry::events::{
    creat_crowdfund_event, deposit_batch_crowdfunds_event, register_init_event, withdraw_batch_crowdfunds_event,
    RegistryEvent,
};
use crowdfund_registry::registry::{creat_crowdfund, creat_crowdfund_v2};
use crowdfund_registry::storage_types::DataKey;
use crowdfund_registry::{
    Address, BatchDispatch, CrowdfundArgs, CrowdfundRegistryContract, Pledge, RegistryError, Withdraw,
};

fn account(n: u8) -> Address {
    Address::Account([n; 32])
}

fn registry_id() -> Address {
    Address::Contract([200; 32])
}

fn args(recipient: Address) -> CrowdfundArgs {
    CrowdfundArgs { recipient, deadline: 10, target_amount: 100, token: Address::Contract([100; 32]) }
}

#[test]
fn address_equality_looks_at_kind_and_key() {
    let a = Address::Account([3; 32]);
    let mut key = [3; 32];
    assert!(a.same(&Address::Account(key)));
    assert!(!a.same(&Address::Contract(key)));
    key[31] = 4;
    assert!(!a.same(&Address::Account(key)));
}

#[test]
fn authorization_is_skipped_for_the_registry_itself() {
    let campaign = Address::Contract([1; 32]);
    let by_donor = deposit(&registry_id(), campaign, account(5), 70);
    assert_eq!(
        by_donor,
        Invocation {
            contract: campaign,
            call: CampaignCall::Deposit { donor: account(5), amount: 70 },
            authorizer: Some(account(5)),
        }
    );
    let by_registry = deposit(&registry_id(), campaign, registry_id(), 70);
    assert_eq!(by_registry.authorizer, None);
    let w = withdraw(&registry_id(), campaign, account(6));
    assert_eq!(w.call, CampaignCall::Withdraw { drawer: account(6) });
    assert_eq!(w.authorizer, Some(account(6)));
    assert_eq!(withdraw(&registry_id(), campaign, registry_id()).authorizer, None);
}

#[test]
fn deployments_carry_code_salt_and_constructor() {
    let a = args(account(21));
    let d = deploy(&registry_id(), account(21), [9; 32], a);
    assert_eq!(
        d,
        DeployRequest {
            deployer: account(21),
            salt: [9; 32],
            code: CampaignCode::Bundled,
            constructor: CampaignCall::Initialize(a),
            authorizer: Some(account(21)),
        }
    );
    let d2 = deploy_v2(&registry_id(), registry_id(), [4; 32], [0; 32], a);
    assert_eq!(d2.code, CampaignCode::Uploaded([4; 32]));
    assert_eq!(d2.authorizer, None);
}

#[test]
fn campaigns_are_deployed_by_their_recipient_with_a_zero_salt() {
    let a = args(account(21));
    let d = creat_crowdfund(&registry_id(), &a);
    assert_eq!(d.deployer, account(21));
    assert_eq!(d.salt, [0; 32]);
    assert_eq!(d.code, CampaignCode::Bundled);
    assert_eq!(d.constructor, CampaignCall::Initialize(a));
    let d2 = creat_crowdfund_v2(&registry_id(), &[8; 32], a);
    assert_eq!(d2.code, CampaignCode::Uploaded([8; 32]));
    assert_eq!(d2.salt, [0; 32]);
}

#[test]
fn plan_follows_the_list_and_needs_the_admin() {
    let (registry, _) = CrowdfundRegistryContract::initialize(account(1));
    let list = vec![args(account(21)), args(account(22))];
    let reqs = registry.plan_batch_crowdfunds(&account(1), &registry_id(), CampaignCode::Bundled, &list).unwrap();
    assert_eq!(reqs.len(), 2);
    assert_eq!(reqs[1], creat_crowdfund(&registry_id(), &list[1]));
    assert_eq!(
        registry.plan_batch_crowdfunds(&account(2), &registry_id(), CampaignCode::Bundled, &list),
        Err(RegistryError::Unauthorized)
    );
}

#[test]
fn commit_detects_collisions_and_changes_nothing() {
    let (mut registry, _) = CrowdfundRegistryContract::initialize(account(1));
    let c1 = Address::Contract([1; 32]);
    let c2 = Address::Contract([2; 32]);
    let (ids, events) = registry.creat_batch_crowdfunds(&account(1), vec![args(account(21))], &vec![c1]).unwrap();
    assert_eq!(ids, vec![1]);
    assert_eq!(events, vec![creat_crowdfund_event(1, account(21), 10, 100, Address::Contract([100; 32]))]);

    let r = registry.creat_batch_crowdfunds(&account(1), vec![args(account(22)), args(account(23))], &vec![c2, c1]);
    assert_eq!(r, Err(RegistryError::DeploymentCollision(c1)));
    let r = registry.creat_batch_crowdfunds_v2(&account(1), vec![args(account(22)), args(account(23))], &vec![c2, c2]);
    assert_eq!(r, Err(RegistryError::DeploymentCollision(c2)));
    assert_eq!(registry.counter(), 1);
    assert_eq!(registry.get_crowdfund_from_map(1), Some(c1));
    assert_eq!(registry.get_crowdfund_from_map(2), None);

    let r = registry.creat_batch_crowdfunds_v2(&account(3), vec![args(account(22))], &vec![c2]);
    assert_eq!(r, Err(RegistryError::Unauthorized));
    let (ids, event) = registry.creat_batch_crowdfunds_v2(&account(1), vec![args(account(22))], &vec![c2]).unwrap();
    assert_eq!(ids, vec![2]);
    assert_eq!(event, RegistryEvent::CrowdfundsCreated { crowdfund_args_list: vec![args(account(22))] });
    assert_eq!(registry.get_crowdfund_from_map(2), Some(c2));
    assert_eq!(registry.get_crowdfund_from_map(0), None);
}

#[test]
fn restore_checks_the_stored_state() {
    let c1 = Address::Contract([1; 32]);
    let c2 = Address::Contract([2; 32]);
    assert!(CrowdfundRegistryContract::restore(account(1), 2, vec![c1]).is_none());
    assert!(CrowdfundRegistryContract::restore(account(1), 2, vec![c1, c1]).is_none());
    let r = CrowdfundRegistryContract::restore(account(1), 2, vec![c1, c2]).unwrap();
    assert_eq!(r.admin(), account(1));
    assert_eq!(r.counter(), 2);
    assert_eq!(r.get_crowdfund_from_map(2), Some(c2));
    assert_eq!(r.get_crowdfund_from_map(3), None);
}

#[test]
fn dispatch_routes_each_item_to_its_campaign() {
    let c1 = Address::Contract([1; 32]);
    let c2 = Address::Contract([2; 32]);
    let registry = CrowdfundRegistryContract::restore(account(1), 2, vec![c1, c2]).unwrap();
    let pledges = vec![
        Pledge { donor: account(11), amount: 5, crowdfund_id: 2 },
        Pledge { donor: account(12), amount: 6, crowdfund_id: 1 },
    ];
    let d = registry.deposit_to_batch_crowdfunds(&account(1), &registry_id(), pledges.clone()).unwrap();
    assert_eq!(d.next_call(), Some(deposit(&registry_id(), c2, account(11), 5)));
    let d = d.record(Ok(())).unwrap();
    assert_eq!(d.next_call(), Some(deposit(&registry_id(), c1, account(12), 6)));
    let d = d.record(Ok(())).unwrap();
    assert_eq!(d.next_call(), None);
    assert_eq!(d.finish(), Some(deposit_batch_crowdfunds_event(pledges)));

    let withdraws = vec![Withdraw { drawer: account(11), crowdfund_id: 1 }];
    let d = registry.withdraw_from_batch_crowdfunds(&account(1), &registry_id(), withdraws.clone()).unwrap();
    assert_eq!(d.next_call(), Some(withdraw(&registry_id(), c1, account(11))));
    let d = d.record(Ok(())).unwrap();
    assert_eq!(d.finish(), Some(withdraw_batch_crowdfunds_event(withdraws)));
}

#[test]
fn dispatch_stops_at_the_first_failure() {
    let c1 = Address::Contract([1; 32]);
    let registry = CrowdfundRegistryContract::restore(account(1), 1, vec![c1]).unwrap();
    let pledges = vec![
        Pledge { donor: account(11), amount: 5, crowdfund_id: 1 },
        Pledge { donor: account(12), amount: 6, crowdfund_id: 1 },
    ];
    let d = registry.deposit_to_batch_crowdfunds(&account(1), &registry_id(), pledges.clone()).unwrap();
    let r = d.record(Err("boom".to_string()));
    assert_eq!(r.err(), Some(RegistryError::DownstreamFailure("boom".to_string())));
    let d = registry.deposit_to_batch_crowdfunds(&account(1), &registry_id(), pledges).unwrap();
    let d = d.record(Ok(())).unwrap();
    assert!(d.next_call().is_some());
    assert_eq!(d.finish(), None);
    let empty = BatchDispatch::new(Vec::new(), register_init_event(account(1)));
    assert_eq!(empty.next_call(), None);
    assert_eq!(empty.finish(), Some(RegistryEvent::RegistryInit { admin: account(1) }));
}

#[test]
fn event_topics() {
    let a = account(1);
    assert_eq!(register_init_event(a).topic(), "registry_init_success");
    assert_eq!(creat_crowdfund_event(1, a, 2, 3, a).topic(), "creat_crowdfund_event");
    assert_eq!(RegistryEvent::CrowdfundsCreated { crowdfund_args_list: vec![] }.topic(), "creat_crowdfund_event");
    assert_eq!(deposit_batch_crowdfunds_event(vec![]).topic(), "deposit_batch_crowdfunds_event");
    assert_eq!(withdraw_batch_crowdfunds_event(vec![]).topic(), "withdraw_batch_crowdfunds_event");
}

#[test]
fn storage_keys_are_distinct() {
    assert_ne!(DataKey::Counter, DataKey::Admin);
    assert_ne!(DataKey::CrowdfundId(1), DataKey::CrowdfundId(2));
    assert_eq!(DataKey::CrowdfundMap, DataKey::CrowdfundMap);
}
