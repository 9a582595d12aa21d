use mvx_challenge::subscription::admin::AdminModule;
use mvx_challenge::subscription::price::{CalleeContract, PriceModule};
use mvx_challenge::subscription::private::PrivateModule;
use mvx_challenge::subscription::services::ServicesModule;
use mvx_challenge::subscription::storage::StorageModule;
use mvx_challenge::subscription::types::{usdc_token_id_bytes, wegld_token_id_bytes, Service};
use mvx_challenge::subscription::{SubscriptionContract, SubscriptionEffect, SubscriptionError};

fn addr(s: &str) -> Vec<u8> {
    s.as_bytes().to_vec()
}

fn service(token: &str, next_payment: u64, price: u128, description: &str) -> Service {
    Service { token_id: addr(token), next_payment, price_in_usd: price, description: addr(description) }
}

fn owner() -> Vec<u8> {
    addr("owner")
}

/// An enabled contract that knows the WEGLD pair, the safe-price contract,
/// and whitelists WEGLD.
fn ready() -> SubscriptionContract {
    let mut c = SubscriptionContract::new();
    c.init(Some(true), Some(vec![(addr("USDCWEGLD"), addr("pair-wegld")), (addr("USDCEGLD"), addr("pair-egld"))]));
    c.safe_price_contract_address = Some(addr("oracle"));
    c.whitelist_token_ids(&owner(), &owner(), vec![wegld_token_id_bytes()]).unwrap();
    c
}

#[test]
fn token_constants() {
    assert_eq!(usdc_token_id_bytes(), addr("USDC-c76f1f"));
    assert_eq!(wegld_token_id_bytes(), addr("WEGLD-bd4d79"));
}

#[test]
fn init_enables_and_records_pairs() {
    let mut c = SubscriptionContract::new();
    assert!(!c.enabled());
    c.init(Some(false), Some(vec![(addr("A"), addr("1")), (addr("A"), addr("2")), (addr("B"), addr("3"))]));
    assert!(c.enabled());
    assert_eq!(c.pair_address(&addr("A")), Ok(addr("2")));
    assert_eq!(c.pair_address(&addr("B")), Ok(addr("3")));
    assert_eq!(c.pair_address(&addr("C")), Err(SubscriptionError::StorageDecode));
}

#[test]
fn owner_only_settings() {
    let mut c = ready();
    assert_eq!(c.disable_contract(&addr("eve"), &owner()), Err(SubscriptionError::NotOwner));
    assert_eq!(c.whitelist_token_ids(&addr("eve"), &owner(), vec![addr("X-111111")]), Err(SubscriptionError::NotOwner));
    assert_eq!(c.remove_token_ids(&addr("eve"), &owner(), vec![wegld_token_id_bytes()]), Err(SubscriptionError::NotOwner));
    assert_eq!(
        c.add_pair_addresses(&addr("eve"), &owner(), vec![(addr("P"), addr("p"))]),
        Err(SubscriptionError::NotOwner)
    );
    assert_eq!(c.enable_contract(&addr("eve"), &owner()), Err(SubscriptionError::NotOwner));
    assert_eq!(c.add_pair_addresses(&owner(), &owner(), vec![(addr("P"), addr("p"))]), Ok(()));
    assert_eq!(c.pair_address(&addr("P")), Ok(addr("p")));
    assert_eq!(c.disable_contract(&owner(), &owner()), Ok(()));
    assert!(!c.enabled());
    assert_eq!(c.enable_contract(&owner(), &owner()), Ok(()));
    assert!(c.enabled());
}

#[test]
fn whitelist_keeps_order_and_removes_by_swapping() {
    let mut c = SubscriptionContract::new();
    c.whitelist_token_ids(&owner(), &owner(), vec![addr("A-111111"), addr("B-222222"), addr("A-111111"), addr("C-333333")])
        .unwrap();
    assert_eq!(c.whitelisted_token_ids(), vec![addr("A-111111"), addr("B-222222"), addr("C-333333")]);
    c.remove_token_ids(&owner(), &owner(), vec![addr("A-111111"), addr("Z-999999")]).unwrap();
    assert_eq!(c.whitelisted_token_ids(), vec![addr("C-333333"), addr("B-222222")]);
}

#[test]
fn maintenance_refuses_users_and_providers() {
    let mut c = ready();
    c.disable_contract(&owner(), &owner()).unwrap();
    assert_eq!(c.deposit(&addr("alice"), addr("EGLD"), 1), Err(SubscriptionError::Maintenance));
    assert_eq!(c.withdraw(&addr("alice"), addr("EGLD"), 1), Err(SubscriptionError::Maintenance));
    assert_eq!(c.subscribe(&addr("alice"), &addr("netflix"), vec![1]), Err(SubscriptionError::Maintenance));
    assert_eq!(c.unsubscribe(&addr("alice"), &addr("netflix"), vec![1]), Err(SubscriptionError::Maintenance));
    assert_eq!(
        c.register_service_provider(&addr("bob"), addr("netflix"), vec![]),
        Err(SubscriptionError::Maintenance)
    );
    assert_eq!(
        c.claim_subscription_fee(&addr("bob"), &addr("netflix"), 1, &addr("alice")),
        Err(SubscriptionError::Maintenance)
    );
}

#[test]
fn deposit_needs_an_allowed_token() {
    let mut c = ready();
    assert_eq!(c.deposit(&addr("alice"), addr("MEX-455c57"), 5), Err(SubscriptionError::TokenNotWhitelisted));
    assert_eq!(c.deposit(&addr("alice"), addr("EGLD"), 5), Ok(()));
    assert_eq!(c.deposit(&addr("alice"), wegld_token_id_bytes(), 7), Ok(()));
    assert_eq!(c.balance(&addr("alice"), &addr("EGLD")), 5);
    assert_eq!(c.balance(&addr("alice"), &wegld_token_id_bytes()), 7);
    assert_eq!(c.balance_token_ids(&addr("alice")), vec![addr("EGLD"), wegld_token_id_bytes()]);
}

#[test]
fn deposit_overflow_is_refused() {
    let mut c = ready();
    c.deposit(&addr("alice"), addr("EGLD"), u128::MAX).unwrap();
    assert_eq!(c.deposit(&addr("alice"), addr("EGLD"), 1), Err(SubscriptionError::AmountOverflow));
}

#[test]
fn withdraw_sends_back() {
    let mut c = ready();
    c.deposit(&addr("alice"), addr("EGLD"), 5).unwrap();
    assert_eq!(c.withdraw(&addr("alice"), addr("EGLD"), 6), Err(SubscriptionError::NotEnoughBalance));
    assert_eq!(
        c.withdraw(&addr("alice"), addr("EGLD"), 5),
        Ok(SubscriptionEffect::Send { to: addr("alice"), token_id: addr("EGLD"), nonce: 0, amount: 5 })
    );
    assert_eq!(c.balance(&addr("alice"), &addr("EGLD")), 0);
    assert!(c.balance_token_ids(&addr("alice")).is_empty());
    assert_eq!(c.withdraw(&addr("alice"), addr("MEX-455c57"), 0), Err(SubscriptionError::TokenNotWhitelisted));
}

#[test]
fn register_once_with_allowed_tokens() {
    let mut c = ready();
    assert_eq!(
        c.register_service_provider(&addr("bob"), addr("netflix"), vec![service("MEX-455c57", 30, 10, "hd")]),
        Err(SubscriptionError::TokenNotWhitelisted)
    );
    let s1 = service("WEGLD-bd4d79", 30, 10, "hd");
    let s2 = service("EGLD", 7, 3, "sd");
    assert_eq!(c.register_service_provider(&addr("bob"), addr("netflix"), vec![s1.clone(), s2.clone()]), Ok(()));
    assert_eq!(c.service_providers(), vec![addr("netflix")]);
    assert_eq!(c.admin_service_provider(&addr("netflix")), Ok(addr("bob")));
    assert_eq!(c.services(&addr("netflix")), Ok(vec![s1, s2]));
    assert_eq!(
        c.register_service_provider(&addr("carol"), addr("netflix"), vec![]),
        Err(SubscriptionError::ProviderRegistered)
    );
    assert_eq!(c.admin_service_provider(&addr("hbo")), Err(SubscriptionError::StorageDecode));
}

#[test]
fn only_the_admin_changes_services() {
    let mut c = ready();
    c.register_service_provider(&addr("bob"), addr("netflix"), vec![service("EGLD", 7, 3, "sd")]).unwrap();
    let s = service("EGLD", 1, 1, "x");
    assert_eq!(c.add_services(&addr("eve"), &addr("netflix"), vec![s.clone()]), Err(SubscriptionError::CallerNotAllowed));
    assert_eq!(
        c.replace_services(&addr("eve"), &addr("netflix"), vec![(1, s.clone())]),
        Err(SubscriptionError::CallerNotAllowed)
    );
    assert_eq!(c.remove_services(&addr("eve"), &addr("netflix"), vec![1]), Err(SubscriptionError::CallerNotAllowed));
    assert_eq!(c.add_services(&addr("bob"), &addr("hbo"), vec![s]), Err(SubscriptionError::StorageDecode));
}

#[test]
fn admin_adds_replaces_and_removes_services() {
    let mut c = ready();
    let s1 = service("EGLD", 7, 3, "one");
    let s2 = service("WEGLD-bd4d79", 30, 12, "two");
    let s3 = service("EGLD", 1, 1, "three");
    c.register_service_provider(&addr("bob"), addr("netflix"), vec![s1.clone()]).unwrap();
    assert_eq!(c.add_services(&addr("bob"), &addr("netflix"), vec![s2.clone()]), Ok(()));
    assert_eq!(c.services(&addr("netflix")), Ok(vec![s1.clone(), s2.clone()]));
    assert_eq!(
        c.add_services(&addr("bob"), &addr("netflix"), vec![service("MEX-455c57", 1, 1, "")]),
        Err(SubscriptionError::TokenNotWhitelisted)
    );
    assert_eq!(
        c.replace_services(&addr("bob"), &addr("netflix"), vec![(3, s3.clone())]),
        Err(SubscriptionError::IndexOutOfRange)
    );
    assert_eq!(
        c.replace_services(&addr("bob"), &addr("netflix"), vec![(0, s3.clone())]),
        Err(SubscriptionError::IndexOutOfRange)
    );
    assert_eq!(c.replace_services(&addr("bob"), &addr("netflix"), vec![(1, s3.clone())]), Ok(()));
    assert_eq!(c.services(&addr("netflix")), Ok(vec![s3.clone(), s2.clone()]));
    assert_eq!(c.remove_services(&addr("bob"), &addr("netflix"), vec![5]), Err(SubscriptionError::IndexOutOfRange));
    assert_eq!(c.remove_services(&addr("bob"), &addr("netflix"), vec![1]), Ok(()));
    assert_eq!(c.services(&addr("netflix")), Err(SubscriptionError::StorageDecode));
}

#[test]
fn subscribe_asks_the_price_of_the_first_service() {
    let mut c = ready();
    c.register_service_provider(
        &addr("bob"),
        addr("netflix"),
        vec![service("WEGLD-bd4d79", 30, 10, "hd"), service("EGLD", 7, 3, "sd")],
    )
    .unwrap();
    assert_eq!(
        c.subscribe(&addr("alice"), &addr("netflix"), vec![1, 2]),
        Ok(Some(SubscriptionEffect::PriceQuery {
            contract: addr("oracle"),
            pair_address: addr("pair-wegld"),
            token_id: addr("USDC-c76f1f"),
            nonce: 0,
            amount: 10,
        }))
    );
    assert_eq!(
        c.subscribe(&addr("alice"), &addr("netflix"), vec![2]),
        Ok(Some(SubscriptionEffect::PriceQuery {
            contract: addr("oracle"),
            pair_address: addr("pair-egld"),
            token_id: addr("USDC-c76f1f"),
            nonce: 0,
            amount: 3,
        }))
    );
    assert!(c.subscribed_services(&addr("alice"), &addr("netflix")).is_empty());
    assert_eq!(c.subscribe(&addr("alice"), &addr("netflix"), vec![]), Ok(None));
}

#[test]
fn subscribe_refusals() {
    let mut c = ready();
    assert_eq!(c.subscribe(&addr("alice"), &addr("netflix"), vec![1]), Err(SubscriptionError::StorageDecode));
    c.register_service_provider(&addr("bob"), addr("netflix"), vec![service("WEGLD-bd4d79", 30, 10, "hd")])
        .unwrap();
    assert_eq!(c.subscribe(&addr("alice"), &addr("netflix"), vec![2]), Err(SubscriptionError::IndexOutOfRange));
    assert_eq!(c.subscribe(&addr("alice"), &addr("netflix"), vec![0]), Err(SubscriptionError::IndexOutOfRange));
    c.update_user_balance_after_subscribing(&addr("alice"), 0, &addr("EGLD"), 0, &addr("netflix"), 1, 1).unwrap();
    assert_eq!(c.subscribe(&addr("alice"), &addr("netflix"), vec![1]), Err(SubscriptionError::AlreadySubscribed));
    c.remove_services(&addr("bob"), &addr("netflix"), vec![1]).unwrap();
    assert_eq!(c.subscribe(&addr("carol"), &addr("netflix"), vec![1]), Err(SubscriptionError::ServiceMissing));
}

#[test]
fn subscribe_needs_known_pair_and_oracle() {
    let mut c = SubscriptionContract::new();
    c.init(Some(true), None);
    c.whitelist_token_ids(&owner(), &owner(), vec![addr("MEX-455c57"), addr("AB")]).unwrap();
    c.register_service_provider(
        &addr("bob"),
        addr("p"),
        vec![service("MEX-455c57", 1, 5, ""), service("AB", 1, 5, ""), service("EGLD", 1, 5, "")],
    )
    .unwrap();
    assert_eq!(c.subscribe(&addr("alice"), &addr("p"), vec![1]), Err(SubscriptionError::PairNotFound));
    assert_eq!(c.subscribe(&addr("alice"), &addr("p"), vec![2]), Err(SubscriptionError::BadTokenTickerFormat));
    c.add_pair_addresses(&owner(), &owner(), vec![(addr("USDCMEX"), addr("pair-mex"))]).unwrap();
    assert_eq!(c.subscribe(&addr("alice"), &addr("p"), vec![1]), Err(SubscriptionError::StorageDecode));
    c.safe_price_contract_address = Some(addr("oracle"));
    assert_eq!(
        c.subscribe(&addr("alice"), &addr("p"), vec![1]),
        Ok(Some(SubscriptionEffect::PriceQuery {
            contract: addr("oracle"),
            pair_address: addr("pair-mex"),
            token_id: addr("USDC-c76f1f"),
            nonce: 0,
            amount: 5,
        }))
    );
    assert_eq!(c.get_pair_address(&addr("EGLD")), Err(SubscriptionError::PairNotFound));
    assert_eq!(c.get_pair_address(&addr("MEX-455c57")), Ok(addr("pair-mex")));
}

#[test]
fn paid_subscription_is_recorded() {
    let mut c = ready();
    c.register_service_provider(&addr("bob"), addr("netflix"), vec![service("EGLD", 30, 10, "hd")]).unwrap();
    c.deposit(&addr("alice"), addr("EGLD"), 100).unwrap();
    assert_eq!(
        c.update_user_balance_after_subscribing(&addr("alice"), 100, &addr("EGLD"), 101, &addr("netflix"), 5, 1),
        Err(SubscriptionError::NegativeSubtraction)
    );
    assert_eq!(
        c.update_user_balance_after_subscribing(&addr("alice"), 100, &addr("EGLD"), 40, &addr("netflix"), 5, 1),
        Ok(())
    );
    assert_eq!(c.balance(&addr("alice"), &addr("EGLD")), 60);
    assert_eq!(c.subscribed_services(&addr("alice"), &addr("netflix")), vec![1]);
    assert_eq!(c.last_claimed_subscription_fee(&addr("netflix"), 1, &addr("alice")), 5);
    assert_eq!(
        c.require_elligible_claim(34, 30, &addr("netflix"), 1, &addr("alice")),
        Err(SubscriptionError::ClaimTooEarly)
    );
    assert_eq!(c.require_elligible_claim(35, 30, &addr("netflix"), 1, &addr("alice")), Ok(()));
    assert_eq!(
        c.update_user_balance_after_claim(&addr("alice"), 60, &addr("EGLD"), 40, &addr("netflix"), 35, 1),
        Ok(())
    );
    assert_eq!(c.balance(&addr("alice"), &addr("EGLD")), 20);
    assert_eq!(c.last_claimed_subscription_fee(&addr("netflix"), 1, &addr("alice")), 35);
}

#[test]
fn unsubscribe_once() {
    let mut c = ready();
    c.register_service_provider(&addr("bob"), addr("netflix"), vec![service("EGLD", 30, 10, "a"), service("EGLD", 30, 10, "b")])
        .unwrap();
    c.update_user_balance_after_subscribing(&addr("alice"), 0, &addr("EGLD"), 0, &addr("netflix"), 1, 1).unwrap();
    c.update_user_balance_after_subscribing(&addr("alice"), 0, &addr("EGLD"), 0, &addr("netflix"), 1, 2).unwrap();
    assert_eq!(c.unsubscribe(&addr("alice"), &addr("netflix"), vec![1, 1]), Err(SubscriptionError::NotSubscribed));
    assert_eq!(c.subscribed_services(&addr("alice"), &addr("netflix")), vec![1, 2]);
    assert_eq!(c.unsubscribe(&addr("alice"), &addr("netflix"), vec![1]), Ok(()));
    assert_eq!(c.subscribed_services(&addr("alice"), &addr("netflix")), vec![2]);
    assert_eq!(c.unsubscribe(&addr("alice"), &addr("netflix"), vec![1]), Err(SubscriptionError::NotSubscribed));
    assert_eq!(c.unsubscribe(&addr("alice"), &addr("netflix"), vec![2]), Ok(()));
    assert!(c.subscribed_services(&addr("alice"), &addr("netflix")).is_empty());
}

#[test]
fn claim_by_the_admin_of_a_subscribed_user() {
    let mut c = ready();
    c.register_service_provider(&addr("bob"), addr("netflix"), vec![service("WEGLD-bd4d79", 30, 10, "hd")])
        .unwrap();
    assert_eq!(
        c.claim_subscription_fee(&addr("eve"), &addr("netflix"), 1, &addr("alice")),
        Err(SubscriptionError::CallerNotAllowed)
    );
    assert_eq!(
        c.claim_subscription_fee(&addr("bob"), &addr("netflix"), 1, &addr("alice")),
        Err(SubscriptionError::NotSubscribed)
    );
    c.update_user_balance_after_subscribing(&addr("alice"), 0, &addr("EGLD"), 0, &addr("netflix"), 1, 1).unwrap();
    assert_eq!(
        c.claim_subscription_fee(&addr("bob"), &addr("netflix"), 1, &addr("alice")),
        Ok(SubscriptionEffect::PriceQuery {
            contract: addr("oracle"),
            pair_address: addr("pair-wegld"),
            token_id: addr("USDC-c76f1f"),
            nonce: 0,
            amount: 10,
        })
    );
}

#[test]
fn removed_service_unsubscribes_on_check() {
    let mut c = ready();
    c.register_service_provider(&addr("bob"), addr("netflix"), vec![service("EGLD", 30, 10, "hd")]).unwrap();
    c.update_user_balance_after_subscribing(&addr("alice"), 0, &addr("EGLD"), 0, &addr("netflix"), 1, 1).unwrap();
    assert_eq!(c.check_service_exists(&addr("netflix"), 1, &addr("alice")), Ok(false));
    assert_eq!(c.check_service_exists(&addr("netflix"), 2, &addr("alice")), Err(SubscriptionError::IndexOutOfRange));
    c.remove_services(&addr("bob"), &addr("netflix"), vec![1]).unwrap();
    assert_eq!(
        c.claim_subscription_fee(&addr("bob"), &addr("netflix"), 1, &addr("alice")),
        Err(SubscriptionError::StorageDecode)
    );
    assert_eq!(c.check_service_exists(&addr("netflix"), 1, &addr("alice")), Ok(true));
    assert!(c.subscribed_services(&addr("alice"), &addr("netflix")).is_empty());
}

#[test]
fn fee_transfers_need_the_balance() {
    let mut c = ready();
    c.deposit(&addr("alice"), addr("EGLD"), 10).unwrap();
    assert_eq!(
        c.handle_egld_transfer(&addr("alice"), &addr("EGLD"), 11, &addr("svc")),
        Err(SubscriptionError::NotEnoughBalanceForFee)
    );
    assert_eq!(
        c.handle_egld_transfer(&addr("alice"), &addr("EGLD"), 10, &addr("svc")),
        Ok((10, SubscriptionEffect::Send { to: addr("svc"), token_id: addr("EGLD"), nonce: 0, amount: 10 }))
    );
    assert_eq!(
        c.handle_esdt_transfer(&addr("alice"), &wegld_token_id_bytes(), 1, &addr("svc")),
        Err(SubscriptionError::NotEnoughBalanceForFee)
    );
    assert!(!c.check_enough_balance(&addr("netflix"), 1, &addr("alice"), 10, 10));
    c.update_user_balance_after_subscribing(&addr("alice"), 0, &addr("EGLD"), 0, &addr("netflix"), 1, 1).unwrap();
    assert!(c.check_enough_balance(&addr("netflix"), 1, &addr("alice"), 9, 10));
    assert!(c.subscribed_services(&addr("alice"), &addr("netflix")).is_empty());
}

#[test]
fn token_checks() {
    let c = ready();
    assert_eq!(c.require_tokens_are_equal(&addr("A"), &addr("A")), Ok(()));
    assert_eq!(c.require_tokens_are_equal(&addr("A"), &addr("B")), Err(SubscriptionError::TokenMismatch));
    assert_eq!(c.require_token_is_egld(&addr("EGLD")), Ok(()));
    assert_eq!(c.require_token_is_egld(&addr("WEGLD-bd4d79")), Err(SubscriptionError::TokenMismatch));
    assert_eq!(c.require_token_allowed(&addr("EGLD")), Ok(()));
    assert_eq!(c.require_token_allowed(&addr("MEX-455c57")), Err(SubscriptionError::TokenNotWhitelisted));
    assert_eq!(c.require_enough_balance(3, 4), Err(SubscriptionError::NotEnoughBalanceForFee));
    assert_eq!(c.require_enough_balance(4, 4), Ok(()));
}

#[test]
fn price_query_and_callback() {
    let c = ready();
    assert_eq!(
        c.get_safe_price(addr("pair"), addr("USDC-c76f1f"), 0, 9),
        Ok(SubscriptionEffect::PriceQuery {
            contract: addr("oracle"),
            pair_address: addr("pair"),
            token_id: addr("USDC-c76f1f"),
            nonce: 0,
            amount: 9,
        })
    );
    assert_eq!(c.finish_transfer(Ok((addr("WEGLD-bd4d79"), 0, 5))), Ok(()));
    assert_eq!(c.finish_transfer(Err(addr("no price"))), Err(addr("no price")));
    let empty = SubscriptionContract::new();
    assert_eq!(
        empty.get_safe_price(addr("pair"), addr("USDC-c76f1f"), 0, 9),
        Err(SubscriptionError::StorageDecode)
    );
    let proxy = CalleeContract { address: addr("oracle2") };
    assert_eq!(
        proxy.get_safe_price_by_default_offset(addr("p"), addr("T-000000"), 1, 2),
        SubscriptionEffect::PriceQuery {
            contract: addr("oracle2"),
            pair_address: addr("p"),
            token_id: addr("T-000000"),
            nonce: 1,
            amount: 2,
        }
    );
}

#[test]
fn subscribed_event() {
    let c = ready();
    assert_eq!(
        c.issue_subscribed_to(&addr("alice"), &addr("netflix"), 3),
        SubscriptionEffect::SubscribedEvent { user: addr("alice"), service_provider: addr("netflix"), service_number: 3 }
    );
}

#[test]
fn all_users_is_never_filled() {
    let mut c = ready();
    c.deposit(&addr("alice"), addr("EGLD"), 5).unwrap();
    c.register_service_provider(&addr("bob"), addr("netflix"), vec![]).unwrap();
    assert!(c.all_users().is_empty());
}
