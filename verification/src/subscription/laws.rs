//! What holds of the subscription contract across its endpoints.
use vstd::prelude::*;

use super::admin::{insert_all, remove_all};
use super::services::{
    add_services_result, claim_result, clear_all, register_result, remove_services_result,
    replace_all, replace_services_result,
};
use super::private::{after_payment, after_subscribing};
use super::types::{usdc_token_id, ServiceView};
use super::{
    find_price_result, pair_name, with_services, SubscriptionEffectView as Effect,
    in_range, services_of, sub_balance, sub_deposit_result, sub_withdraw_result, subscribe_result, token_allowed,
    unsubscribe_result, unsubscribe_steps, SubscriptionEffectView, SubscriptionError,
    SubscriptionModel,
};
use crate::egld_id;
use crate::store::{
    items_at, lemma_seq_set_insert, lemma_seq_set_remove, no_duplicates, number_at, seq_set_insert,
};

verus! {

/// Withdrawing what was just deposited gives every balance back its value
/// from before the deposit, sends the amount to the depositor, and leaves
/// everything but the balances and the recorded token lists as it was.
pub proof fn law_withdraw_undoes_deposit(
    m: SubscriptionModel,
    caller: Seq<u8>,
    token: Seq<u8>,
    amount: u128,
)
    requires
        sub_deposit_result(m, caller, token, amount) is Ok,
    ensures
        ({
            let m1 = sub_deposit_result(m, caller, token, amount)->Ok_0;
            &&& sub_withdraw_result(m1, caller, token, amount) is Ok
            &&& sub_withdraw_result(m1, caller, token, amount)->Ok_0.1
                == (SubscriptionEffectView::Send { to: caller, token_id: token, nonce: 0, amount })
            &&& forall|u: Seq<u8>, t: Seq<u8>| #[trigger]
                sub_balance(sub_withdraw_result(m1, caller, token, amount)->Ok_0.0, u, t)
                    == sub_balance(m, u, t)
            &&& ({
                let m2 = sub_withdraw_result(m1, caller, token, amount)->Ok_0.0;
                m2 == (SubscriptionModel {
                    balances: m2.balances,
                    balance_token_ids: m2.balance_token_ids,
                    ..m
                })
            })
        }),
{
}

/// While the contract is in maintenance, every endpoint of users and
/// providers refuses with the maintenance error.
pub proof fn law_maintenance_refuses(
    m: SubscriptionModel,
    caller: Seq<u8>,
    provider: Seq<u8>,
    user: Seq<u8>,
    token: Seq<u8>,
    amount: u128,
    n: usize,
    ns: Seq<usize>,
    ss: Seq<ServiceView>,
    list: Seq<(usize, ServiceView)>,
)
    requires
        !m.enabled,
    ensures
        sub_deposit_result(m, caller, token, amount) == Err::<SubscriptionModel, SubscriptionError>(
            SubscriptionError::Maintenance,
        ),
        sub_withdraw_result(m, caller, token, amount) == Err::<
            (SubscriptionModel, SubscriptionEffectView),
            SubscriptionError,
        >(SubscriptionError::Maintenance),
        subscribe_result(m, caller, provider, ns) == Err::<
            Option<SubscriptionEffectView>,
            SubscriptionError,
        >(SubscriptionError::Maintenance),
        unsubscribe_result(m, caller, provider, ns) == Err::<SubscriptionModel, SubscriptionError>(
            SubscriptionError::Maintenance,
        ),
        claim_result(m, caller, provider, n, user) == Err::<
            SubscriptionEffectView,
            SubscriptionError,
        >(SubscriptionError::Maintenance),
        register_result(m, caller, provider, ss) == Err::<SubscriptionModel, SubscriptionError>(
            SubscriptionError::Maintenance,
        ),
        add_services_result(m, caller, provider, ss) == Err::<SubscriptionModel, SubscriptionError>(
            SubscriptionError::Maintenance,
        ),
        replace_services_result(m, caller, provider, list) == Err::<
            SubscriptionModel,
            SubscriptionError,
        >(SubscriptionError::Maintenance),
        remove_services_result(m, caller, provider, ns) == Err::<
            SubscriptionModel,
            SubscriptionError,
        >(SubscriptionError::Maintenance),
{
}

/// A provider name is registered once: registering it again, by anyone and
/// with any services, is refused.
pub proof fn law_register_once(
    m: SubscriptionModel,
    caller: Seq<u8>,
    name: Seq<u8>,
    ss: Seq<ServiceView>,
    other_caller: Seq<u8>,
    other_ss: Seq<ServiceView>,
)
    requires
        register_result(m, caller, name, ss) is Ok,
    ensures
        register_result(register_result(m, caller, name, ss)->Ok_0, other_caller, name, other_ss)
            == Err::<SubscriptionModel, SubscriptionError>(SubscriptionError::ProviderRegistered),
{
    let m2 = register_result(m, caller, name, ss)->Ok_0;
    assert(m2.service_providers[m.service_providers.len() as int] == name);
}

/// The registering caller becomes the provider's admin, and only the admin
/// may change the provider's services or claim its fees.
pub proof fn law_only_admin_manages(
    m: SubscriptionModel,
    caller: Seq<u8>,
    provider: Seq<u8>,
    user: Seq<u8>,
    n: usize,
    ns: Seq<usize>,
    ss: Seq<ServiceView>,
    list: Seq<(usize, ServiceView)>,
)
    requires
        m.enabled,
        m.admin_service_provider.contains_key(provider),
        caller != m.admin_service_provider[provider],
    ensures
        add_services_result(m, caller, provider, ss) == Err::<SubscriptionModel, SubscriptionError>(
            SubscriptionError::CallerNotAllowed,
        ),
        replace_services_result(m, caller, provider, list) == Err::<
            SubscriptionModel,
            SubscriptionError,
        >(SubscriptionError::CallerNotAllowed),
        remove_services_result(m, caller, provider, ns) == Err::<
            SubscriptionModel,
            SubscriptionError,
        >(SubscriptionError::CallerNotAllowed),
        claim_result(m, caller, provider, n, user) == Err::<
            SubscriptionEffectView,
            SubscriptionError,
        >(SubscriptionError::CallerNotAllowed),
{
}

/// Registering makes the caller the provider's admin.
pub proof fn law_registrant_is_admin(
    m: SubscriptionModel,
    caller: Seq<u8>,
    name: Seq<u8>,
    ss: Seq<ServiceView>,
)
    requires
        register_result(m, caller, name, ss) is Ok,
    ensures
        register_result(m, caller, name, ss)->Ok_0.admin_service_provider[name] == caller,
        register_result(m, caller, name, ss)->Ok_0.admin_service_provider.contains_key(name),
{
}

/// Unsubscribing in steps from a set without repeats: each number taken off
/// is no longer in it, the others stay, and no repeats appear.
proof fn lemma_unsubscribe_steps(set: Seq<usize>, ns: Seq<usize>)
    requires
        no_duplicates(set),
        unsubscribe_steps(set, ns) is Ok,
    ensures
        no_duplicates(unsubscribe_steps(set, ns)->Ok_0),
        forall|x: usize| #[trigger]
            unsubscribe_steps(set, ns)->Ok_0.contains(x) == (set.contains(x) && !ns.contains(x)),
    decreases ns.len(),
{
    if ns.len() > 0 {
        let prev = ns.drop_last();
        lemma_unsubscribe_steps(set, prev);
        let s = unsubscribe_steps(set, prev)->Ok_0;
        lemma_seq_set_remove(s, ns.last());
        assert forall|x: usize| #[trigger]
            unsubscribe_steps(set, ns)->Ok_0.contains(x) == (set.contains(x) && !ns.contains(x)) by {
            assert(ns == prev.push(ns.last()));
            if ns.contains(x) && x != ns.last() {
                let i = choose|i: int| 0 <= i < ns.len() && ns[i] == x;
                assert(prev[i] == x);
            }
            if prev.contains(x) {
                let i = choose|i: int| 0 <= i < prev.len() && prev[i] == x;
                assert(ns[i] == x);
            }
            assert(ns[ns.len() - 1] == ns.last());
        }
    }
}

/// After unsubscribing from services, the user is subscribed to none of
/// them and still to every other; unsubscribing from one of them again is
/// refused.
pub proof fn law_unsubscribe_removes(
    m: SubscriptionModel,
    caller: Seq<u8>,
    provider: Seq<u8>,
    ns: Seq<usize>,
    again: usize,
)
    requires
        no_duplicates(items_at(m.subscribed_services, (caller, provider))),
        unsubscribe_result(m, caller, provider, ns) is Ok,
        ns.contains(again),
    ensures
        ({
            let m2 = unsubscribe_result(m, caller, provider, ns)->Ok_0;
            &&& forall|x: usize| #[trigger]
                items_at(m2.subscribed_services, (caller, provider)).contains(x) == (items_at(
                    m.subscribed_services,
                    (caller, provider),
                ).contains(x) && !ns.contains(x))
            &&& unsubscribe_result(m2, caller, provider, seq![again]) == Err::<
                SubscriptionModel,
                SubscriptionError,
            >(SubscriptionError::NotSubscribed)
        }),
{
    let set = items_at(m.subscribed_services, (caller, provider));
    lemma_unsubscribe_steps(set, ns);
    let s = unsubscribe_steps(set, ns)->Ok_0;
    let m2 = unsubscribe_result(m, caller, provider, ns)->Ok_0;
    assert(items_at(m2.subscribed_services, (caller, provider)) =~= s);
    let one = seq![again];
    assert(one.drop_last() =~= Seq::<usize>::empty());
    assert(!s.contains(again));
    let set2 = items_at(m2.subscribed_services, (caller, provider));
    assert(unsubscribe_steps(set2, one.drop_last()) == Ok::<Seq<usize>, SubscriptionError>(set2));
    assert(one.last() == again);
}

/// A paid subscription takes the amount off the balance the user had,
/// subscribes the user, and starts the claim period at the payment's epoch;
/// subscribing to that service again is then refused.
pub proof fn law_paid_subscription(
    m: SubscriptionModel,
    user: Seq<u8>,
    user_balance: u128,
    token: Seq<u8>,
    amount: u128,
    provider: Seq<u8>,
    now: u64,
    n: usize,
)
    requires
        user_balance >= amount,
        m.enabled,
        m.admin_service_provider.contains_key(provider),
        in_range(services_of(m, provider).len(), n),
        services_of(m, provider)[n - 1] is Some,
    ensures
        ({
            let m2 = after_subscribing(m, user, user_balance, token, amount, provider, now, n);
            &&& sub_balance(m2, user, token) == user_balance - amount
            &&& items_at(m2.subscribed_services, (user, provider)).contains(n)
            &&& number_at(m2.last_claimed_subscription_fee, (provider, n, user)) == now
            &&& subscribe_result(m2, user, provider, seq![n]) == Err::<
                Option<SubscriptionEffectView>,
                SubscriptionError,
            >(SubscriptionError::AlreadySubscribed)
        }),
{
    let p = after_payment(m, user, user_balance, token, amount, provider, now, n);
    let set = items_at(p.subscribed_services, (user, provider));
    let set2 = seq_set_insert(set, n);
    if !set.contains(n) {
        assert(set2[set.len() as int] == n);
    }
    assert(set2.contains(n));
    assert(set2.len() > 0);
}

/// Whitelisting tokens lets them in; taking them off the whitelist again
/// shuts out all of them but EGLD, which is always allowed. Other tokens
/// keep their standing either way.
pub proof fn law_whitelist_add_remove(m: SubscriptionModel, ts: Seq<Seq<u8>>)
    requires
        no_duplicates(m.whitelisted_token_ids),
    ensures
        ({
            let added = SubscriptionModel {
                whitelisted_token_ids: insert_all(m.whitelisted_token_ids, ts),
                ..m
            };
            let removed = SubscriptionModel {
                whitelisted_token_ids: remove_all(m.whitelisted_token_ids, ts),
                ..m
            };
            &&& forall|t: Seq<u8>| ts.contains(t) ==> #[trigger] token_allowed(added, t)
            &&& forall|t: Seq<u8>|
                ts.contains(t) && t != egld_id() ==> !#[trigger] token_allowed(removed, t)
            &&& forall|t: Seq<u8>|
                !ts.contains(t) ==> (#[trigger] token_allowed(added, t) == token_allowed(m, t)
                    && token_allowed(removed, t) == token_allowed(m, t))
        }),
{
    lemma_insert_all(m.whitelisted_token_ids, ts);
    lemma_remove_all(m.whitelisted_token_ids, ts);
}

proof fn lemma_insert_all(s: Seq<Seq<u8>>, ts: Seq<Seq<u8>>)
    requires
        no_duplicates(s),
    ensures
        no_duplicates(insert_all(s, ts)),
        forall|t: Seq<u8>| #[trigger] insert_all(s, ts).contains(t) == (s.contains(t) || ts.contains(t)),
    decreases ts.len(),
{
    if ts.len() > 0 {
        let prev = ts.drop_last();
        lemma_insert_all(s, prev);
        lemma_seq_set_insert(insert_all(s, prev), ts.last());
        assert forall|t: Seq<u8>| #[trigger]
            insert_all(s, ts).contains(t) == (s.contains(t) || ts.contains(t)) by {
            assert(ts[ts.len() - 1] == ts.last());
            if ts.contains(t) && t != ts.last() {
                let i = choose|i: int| 0 <= i < ts.len() && ts[i] == t;
                assert(prev[i] == t);
            }
            if prev.contains(t) {
                let i = choose|i: int| 0 <= i < prev.len() && prev[i] == t;
                assert(ts[i] == t);
            }
        }
    }
}

proof fn lemma_remove_all(s: Seq<Seq<u8>>, ts: Seq<Seq<u8>>)
    requires
        no_duplicates(s),
    ensures
        no_duplicates(remove_all(s, ts)),
        forall|t: Seq<u8>| #[trigger] remove_all(s, ts).contains(t) == (s.contains(t) && !ts.contains(t)),
    decreases ts.len(),
{
    if ts.len() > 0 {
        let prev = ts.drop_last();
        lemma_remove_all(s, prev);
        lemma_seq_set_remove(remove_all(s, prev), ts.last());
        assert forall|t: Seq<u8>| #[trigger]
            remove_all(s, ts).contains(t) == (s.contains(t) && !ts.contains(t)) by {
            assert(ts[ts.len() - 1] == ts.last());
            if ts.contains(t) && t != ts.last() {
                let i = choose|i: int| 0 <= i < ts.len() && ts[i] == t;
                assert(prev[i] == t);
            }
            if prev.contains(t) {
                let i = choose|i: int| 0 <= i < prev.len() && prev[i] == t;
                assert(ts[i] == t);
            }
        }
    }
}

/// The services of a provider as the model holds them after its slots became
/// `slots`.
proof fn lemma_services_of_with(m: SubscriptionModel, provider: Seq<u8>, slots: Seq<Option<ServiceView>>)
    ensures
        services_of(
            SubscriptionModel { services: with_services(m.services, provider, slots), ..m },
            provider,
        ) == slots,
{
    if slots.len() == 0 {
        assert(slots =~= Seq::<Option<ServiceView>>::empty());
    }
}

/// Subscribing is refused as already held exactly when the caller's set of
/// services of that provider holds the requested number; subscriptions to
/// other services of the provider do not matter. When the number is not held,
/// the answer is the price query of that service: the oracle is asked, through
/// the pair of the service's token, the worth of its USD price in USDC.
pub proof fn law_subscribe_refuses_only_a_held_service(
    m: SubscriptionModel,
    caller: Seq<u8>,
    provider: Seq<u8>,
    ns: Seq<usize>,
)
    requires
        m.enabled,
        m.admin_service_provider.contains_key(provider),
        ns.len() > 0,
        1 <= ns[0] <= services_of(m, provider).len(),
        services_of(m, provider)[ns[0] - 1] is Some,
    ensures
        (subscribe_result(m, caller, provider, ns) == Err::<Option<Effect>, SubscriptionError>(
            SubscriptionError::AlreadySubscribed,
        )) <==> items_at(m.subscribed_services, (caller, provider)).contains(ns[0]),
        !items_at(m.subscribed_services, (caller, provider)).contains(ns[0]) ==> ({
            let s = services_of(m, provider)[ns[0] - 1]->Some_0;
            m.safe_price_contract_address matches Some(c) ==> pair_name(s.token_id) matches Some(
                name,
            ) ==> m.pair_address.contains_key(name) ==> subscribe_result(
                m,
                caller,
                provider,
                ns,
            ) == Ok::<Option<Effect>, SubscriptionError>(
                Some(
                    Effect::PriceQuery {
                        contract: c,
                        pair_address: m.pair_address[name],
                        token_id: usdc_token_id(),
                        nonce: 0,
                        amount: s.price_in_usd,
                    },
                ),
            )
        }),
{
}

/// A fee claim by the provider's admin for service `n` from `user` is refused
/// as not subscribed exactly when the user's set of services of that provider
/// does not hold `n`, whatever other services of the provider the user holds.
/// When it holds `n`, the answer is the price query of that service.
pub proof fn law_claim_needs_that_subscription(
    m: SubscriptionModel,
    provider: Seq<u8>,
    n: usize,
    user: Seq<u8>,
)
    requires
        m.enabled,
        m.admin_service_provider.contains_key(provider),
    ensures
        ({
            let admin = m.admin_service_provider[provider];
            &&& (claim_result(m, admin, provider, n, user) == Err::<Effect, SubscriptionError>(
                SubscriptionError::NotSubscribed,
            )) <==> !items_at(m.subscribed_services, (user, provider)).contains(n)
            &&& items_at(m.subscribed_services, (user, provider)).contains(n) ==> claim_result(
                m,
                admin,
                provider,
                n,
                user,
            ) == find_price_result(m, provider, n)
            &&& (items_at(m.subscribed_services, (user, provider)).contains(n) && 1 <= n
                <= services_of(m, provider).len() && services_of(m, provider)[n - 1] is Some) ==> ({
                let sv = services_of(m, provider)[n - 1]->Some_0;
                m.safe_price_contract_address matches Some(c) ==> pair_name(sv.token_id) matches Some(
                    name,
                ) ==> m.pair_address.contains_key(name) ==> claim_result(
                    m,
                    admin,
                    provider,
                    n,
                    user,
                ) == Ok::<Effect, SubscriptionError>(
                    Effect::PriceQuery {
                        contract: c,
                        pair_address: m.pair_address[name],
                        token_id: usdc_token_id(),
                        nonce: 0,
                        amount: sv.price_in_usd,
                    },
                )
            })
        }),
{
}

/// Whether a later pair of `list` than the one at `i` names the same slot.
pub open spec fn named_later(list: Seq<(usize, ServiceView)>, i: int) -> bool {
    exists|j: int| i < j < list.len() && #[trigger] list[j].0 == list[i].0
}

proof fn lemma_replace_all(slots: Seq<Option<ServiceView>>, list: Seq<(usize, ServiceView)>)
    requires
        forall|i: int| 0 <= i < list.len() ==> 1 <= #[trigger] list[i].0 <= slots.len(),
    ensures
        replace_all(slots, list).len() == slots.len(),
        forall|i: int|
            0 <= i < list.len() && !named_later(list, i) ==> #[trigger] replace_all(slots, list)[list[i].0
                - 1] == Some(list[i].1),
        forall|k: int|
            0 <= k < slots.len() && (forall|i: int| 0 <= i < list.len() ==> #[trigger] list[i].0 != k
                + 1) ==> #[trigger] replace_all(slots, list)[k] == slots[k],
    decreases list.len(),
{
    if list.len() > 0 {
        let prev = list.drop_last();
        let last = list.last();
        assert forall|i: int| 0 <= i < prev.len() implies 1 <= #[trigger] prev[i].0 <= slots.len() by {
            assert(prev[i] == list[i]);
        }
        lemma_replace_all(slots, prev);
        let r = replace_all(slots, list);
        let r0 = replace_all(slots, prev);
        assert(r == r0.update(last.0 - 1, Some(last.1)));
        assert(list[list.len() - 1] == last);
        assert forall|i: int|
            0 <= i < list.len() && !named_later(list, i) implies #[trigger] r[list[i].0 - 1] == Some(
            list[i].1,
        ) by {
            if i < list.len() - 1 {
                assert(prev[i] == list[i]);
                if list[i].0 == last.0 {
                    assert(list[list.len() - 1].0 == list[i].0);
                    assert(named_later(list, i));
                }
                if named_later(prev, i) {
                    let j = choose|j: int| i < j < prev.len() && #[trigger] prev[j].0 == prev[i].0;
                    assert(list[j] == prev[j]);
                    assert(named_later(list, i));
                }
            }
        }
        assert forall|k: int|
            0 <= k < slots.len() && (forall|i: int| 0 <= i < list.len() ==> #[trigger] list[i].0 != k
                + 1) implies #[trigger] r[k] == slots[k] by {
            assert(list[list.len() - 1].0 != k + 1);
            assert forall|i: int| 0 <= i < prev.len() implies #[trigger] prev[i].0 != k + 1 by {
                assert(prev[i] == list[i]);
            }
        }
    }
}

/// Replacing services succeeds, for the provider's admin, exactly when every
/// pair names an existing slot. Then every pair that is the last to name its
/// slot has put its service there, every slot that no pair names keeps its
/// service, the number of slots stays, and nothing else changes.
pub proof fn law_replace_services(
    m: SubscriptionModel,
    caller: Seq<u8>,
    provider: Seq<u8>,
    list: Seq<(usize, ServiceView)>,
)
    ensures
        m.enabled && m.admin_service_provider.contains_key(provider) && caller
            == m.admin_service_provider[provider] ==> (replace_services_result(
            m,
            caller,
            provider,
            list,
        ) is Ok <==> forall|i: int|
            0 <= i < list.len() ==> 1 <= #[trigger] list[i].0 <= services_of(m, provider).len()),
        replace_services_result(m, caller, provider, list) is Ok ==> ({
            let m2 = replace_services_result(m, caller, provider, list)->Ok_0;
            let s0 = services_of(m, provider);
            let s2 = services_of(m2, provider);
            &&& s2.len() == s0.len()
            &&& forall|i: int|
                0 <= i < list.len() && !named_later(list, i) ==> #[trigger] s2[list[i].0 - 1]
                    == Some(list[i].1)
            &&& forall|k: int|
                0 <= k < s0.len() && (forall|i: int| 0 <= i < list.len() ==> #[trigger] list[i].0
                    != k + 1) ==> #[trigger] s2[k] == s0[k]
            &&& m2 == (SubscriptionModel { services: m2.services, ..m })
        }),
{
    if replace_services_result(m, caller, provider, list) is Ok {
        let s0 = services_of(m, provider);
        assert forall|i: int| 0 <= i < list.len() implies 1 <= #[trigger] list[i].0 <= s0.len() by {
            if !(1 <= list[i].0 <= s0.len()) {
                assert(!in_range(s0.len(), list[i].0));
            }
        }
        lemma_replace_all(s0, list);
        lemma_services_of_with(m, provider, replace_all(s0, list));
    }
    if m.enabled && m.admin_service_provider.contains_key(provider) && caller
        == m.admin_service_provider[provider] && (forall|i: int|
        0 <= i < list.len() ==> 1 <= #[trigger] list[i].0 <= services_of(m, provider).len()) {
        assert(!exists|i: int|
            0 <= i < list.len() && !in_range(services_of(m, provider).len(), #[trigger] list[i].0));
    }
}

proof fn lemma_clear_all(slots: Seq<Option<ServiceView>>, ns: Seq<usize>)
    requires
        forall|i: int| 0 <= i < ns.len() ==> 1 <= #[trigger] ns[i] <= slots.len(),
    ensures
        clear_all(slots, ns).len() == slots.len(),
        forall|i: int| 0 <= i < ns.len() ==> #[trigger] clear_all(slots, ns)[ns[i] - 1] is None,
        forall|k: int|
            0 <= k < slots.len() && !ns.contains((k + 1) as usize) ==> #[trigger] clear_all(slots, ns)[k]
                == slots[k],
    decreases ns.len(),
{
    if ns.len() > 0 {
        let prev = ns.drop_last();
        let last = ns.last();
        assert forall|i: int| 0 <= i < prev.len() implies 1 <= #[trigger] prev[i] <= slots.len() by {
            assert(prev[i] == ns[i]);
        }
        lemma_clear_all(slots, prev);
        let r = clear_all(slots, ns);
        let r0 = clear_all(slots, prev);
        assert(r == r0.update(last - 1, None));
        assert(ns[ns.len() - 1] == last);
        assert forall|i: int| 0 <= i < ns.len() implies #[trigger] r[ns[i] - 1] is None by {
            if i < ns.len() - 1 {
                assert(prev[i] == ns[i]);
            }
        }
        assert forall|k: int|
            0 <= k < slots.len() && !ns.contains((k + 1) as usize) implies #[trigger] r[k] == slots[k] by {
            if prev.contains((k + 1) as usize) {
                let i = choose|i: int| 0 <= i < prev.len() && prev[i] == (k + 1) as usize;
                assert(ns[i] == prev[i]);
            }
        }
    }
}

/// Removing services succeeds, for the provider's admin, exactly when every
/// number names an existing slot. Then every named slot is empty, every other
/// slot keeps its service, the number of slots stays, and nothing else
/// changes.
pub proof fn law_remove_services(
    m: SubscriptionModel,
    caller: Seq<u8>,
    provider: Seq<u8>,
    ns: Seq<usize>,
)
    ensures
        m.enabled && m.admin_service_provider.contains_key(provider) && caller
            == m.admin_service_provider[provider] ==> (remove_services_result(
            m,
            caller,
            provider,
            ns,
        ) is Ok <==> forall|i: int|
            0 <= i < ns.len() ==> 1 <= #[trigger] ns[i] <= services_of(m, provider).len()),
        remove_services_result(m, caller, provider, ns) is Ok ==> ({
            let m2 = remove_services_result(m, caller, provider, ns)->Ok_0;
            let s0 = services_of(m, provider);
            let s2 = services_of(m2, provider);
            &&& s2.len() == s0.len()
            &&& forall|i: int| 0 <= i < ns.len() ==> #[trigger] s2[ns[i] - 1] is None
            &&& forall|k: int|
                0 <= k < s0.len() && !ns.contains((k + 1) as usize) ==> #[trigger] s2[k] == s0[k]
            &&& m2 == (SubscriptionModel { services: m2.services, ..m })
        }),
{
    if remove_services_result(m, caller, provider, ns) is Ok {
        let s0 = services_of(m, provider);
        assert forall|i: int| 0 <= i < ns.len() implies 1 <= #[trigger] ns[i] <= s0.len() by {
            if !(1 <= ns[i] <= s0.len()) {
                assert(!in_range(s0.len(), ns[i]));
            }
        }
        lemma_clear_all(s0, ns);
        lemma_services_of_with(m, provider, clear_all(s0, ns));
    }
    if m.enabled && m.admin_service_provider.contains_key(provider) && caller
        == m.admin_service_provider[provider] && (forall|i: int|
        0 <= i < ns.len() ==> 1 <= #[trigger] ns[i] <= services_of(m, provider).len()) {
        assert(!exists|i: int|
            0 <= i < ns.len() && !in_range(services_of(m, provider).len(), #[trigger] ns[i]));
    }
}

/// Adding services succeeds, for the provider's admin, exactly when every
/// service is paid in a whitelisted token or in EGLD; one service in any other
/// token refuses the whole call as not whitelisted. On success the services
/// follow the provider's existing ones in order, and nothing else changes.
pub proof fn law_add_services(
    m: SubscriptionModel,
    caller: Seq<u8>,
    provider: Seq<u8>,
    ss: Seq<ServiceView>,
)
    ensures
        m.enabled && m.admin_service_provider.contains_key(provider) && caller
            == m.admin_service_provider[provider] ==> ((add_services_result(
            m,
            caller,
            provider,
            ss,
        ) is Ok <==> forall|i: int|
            0 <= i < ss.len() ==> m.whitelisted_token_ids.contains(#[trigger] ss[i].token_id)
                || ss[i].token_id == egld_id()) && ((exists|i: int|
            0 <= i < ss.len() && !m.whitelisted_token_ids.contains(#[trigger] ss[i].token_id)
                && ss[i].token_id != egld_id()) ==> add_services_result(m, caller, provider, ss)
            == Err::<SubscriptionModel, SubscriptionError>(SubscriptionError::TokenNotWhitelisted))),
        add_services_result(m, caller, provider, ss) is Ok ==> ({
            let m2 = add_services_result(m, caller, provider, ss)->Ok_0;
            let s0 = services_of(m, provider);
            let s2 = services_of(m2, provider);
            &&& s2.len() == s0.len() + ss.len()
            &&& forall|k: int| 0 <= k < s0.len() ==> #[trigger] s2[k] == s0[k]
            &&& forall|i: int| 0 <= i < ss.len() ==> #[trigger] s2[s0.len() + i] == Some(ss[i])
            &&& m2 == (SubscriptionModel { services: m2.services, ..m })
        }),
{
    let s0 = services_of(m, provider);
    let slots = s0 + super::services::some_all(ss);
    lemma_services_of_with(m, provider, slots);
    if add_services_result(m, caller, provider, ss) is Ok {
        assert forall|i: int| 0 <= i < ss.len() implies #[trigger] slots[s0.len() + i] == Some(ss[i]) by {
            assert(slots[s0.len() + i] == super::services::some_all(ss)[i]);
        }
    }
    if m.enabled && m.admin_service_provider.contains_key(provider) && caller
        == m.admin_service_provider[provider] {
        if exists|i: int|
            0 <= i < ss.len() && !m.whitelisted_token_ids.contains(#[trigger] ss[i].token_id)
                && ss[i].token_id != egld_id() {
            let i = choose|i: int|
                0 <= i < ss.len() && !m.whitelisted_token_ids.contains(#[trigger] ss[i].token_id)
                    && ss[i].token_id != egld_id();
            assert(!token_allowed(m, ss[i].token_id));
        }
    }
}

} // verus!
