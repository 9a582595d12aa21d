//! A subscription contract: users deposit tokens, subscribe to the services
//! that providers register, and providers claim each period's fee, priced in
//! USD and converted through a safe-price oracle.
use vstd::prelude::*;

use crate::store::{
    amount_at, items_at, seq_set_insert, seq_set_remove, views_of, with_amount, with_items, KeyEq,
    KeyMap, KeySet, KeySetMap,
};
use crate::{egld_id, is_egld};

pub mod admin;
pub mod laws;
pub mod price;
pub mod private;
pub mod services;
pub mod storage;
pub mod types;

use self::admin::add_pairs;
use self::private::PrivateModule;
use self::types::{usdc_ticker, usdc_token_id, Service, ServiceList, ServiceView};

verus! {

/// Why an endpoint of the subscription contract fails; the whole call is
/// then reverted.
#[derive(Clone, Copy, Debug, PartialEq, Eq, Structural)]
pub enum SubscriptionError {
    /// "Endpoint can only be called by owner"
    NotOwner,
    /// "maintenance"
    Maintenance,
    /// "token id not whitelisted"
    TokenNotWhitelisted,
    /// "not enough balance"
    NotEnoughBalance,
    /// "not enough balance for subscription fee"
    NotEnoughBalanceForFee,
    /// "user already subscribed to one or more services"
    AlreadySubscribed,
    /// "user is not subscribed to one or more services"
    NotSubscribed,
    /// "service doesn't exist"
    ServiceMissing,
    /// "index out of range"
    IndexOutOfRange,
    /// "pair address not found for pair"
    PairNotFound,
    /// "caller not allowed"
    CallerNotAllowed,
    /// "service provider already registered"
    ProviderRegistered,
    /// "subscription fee cannot be claimed yet"
    ClaimTooEarly,
    /// "coresponding token id doesn't match pair address"
    TokenMismatch,
    /// "storage decode error": a stored value that is read is absent.
    StorageDecode,
    /// "bad token ticker format"
    BadTokenTickerFormat,
    /// "cannot subtract because result would be negative"
    NegativeSubtraction,
    /// A balance would exceed the largest amount a `u128` holds.
    AmountOverflow,
}

/// What the contract asks the blockchain to do, and the events it logs.
#[derive(Clone, Debug, PartialEq, Eq)]
pub enum SubscriptionEffect {
    /// Send `amount` of `token_id` at `nonce` to `to` (EGLD when the token is EGLD).
    Send { to: Vec<u8>, token_id: Vec<u8>, nonce: u64, amount: u128 },
    /// Ask the safe-price contract at `contract` what `amount` of `token_id`
    /// is worth through the pair at `pair_address`; the asynchronous call ends
    /// the transaction, and its reply goes to the `finish_transfer` callback.
    PriceQuery {
        contract: Vec<u8>,
        pair_address: Vec<u8>,
        token_id: Vec<u8>,
        nonce: u64,
        amount: u128,
    },
    /// Event "issue-subscribed-to".
    SubscribedEvent { user: Vec<u8>, service_provider: Vec<u8>, service_number: usize },
}

/// An effect by value.
pub enum SubscriptionEffectView {
    Send { to: Seq<u8>, token_id: Seq<u8>, nonce: u64, amount: u128 },
    PriceQuery {
        contract: Seq<u8>,
        pair_address: Seq<u8>,
        token_id: Seq<u8>,
        nonce: u64,
        amount: u128,
    },
    SubscribedEvent { user: Seq<u8>, service_provider: Seq<u8>, service_number: usize },
}

impl View for SubscriptionEffect {
    type V = SubscriptionEffectView;

    open spec fn view(&self) -> SubscriptionEffectView {
        match self {
            SubscriptionEffect::Send { to, token_id, nonce, amount } => SubscriptionEffectView::Send {
                to: to@,
                token_id: token_id@,
                nonce: *nonce,
                amount: *amount,
            },
            SubscriptionEffect::PriceQuery {
                contract,
                pair_address,
                token_id,
                nonce,
                amount,
            } => SubscriptionEffectView::PriceQuery {
                contract: contract@,
                pair_address: pair_address@,
                token_id: token_id@,
                nonce: *nonce,
                amount: *amount,
            },
            SubscriptionEffect::SubscribedEvent {
                user,
                service_provider,
                service_number,
            } => SubscriptionEffectView::SubscribedEvent {
                user: user@,
                service_provider: service_provider@,
                service_number: *service_number,
            },
        }
    }
}

/// The contract's storage by value.
pub struct SubscriptionModel {
    /// "enabled": whether the contract is out of maintenance.
    pub enabled: bool,
    /// "allUsers", in storage order; no endpoint adds to it.
    pub all_users: Seq<Seq<u8>>,
    /// "subscribedServices": per (user, provider), the service numbers the
    /// user is subscribed to, in storage order.
    pub subscribed_services: Map<(Seq<u8>, Seq<u8>), Seq<usize>>,
    /// "balance": (user, token) to amount; absent means zero.
    pub balances: Map<(Seq<u8>, Seq<u8>), u128>,
    /// "balanceTokenIds": per user, the tokens recorded, in storage order.
    pub balance_token_ids: Map<Seq<u8>, Seq<Seq<u8>>>,
    /// "whitelistedTokenIds", in storage order.
    pub whitelisted_token_ids: Seq<Seq<u8>>,
    /// "serviceProviders", in storage order.
    pub service_providers: Seq<Seq<u8>>,
    /// "adminServiceProvider": provider to its admin's address.
    pub admin_service_provider: Map<Seq<u8>, Seq<u8>>,
    /// "services": provider to its service slots; slot `i` holds service
    /// number `i + 1`, `None` once removed; absent means no service yet.
    pub services: Map<Seq<u8>, Seq<Option<ServiceView>>>,
    /// "lastClaimedSubscriptionFee": (provider, service number, user) to an
    /// epoch; absent means zero.
    pub last_claimed_subscription_fee: Map<(Seq<u8>, usize, Seq<u8>), u64>,
    /// "safePriceContractAddress", if set.
    pub safe_price_contract_address: Option<Seq<u8>>,
    /// "pairAddress": pair name to the pair's address.
    pub pair_address: Map<Seq<u8>, Seq<u8>>,
}

/// The subscription contract's storage.
pub struct SubscriptionContract {
    pub enabled: bool,
    pub all_users: KeySet<Vec<u8>>,
    pub subscribed_services: KeySetMap<(Vec<u8>, Vec<u8>), usize>,
    pub balances: KeyMap<(Vec<u8>, Vec<u8>), u128>,
    pub balance_token_ids: KeySetMap<Vec<u8>, Vec<u8>>,
    pub whitelisted_token_ids: KeySet<Vec<u8>>,
    pub service_providers: KeySet<Vec<u8>>,
    pub admin_service_provider: KeyMap<Vec<u8>, Vec<u8>>,
    pub services: KeyMap<Vec<u8>, ServiceList>,
    pub last_claimed_subscription_fee: KeyMap<(Vec<u8>, usize, Vec<u8>), u64>,
    pub safe_price_contract_address: Option<Vec<u8>>,
    pub pair_address: KeyMap<Vec<u8>, Vec<u8>>,
}

pub open spec fn opt_bytes_view(o: Option<Vec<u8>>) -> Option<Seq<u8>> {
    match o {
        Some(a) => Some(a@),
        None => None,
    }
}

impl View for SubscriptionContract {
    type V = SubscriptionModel;

    open spec fn view(&self) -> SubscriptionModel {
        SubscriptionModel {
            enabled: self.enabled,
            all_users: self.all_users@,
            subscribed_services: self.subscribed_services@,
            balances: self.balances@,
            balance_token_ids: self.balance_token_ids@,
            whitelisted_token_ids: self.whitelisted_token_ids@,
            service_providers: self.service_providers@,
            admin_service_provider: self.admin_service_provider@,
            services: self.services@,
            last_claimed_subscription_fee: self.last_claimed_subscription_fee@,
            safe_price_contract_address: opt_bytes_view(self.safe_price_contract_address),
            pair_address: self.pair_address@,
        }
    }
}

/// Whether a token may be deposited, withdrawn or asked for: whitelisted, or
/// EGLD.
pub open spec fn token_allowed(m: SubscriptionModel, token: Seq<u8>) -> bool {
    m.whitelisted_token_ids.contains(token) || token == egld_id()
}

/// The balance of (user, token).
pub open spec fn sub_balance(m: SubscriptionModel, user: Seq<u8>, token: Seq<u8>) -> u128 {
    amount_at(m.balances, (user, token))
}

/// A provider's service slots; none where it has none.
pub open spec fn services_of(m: SubscriptionModel, provider: Seq<u8>) -> Seq<Option<ServiceView>> {
    if m.services.contains_key(provider) {
        m.services[provider]
    } else {
        seq![]
    }
}

/// The services map after a provider's slots became `s`; no slots leave no
/// entry.
pub open spec fn with_services(
    m: Map<Seq<u8>, Seq<Option<ServiceView>>>,
    provider: Seq<u8>,
    s: Seq<Option<ServiceView>>,
) -> Map<Seq<u8>, Seq<Option<ServiceView>>> {
    if s.len() == 0 {
        m.remove(provider)
    } else {
        m.insert(provider, s)
    }
}

/// Whether `n` numbers a slot of `len` slots (numbers start at 1).
pub open spec fn in_range(len: nat, n: usize) -> bool {
    1 <= n && n <= len
}

/// The name of the pair that prices a token against USDC: "USDC" then
/// "EGLD" for EGLD, else the token's ticker; `None` where the identifier is
/// too short to hold a ticker.
pub open spec fn pair_name(token: Seq<u8>) -> Option<Seq<u8>> {
    if token == egld_id() {
        Some(usdc_ticker() + egld_id())
    } else if token.len() >= 7 {
        Some(usdc_ticker() + token.take(token.len() - 7))
    } else {
        None
    }
}

/// The price query for a service: the pair of its token must be known, and
/// so must the safe-price contract.
pub open spec fn price_query(m: SubscriptionModel, s: ServiceView) -> Result<
    SubscriptionEffectView,
    SubscriptionError,
> {
    match pair_name(s.token_id) {
        None => Err(SubscriptionError::BadTokenTickerFormat),
        Some(name) => if !m.pair_address.contains_key(name) {
            Err(SubscriptionError::PairNotFound)
        } else {
            match m.safe_price_contract_address {
                None => Err(SubscriptionError::StorageDecode),
                Some(c) => Ok(
                    SubscriptionEffectView::PriceQuery {
                        contract: c,
                        pair_address: m.pair_address[name],
                        token_id: usdc_token_id(),
                        nonce: 0,
                        amount: s.price_in_usd,
                    },
                ),
            }
        },
    }
}

/// Looking up the price of service `n` of `provider`: the slot must be in
/// range and hold a service.
pub open spec fn find_price_result(m: SubscriptionModel, provider: Seq<u8>, n: usize) -> Result<
    SubscriptionEffectView,
    SubscriptionError,
> {
    let slots = services_of(m, provider);
    if !in_range(slots.len(), n) {
        Err(SubscriptionError::IndexOutOfRange)
    } else {
        match slots[n - 1] {
            None => Err(SubscriptionError::StorageDecode),
            Some(s) => price_query(m, s),
        }
    }
}

pub open spec fn sub_deposit_result(
    m: SubscriptionModel,
    caller: Seq<u8>,
    token: Seq<u8>,
    amount: u128,
) -> Result<SubscriptionModel, SubscriptionError> {
    let b = sub_balance(m, caller, token);
    if !m.enabled {
        Err(SubscriptionError::Maintenance)
    } else if !token_allowed(m, token) {
        Err(SubscriptionError::TokenNotWhitelisted)
    } else if b + amount > u128::MAX {
        Err(SubscriptionError::AmountOverflow)
    } else {
        Ok(
            SubscriptionModel {
                balances: with_amount(m.balances, (caller, token), (b + amount) as u128),
                balance_token_ids: with_items(
                    m.balance_token_ids,
                    caller,
                    seq_set_insert(items_at(m.balance_token_ids, caller), token),
                ),
                ..m
            },
        )
    }
}

pub open spec fn sub_withdraw_result(
    m: SubscriptionModel,
    caller: Seq<u8>,
    token: Seq<u8>,
    amount: u128,
) -> Result<(SubscriptionModel, SubscriptionEffectView), SubscriptionError> {
    let b = sub_balance(m, caller, token);
    if !m.enabled {
        Err(SubscriptionError::Maintenance)
    } else if !token_allowed(m, token) {
        Err(SubscriptionError::TokenNotWhitelisted)
    } else if b < amount {
        Err(SubscriptionError::NotEnoughBalance)
    } else {
        let token_ids = if b == amount {
            with_items(
                m.balance_token_ids,
                caller,
                seq_set_remove(items_at(m.balance_token_ids, caller), token),
            )
        } else {
            m.balance_token_ids
        };
        Ok(
            (
                SubscriptionModel {
                    balances: with_amount(m.balances, (caller, token), (b - amount) as u128),
                    balance_token_ids: token_ids,
                    ..m
                },
                SubscriptionEffectView::Send { to: caller, token_id: token, nonce: 0, amount },
            ),
        )
    }
}

/// What subscribing to the services `ns` of `provider` does. The provider's
/// admin is read first. The first service is checked (in range, present, not
/// subscribed yet) and its price asked for; that asynchronous call ends the
/// transaction, so the payment and the subscription written after it are not
/// reached, and no later service is looked at.
pub open spec fn subscribe_result(
    m: SubscriptionModel,
    caller: Seq<u8>,
    provider: Seq<u8>,
    ns: Seq<usize>,
) -> Result<Option<SubscriptionEffectView>, SubscriptionError> {
    if !m.enabled {
        Err(SubscriptionError::Maintenance)
    } else if !m.admin_service_provider.contains_key(provider) {
        Err(SubscriptionError::StorageDecode)
    } else if ns.len() == 0 {
        Ok(None)
    } else {
        let n = ns[0];
        let slots = services_of(m, provider);
        if !in_range(slots.len(), n) {
            Err(SubscriptionError::IndexOutOfRange)
        } else if slots[n - 1] is None {
            Err(SubscriptionError::ServiceMissing)
        } else if items_at(m.subscribed_services, (caller, provider)).contains(n) {
            Err(SubscriptionError::AlreadySubscribed)
        } else {
            match find_price_result(m, provider, n) {
                Ok(e) => Ok(Some(e)),
                Err(e) => Err(e),
            }
        }
    }
}

/// Unsubscribing from the numbers `ns` in order: each must be subscribed at
/// its turn.
pub open spec fn unsubscribe_steps(set: Seq<usize>, ns: Seq<usize>) -> Result<
    Seq<usize>,
    SubscriptionError,
>
    decreases ns.len(),
{
    if ns.len() == 0 {
        Ok(set)
    } else {
        match unsubscribe_steps(set, ns.drop_last()) {
            Ok(s) => if s.contains(ns.last()) {
                Ok(seq_set_remove(s, ns.last()))
            } else {
                Err(SubscriptionError::NotSubscribed)
            },
            Err(e) => Err(e),
        }
    }
}

pub open spec fn unsubscribe_result(
    m: SubscriptionModel,
    caller: Seq<u8>,
    provider: Seq<u8>,
    ns: Seq<usize>,
) -> Result<SubscriptionModel, SubscriptionError> {
    if !m.enabled {
        Err(SubscriptionError::Maintenance)
    } else {
        match unsubscribe_steps(items_at(m.subscribed_services, (caller, provider)), ns) {
            Ok(s) => Ok(
                SubscriptionModel {
                    subscribed_services: with_items(m.subscribed_services, (caller, provider), s),
                    ..m
                },
            ),
            Err(e) => Err(e),
        }
    }
}

proof fn lemma_unsubscribe_prefix(set: Seq<usize>, ns: Seq<usize>, i: int)
    requires
        0 <= i <= ns.len(),
        unsubscribe_steps(set, ns.take(i)) is Err,
    ensures
        unsubscribe_steps(set, ns) == unsubscribe_steps(set, ns.take(i)),
    decreases ns.len(),
{
    if i == ns.len() {
        assert(ns.take(i) =~= ns);
    } else {
        assert(ns.drop_last().take(i) =~= ns.take(i));
        lemma_unsubscribe_prefix(set, ns.drop_last(), i);
    }
}

impl SubscriptionContract {
    /// A contract with empty storage, as before its first `init`.
    pub fn new() -> (c: Self)
        ensures
            !c@.enabled,
            c@.all_users == Seq::<Seq<u8>>::empty(),
            c@.subscribed_services == Map::<(Seq<u8>, Seq<u8>), Seq<usize>>::empty(),
            c@.balances == Map::<(Seq<u8>, Seq<u8>), u128>::empty(),
            c@.balance_token_ids == Map::<Seq<u8>, Seq<Seq<u8>>>::empty(),
            c@.whitelisted_token_ids == Seq::<Seq<u8>>::empty(),
            c@.service_providers == Seq::<Seq<u8>>::empty(),
            c@.admin_service_provider == Map::<Seq<u8>, Seq<u8>>::empty(),
            c@.services == Map::<Seq<u8>, Seq<Option<ServiceView>>>::empty(),
            c@.last_claimed_subscription_fee == Map::<(Seq<u8>, usize, Seq<u8>), u64>::empty(),
            c@.safe_price_contract_address is None,
            c@.pair_address == Map::<Seq<u8>, Seq<u8>>::empty(),
    {
        SubscriptionContract {
            enabled: false,
            all_users: KeySet::new(),
            subscribed_services: KeySetMap::new(),
            balances: KeyMap::new(),
            balance_token_ids: KeySetMap::new(),
            whitelisted_token_ids: KeySet::new(),
            service_providers: KeySet::new(),
            admin_service_provider: KeyMap::new(),
            services: KeyMap::new(),
            last_claimed_subscription_fee: KeyMap::new(),
            safe_price_contract_address: None,
            pair_address: KeyMap::new(),
        }
    }

    /// Deploy or upgrade: any value given for `enabled` (even `false`)
    /// enables the contract, and the pairs given are recorded in order. The
    /// deployer is the owner, so the owner-only pair recording passes.
    pub fn init(&mut self, enabled: Option<bool>, pair_addresses: Option<Vec<(Vec<u8>, Vec<u8>)>>)
        ensures
            final(self)@ == (SubscriptionModel {
                enabled: old(self)@.enabled || enabled.is_some(),
                pair_address: match pair_addresses {
                    Some(ps) => add_pairs(old(self)@.pair_address, views_of(ps@)),
                    None => old(self)@.pair_address,
                },
                ..old(self)@
            }),
    {
        match enabled {
            Some(_val) => {
                self.enabled = true;
            },
            None => {},
        }
        match pair_addresses {
            Some(val) => {
                self.record_pair_addresses(val);
            },
            None => {},
        }
    }

    /// Credits the caller's balance with the fungible payment that came with
    /// the call; the token must be whitelisted or EGLD.
    pub fn deposit(&mut self, caller: &Vec<u8>, token_id: Vec<u8>, amount: u128) -> (r: Result<
        (),
        SubscriptionError,
    >)
        ensures
            match sub_deposit_result(old(self)@, caller@, token_id@, amount) {
                Ok(m) => r is Ok && final(self)@ == m,
                Err(e) => r == Err::<(), SubscriptionError>(e) && final(self)@ == old(self)@,
            },
    {
        self.require_enabled()?;
        self.require_token_allowed(&token_id)?;
        let key = (caller.key_clone(), token_id.key_clone());
        let balance = self.balances.amount(&key);
        if balance > u128::MAX - amount {
            return Err(SubscriptionError::AmountOverflow);
        }
        self.balances.set_amount(key, balance + amount);
        self.balance_token_ids.insert(caller.key_clone(), token_id);
        Ok(())
    }

    /// Sends the caller `amount` of its balance of `token_id`.
    pub fn withdraw(&mut self, caller: &Vec<u8>, token_id: Vec<u8>, amount: u128) -> (r: Result<
        SubscriptionEffect,
        SubscriptionError,
    >)
        ensures
            match sub_withdraw_result(old(self)@, caller@, token_id@, amount) {
                Ok((m, e)) => r matches Ok(x) && x@ == e && final(self)@ == m,
                Err(e) => r == Err::<SubscriptionEffect, SubscriptionError>(e) && final(self)@
                    == old(self)@,
            },
    {
        self.require_enabled()?;
        self.require_token_allowed(&token_id)?;
        let key = (caller.key_clone(), token_id.key_clone());
        let balance = self.balances.amount(&key);
        if balance < amount {
            return Err(SubscriptionError::NotEnoughBalance);
        }
        self.balances.set_amount(key, balance - amount);
        if balance == amount {
            self.balance_token_ids.swap_remove(caller, &token_id);
        }
        Ok(SubscriptionEffect::Send { to: caller.key_clone(), token_id, nonce: 0, amount })
    }

    /// Subscribes the caller to services of `service_provider`; see
    /// `subscribe_result`: the price query of the first service ends the
    /// transaction, so storage does not change.
    pub fn subscribe(&self, caller: &Vec<u8>, service_provider: &Vec<u8>, services: Vec<usize>) -> (r:
        Result<Option<SubscriptionEffect>, SubscriptionError>)
        ensures
            match subscribe_result(self@, caller@, service_provider@, services@) {
                Ok(Some(e)) => r matches Ok(Some(x)) && x@ == e,
                Ok(None) => r matches Ok(None),
                Err(e) => r == Err::<Option<SubscriptionEffect>, SubscriptionError>(e),
            },
    {
        self.require_enabled()?;
        let _admin_address = match self.admin_service_provider.get(service_provider) {
            Some(a) => a.key_clone(),
            None => {
                return Err(SubscriptionError::StorageDecode);
            },
        };
        if services.len() == 0 {
            return Ok(None);
        }
        let service_number = services[0];
        self.require_service_exists(service_provider, service_number)?;
        self.require_user_not_subscribed(caller, service_provider, service_number)?;
        let e = self.find_price(service_provider, service_number)?;
        Ok(Some(e))
    }

    /// Unsubscribes the caller from the services `services` of
    /// `service_provider`, in order; each must be subscribed at its turn.
    pub fn unsubscribe(&mut self, caller: &Vec<u8>, service_provider: &Vec<u8>, services: Vec<usize>) -> (r:
        Result<(), SubscriptionError>)
        ensures
            match unsubscribe_result(old(self)@, caller@, service_provider@, services@) {
                Ok(m) => r is Ok && final(self)@ == m,
                Err(e) => r == Err::<(), SubscriptionError>(e) && final(self)@ == old(self)@,
            },
    {
        self.require_enabled()?;
        let key = (caller.key_clone(), service_provider.key_clone());
        let mut set = self.subscribed_services.set_copy(&key);
        let ghost start = set@;
        let n = services.len();
        let mut i: usize = 0;
        assert(services@.take(0) =~= Seq::<usize>::empty());
        while i < n
            invariant
                n == services@.len(),
                i <= n,
                self@.enabled,
                self@ == old(self)@,
                key@ == (caller@, service_provider@),
                start == items_at(self@.subscribed_services, key@),
                unsubscribe_steps(start, services@.take(i as int)) == Ok::<
                    Seq<usize>,
                    SubscriptionError,
                >(set@),
            decreases n - i,
        {
            let s = services[i];
            assert(services@.take(i + 1).drop_last() =~= services@.take(i as int));
            assert(services@.take(i + 1).last() == s);
            if !set.contains(&s) {
                proof {
                    assert(unsubscribe_steps(start, services@.take(i + 1)) == Err::<
                        Seq<usize>,
                        SubscriptionError,
                    >(SubscriptionError::NotSubscribed));
                    lemma_unsubscribe_prefix(start, services@, i + 1);
                }
                return Err(SubscriptionError::NotSubscribed);
            }
            set.swap_remove(&s);
            i += 1;
        }
        assert(services@.take(n as int) =~= services@);
        self.subscribed_services.put(key, set);
        Ok(())
    }

    /// Event "issue-subscribed-to".
    pub fn issue_subscribed_to(&self, user: &Vec<u8>, service_provider: &Vec<u8>, service_number: usize) -> (e:
        SubscriptionEffect)
        ensures
            e@ == (SubscriptionEffectView::SubscribedEvent {
                user: user@,
                service_provider: service_provider@,
                service_number,
            }),
    {
        SubscriptionEffect::SubscribedEvent {
            user: user.key_clone(),
            service_provider: service_provider.key_clone(),
            service_number,
        }
    }
}

} // verus!
