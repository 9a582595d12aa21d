//! Reading the subscription contract's storage: the contract's views.
use vstd::prelude::*;

use super::types::{slot_view, Service, ServiceView};
use super::{services_of, sub_balance, SubscriptionContract, SubscriptionError};
use crate::store::{items_at, number_at, views_of, KeyEq};

verus! {

/// The contract's storage, one reader per storage mapper.
pub trait StorageModule {
    fn all_users(&self) -> Vec<Vec<u8>>;

    fn subscribed_services(&self, user: &Vec<u8>, service_provider: &Vec<u8>) -> Vec<usize>;

    fn balance(&self, user: &Vec<u8>, token_id: &Vec<u8>) -> u128;

    fn balance_token_ids(&self, user: &Vec<u8>) -> Vec<Vec<u8>>;

    fn whitelisted_token_ids(&self) -> Vec<Vec<u8>>;

    fn enabled(&self) -> bool;

    fn service_providers(&self) -> Vec<Vec<u8>>;

    fn admin_service_provider(&self, service_provider: &Vec<u8>) -> Result<Vec<u8>, SubscriptionError>;

    fn services(&self, service_provider: &Vec<u8>) -> Result<Vec<Service>, SubscriptionError>;

    fn last_claimed_subscription_fee(
        &self,
        name_service_provider: &Vec<u8>,
        service_number: usize,
        user: &Vec<u8>,
    ) -> u64;

    fn pair_address(&self, pair_name: &Vec<u8>) -> Result<Vec<u8>, SubscriptionError>;
}

/// Whether every slot holds a service.
pub open spec fn all_present(slots: Seq<Option<ServiceView>>) -> bool {
    forall|i: int| 0 <= i < slots.len() ==> slots[i] is Some
}

impl StorageModule for SubscriptionContract {
    /// View "getAllUsers", in storage order.
    fn all_users(&self) -> (r: Vec<Vec<u8>>)
        ensures
            views_of(r@) == self@.all_users,
    {
        self.all_users.to_vec()
    }

    /// View "getSubscribedServices".
    fn subscribed_services(&self, user: &Vec<u8>, service_provider: &Vec<u8>) -> (r: Vec<usize>)
        ensures
            views_of(r@) == items_at(self@.subscribed_services, (user@, service_provider@)),
    {
        self.subscribed_services.items(&(user.key_clone(), service_provider.key_clone()))
    }

    /// View "getBalance".
    fn balance(&self, user: &Vec<u8>, token_id: &Vec<u8>) -> (a: u128)
        ensures
            a == sub_balance(self@, user@, token_id@),
    {
        self.balances.amount(&(user.key_clone(), token_id.key_clone()))
    }

    /// View "getBalanceTokenIds".
    fn balance_token_ids(&self, user: &Vec<u8>) -> (r: Vec<Vec<u8>>)
        ensures
            views_of(r@) == items_at(self@.balance_token_ids, user@),
    {
        self.balance_token_ids.items(user)
    }

    /// View "getWhitelistedTokenIds".
    fn whitelisted_token_ids(&self) -> (r: Vec<Vec<u8>>)
        ensures
            views_of(r@) == self@.whitelisted_token_ids,
    {
        self.whitelisted_token_ids.to_vec()
    }

    /// View "getEnabled".
    fn enabled(&self) -> (b: bool)
        ensures
            b == self@.enabled,
    {
        self.enabled
    }

    /// View "getServiceProviders".
    fn service_providers(&self) -> (r: Vec<Vec<u8>>)
        ensures
            views_of(r@) == self@.service_providers,
    {
        self.service_providers.to_vec()
    }

    /// View "getAdminServiceProvider": fails to read where none is stored.
    fn admin_service_provider(&self, service_provider: &Vec<u8>) -> (r: Result<Vec<u8>, SubscriptionError>)
        ensures
            match r {
                Ok(a) => self@.admin_service_provider.contains_key(service_provider@) && a@
                    == self@.admin_service_provider[service_provider@],
                Err(e) => !self@.admin_service_provider.contains_key(service_provider@) && e
                    == SubscriptionError::StorageDecode,
            },
    {
        match self.admin_service_provider.get(service_provider) {
            Some(a) => Ok(a.key_clone()),
            None => Err(SubscriptionError::StorageDecode),
        }
    }

    /// View "getServices": every service of the provider in order; a removed
    /// service fails to read.
    fn services(&self, service_provider: &Vec<u8>) -> (r: Result<Vec<Service>, SubscriptionError>)
        ensures
            all_present(services_of(self@, service_provider@)) ==> (r matches Ok(v) && v@.len()
                == services_of(self@, service_provider@).len() && forall|i: int|
                0 <= i < v@.len() ==> services_of(self@, service_provider@)[i] == Some(
                    #[trigger] v@[i]@,
                )),
            !all_present(services_of(self@, service_provider@)) ==> r == Err::<
                Vec<Service>,
                SubscriptionError,
            >(SubscriptionError::StorageDecode),
    {
        let mut r: Vec<Service> = Vec::new();
        match self.services.get(service_provider) {
            Some(list) => {
                let ghost slots = services_of(self@, service_provider@);
                let n = list.len();
                let mut i: usize = 0;
                while i < n
                    invariant
                        n == slots.len(),
                        slots == list@,
                        slots == services_of(self@, service_provider@),
                        i <= n,
                        r@.len() == i,
                        forall|j: int| 0 <= j < i ==> slots[j] == Some(#[trigger] r@[j]@),
                    decreases n - i,
                {
                    match list.get(i) {
                        Some(s) => {
                            r.push(s);
                        },
                        None => {
                            assert(!all_present(slots));
                            return Err(SubscriptionError::StorageDecode);
                        },
                    }
                    i += 1;
                }
                assert forall|j: int| 0 <= j < slots.len() implies slots[j] is Some by {
                    assert(slots[j] == Some(r@[j]@));
                }
                Ok(r)
            },
            None => {
                assert(all_present(services_of(self@, service_provider@)));
                Ok(r)
            },
        }
    }

    /// View "getLastClaimedSubscriptionFee".
    fn last_claimed_subscription_fee(
        &self,
        name_service_provider: &Vec<u8>,
        service_number: usize,
        user: &Vec<u8>,
    ) -> (e: u64)
        ensures
            e == number_at(
                self@.last_claimed_subscription_fee,
                (name_service_provider@, service_number, user@),
            ),
    {
        self.last_claimed_subscription_fee.number(
            &(name_service_provider.key_clone(), service_number, user.key_clone()),
        )
    }

    /// The address of a pair; fails to read where none is stored.
    fn pair_address(&self, pair_name: &Vec<u8>) -> (r: Result<Vec<u8>, SubscriptionError>)
        ensures
            match r {
                Ok(a) => self@.pair_address.contains_key(pair_name@) && a@ == self@.pair_address[pair_name@],
                Err(e) => !self@.pair_address.contains_key(pair_name@) && e
                    == SubscriptionError::StorageDecode,
            },
    {
        match self.pair_address.get(pair_name) {
            Some(a) => Ok(a.key_clone()),
            None => Err(SubscriptionError::StorageDecode),
        }
    }
}

} // verus!
