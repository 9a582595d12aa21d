//! Checks and bookkeeping shared by the subscription endpoints.
use vstd::prelude::*;

use super::price::PriceModule;
use super::types::{usdc_ticker_bytes, usdc_token_id_bytes};
use super::{find_price_result, in_range, pair_name, services_of, sub_balance, token_allowed,
    SubscriptionContract, SubscriptionEffect, SubscriptionEffectView, SubscriptionError,
    SubscriptionModel};
use crate::esdt::token_ticker;
use crate::store::{items_at, number_at, seq_set_insert, seq_set_remove, with_amount, with_items,
    with_number, KeyEq};
use crate::{egld_id, egld_token_id, is_egld};

verus! {

/// The model after a subscription or a claim was paid: the user's balance of
/// the token becomes `user_balance - amount`, and the claim epoch of the
/// service for the user becomes `now`.
pub open spec fn after_payment(
    m: SubscriptionModel,
    user: Seq<u8>,
    user_balance: u128,
    token: Seq<u8>,
    amount: u128,
    provider: Seq<u8>,
    now: u64,
    n: usize,
) -> SubscriptionModel {
    SubscriptionModel {
        balances: with_amount(m.balances, (user, token), (user_balance - amount) as u128),
        last_claimed_subscription_fee: with_number(m.last_claimed_subscription_fee, (provider, n, user), now),
        ..m
    }
}

/// The model after `user` paid to subscribe to service `n` of `provider`:
/// the payment is recorded as by `after_payment`, and the user is subscribed.
pub open spec fn after_subscribing(
    m: SubscriptionModel,
    user: Seq<u8>,
    user_balance: u128,
    token: Seq<u8>,
    amount: u128,
    provider: Seq<u8>,
    now: u64,
    n: usize,
) -> SubscriptionModel {
    let p = after_payment(m, user, user_balance, token, amount, provider, now, n);
    SubscriptionModel {
        subscribed_services: with_items(
            p.subscribed_services,
            (user, provider),
            seq_set_insert(items_at(p.subscribed_services, (user, provider)), n),
        ),
        ..p
    }
}

/// The model after `user` was unsubscribed from service `n` of `provider`.
pub open spec fn after_unsubscribe(m: SubscriptionModel, provider: Seq<u8>, n: usize, user: Seq<u8>) -> SubscriptionModel {
    SubscriptionModel {
        subscribed_services: with_items(
            m.subscribed_services,
            (user, provider),
            seq_set_remove(items_at(m.subscribed_services, (user, provider)), n),
        ),
        ..m
    }
}

/// Checks, and the bookkeeping of payments and subscriptions.
pub trait PrivateModule {
    fn find_price(&self, service_provider: &Vec<u8>, service_number: usize) -> Result<
        SubscriptionEffect,
        SubscriptionError,
    >;

    fn handle_egld_transfer(
        &self,
        caller: &Vec<u8>,
        egld_token_id: &Vec<u8>,
        amount: u128,
        service_address: &Vec<u8>,
    ) -> Result<(u128, SubscriptionEffect), SubscriptionError>;

    fn handle_esdt_transfer(
        &self,
        caller: &Vec<u8>,
        token_id: &Vec<u8>,
        amount: u128,
        service_address: &Vec<u8>,
    ) -> Result<(u128, SubscriptionEffect), SubscriptionError>;

    fn get_pair_address(&self, service_token: &Vec<u8>) -> Result<Vec<u8>, SubscriptionError>;

    fn update_user_balance_after_subscribing(
        &mut self,
        caller: &Vec<u8>,
        user_balance: u128,
        token_id: &Vec<u8>,
        amount: u128,
        service_provider: &Vec<u8>,
        now: u64,
        service_number: usize,
    ) -> Result<(), SubscriptionError>;

    fn update_user_balance_after_claim(
        &mut self,
        caller: &Vec<u8>,
        user_balance: u128,
        token_id: &Vec<u8>,
        amount: u128,
        service_provider: &Vec<u8>,
        now: u64,
        service_number: usize,
    ) -> Result<(), SubscriptionError>;

    fn require_elligible_claim(
        &self,
        now_epoch: u64,
        next_payment: u64,
        name_service_provider: &Vec<u8>,
        service_number: usize,
        user: &Vec<u8>,
    ) -> Result<(), SubscriptionError>;

    fn require_user_not_subscribed(&self, caller: &Vec<u8>, service_provider: &Vec<u8>, index: usize) -> Result<
        (),
        SubscriptionError,
    >;

    fn require_tokens_are_equal(&self, first_token: &Vec<u8>, second_token: &Vec<u8>) -> Result<
        (),
        SubscriptionError,
    >;

    fn require_token_is_egld(&self, token_id: &Vec<u8>) -> Result<(), SubscriptionError>;

    fn require_service_exists(&self, service_provider: &Vec<u8>, index: usize) -> Result<
        (),
        SubscriptionError,
    >;

    fn check_service_exists(&mut self, service_provider: &Vec<u8>, service_number: usize, user: &Vec<u8>) -> Result<
        bool,
        SubscriptionError,
    >;

    fn unsubscribe_user_from_service(&mut self, service_provider: &Vec<u8>, service_number: usize, user: &Vec<u8>);

    fn require_user_is_subscribed(&self, service_provider: &Vec<u8>, service_number: usize, user: &Vec<u8>) -> Result<
        (),
        SubscriptionError,
    >;

    fn require_token_allowed(&self, token_id: &Vec<u8>) -> Result<(), SubscriptionError>;

    fn require_enabled(&self) -> Result<(), SubscriptionError>;

    fn require_caller_is_service_admin(&self, caller: &Vec<u8>, name_service_provider: &Vec<u8>) -> Result<
        Vec<u8>,
        SubscriptionError,
    >;

    fn require_enough_balance(&self, user_balance: u128, amount_to_be_paid: u128) -> Result<
        (),
        SubscriptionError,
    >;

    fn check_enough_balance(
        &mut self,
        service_provider: &Vec<u8>,
        service_number: usize,
        user: &Vec<u8>,
        user_balance: u128,
        amount_to_be_paid: u128,
    ) -> bool;
}

impl PrivateModule for SubscriptionContract {
    /// Asks the oracle for the price of service `n` of the provider: the
    /// service's USD price, paid in USDC, through the pair of its token; the
    /// query ends the transaction.
    fn find_price(&self, service_provider: &Vec<u8>, service_number: usize) -> (r: Result<
        SubscriptionEffect,
        SubscriptionError,
    >)
        ensures
            match find_price_result(self@, service_provider@, service_number) {
                Ok(e) => r matches Ok(x) && x@ == e,
                Err(e) => r == Err::<SubscriptionEffect, SubscriptionError>(e),
            },
    {
        let service = match self.services.get(service_provider) {
            Some(list) => {
                if service_number == 0 || service_number > list.len() {
                    return Err(SubscriptionError::IndexOutOfRange);
                }
                match list.get(service_number - 1) {
                    Some(s) => s,
                    None => {
                        return Err(SubscriptionError::StorageDecode);
                    },
                }
            },
            None => {
                return Err(SubscriptionError::IndexOutOfRange);
            },
        };
        let pair_address = self.get_pair_address(&service.token_id)?;
        self.get_safe_price(pair_address, usdc_token_id_bytes(), 0, service.price_in_usd)
    }

    /// Takes a fee in EGLD: the caller's EGLD balance must cover it; the fee
    /// goes to the service. Returns the balance read.
    fn handle_egld_transfer(
        &self,
        caller: &Vec<u8>,
        egld_token_id: &Vec<u8>,
        amount: u128,
        service_address: &Vec<u8>,
    ) -> (r: Result<(u128, SubscriptionEffect), SubscriptionError>)
        ensures
            sub_balance(self@, caller@, egld_token_id@) < amount ==> r == Err::<
                (u128, SubscriptionEffect),
                SubscriptionError,
            >(SubscriptionError::NotEnoughBalanceForFee),
            sub_balance(self@, caller@, egld_token_id@) >= amount ==> (r matches Ok((b, e)) && b
                == sub_balance(self@, caller@, egld_token_id@) && e@ == (SubscriptionEffectView::Send {
                to: service_address@,
                token_id: egld_token_id@,
                nonce: 0,
                amount,
            })),
    {
        let user_balance = self.balances.amount(&(caller.key_clone(), egld_token_id.key_clone()));
        self.require_enough_balance(user_balance, amount)?;
        Ok(
            (
                user_balance,
                SubscriptionEffect::Send {
                    to: service_address.key_clone(),
                    token_id: egld_token_id.key_clone(),
                    nonce: 0,
                    amount,
                },
            ),
        )
    }

    /// Takes a fee in an ESDT: the caller's balance of it must cover it; the
    /// fee goes to the service. Returns the balance read.
    fn handle_esdt_transfer(
        &self,
        caller: &Vec<u8>,
        token_id: &Vec<u8>,
        amount: u128,
        service_address: &Vec<u8>,
    ) -> (r: Result<(u128, SubscriptionEffect), SubscriptionError>)
        ensures
            sub_balance(self@, caller@, token_id@) < amount ==> r == Err::<
                (u128, SubscriptionEffect),
                SubscriptionError,
            >(SubscriptionError::NotEnoughBalanceForFee),
            sub_balance(self@, caller@, token_id@) >= amount ==> (r matches Ok((b, e)) && b
                == sub_balance(self@, caller@, token_id@) && e@ == (SubscriptionEffectView::Send {
                to: service_address@,
                token_id: token_id@,
                nonce: 0,
                amount,
            })),
    {
        let user_balance = self.balances.amount(&(caller.key_clone(), token_id.key_clone()));
        self.require_enough_balance(user_balance, amount)?;
        Ok(
            (
                user_balance,
                SubscriptionEffect::Send {
                    to: service_address.key_clone(),
                    token_id: token_id.key_clone(),
                    nonce: 0,
                    amount,
                },
            ),
        )
    }

    /// The address of the pair that prices `service_token` against USDC; see
    /// `pair_name`.
    fn get_pair_address(&self, service_token: &Vec<u8>) -> (r: Result<Vec<u8>, SubscriptionError>)
        ensures
            match pair_name(service_token@) {
                None => r == Err::<Vec<u8>, SubscriptionError>(SubscriptionError::BadTokenTickerFormat),
                Some(name) => if self@.pair_address.contains_key(name) {
                    r matches Ok(a) && a@ == self@.pair_address[name]
                } else {
                    r == Err::<Vec<u8>, SubscriptionError>(SubscriptionError::PairNotFound)
                },
            },
    {
        let mut pair_name_bytes = usdc_ticker_bytes();
        let suffix = if is_egld(service_token) {
            egld_token_id()
        } else {
            match token_ticker(service_token) {
                Some(t) => t,
                None => {
                    return Err(SubscriptionError::BadTokenTickerFormat);
                },
            }
        };
        let ghost prefix = pair_name_bytes@;
        let mut suffix = suffix;
        pair_name_bytes.append(&mut suffix);
        assert(pair_name_bytes@ == pair_name(service_token@)->Some_0);
        match self.pair_address.get(&pair_name_bytes) {
            Some(a) => Ok(a.key_clone()),
            None => Err(SubscriptionError::PairNotFound),
        }
    }

    /// Records a paid subscription: the caller's balance becomes
    /// `user_balance - amount`, the claim epoch becomes `now`, and the caller
    /// is subscribed to the service.
    fn update_user_balance_after_subscribing(
        &mut self,
        caller: &Vec<u8>,
        user_balance: u128,
        token_id: &Vec<u8>,
        amount: u128,
        service_provider: &Vec<u8>,
        now: u64,
        service_number: usize,
    ) -> (r: Result<(), SubscriptionError>)
        ensures
            user_balance < amount ==> r == Err::<(), SubscriptionError>(
                SubscriptionError::NegativeSubtraction,
            ) && final(self)@ == old(self)@,
            user_balance >= amount ==> r is Ok && final(self)@ == after_subscribing(
                old(self)@,
                caller@,
                user_balance,
                token_id@,
                amount,
                service_provider@,
                now,
                service_number,
            ),
    {
        if user_balance < amount {
            return Err(SubscriptionError::NegativeSubtraction);
        }
        self.balances.set_amount((caller.key_clone(), token_id.key_clone()), user_balance - amount);
        self.last_claimed_subscription_fee.set_number(
            (service_provider.key_clone(), service_number, caller.key_clone()),
            now,
        );
        self.subscribed_services.insert((caller.key_clone(), service_provider.key_clone()), service_number);
        Ok(())
    }

    /// Records a paid claim: the caller's balance becomes
    /// `user_balance - amount` and the claim epoch becomes `now`.
    fn update_user_balance_after_claim(
        &mut self,
        caller: &Vec<u8>,
        user_balance: u128,
        token_id: &Vec<u8>,
        amount: u128,
        service_provider: &Vec<u8>,
        now: u64,
        service_number: usize,
    ) -> (r: Result<(), SubscriptionError>)
        ensures
            user_balance < amount ==> r == Err::<(), SubscriptionError>(
                SubscriptionError::NegativeSubtraction,
            ) && final(self)@ == old(self)@,
            user_balance >= amount ==> r is Ok && final(self)@ == after_payment(
                old(self)@,
                caller@,
                user_balance,
                token_id@,
                amount,
                service_provider@,
                now,
                service_number,
            ),
    {
        if user_balance < amount {
            return Err(SubscriptionError::NegativeSubtraction);
        }
        self.balances.set_amount((caller.key_clone(), token_id.key_clone()), user_balance - amount);
        self.last_claimed_subscription_fee.set_number(
            (service_provider.key_clone(), service_number, caller.key_clone()),
            now,
        );
        Ok(())
    }

    /// A fee may be claimed once `next_payment` epochs have passed since the
    /// last claim.
    fn require_elligible_claim(
        &self,
        now_epoch: u64,
        next_payment: u64,
        name_service_provider: &Vec<u8>,
        service_number: usize,
        user: &Vec<u8>,
    ) -> (r: Result<(), SubscriptionError>)
        ensures
            r == if number_at(
                self@.last_claimed_subscription_fee,
                (name_service_provider@, service_number, user@),
            ) + next_payment <= now_epoch {
                Ok::<(), SubscriptionError>(())
            } else {
                Err(SubscriptionError::ClaimTooEarly)
            },
    {
        let last_claim = self.last_claimed_subscription_fee.number(
            &(name_service_provider.key_clone(), service_number, user.key_clone()),
        );
        if (last_claim as u128) + (next_payment as u128) <= now_epoch as u128 {
            Ok(())
        } else {
            Err(SubscriptionError::ClaimTooEarly)
        }
    }

    /// The caller must not be subscribed to the service yet.
    fn require_user_not_subscribed(&self, caller: &Vec<u8>, service_provider: &Vec<u8>, index: usize) -> (r:
        Result<(), SubscriptionError>)
        ensures
            r == if !items_at(self@.subscribed_services, (caller@, service_provider@)).contains(index) {
                Ok::<(), SubscriptionError>(())
            } else {
                Err(SubscriptionError::AlreadySubscribed)
            },
    {
        if self.subscribed_services.contains(&(caller.key_clone(), service_provider.key_clone()), &index) {
            Err(SubscriptionError::AlreadySubscribed)
        } else {
            Ok(())
        }
    }

    /// The two tokens must be the same.
    fn require_tokens_are_equal(&self, first_token: &Vec<u8>, second_token: &Vec<u8>) -> (r: Result<
        (),
        SubscriptionError,
    >)
        ensures
            r == if first_token@ == second_token@ {
                Ok::<(), SubscriptionError>(())
            } else {
                Err(SubscriptionError::TokenMismatch)
            },
    {
        if first_token.key_eq(second_token) {
            Ok(())
        } else {
            Err(SubscriptionError::TokenMismatch)
        }
    }

    /// The token must be EGLD.
    fn require_token_is_egld(&self, token_id: &Vec<u8>) -> (r: Result<(), SubscriptionError>)
        ensures
            r == if token_id@ == egld_id() {
                Ok::<(), SubscriptionError>(())
            } else {
                Err(SubscriptionError::TokenMismatch)
            },
    {
        if is_egld(token_id) {
            Ok(())
        } else {
            Err(SubscriptionError::TokenMismatch)
        }
    }

    /// Service `index` of the provider must be in range and not removed.
    fn require_service_exists(&self, service_provider: &Vec<u8>, index: usize) -> (r: Result<
        (),
        SubscriptionError,
    >)
        ensures
            r == if !in_range(services_of(self@, service_provider@).len(), index) {
                Err::<(), SubscriptionError>(SubscriptionError::IndexOutOfRange)
            } else if services_of(self@, service_provider@)[index - 1] is None {
                Err(SubscriptionError::ServiceMissing)
            } else {
                Ok(())
            },
    {
        match self.services.get(service_provider) {
            Some(list) => {
                if index == 0 || index > list.len() {
                    return Err(SubscriptionError::IndexOutOfRange);
                }
                match list.get(index - 1) {
                    Some(_) => Ok(()),
                    None => Err(SubscriptionError::ServiceMissing),
                }
            },
            None => Err(SubscriptionError::IndexOutOfRange),
        }
    }

    /// Where service `n` of the provider was removed, unsubscribes `user` from
    /// it and says so; the slot must be in range.
    fn check_service_exists(&mut self, service_provider: &Vec<u8>, service_number: usize, user: &Vec<u8>) -> (r:
        Result<bool, SubscriptionError>)
        ensures
            !in_range(services_of(old(self)@, service_provider@).len(), service_number) ==> r
                == Err::<bool, SubscriptionError>(SubscriptionError::IndexOutOfRange) && final(self)@
                == old(self)@,
            in_range(services_of(old(self)@, service_provider@).len(), service_number) && services_of(
                old(self)@,
                service_provider@,
            )[service_number - 1] is None ==> r == Ok::<bool, SubscriptionError>(true) && final(self)@ == after_unsubscribe(old(self)@, service_provider@, service_number, user@),
            in_range(services_of(old(self)@, service_provider@).len(), service_number) && services_of(
                old(self)@,
                service_provider@,
            )[service_number - 1] is Some ==> r == Ok::<bool, SubscriptionError>(false) && final(self)@ == old(self)@,
    {
        let removed = match self.services.get(service_provider) {
            Some(list) => {
                if service_number == 0 || service_number > list.len() {
                    return Err(SubscriptionError::IndexOutOfRange);
                }
                list.get(service_number - 1).is_none()
            },
            None => {
                return Err(SubscriptionError::IndexOutOfRange);
            },
        };
        if removed {
            self.unsubscribe_user_from_service(service_provider, service_number, user);
            return Ok(true);
        }
        Ok(false)
    }

    /// Unsubscribes `user` from service `n` of the provider.
    fn unsubscribe_user_from_service(&mut self, service_provider: &Vec<u8>, service_number: usize, user: &Vec<u8>)
        ensures
            final(self)@ == after_unsubscribe(old(self)@, service_provider@, service_number, user@),
    {
        self.subscribed_services.swap_remove(&(user.key_clone(), service_provider.key_clone()), &service_number);
    }

    /// `user` must be subscribed to service `n` of the provider.
    fn require_user_is_subscribed(&self, service_provider: &Vec<u8>, service_number: usize, user: &Vec<u8>) -> (r:
        Result<(), SubscriptionError>)
        ensures
            r == if items_at(self@.subscribed_services, (user@, service_provider@)).contains(service_number) {
                Ok::<(), SubscriptionError>(())
            } else {
                Err(SubscriptionError::NotSubscribed)
            },
    {
        if self.subscribed_services.contains(&(user.key_clone(), service_provider.key_clone()), &service_number) {
            Ok(())
        } else {
            Err(SubscriptionError::NotSubscribed)
        }
    }

    /// The token must be whitelisted, or EGLD.
    fn require_token_allowed(&self, token_id: &Vec<u8>) -> (r: Result<(), SubscriptionError>)
        ensures
            r == if token_allowed(self@, token_id@) {
                Ok::<(), SubscriptionError>(())
            } else {
                Err(SubscriptionError::TokenNotWhitelisted)
            },
    {
        if self.whitelisted_token_ids.contains(token_id) || is_egld(token_id) {
            Ok(())
        } else {
            Err(SubscriptionError::TokenNotWhitelisted)
        }
    }

    /// The contract must be out of maintenance.
    fn require_enabled(&self) -> (r: Result<(), SubscriptionError>)
        ensures
            r == if self@.enabled {
                Ok::<(), SubscriptionError>(())
            } else {
                Err(SubscriptionError::Maintenance)
            },
    {
        if self.enabled {
            Ok(())
        } else {
            Err(SubscriptionError::Maintenance)
        }
    }

    /// The caller must be the provider's admin, whose address is returned; a
    /// provider without an admin fails to read.
    fn require_caller_is_service_admin(&self, caller: &Vec<u8>, name_service_provider: &Vec<u8>) -> (r:
        Result<Vec<u8>, SubscriptionError>)
        ensures
            !self@.admin_service_provider.contains_key(name_service_provider@) ==> r == Err::<
                Vec<u8>,
                SubscriptionError,
            >(SubscriptionError::StorageDecode),
            self@.admin_service_provider.contains_key(name_service_provider@) && caller@
                != self@.admin_service_provider[name_service_provider@] ==> r == Err::<
                Vec<u8>,
                SubscriptionError,
            >(SubscriptionError::CallerNotAllowed),
            self@.admin_service_provider.contains_key(name_service_provider@) && caller@
                == self@.admin_service_provider[name_service_provider@] ==> (r matches Ok(a) && a@
                == caller@),
    {
        let service_admin = match self.admin_service_provider.get(name_service_provider) {
            Some(a) => a.key_clone(),
            None => {
                return Err(SubscriptionError::StorageDecode);
            },
        };
        if !caller.key_eq(&service_admin) {
            return Err(SubscriptionError::CallerNotAllowed);
        }
        Ok(service_admin)
    }

    /// The balance must cover the fee.
    fn require_enough_balance(&self, user_balance: u128, amount_to_be_paid: u128) -> (r: Result<
        (),
        SubscriptionError,
    >)
        ensures
            r == if user_balance >= amount_to_be_paid {
                Ok::<(), SubscriptionError>(())
            } else {
                Err(SubscriptionError::NotEnoughBalanceForFee)
            },
    {
        if user_balance >= amount_to_be_paid {
            Ok(())
        } else {
            Err(SubscriptionError::NotEnoughBalanceForFee)
        }
    }

    /// Where the balance does not cover the fee, unsubscribes `user` from the
    /// service and says so.
    fn check_enough_balance(
        &mut self,
        service_provider: &Vec<u8>,
        service_number: usize,
        user: &Vec<u8>,
        user_balance: u128,
        amount_to_be_paid: u128,
    ) -> (unsubscribed: bool)
        ensures
            unsubscribed == (user_balance < amount_to_be_paid),
            unsubscribed ==> final(self)@ == after_unsubscribe(old(self)@, service_provider@, service_number, user@),
            !unsubscribed ==> final(self)@ == old(self)@,
    {
        if user_balance < amount_to_be_paid {
            self.unsubscribe_user_from_service(service_provider, service_number, user);
            return true;
        }
        false
    }
}

} // verus!
