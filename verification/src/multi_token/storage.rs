//! Reading the multi-token contract's storage.
use vstd::prelude::*;

use super::{balance_at, MapperState, MapperStateView, MultiTokenContract};
use crate::store::{items_at, views_of, KeyEq};

verus! {

/// The contract's storage, one reader per storage mapper.
pub trait StorageModule {
    fn enabled(&self) -> bool;

    fn approved_for_all(&self, user: &Vec<u8>, operator: &Vec<u8>) -> bool;

    fn balance(&self, user: &Vec<u8>, token_id: &Vec<u8>, nonce: u64) -> u128;

    fn balance_token_ids(&self, user: &Vec<u8>) -> Vec<Vec<u8>>;

    fn fungible_token(&self, token_ticker: &Vec<u8>, user: &Vec<u8>) -> Option<MapperState>;

    fn non_fungible_token(&self, token_ticker: &Vec<u8>, user: &Vec<u8>) -> Option<MapperState>;
}

impl StorageModule for MultiTokenContract {
    /// "enabled": whether the contract is out of maintenance.
    fn enabled(&self) -> (b: bool)
        ensures
            b == self@.enabled,
    {
        self.enabled
    }

    /// "isApprovedForAll": whether `operator` may act for `user`.
    fn approved_for_all(&self, user: &Vec<u8>, operator: &Vec<u8>) -> (b: bool)
        ensures
            b == self@.approvals.contains((user@, operator@)),
    {
        self.approvals.contains_key(&(user.key_clone(), operator.key_clone()))
    }

    /// "balanceOf": the balance of (user, token, nonce).
    fn balance(&self, user: &Vec<u8>, token_id: &Vec<u8>, nonce: u64) -> (a: u128)
        ensures
            a == balance_at(self@, user@, token_id@, nonce),
    {
        self.balances.amount(&(user.key_clone(), token_id.key_clone(), nonce))
    }

    /// "balanceTokenIds": the tokens recorded for `user`, in storage order.
    fn balance_token_ids(&self, user: &Vec<u8>) -> (r: Vec<Vec<u8>>)
        ensures
            views_of(r@) == items_at(self@.balance_token_ids, user@),
    {
        self.balance_token_ids.items(user)
    }

    /// "fungibleToken": the fungible token mapper of (ticker, user).
    fn fungible_token(&self, token_ticker: &Vec<u8>, user: &Vec<u8>) -> (r: Option<MapperState>)
        ensures
            match r {
                Some(s) => self@.fungible_tokens.contains_key((token_ticker@, user@)) && s@
                    == self@.fungible_tokens[(token_ticker@, user@)],
                None => !self@.fungible_tokens.contains_key((token_ticker@, user@)),
            },
    {
        match self.fungible_tokens.get(&(token_ticker.key_clone(), user.key_clone())) {
            Some(s) => Some(s.copy()),
            None => None,
        }
    }

    /// "nonFungibleToken": the non-fungible token mapper of (ticker, user).
    fn non_fungible_token(&self, token_ticker: &Vec<u8>, user: &Vec<u8>) -> (r: Option<
        MapperState,
    >)
        ensures
            match r {
                Some(s) => self@.non_fungible_tokens.contains_key((token_ticker@, user@)) && s@
                    == self@.non_fungible_tokens[(token_ticker@, user@)],
                None => !self@.non_fungible_tokens.contains_key((token_ticker@, user@)),
            },
    {
        match self.non_fungible_tokens.get(&(token_ticker.key_clone(), user.key_clone())) {
            Some(s) => Some(s.copy()),
            None => None,
        }
    }
}

} // verus!
