//! Asking the safe-price oracle what a USD amount is worth in a token.
use vstd::prelude::*;

use super::{SubscriptionContract, SubscriptionEffect, SubscriptionEffectView, SubscriptionError};
use crate::store::KeyEq;

verus! {

/// The safe-price contract at `address`, as the contract calls it.
pub struct CalleeContract {
    pub address: Vec<u8>,
}

impl CalleeContract {
    /// An asynchronous call of the view `getSafePriceByDefaultOffset` with the
    /// pair address and the payment to price.
    pub fn get_safe_price_by_default_offset(
        &self,
        pair_address: Vec<u8>,
        token_id: Vec<u8>,
        nonce: u64,
        amount: u128,
    ) -> (e: SubscriptionEffect)
        ensures
            e@ == (SubscriptionEffectView::PriceQuery {
                contract: self.address@,
                pair_address: pair_address@,
                token_id: token_id@,
                nonce,
                amount,
            }),
    {
        SubscriptionEffect::PriceQuery {
            contract: self.address.key_clone(),
            pair_address,
            token_id,
            nonce,
            amount,
        }
    }
}

/// Prices through the safe-price contract.
pub trait PriceModule {
    fn get_safe_price(
        &self,
        pair_address: Vec<u8>,
        token_id: Vec<u8>,
        nonce: u64,
        amount: u128,
    ) -> Result<SubscriptionEffect, SubscriptionError>;

    fn finish_transfer(&self, result: Result<(Vec<u8>, u64, u128), Vec<u8>>) -> Result<(), Vec<u8>>;
}

impl PriceModule for SubscriptionContract {
    /// Asks the safe-price contract, whose address must be stored, to price a
    /// payment through `pair_address`; the asynchronous call ends the
    /// transaction, and the reply goes to `finish_transfer`.
    fn get_safe_price(
        &self,
        pair_address: Vec<u8>,
        token_id: Vec<u8>,
        nonce: u64,
        amount: u128,
    ) -> (r: Result<SubscriptionEffect, SubscriptionError>)
        ensures
            match self@.safe_price_contract_address {
                Some(c) => r matches Ok(x) && x@ == (SubscriptionEffectView::PriceQuery {
                    contract: c,
                    pair_address: pair_address@,
                    token_id: token_id@,
                    nonce,
                    amount,
                }),
                None => r == Err::<SubscriptionEffect, SubscriptionError>(
                    SubscriptionError::StorageDecode,
                ),
            },
    {
        let contract_address = match &self.safe_price_contract_address {
            Some(a) => a.key_clone(),
            None => {
                return Err(SubscriptionError::StorageDecode);
            },
        };
        let proxy = CalleeContract { address: contract_address };
        Ok(proxy.get_safe_price_by_default_offset(pair_address, token_id, nonce, amount))
    }

    /// The callback of the price query: a reply is accepted as it is; a
    /// failed query fails the callback with the query's error message.
    fn finish_transfer(&self, result: Result<(Vec<u8>, u64, u128), Vec<u8>>) -> (r: Result<
        (),
        Vec<u8>,
    >)
        ensures
            match result {
                Ok(_) => r is Ok,
                Err(msg) => r matches Err(m) && m@ == msg@,
            },
    {
        match result {
            Ok(_exchanged_token) => Ok(()),
            Err(err) => Err(err),
        }
    }
}

} // verus!
