//! Owner-only settings of the subscription contract.
use vstd::prelude::*;

use super::{SubscriptionContract, SubscriptionError, SubscriptionModel};
use crate::store::{seq_set_insert, seq_set_remove, views_of, KeyEq};

verus! {

/// The pair addresses after recording `ps` in order.
pub open spec fn add_pairs(m: Map<Seq<u8>, Seq<u8>>, ps: Seq<(Seq<u8>, Seq<u8>)>) -> Map<
    Seq<u8>,
    Seq<u8>,
>
    decreases ps.len(),
{
    if ps.len() == 0 {
        m
    } else {
        add_pairs(m, ps.drop_last()).insert(ps.last().0, ps.last().1)
    }
}

/// A set kept in storage order after inserting `ts` in order.
pub open spec fn insert_all(s: Seq<Seq<u8>>, ts: Seq<Seq<u8>>) -> Seq<Seq<u8>>
    decreases ts.len(),
{
    if ts.len() == 0 {
        s
    } else {
        seq_set_insert(insert_all(s, ts.drop_last()), ts.last())
    }
}

/// A set kept in storage order after swap-removing `ts` in order.
pub open spec fn remove_all(s: Seq<Seq<u8>>, ts: Seq<Seq<u8>>) -> Seq<Seq<u8>>
    decreases ts.len(),
{
    if ts.len() == 0 {
        s
    } else {
        seq_set_remove(remove_all(s, ts.drop_last()), ts.last())
    }
}

impl SubscriptionContract {
    /// Records each (pair name, pair address) in order.
    pub(crate) fn record_pair_addresses(&mut self, pair_addresses: Vec<(Vec<u8>, Vec<u8>)>)
        ensures
            final(self)@ == (SubscriptionModel {
                pair_address: add_pairs(old(self)@.pair_address, views_of(pair_addresses@)),
                ..old(self)@
            }),
    {
        let ghost ps = views_of(pair_addresses@);
        let n = pair_addresses.len();
        let mut i: usize = 0;
        assert(ps.take(0) =~= Seq::<(Seq<u8>, Seq<u8>)>::empty());
        while i < n
            invariant
                n == pair_addresses@.len(),
                i <= n,
                ps == views_of(pair_addresses@),
                self@ == (SubscriptionModel {
                    pair_address: add_pairs(old(self)@.pair_address, ps.take(i as int)),
                    ..old(self)@
                }),
            decreases n - i,
        {
            let (name, address) = (pair_addresses[i].0.key_clone(), pair_addresses[i].1.key_clone());
            assert(ps.take(i + 1).drop_last() =~= ps.take(i as int));
            assert(ps.take(i + 1).last() == (name@, address@));
            self.pair_address.insert(name, address);
            i += 1;
        }
        assert(ps.take(n as int) =~= ps);
    }
}

/// Settings that only the contract's owner may change.
pub trait AdminModule {
    fn enable_contract(&mut self, caller: &Vec<u8>, owner: &Vec<u8>) -> Result<(), SubscriptionError>;

    fn disable_contract(&mut self, caller: &Vec<u8>, owner: &Vec<u8>) -> Result<(), SubscriptionError>;

    fn whitelist_token_ids(&mut self, caller: &Vec<u8>, owner: &Vec<u8>, token_ids: Vec<Vec<u8>>) -> Result<
        (),
        SubscriptionError,
    >;

    fn remove_token_ids(&mut self, caller: &Vec<u8>, owner: &Vec<u8>, token_ids: Vec<Vec<u8>>) -> Result<
        (),
        SubscriptionError,
    >;

    fn add_pair_addresses(
        &mut self,
        caller: &Vec<u8>,
        owner: &Vec<u8>,
        pair_addresses: Vec<(Vec<u8>, Vec<u8>)>,
    ) -> Result<(), SubscriptionError>;
}

impl AdminModule for SubscriptionContract {
    /// Ends maintenance; only the owner may call it.
    fn enable_contract(&mut self, caller: &Vec<u8>, owner: &Vec<u8>) -> (r: Result<
        (),
        SubscriptionError,
    >)
        ensures
            caller@ != owner@ ==> r == Err::<(), SubscriptionError>(SubscriptionError::NotOwner)
                && final(self)@ == old(self)@,
            caller@ == owner@ ==> r is Ok && final(self)@ == (SubscriptionModel {
                enabled: true,
                ..old(self)@
            }),
    {
        if !caller.key_eq(owner) {
            return Err(SubscriptionError::NotOwner);
        }
        self.enabled = true;
        Ok(())
    }

    /// Starts maintenance; only the owner may call it.
    fn disable_contract(&mut self, caller: &Vec<u8>, owner: &Vec<u8>) -> (r: Result<
        (),
        SubscriptionError,
    >)
        ensures
            caller@ != owner@ ==> r == Err::<(), SubscriptionError>(SubscriptionError::NotOwner)
                && final(self)@ == old(self)@,
            caller@ == owner@ ==> r is Ok && final(self)@ == (SubscriptionModel {
                enabled: false,
                ..old(self)@
            }),
    {
        if !caller.key_eq(owner) {
            return Err(SubscriptionError::NotOwner);
        }
        self.enabled = false;
        Ok(())
    }

    /// Adds tokens to the whitelist, in order; only the owner may call it.
    fn whitelist_token_ids(&mut self, caller: &Vec<u8>, owner: &Vec<u8>, token_ids: Vec<Vec<u8>>) -> (r:
        Result<(), SubscriptionError>)
        ensures
            caller@ != owner@ ==> r == Err::<(), SubscriptionError>(SubscriptionError::NotOwner)
                && final(self)@ == old(self)@,
            caller@ == owner@ ==> r is Ok && final(self)@ == (SubscriptionModel {
                whitelisted_token_ids: insert_all(old(self)@.whitelisted_token_ids, views_of(token_ids@)),
                ..old(self)@
            }),
    {
        if !caller.key_eq(owner) {
            return Err(SubscriptionError::NotOwner);
        }
        let ghost ts = views_of(token_ids@);
        let n = token_ids.len();
        let mut i: usize = 0;
        assert(ts.take(0) =~= Seq::<Seq<u8>>::empty());
        while i < n
            invariant
                n == token_ids@.len(),
                i <= n,
                ts == views_of(token_ids@),
                self@ == (SubscriptionModel {
                    whitelisted_token_ids: insert_all(old(self)@.whitelisted_token_ids, ts.take(i as int)),
                    ..old(self)@
                }),
            decreases n - i,
        {
            let t = token_ids[i].key_clone();
            assert(ts.take(i + 1).drop_last() =~= ts.take(i as int));
            assert(ts.take(i + 1).last() == t@);
            self.whitelisted_token_ids.insert(t);
            i += 1;
        }
        assert(ts.take(n as int) =~= ts);
        Ok(())
    }

    /// Takes tokens off the whitelist, in order; only the owner may call it.
    fn remove_token_ids(&mut self, caller: &Vec<u8>, owner: &Vec<u8>, token_ids: Vec<Vec<u8>>) -> (r:
        Result<(), SubscriptionError>)
        ensures
            caller@ != owner@ ==> r == Err::<(), SubscriptionError>(SubscriptionError::NotOwner)
                && final(self)@ == old(self)@,
            caller@ == owner@ ==> r is Ok && final(self)@ == (SubscriptionModel {
                whitelisted_token_ids: remove_all(old(self)@.whitelisted_token_ids, views_of(token_ids@)),
                ..old(self)@
            }),
    {
        if !caller.key_eq(owner) {
            return Err(SubscriptionError::NotOwner);
        }
        let ghost ts = views_of(token_ids@);
        let n = token_ids.len();
        let mut i: usize = 0;
        assert(ts.take(0) =~= Seq::<Seq<u8>>::empty());
        while i < n
            invariant
                n == token_ids@.len(),
                i <= n,
                ts == views_of(token_ids@),
                self@ == (SubscriptionModel {
                    whitelisted_token_ids: remove_all(old(self)@.whitelisted_token_ids, ts.take(i as int)),
                    ..old(self)@
                }),
            decreases n - i,
        {
            let t = token_ids[i].key_clone();
            assert(ts.take(i + 1).drop_last() =~= ts.take(i as int));
            assert(ts.take(i + 1).last() == t@);
            self.whitelisted_token_ids.swap_remove(&t);
            i += 1;
        }
        assert(ts.take(n as int) =~= ts);
        Ok(())
    }

    /// Records each (pair name, pair address) in order; only the owner may
    /// call it.
    fn add_pair_addresses(
        &mut self,
        caller: &Vec<u8>,
        owner: &Vec<u8>,
        pair_addresses: Vec<(Vec<u8>, Vec<u8>)>,
    ) -> (r: Result<(), SubscriptionError>)
        ensures
            caller@ != owner@ ==> r == Err::<(), SubscriptionError>(SubscriptionError::NotOwner)
                && final(self)@ == old(self)@,
            caller@ == owner@ ==> r is Ok && final(self)@ == (SubscriptionModel {
                pair_address: add_pairs(old(self)@.pair_address, views_of(pair_addresses@)),
                ..old(self)@
            }),
    {
        if !caller.key_eq(owner) {
            return Err(SubscriptionError::NotOwner);
        }
        self.record_pair_addresses(pair_addresses);
        Ok(())
    }
}

} // verus!
