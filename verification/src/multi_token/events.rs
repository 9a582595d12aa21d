//! The events that the multi-token contract logs.
use vstd::prelude::*;

use super::types::Payment;
use super::{EffectView, MultiTokenContract, MultiTokenEffect};
use crate::store::{views_of, KeyEq};

verus! {

/// Copies a list of payments.
pub fn copy_payments(ps: &Vec<Payment>) -> (c: Vec<Payment>)
    ensures
        views_of(c@) == views_of(ps@),
{
    let mut c: Vec<Payment> = Vec::new();
    let mut i: usize = 0;
    while i < ps.len()
        invariant
            i <= ps@.len(),
            views_of(c@) == views_of(ps@.subrange(0, i as int)),
        decreases ps@.len() - i,
    {
        let p = &ps[i];
        c.push(Payment { token_id: p.token_id.key_clone(), nonce: p.nonce, amount: p.amount });
        assert(views_of(ps@.subrange(0, i + 1)) =~= views_of(ps@.subrange(0, i as int)).push(
            ps@[i as int]@,
        ));
        assert(views_of(c@) =~= views_of(ps@.subrange(0, i + 1)));
        i += 1;
    }
    assert(ps@.subrange(0, ps@.len() as int) =~= ps@);
    c
}

/// The contract's events.
pub trait EventsModule {
    fn issue_transfer_single(
        &self,
        from: &Vec<u8>,
        to: &Vec<u8>,
        operator: &Vec<u8>,
        token_id: &Vec<u8>,
        amount: u128,
    ) -> MultiTokenEffect;

    fn issue_transfer_batch(
        &self,
        from: &Vec<u8>,
        to: &Vec<u8>,
        operator: &Vec<u8>,
        esdt_transfers: &Vec<Payment>,
        egld_amount: u128,
    ) -> MultiTokenEffect;

    fn issue_approved(&self, user: &Vec<u8>, operator: &Vec<u8>, is_approved: bool) -> MultiTokenEffect;
}

impl EventsModule for MultiTokenContract {
    /// Event "issue-transfer-single".
    fn issue_transfer_single(
        &self,
        from: &Vec<u8>,
        to: &Vec<u8>,
        operator: &Vec<u8>,
        token_id: &Vec<u8>,
        amount: u128,
    ) -> (e: MultiTokenEffect)
        ensures
            e@ == (EffectView::TransferSingleEvent {
                from: from@,
                to: to@,
                operator: operator@,
                token_id: token_id@,
                amount,
            }),
    {
        MultiTokenEffect::TransferSingleEvent {
            from: from.key_clone(),
            to: to.key_clone(),
            operator: operator.key_clone(),
            token_id: token_id.key_clone(),
            amount,
        }
    }

    /// Event "issue-transfer-batch".
    fn issue_transfer_batch(
        &self,
        from: &Vec<u8>,
        to: &Vec<u8>,
        operator: &Vec<u8>,
        esdt_transfers: &Vec<Payment>,
        egld_amount: u128,
    ) -> (e: MultiTokenEffect)
        ensures
            e@ == (EffectView::TransferBatchEvent {
                from: from@,
                to: to@,
                operator: operator@,
                payments: views_of(esdt_transfers@),
                egld_amount,
            }),
    {
        MultiTokenEffect::TransferBatchEvent {
            from: from.key_clone(),
            to: to.key_clone(),
            operator: operator.key_clone(),
            payments: copy_payments(esdt_transfers),
            egld_amount,
        }
    }

    /// Event "issue-approved-for-all".
    fn issue_approved(&self, user: &Vec<u8>, operator: &Vec<u8>, is_approved: bool) -> (e:
        MultiTokenEffect)
        ensures
            e@ == (EffectView::ApprovedForAllEvent {
                user: user@,
                operator: operator@,
                approved: is_approved,
            }),
    {
        MultiTokenEffect::ApprovedForAllEvent {
            user: user.key_clone(),
            operator: operator.key_clone(),
            approved: is_approved,
        }
    }
}

} // verus!
