//! A lottery whose prize can only be claimed in a later block than the join.
use vstd::prelude::*;

use super::{EgldTransfer, LotteryError, LotteryModel, LotterySc, ONE_EGLD, PRIZE, WINNING_DRAW};
use crate::store::{number_at, with_number, KeyEq};

verus! {

pub open spec fn join_v2_result(
    m: LotteryModel,
    caller: Seq<u8>,
    payment: u128,
    now_block: u64,
    draw: u64,
) -> Result<LotteryModel, LotteryError> {
    if payment != ONE_EGLD {
        Err(LotteryError::InvalidPayment)
    } else {
        Ok(
            LotteryModel {
                winners_v2: if draw < WINNING_DRAW {
                    m.winners_v2.insert(caller)
                } else {
                    m.winners_v2
                },
                joined_block: with_number(m.joined_block, caller, now_block),
                ..m
            },
        )
    }
}

pub open spec fn claim_v2_result(m: LotteryModel, caller: Seq<u8>, now_block: u64) -> Result<
    LotteryModel,
    LotteryError,
> {
    if number_at(m.joined_block, caller) == 0 {
        Err(LotteryError::NotJoined)
    } else if number_at(m.joined_block, caller) == now_block {
        Err(LotteryError::SameBlock)
    } else if !m.winners_v2.contains(caller) {
        Err(LotteryError::NotWinner)
    } else {
        Ok(LotteryModel { winners_v2: m.winners_v2.remove(caller), ..m })
    }
}

/// Joining draws at once; claiming waits for a later block.
pub trait AnotherVersion {
    fn join_lottery_v2(&mut self, caller: &Vec<u8>, payment: u128, now_block: u64, draw: u64) -> Result<
        (),
        LotteryError,
    >;

    fn claim_reward_v2(&mut self, caller: &Vec<u8>, now_block: u64) -> Result<EgldTransfer, LotteryError>;

    fn is_winner_v2(&self, user: &Vec<u8>) -> bool;

    fn joined_block(&self, user: &Vec<u8>) -> u64;
}

impl AnotherVersion for LotterySc {
    /// The caller pays exactly one EGLD in block `now_block`; a winning
    /// `draw` makes it a winner, and its join block is recorded (a later join
    /// overwrites it).
    fn join_lottery_v2(&mut self, caller: &Vec<u8>, payment: u128, now_block: u64, draw: u64) -> (r:
        Result<(), LotteryError>)
        ensures
            match join_v2_result(old(self)@, caller@, payment, now_block, draw) {
                Ok(m) => r is Ok && final(self)@ == m,
                Err(e) => r == Err::<(), LotteryError>(e) && final(self)@ == old(self)@,
            },
    {
        if payment != ONE_EGLD {
            return Err(LotteryError::InvalidPayment);
        }
        let ghost w = self.is_winner_v2@;
        if draw < WINNING_DRAW {
            self.is_winner_v2.insert(caller.key_clone(), ());
            assert(self.is_winner_v2@.dom() =~= w.dom().insert(caller@));
        }
        self.joined_block.set_number(caller.key_clone(), now_block);
        Ok(())
    }

    /// A winner that joined in an earlier block than `now_block` claims its
    /// prize; it stops being a winner.
    fn claim_reward_v2(&mut self, caller: &Vec<u8>, now_block: u64) -> (r: Result<
        EgldTransfer,
        LotteryError,
    >)
        ensures
            match claim_v2_result(old(self)@, caller@, now_block) {
                Ok(m) => r matches Ok(t) && t.to@ == caller@ && t.amount == PRIZE && final(self)@
                    == m,
                Err(e) => r == Err::<EgldTransfer, LotteryError>(e) && final(self)@ == old(self)@,
            },
    {
        let joined = self.joined_block.number(caller);
        if joined == 0 {
            return Err(LotteryError::NotJoined);
        }
        if joined == now_block {
            return Err(LotteryError::SameBlock);
        }
        if !self.is_winner_v2.contains_key(caller) {
            return Err(LotteryError::NotWinner);
        }
        let transfer = EgldTransfer { to: caller.key_clone(), amount: PRIZE };
        let ghost w = self.is_winner_v2@;
        self.is_winner_v2.remove(caller);
        assert(self.is_winner_v2@.dom() =~= w.dom().remove(caller@));
        Ok(transfer)
    }

    /// "isWinnerV2" of `user`.
    fn is_winner_v2(&self, user: &Vec<u8>) -> (b: bool)
        ensures
            b == self@.winners_v2.contains(user@),
    {
        self.is_winner_v2.contains_key(user)
    }

    /// "joinedBlock" of `user` (zero where it never joined).
    fn joined_block(&self, user: &Vec<u8>) -> (n: u64)
        ensures
            n == number_at(self@.joined_block, user@),
    {
        self.joined_block.number(user)
    }
}

} // verus!
