//! An endpoint that pays out at once on a lucky draw.
use vstd::prelude::*;

use super::{EgldTransfer, LotteryError, LotterySc, ONE_EGLD, PRIZE, WINNING_DRAW};
use crate::store::KeyEq;

verus! {

/// Playing against a draw taken in the same transaction.
pub trait WrongVersion {
    fn wrong_endpoint(&self, caller: &Vec<u8>, payment: u128, draw: u64) -> Result<
        Option<EgldTransfer>,
        LotteryError,
    >;
}

impl WrongVersion for LotterySc {
    /// The caller pays exactly one EGLD; on a winning `draw` it receives the
    /// prize at once.
    fn wrong_endpoint(&self, caller: &Vec<u8>, payment: u128, draw: u64) -> (r: Result<
        Option<EgldTransfer>,
        LotteryError,
    >)
        ensures
            payment != ONE_EGLD ==> r == Err::<Option<EgldTransfer>, LotteryError>(
                LotteryError::WrongPayment,
            ),
            payment == ONE_EGLD && draw < WINNING_DRAW ==> (r matches Ok(Some(t)) && t.to@
                == caller@ && t.amount == PRIZE),
            payment == ONE_EGLD && draw >= WINNING_DRAW ==> r matches Ok(None),
    {
        if payment != ONE_EGLD {
            return Err(LotteryError::WrongPayment);
        }
        if draw < WINNING_DRAW {
            return Ok(Some(EgldTransfer { to: caller.key_clone(), amount: PRIZE }));
        }
        Ok(None)
    }
}

} // verus!
