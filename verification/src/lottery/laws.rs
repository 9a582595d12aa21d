//! What holds of the lottery across its endpoints.
use vstd::prelude::*;

use super::another_possibly_good_version::{claim_v2_result, join_v2_result};
use super::{
    claim_reward_result, drawn_winners, join_lottery_result, LotteryError, LotteryModel, ONE_EGLD,
    WINNING_DRAW,
};

verus! {

/// Nobody joins twice: once the caller joined, joining again is refused
/// whatever it pays, and with the right payment because it already joined.
pub proof fn law_join_once(m: LotteryModel, caller: Seq<u8>, payment: u128, again: u128)
    requires
        join_lottery_result(m, caller, payment) is Ok,
    ensures
        join_lottery_result(join_lottery_result(m, caller, payment)->Ok_0, caller, again) is Err,
        again == ONE_EGLD ==> join_lottery_result(
            join_lottery_result(m, caller, payment)->Ok_0,
            caller,
            again,
        ) == Err::<LotteryModel, LotteryError>(LotteryError::AlreadyJoined),
{
    let m2 = join_lottery_result(m, caller, payment)->Ok_0;
    assert(m2.participants[m.participants.len() as int] == caller);
}

/// A prize is claimed once: after a claim the caller is no longer a winner.
pub proof fn law_claim_once(m: LotteryModel, caller: Seq<u8>)
    requires
        claim_reward_result(m, caller) is Ok,
    ensures
        claim_reward_result(claim_reward_result(m, caller)->Ok_0, caller) == Err::<
            LotteryModel,
            LotteryError,
        >(LotteryError::NotWinner),
{
}

/// Joining and claiming belong to different phases: while the lottery is
/// open nobody claims, and once it is closed nobody joins.
pub proof fn law_phases(m: LotteryModel, caller: Seq<u8>, payment: u128)
    ensures
        m.is_lottery_open ==> claim_reward_result(m, caller) == Err::<LotteryModel, LotteryError>(
            LotteryError::LotteryStillOpen,
        ),
        !m.is_lottery_open ==> join_lottery_result(m, caller, payment) == Err::<
            LotteryModel,
            LotteryError,
        >(LotteryError::LotteryClosed),
{
}

/// A draw makes winners of participants only, namely of those whose number
/// is below the winning bound; earlier winners stay winners.
pub proof fn law_winners_are_lucky_participants(
    winners: Set<Seq<u8>>,
    participants: Seq<Seq<u8>>,
    draws: Seq<u64>,
    u: Seq<u8>,
)
    requires
        draws.len() == participants.len(),
    ensures
        drawn_winners(winners, participants, draws).contains(u) == (winners.contains(u) || exists|
            i: int,
        |
            0 <= i < participants.len() && #[trigger] participants[i] == u && draws[i]
                < WINNING_DRAW),
        drawn_winners(winners, participants, draws).contains(u) ==> winners.contains(u)
            || participants.contains(u),
{
}

/// In the second lottery a prize cannot be claimed in the block of the
/// join: claiming in that block is refused.
pub proof fn law_no_claim_in_join_block(
    m: LotteryModel,
    caller: Seq<u8>,
    payment: u128,
    block: u64,
    draw: u64,
)
    requires
        join_v2_result(m, caller, payment, block, draw) is Ok,
        block != 0,
    ensures
        claim_v2_result(join_v2_result(m, caller, payment, block, draw)->Ok_0, caller, block)
            == Err::<LotteryModel, LotteryError>(LotteryError::SameBlock),
{
}

/// In the second lottery the join makes the caller a winner exactly when
/// its draw is below the winning bound (or it was one already).
pub proof fn law_join_v2_draw(m: LotteryModel, caller: Seq<u8>, payment: u128, block: u64, draw: u64)
    requires
        join_v2_result(m, caller, payment, block, draw) is Ok,
    ensures
        join_v2_result(m, caller, payment, block, draw)->Ok_0.winners_v2.contains(caller) == (
        m.winners_v2.contains(caller) || draw < WINNING_DRAW),
{
}

/// A prize of the second lottery is claimed once: claiming again, in any
/// block, is refused.
pub proof fn law_claim_v2_once(m: LotteryModel, caller: Seq<u8>, block: u64, later: u64)
    requires
        claim_v2_result(m, caller, block) is Ok,
    ensures
        claim_v2_result(claim_v2_result(m, caller, block)->Ok_0, caller, later) is Err,
{
}

} // verus!
