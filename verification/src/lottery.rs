//! A lottery: players join by paying one EGLD, the owner draws the winners,
//! and each winner claims a hundred EGLD. Two other ways to play live in the
//! same contract: an endpoint that pays out at once on a lucky draw, and a
//! lottery whose prize may only be claimed in a later block than the join.
use vstd::prelude::*;

use crate::store::{KeyEq, KeyMap, KeySet};

pub mod another_possibly_good_version;
pub mod laws;
pub mod wrong_version;

verus! {

/// One EGLD in its smallest unit.
pub const ONE_EGLD: u128 = 1000000000000000000;

/// Draws are taken in `1..MAX_NR`.
pub const MAX_NR: u64 = 100000;

/// A draw below this wins.
pub const WINNING_DRAW: u64 = 1000;

/// What a winner receives: a hundred EGLD.
pub const PRIZE: u128 = 100000000000000000000;

/// Why an endpoint of the lottery fails; the whole call is then reverted.
#[derive(Clone, Copy, Debug, PartialEq, Eq, Structural)]
pub enum LotteryError {
    /// "Endpoint can only be called by owner"
    NotOwner,
    /// "lottery is closed"
    LotteryClosed,
    /// "invalid payment"
    InvalidPayment,
    /// "already joined the lottery"
    AlreadyJoined,
    /// "can not claim yet, lottery is still open"
    LotteryStillOpen,
    /// "caller is not winner"
    NotWinner,
    /// "Invalid payment"
    WrongPayment,
    /// "you have to join first"
    NotJoined,
    /// "can't claim in the same block as join"
    SameBlock,
}

/// An EGLD transfer that the contract makes.
#[derive(Clone, Debug, PartialEq, Eq)]
pub struct EgldTransfer {
    pub to: Vec<u8>,
    pub amount: u128,
}

/// The lottery's storage by value.
pub struct LotteryModel {
    /// "isLotteryOpen".
    pub is_lottery_open: bool,
    /// "allParticipants", in storage order.
    pub participants: Seq<Seq<u8>>,
    /// "isWinner": the addresses that drew a winning number.
    pub winners: Set<Seq<u8>>,
    /// "isWinnerV2": the addresses that drew a winning number on joining.
    pub winners_v2: Set<Seq<u8>>,
    /// "joinedBlock": address to the block it joined in; absent means zero.
    pub joined_block: Map<Seq<u8>, u64>,
}

/// The lottery's storage.
pub struct LotterySc {
    pub is_lottery_open: bool,
    pub participants: KeySet<Vec<u8>>,
    pub is_winner: KeyMap<Vec<u8>, ()>,
    pub is_winner_v2: KeyMap<Vec<u8>, ()>,
    pub joined_block: KeyMap<Vec<u8>, u64>,
}

impl View for LotterySc {
    type V = LotteryModel;

    open spec fn view(&self) -> LotteryModel {
        LotteryModel {
            is_lottery_open: self.is_lottery_open,
            participants: self.participants@,
            winners: self.is_winner@.dom(),
            winners_v2: self.is_winner_v2@.dom(),
            joined_block: self.joined_block@,
        }
    }
}

/// The winners after a draw: those already winning, and every participant
/// whose draw (the one at its position) is below the winning bound.
pub open spec fn drawn_winners(winners: Set<Seq<u8>>, participants: Seq<Seq<u8>>, draws: Seq<u64>) -> Set<
    Seq<u8>,
> {
    winners.union(
        Set::new(
            |u: Seq<u8>|
                exists|i: int|
                    0 <= i < participants.len() && participants[i] == u && draws[i] < WINNING_DRAW,
        ),
    )
}

proof fn lemma_drawn_step(w0: Set<Seq<u8>>, ps: Seq<Seq<u8>>, ds: Seq<u64>, i: int)
    requires
        0 <= i < ps.len(),
        ps.len() == ds.len(),
    ensures
        forall|u: Seq<u8>|
            #[trigger] drawn_winners(w0, ps.take(i + 1), ds.take(i + 1)).contains(u) == (drawn_winners(
                w0,
                ps.take(i),
                ds.take(i),
            ).contains(u) || (u == ps[i] && ds[i] < WINNING_DRAW)),
{
    let p0 = ps.take(i);
    let d0 = ds.take(i);
    let p1 = ps.take(i + 1);
    let d1 = ds.take(i + 1);
    assert forall|u: Seq<u8>|
        #[trigger] drawn_winners(w0, p1, d1).contains(u) == (drawn_winners(w0, p0, d0).contains(u) || (
        u == ps[i] && ds[i] < WINNING_DRAW)) by {
        let in1 = exists|j: int| 0 <= j < p1.len() && p1[j] == u && d1[j] < WINNING_DRAW;
        let in0 = exists|j: int| 0 <= j < p0.len() && p0[j] == u && d0[j] < WINNING_DRAW;
        if in0 {
            let j = choose|j: int| 0 <= j < p0.len() && p0[j] == u && d0[j] < WINNING_DRAW;
            assert(p1[j] == u && d1[j] < WINNING_DRAW);
        }
        if u == ps[i] && ds[i] < WINNING_DRAW {
            assert(p1[i] == u && d1[i] < WINNING_DRAW);
        }
        if in1 {
            let j = choose|j: int| 0 <= j < p1.len() && p1[j] == u && d1[j] < WINNING_DRAW;
            if j < i {
                assert(p0[j] == u && d0[j] < WINNING_DRAW);
            } else {
                assert(j == i);
            }
        }
    }
}

pub open spec fn join_lottery_result(m: LotteryModel, caller: Seq<u8>, payment: u128) -> Result<
    LotteryModel,
    LotteryError,
> {
    if !m.is_lottery_open {
        Err(LotteryError::LotteryClosed)
    } else if payment != ONE_EGLD {
        Err(LotteryError::InvalidPayment)
    } else if m.participants.contains(caller) {
        Err(LotteryError::AlreadyJoined)
    } else {
        Ok(LotteryModel { participants: m.participants.push(caller), ..m })
    }
}

pub open spec fn claim_reward_result(m: LotteryModel, caller: Seq<u8>) -> Result<
    LotteryModel,
    LotteryError,
> {
    if m.is_lottery_open {
        Err(LotteryError::LotteryStillOpen)
    } else if !m.winners.contains(caller) {
        Err(LotteryError::NotWinner)
    } else {
        Ok(LotteryModel { winners: m.winners.remove(caller), ..m })
    }
}

impl LotterySc {
    /// A contract with empty storage, as before its first `init`.
    pub fn new() -> (c: Self)
        ensures
            !c@.is_lottery_open,
            c@.participants == Seq::<Seq<u8>>::empty(),
            c@.winners == Set::<Seq<u8>>::empty(),
            c@.winners_v2 == Set::<Seq<u8>>::empty(),
            c@.joined_block == Map::<Seq<u8>, u64>::empty(),
    {
        let c = LotterySc {
            is_lottery_open: false,
            participants: KeySet::new(),
            is_winner: KeyMap::new(),
            is_winner_v2: KeyMap::new(),
            joined_block: KeyMap::new(),
        };
        assert(c@.winners =~= Set::<Seq<u8>>::empty());
        assert(c@.winners_v2 =~= Set::<Seq<u8>>::empty());
        c
    }

    /// Deploy or upgrade: opens the lottery.
    pub fn init(&mut self)
        ensures
            final(self)@ == (LotteryModel { is_lottery_open: true, ..old(self)@ }),
    {
        self.is_lottery_open = true;
    }

    /// The caller joins, paying exactly one EGLD, while the lottery is open;
    /// nobody joins twice.
    pub fn join_lottery(&mut self, caller: &Vec<u8>, payment: u128) -> (r: Result<(), LotteryError>)
        ensures
            match join_lottery_result(old(self)@, caller@, payment) {
                Ok(m) => r is Ok && final(self)@ == m,
                Err(e) => r == Err::<(), LotteryError>(e) && final(self)@ == old(self)@,
            },
    {
        if !self.is_lottery_open {
            return Err(LotteryError::LotteryClosed);
        }
        if payment != ONE_EGLD {
            return Err(LotteryError::InvalidPayment);
        }
        if !self.participants.insert(caller.key_clone()) {
            return Err(LotteryError::AlreadyJoined);
        }
        Ok(())
    }

    /// The owner draws the winners: `draws[i]` is the number drawn for the
    /// participant at position `i`, and a number below the winning bound
    /// wins. The lottery closes.
    pub fn extract_winners(&mut self, caller: &Vec<u8>, owner: &Vec<u8>, draws: &Vec<u64>) -> (r: Result<
        (),
        LotteryError,
    >)
        requires
            draws@.len() == old(self)@.participants.len(),
        ensures
            caller@ != owner@ ==> r == Err::<(), LotteryError>(LotteryError::NotOwner) && final(self)@
                == old(self)@,
            caller@ == owner@ ==> r is Ok && final(self)@ == (LotteryModel {
                is_lottery_open: false,
                winners: drawn_winners(old(self)@.winners, old(self)@.participants, draws@),
                ..old(self)@
            }),
    {
        if !caller.key_eq(owner) {
            return Err(LotteryError::NotOwner);
        }
        let n = self.participants.len();
        let ghost ps = self@.participants;
        let ghost w0 = self@.winners;
        let mut i: usize = 0;
        while i < n
            invariant
                n == ps.len(),
                draws@.len() == n,
                i <= n,
                self@ == (LotteryModel {
                    winners: self@.winners,
                    ..old(self)@
                }),
                ps == old(self)@.participants,
                w0 == old(self)@.winners,
                self@.winners == drawn_winners(w0, ps.take(i as int), draws@.take(i as int)),
            decreases n - i,
        {
            let user = self.participants.get(i).key_clone();
            let ghost w = self@.winners;
            if draws[i] < WINNING_DRAW {
                self.is_winner.insert(user, ());
            }
            proof {
                lemma_drawn_step(w0, ps, draws@, i as int);
                let ps1 = ps.take(i + 1);
                let ds1 = draws@.take(i + 1);
                assert(user@ == ps[i as int]);
                assert(self@.winners =~= drawn_winners(w0, ps1, ds1));
            }
            i += 1;
        }
        assert(ps.take(n as int) =~= ps);
        assert(draws@.take(n as int) =~= draws@);
        self.is_lottery_open = false;
        Ok(())
    }

    /// A winner claims its prize once the lottery is closed; it stops being a
    /// winner.
    pub fn claim_reward(&mut self, caller: &Vec<u8>) -> (r: Result<EgldTransfer, LotteryError>)
        ensures
            match claim_reward_result(old(self)@, caller@) {
                Ok(m) => r matches Ok(t) && t.to@ == caller@ && t.amount == PRIZE && final(self)@
                    == m,
                Err(e) => r == Err::<EgldTransfer, LotteryError>(e) && final(self)@ == old(self)@,
            },
    {
        if self.is_lottery_open {
            return Err(LotteryError::LotteryStillOpen);
        }
        if !self.is_winner.contains_key(caller) {
            return Err(LotteryError::NotWinner);
        }
        let transfer = EgldTransfer { to: caller.key_clone(), amount: PRIZE };
        let ghost w = self.is_winner@;
        self.is_winner.remove(caller);
        assert(self.is_winner@.dom() =~= w.dom().remove(caller@));
        Ok(transfer)
    }

    /// View "getIsLotteryOpen".
    pub fn get_is_lottery_open(&self) -> (b: bool)
        ensures
            b == self@.is_lottery_open,
    {
        self.is_lottery_open
    }

    /// View "getAllParticipants", in storage order.
    pub fn get_all_participants(&self) -> (r: Vec<Vec<u8>>)
        ensures
            crate::store::views_of(r@) == self@.participants,
    {
        self.participants.to_vec()
    }

    /// View "getIsWinner".
    pub fn get_is_winner(&self, user: &Vec<u8>) -> (b: bool)
        ensures
            b == self@.winners.contains(user@),
    {
        self.is_winner.contains_key(user)
    }
}

} // verus!
