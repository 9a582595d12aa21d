use mvx_challenge::lottery::another_possibly_good_version::AnotherVersion;
use mvx_challenge::lottery::wrong_version::WrongVersion;
use mvx_challenge::lottery::{EgldTransfer, LotteryError, LotterySc, ONE_EGLD, PRIZE};

fn addr(s: &str) -> Vec<u8> {
    s.as_bytes().to_vec()
}

fn open_lottery() -> LotterySc {
    let mut c = LotterySc::new();
    c.init();
    c
}

#[test]
fn prize_is_a_hundred_egld() {
    assert_eq!(ONE_EGLD, 1_000_000_000_000_000_000u128);
    assert_eq!(PRIZE, 100 * ONE_EGLD);
}

#[test]
fn init_opens_the_lottery() {
    let mut c = LotterySc::new();
    assert!(!c.get_is_lottery_open());
    c.init();
    assert!(c.get_is_lottery_open());
}

#[test]
fn join_before_init_is_refused() {
    let mut c = LotterySc::new();
    assert_eq!(c.join_lottery(&addr("alice"), ONE_EGLD), Err(LotteryError::LotteryClosed));
    assert!(c.get_all_participants().is_empty());
}

#[test]
fn join_needs_exactly_one_egld() {
    let mut c = open_lottery();
    assert_eq!(c.join_lottery(&addr("alice"), ONE_EGLD - 1), Err(LotteryError::InvalidPayment));
    assert_eq!(c.join_lottery(&addr("alice"), 2 * ONE_EGLD), Err(LotteryError::InvalidPayment));
    assert_eq!(c.join_lottery(&addr("alice"), ONE_EGLD), Ok(()));
    assert_eq!(c.get_all_participants(), vec![addr("alice")]);
}

#[test]
fn nobody_joins_twice() {
    let mut c = open_lottery();
    assert_eq!(c.join_lottery(&addr("alice"), ONE_EGLD), Ok(()));
    assert_eq!(c.join_lottery(&addr("bob"), ONE_EGLD), Ok(()));
    assert_eq!(c.join_lottery(&addr("alice"), ONE_EGLD), Err(LotteryError::AlreadyJoined));
    assert_eq!(c.get_all_participants(), vec![addr("alice"), addr("bob")]);
}

#[test]
fn only_the_owner_draws() {
    let mut c = open_lottery();
    c.join_lottery(&addr("alice"), ONE_EGLD).unwrap();
    assert_eq!(
        c.extract_winners(&addr("alice"), &addr("owner"), &vec![1]),
        Err(LotteryError::NotOwner)
    );
    assert!(c.get_is_lottery_open());
    assert!(!c.get_is_winner(&addr("alice")));
}

#[test]
fn draw_picks_numbers_below_the_bound_and_closes() {
    let mut c = open_lottery();
    c.join_lottery(&addr("alice"), ONE_EGLD).unwrap();
    c.join_lottery(&addr("bob"), ONE_EGLD).unwrap();
    c.join_lottery(&addr("carol"), ONE_EGLD).unwrap();
    assert_eq!(c.extract_winners(&addr("owner"), &addr("owner"), &vec![999, 1000, 1]), Ok(()));
    assert!(!c.get_is_lottery_open());
    assert!(c.get_is_winner(&addr("alice")));
    assert!(!c.get_is_winner(&addr("bob")));
    assert!(c.get_is_winner(&addr("carol")));
    assert!(!c.get_is_winner(&addr("dave")));
}

#[test]
fn no_claim_while_open() {
    let mut c = open_lottery();
    c.join_lottery(&addr("alice"), ONE_EGLD).unwrap();
    assert_eq!(c.claim_reward(&addr("alice")), Err(LotteryError::LotteryStillOpen));
}

#[test]
fn no_join_after_draw() {
    let mut c = open_lottery();
    c.extract_winners(&addr("owner"), &addr("owner"), &vec![]).unwrap();
    assert_eq!(c.join_lottery(&addr("alice"), ONE_EGLD), Err(LotteryError::LotteryClosed));
}

#[test]
fn winner_claims_once() {
    let mut c = open_lottery();
    c.join_lottery(&addr("alice"), ONE_EGLD).unwrap();
    c.join_lottery(&addr("bob"), ONE_EGLD).unwrap();
    c.extract_winners(&addr("owner"), &addr("owner"), &vec![10, 50_000]).unwrap();
    assert_eq!(
        c.claim_reward(&addr("alice")),
        Ok(EgldTransfer { to: addr("alice"), amount: PRIZE })
    );
    assert!(!c.get_is_winner(&addr("alice")));
    assert_eq!(c.claim_reward(&addr("alice")), Err(LotteryError::NotWinner));
    assert_eq!(c.claim_reward(&addr("bob")), Err(LotteryError::NotWinner));
    assert_eq!(c.claim_reward(&addr("stranger")), Err(LotteryError::NotWinner));
}

#[test]
fn reopening_keeps_participants_and_winners() {
    let mut c = open_lottery();
    c.join_lottery(&addr("alice"), ONE_EGLD).unwrap();
    c.extract_winners(&addr("owner"), &addr("owner"), &vec![0]).unwrap();
    c.init();
    assert!(c.get_is_lottery_open());
    assert_eq!(c.join_lottery(&addr("alice"), ONE_EGLD), Err(LotteryError::AlreadyJoined));
    assert!(c.get_is_winner(&addr("alice")));
}

#[test]
fn wrong_endpoint_pays_on_a_lucky_draw() {
    let c = open_lottery();
    assert_eq!(
        c.wrong_endpoint(&addr("alice"), ONE_EGLD, 999),
        Ok(Some(EgldTransfer { to: addr("alice"), amount: PRIZE }))
    );
    assert_eq!(c.wrong_endpoint(&addr("alice"), ONE_EGLD, 1000), Ok(None));
    assert_eq!(c.wrong_endpoint(&addr("alice"), ONE_EGLD, 99_999), Ok(None));
    assert_eq!(c.wrong_endpoint(&addr("alice"), 0, 1), Err(LotteryError::WrongPayment));
}

#[test]
fn v2_join_needs_one_egld() {
    let mut c = LotterySc::new();
    assert_eq!(c.join_lottery_v2(&addr("alice"), 5, 10, 1), Err(LotteryError::InvalidPayment));
    assert_eq!(c.joined_block(&addr("alice")), 0);
    assert!(!c.is_winner_v2(&addr("alice")));
}

#[test]
fn v2_claim_waits_for_a_later_block() {
    let mut c = LotterySc::new();
    assert_eq!(c.join_lottery_v2(&addr("alice"), ONE_EGLD, 10, 3), Ok(()));
    assert!(c.is_winner_v2(&addr("alice")));
    assert_eq!(c.joined_block(&addr("alice")), 10);
    assert_eq!(c.claim_reward_v2(&addr("alice"), 10), Err(LotteryError::SameBlock));
    assert_eq!(
        c.claim_reward_v2(&addr("alice"), 11),
        Ok(EgldTransfer { to: addr("alice"), amount: PRIZE })
    );
    assert_eq!(c.claim_reward_v2(&addr("alice"), 12), Err(LotteryError::NotWinner));
}

#[test]
fn v2_claim_needs_a_join() {
    let mut c = LotterySc::new();
    assert_eq!(c.claim_reward_v2(&addr("bob"), 7), Err(LotteryError::NotJoined));
}

#[test]
fn v2_loser_cannot_claim() {
    let mut c = LotterySc::new();
    c.join_lottery_v2(&addr("bob"), ONE_EGLD, 4, 1000).unwrap();
    assert!(!c.is_winner_v2(&addr("bob")));
    assert_eq!(c.claim_reward_v2(&addr("bob"), 9), Err(LotteryError::NotWinner));
}

#[test]
fn v2_join_in_block_zero_counts_as_no_join() {
    let mut c = LotterySc::new();
    c.join_lottery_v2(&addr("alice"), ONE_EGLD, 0, 1).unwrap();
    assert!(c.is_winner_v2(&addr("alice")));
    assert_eq!(c.claim_reward_v2(&addr("alice"), 3), Err(LotteryError::NotJoined));
}

#[test]
fn v2_rejoin_moves_the_join_block() {
    let mut c = LotterySc::new();
    c.join_lottery_v2(&addr("alice"), ONE_EGLD, 5, 1).unwrap();
    c.join_lottery_v2(&addr("alice"), ONE_EGLD, 8, 50_000).unwrap();
    assert_eq!(c.joined_block(&addr("alice")), 8);
    assert!(c.is_winner_v2(&addr("alice")));
    assert_eq!(c.claim_reward_v2(&addr("alice"), 8), Err(LotteryError::SameBlock));
    assert!(c.claim_reward_v2(&addr("alice"), 5).is_ok());
}
