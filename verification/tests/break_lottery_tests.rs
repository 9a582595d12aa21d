use mvx_challenge::break_lottery::{BreakLottery, BreakLotteryError, CalleeContract, ContractCall, ONE_EGLD};

fn addr(s: &str) -> Vec<u8> {
    s.as_bytes().to_vec()
}

#[test]
fn init_needs_an_address_the_first_time() {
    let mut c = BreakLottery::new();
    assert_eq!(c.init(None), Err(BreakLotteryError::ScAddressEmpty));
    assert_eq!(c.sc_address, None);
    assert_eq!(c.init(Some(addr("lottery"))), Ok(()));
    assert_eq!(c.sc_address, Some(addr("lottery")));
}

#[test]
fn upgrade_without_address_keeps_it() {
    let mut c = BreakLottery::new();
    c.init(Some(addr("lottery"))).unwrap();
    assert_eq!(c.init(None), Ok(()));
    assert_eq!(c.sc_address, Some(addr("lottery")));
    c.init(Some(addr("other"))).unwrap();
    assert_eq!(c.sc_address, Some(addr("other")));
}

#[test]
fn only_the_owner_plays() {
    let mut c = BreakLottery::new();
    c.init(Some(addr("lottery"))).unwrap();
    assert_eq!(c.call_sc(&addr("eve"), &addr("owner")), Err(BreakLotteryError::NotOwner));
}

#[test]
fn playing_without_address_fails_to_decode() {
    let c = BreakLottery::new();
    assert_eq!(c.call_sc(&addr("owner"), &addr("owner")), Err(BreakLotteryError::StorageDecode));
}

#[test]
fn play_calls_wrong_endpoint_with_one_egld() {
    let mut c = BreakLottery::new();
    c.init(Some(addr("lottery"))).unwrap();
    assert_eq!(
        c.call_sc(&addr("owner"), &addr("owner")),
        Ok(ContractCall { to: addr("lottery"), endpoint: b"wrongEndpoint".to_vec(), egld_value: ONE_EGLD })
    );
}

#[test]
fn proxy_builds_the_call() {
    let p = CalleeContract { address: addr("target") };
    let call = p.wrong_endpoint(7);
    assert_eq!(call.to, addr("target"));
    assert_eq!(call.endpoint, b"wrongEndpoint".to_vec());
    assert_eq!(call.egld_value, 7);
}

#[test]
fn losing_play_is_reverted() {
    let c = BreakLottery::new();
    assert_eq!(c.check_call_sc(5 * ONE_EGLD, 4 * ONE_EGLD), Err(BreakLotteryError::NotWinner));
}

#[test]
fn winning_or_even_play_stands() {
    let c = BreakLottery::new();
    assert_eq!(c.check_call_sc(5 * ONE_EGLD, 104 * ONE_EGLD), Ok(()));
    assert_eq!(c.check_call_sc(5 * ONE_EGLD, 5 * ONE_EGLD), Ok(()));
}
