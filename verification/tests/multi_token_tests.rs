use mvx_challenge::multi_token::admin::AdminModule;
use mvx_challenge::multi_token::storage::StorageModule;
use mvx_challenge::multi_token::token::TokenModule;
use mvx_challenge::multi_token::types::{
    Balance, BalanceNoAmount, BurnToken, LocalRole, Payment, Token, TokenType, ISSUE_COST,
};
use mvx_challenge::multi_token::{MapperState, MultiTokenContract, MultiTokenEffect, MultiTokenError};

fn addr(s: &str) -> Vec<u8> {
    s.as_bytes().to_vec()
}

fn pay(token: &str, nonce: u64, amount: u128) -> Payment {
    Payment { token_id: addr(token), nonce, amount }
}

fn enabled() -> MultiTokenContract {
    let mut c = MultiTokenContract::new();
    c.init(Some(true));
    c
}

#[test]
fn init_with_any_value_enables() {
    let mut c = MultiTokenContract::new();
    assert!(!c.enabled());
    c.init(None);
    assert!(!c.enabled());
    c.init(Some(false));
    assert!(c.enabled());
}

#[test]
fn maintenance_switch_is_owner_only() {
    let mut c = enabled();
    assert_eq!(c.disable_contract(&addr("eve"), &addr("owner")), Err(MultiTokenError::NotOwner));
    assert!(c.enabled());
    assert_eq!(c.disable_contract(&addr("owner"), &addr("owner")), Ok(()));
    assert!(!c.enabled());
    assert_eq!(c.enable_contract(&addr("eve"), &addr("owner")), Err(MultiTokenError::NotOwner));
    assert_eq!(c.enable_contract(&addr("owner"), &addr("owner")), Ok(()));
    assert!(c.enabled());
}

#[test]
fn maintenance_refuses_deposits_and_queries() {
    let mut c = MultiTokenContract::new();
    assert_eq!(c.deposit(&addr("alice"), pay("EGLD", 0, 5)), Err(MultiTokenError::Maintenance));
    assert_eq!(c.withdraw(&addr("alice"), pay("EGLD", 0, 5)), Err(MultiTokenError::Maintenance));
    assert_eq!(c.balance_of_batch(vec![]), Err(MultiTokenError::Maintenance));
    assert_eq!(
        c.set_approval_for_all(&addr("alice"), &addr("bob"), true),
        Err(MultiTokenError::Maintenance)
    );
    assert_eq!(c.balance(&addr("alice"), &addr("EGLD"), 0), 0);
}

#[test]
fn deposit_credits_the_caller() {
    let mut c = enabled();
    assert_eq!(c.deposit(&addr("alice"), pay("TOK-123456", 3, 40)), Ok(()));
    assert_eq!(c.deposit(&addr("alice"), pay("TOK-123456", 3, 2)), Ok(()));
    assert_eq!(c.deposit(&addr("alice"), pay("EGLD", 0, 7)), Ok(()));
    assert_eq!(c.balance(&addr("alice"), &addr("TOK-123456"), 3), 42);
    assert_eq!(c.balance(&addr("alice"), &addr("TOK-123456"), 0), 0);
    assert_eq!(c.balance(&addr("alice"), &addr("EGLD"), 0), 7);
    assert_eq!(c.balance_token_ids(&addr("alice")), vec![addr("TOK-123456"), addr("EGLD")]);
}

#[test]
fn deposit_beyond_the_largest_amount_is_refused() {
    let mut c = enabled();
    c.deposit(&addr("alice"), pay("EGLD", 0, u128::MAX)).unwrap();
    assert_eq!(c.deposit(&addr("alice"), pay("EGLD", 0, 1)), Err(MultiTokenError::AmountOverflow));
    assert_eq!(c.balance(&addr("alice"), &addr("EGLD"), 0), u128::MAX);
}

#[test]
fn withdraw_sends_and_debits() {
    let mut c = enabled();
    c.deposit(&addr("alice"), pay("TOK-123456", 1, 10)).unwrap();
    assert_eq!(
        c.withdraw(&addr("alice"), pay("TOK-123456", 1, 4)),
        Ok(MultiTokenEffect::Send { to: addr("alice"), token_id: addr("TOK-123456"), nonce: 1, amount: 4 })
    );
    assert_eq!(c.balance(&addr("alice"), &addr("TOK-123456"), 1), 6);
    assert_eq!(c.balance_token_ids(&addr("alice")), vec![addr("TOK-123456")]);
}

#[test]
fn withdraw_more_than_the_balance_is_refused() {
    let mut c = enabled();
    c.deposit(&addr("alice"), pay("EGLD", 0, 10)).unwrap();
    assert_eq!(c.withdraw(&addr("alice"), pay("EGLD", 0, 11)), Err(MultiTokenError::NotEnoughBalance));
    assert_eq!(c.withdraw(&addr("bob"), pay("EGLD", 0, 1)), Err(MultiTokenError::NotEnoughBalance));
    assert_eq!(c.balance(&addr("alice"), &addr("EGLD"), 0), 10);
}

#[test]
fn withdrawing_everything_forgets_the_token() {
    let mut c = enabled();
    c.deposit(&addr("alice"), pay("AAA-111111", 0, 1)).unwrap();
    c.deposit(&addr("alice"), pay("BBB-222222", 0, 1)).unwrap();
    c.deposit(&addr("alice"), pay("CCC-333333", 0, 1)).unwrap();
    c.withdraw(&addr("alice"), pay("AAA-111111", 0, 1)).unwrap();
    assert_eq!(c.balance_token_ids(&addr("alice")), vec![addr("CCC-333333"), addr("BBB-222222")]);
}

#[test]
fn withdraw_after_deposit_restores_balances() {
    let mut c = enabled();
    c.deposit(&addr("alice"), pay("TOK-123456", 0, 9)).unwrap();
    c.deposit(&addr("alice"), pay("TOK-123456", 0, 5)).unwrap();
    c.withdraw(&addr("alice"), pay("TOK-123456", 0, 5)).unwrap();
    assert_eq!(c.balance(&addr("alice"), &addr("TOK-123456"), 0), 9);
}

#[test]
fn balance_of_batch_answers_in_order() {
    let mut c = enabled();
    c.deposit(&addr("alice"), pay("EGLD", 0, 3)).unwrap();
    c.deposit(&addr("bob"), pay("TOK-123456", 2, 8)).unwrap();
    let q = vec![
        BalanceNoAmount { user: addr("bob"), token_id: addr("TOK-123456"), nonce: 2 },
        BalanceNoAmount { user: addr("alice"), token_id: addr("EGLD"), nonce: 0 },
        BalanceNoAmount { user: addr("carol"), token_id: addr("EGLD"), nonce: 0 },
    ];
    assert_eq!(
        c.balance_of_batch(q),
        Ok(vec![
            Balance { user: addr("bob"), token_id: addr("TOK-123456"), nonce: 2, amount: 8 },
            Balance { user: addr("alice"), token_id: addr("EGLD"), nonce: 0, amount: 3 },
            Balance { user: addr("carol"), token_id: addr("EGLD"), nonce: 0, amount: 0 },
        ])
    );
}

#[test]
fn into_tuple_splits_the_fields() {
    let q = BalanceNoAmount { user: addr("u"), token_id: addr("t"), nonce: 4 };
    assert_eq!(q.into_tuple(), (addr("u"), addr("t"), 4));
    let b = BurnToken { nonce: 1, token_ticker: addr("TIC"), amount: 9, token_type: 2 };
    assert_eq!(b.into_tuple(), (1, addr("TIC"), 9, 2));
    let t = Token {
        token_display_name: addr("Name"),
        token_ticker: addr("TIC"),
        amount: 5,
        token_type: 3,
        attributes: Some(addr("a")),
        num_decimals: Some(6),
    };
    assert_eq!(t.into_tuple(), (addr("Name"), addr("TIC"), 5, 3, Some(addr("a")), Some(6)));
}

#[test]
fn approval_is_granted_and_revoked() {
    let mut c = enabled();
    assert_eq!(
        c.set_approval_for_all(&addr("alice"), &addr("bob"), true),
        Ok(MultiTokenEffect::ApprovedForAllEvent { user: addr("alice"), operator: addr("bob"), approved: true })
    );
    assert!(c.approved_for_all(&addr("alice"), &addr("bob")));
    assert!(!c.approved_for_all(&addr("bob"), &addr("alice")));
    assert_eq!(
        c.set_approval_for_all(&addr("alice"), &addr("bob"), false),
        Ok(MultiTokenEffect::ApprovedForAllEvent { user: addr("alice"), operator: addr("bob"), approved: false })
    );
    assert!(!c.approved_for_all(&addr("alice"), &addr("bob")));
}

#[test]
fn caller_cannot_approve_itself() {
    let mut c = enabled();
    assert_eq!(
        c.set_approval_for_all(&addr("alice"), &addr("alice"), true),
        Err(MultiTokenError::CallerIsOperator)
    );
}

#[test]
fn transfer_by_owner_of_the_balance() {
    let mut c = enabled();
    c.deposit(&addr("alice"), pay("TOK-123456", 0, 10)).unwrap();
    assert_eq!(
        c.safe_transfer_from(&addr("alice"), &addr("alice"), &addr("bob"), pay("TOK-123456", 0, 4)),
        Ok(vec![
            MultiTokenEffect::Send { to: addr("bob"), token_id: addr("TOK-123456"), nonce: 0, amount: 4 },
            MultiTokenEffect::TransferSingleEvent {
                from: addr("alice"),
                to: addr("bob"),
                operator: addr("alice"),
                token_id: addr("TOK-123456"),
                amount: 4,
            },
        ])
    );
    assert_eq!(c.balance(&addr("alice"), &addr("TOK-123456"), 0), 6);
    assert_eq!(c.balance(&addr("bob"), &addr("TOK-123456"), 0), 0);
}

#[test]
fn transfer_by_a_stranger_is_refused() {
    let mut c = enabled();
    c.deposit(&addr("alice"), pay("TOK-123456", 0, 10)).unwrap();
    assert_eq!(
        c.safe_transfer_from(&addr("eve"), &addr("alice"), &addr("eve"), pay("TOK-123456", 0, 1)),
        Err(MultiTokenError::CallerNotAllowed)
    );
    assert_eq!(c.balance(&addr("alice"), &addr("TOK-123456"), 0), 10);
}

#[test]
fn transfer_by_an_approved_operator() {
    let mut c = enabled();
    c.deposit(&addr("alice"), pay("TOK-123456", 0, 10)).unwrap();
    c.set_approval_for_all(&addr("alice"), &addr("op"), true).unwrap();
    let r = c.safe_transfer_from(&addr("op"), &addr("alice"), &addr("bob"), pay("TOK-123456", 0, 10));
    assert!(r.is_ok());
    assert_eq!(c.balance(&addr("alice"), &addr("TOK-123456"), 0), 0);
    assert_eq!(
        c.safe_transfer_from(&addr("op"), &addr("alice"), &addr("bob"), pay("TOK-123456", 0, 1)),
        Err(MultiTokenError::NotEnoughBalance)
    );
}

#[test]
fn batch_transfer_debits_esdt_at_once_and_egld_at_the_end() {
    let mut c = enabled();
    c.deposit(&addr("alice"), pay("TOK-123456", 0, 100)).unwrap();
    c.deposit(&addr("alice"), pay("EGLD", 0, 50)).unwrap();
    let r = c.safe_batch_transfer_from(
        &addr("alice"),
        &addr("alice"),
        &addr("bob"),
        vec![pay("TOK-123456", 0, 30), pay("EGLD", 0, 20), pay("TOK-123456", 0, 30)],
    );
    assert_eq!(
        r,
        Ok(vec![
            MultiTokenEffect::Send { to: addr("bob"), token_id: addr("EGLD"), nonce: 0, amount: 20 },
            MultiTokenEffect::SendMulti {
                to: addr("bob"),
                payments: vec![pay("TOK-123456", 0, 30), pay("TOK-123456", 0, 30)],
            },
            MultiTokenEffect::TransferBatchEvent {
                from: addr("alice"),
                to: addr("bob"),
                operator: addr("alice"),
                payments: vec![pay("TOK-123456", 0, 30), pay("TOK-123456", 0, 30)],
                egld_amount: 20,
            },
        ])
    );
    assert_eq!(c.balance(&addr("alice"), &addr("TOK-123456"), 0), 40);
    assert_eq!(c.balance(&addr("alice"), &addr("EGLD"), 0), 30);
}

#[test]
fn batch_transfer_of_esdt_only_sends_no_egld() {
    let mut c = enabled();
    c.deposit(&addr("alice"), pay("TOK-123456", 5, 3)).unwrap();
    let r = c.safe_batch_transfer_from(&addr("alice"), &addr("alice"), &addr("bob"), vec![pay("TOK-123456", 5, 3)]);
    assert_eq!(
        r,
        Ok(vec![
            MultiTokenEffect::SendMulti { to: addr("bob"), payments: vec![pay("TOK-123456", 5, 3)] },
            MultiTokenEffect::TransferBatchEvent {
                from: addr("alice"),
                to: addr("bob"),
                operator: addr("alice"),
                payments: vec![pay("TOK-123456", 5, 3)],
                egld_amount: 0,
            },
        ])
    );
}

#[test]
fn batch_transfer_checks_each_entry_against_the_running_balance() {
    let mut c = enabled();
    c.deposit(&addr("alice"), pay("TOK-123456", 0, 100)).unwrap();
    let r = c.safe_batch_transfer_from(
        &addr("alice"),
        &addr("alice"),
        &addr("bob"),
        vec![pay("TOK-123456", 0, 60), pay("TOK-123456", 0, 60)],
    );
    assert_eq!(r, Err(MultiTokenError::NotEnoughBalance));
    assert_eq!(c.balance(&addr("alice"), &addr("TOK-123456"), 0), 100);
}

#[test]
fn batch_transfer_of_egld_beyond_the_balance_fails_at_the_end() {
    let mut c = enabled();
    c.deposit(&addr("alice"), pay("EGLD", 0, 50)).unwrap();
    c.deposit(&addr("alice"), pay("TOK-123456", 0, 5)).unwrap();
    let r = c.safe_batch_transfer_from(
        &addr("alice"),
        &addr("alice"),
        &addr("bob"),
        vec![pay("EGLD", 0, 30), pay("TOK-123456", 0, 5), pay("EGLD", 0, 30)],
    );
    assert_eq!(r, Err(MultiTokenError::NegativeSubtraction));
    assert_eq!(c.balance(&addr("alice"), &addr("EGLD"), 0), 50);
    assert_eq!(c.balance(&addr("alice"), &addr("TOK-123456"), 0), 5);
}

#[test]
fn batch_transfer_of_egld_is_checked_at_its_nonce_and_paid_from_nonce_zero() {
    let mut c = enabled();
    c.deposit(&addr("alice"), pay("EGLD", 0, 50)).unwrap();
    let r = c.safe_batch_transfer_from(&addr("alice"), &addr("alice"), &addr("bob"), vec![pay("EGLD", 2, 10)]);
    assert_eq!(r, Err(MultiTokenError::NotEnoughBalance));
    c.deposit(&addr("alice"), pay("EGLD", 2, 10)).unwrap();
    let r = c.safe_batch_transfer_from(&addr("alice"), &addr("alice"), &addr("bob"), vec![pay("EGLD", 2, 10)]);
    assert!(r.is_ok());
    assert_eq!(c.balance(&addr("alice"), &addr("EGLD"), 0), 40);
    assert_eq!(c.balance(&addr("alice"), &addr("EGLD"), 2), 10);
}

#[test]
fn batch_transfer_by_a_stranger_is_refused() {
    let mut c = enabled();
    c.deposit(&addr("alice"), pay("EGLD", 0, 50)).unwrap();
    assert_eq!(
        c.safe_batch_transfer_from(&addr("eve"), &addr("alice"), &addr("eve"), vec![pay("EGLD", 0, 1)]),
        Err(MultiTokenError::CallerNotAllowed)
    );
}

#[test]
fn mint_fungible_starts_the_issue() {
    let mut c = enabled();
    let r = c.mint(
        &addr("alice"),
        &addr("alice"),
        addr("Gold"),
        addr("GLD"),
        1000,
        0,
        None,
        Some(18),
        ISSUE_COST,
    );
    assert_eq!(
        r,
        Ok(MultiTokenEffect::IssueFungible {
            issue_cost: ISSUE_COST,
            display_name: addr("Gold"),
            ticker: addr("GLD"),
            initial_supply: 1000,
            num_decimals: 18,
        })
    );
    assert_eq!(c.fungible_token(&addr("GLD"), &addr("alice")), Some(MapperState::Pending));
    assert_eq!(c.non_fungible_token(&addr("GLD"), &addr("alice")), None);
}

#[test]
fn mint_again_while_pending_is_refused() {
    let mut c = enabled();
    c.mint(&addr("alice"), &addr("alice"), addr("Gold"), addr("GLD"), 1, 0, None, Some(0), ISSUE_COST).unwrap();
    assert_eq!(
        c.mint(&addr("alice"), &addr("alice"), addr("Gold"), addr("GLD"), 1, 0, None, Some(0), ISSUE_COST),
        Err(MultiTokenError::IssueAlreadyCalled)
    );
    assert!(c
        .mint(&addr("alice"), &addr("bob"), addr("Gold"), addr("GLD"), 1, 0, None, Some(0), ISSUE_COST)
        .is_err());
}

#[test]
fn mint_over_an_issued_token_is_refused() {
    let mut c = enabled();
    c.fungible_tokens.insert((addr("GLD"), addr("alice")), MapperState::Issued(addr("GLD-abcdef")));
    assert_eq!(
        c.mint(&addr("alice"), &addr("alice"), addr("Gold"), addr("GLD"), 1, 0, None, Some(0), ISSUE_COST),
        Err(MultiTokenError::TokenIdAlreadySet)
    );
}

#[test]
fn mint_checks_payment_then_caller() {
    let mut c = enabled();
    assert_eq!(
        c.mint(&addr("eve"), &addr("alice"), addr("Gold"), addr("GLD"), 1, 0, None, Some(0), ISSUE_COST - 1),
        Err(MultiTokenError::WrongIssueCost)
    );
    assert_eq!(
        c.mint(&addr("eve"), &addr("alice"), addr("Gold"), addr("GLD"), 1, 0, None, Some(0), ISSUE_COST),
        Err(MultiTokenError::CallerNotAllowed)
    );
}

#[test]
fn mint_argument_checks_per_token_type() {
    let mut c = enabled();
    let a = addr("alice");
    let some_attr = Some(addr("attr"));
    assert_eq!(
        c.mint(&a, &a, addr("N"), addr("NFT"), 1, 1, None, None, ISSUE_COST),
        Err(MultiTokenError::NftArguments)
    );
    assert_eq!(
        c.mint(&a, &a, addr("N"), addr("NFT"), 2, 1, some_attr.clone(), None, ISSUE_COST),
        Err(MultiTokenError::NftAmount)
    );
    assert_eq!(
        c.mint(&a, &a, addr("F"), addr("FUN"), 1, 0, None, None, ISSUE_COST),
        Err(MultiTokenError::FungibleDecimals)
    );
    assert_eq!(
        c.mint(&a, &a, addr("F"), addr("FUN"), 1, 0, some_attr.clone(), Some(2), ISSUE_COST),
        Err(MultiTokenError::FungibleAttributes)
    );
    assert_eq!(
        c.mint(&a, &a, addr("S"), addr("SFT"), 5, 2, some_attr.clone(), Some(2), ISSUE_COST),
        Err(MultiTokenError::SftArguments)
    );
    assert_eq!(
        c.mint(&a, &a, addr("M"), addr("MET"), 5, 3, None, Some(2), ISSUE_COST),
        Err(MultiTokenError::MetaArguments)
    );
    assert_eq!(
        c.mint(&a, &a, addr("X"), addr("XXX"), 5, 4, None, None, ISSUE_COST),
        Err(MultiTokenError::InvalidTokenType)
    );
    assert_eq!(c.fungible_token(&addr("FUN"), &a), None);
}

#[test]
fn mint_non_fungible_kinds() {
    let mut c = enabled();
    let a = addr("alice");
    assert_eq!(
        c.mint(&a, &a, addr("N"), addr("NFT"), 1, 1, Some(addr("x")), None, ISSUE_COST),
        Ok(MultiTokenEffect::IssueNonFungible {
            token_type: TokenType::NonFungible,
            issue_cost: ISSUE_COST,
            display_name: addr("N"),
            ticker: addr("NFT"),
            num_decimals: 0,
        })
    );
    assert_eq!(
        c.mint(&a, &a, addr("S"), addr("SFT"), 7, 2, Some(addr("x")), None, ISSUE_COST),
        Ok(MultiTokenEffect::IssueNonFungible {
            token_type: TokenType::SemiFungible,
            issue_cost: ISSUE_COST,
            display_name: addr("S"),
            ticker: addr("SFT"),
            num_decimals: 0,
        })
    );
    assert_eq!(
        c.mint(&a, &a, addr("M"), addr("MET"), 7, 3, Some(addr("x")), Some(4), ISSUE_COST),
        Ok(MultiTokenEffect::IssueNonFungible {
            token_type: TokenType::Meta,
            issue_cost: ISSUE_COST,
            display_name: addr("M"),
            ticker: addr("MET"),
            num_decimals: 4,
        })
    );
    assert_eq!(c.non_fungible_token(&addr("MET"), &a), Some(MapperState::Pending));
}

#[test]
fn mint_batch_pays_per_token_and_issues_the_first() {
    let mut c = enabled();
    let a = addr("alice");
    let t1 = Token {
        token_display_name: addr("One"),
        token_ticker: addr("ONE"),
        amount: 10,
        token_type: 0,
        attributes: None,
        num_decimals: Some(2),
    };
    let t2 = Token {
        token_display_name: addr("Two"),
        token_ticker: addr("TWO"),
        amount: 1,
        token_type: 1,
        attributes: Some(addr("x")),
        num_decimals: None,
    };
    assert_eq!(
        c.mint_batch(&a, &a, vec![t1.clone(), t2.clone()], ISSUE_COST),
        Err(MultiTokenError::WrongIssueCost)
    );
    assert_eq!(
        c.mint_batch(&a, &a, vec![t1, t2], 2 * ISSUE_COST),
        Ok(Some(MultiTokenEffect::IssueFungible {
            issue_cost: ISSUE_COST,
            display_name: addr("One"),
            ticker: addr("ONE"),
            initial_supply: 10,
            num_decimals: 2,
        }))
    );
    assert_eq!(c.fungible_token(&addr("ONE"), &a), Some(MapperState::Pending));
    assert_eq!(c.non_fungible_token(&addr("TWO"), &a), None);
    assert_eq!(c.mint_batch(&a, &a, vec![], 0), Ok(None));
}

#[test]
fn burn_fungible_within_the_balance() {
    let mut c = enabled();
    let a = addr("alice");
    c.fungible_tokens.insert((addr("GLD"), a.clone()), MapperState::Issued(addr("GLD-abcdef")));
    c.deposit(&a, pay("GLD-abcdef", 0, 20)).unwrap();
    assert_eq!(
        c.burn(&a, &a, 0, &addr("GLD"), 5, 0),
        Ok(MultiTokenEffect::LocalBurn { token_id: addr("GLD-abcdef"), nonce: 0, amount: 5 })
    );
    assert_eq!(c.burn(&a, &a, 0, &addr("GLD"), 21, 0), Err(MultiTokenError::NotEnoughBalance));
    assert_eq!(c.burn(&a, &a, 0, &addr("SLV"), 1, 0), Err(MultiTokenError::InvalidTokenId));
    assert_eq!(c.burn(&a, &a, 0, &addr("GLD"), 1, 9), Err(MultiTokenError::InvalidTokenType));
    assert_eq!(c.burn(&addr("eve"), &a, 0, &addr("GLD"), 1, 0), Err(MultiTokenError::CallerNotAllowed));
    assert_eq!(c.balance(&a, &addr("GLD-abcdef"), 0), 20);
}

#[test]
fn burn_non_fungible_goes_through_the_fungible_mapper() {
    let mut c = enabled();
    let a = addr("alice");
    c.non_fungible_tokens.insert((addr("NFT"), a.clone()), MapperState::Issued(addr("NFT-aaaaaa")));
    assert_eq!(c.burn(&a, &a, 3, &addr("NFT"), 1, 1), Err(MultiTokenError::InvalidTokenId));
    c.fungible_tokens.insert((addr("NFT"), a.clone()), MapperState::Issued(addr("NFT-bbbbbb")));
    assert_eq!(
        c.burn(&a, &a, 3, &addr("NFT"), 1, 1),
        Ok(MultiTokenEffect::LocalBurn { token_id: addr("NFT-bbbbbb"), nonce: 0, amount: 1 })
    );
}

#[test]
fn burn_batch_stops_at_the_first_failure() {
    let mut c = enabled();
    let a = addr("alice");
    c.fungible_tokens.insert((addr("GLD"), a.clone()), MapperState::Issued(addr("GLD-abcdef")));
    c.deposit(&a, pay("GLD-abcdef", 0, 20)).unwrap();
    let ok = vec![
        BurnToken { nonce: 0, token_ticker: addr("GLD"), amount: 5, token_type: 0 },
        BurnToken { nonce: 0, token_ticker: addr("GLD"), amount: 20, token_type: 0 },
    ];
    assert_eq!(
        c.burn_batch(&a, &a, ok),
        Ok(vec![
            MultiTokenEffect::LocalBurn { token_id: addr("GLD-abcdef"), nonce: 0, amount: 5 },
            MultiTokenEffect::LocalBurn { token_id: addr("GLD-abcdef"), nonce: 0, amount: 20 },
        ])
    );
    let bad = vec![
        BurnToken { nonce: 0, token_ticker: addr("GLD"), amount: 5, token_type: 0 },
        BurnToken { nonce: 0, token_ticker: addr("XXX"), amount: 1, token_type: 0 },
        BurnToken { nonce: 0, token_ticker: addr("GLD"), amount: 1, token_type: 8 },
    ];
    assert_eq!(c.burn_batch(&a, &a, bad), Err(MultiTokenError::InvalidTokenId));
}

#[test]
fn roles_need_an_issued_token() {
    let mut c = enabled();
    let a = addr("alice");
    assert_eq!(c.set_local_roles_fungible(&addr("GLD"), &a), Err(MultiTokenError::MustIssueFirst));
    c.issue_fungible_token(addr("Gold"), addr("GLD"), 1, 0, ISSUE_COST, &a).unwrap();
    assert_eq!(c.set_local_roles_fungible(&addr("GLD"), &a), Err(MultiTokenError::InvalidTokenId));
    c.fungible_tokens.insert((addr("GLD"), a.clone()), MapperState::Issued(addr("GLD-abcdef")));
    assert_eq!(
        c.set_local_roles_fungible(&addr("GLD"), &a),
        Ok(MultiTokenEffect::SetLocalRoles {
            token_id: addr("GLD-abcdef"),
            roles: vec![LocalRole::NftCreate, LocalRole::NftUpdateAttributes, LocalRole::Mint, LocalRole::Burn],
        })
    );
    c.non_fungible_tokens.insert((addr("NFT"), a.clone()), MapperState::Issued(addr("NFT-aaaaaa")));
    assert_eq!(
        c.set_roles_non_fungible(&addr("NFT"), &a),
        Ok(MultiTokenEffect::SetLocalRoles {
            token_id: addr("NFT-aaaaaa"),
            roles: vec![
                LocalRole::NftCreate,
                LocalRole::NftAddQuantity,
                LocalRole::NftBurn,
                LocalRole::NftUpdateAttributes,
                LocalRole::Mint,
                LocalRole::Burn,
            ],
        })
    );
}

#[test]
fn non_fungible_issue_refuses_the_fungible_type() {
    let mut c = enabled();
    assert_eq!(
        c.issue_non_fungible_token(TokenType::Fungible, ISSUE_COST, addr("F"), addr("FUN"), 0, &addr("alice")),
        Err(MultiTokenError::InvalidIssueType)
    );
    assert_eq!(c.non_fungible_token(&addr("FUN"), &addr("alice")), None);
}

#[test]
fn mint_and_create_on_issued_tokens() {
    let mut c = enabled();
    let a = addr("alice");
    assert_eq!(
        c.mint_token_fungible_and_send(5, &addr("bob"), &a, &addr("GLD")),
        Err(MultiTokenError::InvalidTokenId)
    );
    c.fungible_tokens.insert((addr("GLD"), a.clone()), MapperState::Issued(addr("GLD-abcdef")));
    assert_eq!(
        c.mint_token_fungible_and_send(5, &addr("bob"), &a, &addr("GLD")),
        Ok((
            pay("GLD-abcdef", 0, 5),
            vec![
                MultiTokenEffect::LocalMint { token_id: addr("GLD-abcdef"), nonce: 0, amount: 5 },
                MultiTokenEffect::Send { to: addr("bob"), token_id: addr("GLD-abcdef"), nonce: 0, amount: 5 },
            ]
        ))
    );
    assert_eq!(
        c.burn_token_fungible(3, &addr("GLD"), &a),
        Ok(MultiTokenEffect::LocalBurn { token_id: addr("GLD-abcdef"), nonce: 0, amount: 3 })
    );
    c.non_fungible_tokens.insert((addr("NFT"), a.clone()), MapperState::Issued(addr("NFT-aaaaaa")));
    assert_eq!(
        c.create_nft_and_send(&addr("attr"), &addr("NFT"), &a),
        Ok(MultiTokenEffect::NftCreateAndSend {
            token_id: addr("NFT-aaaaaa"),
            amount: 1,
            attributes: addr("attr"),
            to: a.clone(),
        })
    );
    assert_eq!(
        c.create_sft_and_send(&addr("attr"), &addr("NFT"), &a, 6),
        Ok(MultiTokenEffect::NftCreateAndSend {
            token_id: addr("NFT-aaaaaa"),
            amount: 6,
            attributes: addr("attr"),
            to: a.clone(),
        })
    );
}
