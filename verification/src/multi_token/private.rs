//! Checks and token-type dispatch shared by the multi-token endpoints.
use vstd::prelude::*;

use super::token::{issue_fungible_result, issue_non_fungible_result, issued, TokenModule};
use super::types::TokenType;
use super::{balance_at, caller_approved, EffectView, MapperState, MultiTokenContract,
    MultiTokenEffect, MultiTokenError, MultiTokenModel};
use crate::store::KeyEq;

verus! {

/// What minting a token of `token_type` (0 fungible, 1 non-fungible,
/// 2 semi-fungible, 3 meta) does: its arguments are checked, then the issue
/// starts, which ends the transaction.
pub open spec fn mint_token_result(
    m: MultiTokenModel,
    display_name: Seq<u8>,
    ticker: Seq<u8>,
    amount: u128,
    token_type: u8,
    has_attributes: bool,
    num_decimals: Option<usize>,
    user: Seq<u8>,
    issue_cost: u128,
) -> Result<(MultiTokenModel, EffectView), MultiTokenError> {
    if token_type == 1 {
        if !(has_attributes && num_decimals.is_none()) {
            Err(MultiTokenError::NftArguments)
        } else if amount != 1 {
            Err(MultiTokenError::NftAmount)
        } else {
            issue_non_fungible_result(m, TokenType::NonFungible, issue_cost, display_name, ticker, 0, user)
        }
    } else if token_type == 0 {
        if num_decimals.is_none() {
            Err(MultiTokenError::FungibleDecimals)
        } else if has_attributes {
            Err(MultiTokenError::FungibleAttributes)
        } else {
            issue_fungible_result(m, display_name, ticker, amount, num_decimals.unwrap(), issue_cost, user)
        }
    } else if token_type == 2 {
        if !(has_attributes && num_decimals.is_none()) {
            Err(MultiTokenError::SftArguments)
        } else {
            issue_non_fungible_result(m, TokenType::SemiFungible, issue_cost, display_name, ticker, 0, user)
        }
    } else if token_type == 3 {
        if !(num_decimals.is_some() && has_attributes) {
            Err(MultiTokenError::MetaArguments)
        } else {
            issue_non_fungible_result(
                m,
                TokenType::Meta,
                issue_cost,
                display_name,
                ticker,
                num_decimals.unwrap(),
                user,
            )
        }
    } else {
        Err(MultiTokenError::InvalidTokenType)
    }
}

/// What burning `amount` of the token of (ticker, user) with `token_type`
/// does. A fungible token is burnt only within the user's recorded balance;
/// the other types need their token known, and are then burnt through the
/// fungible mapper of the same ticker, which must hold a token too.
pub open spec fn burn_token_result(
    m: MultiTokenModel,
    token_type: u8,
    ticker: Seq<u8>,
    user: Seq<u8>,
    nonce: u64,
    amount: u128,
) -> Result<EffectView, MultiTokenError> {
    if token_type == 0 {
        match issued(m.fungible_tokens, (ticker, user)) {
            None => Err(MultiTokenError::InvalidTokenId),
            Some(t) => if balance_at(m, user, t, nonce) < amount {
                Err(MultiTokenError::NotEnoughBalance)
            } else {
                Ok(EffectView::LocalBurn { token_id: t, nonce: 0, amount })
            },
        }
    } else if token_type <= 3 {
        match issued(m.non_fungible_tokens, (ticker, user)) {
            None => Err(MultiTokenError::InvalidTokenId),
            Some(_) => match issued(m.fungible_tokens, (ticker, user)) {
                None => Err(MultiTokenError::InvalidTokenId),
                Some(f) => Ok(EffectView::LocalBurn { token_id: f, nonce: 0, amount }),
            },
        }
    } else {
        Err(MultiTokenError::InvalidTokenType)
    }
}

/// Checks, and the dispatch on token types.
pub trait PrivateModule {
    fn check_token_type_and_burn(
        &self,
        token_type: u8,
        token_ticker: &Vec<u8>,
        user: &Vec<u8>,
        nonce: u64,
        amount: u128,
    ) -> Result<MultiTokenEffect, MultiTokenError>;

    fn check_token_type_and_mint(
        &mut self,
        token_display_name: Vec<u8>,
        token_ticker: Vec<u8>,
        amount: u128,
        token_type: u8,
        attributes: Option<Vec<u8>>,
        num_decimals: Option<usize>,
        for_user: &Vec<u8>,
        issue_cost: u128,
    ) -> Result<MultiTokenEffect, MultiTokenError>;

    fn create_and_mint_meta(
        &mut self,
        user: &Vec<u8>,
        issue_cost: u128,
        token_display_name: Vec<u8>,
        token_ticker: Vec<u8>,
        token_type: TokenType,
        attributes: Vec<u8>,
        num_decimals: usize,
        amount: u128,
    ) -> Result<MultiTokenEffect, MultiTokenError>;

    fn create_and_mint_fungible(
        &mut self,
        token_display_name: Vec<u8>,
        token_ticker: Vec<u8>,
        initial_supply: u128,
        num_decimals: usize,
        issue_cost: u128,
        user: &Vec<u8>,
    ) -> Result<MultiTokenEffect, MultiTokenError>;

    fn create_and_mint_nft(
        &mut self,
        user: &Vec<u8>,
        issue_cost: u128,
        token_display_name: Vec<u8>,
        token_ticker: Vec<u8>,
        token_type: TokenType,
        attributes: Vec<u8>,
    ) -> Result<MultiTokenEffect, MultiTokenError>;

    fn create_and_mint_sft(
        &mut self,
        user: &Vec<u8>,
        issue_cost: u128,
        token_display_name: Vec<u8>,
        token_ticker: Vec<u8>,
        token_type: TokenType,
        attributes: Vec<u8>,
        amount: u128,
    ) -> Result<MultiTokenEffect, MultiTokenError>;

    fn require_meta(&self, num_decimals: &Option<usize>, attributes: &Option<Vec<u8>>) -> Result<
        (),
        MultiTokenError,
    >;

    fn require_sft(&self, attributes: &Option<Vec<u8>>, num_decimals: &Option<usize>) -> Result<
        (),
        MultiTokenError,
    >;

    fn require_fungible(&self, attributes: &Option<Vec<u8>>, num_decimals: &Option<usize>) -> Result<
        (),
        MultiTokenError,
    >;

    fn require_nft(
        &self,
        attributes: &Option<Vec<u8>>,
        num_decimals: Option<usize>,
        token_type: TokenType,
        amount: u128,
    ) -> Result<(), MultiTokenError>;

    fn require_invalid(&self) -> Result<(), MultiTokenError>;

    fn require_caller_not_operator(&self, caller: &Vec<u8>, operator: &Vec<u8>) -> Result<
        (),
        MultiTokenError,
    >;

    fn require_enabled(&self) -> Result<(), MultiTokenError>;

    fn require_caller_is_approved(&self, caller: &Vec<u8>, user: &Vec<u8>) -> Result<
        (),
        MultiTokenError,
    >;

    fn require_enough_balance(&self, balance: u128, amount: u128) -> Result<(), MultiTokenError>;
}

impl PrivateModule for MultiTokenContract {
    /// Burns `amount` of the token of (ticker, user) as `token_type` says.
    fn check_token_type_and_burn(
        &self,
        token_type: u8,
        token_ticker: &Vec<u8>,
        user: &Vec<u8>,
        nonce: u64,
        amount: u128,
    ) -> (r: Result<MultiTokenEffect, MultiTokenError>)
        ensures
            match burn_token_result(self@, token_type, token_ticker@, user@, nonce, amount) {
                Ok(e) => r matches Ok(x) && x@ == e,
                Err(e) => r == Err::<MultiTokenEffect, MultiTokenError>(e),
            },
    {
        if token_type == 0 {
            let token_id = match self.fungible_tokens.get(&(token_ticker.key_clone(), user.key_clone())) {
                Some(MapperState::Issued(t)) => t.key_clone(),
                _ => {
                    return Err(MultiTokenError::InvalidTokenId);
                },
            };
            let balance = self.balances.amount(&(user.key_clone(), token_id, nonce));
            self.require_enough_balance(balance, amount)?;
            self.burn_token_fungible(amount, token_ticker, user)
        } else if token_type <= 3 {
            match self.non_fungible_tokens.get(&(token_ticker.key_clone(), user.key_clone())) {
                Some(MapperState::Issued(_)) => {},
                _ => {
                    return Err(MultiTokenError::InvalidTokenId);
                },
            }
            self.burn_token_fungible(amount, token_ticker, user)
        } else {
            self.require_invalid()?;
            Err(MultiTokenError::InvalidTokenType)
        }
    }

    /// Checks the arguments for `token_type` and starts the issue of the
    /// token for `for_user`; the issue ends the transaction.
    fn check_token_type_and_mint(
        &mut self,
        token_display_name: Vec<u8>,
        token_ticker: Vec<u8>,
        amount: u128,
        token_type: u8,
        attributes: Option<Vec<u8>>,
        num_decimals: Option<usize>,
        for_user: &Vec<u8>,
        issue_cost: u128,
    ) -> (r: Result<MultiTokenEffect, MultiTokenError>)
        ensures
            match mint_token_result(
                old(self)@,
                token_display_name@,
                token_ticker@,
                amount,
                token_type,
                attributes.is_some(),
                num_decimals,
                for_user@,
                issue_cost,
            ) {
                Ok((m, e)) => r matches Ok(x) && x@ == e && final(self)@ == m,
                Err(e) => r == Err::<MultiTokenEffect, MultiTokenError>(e) && final(self)@ == old(self)@,
            },
    {
        if token_type == 4 {
            self.require_invalid()?;
            Err(MultiTokenError::InvalidTokenType)
        } else if token_type == 1 {
            self.require_nft(&attributes, num_decimals, TokenType::NonFungible, amount)?;
            let attrs = match attributes {
                Some(a) => a,
                None => Vec::new(),
            };
            self.create_and_mint_nft(
                for_user,
                issue_cost,
                token_display_name,
                token_ticker,
                TokenType::NonFungible,
                attrs,
            )
        } else if token_type == 0 {
            self.require_fungible(&attributes, &num_decimals)?;
            let decimals = match num_decimals {
                Some(d) => d,
                None => 0,
            };
            self.create_and_mint_fungible(
                token_display_name,
                token_ticker,
                amount,
                decimals,
                issue_cost,
                for_user,
            )
        } else if token_type == 2 {
            self.require_sft(&attributes, &num_decimals)?;
            let attrs = match attributes {
                Some(a) => a,
                None => Vec::new(),
            };
            self.create_and_mint_sft(
                for_user,
                issue_cost,
                token_display_name,
                token_ticker,
                TokenType::SemiFungible,
                attrs,
                amount,
            )
        } else if token_type == 3 {
            self.require_meta(&num_decimals, &attributes)?;
            let attrs = match attributes {
                Some(a) => a,
                None => Vec::new(),
            };
            let decimals = match num_decimals {
                Some(d) => d,
                None => 0,
            };
            self.create_and_mint_meta(
                for_user,
                issue_cost,
                token_display_name,
                token_ticker,
                TokenType::Meta,
                attrs,
                decimals,
                amount,
            )
        } else {
            self.require_invalid()?;
            Err(MultiTokenError::InvalidTokenType)
        }
    }

    /// Issues a meta token for `user`. The issue never returns to the
    /// contract (it ends the transaction), so the role request and the minting
    /// written after it are not reached in the same call.
    fn create_and_mint_meta(
        &mut self,
        user: &Vec<u8>,
        issue_cost: u128,
        token_display_name: Vec<u8>,
        token_ticker: Vec<u8>,
        token_type: TokenType,
        attributes: Vec<u8>,
        num_decimals: usize,
        amount: u128,
    ) -> (r: Result<MultiTokenEffect, MultiTokenError>)
        ensures
            match issue_non_fungible_result(
                old(self)@,
                token_type,
                issue_cost,
                token_display_name@,
                token_ticker@,
                num_decimals,
                user@,
            ) {
                Ok((m, e)) => r matches Ok(x) && x@ == e && final(self)@ == m,
                Err(e) => r == Err::<MultiTokenEffect, MultiTokenError>(e) && final(self)@ == old(self)@,
            },
    {
        self.issue_non_fungible_token(
            token_type,
            issue_cost,
            token_display_name,
            token_ticker,
            num_decimals,
            user,
        )
    }

    /// Issues a fungible token for `user` with `initial_supply`. The issue
    /// never returns to the contract (it ends the transaction), so the role
    /// request and the minting written after it are not reached in the same
    /// call.
    fn create_and_mint_fungible(
        &mut self,
        token_display_name: Vec<u8>,
        token_ticker: Vec<u8>,
        initial_supply: u128,
        num_decimals: usize,
        issue_cost: u128,
        user: &Vec<u8>,
    ) -> (r: Result<MultiTokenEffect, MultiTokenError>)
        ensures
            match issue_fungible_result(
                old(self)@,
                token_display_name@,
                token_ticker@,
                initial_supply,
                num_decimals,
                issue_cost,
                user@,
            ) {
                Ok((m, e)) => r matches Ok(x) && x@ == e && final(self)@ == m,
                Err(e) => r == Err::<MultiTokenEffect, MultiTokenError>(e) && final(self)@ == old(self)@,
            },
    {
        self.issue_fungible_token(
            token_display_name,
            token_ticker,
            initial_supply,
            num_decimals,
            issue_cost,
            user,
        )
    }

    /// Issues a non-fungible token for `user`. The issue never returns to the
    /// contract (it ends the transaction), so the role request and the
    /// creation written after it are not reached in the same call.
    fn create_and_mint_nft(
        &mut self,
        user: &Vec<u8>,
        issue_cost: u128,
        token_display_name: Vec<u8>,
        token_ticker: Vec<u8>,
        token_type: TokenType,
        attributes: Vec<u8>,
    ) -> (r: Result<MultiTokenEffect, MultiTokenError>)
        ensures
            match issue_non_fungible_result(
                old(self)@,
                token_type,
                issue_cost,
                token_display_name@,
                token_ticker@,
                0,
                user@,
            ) {
                Ok((m, e)) => r matches Ok(x) && x@ == e && final(self)@ == m,
                Err(e) => r == Err::<MultiTokenEffect, MultiTokenError>(e) && final(self)@ == old(self)@,
            },
    {
        self.issue_non_fungible_token(token_type, issue_cost, token_display_name, token_ticker, 0, user)
    }

    /// Issues a semi-fungible token for `user`. The issue never returns to
    /// the contract (it ends the transaction), so the role request and the
    /// creation written after it are not reached in the same call.
    fn create_and_mint_sft(
        &mut self,
        user: &Vec<u8>,
        issue_cost: u128,
        token_display_name: Vec<u8>,
        token_ticker: Vec<u8>,
        token_type: TokenType,
        attributes: Vec<u8>,
        amount: u128,
    ) -> (r: Result<MultiTokenEffect, MultiTokenError>)
        ensures
            match issue_non_fungible_result(
                old(self)@,
                token_type,
                issue_cost,
                token_display_name@,
                token_ticker@,
                0,
                user@,
            ) {
                Ok((m, e)) => r matches Ok(x) && x@ == e && final(self)@ == m,
                Err(e) => r == Err::<MultiTokenEffect, MultiTokenError>(e) && final(self)@ == old(self)@,
            },
    {
        self.issue_non_fungible_token(token_type, issue_cost, token_display_name, token_ticker, 0, user)
    }

    /// A meta token needs both a number of decimals and attributes.
    fn require_meta(&self, num_decimals: &Option<usize>, attributes: &Option<Vec<u8>>) -> (r: Result<
        (),
        MultiTokenError,
    >)
        ensures
            r == if num_decimals.is_some() && attributes.is_some() {
                Ok::<(), MultiTokenError>(())
            } else {
                Err(MultiTokenError::MetaArguments)
            },
    {
        if num_decimals.is_some() && attributes.is_some() {
            Ok(())
        } else {
            Err(MultiTokenError::MetaArguments)
        }
    }

    /// A semi-fungible token needs attributes and no number of decimals.
    fn require_sft(&self, attributes: &Option<Vec<u8>>, num_decimals: &Option<usize>) -> (r: Result<
        (),
        MultiTokenError,
    >)
        ensures
            r == if attributes.is_some() && num_decimals.is_none() {
                Ok::<(), MultiTokenError>(())
            } else {
                Err(MultiTokenError::SftArguments)
            },
    {
        if attributes.is_some() && num_decimals.is_none() {
            Ok(())
        } else {
            Err(MultiTokenError::SftArguments)
        }
    }

    /// A fungible token needs a number of decimals and no attributes.
    fn require_fungible(&self, attributes: &Option<Vec<u8>>, num_decimals: &Option<usize>) -> (r:
        Result<(), MultiTokenError>)
        ensures
            r == if num_decimals.is_none() {
                Err::<(), MultiTokenError>(MultiTokenError::FungibleDecimals)
            } else if attributes.is_some() {
                Err(MultiTokenError::FungibleAttributes)
            } else {
                Ok(())
            },
    {
        if num_decimals.is_none() {
            return Err(MultiTokenError::FungibleDecimals);
        }
        if attributes.is_some() {
            return Err(MultiTokenError::FungibleAttributes);
        }
        Ok(())
    }

    /// A non-fungible token needs attributes, no number of decimals, and an
    /// amount of exactly one.
    fn require_nft(
        &self,
        attributes: &Option<Vec<u8>>,
        num_decimals: Option<usize>,
        token_type: TokenType,
        amount: u128,
    ) -> (r: Result<(), MultiTokenError>)
        ensures
            r == if !(attributes.is_some() && num_decimals.is_none() && token_type
                == TokenType::NonFungible) {
                Err::<(), MultiTokenError>(MultiTokenError::NftArguments)
            } else if amount != 1 {
                Err(MultiTokenError::NftAmount)
            } else {
                Ok(())
            },
    {
        if !(attributes.is_some() && num_decimals.is_none() && token_type == TokenType::NonFungible) {
            return Err(MultiTokenError::NftArguments);
        }
        if amount != 1 {
            return Err(MultiTokenError::NftAmount);
        }
        Ok(())
    }

    /// Always fails: the token type is invalid.
    fn require_invalid(&self) -> (r: Result<(), MultiTokenError>)
        ensures
            r == Err::<(), MultiTokenError>(MultiTokenError::InvalidTokenType),
    {
        Err(MultiTokenError::InvalidTokenType)
    }

    /// The caller cannot make itself its own operator.
    fn require_caller_not_operator(&self, caller: &Vec<u8>, operator: &Vec<u8>) -> (r: Result<
        (),
        MultiTokenError,
    >)
        ensures
            r == if caller@ != operator@ {
                Ok::<(), MultiTokenError>(())
            } else {
                Err(MultiTokenError::CallerIsOperator)
            },
    {
        if caller.key_eq(operator) {
            Err(MultiTokenError::CallerIsOperator)
        } else {
            Ok(())
        }
    }

    /// The contract must be out of maintenance.
    fn require_enabled(&self) -> (r: Result<(), MultiTokenError>)
        ensures
            r == if self@.enabled {
                Ok::<(), MultiTokenError>(())
            } else {
                Err(MultiTokenError::Maintenance)
            },
    {
        if self.enabled {
            Ok(())
        } else {
            Err(MultiTokenError::Maintenance)
        }
    }

    /// The caller must be `user` or an operator that `user` approved.
    fn require_caller_is_approved(&self, caller: &Vec<u8>, user: &Vec<u8>) -> (r: Result<
        (),
        MultiTokenError,
    >)
        ensures
            r == if caller_approved(self@, caller@, user@) {
                Ok::<(), MultiTokenError>(())
            } else {
                Err(MultiTokenError::CallerNotAllowed)
            },
    {
        if caller.key_eq(user) || self.approvals.contains_key(&(user.key_clone(), caller.key_clone())) {
            Ok(())
        } else {
            Err(MultiTokenError::CallerNotAllowed)
        }
    }

    /// The balance must cover the amount.
    fn require_enough_balance(&self, balance: u128, amount: u128) -> (r: Result<(), MultiTokenError>)
        ensures
            r == if balance >= amount {
                Ok::<(), MultiTokenError>(())
            } else {
                Err(MultiTokenError::NotEnoughBalance)
            },
    {
        if balance >= amount {
            Ok(())
        } else {
            Err(MultiTokenError::NotEnoughBalance)
        }
    }
}

} // verus!
