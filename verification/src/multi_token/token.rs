//! Issuing, minting and burning tokens through the contract's token mappers.
use vstd::prelude::*;

use super::types::{LocalRole, Payment, TokenType};
use super::{EffectView, MapperState, MapperStateView, MultiTokenContract, MultiTokenEffect,
    MultiTokenError, MultiTokenModel};
use crate::store::{views_of, KeyEq};

verus! {

/// The token that a mapper holds, if its issue completed.
pub open spec fn issued(m: Map<(Seq<u8>, Seq<u8>), MapperStateView>, key: (Seq<u8>, Seq<u8>)) -> Option<
    Seq<u8>,
> {
    if m.contains_key(key) {
        match m[key] {
            MapperStateView::Issued(t) => Some(t),
            MapperStateView::Pending => None,
        }
    } else {
        None
    }
}

/// An issue may start only on a mapper that holds nothing yet.
pub open spec fn issue_check(m: Map<(Seq<u8>, Seq<u8>), MapperStateView>, key: (Seq<u8>, Seq<u8>)) -> Option<
    MultiTokenError,
> {
    if !m.contains_key(key) {
        None
    } else {
        match m[key] {
            MapperStateView::Pending => Some(MultiTokenError::IssueAlreadyCalled),
            MapperStateView::Issued(_) => Some(MultiTokenError::TokenIdAlreadySet),
        }
    }
}

/// Roles may be asked for only once the token is known.
pub open spec fn roles_check(m: Map<(Seq<u8>, Seq<u8>), MapperStateView>, key: (Seq<u8>, Seq<u8>)) -> Result<
    Seq<u8>,
    MultiTokenError,
> {
    if !m.contains_key(key) {
        Err(MultiTokenError::MustIssueFirst)
    } else {
        match m[key] {
            MapperStateView::Pending => Err(MultiTokenError::InvalidTokenId),
            MapperStateView::Issued(t) => Ok(t),
        }
    }
}

pub open spec fn issue_fungible_result(
    m: MultiTokenModel,
    display_name: Seq<u8>,
    ticker: Seq<u8>,
    initial_supply: u128,
    num_decimals: usize,
    issue_cost: u128,
    user: Seq<u8>,
) -> Result<(MultiTokenModel, EffectView), MultiTokenError> {
    match issue_check(m.fungible_tokens, (ticker, user)) {
        Some(e) => Err(e),
        None => Ok(
            (
                MultiTokenModel {
                    fungible_tokens: m.fungible_tokens.insert((ticker, user), MapperStateView::Pending),
                    ..m
                },
                EffectView::IssueFungible {
                    issue_cost,
                    display_name,
                    ticker,
                    initial_supply,
                    num_decimals,
                },
            ),
        ),
    }
}

pub open spec fn issue_non_fungible_result(
    m: MultiTokenModel,
    token_type: TokenType,
    issue_cost: u128,
    display_name: Seq<u8>,
    ticker: Seq<u8>,
    num_decimals: usize,
    user: Seq<u8>,
) -> Result<(MultiTokenModel, EffectView), MultiTokenError> {
    match issue_check(m.non_fungible_tokens, (ticker, user)) {
        Some(e) => Err(e),
        None => if token_type == TokenType::Fungible {
            Err(MultiTokenError::InvalidIssueType)
        } else {
            Ok(
                (
                    MultiTokenModel {
                        non_fungible_tokens: m.non_fungible_tokens.insert(
                            (ticker, user),
                            MapperStateView::Pending,
                        ),
                        ..m
                    },
                    EffectView::IssueNonFungible {
                        token_type,
                        issue_cost,
                        display_name,
                        ticker,
                        num_decimals,
                    },
                ),
            )
        },
    }
}

/// The roles asked for on a fungible token.
pub open spec fn fungible_roles() -> Seq<LocalRole> {
    seq![LocalRole::NftCreate, LocalRole::NftUpdateAttributes, LocalRole::Mint, LocalRole::Burn]
}

/// The roles asked for on a non-fungible, semi-fungible or meta token.
pub open spec fn non_fungible_roles() -> Seq<LocalRole> {
    seq![
        LocalRole::NftCreate,
        LocalRole::NftAddQuantity,
        LocalRole::NftBurn,
        LocalRole::NftUpdateAttributes,
        LocalRole::Mint,
        LocalRole::Burn,
    ]
}

/// The token of a mapper that must be issued already.
fn issued_token(state: Option<&MapperState>) -> (r: Result<Vec<u8>, MultiTokenError>)
    ensures
        match state {
            Some(MapperState::Issued(t)) => r matches Ok(x) && x@ == t@,
            _ => r == Err::<Vec<u8>, MultiTokenError>(MultiTokenError::InvalidTokenId),
        },
{
    match state {
        Some(MapperState::Issued(t)) => Ok(t.key_clone()),
        _ => Err(MultiTokenError::InvalidTokenId),
    }
}

/// Token issue, roles, minting and burning through the token mappers of
/// (ticker, user).
pub trait TokenModule {
    fn issue_fungible_token(
        &mut self,
        token_display_name: Vec<u8>,
        token_ticker: Vec<u8>,
        initial_supply: u128,
        num_decimals: usize,
        issue_cost: u128,
        user: &Vec<u8>,
    ) -> Result<MultiTokenEffect, MultiTokenError>;

    fn set_local_roles_fungible(&self, token_ticker: &Vec<u8>, user: &Vec<u8>) -> Result<
        MultiTokenEffect,
        MultiTokenError,
    >;

    fn mint_token_fungible_and_send(
        &self,
        amount: u128,
        send_to: &Vec<u8>,
        user: &Vec<u8>,
        token_ticker: &Vec<u8>,
    ) -> Result<(Payment, Vec<MultiTokenEffect>), MultiTokenError>;

    fn burn_token_fungible(&self, amount: u128, token_ticker: &Vec<u8>, user: &Vec<u8>) -> Result<
        MultiTokenEffect,
        MultiTokenError,
    >;

    fn issue_non_fungible_token(
        &mut self,
        token_type: TokenType,
        issue_cost: u128,
        token_display_name: Vec<u8>,
        token_ticker: Vec<u8>,
        num_decimals: usize,
        user: &Vec<u8>,
    ) -> Result<MultiTokenEffect, MultiTokenError>;

    fn set_roles_non_fungible(&self, token_ticker: &Vec<u8>, user: &Vec<u8>) -> Result<
        MultiTokenEffect,
        MultiTokenError,
    >;

    fn create_nft_and_send(&self, attributes: &Vec<u8>, token_ticker: &Vec<u8>, user: &Vec<u8>) -> Result<
        MultiTokenEffect,
        MultiTokenError,
    >;

    fn create_sft_and_send(
        &self,
        attributes: &Vec<u8>,
        token_ticker: &Vec<u8>,
        user: &Vec<u8>,
        amount: u128,
    ) -> Result<MultiTokenEffect, MultiTokenError>;

    fn burn_non_fungible(&self, nonce: u64, amount: u128, token_ticker: &Vec<u8>, user: &Vec<u8>) -> Result<
        MultiTokenEffect,
        MultiTokenError,
    >;
}

impl TokenModule for MultiTokenContract {
    /// Starts the issue of a fungible token for the mapper of (ticker, user):
    /// the mapper becomes pending and the issue call ends the transaction.
    fn issue_fungible_token(
        &mut self,
        token_display_name: Vec<u8>,
        token_ticker: Vec<u8>,
        initial_supply: u128,
        num_decimals: usize,
        issue_cost: u128,
        user: &Vec<u8>,
    ) -> (r: Result<MultiTokenEffect, MultiTokenError>)
        ensures
            match issue_fungible_result(
                old(self)@,
                token_display_name@,
                token_ticker@,
                initial_supply,
                num_decimals,
                issue_cost,
                user@,
            ) {
                Ok((m, e)) => r matches Ok(x) && x@ == e && final(self)@ == m,
                Err(e) => r == Err::<MultiTokenEffect, MultiTokenError>(e) && final(self)@ == old(self)@,
            },
    {
        let key = (token_ticker.key_clone(), user.key_clone());
        match self.fungible_tokens.get(&key) {
            Some(MapperState::Pending) => {
                return Err(MultiTokenError::IssueAlreadyCalled);
            },
            Some(MapperState::Issued(_)) => {
                return Err(MultiTokenError::TokenIdAlreadySet);
            },
            None => {},
        }
        self.fungible_tokens.insert(key, MapperState::Pending);
        Ok(
            MultiTokenEffect::IssueFungible {
                issue_cost,
                display_name: token_display_name,
                ticker: token_ticker,
                initial_supply,
                num_decimals,
            },
        )
    }

    /// Asks for the fungible roles on the token of (ticker, user).
    fn set_local_roles_fungible(&self, token_ticker: &Vec<u8>, user: &Vec<u8>) -> (r: Result<
        MultiTokenEffect,
        MultiTokenError,
    >)
        ensures
            match roles_check(self@.fungible_tokens, (token_ticker@, user@)) {
                Ok(t) => r matches Ok(x) && x@ == (EffectView::SetLocalRoles {
                    token_id: t,
                    roles: fungible_roles(),
                }),
                Err(e) => r == Err::<MultiTokenEffect, MultiTokenError>(e),
            },
    {
        let key = (token_ticker.key_clone(), user.key_clone());
        let state = self.fungible_tokens.get(&key);
        if state.is_none() {
            return Err(MultiTokenError::MustIssueFirst);
        }
        let token_id = issued_token(state)?;
        let roles = vec![LocalRole::NftCreate, LocalRole::NftUpdateAttributes, LocalRole::Mint, LocalRole::Burn];
        assert(roles@ =~= fungible_roles());
        Ok(MultiTokenEffect::SetLocalRoles { token_id, roles })
    }

    /// Mints `amount` of the fungible token of (ticker, user) and sends it to
    /// `send_to`; returns the payment sent.
    fn mint_token_fungible_and_send(
        &self,
        amount: u128,
        send_to: &Vec<u8>,
        user: &Vec<u8>,
        token_ticker: &Vec<u8>,
    ) -> (r: Result<(Payment, Vec<MultiTokenEffect>), MultiTokenError>)
        ensures
            match issued(self@.fungible_tokens, (token_ticker@, user@)) {
                Some(t) => r matches Ok((p, es)) && p@ == (t, 0u64, amount) && views_of(es@) == seq![
                    EffectView::LocalMint { token_id: t, nonce: 0, amount },
                    EffectView::Send { to: send_to@, token_id: t, nonce: 0, amount },
                ],
                None => r == Err::<(Payment, Vec<MultiTokenEffect>), MultiTokenError>(
                    MultiTokenError::InvalidTokenId,
                ),
            },
    {
        let token_id = issued_token(self.fungible_tokens.get(&(token_ticker.key_clone(), user.key_clone())))?;
        let mut es: Vec<MultiTokenEffect> = Vec::new();
        es.push(MultiTokenEffect::LocalMint { token_id: token_id.key_clone(), nonce: 0, amount });
        es.push(
            MultiTokenEffect::Send {
                to: send_to.key_clone(),
                token_id: token_id.key_clone(),
                nonce: 0,
                amount,
            },
        );
        assert(views_of(es@) =~= seq![
            EffectView::LocalMint { token_id: token_id@, nonce: 0, amount },
            EffectView::Send { to: send_to@, token_id: token_id@, nonce: 0, amount },
        ]);
        Ok((Payment { token_id, nonce: 0, amount }, es))
    }

    /// Burns `amount` of the contract's own fungible token of (ticker, user).
    fn burn_token_fungible(&self, amount: u128, token_ticker: &Vec<u8>, user: &Vec<u8>) -> (r: Result<
        MultiTokenEffect,
        MultiTokenError,
    >)
        ensures
            match issued(self@.fungible_tokens, (token_ticker@, user@)) {
                Some(t) => r matches Ok(x) && x@ == (EffectView::LocalBurn {
                    token_id: t,
                    nonce: 0,
                    amount,
                }),
                None => r == Err::<MultiTokenEffect, MultiTokenError>(
                    MultiTokenError::InvalidTokenId,
                ),
            },
    {
        let token_id = issued_token(self.fungible_tokens.get(&(token_ticker.key_clone(), user.key_clone())))?;
        Ok(MultiTokenEffect::LocalBurn { token_id, nonce: 0, amount })
    }

    /// Starts the issue of a non-fungible, semi-fungible or meta token for the
    /// mapper of (ticker, user): the mapper becomes pending and the issue call
    /// ends the transaction.
    fn issue_non_fungible_token(
        &mut self,
        token_type: TokenType,
        issue_cost: u128,
        token_display_name: Vec<u8>,
        token_ticker: Vec<u8>,
        num_decimals: usize,
        user: &Vec<u8>,
    ) -> (r: Result<MultiTokenEffect, MultiTokenError>)
        ensures
            match issue_non_fungible_result(
                old(self)@,
                token_type,
                issue_cost,
                token_display_name@,
                token_ticker@,
                num_decimals,
                user@,
            ) {
                Ok((m, e)) => r matches Ok(x) && x@ == e && final(self)@ == m,
                Err(e) => r == Err::<MultiTokenEffect, MultiTokenError>(e) && final(self)@ == old(self)@,
            },
    {
        let key = (token_ticker.key_clone(), user.key_clone());
        match self.non_fungible_tokens.get(&key) {
            Some(MapperState::Pending) => {
                return Err(MultiTokenError::IssueAlreadyCalled);
            },
            Some(MapperState::Issued(_)) => {
                return Err(MultiTokenError::TokenIdAlreadySet);
            },
            None => {},
        }
        if token_type == TokenType::Fungible {
            return Err(MultiTokenError::InvalidIssueType);
        }
        self.non_fungible_tokens.insert(key, MapperState::Pending);
        Ok(
            MultiTokenEffect::IssueNonFungible {
                token_type,
                issue_cost,
                display_name: token_display_name,
                ticker: token_ticker,
                num_decimals,
            },
        )
    }

    /// Asks for the non-fungible roles on the token of (ticker, user).
    fn set_roles_non_fungible(&self, token_ticker: &Vec<u8>, user: &Vec<u8>) -> (r: Result<
        MultiTokenEffect,
        MultiTokenError,
    >)
        ensures
            match roles_check(self@.non_fungible_tokens, (token_ticker@, user@)) {
                Ok(t) => r matches Ok(x) && x@ == (EffectView::SetLocalRoles {
                    token_id: t,
                    roles: non_fungible_roles(),
                }),
                Err(e) => r == Err::<MultiTokenEffect, MultiTokenError>(e),
            },
    {
        let key = (token_ticker.key_clone(), user.key_clone());
        let state = self.non_fungible_tokens.get(&key);
        if state.is_none() {
            return Err(MultiTokenError::MustIssueFirst);
        }
        let token_id = issued_token(state)?;
        let roles = vec![
            LocalRole::NftCreate,
            LocalRole::NftAddQuantity,
            LocalRole::NftBurn,
            LocalRole::NftUpdateAttributes,
            LocalRole::Mint,
            LocalRole::Burn,
        ];
        assert(roles@ =~= non_fungible_roles());
        Ok(MultiTokenEffect::SetLocalRoles { token_id, roles })
    }

    /// Creates one unit of a new nonce of the non-fungible token of (ticker,
    /// user) and sends it to the user.
    fn create_nft_and_send(&self, attributes: &Vec<u8>, token_ticker: &Vec<u8>, user: &Vec<u8>) -> (r:
        Result<MultiTokenEffect, MultiTokenError>)
        ensures
            match issued(self@.non_fungible_tokens, (token_ticker@, user@)) {
                Some(t) => r matches Ok(x) && x@ == (EffectView::NftCreateAndSend {
                    token_id: t,
                    amount: 1,
                    attributes: attributes@,
                    to: user@,
                }),
                None => r == Err::<MultiTokenEffect, MultiTokenError>(
                    MultiTokenError::InvalidTokenId,
                ),
            },
    {
        let token_id = issued_token(self.non_fungible_tokens.get(&(token_ticker.key_clone(), user.key_clone())))?;
        Ok(
            MultiTokenEffect::NftCreateAndSend {
                token_id,
                amount: 1,
                attributes: attributes.key_clone(),
                to: user.key_clone(),
            },
        )
    }

    /// Creates `amount` units of a new nonce of the token of (ticker, user)
    /// and sends them to the user.
    fn create_sft_and_send(
        &self,
        attributes: &Vec<u8>,
        token_ticker: &Vec<u8>,
        user: &Vec<u8>,
        amount: u128,
    ) -> (r: Result<MultiTokenEffect, MultiTokenError>)
        ensures
            match issued(self@.non_fungible_tokens, (token_ticker@, user@)) {
                Some(t) => r matches Ok(x) && x@ == (EffectView::NftCreateAndSend {
                    token_id: t,
                    amount,
                    attributes: attributes@,
                    to: user@,
                }),
                None => r == Err::<MultiTokenEffect, MultiTokenError>(
                    MultiTokenError::InvalidTokenId,
                ),
            },
    {
        let token_id = issued_token(self.non_fungible_tokens.get(&(token_ticker.key_clone(), user.key_clone())))?;
        Ok(
            MultiTokenEffect::NftCreateAndSend {
                token_id,
                amount,
                attributes: attributes.key_clone(),
                to: user.key_clone(),
            },
        )
    }

    /// Burns `amount` of the contract's own units of the token of (ticker,
    /// user) at `nonce`.
    fn burn_non_fungible(&self, nonce: u64, amount: u128, token_ticker: &Vec<u8>, user: &Vec<u8>) -> (r:
        Result<MultiTokenEffect, MultiTokenError>)
        ensures
            match issued(self@.non_fungible_tokens, (token_ticker@, user@)) {
                Some(t) => r matches Ok(x) && x@ == (EffectView::LocalBurn {
                    token_id: t,
                    nonce,
                    amount,
                }),
                None => r == Err::<MultiTokenEffect, MultiTokenError>(
                    MultiTokenError::InvalidTokenId,
                ),
            },
    {
        let token_id = issued_token(self.non_fungible_tokens.get(&(token_ticker.key_clone(), user.key_clone())))?;
        Ok(MultiTokenEffect::LocalBurn { token_id, nonce, amount })
    }
}

} // verus!
