//! Argument and result types of the multi-token contract's endpoints.
use vstd::prelude::*;

verus! {

/// What one token issue costs, in the smallest EGLD unit (0.005 EGLD).
pub const ISSUE_COST: u128 = 5000000000000000;

/// One user's balance of one token at one nonce.
#[derive(Clone, Debug, PartialEq, Eq)]
pub struct Balance {
    pub user: Vec<u8>,
    pub token_id: Vec<u8>,
    pub nonce: u64,
    pub amount: u128,
}

/// A balance query: whose balance, of which token, at which nonce.
#[derive(Clone, Debug, PartialEq, Eq)]
pub struct BalanceNoAmount {
    pub user: Vec<u8>,
    pub token_id: Vec<u8>,
    pub nonce: u64,
}

impl BalanceNoAmount {
    pub fn into_tuple(self) -> (r: (Vec<u8>, Vec<u8>, u64))
        ensures
            r.0 == self.user,
            r.1 == self.token_id,
            r.2 == self.nonce,
    {
        (self.user, self.token_id, self.nonce)
    }
}

/// A token to issue and mint: `token_type` is 0 fungible, 1 non-fungible,
/// 2 semi-fungible, 3 meta; anything else is invalid.
#[derive(Clone, Debug, PartialEq, Eq)]
pub struct Token {
    pub token_display_name: Vec<u8>,
    pub token_ticker: Vec<u8>,
    pub amount: u128,
    pub token_type: u8,
    pub attributes: Option<Vec<u8>>,
    pub num_decimals: Option<usize>,
}

impl Token {
    pub fn into_tuple(self) -> (r: (Vec<u8>, Vec<u8>, u128, u8, Option<Vec<u8>>, Option<usize>))
        ensures
            r.0 == self.token_display_name,
            r.1 == self.token_ticker,
            r.2 == self.amount,
            r.3 == self.token_type,
            r.4 == self.attributes,
            r.5 == self.num_decimals,
    {
        (
            self.token_display_name,
            self.token_ticker,
            self.amount,
            self.token_type,
            self.attributes,
            self.num_decimals,
        )
    }
}

/// A burn request: which token (by ticker and type), at which nonce, how much.
#[derive(Clone, Debug, PartialEq, Eq)]
pub struct BurnToken {
    pub nonce: u64,
    pub token_ticker: Vec<u8>,
    pub amount: u128,
    pub token_type: u8,
}

impl View for BurnToken {
    type V = (u64, Seq<u8>, u128, u8);

    open spec fn view(&self) -> (u64, Seq<u8>, u128, u8) {
        (self.nonce, self.token_ticker@, self.amount, self.token_type)
    }
}

impl BurnToken {
    pub fn into_tuple(self) -> (r: (u64, Vec<u8>, u128, u8))
        ensures
            r.0 == self.nonce,
            r.1 == self.token_ticker,
            r.2 == self.amount,
            r.3 == self.token_type,
    {
        (self.nonce, self.token_ticker, self.amount, self.token_type)
    }
}

/// A token payment: token identifier, nonce, amount.
#[derive(Clone, Debug, PartialEq, Eq)]
pub struct Payment {
    pub token_id: Vec<u8>,
    pub nonce: u64,
    pub amount: u128,
}

impl View for Payment {
    type V = (Seq<u8>, u64, u128);

    open spec fn view(&self) -> (Seq<u8>, u64, u128) {
        (self.token_id@, self.nonce, self.amount)
    }
}

/// The kinds of ESDT token, as the ESDT system contract names them.
#[derive(Clone, Copy, Debug, PartialEq, Eq, Structural)]
pub enum TokenType {
    Fungible,
    NonFungible,
    SemiFungible,
    Meta,
}

/// The roles that the contract asks for on a token it issued.
#[derive(Clone, Copy, Debug, PartialEq, Eq, Structural)]
pub enum LocalRole {
    Mint,
    Burn,
    NftCreate,
    NftAddQuantity,
    NftBurn,
    NftUpdateAttributes,
}

} // verus!
