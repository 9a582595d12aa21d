//! A multi-token vault in the style of ERC-1155: users deposit tokens, query
//! balances, approve operators, transfer singly or in batches, and have the
//! contract issue, mint and burn tokens for them.
use vstd::prelude::*;

use crate::store::{
    amount_at, items_at, seq_set_insert, seq_set_remove, views_of, with_amount, with_items, KeyEq,
    KeyMap, KeySetMap,
};
use crate::{egld_id, egld_token_id, is_egld};

pub mod admin;
pub mod laws;
pub mod events;
pub mod private;
pub mod storage;
pub mod token;
pub mod types;

use self::events::EventsModule;
use self::private::PrivateModule;
use self::types::{Balance, BalanceNoAmount, BurnToken, LocalRole, Payment, Token, TokenType};

verus! {

/// Why an endpoint of the multi-token contract fails; the whole call is then
/// reverted.
#[derive(Clone, Copy, Debug, PartialEq, Eq, Structural)]
pub enum MultiTokenError {
    /// "Endpoint can only be called by owner"
    NotOwner,
    /// "maintenance"
    Maintenance,
    /// "not enough balance"
    NotEnoughBalance,
    /// "caller not allowed"
    CallerNotAllowed,
    /// "caller cannot be operator"
    CallerIsOperator,
    /// "wrong issue cost amount"
    WrongIssueCost,
    /// "cannot use invalid token type"
    InvalidTokenType,
    /// "for nft creation attributes should have value, but num_decimals shouldn't"
    NftArguments,
    /// "you can only create 1 nft"
    NftAmount,
    /// "for fungible token num_decimals hould have value"
    FungibleDecimals,
    /// "for fungible token creation attributes should be none"
    FungibleAttributes,
    /// "for sft creation attributes should have value, but num_decimals shouldn't"
    SftArguments,
    /// "for meta token num_decimals and attributes should have value"
    MetaArguments,
    /// "Issue was already called"
    IssueAlreadyCalled,
    /// "Token ID already set"
    TokenIdAlreadySet,
    /// "Invalid token ID"
    InvalidTokenId,
    /// "Must issue or set token ID first"
    MustIssueFirst,
    /// "Invalid token type for NonFungible issue"
    InvalidIssueType,
    /// "cannot subtract because result would be negative"
    NegativeSubtraction,
    /// A balance would exceed the largest amount a `u128` holds.
    AmountOverflow,
}

/// What a token mapper holds once an issue was asked for: the issue is
/// pending, or the token is known.
#[derive(Clone, Debug, PartialEq, Eq)]
pub enum MapperState {
    Pending,
    Issued(Vec<u8>),
}

/// A token mapper's state by value.
pub enum MapperStateView {
    Pending,
    Issued(Seq<u8>),
}

impl View for MapperState {
    type V = MapperStateView;

    open spec fn view(&self) -> MapperStateView {
        match self {
            MapperState::Pending => MapperStateView::Pending,
            MapperState::Issued(t) => MapperStateView::Issued(t@),
        }
    }
}

impl MapperState {
    /// A copy of the state.
    pub fn copy(&self) -> (c: Self)
        ensures
            c@ == self@,
    {
        match self {
            MapperState::Pending => MapperState::Pending,
            MapperState::Issued(t) => MapperState::Issued(t.key_clone()),
        }
    }
}

/// What the contract asks the blockchain to do, and the events it logs.
#[derive(Clone, Debug, PartialEq, Eq)]
pub enum MultiTokenEffect {
    /// Send `amount` of `token_id` at `nonce` to `to` (EGLD when the token is EGLD).
    Send { to: Vec<u8>, token_id: Vec<u8>, nonce: u64, amount: u128 },
    /// Send several ESDT payments to `to` in one transfer.
    SendMulti { to: Vec<u8>, payments: Vec<Payment> },
    /// Ask the ESDT system contract to issue a fungible token; the call ends
    /// the transaction.
    IssueFungible {
        issue_cost: u128,
        display_name: Vec<u8>,
        ticker: Vec<u8>,
        initial_supply: u128,
        num_decimals: usize,
    },
    /// Ask the ESDT system contract to issue a non-fungible, semi-fungible or
    /// meta token; the call ends the transaction.
    IssueNonFungible {
        token_type: TokenType,
        issue_cost: u128,
        display_name: Vec<u8>,
        ticker: Vec<u8>,
        num_decimals: usize,
    },
    /// Ask for local roles on a token for the contract itself; the call ends
    /// the transaction.
    SetLocalRoles { token_id: Vec<u8>, roles: Vec<LocalRole> },
    /// Mint locally.
    LocalMint { token_id: Vec<u8>, nonce: u64, amount: u128 },
    /// Burn locally from the contract's own balance.
    LocalBurn { token_id: Vec<u8>, nonce: u64, amount: u128 },
    /// Create a new nonce of `token_id` with `amount` and `attributes`, and
    /// send it to `to`.
    NftCreateAndSend { token_id: Vec<u8>, amount: u128, attributes: Vec<u8>, to: Vec<u8> },
    /// Event "issue-transfer-single".
    TransferSingleEvent {
        from: Vec<u8>,
        to: Vec<u8>,
        operator: Vec<u8>,
        token_id: Vec<u8>,
        amount: u128,
    },
    /// Event "issue-transfer-batch".
    TransferBatchEvent {
        from: Vec<u8>,
        to: Vec<u8>,
        operator: Vec<u8>,
        payments: Vec<Payment>,
        egld_amount: u128,
    },
    /// Event "issue-approved-for-all".
    ApprovedForAllEvent { user: Vec<u8>, operator: Vec<u8>, approved: bool },
}

/// An effect by value.
pub enum EffectView {
    Send { to: Seq<u8>, token_id: Seq<u8>, nonce: u64, amount: u128 },
    SendMulti { to: Seq<u8>, payments: Seq<(Seq<u8>, u64, u128)> },
    IssueFungible {
        issue_cost: u128,
        display_name: Seq<u8>,
        ticker: Seq<u8>,
        initial_supply: u128,
        num_decimals: usize,
    },
    IssueNonFungible {
        token_type: TokenType,
        issue_cost: u128,
        display_name: Seq<u8>,
        ticker: Seq<u8>,
        num_decimals: usize,
    },
    SetLocalRoles { token_id: Seq<u8>, roles: Seq<LocalRole> },
    LocalMint { token_id: Seq<u8>, nonce: u64, amount: u128 },
    LocalBurn { token_id: Seq<u8>, nonce: u64, amount: u128 },
    NftCreateAndSend { token_id: Seq<u8>, amount: u128, attributes: Seq<u8>, to: Seq<u8> },
    TransferSingleEvent {
        from: Seq<u8>,
        to: Seq<u8>,
        operator: Seq<u8>,
        token_id: Seq<u8>,
        amount: u128,
    },
    TransferBatchEvent {
        from: Seq<u8>,
        to: Seq<u8>,
        operator: Seq<u8>,
        payments: Seq<(Seq<u8>, u64, u128)>,
        egld_amount: u128,
    },
    ApprovedForAllEvent { user: Seq<u8>, operator: Seq<u8>, approved: bool },
}

impl View for MultiTokenEffect {
    type V = EffectView;

    open spec fn view(&self) -> EffectView {
        match self {
            MultiTokenEffect::Send { to, token_id, nonce, amount } => EffectView::Send {
                to: to@,
                token_id: token_id@,
                nonce: *nonce,
                amount: *amount,
            },
            MultiTokenEffect::SendMulti { to, payments } => EffectView::SendMulti {
                to: to@,
                payments: views_of(payments@),
            },
            MultiTokenEffect::IssueFungible {
                issue_cost,
                display_name,
                ticker,
                initial_supply,
                num_decimals,
            } => EffectView::IssueFungible {
                issue_cost: *issue_cost,
                display_name: display_name@,
                ticker: ticker@,
                initial_supply: *initial_supply,
                num_decimals: *num_decimals,
            },
            MultiTokenEffect::IssueNonFungible {
                token_type,
                issue_cost,
                display_name,
                ticker,
                num_decimals,
            } => EffectView::IssueNonFungible {
                token_type: *token_type,
                issue_cost: *issue_cost,
                display_name: display_name@,
                ticker: ticker@,
                num_decimals: *num_decimals,
            },
            MultiTokenEffect::SetLocalRoles { token_id, roles } => EffectView::SetLocalRoles {
                token_id: token_id@,
                roles: roles@,
            },
            MultiTokenEffect::LocalMint { token_id, nonce, amount } => EffectView::LocalMint {
                token_id: token_id@,
                nonce: *nonce,
                amount: *amount,
            },
            MultiTokenEffect::LocalBurn { token_id, nonce, amount } => EffectView::LocalBurn {
                token_id: token_id@,
                nonce: *nonce,
                amount: *amount,
            },
            MultiTokenEffect::NftCreateAndSend {
                token_id,
                amount,
                attributes,
                to,
            } => EffectView::NftCreateAndSend {
                token_id: token_id@,
                amount: *amount,
                attributes: attributes@,
                to: to@,
            },
            MultiTokenEffect::TransferSingleEvent {
                from,
                to,
                operator,
                token_id,
                amount,
            } => EffectView::TransferSingleEvent {
                from: from@,
                to: to@,
                operator: operator@,
                token_id: token_id@,
                amount: *amount,
            },
            MultiTokenEffect::TransferBatchEvent {
                from,
                to,
                operator,
                payments,
                egld_amount,
            } => EffectView::TransferBatchEvent {
                from: from@,
                to: to@,
                operator: operator@,
                payments: views_of(payments@),
                egld_amount: *egld_amount,
            },
            MultiTokenEffect::ApprovedForAllEvent {
                user,
                operator,
                approved,
            } => EffectView::ApprovedForAllEvent {
                user: user@,
                operator: operator@,
                approved: *approved,
            },
        }
    }
}

/// The contract's storage by value.
pub struct MultiTokenModel {
    /// "enabled": whether the contract is out of maintenance.
    pub enabled: bool,
    /// "approvedForAll": the (user, operator) pairs where the operator may act
    /// for the user.
    pub approvals: Set<(Seq<u8>, Seq<u8>)>,
    /// "balance": (user, token, nonce) to amount; absent means zero.
    pub balances: Map<(Seq<u8>, Seq<u8>, u64), u128>,
    /// "balanceTokenIds": per user, the tokens recorded, in storage order.
    pub balance_token_ids: Map<Seq<u8>, Seq<Seq<u8>>>,
    /// "fungibleToken": (ticker, user) to the token mapper's state; absent means
    /// nothing was issued.
    pub fungible_tokens: Map<(Seq<u8>, Seq<u8>), MapperStateView>,
    /// "nonFungibleToken": as `fungible_tokens`, for the other token types.
    pub non_fungible_tokens: Map<(Seq<u8>, Seq<u8>), MapperStateView>,
}

/// The multi-token contract's storage.
pub struct MultiTokenContract {
    pub enabled: bool,
    pub approvals: KeyMap<(Vec<u8>, Vec<u8>), ()>,
    pub balances: KeyMap<(Vec<u8>, Vec<u8>, u64), u128>,
    pub balance_token_ids: KeySetMap<Vec<u8>, Vec<u8>>,
    pub fungible_tokens: KeyMap<(Vec<u8>, Vec<u8>), MapperState>,
    pub non_fungible_tokens: KeyMap<(Vec<u8>, Vec<u8>), MapperState>,
}

impl View for MultiTokenContract {
    type V = MultiTokenModel;

    open spec fn view(&self) -> MultiTokenModel {
        MultiTokenModel {
            enabled: self.enabled,
            approvals: self.approvals@.dom(),
            balances: self.balances@,
            balance_token_ids: self.balance_token_ids@,
            fungible_tokens: self.fungible_tokens@,
            non_fungible_tokens: self.non_fungible_tokens@,
        }
    }
}

/// Whether `caller` may act for `user`: it is the user, or approved by it.
pub open spec fn caller_approved(m: MultiTokenModel, caller: Seq<u8>, user: Seq<u8>) -> bool {
    caller == user || m.approvals.contains((user, caller))
}

/// The balance of (user, token, nonce).
pub open spec fn balance_at(m: MultiTokenModel, user: Seq<u8>, token: Seq<u8>, nonce: u64) -> u128 {
    amount_at(m.balances, (user, token, nonce))
}

/// The model with the balance of (user, token, nonce) set to `a`.
pub open spec fn set_balance(
    m: MultiTokenModel,
    user: Seq<u8>,
    token: Seq<u8>,
    nonce: u64,
    a: u128,
) -> MultiTokenModel {
    MultiTokenModel { balances: with_amount(m.balances, (user, token, nonce), a), ..m }
}

pub open spec fn deposit_result(
    m: MultiTokenModel,
    caller: Seq<u8>,
    token: Seq<u8>,
    nonce: u64,
    amount: u128,
) -> Result<MultiTokenModel, MultiTokenError> {
    let b = balance_at(m, caller, token, nonce);
    if !m.enabled {
        Err(MultiTokenError::Maintenance)
    } else if b + amount > u128::MAX {
        Err(MultiTokenError::AmountOverflow)
    } else {
        let m1 = set_balance(m, caller, token, nonce, (b + amount) as u128);
        Ok(
            MultiTokenModel {
                balance_token_ids: with_items(
                    m.balance_token_ids,
                    caller,
                    seq_set_insert(items_at(m.balance_token_ids, caller), token),
                ),
                ..m1
            },
        )
    }
}

pub open spec fn withdraw_result(
    m: MultiTokenModel,
    caller: Seq<u8>,
    token: Seq<u8>,
    nonce: u64,
    amount: u128,
) -> Result<(MultiTokenModel, EffectView), MultiTokenError> {
    let b = balance_at(m, caller, token, nonce);
    if !m.enabled {
        Err(MultiTokenError::Maintenance)
    } else if b < amount {
        Err(MultiTokenError::NotEnoughBalance)
    } else {
        let m1 = set_balance(m, caller, token, nonce, (b - amount) as u128);
        let m2 = if b == amount {
            MultiTokenModel {
                balance_token_ids: with_items(
                    m.balance_token_ids,
                    caller,
                    seq_set_remove(items_at(m.balance_token_ids, caller), token),
                ),
                ..m1
            }
        } else {
            m1
        };
        Ok((m2, EffectView::Send { to: caller, token_id: token, nonce, amount }))
    }
}

pub open spec fn set_approval_result(
    m: MultiTokenModel,
    caller: Seq<u8>,
    operator: Seq<u8>,
    approved: bool,
) -> Result<(MultiTokenModel, EffectView), MultiTokenError> {
    if !m.enabled {
        Err(MultiTokenError::Maintenance)
    } else if caller == operator {
        Err(MultiTokenError::CallerIsOperator)
    } else {
        let approvals = if approved {
            m.approvals.insert((caller, operator))
        } else {
            m.approvals.remove((caller, operator))
        };
        Ok(
            (
                MultiTokenModel { approvals, ..m },
                EffectView::ApprovedForAllEvent { user: caller, operator, approved },
            ),
        )
    }
}

pub open spec fn safe_transfer_result(
    m: MultiTokenModel,
    caller: Seq<u8>,
    from: Seq<u8>,
    to: Seq<u8>,
    token: Seq<u8>,
    nonce: u64,
    amount: u128,
) -> Result<(MultiTokenModel, Seq<EffectView>), MultiTokenError> {
    let b = balance_at(m, from, token, nonce);
    if !m.enabled {
        Err(MultiTokenError::Maintenance)
    } else if !caller_approved(m, caller, from) {
        Err(MultiTokenError::CallerNotAllowed)
    } else if b < amount {
        Err(MultiTokenError::NotEnoughBalance)
    } else {
        Ok(
            (
                set_balance(m, from, token, nonce, (b - amount) as u128),
                seq![
                    EffectView::Send { to, token_id: token, nonce, amount },
                    EffectView::TransferSingleEvent {
                        from,
                        to,
                        operator: caller,
                        token_id: token,
                        amount,
                    },
                ],
            ),
        )
    }
}

/// Where a batch transfer stands after some of its entries: balances, the
/// EGLD total to send at the end, and the ESDT payments collected.
pub struct BatchState {
    pub model: MultiTokenModel,
    pub egld_total: int,
    pub esdt: Seq<(Seq<u8>, u64, u128)>,
}

/// One entry of a batch transfer from `from`: its balance must cover it; EGLD
/// is added to the total (the balance stays until the end), an ESDT amount
/// leaves the balance at once.
pub open spec fn batch_step(
    st: BatchState,
    from: Seq<u8>,
    p: (Seq<u8>, u64, u128),
) -> Result<BatchState, MultiTokenError> {
    let b = balance_at(st.model, from, p.0, p.1);
    if b < p.2 {
        Err(MultiTokenError::NotEnoughBalance)
    } else if p.0 == egld_id() {
        Ok(BatchState { egld_total: st.egld_total + p.2, ..st })
    } else {
        Ok(
            BatchState {
                model: set_balance(st.model, from, p.0, p.1, (b - p.2) as u128),
                esdt: st.esdt.push(p),
                ..st
            },
        )
    }
}

/// The batch transfer's entries, taken in order.
pub open spec fn batch_steps(
    st: BatchState,
    from: Seq<u8>,
    ps: Seq<(Seq<u8>, u64, u128)>,
) -> Result<BatchState, MultiTokenError>
    decreases ps.len(),
{
    if ps.len() == 0 {
        Ok(st)
    } else {
        match batch_steps(st, from, ps.drop_last()) {
            Ok(s) => batch_step(s, from, ps.last()),
            Err(e) => Err(e),
        }
    }
}

/// The batch transfer after its entries: the EGLD total leaves the EGLD
/// balance at nonce 0, then the transfers and the event.
pub open spec fn batch_finish(
    st: BatchState,
    caller: Seq<u8>,
    from: Seq<u8>,
    to: Seq<u8>,
) -> Result<(MultiTokenModel, Seq<EffectView>), MultiTokenError> {
    let b = balance_at(st.model, from, egld_id(), 0);
    if st.egld_total > 0 && b < st.egld_total {
        Err(MultiTokenError::NegativeSubtraction)
    } else {
        let m = if st.egld_total > 0 {
            set_balance(st.model, from, egld_id(), 0, (b - st.egld_total) as u128)
        } else {
            st.model
        };
        let e1: Seq<EffectView> = if st.egld_total > 0 {
            seq![
                EffectView::Send {
                    to,
                    token_id: egld_id(),
                    nonce: 0,
                    amount: st.egld_total as u128,
                },
            ]
        } else {
            seq![]
        };
        let e2: Seq<EffectView> = if st.esdt.len() > 0 {
            seq![EffectView::SendMulti { to, payments: st.esdt }]
        } else {
            seq![]
        };
        let ev = EffectView::TransferBatchEvent {
            from,
            to,
            operator: caller,
            payments: st.esdt,
            egld_amount: st.egld_total as u128,
        };
        Ok((m, e1 + e2 + seq![ev]))
    }
}

pub open spec fn safe_batch_transfer_result(
    m: MultiTokenModel,
    caller: Seq<u8>,
    from: Seq<u8>,
    to: Seq<u8>,
    tokens: Seq<(Seq<u8>, u64, u128)>,
) -> Result<(MultiTokenModel, Seq<EffectView>), MultiTokenError> {
    if !m.enabled {
        Err(MultiTokenError::Maintenance)
    } else if !caller_approved(m, caller, from) {
        Err(MultiTokenError::CallerNotAllowed)
    } else {
        match batch_steps(BatchState { model: m, egld_total: 0, esdt: seq![] }, from, tokens) {
            Ok(st) => batch_finish(st, caller, from, to),
            Err(e) => Err(e),
        }
    }
}

/// Whether `cur` holds, for every key, the amount `seen` records for it, or
/// else the amount of `base`.
pub open spec fn overlay_agrees(
    cur: Map<(Seq<u8>, Seq<u8>, u64), u128>,
    base: Map<(Seq<u8>, Seq<u8>, u64), u128>,
    seen: Map<(Seq<u8>, Seq<u8>, u64), u128>,
) -> bool {
    forall|k: (Seq<u8>, Seq<u8>, u64)|
        #[trigger] amount_at(cur, k) == if seen.contains_key(k) {
            seen[k]
        } else {
            amount_at(base, k)
        }
}

/// A failure within the first `i` entries of a batch is the batch's failure;
/// a batch that succeeds succeeds on each of its prefixes.
proof fn lemma_batch_prefix(st: BatchState, from: Seq<u8>, ps: Seq<(Seq<u8>, u64, u128)>, i: int)
    requires
        0 <= i <= ps.len(),
    ensures
        batch_steps(st, from, ps.take(i)) is Err ==> batch_steps(st, from, ps) == batch_steps(
            st,
            from,
            ps.take(i),
        ),
        batch_steps(st, from, ps) is Ok ==> batch_steps(st, from, ps.take(i)) is Ok,
    decreases ps.len(),
{
    if i == ps.len() {
        assert(ps.take(i) =~= ps);
    } else {
        assert(ps.drop_last().take(i) =~= ps.take(i));
        lemma_batch_prefix(st, from, ps.drop_last(), i);
    }
}

/// The entries of a batch after `i` of them were taken.
proof fn lemma_batch_step(st: BatchState, from: Seq<u8>, ps: Seq<(Seq<u8>, u64, u128)>, i: int)
    requires
        0 <= i < ps.len(),
    ensures
        batch_steps(st, from, ps.take(i + 1)) == match batch_steps(st, from, ps.take(i)) {
            Ok(s) => batch_step(s, from, ps[i]),
            Err(e) => Err(e),
        },
{
    assert(ps.take(i + 1).drop_last() =~= ps.take(i));
    assert(ps.take(i + 1).last() == ps[i]);
}

pub open spec fn mint_result(
    m: MultiTokenModel,
    caller: Seq<u8>,
    for_user: Seq<u8>,
    display_name: Seq<u8>,
    ticker: Seq<u8>,
    amount: u128,
    token_type: u8,
    has_attributes: bool,
    num_decimals: Option<usize>,
    payment: u128,
) -> Result<(MultiTokenModel, EffectView), MultiTokenError> {
    if !m.enabled {
        Err(MultiTokenError::Maintenance)
    } else if payment != types::ISSUE_COST {
        Err(MultiTokenError::WrongIssueCost)
    } else if !caller_approved(m, caller, for_user) {
        Err(MultiTokenError::CallerNotAllowed)
    } else {
        private::mint_token_result(
            m,
            display_name,
            ticker,
            amount,
            token_type,
            has_attributes,
            num_decimals,
            for_user,
            payment,
        )
    }
}

/// A batch mint: the payment must be the issue cost times the number of
/// tokens. The first token's issue ends the transaction, so of a non-empty
/// batch only the first token is taken, with the issue cost as its price.
pub open spec fn mint_batch_result(
    m: MultiTokenModel,
    caller: Seq<u8>,
    for_user: Seq<u8>,
    tokens: Seq<Token>,
    payment: u128,
) -> Result<(MultiTokenModel, Option<EffectView>), MultiTokenError> {
    if !m.enabled {
        Err(MultiTokenError::Maintenance)
    } else if payment != tokens.len() * types::ISSUE_COST {
        Err(MultiTokenError::WrongIssueCost)
    } else if !caller_approved(m, caller, for_user) {
        Err(MultiTokenError::CallerNotAllowed)
    } else if tokens.len() == 0 {
        Ok((m, None))
    } else {
        let t = tokens[0];
        match private::mint_token_result(
            m,
            t.token_display_name@,
            t.token_ticker@,
            t.amount,
            t.token_type,
            t.attributes.is_some(),
            t.num_decimals,
            for_user,
            (payment as int / tokens.len() as int) as u128,
        ) {
            Ok((m2, e)) => Ok((m2, Some(e))),
            Err(e) => Err(e),
        }
    }
}

pub open spec fn burn_result(
    m: MultiTokenModel,
    caller: Seq<u8>,
    for_user: Seq<u8>,
    nonce: u64,
    ticker: Seq<u8>,
    amount: u128,
    token_type: u8,
) -> Result<EffectView, MultiTokenError> {
    if !m.enabled {
        Err(MultiTokenError::Maintenance)
    } else if !caller_approved(m, caller, for_user) {
        Err(MultiTokenError::CallerNotAllowed)
    } else {
        private::burn_token_result(m, token_type, ticker, for_user, nonce, amount)
    }
}

/// The burns of a batch in order: their effects, or the first failure.
pub open spec fn burn_all(
    m: MultiTokenModel,
    user: Seq<u8>,
    ts: Seq<(u64, Seq<u8>, u128, u8)>,
) -> Result<Seq<EffectView>, MultiTokenError>
    decreases ts.len(),
{
    if ts.len() == 0 {
        Ok(seq![])
    } else {
        match burn_all(m, user, ts.drop_last()) {
            Ok(es) => match private::burn_token_result(
                m,
                ts.last().3,
                ts.last().1,
                user,
                ts.last().0,
                ts.last().2,
            ) {
                Ok(e) => Ok(es.push(e)),
                Err(x) => Err(x),
            },
            Err(x) => Err(x),
        }
    }
}

pub open spec fn burn_batch_result(
    m: MultiTokenModel,
    caller: Seq<u8>,
    for_user: Seq<u8>,
    ts: Seq<(u64, Seq<u8>, u128, u8)>,
) -> Result<Seq<EffectView>, MultiTokenError> {
    if !m.enabled {
        Err(MultiTokenError::Maintenance)
    } else if !caller_approved(m, caller, for_user) {
        Err(MultiTokenError::CallerNotAllowed)
    } else {
        burn_all(m, for_user, ts)
    }
}

impl MultiTokenContract {
    /// A contract with empty storage, as before its first `init`.
    pub fn new() -> (c: Self)
        ensures
            !c@.enabled,
            c@.approvals == Set::<(Seq<u8>, Seq<u8>)>::empty(),
            c@.balances == Map::<(Seq<u8>, Seq<u8>, u64), u128>::empty(),
            c@.balance_token_ids == Map::<Seq<u8>, Seq<Seq<u8>>>::empty(),
            c@.fungible_tokens == Map::<(Seq<u8>, Seq<u8>), MapperStateView>::empty(),
            c@.non_fungible_tokens == Map::<(Seq<u8>, Seq<u8>), MapperStateView>::empty(),
    {
        let c = MultiTokenContract {
            enabled: false,
            approvals: KeyMap::new(),
            balances: KeyMap::new(),
            balance_token_ids: KeySetMap::new(),
            fungible_tokens: KeyMap::new(),
            non_fungible_tokens: KeyMap::new(),
        };
        assert(c@.approvals =~= Set::<(Seq<u8>, Seq<u8>)>::empty());
        c
    }

    /// Deploy or upgrade: any value given (even `false`) enables the contract.
    pub fn init(&mut self, enabled: Option<bool>)
        ensures
            final(self)@ == (MultiTokenModel {
                enabled: old(self)@.enabled || enabled.is_some(),
                ..old(self)@
            }),
    {
        match enabled {
            Some(_val) => {
                self.enabled = true;
            },
            None => {},
        }
    }

    /// Credits the caller's balance with the payment that came with the call.
    pub fn deposit(&mut self, caller: &Vec<u8>, payment: Payment) -> (r: Result<
        (),
        MultiTokenError,
    >)
        ensures
            match deposit_result(old(self)@, caller@, payment.token_id@, payment.nonce, payment.amount) {
                Ok(m) => r is Ok && final(self)@ == m,
                Err(e) => r == Err::<(), MultiTokenError>(e) && final(self)@ == old(self)@,
            },
    {
        self.require_enabled()?;
        let Payment { token_id, nonce, amount } = payment;
        let key = (caller.key_clone(), token_id.key_clone(), nonce);
        let balance = self.balances.amount(&key);
        if balance > u128::MAX - amount {
            return Err(MultiTokenError::AmountOverflow);
        }
        self.balances.set_amount(key, balance + amount);
        self.balance_token_ids.insert(caller.key_clone(), token_id);
        Ok(())
    }

    /// Sends the caller `amount` of its balance of (token, nonce).
    pub fn withdraw(&mut self, caller: &Vec<u8>, token: Payment) -> (r: Result<
        MultiTokenEffect,
        MultiTokenError,
    >)
        ensures
            match withdraw_result(old(self)@, caller@, token.token_id@, token.nonce, token.amount) {
                Ok((m, e)) => r matches Ok(x) && x@ == e && final(self)@ == m,
                Err(e) => r == Err::<MultiTokenEffect, MultiTokenError>(e) && final(self)@ == old(self)@,
            },
    {
        self.require_enabled()?;
        let Payment { token_id, nonce, amount } = token;
        let key = (caller.key_clone(), token_id.key_clone(), nonce);
        let balance = self.balances.amount(&key);
        self.require_enough_balance(balance, amount)?;
        self.balances.set_amount(key, balance - amount);
        if balance == amount {
            self.balance_token_ids.swap_remove(caller, &token_id);
        }
        Ok(MultiTokenEffect::Send { to: caller.key_clone(), token_id, nonce, amount })
    }

    /// The balance of each queried (user, token, nonce), in query order.
    pub fn balance_of_batch(&self, addresses: Vec<BalanceNoAmount>) -> (r: Result<
        Vec<Balance>,
        MultiTokenError,
    >)
        ensures
            !self@.enabled ==> r == Err::<Vec<Balance>, MultiTokenError>(
                MultiTokenError::Maintenance,
            ),
            self@.enabled ==> (r matches Ok(v) && v@.len() == addresses@.len() && forall|i: int|
                0 <= i < v@.len() ==> {
                    &&& (#[trigger] v@[i]).user@ == addresses@[i].user@
                    &&& v@[i].token_id@ == addresses@[i].token_id@
                    &&& v@[i].nonce == addresses@[i].nonce
                    &&& v@[i].amount == balance_at(
                        self@,
                        addresses@[i].user@,
                        addresses@[i].token_id@,
                        addresses@[i].nonce,
                    )
                }),
    {
        self.require_enabled()?;
        let mut return_vec: Vec<Balance> = Vec::new();
        let n = addresses.len();
        let mut i: usize = 0;
        while i < n
            invariant
                n == addresses@.len(),
                i <= n,
                return_vec@.len() == i,
                forall|j: int|
                    0 <= j < i ==> {
                        &&& (#[trigger] return_vec@[j]).user@ == addresses@[j].user@
                        &&& return_vec@[j].token_id@ == addresses@[j].token_id@
                        &&& return_vec@[j].nonce == addresses@[j].nonce
                        &&& return_vec@[j].amount == balance_at(
                            self@,
                            addresses@[j].user@,
                            addresses@[j].token_id@,
                            addresses@[j].nonce,
                        )
                    },
            decreases n - i,
        {
            let address = BalanceNoAmount {
                user: addresses[i].user.key_clone(),
                token_id: addresses[i].token_id.key_clone(),
                nonce: addresses[i].nonce,
            };
            let (user, token_id, nonce) = address.into_tuple();
            let amount = self.balances.amount(&(user.key_clone(), token_id.key_clone(), nonce));
            return_vec.push(Balance { user, token_id, nonce, amount });
            i += 1;
        }
        Ok(return_vec)
    }

    /// Lets `operator` act for the caller, or takes that away.
    pub fn set_approval_for_all(
        &mut self,
        caller: &Vec<u8>,
        operator: &Vec<u8>,
        approved: bool,
    ) -> (r: Result<MultiTokenEffect, MultiTokenError>)
        ensures
            match set_approval_result(old(self)@, caller@, operator@, approved) {
                Ok((m, e)) => r matches Ok(x) && x@ == e && final(self)@ == m,
                Err(e) => r == Err::<MultiTokenEffect, MultiTokenError>(e) && final(self)@ == old(self)@,
            },
    {
        self.require_enabled()?;
        self.require_caller_not_operator(caller, operator)?;
        let ghost old_approvals = self.approvals@;
        if approved {
            self.approvals.insert((caller.key_clone(), operator.key_clone()), ());
            assert(self.approvals@.dom() =~= old_approvals.dom().insert((caller@, operator@)));
        } else {
            self.approvals.remove(&(caller.key_clone(), operator.key_clone()));
            assert(self.approvals@.dom() =~= old_approvals.dom().remove((caller@, operator@)));
        }
        Ok(self.issue_approved(caller, operator, approved))
    }

    /// Sends `token` from `from`'s balance to `to`, the caller acting for
    /// `from`.
    pub fn safe_transfer_from(
        &mut self,
        caller: &Vec<u8>,
        from: &Vec<u8>,
        to: &Vec<u8>,
        token: Payment,
    ) -> (r: Result<Vec<MultiTokenEffect>, MultiTokenError>)
        ensures
            match safe_transfer_result(
                old(self)@,
                caller@,
                from@,
                to@,
                token.token_id@,
                token.nonce,
                token.amount,
            ) {
                Ok((m, es)) => r matches Ok(x) && views_of(x@) == es && final(self)@ == m,
                Err(e) => r == Err::<Vec<MultiTokenEffect>, MultiTokenError>(e) && final(self)@
                    == old(self)@,
            },
    {
        self.require_enabled()?;
        self.require_caller_is_approved(caller, from)?;
        let Payment { token_id, nonce, amount } = token;
        let key = (from.key_clone(), token_id.key_clone(), nonce);
        let balance = self.balances.amount(&key);
        self.require_enough_balance(balance, amount)?;
        let mut effects: Vec<MultiTokenEffect> = Vec::new();
        effects.push(
            MultiTokenEffect::Send {
                to: to.key_clone(),
                token_id: token_id.key_clone(),
                nonce,
                amount,
            },
        );
        self.balances.set_amount(key, balance - amount);
        effects.push(self.issue_transfer_single(from, to, caller, &token_id, amount));
        assert(views_of(effects@) =~= safe_transfer_result(
            old(self)@,
            caller@,
            from@,
            to@,
            token_id@,
            nonce,
            amount,
        )->Ok_0.1);
        Ok(effects)
    }

    /// Sends several payments from `from`'s balances to `to`, the caller
    /// acting for `from`. Each entry is checked against the balance as it
    /// stands: ESDT entries leave the balance at once, EGLD entries are summed
    /// and leave the EGLD balance at nonce 0 at the end, in one transfer.
    pub fn safe_batch_transfer_from(
        &mut self,
        caller: &Vec<u8>,
        from: &Vec<u8>,
        to: &Vec<u8>,
        tokens: Vec<Payment>,
    ) -> (r: Result<Vec<MultiTokenEffect>, MultiTokenError>)
        ensures
            match safe_batch_transfer_result(old(self)@, caller@, from@, to@, views_of(tokens@)) {
                Ok((m, es)) => r matches Ok(x) && views_of(x@) == es && final(self)@ == m,
                Err(e) => r == Err::<Vec<MultiTokenEffect>, MultiTokenError>(e) && final(self)@
                    == old(self)@,
            },
    {
        self.require_enabled()?;
        self.require_caller_is_approved(caller, from)?;
        let n = tokens.len();
        let ghost ps = views_of(tokens@);
        let ghost init = BatchState { model: self@, egld_total: 0, esdt: seq![] };
        let mut seen: KeyMap<(Vec<u8>, Vec<u8>, u64), u128> = KeyMap::new();
        let mut esdt: Vec<Payment> = Vec::new();
        let mut egld_total: u128 = 0;
        let mut egld_overflow = false;
        let mut i: usize = 0;
        assert(ps.take(0) =~= Seq::<(Seq<u8>, u64, u128)>::empty());
        assert(overlay_agrees(self@.balances, self@.balances, seen@));
        // First pass: check every entry against the balances as they would stand.
        while i < n
            invariant
                n == tokens@.len(),
                i <= n,
                ps == views_of(tokens@),
                self@ == old(self)@,
                self@.enabled,
                caller_approved(self@, caller@, from@),
                init == (BatchState { model: self@, egld_total: 0, esdt: seq![] }),
                batch_steps(init, from@, ps.take(i as int)) is Ok,
                ({
                    let st = batch_steps(init, from@, ps.take(i as int))->Ok_0;
                    &&& overlay_agrees(st.model.balances, self@.balances, seen@)
                    &&& st.esdt == views_of(esdt@)
                    &&& (egld_overflow ==> st.egld_total > u128::MAX)
                    &&& (!egld_overflow ==> st.egld_total == egld_total)
                    &&& st.egld_total >= 0
                    &&& st.model == (MultiTokenModel { balances: st.model.balances, ..self@ })
                }),
                forall|k: (Seq<u8>, Seq<u8>, u64)| #[trigger]
                    seen@.contains_key(k) ==> k.1 != egld_id(),
            decreases n - i,
        {
            proof {
                lemma_batch_step(init, from@, ps, i as int);
            }
            let ghost st = batch_steps(init, from@, ps.take(i as int))->Ok_0;
            let p = &tokens[i];
            assert(ps[i as int] == (p.token_id@, p.nonce, p.amount));
            let key = (from.key_clone(), p.token_id.key_clone(), p.nonce);
            let balance = match seen.get(&key) {
                Some(v) => *v,
                None => self.balances.amount(&key),
            };
            assert(balance == amount_at(st.model.balances, key@));
            if balance < p.amount {
                proof {
                    assert(batch_step(st, from@, ps[i as int]) == Err::<BatchState, MultiTokenError>(
                        MultiTokenError::NotEnoughBalance,
                    ));
                    assert(batch_steps(init, from@, ps.take(i + 1)) is Err);
                    lemma_batch_prefix(init, from@, ps, i + 1);
                }
                return Err(MultiTokenError::NotEnoughBalance);
            }
            if is_egld(&p.token_id) {
                if !egld_overflow {
                    match egld_total.checked_add(p.amount) {
                        Some(t) => {
                            egld_total = t;
                        },
                        None => {
                            egld_overflow = true;
                        },
                    }
                }
            } else {
                seen.insert(key, balance - p.amount);
                esdt.push(Payment { token_id: p.token_id.key_clone(), nonce: p.nonce, amount: p.amount });
                proof {
                    let st2 = batch_steps(init, from@, ps.take(i + 1))->Ok_0;
                    assert(views_of(esdt@) =~= st.esdt.push(ps[i as int]));
                    assert forall|k: (Seq<u8>, Seq<u8>, u64)|
                        #[trigger] amount_at(st2.model.balances, k) == if seen@.contains_key(k) {
                            seen@[k]
                        } else {
                            amount_at(self@.balances, k)
                        } by {
                        if k != key@ {
                            assert(amount_at(st.model.balances, k) == if seen@.contains_key(k) {
                                seen@[k]
                            } else {
                                amount_at(self@.balances, k)
                            });
                        }
                    }
                }
            }
            i += 1;
        }
        assert(ps.take(n as int) =~= ps);
        let ghost st = batch_steps(init, from@, ps)->Ok_0;
        let egld_key = (from.key_clone(), egld_token_id(), 0u64);
        let egld_balance = self.balances.amount(&egld_key);
        assert(!seen@.contains_key(egld_key@));
        assert(egld_balance == amount_at(st.model.balances, egld_key@));
        if egld_overflow || (egld_total > 0 && egld_balance < egld_total) {
            return Err(MultiTokenError::NegativeSubtraction);
        }
        // Second pass: the batch succeeds; take the ESDT amounts off.
        let mut j: usize = 0;
        while j < n
            invariant
                n == tokens@.len(),
                j <= n,
                ps == views_of(tokens@),
                batch_steps(init, from@, ps) is Ok,
                batch_steps(init, from@, ps.take(j as int)) is Ok,
                self@ == batch_steps(init, from@, ps.take(j as int))->Ok_0.model,
            decreases n - j,
        {
            proof {
                lemma_batch_step(init, from@, ps, j as int);
                lemma_batch_prefix(init, from@, ps, j + 1);
            }
            let p = &tokens[j];
            assert(ps[j as int] == (p.token_id@, p.nonce, p.amount));
            if !is_egld(&p.token_id) {
                let key = (from.key_clone(), p.token_id.key_clone(), p.nonce);
                let b = self.balances.amount(&key);
                self.balances.set_amount(key, b - p.amount);
            }
            j += 1;
        }
        assert(self@ == st.model);
        let mut effects: Vec<MultiTokenEffect> = Vec::new();
        if egld_total > 0 {
            effects.push(
                MultiTokenEffect::Send {
                    to: to.key_clone(),
                    token_id: egld_token_id(),
                    nonce: 0,
                    amount: egld_total,
                },
            );
            self.balances.set_amount(egld_key, egld_balance - egld_total);
        }
        if esdt.len() != 0 {
            effects.push(MultiTokenEffect::SendMulti { to: to.key_clone(), payments: events::copy_payments(&esdt) });
        }
        effects.push(self.issue_transfer_batch(from, to, caller, &esdt, egld_total));
        proof {
            let expected = batch_finish(st, caller@, from@, to@)->Ok_0.1;
            assert(views_of(effects@) =~= expected);
        }
        Ok(effects)
    }

    /// Issues a token for `for_user`, the caller acting for it and paying the
    /// issue cost; the issue ends the transaction.
    pub fn mint(
        &mut self,
        caller: &Vec<u8>,
        for_user: &Vec<u8>,
        token_display_name: Vec<u8>,
        token_ticker: Vec<u8>,
        amount: u128,
        token_type: u8,
        attributes: Option<Vec<u8>>,
        num_decimals: Option<usize>,
        payment: u128,
    ) -> (r: Result<MultiTokenEffect, MultiTokenError>)
        ensures
            match mint_result(
                old(self)@,
                caller@,
                for_user@,
                token_display_name@,
                token_ticker@,
                amount,
                token_type,
                attributes.is_some(),
                num_decimals,
                payment,
            ) {
                Ok((m, e)) => r matches Ok(x) && x@ == e && final(self)@ == m,
                Err(e) => r == Err::<MultiTokenEffect, MultiTokenError>(e) && final(self)@ == old(self)@,
            },
    {
        self.require_enabled()?;
        let issue_cost = payment;
        if issue_cost != types::ISSUE_COST {
            return Err(MultiTokenError::WrongIssueCost);
        }
        self.require_caller_is_approved(caller, for_user)?;
        self.check_token_type_and_mint(
            token_display_name,
            token_ticker,
            amount,
            token_type,
            attributes,
            num_decimals,
            for_user,
            issue_cost,
        )
    }

    /// Issues tokens for `for_user`, the caller acting for it and paying the
    /// issue cost once per token; the first issue ends the transaction, so
    /// only the first token is issued.
    pub fn mint_batch(
        &mut self,
        caller: &Vec<u8>,
        for_user: &Vec<u8>,
        tokens: Vec<Token>,
        payment: u128,
    ) -> (r: Result<Option<MultiTokenEffect>, MultiTokenError>)
        ensures
            match mint_batch_result(old(self)@, caller@, for_user@, tokens@, payment) {
                Ok((m, Some(e))) => r matches Ok(Some(x)) && x@ == e && final(self)@ == m,
                Ok((m, None)) => r matches Ok(None) && final(self)@ == m,
                Err(e) => r == Err::<Option<MultiTokenEffect>, MultiTokenError>(e) && final(self)@
                    == old(self)@,
            },
    {
        self.require_enabled()?;
        let total_issue_cost = payment;
        let number_of_tokens = tokens.len();
        assert((number_of_tokens as u128) * types::ISSUE_COST <= u128::MAX) by (nonlinear_arith)
            requires
                number_of_tokens <= usize::MAX,
                usize::MAX <= u64::MAX,
                types::ISSUE_COST == 5000000000000000u128,
        ;
        if total_issue_cost != (number_of_tokens as u128) * types::ISSUE_COST {
            return Err(MultiTokenError::WrongIssueCost);
        }
        self.require_caller_is_approved(caller, for_user)?;
        if number_of_tokens == 0 {
            return Ok(None);
        }
        let mut tokens = tokens;
        let first = tokens.swap_remove(0);
        let (token_display_name, token_ticker, amount, token_type, attributes, num_decimals) =
            first.into_tuple();
        let issue_cost = total_issue_cost / (number_of_tokens as u128);
        let e = self.check_token_type_and_mint(
            token_display_name,
            token_ticker,
            amount,
            token_type,
            attributes,
            num_decimals,
            for_user,
            issue_cost,
        )?;
        Ok(Some(e))
    }

    /// Burns `amount` of the token of (ticker, `for_user`), the caller acting
    /// for the user.
    pub fn burn(
        &self,
        caller: &Vec<u8>,
        for_user: &Vec<u8>,
        nonce: u64,
        token_ticker: &Vec<u8>,
        amount: u128,
        token_type: u8,
    ) -> (r: Result<MultiTokenEffect, MultiTokenError>)
        ensures
            match burn_result(self@, caller@, for_user@, nonce, token_ticker@, amount, token_type) {
                Ok(e) => r matches Ok(x) && x@ == e,
                Err(e) => r == Err::<MultiTokenEffect, MultiTokenError>(e),
            },
    {
        self.require_enabled()?;
        self.require_caller_is_approved(caller, for_user)?;
        self.check_token_type_and_burn(token_type, token_ticker, for_user, nonce, amount)
    }

    /// Burns each of `tokens` in order, the caller acting for `for_user`.
    pub fn burn_batch(&self, caller: &Vec<u8>, for_user: &Vec<u8>, tokens: Vec<BurnToken>) -> (r:
        Result<Vec<MultiTokenEffect>, MultiTokenError>)
        ensures
            match burn_batch_result(self@, caller@, for_user@, views_of(tokens@)) {
                Ok(es) => r matches Ok(x) && views_of(x@) == es,
                Err(e) => r == Err::<Vec<MultiTokenEffect>, MultiTokenError>(e),
            },
    {
        self.require_enabled()?;
        self.require_caller_is_approved(caller, for_user)?;
        let ghost ts = views_of(tokens@);
        let mut effects: Vec<MultiTokenEffect> = Vec::new();
        let n = tokens.len();
        let mut i: usize = 0;
        assert(ts.take(0) =~= Seq::<(u64, Seq<u8>, u128, u8)>::empty());
        assert(views_of(effects@) =~= Seq::<EffectView>::empty());
        while i < n
            invariant
                n == tokens@.len(),
                i <= n,
                ts == views_of(tokens@),
                self@.enabled,
                caller_approved(self@, caller@, for_user@),
                burn_all(self@, for_user@, ts.take(i as int)) == Ok::<Seq<EffectView>, MultiTokenError>(
                    views_of(effects@),
                ),
            decreases n - i,
        {
            let t = &tokens[i];
            assert(ts.take(i + 1).drop_last() =~= ts.take(i as int));
            assert(ts.take(i + 1).last() == (t.nonce, t.token_ticker@, t.amount, t.token_type));
            match self.check_token_type_and_burn(t.token_type, &t.token_ticker, for_user, t.nonce, t.amount) {
                Ok(e) => {
                    effects.push(e);
                    assert(views_of(effects@) =~= burn_all(self@, for_user@, ts.take(i as int))->Ok_0.push(e@));
                },
                Err(e) => {
                    proof {
                        assert(burn_all(self@, for_user@, ts.take(i + 1)) == Err::<
                            Seq<EffectView>,
                            MultiTokenError,
                        >(e));
                        lemma_burn_prefix_err(self@, for_user@, ts, i + 1);
                    }
                    return Err(e);
                },
            }
            i += 1;
        }
        assert(ts.take(n as int) =~= ts);
        Ok(effects)
    }
}

/// A failure among the first `i` burns of a batch is the batch's failure.
proof fn lemma_burn_prefix_err(
    m: MultiTokenModel,
    user: Seq<u8>,
    ts: Seq<(u64, Seq<u8>, u128, u8)>,
    i: int,
)
    requires
        0 <= i <= ts.len(),
        burn_all(m, user, ts.take(i)) is Err,
    ensures
        burn_all(m, user, ts) == burn_all(m, user, ts.take(i)),
    decreases ts.len(),
{
    if i == ts.len() {
        assert(ts.take(i) =~= ts);
    } else {
        assert(ts.drop_last().take(i) =~= ts.take(i));
        lemma_burn_prefix_err(m, user, ts.drop_last(), i);
    }
}

} // verus!
