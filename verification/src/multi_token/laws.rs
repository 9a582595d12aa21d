//! What holds of the multi-token contract across its endpoints.
use vstd::prelude::*;

use super::types::ISSUE_COST;
use super::{
    balance_at, batch_finish, batch_step, batch_steps, burn_batch_result, burn_result, caller_approved,
    deposit_result, mint_batch_result, mint_result, safe_batch_transfer_result,
    safe_transfer_result, set_approval_result, withdraw_result, BatchState, EffectView,
    MultiTokenError, MultiTokenModel,
};
use crate::egld_id;
use crate::store::amount_at;

verus! {

/// Withdrawing what was just deposited gives every balance back its value
/// from before the deposit, sends the amount to the depositor, and leaves
/// approvals and token mappers as they were.
pub proof fn law_withdraw_undoes_deposit(
    m: MultiTokenModel,
    caller: Seq<u8>,
    token: Seq<u8>,
    nonce: u64,
    amount: u128,
)
    requires
        deposit_result(m, caller, token, nonce, amount) is Ok,
    ensures
        ({
            let m1 = deposit_result(m, caller, token, nonce, amount)->Ok_0;
            &&& withdraw_result(m1, caller, token, nonce, amount) is Ok
            &&& withdraw_result(m1, caller, token, nonce, amount)->Ok_0.1 == (EffectView::Send {
                to: caller,
                token_id: token,
                nonce,
                amount,
            })
            &&& forall|u: Seq<u8>, t: Seq<u8>, n: u64| #[trigger]
                balance_at(withdraw_result(m1, caller, token, nonce, amount)->Ok_0.0, u, t, n)
                    == balance_at(m, u, t, n)
            &&& withdraw_result(m1, caller, token, nonce, amount)->Ok_0.0.approvals == m.approvals
            &&& withdraw_result(m1, caller, token, nonce, amount)->Ok_0.0.fungible_tokens
                == m.fungible_tokens
            &&& withdraw_result(m1, caller, token, nonce, amount)->Ok_0.0.non_fungible_tokens
                == m.non_fungible_tokens
            &&& withdraw_result(m1, caller, token, nonce, amount)->Ok_0.0.enabled == m.enabled
        }),
{
}

/// While the contract is in maintenance, every endpoint that changes or
/// reads balances refuses with the maintenance error.
pub proof fn law_maintenance_refuses(
    m: MultiTokenModel,
    caller: Seq<u8>,
    user: Seq<u8>,
    to: Seq<u8>,
    token: Seq<u8>,
    nonce: u64,
    amount: u128,
    approved: bool,
    tokens: Seq<(Seq<u8>, u64, u128)>,
    burns: Seq<(u64, Seq<u8>, u128, u8)>,
    token_type: u8,
)
    requires
        !m.enabled,
    ensures
        deposit_result(m, caller, token, nonce, amount) == Err::<MultiTokenModel, MultiTokenError>(
            MultiTokenError::Maintenance,
        ),
        withdraw_result(m, caller, token, nonce, amount) == Err::<
            (MultiTokenModel, EffectView),
            MultiTokenError,
        >(MultiTokenError::Maintenance),
        set_approval_result(m, caller, user, approved) == Err::<
            (MultiTokenModel, EffectView),
            MultiTokenError,
        >(MultiTokenError::Maintenance),
        safe_transfer_result(m, caller, user, to, token, nonce, amount) == Err::<
            (MultiTokenModel, Seq<EffectView>),
            MultiTokenError,
        >(MultiTokenError::Maintenance),
        safe_batch_transfer_result(m, caller, user, to, tokens) == Err::<
            (MultiTokenModel, Seq<EffectView>),
            MultiTokenError,
        >(MultiTokenError::Maintenance),
        burn_result(m, caller, user, nonce, token, amount, token_type) == Err::<
            EffectView,
            MultiTokenError,
        >(MultiTokenError::Maintenance),
        burn_batch_result(m, caller, user, burns) == Err::<Seq<EffectView>, MultiTokenError>(
            MultiTokenError::Maintenance,
        ),
{
}

/// Minting in maintenance is refused, whatever its arguments.
pub proof fn law_maintenance_refuses_mint(
    m: MultiTokenModel,
    caller: Seq<u8>,
    user: Seq<u8>,
    display_name: Seq<u8>,
    ticker: Seq<u8>,
    amount: u128,
    token_type: u8,
    has_attributes: bool,
    num_decimals: Option<usize>,
    payment: u128,
    tokens: Seq<super::types::Token>,
)
    requires
        !m.enabled,
    ensures
        mint_result(
            m,
            caller,
            user,
            display_name,
            ticker,
            amount,
            token_type,
            has_attributes,
            num_decimals,
            payment,
        ) == Err::<(MultiTokenModel, EffectView), MultiTokenError>(MultiTokenError::Maintenance),
        mint_batch_result(m, caller, user, tokens, payment) == Err::<
            (MultiTokenModel, Option<EffectView>),
            MultiTokenError,
        >(MultiTokenError::Maintenance),
{
}

/// Out of maintenance, a caller that is neither the user nor approved by it
/// may not move, mint for or burn the user's tokens.
pub proof fn law_stranger_refused(
    m: MultiTokenModel,
    caller: Seq<u8>,
    user: Seq<u8>,
    to: Seq<u8>,
    token: Seq<u8>,
    nonce: u64,
    amount: u128,
    tokens: Seq<(Seq<u8>, u64, u128)>,
    burns: Seq<(u64, Seq<u8>, u128, u8)>,
    token_type: u8,
    display_name: Seq<u8>,
    has_attributes: bool,
    num_decimals: Option<usize>,
)
    requires
        m.enabled,
        !caller_approved(m, caller, user),
    ensures
        safe_transfer_result(m, caller, user, to, token, nonce, amount) == Err::<
            (MultiTokenModel, Seq<EffectView>),
            MultiTokenError,
        >(MultiTokenError::CallerNotAllowed),
        safe_batch_transfer_result(m, caller, user, to, tokens) == Err::<
            (MultiTokenModel, Seq<EffectView>),
            MultiTokenError,
        >(MultiTokenError::CallerNotAllowed),
        burn_result(m, caller, user, nonce, token, amount, token_type) == Err::<
            EffectView,
            MultiTokenError,
        >(MultiTokenError::CallerNotAllowed),
        burn_batch_result(m, caller, user, burns) == Err::<Seq<EffectView>, MultiTokenError>(
            MultiTokenError::CallerNotAllowed,
        ),
        mint_result(
            m,
            caller,
            user,
            display_name,
            token,
            amount,
            token_type,
            has_attributes,
            num_decimals,
            ISSUE_COST,
        ) == Err::<(MultiTokenModel, EffectView), MultiTokenError>(
            MultiTokenError::CallerNotAllowed,
        ),
{
}

/// Approving an operator lets it act for the user; taking the approval back
/// stops it, unless it is the user itself.
pub proof fn law_approval_grants_and_revokes(
    m: MultiTokenModel,
    user: Seq<u8>,
    operator: Seq<u8>,
    approved: bool,
)
    requires
        set_approval_result(m, user, operator, approved) is Ok,
    ensures
        caller_approved(set_approval_result(m, user, operator, approved)->Ok_0.0, operator, user)
            == approved,
        forall|c: Seq<u8>, u: Seq<u8>|
            (c, u) != (operator, user) ==> #[trigger] caller_approved(
                set_approval_result(m, user, operator, approved)->Ok_0.0,
                c,
                u,
            ) == caller_approved(m, c, u),
{
}

/// A single transfer takes the amount off the sender's balance of that token
/// and nonce, touches no other balance, and sends the amount to `to`.
pub proof fn law_transfer_debits_sender_only(
    m: MultiTokenModel,
    caller: Seq<u8>,
    from: Seq<u8>,
    to: Seq<u8>,
    token: Seq<u8>,
    nonce: u64,
    amount: u128,
)
    requires
        safe_transfer_result(m, caller, from, to, token, nonce, amount) is Ok,
    ensures
        ({
            let (m2, es) = safe_transfer_result(m, caller, from, to, token, nonce, amount)->Ok_0;
            &&& balance_at(m2, from, token, nonce) == balance_at(m, from, token, nonce) - amount
            &&& forall|u: Seq<u8>, t: Seq<u8>, n: u64|
                (u, t, n) != (from, token, nonce) ==> #[trigger] balance_at(m2, u, t, n)
                    == balance_at(m, u, t, n)
            &&& es[0] == (EffectView::Send { to, token_id: token, nonce, amount })
            &&& m2.approvals == m.approvals
            &&& m2.balance_token_ids == m.balance_token_ids
        }),
{
}

/// The entries of a batch never raise a balance, never touch a balance of
/// anyone but the sender, and leave all but the balances alone.
proof fn lemma_batch_steps_debit(
    st: BatchState,
    from: Seq<u8>,
    ps: Seq<(Seq<u8>, u64, u128)>,
)
    requires
        batch_steps(st, from, ps) is Ok,
    ensures
        ({
            let s2 = batch_steps(st, from, ps)->Ok_0;
            &&& forall|k: (Seq<u8>, Seq<u8>, u64)| #[trigger]
                amount_at(s2.model.balances, k) <= amount_at(st.model.balances, k)
            &&& forall|k: (Seq<u8>, Seq<u8>, u64)|
                k.0 != from ==> #[trigger] amount_at(s2.model.balances, k) == amount_at(
                    st.model.balances,
                    k,
                )
            &&& s2.model == (MultiTokenModel { balances: s2.model.balances, ..st.model })
            &&& s2.egld_total >= st.egld_total
        }),
    decreases ps.len(),
{
    if ps.len() > 0 {
        let prev = batch_steps(st, from, ps.drop_last());
        assert(prev is Ok);
        lemma_batch_steps_debit(st, from, ps.drop_last());
        let s1 = prev->Ok_0;
        let s2 = batch_step(s1, from, ps.last())->Ok_0;
        assert forall|k: (Seq<u8>, Seq<u8>, u64)| #[trigger]
            amount_at(s2.model.balances, k) <= amount_at(s1.model.balances, k) by {}
    }
}

/// A batch transfer that succeeds lowers or keeps each of the sender's
/// balances, keeps every balance of everyone else, and leaves approvals,
/// recorded token lists and token mappers as they were.
pub proof fn law_batch_debits_sender_only(
    m: MultiTokenModel,
    caller: Seq<u8>,
    from: Seq<u8>,
    to: Seq<u8>,
    tokens: Seq<(Seq<u8>, u64, u128)>,
)
    requires
        safe_batch_transfer_result(m, caller, from, to, tokens) is Ok,
    ensures
        ({
            let m2 = safe_batch_transfer_result(m, caller, from, to, tokens)->Ok_0.0;
            &&& forall|u: Seq<u8>, t: Seq<u8>, n: u64| #[trigger]
                balance_at(m2, u, t, n) <= balance_at(m, u, t, n)
            &&& forall|u: Seq<u8>, t: Seq<u8>, n: u64|
                u != from ==> #[trigger] balance_at(m2, u, t, n) == balance_at(m, u, t, n)
            &&& m2 == (MultiTokenModel { balances: m2.balances, ..m })
        }),
{
    let init = BatchState { model: m, egld_total: 0, esdt: seq![] };
    lemma_batch_steps_debit(init, from, tokens);
    let st = batch_steps(init, from, tokens)->Ok_0;
    let m2 = safe_batch_transfer_result(m, caller, from, to, tokens)->Ok_0.0;
    assert forall|u: Seq<u8>, t: Seq<u8>, n: u64| #[trigger]
        balance_at(m2, u, t, n) <= balance_at(m, u, t, n) by {
        assert(amount_at(st.model.balances, (u, t, n)) <= amount_at(m.balances, (u, t, n)));
    }
    assert forall|u: Seq<u8>, t: Seq<u8>, n: u64|
        u != from implies #[trigger] balance_at(m2, u, t, n) == balance_at(m, u, t, n) by {
        assert(amount_at(st.model.balances, (u, t, n)) == amount_at(m.balances, (u, t, n)));
    }
}

/// The total of the entries of a batch that name `token` at `nonce`.
pub open spec fn amount_sent(ps: Seq<(Seq<u8>, u64, u128)>, token: Seq<u8>, nonce: u64) -> int
    decreases ps.len(),
{
    if ps.len() == 0 {
        0
    } else {
        amount_sent(ps.drop_last(), token, nonce) + if ps.last().0 == token && ps.last().1
            == nonce {
            ps.last().2 as int
        } else {
            0
        }
    }
}

/// The total of the EGLD entries of a batch, whatever their nonces.
pub open spec fn egld_sent(ps: Seq<(Seq<u8>, u64, u128)>) -> int
    decreases ps.len(),
{
    if ps.len() == 0 {
        0
    } else {
        egld_sent(ps.drop_last()) + if ps.last().0 == egld_id() {
            ps.last().2 as int
        } else {
            0
        }
    }
}

proof fn lemma_batch_steps_totals(st: BatchState, from: Seq<u8>, ps: Seq<(Seq<u8>, u64, u128)>)
    requires
        batch_steps(st, from, ps) is Ok,
    ensures
        ({
            let s2 = batch_steps(st, from, ps)->Ok_0;
            &&& forall|t: Seq<u8>, n: u64|
                t != egld_id() ==> #[trigger] amount_at(s2.model.balances, (from, t, n))
                    == amount_at(st.model.balances, (from, t, n)) - amount_sent(ps, t, n)
            &&& forall|n: u64| #[trigger]
                amount_at(s2.model.balances, (from, egld_id(), n)) == amount_at(
                    st.model.balances,
                    (from, egld_id(), n),
                )
            &&& s2.egld_total == st.egld_total + egld_sent(ps)
        }),
    decreases ps.len(),
{
    if ps.len() > 0 {
        let prev = ps.drop_last();
        let p = ps.last();
        assert(batch_steps(st, from, prev) is Ok);
        lemma_batch_steps_totals(st, from, prev);
        let s1 = batch_steps(st, from, prev)->Ok_0;
        let s2 = batch_steps(st, from, ps)->Ok_0;
        assert(s2 == batch_step(s1, from, p)->Ok_0);
        assert forall|t: Seq<u8>, n: u64| t != egld_id() implies #[trigger] amount_at(
            s2.model.balances,
            (from, t, n),
        ) == amount_at(st.model.balances, (from, t, n)) - amount_sent(ps, t, n) by {
            assert(amount_at(s1.model.balances, (from, t, n)) == amount_at(
                st.model.balances,
                (from, t, n),
            ) - amount_sent(prev, t, n));
            if p.0 == t && p.1 == n {
                assert(amount_sent(ps, t, n) == amount_sent(prev, t, n) + p.2);
            } else {
                assert(amount_sent(ps, t, n) == amount_sent(prev, t, n));
            }
        }
        assert forall|n: u64| #[trigger] amount_at(s2.model.balances, (from, egld_id(), n))
            == amount_at(st.model.balances, (from, egld_id(), n)) by {
            assert(amount_at(s1.model.balances, (from, egld_id(), n)) == amount_at(
                st.model.balances,
                (from, egld_id(), n),
            ));
        }
    }
}

/// A batch transfer that succeeds takes off each of the sender's ESDT
/// balances exactly the total of the entries naming that token and nonce,
/// and off the sender's EGLD balance at nonce 0 the total of all EGLD
/// entries, whatever nonces they name; its other EGLD balances stay.
pub proof fn law_batch_debits_what_it_sends(
    m: MultiTokenModel,
    caller: Seq<u8>,
    from: Seq<u8>,
    to: Seq<u8>,
    tokens: Seq<(Seq<u8>, u64, u128)>,
)
    requires
        safe_batch_transfer_result(m, caller, from, to, tokens) is Ok,
    ensures
        ({
            let m2 = safe_batch_transfer_result(m, caller, from, to, tokens)->Ok_0.0;
            &&& forall|t: Seq<u8>, n: u64|
                t != egld_id() ==> #[trigger] balance_at(m2, from, t, n) == balance_at(
                    m,
                    from,
                    t,
                    n,
                ) - amount_sent(tokens, t, n)
            &&& balance_at(m2, from, egld_id(), 0) == balance_at(m, from, egld_id(), 0)
                - egld_sent(tokens)
            &&& forall|n: u64|
                n != 0 ==> #[trigger] balance_at(m2, from, egld_id(), n) == balance_at(
                    m,
                    from,
                    egld_id(),
                    n,
                )
        }),
{
    let init = BatchState { model: m, egld_total: 0, esdt: seq![] };
    lemma_batch_steps_totals(init, from, tokens);
    lemma_batch_steps_debit(init, from, tokens);
    let st = batch_steps(init, from, tokens)->Ok_0;
    let m2 = safe_batch_transfer_result(m, caller, from, to, tokens)->Ok_0.0;
    assert(batch_finish(st, caller, from, to) is Ok);
    assert(m2 == batch_finish(st, caller, from, to)->Ok_0.0);
    assert(st.egld_total == egld_sent(tokens));
    assert forall|t: Seq<u8>, n: u64| t != egld_id() implies #[trigger] balance_at(m2, from, t, n)
        == balance_at(m, from, t, n) - amount_sent(tokens, t, n) by {
        assert(amount_at(st.model.balances, (from, t, n)) == amount_at(m.balances, (from, t, n))
            - amount_sent(tokens, t, n));
    }
    assert forall|n: u64| n != 0 implies #[trigger] balance_at(m2, from, egld_id(), n)
        == balance_at(m, from, egld_id(), n) by {
        assert(amount_at(st.model.balances, (from, egld_id(), n)) == amount_at(
            m.balances,
            (from, egld_id(), n),
        ));
    }
    assert(amount_at(st.model.balances, (from, egld_id(), 0)) == amount_at(
        m.balances,
        (from, egld_id(), 0),
    ));
}

/// A token is issued once per (ticker, user): the same mint again, while
/// the first issue is pending, is refused because the issue was already
/// called.
pub proof fn law_issue_once(
    m: MultiTokenModel,
    caller: Seq<u8>,
    user: Seq<u8>,
    display_name: Seq<u8>,
    ticker: Seq<u8>,
    amount: u128,
    token_type: u8,
    has_attributes: bool,
    num_decimals: Option<usize>,
    payment: u128,
)
    requires
        mint_result(
            m,
            caller,
            user,
            display_name,
            ticker,
            amount,
            token_type,
            has_attributes,
            num_decimals,
            payment,
        ) is Ok,
    ensures
        mint_result(
            mint_result(
                m,
                caller,
                user,
                display_name,
                ticker,
                amount,
                token_type,
                has_attributes,
                num_decimals,
                payment,
            )->Ok_0.0,
            caller,
            user,
            display_name,
            ticker,
            amount,
            token_type,
            has_attributes,
            num_decimals,
            payment,
        ) == Err::<(MultiTokenModel, EffectView), MultiTokenError>(
            MultiTokenError::IssueAlreadyCalled,
        ),
{
}

} // verus!
