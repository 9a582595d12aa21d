//! Verified models of four MultiversX smart contracts: a lottery, a contract
//! that plays that lottery, a multi-token (ERC-1155 like) vault, and a
//! subscription service. Each contract's storage is held as plain values, and
//! each endpoint is a function from that storage and the call's inputs to the
//! new storage and the effects (transfers, token operations, events) that the
//! blockchain is asked to carry out. Addresses, token identifiers and buffers
//! are byte strings; big unsigned amounts are `u128`.
use vstd::prelude::*;

pub mod break_lottery;
pub mod esdt;
pub mod lottery;
pub mod store;
pub mod subscription;
pub mod multi_token;

verus! {

/// The bytes by which storage and call data name the EGLD token.
pub open spec fn egld_id() -> Seq<u8> {
    seq![69u8, 71u8, 76u8, 68u8]
}

/// The identifier of the EGLD token, `b"EGLD"`.
pub fn egld_token_id() -> (t: Vec<u8>)
    ensures
        t@ == egld_id(),
{
    let t = vec![69u8, 71u8, 76u8, 68u8];
    assert(t@ =~= egld_id());
    t
}

/// Whether a token identifier names EGLD.
pub fn is_egld(token_id: &Vec<u8>) -> (b: bool)
    ensures
        b == (token_id@ == egld_id()),
{
    let e = egld_token_id();
    store::KeyEq::key_eq(token_id, &e)
}

} // verus!
