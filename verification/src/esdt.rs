//! ESDT token identifiers: an identifier is a ticker, a dash and six random
//! characters, as in `USDC-c76f1f`.
use vstd::prelude::*;

use multiversx_sc::api::uncallable::UncallableApi;
use multiversx_sc::api::ManagedTypeApiImpl;

verus! {

/// `ManagedTypeApiImpl::get_token_ticker_len` of `multiversx_sc`, the length
/// of the ticker within a token identifier of `token_id_len` bytes. Its source
/// subtracts the six random characters and the dash; shorter inputs underflow,
/// so they are excluded. This uses the trait's provided method, which the API
/// that cannot reach a VM inherits unchanged; it touches no VM state.
#[verifier::external_body]
fn token_ticker_len(token_id_len: usize) -> (n: usize)
    requires
        token_id_len >= 7,
    ensures
        n == token_id_len - 7,
{
    UncallableApi.get_token_ticker_len(token_id_len)
}

/// The ticker of a token identifier, the part before the dash and the six
/// random characters; `None` where the identifier is too short to hold them,
/// where the contract fails with "bad token ticker format".
pub fn token_ticker(token_id: &Vec<u8>) -> (r: Option<Vec<u8>>)
    ensures
        token_id@.len() >= 7 ==> (r matches Some(t) && t@ == token_id@.take(
            token_id@.len() - 7,
        )),
        token_id@.len() < 7 ==> r is None,
{
    if token_id.len() < 7 {
        return None;
    }
    let n = token_ticker_len(token_id.len());
    let mut t: Vec<u8> = Vec::new();
    let mut i: usize = 0;
    while i < n
        invariant
            n == token_id@.len() - 7,
            i <= n,
            t@ == token_id@.take(i as int),
        decreases n - i,
    {
        t.push(token_id[i]);
        assert(t@ =~= token_id@.take(i + 1));
        i += 1;
    }
    Some(t)
}

} // verus!
