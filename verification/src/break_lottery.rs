//! A contract that plays another contract's `wrongEndpoint`: it pays one EGLD
//! with all its gas, and fails the whole call unless its EGLD balance did not
//! drop, so only winning plays stand.
use vstd::prelude::*;

use crate::store::KeyEq;

verus! {

/// One EGLD in its smallest unit.
pub const ONE_EGLD: u128 = 1000000000000000000;

/// The name of the endpoint that is played, "wrongEndpoint".
pub open spec fn wrong_endpoint_name() -> Seq<u8> {
    seq![119u8, 114u8, 111u8, 110u8, 103u8, 69u8, 110u8, 100u8, 112u8, 111u8, 105u8, 110u8, 116u8]
}

/// Why an endpoint of the contract fails; the whole call is then reverted.
#[derive(Clone, Copy, Debug, PartialEq, Eq, Structural)]
pub enum BreakLotteryError {
    /// "Endpoint can only be called by owner"
    NotOwner,
    /// "sc address is empty"
    ScAddressEmpty,
    /// "storage decode error": no target address is stored.
    StorageDecode,
    /// "not winner"
    NotWinner,
}

/// A synchronous call of endpoint `endpoint` at `to`, paying `egld_value`,
/// with all the gas that is left.
#[derive(Clone, Debug, PartialEq, Eq)]
pub struct ContractCall {
    pub to: Vec<u8>,
    pub endpoint: Vec<u8>,
    pub egld_value: u128,
}

/// The contract being played, at `address`, as the player calls it.
pub struct CalleeContract {
    pub address: Vec<u8>,
}

impl CalleeContract {
    /// A call of `wrongEndpoint` paying `egld_value`.
    pub fn wrong_endpoint(&self, egld_value: u128) -> (c: ContractCall)
        ensures
            c.to@ == self.address@,
            c.endpoint@ == wrong_endpoint_name(),
            c.egld_value == egld_value,
    {
        let endpoint = vec![119u8, 114u8, 111u8, 110u8, 103u8, 69u8, 110u8, 100u8, 112u8, 111u8, 105u8, 110u8, 116u8];
        assert(endpoint@ =~= wrong_endpoint_name());
        ContractCall { to: self.address.key_clone(), endpoint, egld_value }
    }
}

/// The player's storage: "scAddress", the contract it plays.
pub struct BreakLottery {
    pub sc_address: Option<Vec<u8>>,
}

pub open spec fn stored_address(c: BreakLottery) -> Option<Seq<u8>> {
    match c.sc_address {
        Some(a) => Some(a@),
        None => None,
    }
}

impl BreakLottery {
    /// A contract with empty storage, as before its first `init`.
    pub fn new() -> (c: Self)
        ensures
            stored_address(c) is None,
    {
        BreakLottery { sc_address: None }
    }

    /// Deploy or upgrade: stores the address given; without one, an address
    /// must be stored already.
    pub fn init(&mut self, sc_address: Option<Vec<u8>>) -> (r: Result<(), BreakLotteryError>)
        ensures
            match sc_address {
                Some(a) => r is Ok && stored_address(*final(self)) == Some(a@),
                None => if stored_address(*old(self)) is None {
                    r == Err::<(), BreakLotteryError>(BreakLotteryError::ScAddressEmpty)
                        && stored_address(*final(self)) == stored_address(*old(self))
                } else {
                    r is Ok && stored_address(*final(self)) == stored_address(*old(self))
                },
            },
    {
        match sc_address {
            Some(val) => {
                self.sc_address = Some(val);
                Ok(())
            },
            None => {
                if self.sc_address.is_none() {
                    return Err(BreakLotteryError::ScAddressEmpty);
                }
                Ok(())
            },
        }
    }

    /// The owner plays: the call of `wrongEndpoint` at the stored address,
    /// paying one EGLD. Its outcome is judged by `check_call_sc`.
    pub fn call_sc(&self, caller: &Vec<u8>, owner: &Vec<u8>) -> (r: Result<
        ContractCall,
        BreakLotteryError,
    >)
        ensures
            caller@ != owner@ ==> r == Err::<ContractCall, BreakLotteryError>(
                BreakLotteryError::NotOwner,
            ),
            caller@ == owner@ && stored_address(*self) is None ==> r == Err::<
                ContractCall,
                BreakLotteryError,
            >(BreakLotteryError::StorageDecode),
            caller@ == owner@ && stored_address(*self) is Some ==> (r matches Ok(c) && c.to@
                == stored_address(*self)->Some_0 && c.endpoint@ == wrong_endpoint_name()
                && c.egld_value == ONE_EGLD),
    {
        if !caller.key_eq(owner) {
            return Err(BreakLotteryError::NotOwner);
        }
        let contract_address = match &self.sc_address {
            Some(a) => a.key_clone(),
            None => {
                return Err(BreakLotteryError::StorageDecode);
            },
        };
        let proxy = CalleeContract { address: contract_address };
        Ok(proxy.wrong_endpoint(ONE_EGLD))
    }

    /// After the call: the play stands only if the EGLD balance did not drop.
    pub fn check_call_sc(&self, balance_before: u128, balance_after: u128) -> (r: Result<
        (),
        BreakLotteryError,
    >)
        ensures
            r == if balance_after < balance_before {
                Err::<(), BreakLotteryError>(BreakLotteryError::NotWinner)
            } else {
                Ok(())
            },
    {
        if balance_after < balance_before {
            return Err(BreakLotteryError::NotWinner);
        }
        Ok(())
    }
}

} // verus!
