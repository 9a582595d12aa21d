//! Owner-only switches of the multi-token contract.
use vstd::prelude::*;

use super::{MultiTokenContract, MultiTokenError, MultiTokenModel};
use crate::store::KeyEq;

verus! {

/// Maintenance mode, which only the contract's owner may change.
pub trait AdminModule {
    fn enable_contract(&mut self, caller: &Vec<u8>, owner: &Vec<u8>) -> Result<(), MultiTokenError>;

    fn disable_contract(&mut self, caller: &Vec<u8>, owner: &Vec<u8>) -> Result<(), MultiTokenError>;
}

impl AdminModule for MultiTokenContract {
    /// Ends maintenance; only the owner may call it.
    fn enable_contract(&mut self, caller: &Vec<u8>, owner: &Vec<u8>) -> (r: Result<
        (),
        MultiTokenError,
    >)
        ensures
            caller@ != owner@ ==> r == Err::<(), MultiTokenError>(MultiTokenError::NotOwner)
                && final(self)@ == old(self)@,
            caller@ == owner@ ==> r is Ok && final(self)@ == (MultiTokenModel {
                enabled: true,
                ..old(self)@
            }),
    {
        if !caller.key_eq(owner) {
            return Err(MultiTokenError::NotOwner);
        }
        self.enabled = true;
        Ok(())
    }

    /// Starts maintenance; only the owner may call it.
    fn disable_contract(&mut self, caller: &Vec<u8>, owner: &Vec<u8>) -> (r: Result<
        (),
        MultiTokenError,
    >)
        ensures
            caller@ != owner@ ==> r == Err::<(), MultiTokenError>(MultiTokenError::NotOwner)
                && final(self)@ == old(self)@,
            caller@ == owner@ ==> r is Ok && final(self)@ == (MultiTokenModel {
                enabled: false,
                ..old(self)@
            }),
    {
        if !caller.key_eq(owner) {
            return Err(MultiTokenError::NotOwner);
        }
        self.enabled = false;
        Ok(())
    }
}

} // verus!
