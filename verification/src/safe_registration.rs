//! The front door for registration: a caller registers itself through the
//! profile contract.

use vstd::prelude::*;
use crate::calls::Call;
use crate::word::{Address, Env};

verus! {

/// The registration front door's storage.
pub struct Test {
    pub content_index: u8,
    pub content_contract: Address,
    pub vote_contract: Address,
    pub communities: Address,
    pub erc20: Address,
    pub this_contract_address: Address,
    pub user_profile_address: Address,
}

impl Test {
    /// All addresses zero, the content index 0.
    pub fn new() -> (r: Self)
        ensures
            r.content_index == 0,
            r.content_contract == Address::spec_zero(),
            r.vote_contract == Address::spec_zero(),
            r.communities == Address::spec_zero(),
            r.erc20 == Address::spec_zero(),
            r.this_contract_address == Address::spec_zero(),
            r.user_profile_address == Address::spec_zero(),
    {
        Test {
            content_index: 0,
            content_contract: Address::zero(),
            vote_contract: Address::zero(),
            communities: Address::zero(),
            erc20: Address::zero(),
            this_contract_address: Address::zero(),
            user_profile_address: Address::zero(),
        }
    }

    pub fn set_profile_address(&mut self, address: Address)
        ensures
            *final(self) == (Test { user_profile_address: address, ..*old(self) }),
    {
        self.user_profile_address = address;
    }

    /// The call that registers the caller with the profile contract.
    pub fn register_user(&self, env: &Env) -> (c: Call)
        ensures
            c == (Call::UsersRegisterUser { users: self.user_profile_address, address: env.sender }),
    {
        Call::UsersRegisterUser { users: self.user_profile_address, address: env.sender }
    }
}

} // verus!
