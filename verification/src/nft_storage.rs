//! A minimal custody contract: it remembers an owner account and forwards
//! token transfers to the asset contract, but only for its owner.

use vstd::prelude::*;
use vstd::string::StringExecFns;
use crate::host::{AccountId, CallEnv};
use crate::psp34::{NftError, NftGateway, NftMove, TokenId};

verus! {

/// Everything an operation of the custody contract can fail with.
#[derive(Clone, Copy, Debug, PartialEq, Eq, Structural)]
pub enum Error {
    NotAnOwnerError,
}

/// The custody contract's whole state: the one account allowed to move tokens
/// through it.
pub struct NftStorage {
    /// The account whose orders the contract follows.
    pub owner: AccountId,
}

impl NftStorage {
    /// Set up the contract; the creating caller becomes its owner.
    pub fn new(env: CallEnv) -> (r: NftStorage)
        ensures
            r.owner == env.caller,
    {
        NftStorage { owner: env.caller }
    }

    /// Hand the contract to a new owner; only the current owner may.
    pub fn set_owner(&mut self, env: CallEnv, owner: AccountId) -> (r: Result<(), Error>)
        ensures
            env.caller != old(self).owner ==> r == Err::<(), Error>(Error::NotAnOwnerError)
                && final(self).owner == old(self).owner,
            env.caller == old(self).owner ==> r == Ok::<(), Error>(()) && final(self).owner
                == owner,
    {
        if env.caller != self.owner {
            return Err(Error::NotAnOwnerError);
        }
        self.owner = owner;
        Ok(())
    }

    /// The account whose orders the contract follows.
    pub fn get_owner(&self) -> (r: AccountId)
        ensures
            r == self.owner,
    {
        self.owner
    }

    /// Move the token `nft_token` of the asset contract `nft_account` to `to`.
    ///
    /// A caller other than the owner is refused without any sub-call; for the
    /// owner, the asset contract's own verdict is passed through unchanged.
    pub fn transfer<N: NftGateway>(
        &mut self,
        vault: &mut N,
        env: CallEnv,
        to: AccountId,
        nft_account: AccountId,
        nft_token: TokenId,
    ) -> (r: Result<(), NftError>)
        ensures
            final(self).owner == old(self).owner,
            env.caller != old(self).owner ==> (r matches Err(e) && e matches NftError::Custom(s)
                && s@ == "NotAnOwnerError"@) && final(vault).moves() == old(vault).moves(),
            env.caller == old(self).owner && r is Ok ==> final(vault).moves() == old(vault).moves().push((NftMove { to, nft_contract: nft_account, token: nft_token })),
            env.caller == old(self).owner && r is Err ==> final(vault).moves() == old(vault).moves(),
    {
        if env.caller != self.owner {
            return Err(NftError::Custom(String::from_str("NotAnOwnerError")));
        }
        vault.transfer_token(to, nft_account, nft_token)
    }
}

} // verus!
