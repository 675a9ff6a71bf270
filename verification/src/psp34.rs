//! The asset-custody collaborator, as the engine sees it: a token standard
//! contract that can check transfer allowances and move a token.

use vstd::prelude::*;
use crate::host::AccountId;

verus! {

/// The identity of one token inside an asset contract.
pub type TokenId = u128;

/// The structured errors an asset contract reports on a refused operation.
#[derive(Debug, PartialEq, Eq)]
pub enum NftError {
    Custom(String),
    SelfApprove,
    NotApproved,
    TokenExists,
    TokenNotExists,
    SafeTransferCheckFailed(String),
}

/// One completed token movement: `token` of contract `nft_contract` went to `to`.
#[derive(Clone, Copy, Debug, PartialEq, Eq, Structural)]
pub struct NftMove {
    pub to: AccountId,
    pub nft_contract: AccountId,
    pub token: TokenId,
}

/// The asset contract's two operations, reached by synchronous sub-calls.
///
/// Whether an allowance holds, and whether a movement succeeds, are the asset
/// contract's decisions alone; the contract here only pins down what each
/// outcome did: a successful movement appends exactly one entry to the
/// movement history, a failed one leaves it unchanged.
pub trait NftGateway {
    /// The token movements completed so far, oldest first.
    spec fn moves(&self) -> Seq<NftMove>;

    /// Ask whether `owner` has granted the engine an allowance to move `token`.
    fn has_allowance(&self, owner: AccountId, nft_contract: AccountId, token: TokenId) -> bool;

    /// Move `token` of `nft_contract` to the account `to`.
    fn transfer_token(&mut self, to: AccountId, nft_contract: AccountId, token: TokenId) -> (r:
        Result<(), NftError>)
        ensures
            r is Ok ==> final(self).moves() == old(self).moves().push(
                (NftMove { to, nft_contract, token }),
            ),
            r is Err ==> final(self).moves() == old(self).moves(),
    ;
}

/// An in-memory asset contract: it records every movement it accepts, answers
/// every allowance question with a fixed verdict, and can be switched to
/// refuse movements, so that callers can exercise every outcome.
pub struct RecordingVault {
    /// Every movement accepted so far, oldest first.
    pub completed: Vec<NftMove>,
    /// The verdict given to every allowance question.
    pub allowance: bool,
    /// Whether the next movements are accepted.
    pub accept: bool,
}

impl RecordingVault {
    /// A fresh vault with an empty history that grants allowances and accepts
    /// all movements.
    pub fn new() -> (r: RecordingVault)
        ensures
            r.moves() == Seq::<NftMove>::empty(),
            r.allowance,
            r.accept,
    {
        RecordingVault { completed: Vec::new(), allowance: true, accept: true }
    }
}

impl NftGateway for RecordingVault {
    open spec fn moves(&self) -> Seq<NftMove> {
        self.completed@
    }

    fn has_allowance(&self, owner: AccountId, nft_contract: AccountId, token: TokenId) -> bool {
        self.allowance
    }

    fn transfer_token(&mut self, to: AccountId, nft_contract: AccountId, token: TokenId) -> (r:
        Result<(), NftError>) {
        if self.accept {
            self.completed.push(NftMove { to, nft_contract, token });
            Ok(())
        } else {
            Err(NftError::NotApproved)
        }
    }
}

} // verus!
