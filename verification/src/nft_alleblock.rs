//! The escrowing auction engine: the base engine extended so that an auction
//! can put a non-fungible token in the engine's custody for its duration; the
//! token goes to the winner on settlement and back to the seller on
//! cancellation.

use vstd::prelude::*;
use crate::fees::{service_fee, settlement_fee};
use crate::host::{AccountId, Balance, CallEnv, Timestamp, Transfer, ValueGateway};
use crate::psp34::{NftGateway, NftMove, TokenId};

verus! {

/// The lifecycle state of one auction: open for bids, or settled in exactly
/// one of the two terminal ways.
#[derive(Clone, Copy, Debug, PartialEq, Eq, Structural)]
pub enum AuctionState {
    InProgress,
    Finished,
    Cancelled,
}

/// Everything an operation of the engine can fail with.
#[derive(Clone, Copy, Debug, PartialEq, Eq, Structural)]
pub enum Error {
    TooLowBidError,
    TooLowFeeError,
    AfterFinishDateError,
    BeforeFinishDateError,
    AuctionNotInProgressError,
    NoSuchAuctionError,
    NotAnOwnerError,
    TransferError,
    NoNftAllowanceError,
    NftTransferError,
}

/// One auction record: created once, mutated in place, never deleted.
#[derive(Debug, PartialEq, Eq)]
#[verifier::ext_equal]
pub struct AuctionInfo {
    /// Equal to the record's position in the store; immutable.
    pub id: u64,
    /// The account that opened the auction; immutable.
    pub owner: AccountId,
    /// Free-form text describing the item or service; immutable.
    pub description: String,
    /// The lowest price at which the item can be sold; immutable.
    pub starting_bid: Balance,
    /// The current winning amount; starts at 0 and only ever grows.
    pub highest_bid: Balance,
    /// The account behind `highest_bid`; the owner while no one has bid.
    pub highest_bidder: AccountId,
    /// When the auction was opened; immutable.
    pub creation_date: Timestamp,
    /// `creation_date + duration`; bids are accepted up to this time, and
    /// settlement in the seller's favour only after it.
    pub finish_date: Timestamp,
    /// Where in its lifecycle the auction stands.
    pub auction_state: AuctionState,
    /// The asset contract of the escrowed token, when one is escrowed.
    pub nft_contract_account: Option<AccountId>,
    /// The escrowed token itself; present exactly when the contract is.
    pub nft_token_id: Option<TokenId>,
}

impl Clone for AuctionInfo {
    fn clone(&self) -> (r: AuctionInfo)
        ensures
            r == *self,
    {
        AuctionInfo {
            id: self.id,
            owner: self.owner,
            description: self.description.clone(),
            starting_bid: self.starting_bid,
            highest_bid: self.highest_bid,
            highest_bidder: self.highest_bidder,
            creation_date: self.creation_date,
            finish_date: self.finish_date,
            auction_state: self.auction_state,
            nft_contract_account: self.nft_contract_account,
            nft_token_id: self.nft_token_id,
        }
    }
}

/// Every record's `id` equals its position in the store.
pub open spec fn ids_match(auctions: Seq<AuctionInfo>) -> bool {
    forall|i: int| 0 <= i < auctions.len() ==> (#[trigger] auctions[i]).id == i
}

/// A record names an escrowed token's contract exactly when it names the
/// token itself.
pub open spec fn escrow_paired(a: AuctionInfo) -> bool {
    a.nft_contract_account is Some <==> a.nft_token_id is Some
}

/// Every record's escrow fields are [`escrow_paired`].
pub open spec fn escrows_paired(auctions: Seq<AuctionInfo>) -> bool {
    forall|i: int| 0 <= i < auctions.len() ==> escrow_paired(#[trigger] auctions[i])
}

/// Whatever an operation did to one already-existing record, its stored bid
/// did not go down.
pub open spec fn bid_not_lowered(pre: AuctionInfo, post: AuctionInfo) -> bool {
    post.highest_bid >= pre.highest_bid
}

/// Over one operation of the engine, no record disappears and no stored bid
/// decreases.
pub open spec fn bids_monotone(pre: Seq<AuctionInfo>, post: Seq<AuctionInfo>) -> bool {
    &&& pre.len() <= post.len()
    &&& forall|i: int| 0 <= i < pre.len() ==> #[trigger] bid_not_lowered(pre[i], post[i])
}

/// A record's state either stayed put, or moved out of `InProgress` into one
/// of the two terminal states.  In particular a terminal state never changes.
pub open spec fn legal_change(pre: AuctionInfo, post: AuctionInfo) -> bool {
    ||| post.auction_state == pre.auction_state
    ||| (pre.auction_state == AuctionState::InProgress && (post.auction_state
        == AuctionState::Finished || post.auction_state == AuctionState::Cancelled))
}

/// Over one operation of the engine, no record disappears and every state
/// change is a [`legal_change`].
pub open spec fn states_legal(pre: Seq<AuctionInfo>, post: Seq<AuctionInfo>) -> bool {
    &&& pre.len() <= post.len()
    &&& forall|i: int| 0 <= i < pre.len() ==> #[trigger] legal_change(pre[i], post[i])
}

/// Whether a creation request escrows a token: it must name both the asset
/// contract and the token; naming only one of the two escrows nothing.
pub open spec fn wants_nft(nft_contract: Option<AccountId>, token_id: Option<TokenId>) -> bool {
    nft_contract is Some && token_id is Some
}

/// The record a successful `create_auction` appends.
pub open spec fn fresh_auction(
    next_id: u64,
    starting_bid: Balance,
    description: String,
    duration: u64,
    nft_contract: Option<AccountId>,
    token_id: Option<TokenId>,
    env: CallEnv,
) -> AuctionInfo {
    AuctionInfo {
        id: next_id,
        owner: env.caller,
        description,
        starting_bid,
        highest_bid: 0,
        highest_bidder: env.caller,
        creation_date: env.block_timestamp,
        finish_date: (env.block_timestamp + duration) as u64,
        auction_state: AuctionState::InProgress,
        nft_contract_account: if wants_nft(nft_contract, token_id) {
            nft_contract
        } else {
            None
        },
        nft_token_id: if wants_nft(nft_contract, token_id) {
            token_id
        } else {
            None
        },
    }
}

/// The token movement a successful escrowing `create_auction` makes: the token
/// goes into the custody of the engine's own account.
pub open spec fn escrow_moves(
    nft_contract: Option<AccountId>,
    token_id: Option<TokenId>,
    env: CallEnv,
) -> Seq<NftMove> {
    if wants_nft(nft_contract, token_id) {
        seq![
            NftMove { to: env.callee, nft_contract: nft_contract.unwrap(), token: token_id.unwrap() },
        ]
    } else {
        Seq::empty()
    }
}

/// The validation outcome of `bid`, decided by the store and the call context
/// alone: the first failing check, or `Ok` when the bid may go ahead.
pub open spec fn bid_precheck(
    auctions: Seq<AuctionInfo>,
    auction_id: u64,
    env: CallEnv,
) -> Result<(), Error> {
    if auction_id >= auctions.len() {
        Err(Error::NoSuchAuctionError)
    } else if auctions[auction_id as int].auction_state != AuctionState::InProgress {
        Err(Error::AuctionNotInProgressError)
    } else if env.block_timestamp > auctions[auction_id as int].finish_date {
        Err(Error::AfterFinishDateError)
    } else if env.transferred_value <= auctions[auction_id as int].highest_bid
        || env.transferred_value < auctions[auction_id as int].starting_bid {
        Err(Error::TooLowBidError)
    } else {
        Ok(())
    }
}

/// The store after a successful `bid`: the record now carries the caller and
/// the attached value; everything else is untouched.
pub open spec fn bid_commit(
    auctions: Seq<AuctionInfo>,
    auction_id: u64,
    env: CallEnv,
) -> Seq<AuctionInfo>
    recommends
        auction_id < auctions.len(),
{
    auctions.update(
        auction_id as int,
        (AuctionInfo {
            highest_bid: env.transferred_value,
            highest_bidder: env.caller,
            ..auctions[auction_id as int]
        }),
    )
}

/// The refund a `bid` owes before it may take over: the previous bidder gets
/// the previous bid back, unless no one had bid yet.
pub open spec fn bid_refund(auctions: Seq<AuctionInfo>, auction_id: u64) -> Seq<Transfer>
    recommends
        auction_id < auctions.len(),
{
    let a = auctions[auction_id as int];
    if a.highest_bid > 0 {
        seq![Transfer { to: a.highest_bidder, amount: a.highest_bid }]
    } else {
        Seq::empty()
    }
}

/// The validation outcome of `finish_auction`.
pub open spec fn finish_precheck(
    auctions: Seq<AuctionInfo>,
    auction_id: u64,
    now: Timestamp,
) -> Result<(), Error> {
    if auction_id >= auctions.len() {
        Err(Error::NoSuchAuctionError)
    } else if auctions[auction_id as int].auction_state != AuctionState::InProgress {
        Err(Error::AuctionNotInProgressError)
    } else if now <= auctions[auction_id as int].finish_date {
        Err(Error::BeforeFinishDateError)
    } else {
        Ok(())
    }
}

/// The validation outcome of `cancel_auction`, fee check included.
pub open spec fn cancel_precheck(
    auctions: Seq<AuctionInfo>,
    auction_id: u64,
    env: CallEnv,
    interest: u32,
) -> Result<(), Error> {
    if auction_id >= auctions.len() {
        Err(Error::NoSuchAuctionError)
    } else if auctions[auction_id as int].auction_state != AuctionState::InProgress {
        Err(Error::AuctionNotInProgressError)
    } else if env.caller != auctions[auction_id as int].owner {
        Err(Error::NotAnOwnerError)
    } else if env.block_timestamp > auctions[auction_id as int].finish_date {
        Err(Error::AfterFinishDateError)
    } else if auctions[auction_id as int].highest_bid > 0 && env.transferred_value < service_fee(
        auctions[auction_id as int].highest_bid,
        interest,
    ) {
        Err(Error::TooLowFeeError)
    } else {
        Ok(())
    }
}

/// The store after a settlement: the record's state is now `state`;
/// everything else is untouched.
pub open spec fn set_state(
    auctions: Seq<AuctionInfo>,
    auction_id: u64,
    state: AuctionState,
) -> Seq<AuctionInfo>
    recommends
        auction_id < auctions.len(),
{
    auctions.update(
        auction_id as int,
        (AuctionInfo { auction_state: state, ..auctions[auction_id as int] }),
    )
}

/// The seller's share paid by a successful `finish_auction`: the winning bid
/// minus the service fee.
pub open spec fn seller_payout(auctions: Seq<AuctionInfo>, auction_id: u64, interest: u32) -> Transfer
    recommends
        auction_id < auctions.len(),
        interest >= 1,
{
    let a = auctions[auction_id as int];
    Transfer {
        to: a.owner,
        amount: (a.highest_bid - service_fee(a.highest_bid, interest)) as Balance,
    }
}

/// The transfers a successful `finish_auction` makes: the seller's share and
/// the service fee, or nothing at all when no one had bid.
pub open spec fn finish_payouts(
    auctions: Seq<AuctionInfo>,
    auction_id: u64,
    interest: u32,
    contract_owner: AccountId,
) -> Seq<Transfer>
    recommends
        auction_id < auctions.len(),
        interest >= 1,
{
    let a = auctions[auction_id as int];
    if a.highest_bid > 0 {
        seq![
            seller_payout(auctions, auction_id, interest),
            Transfer { to: contract_owner, amount: service_fee(a.highest_bid, interest) },
        ]
    } else {
        Seq::empty()
    }
}

/// The transfers a successful `cancel_auction` makes: the full refund of the
/// standing bid if there is one, then the attached fee to the engine's owner.
pub open spec fn cancel_payouts(
    auctions: Seq<AuctionInfo>,
    auction_id: u64,
    env: CallEnv,
    contract_owner: AccountId,
) -> Seq<Transfer>
    recommends
        auction_id < auctions.len(),
{
    bid_refund(auctions, auction_id).push(
        (Transfer { to: contract_owner, amount: env.transferred_value }),
    )
}

/// Whether the record holds an escrowed token.
pub open spec fn has_escrow(a: AuctionInfo) -> bool {
    a.nft_contract_account is Some
}

/// The token movement a successful `finish_auction` makes: the escrowed token
/// goes to the winning bidder.  Nothing moves when nothing was escrowed — nor
/// when no one bid: a zero-bid finish makes no transfers at all, and the token
/// stays in the engine's custody.
pub open spec fn nft_delivery(auctions: Seq<AuctionInfo>, auction_id: u64) -> Seq<NftMove>
    recommends
        auction_id < auctions.len(),
{
    let a = auctions[auction_id as int];
    if a.highest_bid > 0 && a.nft_contract_account is Some {
        seq![
            NftMove {
                to: a.highest_bidder,
                nft_contract: a.nft_contract_account.unwrap(),
                token: a.nft_token_id.unwrap(),
            },
        ]
    } else {
        Seq::empty()
    }
}

/// The token movement a successful `cancel_auction` makes: the escrowed token
/// goes back to the seller, or nothing moves when nothing was escrowed.
pub open spec fn nft_return(auctions: Seq<AuctionInfo>, auction_id: u64) -> Seq<NftMove>
    recommends
        auction_id < auctions.len(),
{
    let a = auctions[auction_id as int];
    if a.nft_contract_account is Some {
        seq![
            NftMove {
                to: a.owner,
                nft_contract: a.nft_contract_account.unwrap(),
                token: a.nft_token_id.unwrap(),
            },
        ]
    } else {
        Seq::empty()
    }
}

/// The escrowing auction engine: the store of all auctions and its fee
/// configuration.
pub struct NftAlleblock {
    /// All the engine's auctions, in creation order; a record's position is
    /// its id.
    pub auctions: Vec<AuctionInfo>,
    /// The flat fee charged to open an auction.
    pub create_auction_fee: Balance,
    /// The settlement fee is the whole fraction `bid / finalize_fee_interest`
    /// of the winning bid; at least 1 by construction.
    pub finalize_fee_interest: u32,
    /// The account that receives every fee the engine gathers.
    pub contract_owner: AccountId,
}

impl NftAlleblock {
    /// The engine's invariant: the fee interest can divide, every record sits
    /// at the position its id names, and escrow fields come in pairs.
    pub open spec fn wf(&self) -> bool {
        &&& self.finalize_fee_interest >= 1
        &&& ids_match(self.auctions@)
        &&& escrows_paired(self.auctions@)
    }

    /// Set up an engine with no auctions and the given fees.  A fee interest
    /// of 0 is normalized to 1, so the settlement fee is always defined.
    pub fn new(
        create_auction_fee: Balance,
        finalize_fee_interest: u32,
        contract_owner: AccountId,
    ) -> (r: NftAlleblock)
        ensures
            r.wf(),
            r.auctions@ == Seq::<AuctionInfo>::empty(),
            r.create_auction_fee == create_auction_fee,
            r.finalize_fee_interest == if finalize_fee_interest == 0 {
                1u32
            } else {
                finalize_fee_interest
            },
            r.contract_owner == contract_owner,
    {
        let interest: u32 = if finalize_fee_interest == 0 {
            1
        } else {
            finalize_fee_interest
        };
        NftAlleblock {
            auctions: Vec::new(),
            create_auction_fee,
            finalize_fee_interest: interest,
            contract_owner,
        }
    }

    /// Open a brand-new auction, optionally escrowing a token.
    ///
    /// The attached value must cover the creation fee and is forwarded to the
    /// engine's owner in full — also any excess above the fee; it is never
    /// refunded.  When both an asset contract and a token are named, the
    /// caller must hold a transfer allowance on the token, and the token is
    /// moved into the engine's own custody before the record is appended.  On
    /// success the new record is `InProgress`, with no bid yet, and its id is
    /// returned.  On any error the store is untouched.
    pub fn create_auction<G: ValueGateway, N: NftGateway>(
        &mut self,
        gateway: &mut G,
        vault: &mut N,
        starting_bid: Balance,
        description: String,
        duration: u64,
        nft_contract: Option<AccountId>,
        token_id: Option<TokenId>,
        env: CallEnv,
    ) -> (r: Result<u64, Error>)
        requires
            old(self).wf(),
            old(self).auctions@.len() < u64::MAX,
            env.block_timestamp + duration <= u64::MAX,
        ensures
            final(self).wf(),
            final(self).create_auction_fee == old(self).create_auction_fee,
            final(self).finalize_fee_interest == old(self).finalize_fee_interest,
            final(self).contract_owner == old(self).contract_owner,
            bids_monotone(old(self).auctions@, final(self).auctions@),
            states_legal(old(self).auctions@, final(self).auctions@),
            r is Err ==> final(self).auctions@ == old(self).auctions@,
            (r == Err::<u64, Error>(Error::TooLowFeeError) <==> old(self).create_auction_fee
                > env.transferred_value),
            r == Err::<u64, Error>(Error::TooLowFeeError) ==> final(gateway).log() == old(gateway).log() && final(vault).moves() == old(vault).moves(),
            r == Err::<u64, Error>(Error::TransferError) ==> final(gateway).log() == old(gateway).log() && final(vault).moves() == old(vault).moves(),
            r == Err::<u64, Error>(Error::NoNftAllowanceError) ==> wants_nft(nft_contract, token_id)
                && final(gateway).log() == old(gateway).log().push(
                (Transfer { to: old(self).contract_owner, amount: env.transferred_value }),
            ) && final(vault).moves() == old(vault).moves(),
            r == Err::<u64, Error>(Error::NftTransferError) ==> wants_nft(nft_contract, token_id)
                && final(gateway).log() == old(gateway).log().push(
                (Transfer { to: old(self).contract_owner, amount: env.transferred_value }),
            ) && final(vault).moves() == old(vault).moves(),
            r is Ok ==> r == Ok::<u64, Error>(old(self).auctions@.len() as u64)
                && final(gateway).log() == old(gateway).log().push(
                (Transfer { to: old(self).contract_owner, amount: env.transferred_value }),
            ) && final(vault).moves() == old(vault).moves() + escrow_moves(
                nft_contract,
                token_id,
                env,
            ) && final(self).auctions@ == old(self).auctions@.push(
                fresh_auction(
                    old(self).auctions@.len() as u64,
                    starting_bid,
                    description,
                    duration,
                    nft_contract,
                    token_id,
                    env,
                ),
            ),
            old(self).create_auction_fee <= env.transferred_value && !wants_nft(
                nft_contract,
                token_id,
            ) ==> (r is Ok || r == Err::<u64, Error>(Error::TransferError)),
            old(self).create_auction_fee <= env.transferred_value && wants_nft(
                nft_contract,
                token_id,
            ) ==> (r is Ok || r == Err::<u64, Error>(Error::TransferError) || r == Err::<
                u64,
                Error,
            >(Error::NoNftAllowanceError) || r == Err::<u64, Error>(Error::NftTransferError)),
    {
        if self.create_auction_fee > env.transferred_value {
            return Err(Error::TooLowFeeError);
        }
        if gateway.transfer(self.contract_owner, env.transferred_value).is_err() {
            return Err(Error::TransferError);
        }
        let mut nft_contract_account: Option<AccountId> = None;
        let mut nft_token_id: Option<TokenId> = None;
        if nft_contract.is_some() && token_id.is_some() {
            let unwrapped_account = nft_contract.unwrap();
            let unwrapped_token = token_id.unwrap();
            if !vault.has_allowance(env.caller, unwrapped_account, unwrapped_token) {
                return Err(Error::NoNftAllowanceError);
            }
            if vault.transfer_token(env.callee, unwrapped_account, unwrapped_token).is_err() {
                return Err(Error::NftTransferError);
            }
            nft_contract_account = Some(unwrapped_account);
            nft_token_id = Some(unwrapped_token);
        }
        let creation_date = env.block_timestamp;
        let finish_date = creation_date + duration;
        let auction_id = self.auctions.len() as u64;
        let fresh = AuctionInfo {
            id: auction_id,
            owner: env.caller,
            description,
            starting_bid,
            highest_bid: 0,
            highest_bidder: env.caller,
            creation_date,
            finish_date,
            auction_state: AuctionState::InProgress,
            nft_contract_account,
            nft_token_id,
        };
        self.auctions.push(fresh);
        proof {
            assert(vault.moves() =~= old(vault).moves() + escrow_moves(
                nft_contract,
                token_id,
                env,
            ));
            assert forall|i: int| 0 <= i < self.auctions@.len() implies (#[trigger] self.auctions@[i]).id == i by {
                if i < old(self).auctions@.len() {
                    assert(self.auctions@[i] == old(self).auctions@[i]);
                }
            }
            assert forall|i: int| 0 <= i < self.auctions@.len() implies escrow_paired(
                #[trigger] self.auctions@[i],
            ) by {
                if i < old(self).auctions@.len() {
                    assert(self.auctions@[i] == old(self).auctions@[i]);
                }
            }
            assert forall|i: int| 0 <= i < old(self).auctions@.len() implies #[trigger]
                bid_not_lowered(old(self).auctions@[i], self.auctions@[i]) by {
                assert(self.auctions@[i] == old(self).auctions@[i]);
            }
            assert forall|i: int| 0 <= i < old(self).auctions@.len() implies #[trigger]
                legal_change(old(self).auctions@[i], self.auctions@[i]) by {
                assert(self.auctions@[i] == old(self).auctions@[i]);
            }
        }
        Ok(auction_id)
    }

    /// Place a bid on the auction `auction_id`.
    ///
    /// The attached value is the bid; it must beat the standing bid strictly
    /// and reach the starting bid.  The previous bidder, if any, is refunded
    /// in full first; if that refund fails the bid is rejected with no change
    /// at all.  On success the record carries the caller and the new amount.
    pub fn bid<G: ValueGateway>(
        &mut self,
        gateway: &mut G,
        auction_id: u64,
        env: CallEnv,
    ) -> (r: Result<(), Error>)
        requires
            old(self).wf(),
        ensures
            final(self).wf(),
            final(self).create_auction_fee == old(self).create_auction_fee,
            final(self).finalize_fee_interest == old(self).finalize_fee_interest,
            final(self).contract_owner == old(self).contract_owner,
            bids_monotone(old(self).auctions@, final(self).auctions@),
            states_legal(old(self).auctions@, final(self).auctions@),
            bid_precheck(old(self).auctions@, auction_id, env) matches Err(e) ==> r == Err::<
                (),
                Error,
            >(e),
            r matches Err(e) ==> e == Error::TransferError || bid_precheck(
                old(self).auctions@,
                auction_id,
                env,
            ) == Err::<(), Error>(e),
            r is Err ==> final(self).auctions@ == old(self).auctions@ && final(gateway).log()
                == old(gateway).log(),
            r is Ok ==> bid_precheck(old(self).auctions@, auction_id, env) is Ok
                && final(self).auctions@ == bid_commit(old(self).auctions@, auction_id, env)
                && final(gateway).log() == old(gateway).log() + bid_refund(
                old(self).auctions@,
                auction_id,
            ) && final(self).auctions@[auction_id as int].highest_bid > old(self).auctions@[
                auction_id as int
            ].highest_bid,
            r == Err::<(), Error>(Error::TransferError) ==> bid_precheck(
                old(self).auctions@,
                auction_id,
                env,
            ) is Ok && old(self).auctions@[auction_id as int].highest_bid > 0,
            bid_precheck(old(self).auctions@, auction_id, env) is Ok && old(self).auctions@[
                auction_id as int
            ].highest_bid == 0 ==> r is Ok,
            bid_precheck(old(self).auctions@, auction_id, env) is Ok ==> (r is Ok || r == Err::<
                (),
                Error,
            >(Error::TransferError)),
    {
        if auction_id >= self.auctions.len() as u64 {
            return Err(Error::NoSuchAuctionError);
        }
        let idx = auction_id as usize;
        let auction = &self.auctions[idx];
        if auction.auction_state != AuctionState::InProgress {
            return Err(Error::AuctionNotInProgressError);
        }
        if env.block_timestamp > auction.finish_date {
            return Err(Error::AfterFinishDateError);
        }
        if env.transferred_value <= auction.highest_bid || env.transferred_value
            < auction.starting_bid {
            return Err(Error::TooLowBidError);
        }
        let prev_bid = auction.highest_bid;
        let prev_bidder = auction.highest_bidder;
        if prev_bid > 0 {
            if gateway.transfer(prev_bidder, prev_bid).is_err() {
                return Err(Error::TransferError);
            }
        }
        self.auctions[idx].highest_bidder = env.caller;
        self.auctions[idx].highest_bid = env.transferred_value;
        proof {
            assert(self.auctions@ =~= bid_commit(old(self).auctions@, auction_id, env));
            assert(gateway.log() =~= old(gateway).log() + bid_refund(
                old(self).auctions@,
                auction_id,
            ));
        }
        Ok(())
    }

    /// Settle the auction `auction_id` in the seller's favour.
    ///
    /// Allowed only after the finish date has passed.  If anyone bid, the
    /// seller is paid the winning bid minus the service fee, the fee goes to
    /// the engine's owner, and an escrowed token goes to the winning bidder.
    /// If any sub-call fails nothing is committed (though already-completed
    /// earlier transfers stand).  On success the record is `Finished`.  When
    /// no one bid, nothing is transferred at all: an escrowed token stays in
    /// the engine's custody.
    pub fn finish_auction<G: ValueGateway, N: NftGateway>(
        &mut self,
        gateway: &mut G,
        vault: &mut N,
        auction_id: u64,
        env: CallEnv,
    ) -> (r: Result<(), Error>)
        requires
            old(self).wf(),
        ensures
            final(self).wf(),
            final(self).create_auction_fee == old(self).create_auction_fee,
            final(self).finalize_fee_interest == old(self).finalize_fee_interest,
            final(self).contract_owner == old(self).contract_owner,
            bids_monotone(old(self).auctions@, final(self).auctions@),
            states_legal(old(self).auctions@, final(self).auctions@),
            finish_precheck(old(self).auctions@, auction_id, env.block_timestamp) matches Err(e)
                ==> r == Err::<(), Error>(e),
            r matches Err(e) ==> e == Error::TransferError || e == Error::NftTransferError
                || finish_precheck(old(self).auctions@, auction_id, env.block_timestamp) == Err::<
                (),
                Error,
            >(e),
            r is Err ==> final(self).auctions@ == old(self).auctions@,
            r is Ok ==> finish_precheck(old(self).auctions@, auction_id, env.block_timestamp)
                is Ok && final(self).auctions@ == set_state(
                old(self).auctions@,
                auction_id,
                AuctionState::Finished,
            ) && final(gateway).log() == old(gateway).log() + finish_payouts(
                old(self).auctions@,
                auction_id,
                old(self).finalize_fee_interest,
                old(self).contract_owner,
            ) && final(vault).moves() == old(vault).moves() + nft_delivery(
                old(self).auctions@,
                auction_id,
            ),
            r == Err::<(), Error>(Error::TransferError) ==> finish_precheck(
                old(self).auctions@,
                auction_id,
                env.block_timestamp,
            ) is Ok && old(self).auctions@[auction_id as int].highest_bid > 0 && (final(gateway).log() == old(gateway).log() || final(gateway).log() == old(gateway).log().push(
                seller_payout(old(self).auctions@, auction_id, old(self).finalize_fee_interest),
            )) && final(vault).moves() == old(vault).moves(),
            r == Err::<(), Error>(Error::NftTransferError) ==> finish_precheck(
                old(self).auctions@,
                auction_id,
                env.block_timestamp,
            ) is Ok && has_escrow(old(self).auctions@[auction_id as int]) && old(self).auctions@[
                auction_id as int
            ].highest_bid > 0 && final(gateway).log()
                == old(gateway).log() + finish_payouts(
                old(self).auctions@,
                auction_id,
                old(self).finalize_fee_interest,
                old(self).contract_owner,
            ) && final(vault).moves() == old(vault).moves(),
            r !is Ok && r != Err::<(), Error>(Error::TransferError) && r != Err::<(), Error>(
                Error::NftTransferError,
            ) ==> final(gateway).log() == old(gateway).log() && final(vault).moves() == old(vault).moves(),
            finish_precheck(old(self).auctions@, auction_id, env.block_timestamp) is Ok && old(self).auctions@[auction_id as int].highest_bid == 0 ==> r is Ok,
            finish_precheck(old(self).auctions@, auction_id, env.block_timestamp) is Ok ==> (r
                is Ok || r == Err::<(), Error>(Error::TransferError) || r == Err::<(), Error>(
                Error::NftTransferError,
            )),
    {
        if auction_id >= self.auctions.len() as u64 {
            return Err(Error::NoSuchAuctionError);
        }
        let idx = auction_id as usize;
        let auction = &self.auctions[idx];
        if auction.auction_state != AuctionState::InProgress {
            return Err(Error::AuctionNotInProgressError);
        }
        if env.block_timestamp <= auction.finish_date {
            return Err(Error::BeforeFinishDateError);
        }
        let bid = auction.highest_bid;
        let owner = auction.owner;
        let bidder = auction.highest_bidder;
        let nft_contract_account = auction.nft_contract_account;
        let nft_token_id = auction.nft_token_id;
        if bid > 0 {
            let fee = settlement_fee(bid, self.finalize_fee_interest);
            if gateway.transfer(owner, bid - fee).is_err() {
                return Err(Error::TransferError);
            }
            if gateway.transfer(self.contract_owner, fee).is_err() {
                return Err(Error::TransferError);
            }
            if nft_contract_account.is_some() {
                if vault.transfer_token(bidder, nft_contract_account.unwrap(), nft_token_id.unwrap()).is_err() {
                    return Err(Error::NftTransferError);
                }
            }
        }
        self.auctions[idx].auction_state = AuctionState::Finished;
        proof {
            assert(self.auctions@ =~= set_state(
                old(self).auctions@,
                auction_id,
                AuctionState::Finished,
            ));
            assert(gateway.log() =~= old(gateway).log() + finish_payouts(
                old(self).auctions@,
                auction_id,
                old(self).finalize_fee_interest,
                old(self).contract_owner,
            ));
            assert(vault.moves() =~= old(vault).moves() + nft_delivery(
                old(self).auctions@,
                auction_id,
            ));
        }
        Ok(())
    }

    /// Cancel the auction `auction_id`.
    ///
    /// Only the auction's owner may cancel, only while the auction is in
    /// progress and the finish date has not passed.  If anyone bid, the caller
    /// must attach at least the service fee that settlement would have taken;
    /// the standing bid is refunded in full.  An escrowed token goes back to
    /// the owner, and the attached value is forwarded to the engine's owner.
    /// If any sub-call fails nothing is committed (though already-completed
    /// earlier transfers stand).  On success the record is `Cancelled`.
    pub fn cancel_auction<G: ValueGateway, N: NftGateway>(
        &mut self,
        gateway: &mut G,
        vault: &mut N,
        auction_id: u64,
        env: CallEnv,
    ) -> (r: Result<(), Error>)
        requires
            old(self).wf(),
        ensures
            final(self).wf(),
            final(self).create_auction_fee == old(self).create_auction_fee,
            final(self).finalize_fee_interest == old(self).finalize_fee_interest,
            final(self).contract_owner == old(self).contract_owner,
            bids_monotone(old(self).auctions@, final(self).auctions@),
            states_legal(old(self).auctions@, final(self).auctions@),
            cancel_precheck(old(self).auctions@, auction_id, env, old(self).finalize_fee_interest)
                matches Err(e) ==> r == Err::<(), Error>(e),
            r matches Err(e) ==> e == Error::TransferError || e == Error::NftTransferError
                || cancel_precheck(
                old(self).auctions@,
                auction_id,
                env,
                old(self).finalize_fee_interest,
            ) == Err::<(), Error>(e),
            r is Err ==> final(self).auctions@ == old(self).auctions@,
            r is Ok ==> cancel_precheck(
                old(self).auctions@,
                auction_id,
                env,
                old(self).finalize_fee_interest,
            ) is Ok && final(self).auctions@ == set_state(
                old(self).auctions@,
                auction_id,
                AuctionState::Cancelled,
            ) && final(gateway).log() == old(gateway).log() + cancel_payouts(
                old(self).auctions@,
                auction_id,
                env,
                old(self).contract_owner,
            ) && final(vault).moves() == old(vault).moves() + nft_return(
                old(self).auctions@,
                auction_id,
            ),
            r == Err::<(), Error>(Error::TransferError) ==> cancel_precheck(
                old(self).auctions@,
                auction_id,
                env,
                old(self).finalize_fee_interest,
            ) is Ok && ((final(gateway).log() == old(gateway).log() && final(vault).moves() == old(vault).moves()) || (final(gateway).log() == old(gateway).log() + bid_refund(
                old(self).auctions@,
                auction_id,
            ) && final(vault).moves() == old(vault).moves() + nft_return(
                old(self).auctions@,
                auction_id,
            ))),
            r == Err::<(), Error>(Error::NftTransferError) ==> cancel_precheck(
                old(self).auctions@,
                auction_id,
                env,
                old(self).finalize_fee_interest,
            ) is Ok && has_escrow(old(self).auctions@[auction_id as int]) && final(gateway).log()
                == old(gateway).log() + bid_refund(old(self).auctions@, auction_id) && final(vault).moves() == old(vault).moves(),
            r !is Ok && r != Err::<(), Error>(Error::TransferError) && r != Err::<(), Error>(
                Error::NftTransferError,
            ) ==> final(gateway).log() == old(gateway).log() && final(vault).moves() == old(vault).moves(),
    {
        if auction_id >= self.auctions.len() as u64 {
            return Err(Error::NoSuchAuctionError);
        }
        let idx = auction_id as usize;
        let auction = &self.auctions[idx];
        if auction.auction_state != AuctionState::InProgress {
            return Err(Error::AuctionNotInProgressError);
        }
        if env.caller != auction.owner {
            return Err(Error::NotAnOwnerError);
        }
        if env.block_timestamp > auction.finish_date {
            return Err(Error::AfterFinishDateError);
        }
        let bid = auction.highest_bid;
        let owner = auction.owner;
        let bidder = auction.highest_bidder;
        let nft_contract_account = auction.nft_contract_account;
        let nft_token_id = auction.nft_token_id;
        if bid > 0 {
            let fee = settlement_fee(bid, self.finalize_fee_interest);
            if env.transferred_value < fee {
                return Err(Error::TooLowFeeError);
            }
            if gateway.transfer(bidder, bid).is_err() {
                return Err(Error::TransferError);
            }
        }
        if nft_contract_account.is_some() {
            if vault.transfer_token(owner, nft_contract_account.unwrap(), nft_token_id.unwrap()).is_err() {
                return Err(Error::NftTransferError);
            }
        }
        if gateway.transfer(self.contract_owner, env.transferred_value).is_err() {
            return Err(Error::TransferError);
        }
        self.auctions[idx].auction_state = AuctionState::Cancelled;
        proof {
            assert(self.auctions@ =~= set_state(
                old(self).auctions@,
                auction_id,
                AuctionState::Cancelled,
            ));
            assert(gateway.log() =~= old(gateway).log() + cancel_payouts(
                old(self).auctions@,
                auction_id,
                env,
                old(self).contract_owner,
            ));
            assert(vault.moves() =~= old(vault).moves() + nft_return(
                old(self).auctions@,
                auction_id,
            ));
        }
        Ok(())
    }

    /// A copy of every auction record, in creation order.
    pub fn get_auctions(&self) -> (r: Vec<AuctionInfo>)
        ensures
            r@ == self.auctions@,
    {
        let mut r: Vec<AuctionInfo> = Vec::new();
        let mut i: usize = 0;
        while i < self.auctions.len()
            invariant
                i <= self.auctions@.len(),
                r@ == self.auctions@.take(i as int),
            decreases self.auctions@.len() - i,
        {
            r.push(self.auctions[i].clone());
            proof {
                assert(r@ =~= self.auctions@.take(i + 1));
            }
            i = i + 1;
        }
        proof {
            assert(r@ =~= self.auctions@);
        }
        r
    }

    /// The flat fee charged to open an auction.
    pub fn get_create_auction_fee(&self) -> (r: Balance)
        ensures
            r == self.create_auction_fee,
    {
        self.create_auction_fee
    }

    /// The divisor of the settlement fee.
    pub fn get_finalize_fee_interest(&self) -> (r: u32)
        ensures
            r == self.finalize_fee_interest,
    {
        self.finalize_fee_interest
    }

    /// The service fee that settling the auction `auction_id` would take right
    /// now.
    pub fn get_finalize_fee_of(&self, auction_id: u64) -> (r: Result<Balance, Error>)
        requires
            self.wf(),
        ensures
            auction_id < self.auctions@.len() ==> r == Ok::<Balance, Error>(
                service_fee(
                    self.auctions@[auction_id as int].highest_bid,
                    self.finalize_fee_interest,
                ),
            ),
            auction_id >= self.auctions@.len() ==> r == Err::<Balance, Error>(
                Error::NoSuchAuctionError,
            ),
    {
        if auction_id >= self.auctions.len() as u64 {
            return Err(Error::NoSuchAuctionError);
        }
        let idx = auction_id as usize;
        Ok(settlement_fee(self.auctions[idx].highest_bid, self.finalize_fee_interest))
    }

    /// The account that receives every fee the engine gathers.
    pub fn get_contract_owner(&self) -> (r: AccountId)
        ensures
            r == self.contract_owner,
    {
        self.contract_owner
    }
}

/// Ids are positions: in a well-formed engine the stored ids are exactly
/// `0, 1, 2, ...` in creation order.
pub proof fn lemma_ids_are_positions(engine: NftAlleblock)
    requires
        engine.wf(),
    ensures
        forall|i: int| 0 <= i < engine.auctions@.len() ==> (#[trigger] engine.auctions@[i]).id
            == i,
{
}

/// Creation keeps ids equal to positions: appending a record whose id is the
/// store's length — exactly what a successful `create_auction` does — keeps
/// every id equal to its position, so across any run the stored ids are
/// `0, 1, 2, ...` in creation order, strictly increasing and never reused.
pub proof fn lemma_creation_extends_positions(auctions: Seq<AuctionInfo>, appended: AuctionInfo)
    requires
        ids_match(auctions),
        appended.id == auctions.len(),
    ensures
        ids_match(auctions.push(appended)),
{
    let post = auctions.push(appended);
    assert forall|i: int| 0 <= i < post.len() implies (#[trigger] post[i]).id == i by {
        if i < auctions.len() {
            assert(post[i] == auctions[i]);
        }
    }
}

/// Settlement happens once: after `finish_auction` commits, the record is
/// terminal, so a second `finish_auction` or any `cancel_auction` or `bid` on
/// the same id can only answer `AuctionNotInProgressError`.
pub proof fn lemma_finish_is_final(
    auctions: Seq<AuctionInfo>,
    auction_id: u64,
    now: Timestamp,
    env2: CallEnv,
    interest: u32,
)
    requires
        finish_precheck(auctions, auction_id, now) is Ok,
    ensures
        finish_precheck(
            set_state(auctions, auction_id, AuctionState::Finished),
            auction_id,
            env2.block_timestamp,
        ) == Err::<(), Error>(Error::AuctionNotInProgressError),
        cancel_precheck(
            set_state(auctions, auction_id, AuctionState::Finished),
            auction_id,
            env2,
            interest,
        ) == Err::<(), Error>(Error::AuctionNotInProgressError),
        bid_precheck(set_state(auctions, auction_id, AuctionState::Finished), auction_id, env2)
            == Err::<(), Error>(Error::AuctionNotInProgressError),
{
}

/// Cancellation happens once: after `cancel_auction` commits, the record is
/// terminal, so a second `cancel_auction` or any `finish_auction` or `bid` on
/// the same id can only answer `AuctionNotInProgressError`.
pub proof fn lemma_cancel_is_final(
    auctions: Seq<AuctionInfo>,
    auction_id: u64,
    env: CallEnv,
    env2: CallEnv,
    interest: u32,
)
    requires
        cancel_precheck(auctions, auction_id, env, interest) is Ok,
    ensures
        cancel_precheck(
            set_state(auctions, auction_id, AuctionState::Cancelled),
            auction_id,
            env2,
            interest,
        ) == Err::<(), Error>(Error::AuctionNotInProgressError),
        finish_precheck(
            set_state(auctions, auction_id, AuctionState::Cancelled),
            auction_id,
            env2.block_timestamp,
        ) == Err::<(), Error>(Error::AuctionNotInProgressError),
        bid_precheck(set_state(auctions, auction_id, AuctionState::Cancelled), auction_id, env2)
            == Err::<(), Error>(Error::AuctionNotInProgressError),
{
}

} // verus!
