//! An on-ledger auction settlement engine.
//!
//! Accounts create timed auctions, outbid each other with value-backed bids,
//! and settle each auction by paying the seller (minus a proportional service
//! fee) or by refunding everyone on cancellation.  An optional extension
//! escrows a non-fungible token for the auction's duration and delivers it to
//! the winner.
//!
//! The host ledger is an external collaborator: it supplies the caller's
//! identity, the value attached to a call and the current time, and it moves
//! value between accounts.  Those services enter the engine as plain values
//! ([`host::CallEnv`]) and as gateway traits ([`host::ValueGateway`],
//! [`psp34::NftGateway`]) whose contracts state what each committed side
//! effect did, so every rule of the engine itself is verified.

pub mod alleblock;
pub mod fees;
pub mod host;
pub mod nft_alleblock;
pub mod nft_storage;
pub mod psp34;
