use alleblock::host::{CallEnv, RecordingLedger, Transfer};
use alleblock::nft_alleblock::{AuctionInfo, AuctionState, Error, NftAlleblock};
use alleblock::psp34::{NftMove, RecordingVault};

const OWNER: u32 = 9;
const CONTRACT: u32 = 7;
const BOB: u32 = 2;
const EVE: u32 = 3;
const CHARLIE: u32 = 4;
const NFT_CONTRACT: u32 = 5;
const TOKEN: u128 = 42;

fn env(caller: u32, value: u128, now: u64) -> CallEnv {
    CallEnv { caller, callee: CONTRACT, transferred_value: value, block_timestamp: now }
}

#[test]
fn nft_creation_test() {
    let contract = NftAlleblock::new(1, 2, OWNER);
    assert_eq!(contract.get_create_auction_fee(), 1);
    assert_eq!(contract.get_finalize_fee_interest(), 2);
    assert_eq!(contract.get_contract_owner(), OWNER);
    assert!(contract.get_auctions().is_empty());
}

#[test]
fn nft_fee_interest_zero_normalized_test() {
    let contract = NftAlleblock::new(1, 0, OWNER);
    assert_eq!(contract.get_finalize_fee_interest(), 1);
}

#[test]
fn nft_no_such_auction_test() {
    let mut ledger = RecordingLedger::new();
    let mut vault = RecordingVault::new();
    let mut contract = NftAlleblock::new(1, 2, OWNER);
    assert_eq!(contract.bid(&mut ledger, 0, env(BOB, 5, 0)), Err(Error::NoSuchAuctionError));
    assert_eq!(
        contract.finish_auction(&mut ledger, &mut vault, 0, env(BOB, 0, 0)),
        Err(Error::NoSuchAuctionError)
    );
    assert_eq!(
        contract.cancel_auction(&mut ledger, &mut vault, 0, env(BOB, 0, 0)),
        Err(Error::NoSuchAuctionError)
    );
    assert!(contract.get_auctions().is_empty());
    assert!(ledger.completed.is_empty());
    assert!(vault.completed.is_empty());
}

#[test]
fn nft_create_auction_test() {
    let mut ledger = RecordingLedger::new();
    let mut vault = RecordingVault::new();
    let mut contract = NftAlleblock::new(1, 2, OWNER);

    assert_eq!(
        contract.create_auction(
            &mut ledger,
            &mut vault,
            5,
            "auction 1".to_string(),
            5,
            None,
            None,
            env(BOB, 1, 0),
        ),
        Ok(0)
    );
    assert_eq!(
        contract.create_auction(
            &mut ledger,
            &mut vault,
            15,
            "auction 2".to_string(),
            3,
            Some(NFT_CONTRACT),
            Some(TOKEN),
            env(BOB, 1, 0),
        ),
        Ok(1)
    );

    let expected_auctions = vec![
        AuctionInfo {
            id: 0,
            owner: BOB,
            description: "auction 1".to_string(),
            starting_bid: 5,
            highest_bid: 0,
            highest_bidder: BOB,
            creation_date: 0,
            finish_date: 5,
            auction_state: AuctionState::InProgress,
            nft_contract_account: None,
            nft_token_id: None,
        },
        AuctionInfo {
            id: 1,
            owner: BOB,
            description: "auction 2".to_string(),
            starting_bid: 15,
            highest_bid: 0,
            highest_bidder: BOB,
            creation_date: 0,
            finish_date: 3,
            auction_state: AuctionState::InProgress,
            nft_contract_account: Some(NFT_CONTRACT),
            nft_token_id: Some(TOKEN),
        },
    ];
    assert_eq!(contract.get_auctions(), expected_auctions);
    // the escrowed token went into the engine's own custody
    assert_eq!(
        vault.completed,
        vec![NftMove { to: CONTRACT, nft_contract: NFT_CONTRACT, token: TOKEN }]
    );
}

#[test]
fn nft_half_named_escrow_test() {
    let mut ledger = RecordingLedger::new();
    let mut vault = RecordingVault::new();
    let mut contract = NftAlleblock::new(1, 2, OWNER);

    // naming only the contract or only the token escrows nothing
    assert_eq!(
        contract.create_auction(
            &mut ledger,
            &mut vault,
            5,
            "auction 1".to_string(),
            5,
            Some(NFT_CONTRACT),
            None,
            env(BOB, 1, 0),
        ),
        Ok(0)
    );
    assert_eq!(
        contract.create_auction(
            &mut ledger,
            &mut vault,
            5,
            "auction 2".to_string(),
            5,
            None,
            Some(TOKEN),
            env(BOB, 1, 0),
        ),
        Ok(1)
    );
    assert!(vault.completed.is_empty());
    assert_eq!(contract.get_auctions()[0].nft_contract_account, None);
    assert_eq!(contract.get_auctions()[0].nft_token_id, None);
    assert_eq!(contract.get_auctions()[1].nft_contract_account, None);
    assert_eq!(contract.get_auctions()[1].nft_token_id, None);
}

#[test]
fn nft_auction_creation_fee_test() {
    let auction_creation_fee = 10;
    let mut ledger = RecordingLedger::new();
    let mut vault = RecordingVault::new();
    let mut contract = NftAlleblock::new(auction_creation_fee, 20, OWNER);

    assert_eq!(
        contract.create_auction(
            &mut ledger,
            &mut vault,
            5,
            "auction 1".to_string(),
            3,
            None,
            None,
            env(BOB, auction_creation_fee - 1, 0),
        ),
        Err(Error::TooLowFeeError)
    );
    assert!(contract.get_auctions().is_empty());
    assert!(ledger.completed.is_empty());

    assert_eq!(
        contract.create_auction(
            &mut ledger,
            &mut vault,
            5,
            "auction 1".to_string(),
            3,
            None,
            None,
            env(BOB, auction_creation_fee, 0),
        ),
        Ok(0)
    );
    assert_eq!(ledger.completed, vec![Transfer { to: OWNER, amount: auction_creation_fee }]);
}

#[test]
fn nft_no_allowance_test() {
    let mut ledger = RecordingLedger::new();
    let mut vault = RecordingVault::new();
    vault.allowance = false;
    let mut contract = NftAlleblock::new(10, 20, OWNER);

    assert_eq!(
        contract.create_auction(
            &mut ledger,
            &mut vault,
            5,
            "auction 1".to_string(),
            3,
            Some(NFT_CONTRACT),
            Some(TOKEN),
            env(BOB, 10, 0),
        ),
        Err(Error::NoNftAllowanceError)
    );
    assert!(contract.get_auctions().is_empty());
    assert!(vault.completed.is_empty());
    // the creation fee was already forwarded when the allowance check failed
    assert_eq!(ledger.completed, vec![Transfer { to: OWNER, amount: 10 }]);
}

#[test]
fn nft_escrow_transfer_failure_test() {
    let mut ledger = RecordingLedger::new();
    let mut vault = RecordingVault::new();
    vault.accept = false;
    let mut contract = NftAlleblock::new(10, 20, OWNER);

    assert_eq!(
        contract.create_auction(
            &mut ledger,
            &mut vault,
            5,
            "auction 1".to_string(),
            3,
            Some(NFT_CONTRACT),
            Some(TOKEN),
            env(BOB, 10, 0),
        ),
        Err(Error::NftTransferError)
    );
    assert!(contract.get_auctions().is_empty());
    assert!(vault.completed.is_empty());
}

#[test]
fn nft_bid_state_errors_test() {
    let mut ledger = RecordingLedger::new();
    let mut vault = RecordingVault::new();
    let mut contract = NftAlleblock::new(10, 20, OWNER);

    for (description, duration) in [
        ("normal auction", 100),
        ("finalized auction", 3),
        ("cancelled auction", 100),
        ("auction after deadline", 3),
    ] {
        assert!(contract
            .create_auction(
                &mut ledger,
                &mut vault,
                5,
                description.to_string(),
                duration,
                None,
                None,
                env(BOB, 10, 0),
            )
            .is_ok());
    }
    let (normal_id, finalized_id, cancelled_id, after_deadline_id) = (0, 1, 2, 3);

    assert_eq!(
        contract.finish_auction(&mut ledger, &mut vault, finalized_id, env(BOB, 0, 6)),
        Ok(())
    );
    assert_eq!(
        contract.cancel_auction(&mut ledger, &mut vault, cancelled_id, env(BOB, 0, 6)),
        Ok(())
    );

    assert_eq!(contract.bid(&mut ledger, normal_id, env(EVE, 500, 6)), Ok(()));
    assert_eq!(
        contract.bid(&mut ledger, finalized_id, env(EVE, 500, 6)),
        Err(Error::AuctionNotInProgressError)
    );
    assert_eq!(
        contract.bid(&mut ledger, cancelled_id, env(EVE, 500, 6)),
        Err(Error::AuctionNotInProgressError)
    );
    assert_eq!(
        contract.bid(&mut ledger, after_deadline_id, env(EVE, 500, 6)),
        Err(Error::AfterFinishDateError)
    );

    assert_eq!(EVE, contract.get_auctions()[normal_id as usize].highest_bidder);
    assert_eq!(AuctionState::InProgress, contract.get_auctions()[normal_id as usize].auction_state);
}

#[test]
fn nft_bid_test() {
    let minimum_bid = 5;
    let mut ledger = RecordingLedger::new();
    let mut vault = RecordingVault::new();
    let mut contract = NftAlleblock::new(10, 20, OWNER);

    assert_eq!(
        contract.create_auction(
            &mut ledger,
            &mut vault,
            minimum_bid,
            "auction".to_string(),
            100,
            None,
            None,
            env(BOB, 10, 0),
        ),
        Ok(0)
    );

    assert_eq!(
        contract.bid(&mut ledger, 0, env(EVE, minimum_bid - 1, 0)),
        Err(Error::TooLowBidError)
    );
    assert_eq!(BOB, contract.get_auctions()[0].highest_bidder);
    assert_eq!(0, contract.get_auctions()[0].highest_bid);

    assert_eq!(contract.bid(&mut ledger, 0, env(EVE, minimum_bid, 0)), Ok(()));
    assert_eq!(EVE, contract.get_auctions()[0].highest_bidder);
    assert_eq!(minimum_bid, contract.get_auctions()[0].highest_bid);

    let eve_best_bid = 500;
    assert_eq!(contract.bid(&mut ledger, 0, env(EVE, eve_best_bid, 0)), Ok(()));
    assert_eq!(eve_best_bid, contract.get_auctions()[0].highest_bid);

    assert_eq!(contract.bid(&mut ledger, 0, env(CHARLIE, eve_best_bid, 0)), Err(Error::TooLowBidError));
    assert_eq!(EVE, contract.get_auctions()[0].highest_bidder);
    assert_eq!(eve_best_bid, contract.get_auctions()[0].highest_bid);

    assert_eq!(contract.bid(&mut ledger, 0, env(CHARLIE, eve_best_bid + 1, 0)), Ok(()));
    assert_eq!(CHARLIE, contract.get_auctions()[0].highest_bidder);
    assert_eq!(eve_best_bid + 1, contract.get_auctions()[0].highest_bid);

    assert_eq!(
        ledger.completed,
        vec![
            Transfer { to: OWNER, amount: 10 },
            Transfer { to: EVE, amount: minimum_bid },
            Transfer { to: EVE, amount: eve_best_bid },
        ]
    );
}

#[test]
fn nft_finalize_state_errors_test() {
    let mut ledger = RecordingLedger::new();
    let mut vault = RecordingVault::new();
    let mut contract = NftAlleblock::new(10, 20, OWNER);

    for (description, duration) in [
        ("auction before deadline", 100),
        ("cancelled auction", 100),
        ("auction after deadline", 3),
        ("auction after deadline - other finishes", 3),
    ] {
        assert!(contract
            .create_auction(
                &mut ledger,
                &mut vault,
                5,
                description.to_string(),
                duration,
                None,
                None,
                env(BOB, 10, 0),
            )
            .is_ok());
    }
    let (before_deadline_id, cancelled_id, after_deadline_id, after_deadline_other_finishes_id) =
        (0, 1, 2, 3);

    assert_eq!(
        contract.cancel_auction(&mut ledger, &mut vault, cancelled_id, env(BOB, 0, 6)),
        Ok(())
    );
    assert_eq!(
        contract.finish_auction(&mut ledger, &mut vault, after_deadline_other_finishes_id, env(EVE, 0, 6)),
        Ok(())
    );

    assert_eq!(
        contract.finish_auction(&mut ledger, &mut vault, before_deadline_id, env(BOB, 0, 6)),
        Err(Error::BeforeFinishDateError)
    );
    assert_eq!(
        contract.finish_auction(&mut ledger, &mut vault, cancelled_id, env(BOB, 0, 6)),
        Err(Error::AuctionNotInProgressError)
    );
    assert_eq!(
        contract.finish_auction(&mut ledger, &mut vault, after_deadline_id, env(BOB, 0, 6)),
        Ok(())
    );
    assert_eq!(
        contract.finish_auction(&mut ledger, &mut vault, after_deadline_id, env(BOB, 0, 6)),
        Err(Error::AuctionNotInProgressError)
    );

    assert_eq!(AuctionState::Finished, contract.get_auctions()[2].auction_state);
}

#[test]
fn nft_finish_behaviour_test() {
    let finalize_fee = 20;
    let mut ledger = RecordingLedger::new();
    let mut vault = RecordingVault::new();
    let mut contract = NftAlleblock::new(10, finalize_fee, OWNER);

    assert_eq!(
        contract.create_auction(
            &mut ledger,
            &mut vault,
            5,
            "auction 1".to_string(),
            3,
            Some(NFT_CONTRACT),
            Some(TOKEN),
            env(BOB, 10, 0),
        ),
        Ok(0)
    );

    let eve_bid = 500;
    assert_eq!(contract.bid(&mut ledger, 0, env(EVE, eve_bid, 0)), Ok(()));

    assert_eq!(contract.finish_auction(&mut ledger, &mut vault, 0, env(BOB, 0, 4)), Ok(()));

    assert_eq!(
        ledger.completed,
        vec![
            Transfer { to: OWNER, amount: 10 },
            Transfer { to: BOB, amount: eve_bid - eve_bid / (finalize_fee as u128) },
            Transfer { to: OWNER, amount: eve_bid / (finalize_fee as u128) },
        ]
    );
    // the escrowed token went to the winning bidder
    assert_eq!(
        vault.completed,
        vec![
            NftMove { to: CONTRACT, nft_contract: NFT_CONTRACT, token: TOKEN },
            NftMove { to: EVE, nft_contract: NFT_CONTRACT, token: TOKEN },
        ]
    );
    assert_eq!(AuctionState::Finished, contract.get_auctions()[0].auction_state);
}

#[test]
fn nft_finish_without_bid_strands_token_test() {
    let mut ledger = RecordingLedger::new();
    let mut vault = RecordingVault::new();
    let mut contract = NftAlleblock::new(10, 20, OWNER);

    assert_eq!(
        contract.create_auction(
            &mut ledger,
            &mut vault,
            5,
            "auction 1".to_string(),
            3,
            Some(NFT_CONTRACT),
            Some(TOKEN),
            env(BOB, 10, 0),
        ),
        Ok(0)
    );
    assert_eq!(contract.finish_auction(&mut ledger, &mut vault, 0, env(BOB, 0, 6)), Ok(()));
    // with no bid there are no transfers at all, so the escrowed token stays
    // in the engine's custody
    assert_eq!(ledger.completed, vec![Transfer { to: OWNER, amount: 10 }]);
    assert_eq!(
        vault.completed,
        vec![NftMove { to: CONTRACT, nft_contract: NFT_CONTRACT, token: TOKEN }]
    );
    assert_eq!(AuctionState::Finished, contract.get_auctions()[0].auction_state);
}

#[test]
fn nft_cancel_state_errors_test() {
    let mut ledger = RecordingLedger::new();
    let mut vault = RecordingVault::new();
    let mut contract = NftAlleblock::new(10, 20, OWNER);

    for (description, duration) in [
        ("auction before deadline", 100),
        ("finished auction", 3),
        ("auction after deadline", 3),
    ] {
        assert!(contract
            .create_auction(
                &mut ledger,
                &mut vault,
                5,
                description.to_string(),
                duration,
                None,
                None,
                env(BOB, 10, 0),
            )
            .is_ok());
    }
    let (before_deadline_id, finished_id, after_deadline_id) = (0, 1, 2);

    assert_eq!(
        contract.finish_auction(&mut ledger, &mut vault, finished_id, env(BOB, 0, 6)),
        Ok(())
    );

    assert_eq!(
        contract.cancel_auction(&mut ledger, &mut vault, before_deadline_id, env(EVE, 0, 6)),
        Err(Error::NotAnOwnerError)
    );
    assert_eq!(
        contract.cancel_auction(&mut ledger, &mut vault, after_deadline_id, env(EVE, 0, 6)),
        Err(Error::NotAnOwnerError)
    );

    assert_eq!(
        contract.cancel_auction(&mut ledger, &mut vault, before_deadline_id, env(BOB, 0, 6)),
        Ok(())
    );
    assert_eq!(
        contract.cancel_auction(&mut ledger, &mut vault, before_deadline_id, env(BOB, 0, 6)),
        Err(Error::AuctionNotInProgressError)
    );
    assert_eq!(
        contract.cancel_auction(&mut ledger, &mut vault, finished_id, env(BOB, 0, 6)),
        Err(Error::AuctionNotInProgressError)
    );
    assert_eq!(
        contract.cancel_auction(&mut ledger, &mut vault, after_deadline_id, env(BOB, 0, 6)),
        Err(Error::AfterFinishDateError)
    );

    assert_eq!(AuctionState::Cancelled, contract.get_auctions()[0].auction_state);
    assert_eq!(AuctionState::InProgress, contract.get_auctions()[2].auction_state);
}

#[test]
fn nft_cancel_behaviour_test() {
    let mut ledger = RecordingLedger::new();
    let mut vault = RecordingVault::new();
    let mut contract = NftAlleblock::new(10, 20, OWNER);

    assert_eq!(
        contract.create_auction(
            &mut ledger,
            &mut vault,
            5,
            "auction 1".to_string(),
            3,
            Some(NFT_CONTRACT),
            Some(TOKEN),
            env(BOB, 10, 0),
        ),
        Ok(0)
    );

    assert_eq!(contract.bid(&mut ledger, 0, env(EVE, 500, 0)), Ok(()));

    let fee = 500 / 20;
    assert_eq!(
        contract.cancel_auction(&mut ledger, &mut vault, 0, env(BOB, fee - 1, 0)),
        Err(Error::TooLowFeeError)
    );
    assert_eq!(contract.get_auctions()[0].auction_state, AuctionState::InProgress);

    assert_eq!(contract.cancel_auction(&mut ledger, &mut vault, 0, env(BOB, fee, 0)), Ok(()));
    assert_eq!(
        ledger.completed,
        vec![
            Transfer { to: OWNER, amount: 10 },
            Transfer { to: EVE, amount: 500 },
            Transfer { to: OWNER, amount: fee },
        ]
    );
    // the escrowed token went back to the seller
    assert_eq!(
        vault.completed,
        vec![
            NftMove { to: CONTRACT, nft_contract: NFT_CONTRACT, token: TOKEN },
            NftMove { to: BOB, nft_contract: NFT_CONTRACT, token: TOKEN },
        ]
    );
    assert_eq!(contract.get_auctions()[0].auction_state, AuctionState::Cancelled);
}

#[test]
fn nft_return_failure_aborts_cancel_test() {
    let mut ledger = RecordingLedger::new();
    let mut vault = RecordingVault::new();
    let mut contract = NftAlleblock::new(10, 20, OWNER);

    assert_eq!(
        contract.create_auction(
            &mut ledger,
            &mut vault,
            5,
            "auction 1".to_string(),
            3,
            Some(NFT_CONTRACT),
            Some(TOKEN),
            env(BOB, 10, 0),
        ),
        Ok(0)
    );
    assert_eq!(contract.bid(&mut ledger, 0, env(EVE, 500, 0)), Ok(()));

    vault.accept = false;
    assert_eq!(
        contract.cancel_auction(&mut ledger, &mut vault, 0, env(BOB, 25, 0)),
        Err(Error::NftTransferError)
    );
    assert_eq!(contract.get_auctions()[0].auction_state, AuctionState::InProgress);
    // the refund had already gone through when the token return failed
    assert_eq!(
        ledger.completed,
        vec![Transfer { to: OWNER, amount: 10 }, Transfer { to: EVE, amount: 500 }]
    );
}

#[test]
fn nft_delivery_failure_aborts_finish_test() {
    let mut ledger = RecordingLedger::new();
    let mut vault = RecordingVault::new();
    let mut contract = NftAlleblock::new(10, 20, OWNER);

    assert_eq!(
        contract.create_auction(
            &mut ledger,
            &mut vault,
            5,
            "auction 1".to_string(),
            3,
            Some(NFT_CONTRACT),
            Some(TOKEN),
            env(BOB, 10, 0),
        ),
        Ok(0)
    );
    assert_eq!(contract.bid(&mut ledger, 0, env(EVE, 500, 0)), Ok(()));

    vault.accept = false;
    assert_eq!(
        contract.finish_auction(&mut ledger, &mut vault, 0, env(BOB, 0, 6)),
        Err(Error::NftTransferError)
    );
    assert_eq!(contract.get_auctions()[0].auction_state, AuctionState::InProgress);
}

#[test]
fn nft_get_finalize_fee_of_test() {
    let mut ledger = RecordingLedger::new();
    let mut vault = RecordingVault::new();
    let mut contract = NftAlleblock::new(10, 20, OWNER);
    assert_eq!(contract.get_finalize_fee_of(0), Err(Error::NoSuchAuctionError));
    assert_eq!(
        contract.create_auction(
            &mut ledger,
            &mut vault,
            5,
            "auction 1".to_string(),
            100,
            None,
            None,
            env(BOB, 10, 0),
        ),
        Ok(0)
    );
    assert_eq!(contract.get_finalize_fee_of(0), Ok(0));
    assert_eq!(contract.bid(&mut ledger, 0, env(EVE, 500, 0)), Ok(()));
    assert_eq!(contract.get_finalize_fee_of(0), Ok(25));
}
