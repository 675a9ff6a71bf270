use alleblock::host::CallEnv;
use alleblock::nft_storage::{Error, NftStorage};
use alleblock::psp34::{NftError, NftMove, RecordingVault};

const CONTRACT: u32 = 7;
const BOB: u32 = 2;
const EVE: u32 = 3;
const NFT_CONTRACT: u32 = 5;
const TOKEN: u128 = 42;

fn env(caller: u32, value: u128, now: u64) -> CallEnv {
    CallEnv { caller, callee: CONTRACT, transferred_value: value, block_timestamp: now }
}

#[test]
fn storage_creator_becomes_owner_test() {
    let storage = NftStorage::new(env(BOB, 0, 0));
    assert_eq!(storage.get_owner(), BOB);
}

#[test]
fn storage_set_owner_test() {
    let mut storage = NftStorage::new(env(BOB, 0, 0));
    assert_eq!(storage.set_owner(env(EVE, 0, 0), EVE), Err(Error::NotAnOwnerError));
    assert_eq!(storage.get_owner(), BOB);
    assert_eq!(storage.set_owner(env(BOB, 0, 0), EVE), Ok(()));
    assert_eq!(storage.get_owner(), EVE);
}

#[test]
fn storage_transfer_refused_for_stranger_test() {
    let mut storage = NftStorage::new(env(BOB, 0, 0));
    let mut vault = RecordingVault::new();
    assert_eq!(
        storage.transfer(&mut vault, env(EVE, 0, 0), EVE, NFT_CONTRACT, TOKEN),
        Err(NftError::Custom("NotAnOwnerError".to_string()))
    );
    assert!(vault.completed.is_empty());
}

#[test]
fn storage_transfer_forwards_for_owner_test() {
    let mut storage = NftStorage::new(env(BOB, 0, 0));
    let mut vault = RecordingVault::new();
    assert_eq!(storage.transfer(&mut vault, env(BOB, 0, 0), EVE, NFT_CONTRACT, TOKEN), Ok(()));
    assert_eq!(vault.completed, vec![NftMove { to: EVE, nft_contract: NFT_CONTRACT, token: TOKEN }]);

    // the asset contract's refusal passes through unchanged
    vault.accept = false;
    assert_eq!(
        storage.transfer(&mut vault, env(BOB, 0, 0), EVE, NFT_CONTRACT, TOKEN),
        Err(NftError::NotApproved)
    );
    assert_eq!(vault.completed.len(), 1);
}
