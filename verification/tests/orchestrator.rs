use asset_bridge::bridge::{BalanceMove, TransferMessage};
use asset_bridge::dispatch::{AccountId, BadOrigin, DispatchError, Origin};
use asset_bridge::erc721::{Config as RegistryConfig, Erc721Token, Error as RegistryError};
use asset_bridge::erc721::{Event as RegistryEvent, Pallet as Registry};
use asset_bridge::orchestrator::{Config, Error, Event, Pallet};
use asset_bridge::uint::U256;

const USER_A: AccountId = AccountId([0xa1; 32]);
const USER_B: AccountId = AccountId([0xb2; 32]);
const BRIDGE: AccountId = AccountId([0xbb; 32]);
const HASH_ID: [u8; 32] = [1; 32];
const NATIVE_ID: [u8; 32] = [2; 32];
const ERC721_ID: [u8; 32] = [3; 32];
const CHAIN_X: u8 = 5;

fn id(n: u64) -> U256 {
    U256([n, 0, 0, 0])
}

fn new_registry() -> Registry {
    Registry::new(RegistryConfig { identifier: ERC721_ID })
}

fn new_pallet() -> Pallet {
    Pallet::new(Config { hash_id: HASH_ID, native_token_id: NATIVE_ID, erc721_id: ERC721_ID })
}

fn word_bytes(front: usize, last: &[u8]) -> Vec<u8> {
    let mut bytes = vec![0u8; front];
    bytes.extend_from_slice(last);
    bytes
}

#[test]
fn transfer_hash_sends_the_hash_as_it_is() {
    let pallet = new_pallet();
    let hash = vec![0xde, 0xad, 0xbe, 0xef];
    assert_eq!(
        pallet.transfer_hash(Origin::Signed(USER_A), hash.clone(), CHAIN_X),
        Ok(TransferMessage { dest_id: CHAIN_X, resource_id: HASH_ID, payload: hash })
    );
}

#[test]
fn transfer_hash_is_for_a_signer() {
    let pallet = new_pallet();
    assert_eq!(
        pallet.transfer_hash(Origin::Root, vec![1], CHAIN_X),
        Err(DispatchError::BadOrigin)
    );
    assert_eq!(
        pallet.transfer_hash(Origin::Unsigned, vec![1], CHAIN_X),
        Err(DispatchError::BadOrigin)
    );
}

#[test]
fn transfer_native_debits_then_sends() {
    let pallet = new_pallet();
    let recipient = vec![0x11, 0x22];
    let pending = pallet
        .transfer_native(Origin::Signed(USER_A), 258, recipient.clone(), CHAIN_X, true, BRIDGE)
        .unwrap();
    assert_eq!(
        pending.debit(),
        BalanceMove { from: USER_A, to: BRIDGE, amount: 258, allow_death: true }
    );
    let mut payload = word_bytes(30, &[1, 2]);
    payload.extend_from_slice(&recipient);
    assert_eq!(
        pending.settle::<u8>(Ok(())),
        Ok(TransferMessage { dest_id: CHAIN_X, resource_id: NATIVE_ID, payload })
    );
}

#[test]
fn transfer_native_writes_the_amount_in_32_bytes() {
    let pallet = new_pallet();
    let amount: u128 = 0x0102_0304_0506_0708_090a_0b0c_0d0e_0f10;
    let pending = pallet
        .transfer_native(Origin::Signed(USER_A), amount, vec![], CHAIN_X, true, BRIDGE)
        .unwrap();
    let message = pending.settle::<u8>(Ok(())).unwrap();
    assert_eq!(
        message.payload,
        word_bytes(16, &[1, 2, 3, 4, 5, 6, 7, 8, 9, 10, 11, 12, 13, 14, 15, 16])
    );
    let most = pallet
        .transfer_native(Origin::Signed(USER_A), u128::MAX, vec![7], CHAIN_X, true, BRIDGE)
        .unwrap()
        .settle::<u8>(Ok(()))
        .unwrap();
    let mut payload = word_bytes(16, &[0xff; 16]);
    payload.push(7);
    assert_eq!(most.payload, payload);
    let none = pallet
        .transfer_native(Origin::Signed(USER_A), 0, vec![], CHAIN_X, true, BRIDGE)
        .unwrap()
        .settle::<u8>(Ok(()))
        .unwrap();
    assert_eq!(none.payload, vec![0u8; 32]);
}

#[test]
fn transfer_native_without_balance_sends_nothing() {
    let pallet = new_pallet();
    let pending = pallet
        .transfer_native(Origin::Signed(USER_A), 1000, vec![1], CHAIN_X, true, BRIDGE)
        .unwrap();
    assert_eq!(pending.settle(Err("insufficient balance")), Err("insufficient balance"));
}

#[test]
fn transfer_native_to_an_unserved_chain_is_refused() {
    let pallet = new_pallet();
    let refused =
        pallet.transfer_native(Origin::Signed(USER_A), 1000, vec![1], CHAIN_X, false, BRIDGE);
    assert_eq!(refused.unwrap_err(), DispatchError::Transfer(Error::InvalidTransfer));
}

#[test]
fn transfer_native_is_for_a_signer() {
    let pallet = new_pallet();
    let by_root = pallet.transfer_native(Origin::Root, 1000, vec![1], CHAIN_X, true, BRIDGE);
    assert_eq!(by_root.unwrap_err(), DispatchError::BadOrigin);
    let by_nobody = pallet.transfer_native(Origin::Unsigned, 1000, vec![1], CHAIN_X, false, BRIDGE);
    assert_eq!(by_nobody.unwrap_err(), DispatchError::BadOrigin);
}

#[test]
fn transfer_erc721_burns_and_sends() {
    let mut registry = new_registry();
    let pallet = new_pallet();
    let recipient = vec![0x99, 0x98, 0x97];
    assert!(registry.mint_token(USER_A, id(7), vec![1, 2, 3]).is_ok());

    let sent = pallet
        .transfer_erc721(&mut registry, Origin::Signed(USER_A), recipient.clone(), id(7), CHAIN_X, true)
        .unwrap();

    assert_eq!(sent.burned, RegistryEvent::Burned(id(7)));
    assert_eq!(registry.tokens(id(7)), None);
    assert_eq!(registry.owner_of(id(7)), None);
    assert_eq!(registry.token_count(), U256([0, 0, 0, 0]));
    let mut payload = word_bytes(31, &[7]);
    payload.extend_from_slice(&recipient);
    payload.extend_from_slice(&[1, 2, 3]);
    assert_eq!(
        sent.message,
        TransferMessage { dest_id: CHAIN_X, resource_id: ERC721_ID, payload }
    );
}

#[test]
fn transfer_erc721_writes_the_identifier_in_32_bytes() {
    let mut registry = new_registry();
    let pallet = new_pallet();
    let token = U256([
        0x1918_1716_1514_1312,
        0x2120_1f1e_1d1c_1b1a,
        0x0908_0706_0504_0302,
        0x1110_0f0e_0d0c_0b0a,
    ]);
    assert!(registry.mint_token(USER_A, token, vec![]).is_ok());
    let sent = pallet
        .transfer_erc721(&mut registry, Origin::Signed(USER_A), vec![], token, CHAIN_X, true)
        .unwrap();
    assert_eq!(
        sent.message.payload,
        vec![
            0x11, 0x10, 0x0f, 0x0e, 0x0d, 0x0c, 0x0b, 0x0a, 0x09, 0x08, 0x07, 0x06, 0x05, 0x04,
            0x03, 0x02, 0x21, 0x20, 0x1f, 0x1e, 0x1d, 0x1c, 0x1b, 0x1a, 0x19, 0x18, 0x17, 0x16,
            0x15, 0x14, 0x13, 0x12
        ]
    );
}

#[test]
fn transfer_erc721_to_an_unserved_chain_keeps_the_token() {
    let mut registry = new_registry();
    let pallet = new_pallet();
    assert!(registry.mint_token(USER_A, id(7), vec![1, 2, 3]).is_ok());
    let refused = pallet.transfer_erc721(
        &mut registry,
        Origin::Signed(USER_A),
        vec![1],
        id(7),
        CHAIN_X,
        false,
    );
    assert_eq!(refused.unwrap_err(), DispatchError::Transfer(Error::InvalidTransfer));
    assert_eq!(
        registry.tokens(id(7)),
        Some(Erc721Token { id: id(7), metadata: vec![1, 2, 3] })
    );
    assert_eq!(registry.owner_of(id(7)), Some(USER_A));
    assert_eq!(registry.token_count(), U256([1, 0, 0, 0]));
}

#[test]
fn transfer_erc721_of_a_missing_token_is_refused() {
    let mut registry = new_registry();
    let pallet = new_pallet();
    assert!(registry.mint_token(USER_A, id(7), vec![1, 2, 3]).is_ok());
    let refused = pallet.transfer_erc721(
        &mut registry,
        Origin::Signed(USER_A),
        vec![1],
        id(8),
        CHAIN_X,
        true,
    );
    assert_eq!(refused.unwrap_err(), DispatchError::Transfer(Error::InvalidTransfer));
    assert_eq!(registry.token_count(), U256([1, 0, 0, 0]));
}

#[test]
fn transfer_erc721_by_another_account_is_refused() {
    let mut registry = new_registry();
    let pallet = new_pallet();
    assert!(registry.mint_token(USER_A, id(7), vec![1, 2, 3]).is_ok());
    let refused = pallet.transfer_erc721(
        &mut registry,
        Origin::Signed(USER_B),
        vec![1],
        id(7),
        CHAIN_X,
        true,
    );
    assert_eq!(refused.unwrap_err(), DispatchError::Erc721(RegistryError::NotOwner));
    assert_eq!(registry.owner_of(id(7)), Some(USER_A));
    assert_eq!(
        registry.tokens(id(7)),
        Some(Erc721Token { id: id(7), metadata: vec![1, 2, 3] })
    );
    assert_eq!(registry.token_count(), U256([1, 0, 0, 0]));
}

#[test]
fn transfer_erc721_is_for_a_signer() {
    let mut registry = new_registry();
    let pallet = new_pallet();
    assert!(registry.mint_token(USER_A, id(7), vec![1, 2, 3]).is_ok());
    let by_root =
        pallet.transfer_erc721(&mut registry, Origin::Root, vec![1], id(7), CHAIN_X, true);
    assert_eq!(by_root.unwrap_err(), DispatchError::BadOrigin);
    let by_nobody =
        pallet.transfer_erc721(&mut registry, Origin::Unsigned, vec![1], id(7), CHAIN_X, true);
    assert_eq!(by_nobody.unwrap_err(), DispatchError::BadOrigin);
    assert_eq!(registry.owner_of(id(7)), Some(USER_A));
}

#[test]
fn transfer_credits_from_the_bridge_account() {
    let pallet = new_pallet();
    assert_eq!(
        pallet.transfer(Ok(BRIDGE), USER_A, 10, NATIVE_ID),
        Ok(BalanceMove { from: BRIDGE, to: USER_A, amount: 10, allow_death: true })
    );
    assert_eq!(
        pallet.transfer(Err(BadOrigin), USER_A, 10, NATIVE_ID),
        Err(DispatchError::BadOrigin)
    );
}

#[test]
fn remark_notes_the_hash() {
    let pallet = new_pallet();
    assert_eq!(
        pallet.remark(Ok(BRIDGE), vec![4, 5, 6], HASH_ID),
        Ok(Event::Remark(vec![4, 5, 6]))
    );
    assert_eq!(
        pallet.remark(Err(BadOrigin), vec![4, 5, 6], HASH_ID),
        Err(DispatchError::BadOrigin)
    );
}

#[test]
fn mint_erc721_makes_the_token() {
    let mut registry = new_registry();
    let pallet = new_pallet();
    let metadata = vec![8u8, 9];
    assert_eq!(
        pallet.mint_erc721(&mut registry, Ok(BRIDGE), USER_B, id(42), metadata.clone(), ERC721_ID),
        Ok(RegistryEvent::Minted(USER_B, id(42)))
    );
    assert_eq!(registry.tokens(id(42)), Some(Erc721Token { id: id(42), metadata }));
    assert_eq!(registry.owner_of(id(42)), Some(USER_B));
    assert_eq!(registry.token_count(), U256([1, 0, 0, 0]));
}

#[test]
fn mint_erc721_keeps_a_live_token() {
    let mut registry = new_registry();
    let pallet = new_pallet();
    assert!(registry.mint_token(USER_A, id(42), vec![1]).is_ok());
    assert_eq!(
        pallet.mint_erc721(&mut registry, Ok(BRIDGE), USER_B, id(42), vec![2], ERC721_ID),
        Err(DispatchError::Erc721(RegistryError::TokenAlreadyExists))
    );
    assert_eq!(
        registry.tokens(id(42)),
        Some(Erc721Token { id: id(42), metadata: vec![1] })
    );
    assert_eq!(registry.owner_of(id(42)), Some(USER_A));
    assert_eq!(registry.token_count(), U256([1, 0, 0, 0]));
}

#[test]
fn mint_erc721_is_for_the_bridge() {
    let mut registry = new_registry();
    let pallet = new_pallet();
    assert_eq!(
        pallet.mint_erc721(&mut registry, Err(BadOrigin), USER_B, id(42), vec![2], ERC721_ID),
        Err(DispatchError::BadOrigin)
    );
    assert_eq!(registry.tokens(id(42)), None);
    assert_eq!(registry.token_count(), U256([0, 0, 0, 0]));
}

#[test]
fn message_builders_lay_out_the_payload() {
    assert_eq!(
        TransferMessage::generic(1, HASH_ID, vec![1, 2]),
        TransferMessage { dest_id: 1, resource_id: HASH_ID, payload: vec![1, 2] }
    );
    let amount = U256([0x0807_0605_0403_0201, 0, 0, 0x8000_0000_0000_0000]);
    let mut payload = vec![0x80u8];
    payload.extend_from_slice(&[0u8; 23]);
    payload.extend_from_slice(&[8, 7, 6, 5, 4, 3, 2, 1, 0xaa]);
    assert_eq!(
        TransferMessage::fungible(2, NATIVE_ID, vec![0xaa], amount),
        TransferMessage { dest_id: 2, resource_id: NATIVE_ID, payload }
    );
    assert_eq!(
        TransferMessage::nonfungible(3, ERC721_ID, vec![1, 2], vec![3], vec![4, 5]),
        TransferMessage { dest_id: 3, resource_id: ERC721_ID, payload: vec![1, 2, 3, 4, 5] }
    );
}

#[test]
fn transfer_erc721_refused_by_the_bridge_keeps_the_token() {
    let mut registry = new_registry();
    let pallet = new_pallet();
    assert!(registry.mint_token(USER_A, id(7), vec![1, 2, 3]).is_ok());
    assert!(registry.mint_token(USER_B, id(8), vec![4]).is_ok());

    let sent = pallet
        .transfer_erc721(&mut registry, Origin::Signed(USER_A), vec![9], id(7), CHAIN_X, true)
        .unwrap();
    assert_eq!(registry.tokens(id(7)), None);
    assert_eq!(registry.token_count(), U256([1, 0, 0, 0]));

    assert_eq!(sent.settle(&mut registry, Err("chain not served")), Err("chain not served"));
    assert_eq!(
        registry.tokens(id(7)),
        Some(Erc721Token { id: id(7), metadata: vec![1, 2, 3] })
    );
    assert_eq!(registry.owner_of(id(7)), Some(USER_A));
    assert_eq!(registry.owner_of(id(8)), Some(USER_B));
    assert_eq!(registry.token_count(), U256([2, 0, 0, 0]));
    // The owner has the token as before: it can be sent again.
    assert!(pallet
        .transfer_erc721(&mut registry, Origin::Signed(USER_A), vec![9], id(7), CHAIN_X, true)
        .is_ok());
}

#[test]
fn transfer_erc721_taken_by_the_bridge_stays_burnt() {
    let mut registry = new_registry();
    let pallet = new_pallet();
    assert!(registry.mint_token(USER_A, id(7), vec![1, 2, 3]).is_ok());
    assert!(registry.mint_token(USER_B, id(8), vec![4]).is_ok());

    let sent = pallet
        .transfer_erc721(&mut registry, Origin::Signed(USER_A), vec![9], id(7), CHAIN_X, true)
        .unwrap();
    assert_eq!(sent.settle::<u8>(&mut registry, Ok(())), Ok(RegistryEvent::Burned(id(7))));
    assert_eq!(registry.tokens(id(7)), None);
    assert_eq!(registry.owner_of(id(7)), None);
    assert_eq!(registry.owner_of(id(8)), Some(USER_B));
    assert_eq!(registry.token_count(), U256([1, 0, 0, 0]));
}
