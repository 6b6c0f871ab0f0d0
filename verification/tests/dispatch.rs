use asset_bridge::dispatch::{ensure_root, ensure_signed, AccountId, BadOrigin, Origin};
use asset_bridge::uint::U256;

#[test]
fn accounts_compare_byte_by_byte() {
    let a = AccountId([7; 32]);
    let mut b = AccountId([7; 32]);
    assert_eq!(a, b);
    b.0[31] = 8;
    assert_ne!(a, b);
    b.0[31] = 7;
    b.0[0] = 6;
    assert_ne!(a, b);
}

#[test]
fn words_compare_one_by_one() {
    assert_eq!(U256([7, 0, 0, 0]), U256([7, 0, 0, 0]));
    assert_ne!(U256([7, 0, 0, 0]), U256([0, 7, 0, 0]));
    assert_ne!(U256([7, 0, 0, 1]), U256([7, 0, 0, 0]));
    assert_ne!(U256([7, 0, 2, 0]), U256([7, 0, 0, 0]));
}

#[test]
fn root_only_passes_ensure_root() {
    assert_eq!(ensure_root(Origin::Root), Ok(()));
    assert_eq!(ensure_root(Origin::Signed(AccountId([1; 32]))), Err(BadOrigin));
    assert_eq!(ensure_root(Origin::Unsigned), Err(BadOrigin));
}

#[test]
fn signer_only_passes_ensure_signed() {
    let who = AccountId([1; 32]);
    assert_eq!(ensure_signed(Origin::Signed(who)), Ok(who));
    assert_eq!(ensure_signed(Origin::Root), Err(BadOrigin));
    assert_eq!(ensure_signed(Origin::Unsigned), Err(BadOrigin));
}

#[test]
fn zero_and_one_are_the_numbers() {
    assert_eq!(U256::zero(), U256([0, 0, 0, 0]));
    assert_eq!(U256::one(), U256([1, 0, 0, 0]));
}
