use asset_bridge::storage::TokenMap;
use asset_bridge::uint::U256;

#[test]
fn empty_map_holds_nothing() {
    let map: TokenMap<u32> = TokenMap::new();
    assert_eq!(map.len(), 0);
    assert!(!map.contains_key(&U256([0, 0, 0, 0])));
    assert_eq!(map.get(&U256([0, 0, 0, 0])), None);
}

#[test]
fn insert_adds_or_replaces() {
    let mut map: TokenMap<u32> = TokenMap::new();
    map.insert(U256([1, 0, 0, 0]), 10);
    map.insert(U256([0, 1, 0, 0]), 20);
    assert_eq!(map.len(), 2);
    assert_eq!(map.get(&U256([1, 0, 0, 0])), Some(&10));
    assert_eq!(map.get(&U256([0, 1, 0, 0])), Some(&20));
    map.insert(U256([1, 0, 0, 0]), 11);
    assert_eq!(map.len(), 2);
    assert_eq!(map.get(&U256([1, 0, 0, 0])), Some(&11));
    assert_eq!(map.get(&U256([0, 1, 0, 0])), Some(&20));
}

#[test]
fn remove_takes_one_key_out() {
    let mut map: TokenMap<u32> = TokenMap::new();
    map.insert(U256([1, 0, 0, 0]), 10);
    map.insert(U256([2, 0, 0, 0]), 20);
    map.insert(U256([3, 0, 0, 0]), 30);
    map.remove(&U256([2, 0, 0, 0]));
    assert_eq!(map.len(), 2);
    assert!(!map.contains_key(&U256([2, 0, 0, 0])));
    assert_eq!(map.get(&U256([1, 0, 0, 0])), Some(&10));
    assert_eq!(map.get(&U256([3, 0, 0, 0])), Some(&30));
    map.remove(&U256([2, 0, 0, 0]));
    assert_eq!(map.len(), 2);
    map.remove(&U256([1, 0, 0, 0]));
    map.remove(&U256([3, 0, 0, 0]));
    assert_eq!(map.len(), 0);
}
