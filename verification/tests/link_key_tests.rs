use bt2usb_core::link_keys::{LinkKeyInfo, MemoryLinkKeyStore, StoredClassicBond, MAX_LINK_KEYS};
use bt2usb_core::profile::DeviceProfile;

fn addr(n: u8) -> [u8; 6] {
    [n, 1, 2, 3, 4, 5]
}

fn key(n: u8) -> LinkKeyInfo {
    LinkKeyInfo { key: [n; 16], key_type: n }
}

fn bond(n: u8) -> StoredClassicBond {
    StoredClassicBond {
        addr: addr(n),
        link_key: [n; 16],
        key_type: n,
        profile: DeviceProfile::Keyboard,
        auto_connect: false,
    }
}

#[test]
fn new_store_is_empty() {
    let store = MemoryLinkKeyStore::new();
    assert_eq!(store.len(), 0);
    assert_eq!(store.load(&addr(1)), None);
}

#[test]
fn stored_key_is_loaded() {
    let mut store = MemoryLinkKeyStore::new();
    store.store(&addr(1), key(1));
    store.store(&addr(2), key(2));
    assert_eq!(store.load(&addr(1)), Some(key(1)));
    assert_eq!(store.load(&addr(2)), Some(key(2)));
    assert_eq!(store.load(&addr(3)), None);
    assert_eq!(store.len(), 2);
}

#[test]
fn storing_again_replaces_the_key() {
    let mut store = MemoryLinkKeyStore::new();
    store.store(&addr(1), key(1));
    store.store(&addr(2), key(2));
    store.store(&addr(1), key(9));
    assert_eq!(store.len(), 2);
    assert_eq!(store.load(&addr(1)), Some(key(9)));
    assert_eq!(store.load(&addr(2)), Some(key(2)));
}

#[test]
fn removed_key_is_gone() {
    let mut store = MemoryLinkKeyStore::new();
    for n in 1..=4u8 {
        store.store(&addr(n), key(n));
    }
    store.remove(&addr(2));
    assert_eq!(store.len(), 3);
    assert_eq!(store.load(&addr(2)), None);
    for n in [1u8, 3, 4] {
        assert_eq!(store.load(&addr(n)), Some(key(n)));
    }
    store.remove(&addr(4));
    store.remove(&addr(77));
    assert_eq!(store.len(), 2);
    assert_eq!(store.load(&addr(4)), None);
    assert_eq!(store.load(&addr(1)), Some(key(1)));
    assert_eq!(store.load(&addr(3)), Some(key(3)));
}

#[test]
fn full_store_takes_no_new_device() {
    let mut store = MemoryLinkKeyStore::new();
    for n in 0..MAX_LINK_KEYS as u8 {
        store.store(&addr(n), key(n));
    }
    store.store(&addr(50), key(50));
    assert_eq!(store.len(), MAX_LINK_KEYS);
    assert_eq!(store.load(&addr(50)), None);
    // A known device can still change its key.
    store.store(&addr(0), key(60));
    assert_eq!(store.load(&addr(0)), Some(key(60)));
}

#[test]
fn bonds_are_loaded_as_far_as_there_is_room() {
    let bonds: Vec<StoredClassicBond> = (0..12u8).map(bond).collect();
    let mut store = MemoryLinkKeyStore::new();
    store.load_from_flash(&bonds);
    assert_eq!(store.len(), 10);
    for n in 0..10u8 {
        assert_eq!(store.load(&addr(n)), Some(key(n)));
    }
    assert_eq!(store.load(&addr(10)), None);
    assert_eq!(store.load(&addr(11)), None);
}

#[test]
fn first_of_two_bonds_counts() {
    let mut second = bond(1);
    second.link_key = [0xEE; 16];
    let mut store = MemoryLinkKeyStore::new();
    store.load_from_flash(&[bond(1), second]);
    assert_eq!(store.len(), 2);
    assert_eq!(store.load(&addr(1)), Some(key(1)));
    store.remove(&addr(1));
    assert_eq!(store.load(&addr(1)), Some(LinkKeyInfo { key: [0xEE; 16], key_type: 1 }));
}
