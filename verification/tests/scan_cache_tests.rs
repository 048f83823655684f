use bt2usb_core::profile::{profile_from_inquiry, DeviceProfile};
use bt2usb_core::scan_cache::{ScanCache, MAX_CACHED_DEVICES};

fn addr(n: u8) -> [u8; 6] {
    [n, 0xA1, 0xB2, 0xC3, 0xD4, 0xE5]
}

fn name(text: &str) -> [u8; 32] {
    let mut buffer = [0u8; 32];
    buffer[..text.len()].copy_from_slice(text.as_bytes());
    buffer
}

#[test]
fn empty_cache_knows_nothing() {
    let cache = ScanCache::new();
    assert_eq!(cache.lookup_scan_name(&addr(1)), None);
    assert_eq!(cache.lookup_scan_cod(&addr(1)), None);
}

#[test]
fn recorded_device_is_found_again() {
    let mut cache = ScanCache::new();
    cache.cache_scan_device(&addr(1), Some((&name("Keys"), 4)), Some(&[0x40, 0x25, 0x00]));
    assert_eq!(cache.lookup_scan_name(&addr(1)), Some((name("Keys"), 4)));
    assert_eq!(cache.lookup_scan_cod(&addr(1)), Some([0x40, 0x25, 0x00]));
    assert_eq!(cache.lookup_scan_name(&addr(2)), None);
}

#[test]
fn result_without_name_keeps_the_name() {
    let mut cache = ScanCache::new();
    cache.cache_scan_device(&addr(1), Some((&name("Pad"), 3)), None);
    cache.cache_scan_device(&addr(1), None, Some(&[0x80, 0x25, 0x00]));
    cache.cache_scan_device(&addr(1), Some((&name("Other"), 0)), None);
    assert_eq!(cache.lookup_scan_name(&addr(1)), Some((name("Pad"), 3)));
    assert_eq!(cache.lookup_scan_cod(&addr(1)), Some([0x80, 0x25, 0x00]));
}

#[test]
fn incomplete_class_of_device_is_ignored() {
    let mut cache = ScanCache::new();
    cache.cache_scan_device(&addr(1), None, Some(&[0x40, 0x25]));
    assert_eq!(cache.lookup_scan_cod(&addr(1)), None);
    cache.cache_scan_device(&addr(1), None, Some(&[0x40, 0x25, 0x01, 0x99]));
    assert_eq!(cache.lookup_scan_cod(&addr(1)), Some([0x40, 0x25, 0x01]));
    cache.cache_scan_device(&addr(1), None, Some(&[]));
    assert_eq!(cache.lookup_scan_cod(&addr(1)), Some([0x40, 0x25, 0x01]));
}

#[test]
fn device_without_name_has_no_name() {
    let mut cache = ScanCache::new();
    cache.cache_scan_device(&addr(1), None, Some(&[0x40, 0x25, 0x00]));
    assert_eq!(cache.lookup_scan_name(&addr(1)), None);
}

#[test]
fn oldest_device_makes_room() {
    let mut cache = ScanCache::new();
    for n in 0..MAX_CACHED_DEVICES as u8 {
        cache.cache_scan_device(&addr(n), None, Some(&[n, 0x25, 0x00]));
    }
    // An update does not evict anything.
    cache.cache_scan_device(&addr(3), None, Some(&[0x77, 0x25, 0x00]));
    for n in 0..MAX_CACHED_DEVICES as u8 {
        let low: u8 = if n == 3 { 0x77 } else { n };
        assert_eq!(cache.lookup_scan_cod(&addr(n)), Some([low, 0x25, 0x00]));
    }
    cache.cache_scan_device(&addr(100), None, Some(&[0x40, 0x25, 0x00]));
    assert_eq!(cache.lookup_scan_cod(&addr(0)), None);
    assert_eq!(cache.lookup_scan_cod(&addr(1)), Some([1, 0x25, 0x00]));
    assert_eq!(cache.lookup_scan_cod(&addr(7)), Some([7, 0x25, 0x00]));
    assert_eq!(cache.lookup_scan_cod(&addr(100)), Some([0x40, 0x25, 0x00]));
    cache.cache_scan_device(&addr(101), None, None);
    assert_eq!(cache.lookup_scan_cod(&addr(1)), None);
    assert_eq!(cache.lookup_scan_cod(&addr(2)), Some([2, 0x25, 0x00]));
}

#[test]
fn inquiry_tells_keyboards_from_the_rest() {
    let mut cache = ScanCache::new();
    cache.cache_scan_device(&addr(1), None, Some(&[0x40, 0x25, 0x00]));
    cache.cache_scan_device(&addr(2), None, Some(&[0xC0, 0x25, 0x00]));
    cache.cache_scan_device(&addr(3), None, Some(&[0x80, 0x25, 0x00]));
    cache.cache_scan_device(&addr(4), None, Some(&[0x40, 0x24, 0x04]));
    cache.cache_scan_device(&addr(5), None, None);
    assert_eq!(profile_from_inquiry(&cache, &addr(1)), DeviceProfile::Keyboard);
    assert_eq!(profile_from_inquiry(&cache, &addr(2)), DeviceProfile::Keyboard);
    assert_eq!(profile_from_inquiry(&cache, &addr(3)), DeviceProfile::MagicTrackpad);
    assert_eq!(profile_from_inquiry(&cache, &addr(4)), DeviceProfile::MagicTrackpad);
    assert_eq!(profile_from_inquiry(&cache, &addr(5)), DeviceProfile::MagicTrackpad);
    assert_eq!(profile_from_inquiry(&cache, &addr(6)), DeviceProfile::MagicTrackpad);
}
