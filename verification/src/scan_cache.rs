//! What the most recent Classic Inquiry told us about each device, keyed by
//! address.
//!
//! Two things are worth keeping. The EIR name ends up in flash alongside the
//! link key after a successful pairing. The Class of Device says whether the
//! device is a keyboard or a pointing device, which is how a keyboard gets the
//! right profile on its first connection, before any bond exists to read it
//! from.
//!
//! This is a simple ring of recent entries, not a long-lived database. Scans
//! overwrite older entries as needed.

use crate::bytes::{
    copy_array, law_zeros_are_zero, lemma_three_bytes, same_address, to_array, zero_array, zeros,
};
use vstd::prelude::*;

verus! {

/// How many devices the cache remembers.
pub const MAX_CACHED_DEVICES: usize = 8;

/// What Inquiry told us about one device.
#[derive(Clone, Copy)]
pub struct CachedDevice {
    pub addr: [u8; 6],
    pub name: [u8; 32],
    pub name_len: u8,
    /// Class of Device as received from HCI (little-endian), if seen.
    pub cod: Option<[u8; 3]>,
}

/// `heapless::Vec`, a vector of at most `N` items.
#[verifier::external_type_specification]
#[verifier::external_body]
#[verifier::reject_recursive_types(T)]
pub struct ExHeaplessVec<T, const N: usize>(heapless::Vec<T, N>);

/// The devices that a cache vector holds, oldest first.
pub uninterp spec fn cached_devices(v: heapless::Vec<CachedDevice, MAX_CACHED_DEVICES>) -> Seq<CachedDevice>;

/// `heapless::Vec::new`: the vector is empty.
#[verifier::external_body]
fn cache_new() -> (v: heapless::Vec<CachedDevice, MAX_CACHED_DEVICES>)
    ensures
        cached_devices(v) == Seq::<CachedDevice>::empty(),
{
    heapless::Vec::new()
}

/// `heapless::Vec::as_slice`: all items in order, never more than the capacity.
#[verifier::external_body]
fn cache_as_slice(v: &heapless::Vec<CachedDevice, MAX_CACHED_DEVICES>) -> (s: &[CachedDevice])
    ensures
        s@ == cached_devices(*v),
        s@.len() <= MAX_CACHED_DEVICES,
{
    v.as_slice()
}

/// `heapless::Vec::as_mut_slice`: all items in order; what is written through
/// the slice is what the vector then holds, and their number stays.
#[verifier::external_body]
fn cache_as_mut_slice(v: &mut heapless::Vec<CachedDevice, MAX_CACHED_DEVICES>) -> (s: &mut [CachedDevice])
    ensures
        s@ == cached_devices(*old(v)),
        cached_devices(*final(v)) == final(s)@,
{
    v.as_mut_slice()
}

/// `heapless::Vec::is_full`: whether the length has reached the capacity.
#[verifier::external_body]
fn cache_is_full(v: &heapless::Vec<CachedDevice, MAX_CACHED_DEVICES>) -> (r: bool)
    ensures
        r == (cached_devices(*v).len() == MAX_CACHED_DEVICES),
{
    v.is_full()
}

/// `heapless::Vec::remove`: takes the item at `index` out and closes the gap,
/// keeping the order of the others. It panics past the end.
#[verifier::external_body]
fn cache_remove(v: &mut heapless::Vec<CachedDevice, MAX_CACHED_DEVICES>, index: usize) -> (r: CachedDevice)
    requires
        index < cached_devices(*old(v)).len(),
    ensures
        r == cached_devices(*old(v))[index as int],
        cached_devices(*final(v)) == cached_devices(*old(v)).remove(index as int),
{
    v.remove(index)
}

/// `heapless::Vec::push`: appends the item, or hands it back and changes
/// nothing when the vector is full.
#[verifier::external_body]
fn cache_push(v: &mut heapless::Vec<CachedDevice, MAX_CACHED_DEVICES>, item: CachedDevice) -> (r: Result<
    (),
    CachedDevice,
>)
    ensures
        r is Ok <==> cached_devices(*old(v)).len() < MAX_CACHED_DEVICES,
        r matches Err(back) ==> back == item,
        r is Ok ==> cached_devices(*final(v)) == cached_devices(*old(v)).push(item),
        r is Err ==> cached_devices(*final(v)) == cached_devices(*old(v)),
{
    v.push(item)
}

/// The place of a device among `devices`: the first entry with its address.
pub open spec fn position(devices: Seq<CachedDevice>, addr: [u8; 6]) -> Option<int> {
    if exists|i: int| is_first(devices, addr, i) {
        Some(choose|i: int| is_first(devices, addr, i))
    } else {
        None
    }
}

/// Entry `i` is the first one with this address.
pub open spec fn is_first(devices: Seq<CachedDevice>, addr: [u8; 6], i: int) -> bool {
    &&& 0 <= i < devices.len()
    &&& devices[i].addr == addr
    &&& forall|k: int| 0 <= k < i ==> (#[trigger] devices[k]).addr != addr
}

/// A device of which nothing but the address is known.
pub open spec fn unknown_device(addr: [u8; 6]) -> CachedDevice {
    CachedDevice { addr, name: to_array::<32>(zeros(32)), name_len: 0, cod: None }
}

/// An entry after another Inquiry result: a nonempty name and a complete Class
/// of Device replace what was known, anything else leaves it.
pub open spec fn updated_device(
    device: CachedDevice,
    name: Option<([u8; 32], u8)>,
    cod: Option<Seq<u8>>,
) -> CachedDevice {
    CachedDevice {
        addr: device.addr,
        name: match name {
            Some((bytes, len)) if len > 0 => bytes,
            _ => device.name,
        },
        name_len: match name {
            Some((bytes, len)) if len > 0 => len,
            _ => device.name_len,
        },
        cod: match cod {
            Some(bytes) if bytes.len() >= 3 => Some(to_array::<3>(bytes.take(3))),
            _ => device.cod,
        },
    }
}

/// The cache after an Inquiry result: a known device is updated in place; a new
/// one is appended, and takes the place of the oldest entry when the cache is
/// full.
pub open spec fn recorded(
    devices: Seq<CachedDevice>,
    addr: [u8; 6],
    name: Option<([u8; 32], u8)>,
    cod: Option<Seq<u8>>,
) -> Seq<CachedDevice> {
    match position(devices, addr) {
        Some(i) => devices.update(i, updated_device(devices[i], name, cod)),
        None => {
            let kept = if devices.len() == MAX_CACHED_DEVICES {
                devices.skip(1)
            } else {
                devices
            };
            kept.push(updated_device(unknown_device(addr), name, cod))
        },
    }
}

/// The name that a result gives, as a value.
pub open spec fn given_name(name: Option<(&[u8; 32], u8)>) -> Option<([u8; 32], u8)> {
    match name {
        Some((bytes, len)) => Some((*bytes, len)),
        None => None,
    }
}

/// The Class of Device that a result gives, as a value.
pub open spec fn given_cod(cod: Option<&[u8]>) -> Option<Seq<u8>> {
    match cod {
        Some(bytes) => Some(bytes@),
        None => None,
    }
}

/// The name that is known of a device, with its length.
pub open spec fn known_name(devices: Seq<CachedDevice>, addr: [u8; 6]) -> Option<([u8; 32], u8)> {
    match position(devices, addr) {
        Some(i) if devices[i].name_len > 0 => Some((devices[i].name, devices[i].name_len)),
        _ => None,
    }
}

/// The Class of Device that is known of a device.
pub open spec fn known_cod(devices: Seq<CachedDevice>, addr: [u8; 6]) -> Option<[u8; 3]> {
    match position(devices, addr) {
        Some(i) => devices[i].cod,
        None => None,
    }
}

/// No device has two entries.
pub open spec fn no_duplicates(devices: Seq<CachedDevice>) -> bool {
    forall|i: int, j: int|
        0 <= i < j < devices.len() ==> (#[trigger] devices[i]).addr != (#[trigger] devices[j]).addr
}

proof fn lemma_position(devices: Seq<CachedDevice>, addr: [u8; 6], i: int)
    requires
        is_first(devices, addr, i),
    ensures
        position(devices, addr) == Some(i),
{
    let j = position(devices, addr)->0;
    assert(is_first(devices, addr, j));
    if j < i {
        assert(devices[j].addr != addr);
    } else if i < j {
        assert(devices[i].addr != addr);
    }
}

/// The cache of scanned devices.
pub struct ScanCache {
    devices: heapless::Vec<CachedDevice, MAX_CACHED_DEVICES>,
}

impl ScanCache {
    /// The entries, oldest first.
    pub closed spec fn view(&self) -> Seq<CachedDevice> {
        cached_devices(self.devices)
    }

    /// At most one entry per device, and no more entries than there is room for.
    pub open spec fn wf(&self) -> bool {
        self@.len() <= MAX_CACHED_DEVICES && no_duplicates(self@)
    }

    /// An empty cache.
    pub fn new() -> (r: Self)
        ensures
            r.wf(),
            r@ == Seq::<CachedDevice>::empty(),
    {
        ScanCache { devices: cache_new() }
    }

    /// The place of a device in the cache.
    fn find(&self, addr: &[u8; 6]) -> (r: Option<usize>)
        ensures
            match r {
                Some(i) => position(self@, *addr) == Some(i as int) && is_first(self@, *addr, i as int),
                None => position(self@, *addr) is None && forall|k: int|
                    0 <= k < self@.len() ==> (#[trigger] self@[k]).addr != *addr,
            },
    {
        let devices = cache_as_slice(&self.devices);
        let mut i: usize = 0;
        while i < devices.len()
            invariant
                i <= devices@.len(),
                devices@ == self@,
                forall|k: int| 0 <= k < i ==> (#[trigger] self@[k]).addr != *addr,
            decreases devices@.len() - i,
        {
            if same_address(&devices[i].addr, addr) {
                proof {
                    lemma_position(self@, *addr, i as int);
                }
                return Some(i);
            }
            i = i + 1;
        }
        None
    }

    /// Record what an Inquiry result told us about a device.
    ///
    /// Both fields are optional: standard Inquiry results carry a Class of
    /// Device but no name, and a device may answer with an empty EIR name.
    pub fn cache_scan_device(
        &mut self,
        addr: &[u8; 6],
        name: Option<(&[u8; 32], u8)>,
        cod: Option<&[u8]>,
    )
        requires
            old(self).wf(),
        ensures
            final(self).wf(),
            final(self)@ == recorded(old(self)@, *addr, given_name(name), given_cod(cod)),
    {
        let found = self.find(addr);
        let index: usize = match found {
            Some(i) => i,
            None => {
                if cache_is_full(&self.devices) {
                    // Evict oldest
                    let _ = cache_remove(&mut self.devices, 0);
                }
                let _ = cache_push(
                    &mut self.devices,
                    CachedDevice { addr: *addr, name: zero_array::<32>(), name_len: 0, cod: None },
                );
                cache_as_slice(&self.devices).len() - 1
            },
        };
        let mut entry: CachedDevice = cache_as_slice(&self.devices)[index];
        if let Some((bytes, len)) = name {
            if len > 0 {
                entry.name = *bytes;
                entry.name_len = len;
            }
        }
        if let Some(bytes) = cod {
            if bytes.len() >= 3 {
                entry.cod = Some(copy_array::<3>(bytes, 0));
                assert(bytes@.subrange(0, 3) == bytes@.take(3));
            }
        }
        let devices = cache_as_mut_slice(&mut self.devices);
        devices[index] = entry;
        assert(self@ == recorded(old(self)@, *addr, given_name(name), given_cod(cod)));
    }

    /// The name of a scanned device, if it gave one.
    pub fn lookup_scan_name(&self, addr: &[u8; 6]) -> (r: Option<([u8; 32], u8)>)
        requires
            self.wf(),
        ensures
            r == known_name(self@, *addr),
    {
        match self.find(addr) {
            Some(i) => {
                let device: CachedDevice = cache_as_slice(&self.devices)[i];
                if device.name_len > 0 {
                    Some((device.name, device.name_len))
                } else {
                    None
                }
            },
            None => None,
        }
    }

    /// The Class of Device of a scanned device, if it was seen.
    pub fn lookup_scan_cod(&self, addr: &[u8; 6]) -> (r: Option<[u8; 3]>)
        ensures
            r == known_cod(self@, *addr),
    {
        match self.find(addr) {
            Some(i) => cache_as_slice(&self.devices)[i].cod,
            None => None,
        }
    }
}

/// The device that an Inquiry result from `addr` pushes out of the cache: the
/// oldest one, if the cache is full and `addr` is new to it.
pub open spec fn evicted(devices: Seq<CachedDevice>, addr: [u8; 6]) -> Option<[u8; 6]> {
    if devices.len() == MAX_CACHED_DEVICES && position(devices, addr) is None {
        Some(devices[0].addr)
    } else {
        None
    }
}

/// Without duplicates, any entry of a device is its place.
pub proof fn lemma_only_position(devices: Seq<CachedDevice>, addr: [u8; 6], i: int)
    requires
        no_duplicates(devices),
        0 <= i < devices.len(),
        devices[i].addr == addr,
    ensures
        position(devices, addr) == Some(i),
{
    assert(is_first(devices, addr, i)) by {
        assert forall|k: int| 0 <= k < i implies (#[trigger] devices[k]).addr != addr by {
            assert(devices[k].addr != devices[i].addr);
        }
    }
    lemma_position(devices, addr, i);
}

proof fn lemma_no_position(devices: Seq<CachedDevice>, addr: [u8; 6])
    requires
        position(devices, addr) is None,
    ensures
        forall|k: int| 0 <= k < devices.len() ==> (#[trigger] devices[k]).addr != addr,
{
    assert forall|k: int| 0 <= k < devices.len() implies (#[trigger] devices[k]).addr != addr by {
        if devices[k].addr == addr {
            lemma_first_exists(devices, addr, k);
        }
    }
}

proof fn lemma_first_exists(devices: Seq<CachedDevice>, addr: [u8; 6], k: int)
    requires
        0 <= k < devices.len(),
        devices[k].addr == addr,
    ensures
        exists|i: int| is_first(devices, addr, i),
    decreases k,
{
    if exists|j: int| 0 <= j < k && (#[trigger] devices[j]).addr == addr {
        let j = choose|j: int| 0 <= j < k && (#[trigger] devices[j]).addr == addr;
        lemma_first_exists(devices, addr, j);
    } else {
        assert(is_first(devices, addr, k));
    }
}

/// Recording keeps the cache within its size and free of duplicates.
pub proof fn law_recording_keeps_the_cache_well_formed(
    devices: Seq<CachedDevice>,
    addr: [u8; 6],
    name: Option<([u8; 32], u8)>,
    cod: Option<Seq<u8>>,
)
    requires
        devices.len() <= MAX_CACHED_DEVICES,
        no_duplicates(devices),
    ensures
        recorded(devices, addr, name, cod).len() <= MAX_CACHED_DEVICES,
        no_duplicates(recorded(devices, addr, name, cod)),
{
    match position(devices, addr) {
        Some(i) => {
            assert(is_first(devices, addr, i));
        },
        None => {
            lemma_no_position(devices, addr);
        },
    }
}

/// A recorded name and Class of Device are what a lookup gives back. A result
/// without a name, or without a complete Class of Device, leaves what was known
/// of the device.
pub proof fn law_lookup_gives_back_what_was_recorded(
    devices: Seq<CachedDevice>,
    addr: [u8; 6],
    name: Option<([u8; 32], u8)>,
    cod: Option<Seq<u8>>,
)
    requires
        devices.len() <= MAX_CACHED_DEVICES,
        no_duplicates(devices),
    ensures
        known_name(recorded(devices, addr, name, cod), addr) == (match name {
            Some((bytes, len)) if len > 0 => Some((bytes, len)),
            _ => known_name(devices, addr),
        }),
        known_cod(recorded(devices, addr, name, cod), addr) == (match cod {
            Some(bytes) if bytes.len() >= 3 => Some(to_array::<3>(bytes.take(3))),
            _ => known_cod(devices, addr),
        }),
{
    law_recording_keeps_the_cache_well_formed(devices, addr, name, cod);
    let after = recorded(devices, addr, name, cod);
    match position(devices, addr) {
        Some(i) => {
            assert(is_first(devices, addr, i));
            lemma_only_position(after, addr, i);
        },
        None => {
            lemma_only_position(after, addr, after.len() - 1);
        },
    }
}

/// Recording one device leaves what is known of every other device, save the
/// one that is pushed out, of which nothing is known any more.
pub proof fn law_other_devices_are_kept(
    devices: Seq<CachedDevice>,
    addr: [u8; 6],
    name: Option<([u8; 32], u8)>,
    cod: Option<Seq<u8>>,
    other: [u8; 6],
)
    requires
        devices.len() <= MAX_CACHED_DEVICES,
        no_duplicates(devices),
        other != addr,
    ensures
        evicted(devices, addr) == Some(other) ==> position(
            recorded(devices, addr, name, cod),
            other,
        ) is None,
        evicted(devices, addr) != Some(other) ==> known_name(
            recorded(devices, addr, name, cod),
            other,
        ) == known_name(devices, other),
        evicted(devices, addr) != Some(other) ==> known_cod(
            recorded(devices, addr, name, cod),
            other,
        ) == known_cod(devices, other),
{
    law_recording_keeps_the_cache_well_formed(devices, addr, name, cod);
    let after = recorded(devices, addr, name, cod);
    let shift: int = if evicted(devices, addr) is Some {
        1
    } else {
        0
    };
    if position(devices, addr) is Some {
        assert(is_first(devices, addr, position(devices, addr)->0));
    }
    assert(forall|k: int|
        0 <= k < after.len() && #[trigger] after[k].addr != addr ==> after[k] == devices[k + shift]);
    if position(after, other) is Some {
        let j = position(after, other)->0;
        assert(is_first(after, other, j));
        assert(devices[j + shift].addr == other);
        lemma_only_position(devices, other, j + shift);
        if evicted(devices, addr) == Some(other) {
            assert(devices[0].addr != devices[j + shift].addr);
        }
    } else if position(devices, other) is Some {
        let i = position(devices, other)->0;
        assert(is_first(devices, other, i));
        lemma_no_position(after, other);
        if i >= shift {
            assert(after[i - shift].addr == other);
        }
    }
}

/// A lookup reads the first entry with the address: its Class of Device, and its
/// name unless that is empty.
pub proof fn law_lookup_reads_the_first_entry(devices: Seq<CachedDevice>, addr: [u8; 6], i: int)
    requires
        0 <= i < devices.len(),
        devices[i].addr == addr,
        forall|k: int| 0 <= k < i ==> (#[trigger] devices[k]).addr != addr,
    ensures
        known_cod(devices, addr) == devices[i].cod,
        devices[i].name_len > 0 ==> known_name(devices, addr) == Some(
            (devices[i].name, devices[i].name_len),
        ),
        devices[i].name_len == 0 ==> known_name(devices, addr) is None,
{
    assert(is_first(devices, addr, i));
    lemma_position(devices, addr, i);
}

/// Nothing is known of a device without an entry.
pub proof fn law_lookup_of_a_stranger_gives_nothing(devices: Seq<CachedDevice>, addr: [u8; 6])
    requires
        forall|k: int| 0 <= k < devices.len() ==> (#[trigger] devices[k]).addr != addr,
    ensures
        known_cod(devices, addr) is None,
        known_name(devices, addr) is None,
{
    if position(devices, addr) is Some {
        assert(is_first(devices, addr, position(devices, addr)->0));
    }
}

/// The first three bytes of a Class of Device are what is kept of it.
proof fn lemma_kept_cod(bytes: Seq<u8>)
    requires
        bytes.len() >= 3,
    ensures
        to_array::<3>(bytes.take(3))@ == seq![bytes[0], bytes[1], bytes[2]],
{
    lemma_three_bytes(bytes.take(3));
}

/// A result of a device that has an entry changes the first such entry and no
/// other, and moves nothing: a name of at least one byte replaces the name, and a
/// Class of Device of at least three bytes the Class of Device; what the result
/// does not give stays.
pub proof fn law_known_device_is_updated_in_place(
    devices: Seq<CachedDevice>,
    addr: [u8; 6],
    name: Option<([u8; 32], u8)>,
    cod: Option<Seq<u8>>,
    i: int,
)
    requires
        0 <= i < devices.len(),
        devices[i].addr == addr,
        forall|k: int| 0 <= k < i ==> (#[trigger] devices[k]).addr != addr,
    ensures
        ({
            let after = recorded(devices, addr, name, cod);
            let named = name is Some && (name->0).1 > 0;
            let classed = cod is Some && cod->0.len() >= 3;
            &&& after.len() == devices.len()
            &&& forall|k: int| 0 <= k < devices.len() && k != i ==> #[trigger] after[k] == devices[k]
            &&& after[i].addr == addr
            &&& named ==> after[i].name == (name->0).0 && after[i].name_len == (name->0).1
            &&& !named ==> after[i].name == devices[i].name && after[i].name_len
                == devices[i].name_len
            &&& classed ==> after[i].cod is Some && after[i].cod->0@ == seq![
                cod->0[0],
                cod->0[1],
                cod->0[2],
            ]
            &&& !classed ==> after[i].cod == devices[i].cod
        }),
{
    assert(is_first(devices, addr, i));
    lemma_position(devices, addr, i);
    if cod is Some && cod->0.len() >= 3 {
        lemma_kept_cod(cod->0);
    }
}

/// A result of a device without an entry adds one at the end, with what the result
/// gives and nothing else. Eight entries are the most: then the first one, which
/// is the oldest, goes, and the others move up in order.
pub proof fn law_new_device_is_appended(
    devices: Seq<CachedDevice>,
    addr: [u8; 6],
    name: Option<([u8; 32], u8)>,
    cod: Option<Seq<u8>>,
)
    requires
        devices.len() <= 8,
        forall|k: int| 0 <= k < devices.len() ==> (#[trigger] devices[k]).addr != addr,
    ensures
        ({
            let after = recorded(devices, addr, name, cod);
            let named = name is Some && (name->0).1 > 0;
            let classed = cod is Some && cod->0.len() >= 3;
            &&& devices.len() < 8 ==> after.len() == devices.len() + 1
            &&& devices.len() < 8 ==> forall|k: int|
                0 <= k < devices.len() ==> #[trigger] after[k] == devices[k]
            &&& devices.len() == 8 ==> after.len() == 8
            &&& devices.len() == 8 ==> forall|k: int| 0 <= k < 7 ==> #[trigger] after[k] == devices[k + 1]
            &&& after.last().addr == addr
            &&& named ==> after.last().name == (name->0).0 && after.last().name_len == (name->0).1
            &&& !named ==> after.last().name_len == 0
            &&& !named ==> forall|k: int| 0 <= k < 32 ==> #[trigger] after.last().name@[k] == 0
            &&& classed ==> after.last().cod is Some && after.last().cod->0@ == seq![
                cod->0[0],
                cod->0[1],
                cod->0[2],
            ]
            &&& !classed ==> after.last().cod is None
        }),
{
    if position(devices, addr) is Some {
        assert(is_first(devices, addr, position(devices, addr)->0));
    }
    if cod is Some && cod->0.len() >= 3 {
        lemma_kept_cod(cod->0);
    }
    law_zeros_are_zero(32);
}

/// What a result gives is recorded as it is given.
pub proof fn law_results_are_taken_as_given(bytes: &[u8; 32], len: u8, cod: &[u8])
    ensures
        given_name(Some((bytes, len))) == Some((*bytes, len)),
        given_name(None) is None,
        given_cod(Some(cod)) is Some,
        given_cod(Some(cod))->0 == cod@,
        given_cod(None) is None,
{
}

} // verus!
