//! Link keys of paired Classic devices.

use crate::bytes::same_address;
use crate::profile::DeviceProfile;
use vstd::prelude::*;

verus! {

/// How many link keys the store holds.
pub const MAX_LINK_KEYS: usize = 10;

/// A link key and its type, as the controller handed it out.
#[derive(Debug, Clone, Copy, PartialEq, Eq)]
pub struct LinkKeyInfo {
    pub key: [u8; 16],
    pub key_type: u8,
}

/// A link key and the device it belongs to.
#[derive(Debug, Clone, Copy, PartialEq, Eq)]
pub struct LinkKeyEntry {
    pub addr: [u8; 6],
    pub info: LinkKeyInfo,
}

/// What flash holds about a paired device.
#[derive(Debug, Clone, Copy, PartialEq, Eq)]
pub struct StoredClassicBond {
    pub addr: [u8; 6],
    pub link_key: [u8; 16],
    pub key_type: u8,
    pub profile: DeviceProfile,
    pub auto_connect: bool,
}

/// The entries that a key vector holds, in order.
pub uninterp spec fn stored_keys(v: heapless::Vec<LinkKeyEntry, MAX_LINK_KEYS>) -> Seq<LinkKeyEntry>;

/// `heapless::Vec::new`: the vector is empty.
#[verifier::external_body]
fn keys_new() -> (v: heapless::Vec<LinkKeyEntry, MAX_LINK_KEYS>)
    ensures
        stored_keys(v) == Seq::<LinkKeyEntry>::empty(),
{
    heapless::Vec::new()
}

/// `heapless::Vec::as_slice`: all items in order, never more than the capacity.
#[verifier::external_body]
fn keys_as_slice(v: &heapless::Vec<LinkKeyEntry, MAX_LINK_KEYS>) -> (s: &[LinkKeyEntry])
    ensures
        s@ == stored_keys(*v),
        s@.len() <= MAX_LINK_KEYS,
{
    v.as_slice()
}

/// `heapless::Vec::as_mut_slice`: all items in order; what is written through
/// the slice is what the vector then holds.
#[verifier::external_body]
fn keys_as_mut_slice(v: &mut heapless::Vec<LinkKeyEntry, MAX_LINK_KEYS>) -> (s:
    &mut [LinkKeyEntry])
    ensures
        s@ == stored_keys(*old(v)),
        stored_keys(*final(v)) == final(s)@,
{
    v.as_mut_slice()
}

/// `heapless::Vec::push`: appends the item, or hands it back and changes
/// nothing when the vector is full.
#[verifier::external_body]
fn keys_push(v: &mut heapless::Vec<LinkKeyEntry, MAX_LINK_KEYS>, item: LinkKeyEntry) -> (r: Result<
    (),
    LinkKeyEntry,
>)
    ensures
        r is Ok <==> stored_keys(*old(v)).len() < MAX_LINK_KEYS,
        r matches Err(back) ==> back == item,
        r is Ok ==> stored_keys(*final(v)) == stored_keys(*old(v)).push(item),
        r is Err ==> stored_keys(*final(v)) == stored_keys(*old(v)),
{
    v.push(item)
}

/// `heapless::Vec::swap_remove`: takes the item at `index` out and puts the
/// last item in its place. It panics past the end.
#[verifier::external_body]
fn keys_swap_remove(v: &mut heapless::Vec<LinkKeyEntry, MAX_LINK_KEYS>, index: usize) -> (r:
    LinkKeyEntry)
    requires
        index < stored_keys(*old(v)).len(),
    ensures
        r == stored_keys(*old(v))[index as int],
        stored_keys(*final(v)) == stored_keys(*old(v)).update(
            index as int,
            stored_keys(*old(v)).last(),
        ).drop_last(),
{
    v.swap_remove(index)
}

/// Entry `i` is the first one of this device.
pub open spec fn is_first_key(keys: Seq<LinkKeyEntry>, addr: [u8; 6], i: int) -> bool {
    &&& 0 <= i < keys.len()
    &&& keys[i].addr == addr
    &&& forall|k: int| 0 <= k < i ==> (#[trigger] keys[k]).addr != addr
}

/// The place of a device's key: the first entry with its address.
pub open spec fn key_position(keys: Seq<LinkKeyEntry>, addr: [u8; 6]) -> Option<int> {
    if exists|i: int| is_first_key(keys, addr, i) {
        Some(choose|i: int| is_first_key(keys, addr, i))
    } else {
        None
    }
}

/// The link key of a device.
pub open spec fn link_key(keys: Seq<LinkKeyEntry>, addr: [u8; 6]) -> Option<LinkKeyInfo> {
    match key_position(keys, addr) {
        Some(i) => Some(keys[i].info),
        None => None,
    }
}

/// The keys after one is stored: it replaces the device's old key, or is added
/// at the end as long as there is room.
pub open spec fn with_key(keys: Seq<LinkKeyEntry>, addr: [u8; 6], info: LinkKeyInfo) -> Seq<
    LinkKeyEntry,
> {
    match key_position(keys, addr) {
        Some(i) => keys.update(i, LinkKeyEntry { addr, info }),
        None => if keys.len() < MAX_LINK_KEYS {
            keys.push(LinkKeyEntry { addr, info })
        } else {
            keys
        },
    }
}

/// The keys after a device is forgotten: its first entry is gone, and the last
/// entry has taken its place.
pub open spec fn without_key(keys: Seq<LinkKeyEntry>, addr: [u8; 6]) -> Seq<LinkKeyEntry> {
    match key_position(keys, addr) {
        Some(i) => keys.update(i, keys.last()).drop_last(),
        None => keys,
    }
}

/// The key that a bond holds.
pub open spec fn bond_entry(bond: StoredClassicBond) -> LinkKeyEntry {
    LinkKeyEntry {
        addr: bond.addr,
        info: LinkKeyInfo { key: bond.link_key, key_type: bond.key_type },
    }
}

/// The keys after bonds are loaded: their keys in order behind those already
/// there, as far as there is room.
pub open spec fn with_bonds(keys: Seq<LinkKeyEntry>, bonds: Seq<StoredClassicBond>) -> Seq<
    LinkKeyEntry,
> {
    let all = keys + bonds.map_values(|bond: StoredClassicBond| bond_entry(bond));
    if all.len() <= MAX_LINK_KEYS {
        all
    } else {
        all.take(MAX_LINK_KEYS as int)
    }
}

/// No device has two keys.
pub open spec fn one_key_per_device(keys: Seq<LinkKeyEntry>) -> bool {
    forall|i: int, j: int|
        0 <= i < j < keys.len() ==> (#[trigger] keys[i]).addr != (#[trigger] keys[j]).addr
}

proof fn lemma_key_position(keys: Seq<LinkKeyEntry>, addr: [u8; 6], i: int)
    requires
        is_first_key(keys, addr, i),
    ensures
        key_position(keys, addr) == Some(i),
{
    let j = key_position(keys, addr)->0;
    assert(is_first_key(keys, addr, j));
    if j < i {
        assert(keys[j].addr != addr);
    } else if i < j {
        assert(keys[i].addr != addr);
    }
}

/// In-memory link key store for Classic devices, backed by flash persistence.
/// Populated from flash at startup; new keys are persisted after a connection.
pub struct MemoryLinkKeyStore {
    keys: heapless::Vec<LinkKeyEntry, MAX_LINK_KEYS>,
}

impl MemoryLinkKeyStore {
    /// The entries, in order.
    pub closed spec fn view(&self) -> Seq<LinkKeyEntry> {
        stored_keys(self.keys)
    }

    /// An empty store.
    pub fn new() -> (r: Self)
        ensures
            r@ == Seq::<LinkKeyEntry>::empty(),
    {
        MemoryLinkKeyStore { keys: keys_new() }
    }

    /// How many keys the store holds.
    pub fn len(&self) -> (r: usize)
        ensures
            r == self@.len() <= MAX_LINK_KEYS,
    {
        keys_as_slice(&self.keys).len()
    }

    /// The place of a device's key in the store.
    fn find(&self, addr: &[u8; 6]) -> (r: Option<usize>)
        ensures
            match r {
                Some(i) => key_position(self@, *addr) == Some(i as int) && i < self@.len(),
                None => key_position(self@, *addr) is None,
            },
            self@.len() <= MAX_LINK_KEYS,
    {
        let keys = keys_as_slice(&self.keys);
        let mut i: usize = 0;
        while i < keys.len()
            invariant
                i <= keys@.len(),
                keys@ == self@,
                self@.len() <= MAX_LINK_KEYS,
                forall|k: int| 0 <= k < i ==> (#[trigger] self@[k]).addr != *addr,
            decreases keys@.len() - i,
        {
            if same_address(&keys[i].addr, addr) {
                proof {
                    lemma_key_position(self@, *addr, i as int);
                }
                return Some(i);
            }
            i = i + 1;
        }
        None
    }

    /// Populate from loaded flash bonds.
    pub fn load_from_flash(&mut self, bonds: &[StoredClassicBond])
        ensures
            final(self)@.len() <= MAX_LINK_KEYS,
            final(self)@ == with_bonds(old(self)@, bonds@),
    {
        // The store never holds more keys than there is room for.
        let _ = self.len();
        let mut i: usize = 0;
        assert(self@ == with_bonds(old(self)@, bonds@.take(0)));
        while i < bonds.len()
            invariant
                i <= bonds@.len(),
                old(self)@.len() <= MAX_LINK_KEYS,
                self@ == with_bonds(old(self)@, bonds@.take(i as int)),
            decreases bonds@.len() - i,
        {
            let bond: StoredClassicBond = bonds[i];
            let info = LinkKeyInfo { key: bond.link_key, key_type: bond.key_type };
            let _ = keys_push(&mut self.keys, LinkKeyEntry { addr: bond.addr, info });
            i = i + 1;
            assert(self@ == with_bonds(old(self)@, bonds@.take(i as int)));
        }
        assert(bonds@.take(i as int) == bonds@);
    }

    /// The link key of a device.
    pub fn load(&self, addr: &[u8; 6]) -> (r: Option<LinkKeyInfo>)
        ensures
            r == link_key(self@, *addr),
    {
        match self.find(addr) {
            Some(i) => Some(keys_as_slice(&self.keys)[i].info),
            None => None,
        }
    }

    /// Remember a device's link key: update its entry, or add a new one as long
    /// as there is room.
    pub fn store(&mut self, addr: &[u8; 6], key: LinkKeyInfo)
        ensures
            final(self)@.len() <= MAX_LINK_KEYS,
            final(self)@ == with_key(old(self)@, *addr, key),
    {
        match self.find(addr) {
            Some(i) => {
                let keys = keys_as_mut_slice(&mut self.keys);
                keys[i] = LinkKeyEntry { addr: *addr, info: key };
            },
            None => {
                let _ = keys_push(&mut self.keys, LinkKeyEntry { addr: *addr, info: key });
            },
        }
    }

    /// Forget a device's link key.
    pub fn remove(&mut self, addr: &[u8; 6])
        ensures
            final(self)@.len() <= MAX_LINK_KEYS,
            final(self)@ == without_key(old(self)@, *addr),
    {
        if let Some(i) = self.find(addr) {
            let _ = keys_swap_remove(&mut self.keys, i);
        }
    }
}

proof fn lemma_first_key_exists(keys: Seq<LinkKeyEntry>, addr: [u8; 6], k: int)
    requires
        0 <= k < keys.len(),
        keys[k].addr == addr,
    ensures
        key_position(keys, addr) is Some,
    decreases k,
{
    if exists|j: int| 0 <= j < k && (#[trigger] keys[j]).addr == addr {
        let j = choose|j: int| 0 <= j < k && (#[trigger] keys[j]).addr == addr;
        lemma_first_key_exists(keys, addr, j);
    } else {
        assert(is_first_key(keys, addr, k));
    }
}

proof fn lemma_no_key(keys: Seq<LinkKeyEntry>, addr: [u8; 6])
    requires
        key_position(keys, addr) is None,
    ensures
        forall|k: int| 0 <= k < keys.len() ==> (#[trigger] keys[k]).addr != addr,
{
    assert forall|k: int| 0 <= k < keys.len() implies (#[trigger] keys[k]).addr != addr by {
        if keys[k].addr == addr {
            lemma_first_key_exists(keys, addr, k);
        }
    }
}

/// A stored key is the one that is loaded afterwards, unless the device is new
/// and the store is full: then nothing changes.
pub proof fn law_stored_key_is_loaded(keys: Seq<LinkKeyEntry>, addr: [u8; 6], info: LinkKeyInfo)
    ensures
        link_key(keys, addr) is Some || keys.len() < MAX_LINK_KEYS ==> link_key(
            with_key(keys, addr, info),
            addr,
        ) == Some(info),
        link_key(keys, addr) is None && keys.len() >= MAX_LINK_KEYS ==> with_key(keys, addr, info)
            == keys,
{
    let after = with_key(keys, addr, info);
    match key_position(keys, addr) {
        Some(i) => {
            assert(is_first_key(keys, addr, i));
            assert(is_first_key(after, addr, i));
            lemma_key_position(after, addr, i);
        },
        None => if keys.len() < MAX_LINK_KEYS {
            lemma_no_key(keys, addr);
            assert(is_first_key(after, addr, keys.len() as int));
            lemma_key_position(after, addr, keys.len() as int);
        },
    }
}

/// Storing one device's key leaves every other device's key.
pub proof fn law_storing_keeps_other_keys(
    keys: Seq<LinkKeyEntry>,
    addr: [u8; 6],
    info: LinkKeyInfo,
    other: [u8; 6],
)
    requires
        other != addr,
    ensures
        link_key(with_key(keys, addr, info), other) == link_key(keys, other),
{
    let after = with_key(keys, addr, info);
    if key_position(keys, addr) is Some {
        assert(is_first_key(keys, addr, key_position(keys, addr)->0));
    }
    if key_position(keys, other) is Some {
        let i = key_position(keys, other)->0;
        assert(is_first_key(keys, other, i));
        assert(is_first_key(after, other, i));
        lemma_key_position(after, other, i);
    } else {
        lemma_no_key(keys, other);
        if key_position(after, other) is Some {
            assert(is_first_key(after, other, key_position(after, other)->0));
        }
    }
}

/// Storing and forgetting keys never gives a device a second key.
pub proof fn law_one_key_per_device_is_kept(
    keys: Seq<LinkKeyEntry>,
    addr: [u8; 6],
    info: LinkKeyInfo,
)
    requires
        one_key_per_device(keys),
    ensures
        one_key_per_device(with_key(keys, addr, info)),
        one_key_per_device(without_key(keys, addr)),
{
    match key_position(keys, addr) {
        Some(i) => {
            assert(is_first_key(keys, addr, i));
        },
        None => {
            lemma_no_key(keys, addr);
        },
    }
}

/// The device has one entry at most.
pub open spec fn single_key(keys: Seq<LinkKeyEntry>, addr: [u8; 6]) -> bool {
    forall|i: int, j: int|
        0 <= i < j < keys.len() ==> (#[trigger] keys[i]).addr != addr || (#[trigger] keys[j]).addr
            != addr
}

proof fn lemma_single_key(keys: Seq<LinkKeyEntry>, addr: [u8; 6], i: int)
    requires
        single_key(keys, addr),
        0 <= i < keys.len(),
        keys[i].addr == addr,
    ensures
        key_position(keys, addr) == Some(i),
{
    assert(is_first_key(keys, addr, i)) by {
        assert forall|k: int| 0 <= k < i implies (#[trigger] keys[k]).addr != addr by {
            assert(keys[i].addr == addr);
        }
    }
    lemma_key_position(keys, addr, i);
}

/// A device with one key has none any more once it is forgotten, and every other
/// device with one key keeps it.
pub proof fn law_forgotten_key_is_gone(keys: Seq<LinkKeyEntry>, addr: [u8; 6], other: [u8; 6])
    requires
        other != addr,
    ensures
        single_key(keys, addr) ==> link_key(without_key(keys, addr), addr) is None,
        single_key(keys, other) ==> link_key(without_key(keys, addr), other) == link_key(
            keys,
            other,
        ),
{
    let after = without_key(keys, addr);
    if key_position(keys, addr) is Some {
        let gone = key_position(keys, addr)->0;
        let last = keys.len() - 1;
        assert(is_first_key(keys, addr, gone));
        assert(forall|k: int|
            0 <= k < after.len() ==> #[trigger] after[k] == (if k == gone {
                keys[last]
            } else {
                keys[k]
            }));
        if single_key(keys, addr) && key_position(after, addr) is Some {
            let j = key_position(after, addr)->0;
            assert(is_first_key(after, addr, j));
            let there = if j == gone {
                last
            } else {
                j
            };
            assert(keys[there].addr == addr && keys[gone].addr == addr);
        }
        if single_key(keys, other) {
            if key_position(keys, other) is Some {
                let i = key_position(keys, other)->0;
                assert(is_first_key(keys, other, i));
                let there = if i == last {
                    gone
                } else {
                    i
                };
                assert(after[there] == keys[i]);
                assert forall|a: int, b: int| 0 <= a < b < after.len() implies (#[trigger] after[a]).addr
                    != other || (#[trigger] after[b]).addr != other by {
                    assert(keys[a].addr != other || keys[b].addr != other);
                    assert(keys[a].addr != other || keys[last].addr != other);
                    assert(keys[b].addr != other || keys[last].addr != other);
                }
                lemma_single_key(after, other, there);
            } else {
                lemma_no_key(keys, other);
                if key_position(after, other) is Some {
                    assert(is_first_key(after, other, key_position(after, other)->0));
                }
            }
        }
    }
}

/// Every bond that fits is restored: after loading bonds into an empty store,
/// each device has the key of its first bond, up to the number of keys there is
/// room for. Bonds of distinct devices give each of them one key.
pub proof fn law_bonds_restore_keys(bonds: Seq<StoredClassicBond>, n: int)
    requires
        0 <= n < bonds.len(),
        n < MAX_LINK_KEYS,
        forall|k: int| 0 <= k < n ==> (#[trigger] bonds[k]).addr != bonds[n].addr,
    ensures
        link_key(with_bonds(Seq::empty(), bonds), bonds[n].addr) == Some(
            LinkKeyInfo { key: bonds[n].link_key, key_type: bonds[n].key_type },
        ),
        (forall|i: int, j: int|
            0 <= i < j < bonds.len() ==> (#[trigger] bonds[i]).addr != (#[trigger] bonds[j]).addr)
            ==> one_key_per_device(with_bonds(Seq::empty(), bonds)),
{
    let keys = with_bonds(Seq::empty(), bonds);
    assert(forall|i: int| 0 <= i < keys.len() ==> #[trigger] keys[i] == bond_entry(bonds[i]));
    assert(is_first_key(keys, bonds[n].addr, n));
    lemma_key_position(keys, bonds[n].addr, n);
}

/// Loading gives the key of the first entry with the address, and nothing if
/// there is none.
pub proof fn law_first_entry_is_loaded(keys: Seq<LinkKeyEntry>, addr: [u8; 6], i: int)
    ensures
        0 <= i < keys.len() && keys[i].addr == addr && (forall|k: int|
            0 <= k < i ==> (#[trigger] keys[k]).addr != addr) ==> link_key(keys, addr) == Some(
            keys[i].info,
        ),
        (forall|k: int| 0 <= k < keys.len() ==> (#[trigger] keys[k]).addr != addr) ==> link_key(
            keys,
            addr,
        ) is None,
{
    if is_first_key(keys, addr, i) {
        lemma_key_position(keys, addr, i);
    }
    if key_position(keys, addr) is Some {
        assert(is_first_key(keys, addr, key_position(keys, addr)->0));
    }
}

/// Storing a key of a device that has an entry changes the first such entry and no
/// other. A device without one gets an entry at the end, behind all others, while
/// there are fewer than ten; then nothing changes.
pub proof fn law_storing_changes_one_entry(
    keys: Seq<LinkKeyEntry>,
    addr: [u8; 6],
    info: LinkKeyInfo,
    i: int,
)
    ensures
        ({
            let after = with_key(keys, addr, info);
            &&& 0 <= i < keys.len() && keys[i].addr == addr && (forall|k: int|
                0 <= k < i ==> (#[trigger] keys[k]).addr != addr) ==> {
                &&& after.len() == keys.len()
                &&& after[i].addr == addr
                &&& after[i].info == info
                &&& forall|k: int| 0 <= k < keys.len() && k != i ==> #[trigger] after[k] == keys[k]
            }
            &&& (forall|k: int| 0 <= k < keys.len() ==> (#[trigger] keys[k]).addr != addr) ==> {
                &&& keys.len() < 10 ==> after.len() == keys.len() + 1
                &&& keys.len() < 10 ==> after.last().addr == addr && after.last().info == info
                &&& keys.len() < 10 ==> forall|k: int|
                    0 <= k < keys.len() ==> #[trigger] after[k] == keys[k]
                &&& keys.len() >= 10 ==> after == keys
            }
        }),
{
    if is_first_key(keys, addr, i) {
        lemma_key_position(keys, addr, i);
    }
    if key_position(keys, addr) is Some {
        assert(is_first_key(keys, addr, key_position(keys, addr)->0));
    }
}

/// Forgetting a device takes out its first entry and no other: the last entry
/// comes to stand in its place, and the rest stay where they are. Without an entry
/// nothing changes.
pub proof fn law_forgetting_takes_out_one_entry(keys: Seq<LinkKeyEntry>, addr: [u8; 6], i: int)
    ensures
        ({
            let after = without_key(keys, addr);
            &&& 0 <= i < keys.len() && keys[i].addr == addr && (forall|k: int|
                0 <= k < i ==> (#[trigger] keys[k]).addr != addr) ==> {
                &&& after.len() == keys.len() - 1
                &&& i < after.len() ==> after[i] == keys[keys.len() - 1]
                &&& forall|k: int| 0 <= k < after.len() && k != i ==> #[trigger] after[k] == keys[k]
            }
            &&& (forall|k: int| 0 <= k < keys.len() ==> (#[trigger] keys[k]).addr != addr) ==> after
                == keys
        }),
{
    if is_first_key(keys, addr, i) {
        lemma_key_position(keys, addr, i);
    }
    if key_position(keys, addr) is Some {
        assert(is_first_key(keys, addr, key_position(keys, addr)->0));
    }
}

/// Loading bonds keeps every entry in its place and adds one for each bond behind
/// them, in the order of the bonds and with the bond's address, key and key type,
/// whatever else the bond holds, until there are ten.
pub proof fn law_bonds_are_added_in_order(keys: Seq<LinkKeyEntry>, bonds: Seq<StoredClassicBond>)
    requires
        keys.len() <= 10,
    ensures
        ({
            let after = with_bonds(keys, bonds);
            &&& keys.len() + bonds.len() <= 10 ==> after.len() == keys.len() + bonds.len()
            &&& keys.len() + bonds.len() > 10 ==> after.len() == 10
            &&& forall|k: int| 0 <= k < keys.len() ==> #[trigger] after[k] == keys[k]
            &&& forall|k: int|
                keys.len() <= k < after.len() ==> {
                    &&& (#[trigger] after[k]).addr == bonds[k - keys.len()].addr
                    &&& after[k].info.key == bonds[k - keys.len()].link_key
                    &&& after[k].info.key_type == bonds[k - keys.len()].key_type
                }
        }),
{
}

} // verus!
