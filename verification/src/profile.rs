//! Device profiles: how a Classic device is driven once it is connected.
//!
//! The profile comes from the stored bond when there is one, and otherwise from
//! the Class of Device seen during Inquiry, so a keyboard works from its first
//! connection without being told what it is.

use crate::bytes::same_address;
use crate::classic::{cod_is_keyboard, is_keyboard, law_kinds_by_bytes};
use crate::link_keys::StoredClassicBond;
use crate::scan_cache::{
    known_cod, law_lookup_of_a_stranger_gives_nothing, law_lookup_reads_the_first_entry,
    CachedDevice, ScanCache,
};
use vstd::prelude::*;

verus! {

/// How a device is driven.
#[derive(Debug, Clone, Copy, PartialEq, Eq, Structural)]
pub enum DeviceProfile {
    /// A keyboard, driven by boot reports.
    Keyboard,
    /// The Magic Trackpad 2.
    MagicTrackpad,
    /// Any other entry of the profile table: its number there, and whether the
    /// table lists it as a keyboard.
    Other { id: u8, keyboard: bool },
}

impl DeviceProfile {
    /// Whether the profile drives a keyboard.
    pub open spec fn for_keyboard(self) -> bool {
        match self {
            DeviceProfile::Keyboard => true,
            DeviceProfile::MagicTrackpad => false,
            DeviceProfile::Other { id, keyboard } => keyboard,
        }
    }

    /// Whether the profile drives a keyboard.
    pub fn is_keyboard(&self) -> (r: bool)
        ensures
            r == self.for_keyboard(),
    {
        match self {
            DeviceProfile::Keyboard => true,
            DeviceProfile::MagicTrackpad => false,
            DeviceProfile::Other { id: _, keyboard } => *keyboard,
        }
    }
}

/// A request to a connected device on its HID control channel.
#[derive(Debug, Clone, Copy, PartialEq, Eq)]
pub enum HidRequest {
    /// SET_PROTOCOL(Boot).
    SetProtocolBoot,
    /// SET_REPORT of a Feature report.
    SetFeatureReport { report_id: u8, data: [u8; 2] },
    /// GET_REPORT of an Input report.
    GetInputReport { report_id: u8 },
}

/// Feature report that switches the Magic Trackpad 2 to multitouch.
pub const MULTITOUCH_REPORT_ID: u8 = 0xF1;

/// Input report of the Magic Trackpad 2 that holds its battery state.
pub const BATTERY_REPORT_ID: u8 = 0x90;

/// The request for the battery state of a Magic Trackpad 2.
pub open spec fn battery_request() -> HidRequest {
    HidRequest::GetInputReport { report_id: BATTERY_REPORT_ID }
}

/// The requests that set a device up for its profile, in order.
///
/// Boot protocol gives the fixed 8-byte report that the USB boot keyboard
/// interface sends verbatim, with no report descriptor to parse. Everything
/// else gets the multitouch switch of the Magic Trackpad 2 and a first battery
/// probe.
pub open spec fn setup_requests(profile: DeviceProfile) -> Seq<HidRequest> {
    if profile.for_keyboard() {
        seq![HidRequest::SetProtocolBoot]
    } else {
        seq![
            HidRequest::SetFeatureReport {
                report_id: MULTITOUCH_REPORT_ID,
                data: [0x02u8, 0x01u8],
            },
            battery_request(),
        ]
    }
}

/// The requests that set a device up for its profile, in order.
pub fn profile_setup(profile: DeviceProfile) -> (r: Vec<HidRequest>)
    ensures
        r@ == setup_requests(profile),
{
    let mut requests: Vec<HidRequest> = Vec::new();
    if profile.is_keyboard() {
        requests.push(HidRequest::SetProtocolBoot);
    } else {
        requests.push(
            HidRequest::SetFeatureReport { report_id: MULTITOUCH_REPORT_ID, data: [0x02, 0x01] },
        );
        requests.push(HidRequest::GetInputReport { report_id: BATTERY_REPORT_ID });
    }
    requests
}

/// The profile of a device of which only an Inquiry result is known.
pub open spec fn inquired_profile(devices: Seq<CachedDevice>, addr: [u8; 6]) -> DeviceProfile {
    match known_cod(devices, addr) {
        Some(cod) if is_keyboard(cod@) => DeviceProfile::Keyboard,
        _ => DeviceProfile::MagicTrackpad,
    }
}

/// Pick the profile to drive a Classic device with, for a device that has no
/// stored bond yet.
///
/// The Class of Device from Inquiry is the only thing we know before
/// connecting, and it cleanly separates keyboards from pointing devices.
/// Anything else gets the default: the Magic Trackpad 2 is the Classic device
/// this bridge was built around.
pub fn profile_from_inquiry(cache: &ScanCache, addr: &[u8; 6]) -> (r: DeviceProfile)
    ensures
        r == inquired_profile(cache@, *addr),
{
    match cache.lookup_scan_cod(addr) {
        Some(cod) => if cod_is_keyboard(&cod) {
            DeviceProfile::Keyboard
        } else {
            DeviceProfile::MagicTrackpad
        },
        None => DeviceProfile::MagicTrackpad,
    }
}

/// The first bond of a device.
pub open spec fn bond_of(bonds: Seq<StoredClassicBond>, addr: [u8; 6]) -> Option<StoredClassicBond>
    decreases bonds.len(),
{
    if bonds.len() == 0 {
        None
    } else if bonds[0].addr == addr {
        Some(bonds[0])
    } else {
        bond_of(bonds.skip(1), addr)
    }
}

/// The first bond to connect to without being asked.
pub open spec fn auto_bond(bonds: Seq<StoredClassicBond>) -> Option<StoredClassicBond>
    decreases bonds.len(),
{
    if bonds.len() == 0 {
        None
    } else if bonds[0].auto_connect {
        Some(bonds[0])
    } else {
        auto_bond(bonds.skip(1))
    }
}

/// The profile to drive a device with: that of its bond, since the user may have
/// set it by hand, and with no bond yet what Inquiry said the device was.
pub open spec fn session_profile(
    bonds: Seq<StoredClassicBond>,
    devices: Seq<CachedDevice>,
    addr: [u8; 6],
) -> DeviceProfile {
    match bond_of(bonds, addr) {
        Some(bond) => bond.profile,
        None => inquired_profile(devices, addr),
    }
}

/// The address of the first bond to connect to without being asked.
pub fn auto_connect_target(bonds: &[StoredClassicBond]) -> (r: Option<[u8; 6]>)
    ensures
        r == (match auto_bond(bonds@) {
            Some(bond) => Some(bond.addr),
            None => None,
        }),
{
    let mut i: usize = 0;
    assert(bonds@.skip(0) == bonds@);
    while i < bonds.len()
        invariant
            i <= bonds@.len(),
            auto_bond(bonds@.skip(i as int)) == auto_bond(bonds@),
        decreases bonds@.len() - i,
    {
        assert(bonds@.skip(i as int).skip(1) == bonds@.skip(i + 1));
        if bonds[i].auto_connect {
            return Some(bonds[i].addr);
        }
        i = i + 1;
    }
    None
}

/// The profile to drive a device with.
pub fn choose_profile(bonds: &[StoredClassicBond], cache: &ScanCache, addr: &[u8; 6]) -> (r:
    DeviceProfile)
    ensures
        r == session_profile(bonds@, cache@, *addr),
{
    let mut i: usize = 0;
    assert(bonds@.skip(0) == bonds@);
    while i < bonds.len()
        invariant
            i <= bonds@.len(),
            bond_of(bonds@.skip(i as int), *addr) == bond_of(bonds@, *addr),
        decreases bonds@.len() - i,
    {
        assert(bonds@.skip(i as int).skip(1) == bonds@.skip(i + 1));
        if same_address(&bonds[i].addr, addr) {
            return bonds[i].profile;
        }
        i = i + 1;
    }
    profile_from_inquiry(cache, addr)
}

/// A keyboard is never asked for a battery state, and is asked for boot protocol;
/// no other device is.
pub proof fn law_setup_matches_the_profile(profile: DeviceProfile)
    ensures
        setup_requests(profile).contains(HidRequest::SetProtocolBoot) <==> profile.for_keyboard(),
        setup_requests(profile).contains(battery_request()) <==> !profile.for_keyboard(),
{
    let requests = setup_requests(profile);
    if profile.for_keyboard() {
        assert(requests[0] == HidRequest::SetProtocolBoot);
    } else {
        assert(requests[1] == battery_request());
    }
}

/// The keyboard profile drives keyboards, that of the Magic Trackpad does not, and
/// of any other profile its own entry says so.
pub proof fn law_which_profiles_drive_keyboards(id: u8, keyboard: bool)
    ensures
        DeviceProfile::Keyboard.for_keyboard(),
        !DeviceProfile::MagicTrackpad.for_keyboard(),
        (DeviceProfile::Other { id, keyboard }).for_keyboard() == keyboard,
{
}

/// A device driven as a keyboard is asked for boot protocol and nothing else. Any
/// other one is told, in this order, to switch to multitouch by feature report
/// 0xF1 with the bytes 2 and 1, and to send input report 0x90.
pub proof fn law_setup_by_profile(profile: DeviceProfile)
    ensures
        profile.for_keyboard() ==> setup_requests(profile).len() == 1 && setup_requests(
            profile,
        )[0] is SetProtocolBoot,
        !profile.for_keyboard() ==> {
            let requests = setup_requests(profile);
            &&& requests.len() == 2
            &&& requests[0] matches HidRequest::SetFeatureReport { report_id, data } && report_id
                == 0xF1 && data@ == seq![0x02u8, 0x01u8]
            &&& requests[1] matches HidRequest::GetInputReport { report_id } && report_id == 0x90
        },
{
}

/// The first bond with a device's address is its bond, whatever else it holds, and
/// decides on the profile: neither later bonds nor Inquiry do.
pub proof fn law_first_bond_of_the_device_decides(
    bonds: Seq<StoredClassicBond>,
    devices: Seq<CachedDevice>,
    addr: [u8; 6],
    i: int,
)
    requires
        0 <= i < bonds.len(),
        bonds[i].addr == addr,
        forall|k: int| 0 <= k < i ==> (#[trigger] bonds[k]).addr != addr,
    ensures
        bond_of(bonds, addr) == Some(bonds[i]),
        session_profile(bonds, devices, addr) == bonds[i].profile,
    decreases i,
{
    if i > 0 {
        assert(bonds[0].addr != addr);
        assert forall|k: int| 0 <= k < i - 1 implies (#[trigger] bonds.skip(1)[k]).addr != addr by {
            assert(bonds[k + 1].addr != addr);
        }
        law_first_bond_of_the_device_decides(bonds.skip(1), devices, addr, i - 1);
    }
}

proof fn lemma_no_bond(bonds: Seq<StoredClassicBond>, addr: [u8; 6])
    requires
        forall|k: int| 0 <= k < bonds.len() ==> (#[trigger] bonds[k]).addr != addr,
    ensures
        bond_of(bonds, addr) is None,
    decreases bonds.len(),
{
    if bonds.len() > 0 {
        assert forall|k: int| 0 <= k < bonds.len() - 1 implies (#[trigger] bonds.skip(1)[k]).addr
            != addr by {
            assert(bonds[k + 1].addr != addr);
        }
        lemma_no_bond(bonds.skip(1), addr);
    }
}

/// Without a bond Inquiry decides: the first cache entry with the address makes it
/// a keyboard if its Class of Device is a Peripheral one with the keyboard bit set;
/// anything else, and no entry at all, is taken for the Magic Trackpad.
pub proof fn law_inquiry_decides_without_a_bond(
    bonds: Seq<StoredClassicBond>,
    devices: Seq<CachedDevice>,
    addr: [u8; 6],
    j: int,
)
    requires
        forall|k: int| 0 <= k < bonds.len() ==> (#[trigger] bonds[k]).addr != addr,
    ensures
        bond_of(bonds, addr) is None,
        session_profile(bonds, devices, addr) is Keyboard || session_profile(
            bonds,
            devices,
            addr,
        ) is MagicTrackpad,
        0 <= j < devices.len() && devices[j].addr == addr && (forall|k: int|
            0 <= k < j ==> (#[trigger] devices[k]).addr != addr) ==> (session_profile(
            bonds,
            devices,
            addr,
        ) is Keyboard <==> (devices[j].cod matches Some(cod) && cod@[1] % 32 == 5 && (64 <= cod@[0]
            < 128 || cod@[0] >= 192))),
        (forall|k: int| 0 <= k < devices.len() ==> (#[trigger] devices[k]).addr != addr)
            ==> session_profile(bonds, devices, addr) is MagicTrackpad,
{
    lemma_no_bond(bonds, addr);
    if 0 <= j < devices.len() && devices[j].addr == addr && (forall|k: int|
        0 <= k < j ==> (#[trigger] devices[k]).addr != addr) {
        law_lookup_reads_the_first_entry(devices, addr, j);
        if devices[j].cod is Some {
            law_kinds_by_bytes(devices[j].cod->0@);
        }
    }
    if forall|k: int| 0 <= k < devices.len() ==> (#[trigger] devices[k]).addr != addr {
        law_lookup_of_a_stranger_gives_nothing(devices, addr);
    }
}

/// The device to connect to without being asked is that of the first bond marked
/// so, whatever else the bond holds; without such a bond there is none.
pub proof fn law_first_marked_bond_is_connected_to(bonds: Seq<StoredClassicBond>, i: int)
    ensures
        0 <= i < bonds.len() && bonds[i].auto_connect && (forall|k: int|
            0 <= k < i ==> !(#[trigger] bonds[k]).auto_connect) ==> auto_bond(bonds) == Some(
            bonds[i],
        ),
        (forall|k: int| 0 <= k < bonds.len() ==> !(#[trigger] bonds[k]).auto_connect) <==> auto_bond(
            bonds,
        ) is None,
    decreases bonds.len(),
{
    if bonds.len() > 0 {
        law_first_marked_bond_is_connected_to(bonds.skip(1), i - 1);
        assert(forall|k: int| 0 <= k < bonds.len() - 1 ==> #[trigger] bonds.skip(1)[k] == bonds[k + 1]);
        assert(forall|k: int| 1 <= k < bonds.len() ==> #[trigger] bonds[k] == bonds.skip(1)[k - 1]);
    }
}

} // verus!
