//! What each step of the Classic Bluetooth task does, by its values: for every
//! phase and every event that the task waits for in it, the phase that follows,
//! what is done at once, and what becomes of the link keys, the scanned devices and
//! the counts.

use crate::bytes::law_zeros_are_zero;
use crate::inquiry::{
    law_extended_result_by_bytes, law_rssi_results_by_bytes, law_standard_results_by_bytes,
    FoundDevice,
};
use crate::link_keys::{
    law_first_entry_is_loaded, link_key, with_bonds, without_key, LinkKeyInfo, MemoryLinkKeyStore,
    StoredClassicBond,
};
use crate::profile::{
    auto_bond, law_first_bond_of_the_device_decides, law_first_marked_bond_is_connected_to,
    law_setup_by_profile, session_profile, setup_requests, DeviceProfile, HidRequest,
};
use crate::reports::{
    acl_header_of, law_acl_header_by_bytes, law_key_reports_by_bytes,
    law_trackpad_reports_by_bytes, touch_bytes, AclHeader, HidReportType, ReportHeader,
    RX_BUFFER_LEN,
};
use crate::scan_cache::{
    known_name, law_lookup_reads_the_first_entry, recorded, CachedDevice, ScanCache,
};
use crate::task::ClassicTask;
use crate::task_laws::{after, done};
use crate::task_rules::{all_noted, found_devices, next, pending_in, World};
use crate::task_types::{
    ClassicCommand, ConnectionState, Effect, Event, HciEventKind, Link, Notice, Pending, Phase,
    TaskState,
};
use vstd::prelude::*;

verus! {

/// The same world in another phase.
pub open spec fn moved(world: World, phase: Phase) -> World {
    World { state: TaskState { phase, ..world.state }, ..world }
}

/// The delays: 300 ms before anything is sent, 10 ms after a read error while
/// scanning or setting up and 1 ms in a session, 5 s between two attempts to
/// connect, and before the next connection as long as its phase says.
pub proof fn law_delays_by_values(phase: Phase)
    ensures
        phase is Settling ==> pending_in(phase) == (Pending::Delay { millis: 300 }),
        phase is InquiryPause ==> pending_in(phase) == (Pending::Delay { millis: 10 }),
        phase is SetupPause ==> pending_in(phase) == (Pending::Delay { millis: 10 }),
        phase is SessionPause ==> pending_in(phase) == (Pending::Delay { millis: 1 }),
        phase is RetryPause ==> pending_in(phase) == (Pending::Delay { millis: 5_000 }),
        phase matches Phase::RestartPause { millis } ==> pending_in(phase) == (Pending::Delay {
            millis,
        }),
{
}

/// What is waited for outside a session: the bonds before keys are loaded, a target
/// is sought and a profile is chosen; a command while idle; a general Inquiry of
/// 23 units without a limit on responses; the connection to the very target.
pub proof fn law_waits_before_a_session(phase: Phase)
    ensures
        phase is LoadingKeys || phase is ResolvingTarget || phase is ChoosingProfile
            ==> pending_in(phase) is LoadBonds,
        phase is AwaitingCommand ==> pending_in(phase) is ReceiveCommand,
        phase is StartingInquiry ==> (pending_in(phase) matches Pending::StartInquiry {
            lap,
            length,
            responses,
        } && lap@ == seq![0x33u8, 0x8Bu8, 0x9Eu8] && length == 23 && responses == 0),
        phase is Inquiring ==> pending_in(phase) is InquiryInput,
        phase matches Phase::Connecting { target, attempt } ==> pending_in(phase) == (
        Pending::Connect { address: target }),
        phase matches Phase::PersistingBond { link, key, name, name_len } ==> pending_in(phase) == (
        Pending::PersistBond {
            address: link.target,
            key,
            profile: link.profile,
            auto_connect: true,
            name,
            name_len,
        }),
        phase matches Phase::OpeningChannels { link } ==> pending_in(phase) == (
        Pending::OpenChannels { handle: link.handle }),
        phase is PollingChannels ==> pending_in(phase) is PollChannels,
        phase is ReadingSetup ==> pending_in(phase) is ReadPacket,
        phase matches Phase::ProcessingSetup { link, reads, acl } ==> pending_in(phase) == (
        Pending::ProcessSetupAcl { acl }),
{
}

/// What is waited for in a session. A key report is offered to the keyboard
/// interface as it is, at once first and then for 20 ms.
pub proof fn law_waits_in_a_session(phase: Phase)
    ensures
        ({
            let header = ReportHeader {
                report_type: HidReportType::Keyboard,
                profile: DeviceProfile::Keyboard,
                slot_index: 3,
                report_id: 0,
                len: 8,
            };
            &&& phase is InSession ==> pending_in(phase) is SessionInput
            &&& phase matches Phase::ProcessingReport { link, acl } ==> pending_in(phase) == (
            Pending::ProcessReportAcl { acl })
            &&& phase matches Phase::SendingKeys { link, report } ==> pending_in(phase) == (
            Pending::TrySendKeys { header, report })
            &&& phase matches Phase::AwaitingKeyRoom { link, report } ==> pending_in(phase) == (
            Pending::SendKeys { header, report, millis: 20 })
        }),
{
}

/// At power-up, once the BLE host has settled: the event mask, Simple Pairing Mode
/// 1 and Inquiry Mode 2 are sent, then the BLE connection manager is released; the
/// keys are loaded next.
pub proof fn law_startup_by_values(world: World)
    requires
        world.state.phase is Settling,
    ensures
        next(world, Event::Elapsed) == Some(
            (
                moved(world, Phase::LoadingKeys),
                seq![
                    Effect::SetEventMask,
                    Effect::WriteSimplePairingMode { mode: 1 },
                    Effect::WriteInquiryMode { mode: 2 },
                    Effect::SignalInitDone,
                ],
            ),
        ),
{
}

/// Loaded keys are those of the bonds, behind those already there; then the host is
/// reset and a target sought.
pub proof fn law_keys_are_loaded_from_bonds(world: World, bonds: &[StoredClassicBond])
    requires
        world.state.phase is LoadingKeys,
    ensures
        next(world, Event::BondsLoaded(bonds)) == Some(
            (
                World {
                    keys: with_bonds(world.keys, bonds@),
                    ..moved(world, Phase::ResolvingTarget)
                },
                seq![Effect::ResetHost],
            ),
        ),
{
}

/// When the bonds are read to find a target, the task goes on to connect to the
/// device of the first bond marked for that, whatever else the bond holds, and
/// waits for a command exactly if no bond is marked.
pub proof fn law_marked_bond_is_connected_to(world: World, bonds: &[StoredClassicBond], i: int)
    requires
        world.state.phase is ResolvingTarget,
    ensures
        0 <= i < bonds@.len() && bonds@[i].auto_connect && (forall|k: int|
            0 <= k < i ==> !(#[trigger] bonds@[k]).auto_connect) ==> next(
            world,
            Event::BondsLoaded(bonds),
        ) == Some(
            (
                moved(world, Phase::Connecting { target: bonds@[i].addr, attempt: 1 }),
                seq![Effect::NotifyState(ConnectionState::Connecting)],
            ),
        ),
        (forall|k: int| 0 <= k < bonds@.len() ==> !(#[trigger] bonds@[k]).auto_connect) ==> next(
            world,
            Event::BondsLoaded(bonds),
        ) == Some((moved(world, Phase::AwaitingCommand), Seq::<Effect<'_>>::empty())),
        after(world, Event::BondsLoaded(bonds)).state.phase is AwaitingCommand <==> (forall|k: int|
            0 <= k < bonds@.len() ==> !(#[trigger] bonds@[k]).auto_connect),
{
    law_first_marked_bond_is_connected_to(bonds@, i);
    if auto_bond(bonds@) is Some {
        assert(!(forall|k: int| 0 <= k < bonds@.len() ==> !(#[trigger] bonds@[k]).auto_connect));
    }
}

/// What each command does while nothing is connected.
pub proof fn law_idle_commands_by_values(world: World, address: [u8; 6], profile: DeviceProfile)
    requires
        world.state.phase is AwaitingCommand,
    ensures
        next(world, Event::Command(ClassicCommand::Connect { address })) == Some(
            (
                moved(world, Phase::Connecting { target: address, attempt: 1 }),
                seq![Effect::NotifyState(ConnectionState::Connecting)],
            ),
        ),
        next(world, Event::Command(ClassicCommand::Scan)) == Some(
            (
                moved(world, Phase::StartingInquiry),
                seq![Effect::Announce(Notice::InquiryStarting)],
            ),
        ),
        next(world, Event::Command(ClassicCommand::ClearBond { address })) == Some(
            (
                World { keys: without_key(world.keys, address), ..world },
                Seq::<Effect<'_>>::empty(),
            ),
        ),
        next(world, Event::Command(ClassicCommand::ScanStop)) == Some(
            (world, Seq::<Effect<'_>>::empty()),
        ),
        next(world, Event::Command(ClassicCommand::Disconnect)) == Some(
            (world, Seq::<Effect<'_>>::empty()),
        ),
        next(world, Event::Command(ClassicCommand::UpdateProfile { address, profile })) == Some(
            (world, Seq::<Effect<'_>>::empty()),
        ),
{
}

/// An Inquiry that the controller accepts goes on, and one that it refuses is
/// announced as failed.
pub proof fn law_inquiry_start_by_values(world: World)
    requires
        world.state.phase is StartingInquiry,
    ensures
        next(world, Event::InquiryStarted(true)) == Some(
            (moved(world, Phase::Inquiring), Seq::<Effect<'_>>::empty()),
        ),
        next(world, Event::InquiryStarted(false)) == Some(
            (
                moved(world, Phase::AwaitingCommand),
                seq![Effect::Announce(Notice::InquiryFailed)],
            ),
        ),
{
}

/// What anything but an Inquiry result does during an Inquiry.
pub proof fn law_inquiry_inputs_by_values(
    world: World,
    command: ClassicCommand,
    data: &[u8],
    rx: &[u8; RX_BUFFER_LEN],
)
    ensures
        world.state.phase is Inquiring ==> {
            &&& next(world, Event::Command(ClassicCommand::ScanStop)) == Some(
                (
                    moved(world, Phase::AwaitingCommand),
                    seq![Effect::CancelInquiry, Effect::Announce(Notice::InquiryCancelled)],
                ),
            )
            &&& !(command is ScanStop) ==> next(world, Event::Command(command)) == Some(
                (world, seq![Effect::Requeue(command)]),
            )
            &&& next(world, Event::Hci { kind: HciEventKind::InquiryComplete, data }) == Some(
                (
                    moved(world, Phase::AwaitingCommand),
                    seq![Effect::Announce(Notice::InquiryComplete)],
                ),
            )
            &&& next(world, Event::Acl(rx)) == Some((world, Seq::<Effect<'_>>::empty()))
            &&& next(world, Event::OtherPacket) == Some((world, Seq::<Effect<'_>>::empty()))
            &&& next(world, Event::ReadFailed) == Some(
                (moved(world, Phase::InquiryPause), Seq::<Effect<'_>>::empty()),
            )
        },
        world.state.phase is InquiryPause ==> next(world, Event::Elapsed) == Some(
            (moved(world, Phase::Inquiring), Seq::<Effect<'_>>::empty()),
        ),
{
}

/// Events of other kinds show no device and change nothing during an Inquiry.
pub proof fn law_other_events_show_nothing(world: World, kind: HciEventKind, data: &[u8])
    requires
        world.state.phase is Inquiring,
        kind is Other || kind is DisconnectionComplete,
    ensures
        found_devices(kind, data@).len() == 0,
        next(world, Event::Hci { kind, data }) == Some((world, Seq::<Effect<'_>>::empty())),
{
    assert(done(world, Event::Hci { kind, data }) =~= Seq::<Effect<'_>>::empty());
}

/// Devices are noted in the cache one after the other, in the order in which they
/// were found, each by its address, name and Class of Device.
pub proof fn law_found_devices_are_noted_in_order(
    devices: Seq<CachedDevice>,
    found: Seq<FoundDevice>,
    device: FoundDevice,
)
    ensures
        all_noted(devices, Seq::empty()) == devices,
        all_noted(devices, found.push(device)) == recorded(
            all_noted(devices, found),
            device.result.address,
            Some((device.result.name, device.result.name_len)),
            Some(device.cod@),
        ),
{
    assert(found.push(device).drop_last() == found);
}

/// An Inquiry result reports every device that it shows, once and in order: the
/// effects are as many as the devices found, and the i-th is the report of the i-th
/// device. The Inquiry goes on, and the devices are noted.
pub proof fn law_every_found_device_is_reported(
    world: World,
    kind: HciEventKind,
    data: &[u8],
    i: int,
)
    requires
        world.state.phase is Inquiring,
        !(kind is InquiryComplete),
    ensures
        ({
            let event = Event::Hci { kind, data };
            let found = found_devices(kind, data@);
            &&& next(world, event) is Some
            &&& after(world, event) == (World { devices: all_noted(world.devices, found), ..world })
            &&& done(world, event).len() == found.len()
            &&& 0 <= i < found.len() ==> done(world, event)[i] == Effect::ReportScan(found[i].result)
        }),
{
}

/// A standard Inquiry result reports, for every entry that its count covers and
/// that is there in full, the address and kind from the entry's own bytes.
pub proof fn law_standard_result_is_reported_by_bytes(world: World, data: &[u8], i: int)
    requires
        world.state.phase is Inquiring,
        0 <= i,
    ensures
        ({
            let effects = done(world, Event::Hci { kind: HciEventKind::InquiryResult, data });
            &&& i < effects.len() <==> data@.len() > 0 && i < data@[0] && 15 + 14 * i
                <= data@.len()
            &&& i < effects.len() ==> (effects[i] matches Effect::ReportScan(result)
                && result.address@ == data@.subrange(1 + 14 * i, 7 + 14 * i) && (result.is_hid
                <==> data@[11 + 14 * i] % 32 == 5) && result.rssi == -127 && result.name_len == 0
                && result.transport_type is Classic)
        }),
{
    law_every_found_device_is_reported(world, HciEventKind::InquiryResult, data, i);
    law_standard_results_by_bytes(data@, i);
}

/// An Inquiry result with RSSI reports, for every entry that its count covers and
/// that is there in full, the address, kind and signal strength from the entry's
/// own bytes.
pub proof fn law_rssi_result_is_reported_by_bytes(world: World, data: &[u8], i: int)
    requires
        world.state.phase is Inquiring,
        0 <= i,
    ensures
        ({
            let effects = done(
                world,
                Event::Hci { kind: HciEventKind::InquiryResultWithRssi, data },
            );
            &&& i < effects.len() <==> data@.len() > 0 && i < data@[0] && 15 + 14 * i
                <= data@.len()
            &&& i < effects.len() ==> (effects[i] matches Effect::ReportScan(result)
                && result.address@ == data@.subrange(1 + 14 * i, 7 + 14 * i) && (result.is_hid
                <==> data@[10 + 14 * i] % 32 == 5) && (result.rssi == data@[14 + 14 * i]
                || result.rssi == data@[14 + 14 * i] - 256) && result.name_len == 0
                && result.transport_type is Classic)
        }),
{
    law_every_found_device_is_reported(world, HciEventKind::InquiryResultWithRssi, data, i);
    law_rssi_results_by_bytes(data@, i);
}

/// An extended Inquiry result of at least fifteen bytes reports one device, with
/// address, kind and signal strength from their places; a shorter one reports none.
pub proof fn law_extended_result_is_reported_by_bytes(world: World, data: &[u8])
    requires
        world.state.phase is Inquiring,
    ensures
        ({
            let effects = done(
                world,
                Event::Hci { kind: HciEventKind::ExtendedInquiryResult, data },
            );
            &&& data@.len() < 15 ==> effects.len() == 0
            &&& data@.len() >= 15 ==> effects.len() == 1 && (effects[0] matches Effect::ReportScan(
                result,
            ) && result.address@ == data@.subrange(1, 7) && (result.is_hid <==> data@[10] % 32 == 5)
                && (result.rssi == data@[14] || result.rssi == data@[14] - 256)
                && result.transport_type is Classic)
        }),
{
    law_every_found_device_is_reported(world, HciEventKind::ExtendedInquiryResult, data, 0);
    law_extended_result_by_bytes(data@);
}

/// A connection that comes about is told of, whichever attempt it was. One that
/// fails is tried again after a pause until the fifth attempt; then the task starts
/// over after 30 s. Every new attempt is for the same device, counts one up and is
/// told of.
pub proof fn law_connecting_by_values(world: World, target: [u8; 6], attempt: u8, handle: u16)
    ensures
        world.state.phase == (Phase::Connecting { target, attempt }) ==> {
            &&& next(world, Event::Connected { handle }) == Some(
                (
                    moved(world, Phase::ChoosingProfile { target, handle }),
                    seq![Effect::NotifyPairingComplete],
                ),
            )
            &&& attempt < 5 ==> next(world, Event::ConnectFailed) == Some(
                (moved(world, Phase::RetryPause { target, attempt }), Seq::<Effect<'_>>::empty()),
            )
            &&& attempt >= 5 ==> next(world, Event::ConnectFailed) == Some(
                (moved(world, Phase::RestartPause { millis: 30_000 }), Seq::<Effect<'_>>::empty()),
            )
        },
        world.state.phase == (Phase::RetryPause { target, attempt }) && attempt < 255 ==> next(
            world,
            Event::Elapsed,
        ) == Some(
            (
                moved(world, Phase::Connecting { target, attempt: (attempt + 1) as u8 }),
                seq![Effect::NotifyState(ConnectionState::Connecting)],
            ),
        ),
{
}

/// The three requests for sniff mode, with their values.
pub open spec fn asks_for_sniff(effects: Seq<Effect<'_>>, from: int, handle: u16) -> bool {
    &&& effects[from] == (Effect::EnableSniff { handle })
    &&& effects[from + 1] == (Effect::SniffMode {
        handle,
        max_interval: 18,
        min_interval: 18,
        attempt: 4,
        timeout: 1,
    })
    &&& effects[from + 2] == (Effect::SniffSubrating {
        handle,
        max_latency: 800,
        min_remote: 0,
        min_local: 0,
    })
}

/// A connected device is marked as connected under its profile. If the store has a
/// key of it, the bond is written next, with that key and the name that Inquiry
/// gave, or an empty one; if not, sniff mode is asked for and the HID channels come
/// next. Nothing else changes.
pub proof fn law_connected_device_by_values(
    world: World,
    target: [u8; 6],
    handle: u16,
    bonds: &[StoredClassicBond],
)
    requires
        world.state.phase == (Phase::ChoosingProfile { target, handle }),
    ensures
        ({
            let event = Event::BondsLoaded(bonds);
            let profile = session_profile(bonds@, world.devices, target);
            let link = Link { target, handle, profile };
            let effects = done(world, event);
            let phase = after(world, event).state.phase;
            &&& next(world, event) is Some
            &&& after(world, event) == moved(world, phase)
            &&& effects[0] == (Effect::SetConnected { address: target, profile })
            &&& match link_key(world.keys, target) {
                Some(stored) => {
                    &&& effects.len() == 1
                    &&& phase matches Phase::PersistingBond { link: l, key, name, name_len }
                    &&& l == link
                    &&& key == stored
                    &&& match known_name(world.devices, target) {
                        Some(known) => name == known.0 && name_len == known.1,
                        None => name_len == 0 && forall|k: int|
                            0 <= k < 32 ==> #[trigger] name@[k] == 0,
                    }
                },
                None => {
                    &&& effects.len() == 4
                    &&& asks_for_sniff(effects, 1, handle)
                    &&& phase == (Phase::OpeningChannels { link })
                },
            }
        }),
{
    law_zeros_are_zero(32);
}

/// The first bond of a connected device decides on its profile, whatever it is.
pub proof fn law_bonded_device_keeps_its_profile(
    world: World,
    target: [u8; 6],
    handle: u16,
    bonds: &[StoredClassicBond],
    i: int,
)
    requires
        world.state.phase == (Phase::ChoosingProfile { target, handle }),
        0 <= i < bonds@.len(),
        bonds@[i].addr == target,
        forall|k: int| 0 <= k < i ==> (#[trigger] bonds@[k]).addr != target,
    ensures
        done(world, Event::BondsLoaded(bonds))[0] == (Effect::SetConnected {
            address: target,
            profile: bonds@[i].profile,
        }),
        after(world, Event::BondsLoaded(bonds)).state.phase matches Phase::PersistingBond {
            link,
            key,
            name,
            name_len,
        } ==> link.profile == bonds@[i].profile,
        after(world, Event::BondsLoaded(bonds)).state.phase matches Phase::OpeningChannels { link }
            ==> link.profile == bonds@[i].profile,
{
    law_first_bond_of_the_device_decides(bonds@, world.devices, target, i);
}

/// A bond is written exactly with the first key that the store has of the device
/// and the first name that the cache has.
pub proof fn law_bond_holds_the_stored_key(
    world: World,
    target: [u8; 6],
    handle: u16,
    bonds: &[StoredClassicBond],
    i: int,
    j: int,
)
    requires
        world.state.phase == (Phase::ChoosingProfile { target, handle }),
        0 <= i < world.keys.len(),
        world.keys[i].addr == target,
        forall|k: int| 0 <= k < i ==> (#[trigger] world.keys[k]).addr != target,
    ensures
        after(world, Event::BondsLoaded(bonds)).state.phase matches Phase::PersistingBond {
            link,
            key,
            name,
            name_len,
        } && key == world.keys[i].info && link.target == target && link.handle == handle,
        0 <= j < world.devices.len() && world.devices[j].addr == target && world.devices[j].name_len
            > 0 && (forall|k: int| 0 <= k < j ==> (#[trigger] world.devices[k]).addr != target)
            ==> (after(world, Event::BondsLoaded(bonds)).state.phase matches Phase::PersistingBond {
            link,
            key,
            name,
            name_len,
        } && name == world.devices[j].name && name_len == world.devices[j].name_len),
{
    law_first_entry_is_loaded(world.keys, target, i);
    if 0 <= j < world.devices.len() && world.devices[j].addr == target && (forall|k: int|
        0 <= k < j ==> (#[trigger] world.devices[k]).addr != target) {
        law_lookup_reads_the_first_entry(world.devices, target, j);
    }
}

/// A written bond is told of, under the device and its profile; written or not,
/// sniff mode is then asked for and the HID channels come next.
pub proof fn law_bond_writing_by_values(
    world: World,
    link: Link,
    key: LinkKeyInfo,
    name: [u8; 32],
    name_len: u8,
    written: bool,
)
    requires
        world.state.phase == (Phase::PersistingBond { link, key, name, name_len }),
    ensures
        ({
            let event = Event::BondPersisted(written);
            let effects = done(world, event);
            &&& next(world, event) is Some
            &&& after(world, event) == moved(world, Phase::OpeningChannels { link })
            &&& written ==> effects.len() == 4 && asks_for_sniff(effects, 1, link.handle)
            &&& written ==> effects[0] == (Effect::NotifyBondStored {
                address: link.target,
                profile: link.profile,
            })
            &&& !written ==> effects.len() == 3 && asks_for_sniff(effects, 0, link.handle)
        }),
{
}

/// Channels that could be asked for are looked at, with no read counted yet; else
/// the task starts over after 5 s.
pub proof fn law_opening_channels_by_values(world: World, link: Link)
    requires
        world.state.phase == (Phase::OpeningChannels { link }),
    ensures
        next(world, Event::ChannelsOpened(true)) == Some(
            (moved(world, Phase::PollingChannels { link, reads: 0 }), Seq::<Effect<'_>>::empty()),
        ),
        next(world, Event::ChannelsOpened(false)) == Some(
            (moved(world, Phase::RestartPause { millis: 5_000 }), Seq::<Effect<'_>>::empty()),
        ),
{
}

/// A session begins as soon as the channels are open, whatever was read before: the
/// device is set up by its profile, the user is told, and the battery polls begin,
/// every 60 s. Until then packets are read.
pub proof fn law_session_start_by_values(world: World, link: Link, reads: u16)
    requires
        world.state.phase == (Phase::PollingChannels { link, reads }),
    ensures
        ({
            let effects = done(world, Event::ChannelsReady(true));
            let n = setup_requests(link.profile).len() as int;
            &&& next(world, Event::ChannelsReady(true)) is Some
            &&& after(world, Event::ChannelsReady(true)) == moved(world, Phase::InSession { link })
            &&& effects.len() == n + 2
            &&& forall|k: int|
                0 <= k < n ==> #[trigger] effects[k] == Effect::Request(
                    setup_requests(link.profile)[k],
                )
            &&& effects[n] == Effect::NotifyState(ConnectionState::Connected)
            &&& effects[n + 1] == (Effect::StartBatteryPolls { secs: 60 })
            &&& link.profile.for_keyboard() ==> effects.len() == 3 && effects[0] == Effect::Request(
                HidRequest::SetProtocolBoot,
            )
            &&& !link.profile.for_keyboard() ==> effects.len() == 4 && effects[1]
                == Effect::Request(HidRequest::GetInputReport { report_id: 0x90 })
        }),
        next(world, Event::ChannelsReady(false)) == Some(
            (moved(world, Phase::ReadingSetup { link, reads }), Seq::<Effect<'_>>::empty()),
        ),
{
    law_setup_by_profile(link.profile);
}

/// While the channels open, an ACL packet is handed on and a read error pauses.
/// Every read then counts, whatever it gave: up to 5000 reads the channels are
/// looked at again, and after that the task starts over after 5 s.
pub proof fn law_setup_reads_by_values(
    world: World,
    link: Link,
    reads: u16,
    acl: AclHeader,
    event: Event<'_>,
)
    ensures
        world.state.phase == (Phase::ReadingSetup { link, reads }) ==> {
            &&& event matches Event::Acl(rx) ==> exists|header: AclHeader|
                header.handle_and_flags == rx@[1] + 256 * rx@[2] && (header.len == rx@[3] + 256
                    * rx@[4] || header.len == 254) && header.len <= 254 && header.len <= rx@[3] + 256
                    * rx@[4] && next(world, event) == Some(
                    (
                        #[trigger] moved(
                            world,
                            Phase::ProcessingSetup { link, reads, acl: header },
                        ),
                        Seq::<Effect<'_>>::empty(),
                    ),
                )
            &&& event is ReadFailed ==> next(world, event) == Some(
                (moved(world, Phase::SetupPause { link, reads }), Seq::<Effect<'_>>::empty()),
            )
        },
        (world.state.phase == (Phase::ReadingSetup { link, reads }) && (event is Hci
            || event is OtherPacket)) || (world.state.phase == (Phase::ProcessingSetup {
            link,
            reads,
            acl,
        }) && event is AclProcessed) || (world.state.phase == (Phase::SetupPause { link, reads })
            && event is Elapsed) ==> {
            &&& reads < 5000 ==> next(world, event) == Some(
                (
                    moved(world, Phase::PollingChannels { link, reads: (reads + 1) as u16 }),
                    Seq::<Effect<'_>>::empty(),
                ),
            )
            &&& reads >= 5000 ==> next(world, event) == Some(
                (moved(world, Phase::RestartPause { millis: 5_000 }), Seq::<Effect<'_>>::empty()),
            )
        },
{
    if let Event::Acl(rx) = event {
        law_acl_header_by_bytes(rx@);
        let header = acl_header_of(rx@);
        let there = moved(world, Phase::ProcessingSetup { link, reads, acl: header });
        assert(there.state.report_capacity == world.state.report_capacity);
    }
}

/// After any pause before the next connection, the host is reset and a target
/// sought.
pub proof fn law_restart_by_values(world: World)
    requires
        world.state.phase is RestartPause,
    ensures
        next(world, Event::Elapsed) == Some(
            (moved(world, Phase::ResolvingTarget), seq![Effect::ResetHost]),
        ),
{
}

/// What each command does in a session. The session ends on Disconnect and on
/// ClearBond of its device: the device is marked as disconnected, its battery level
/// withdrawn, the user told, and after 2 s the task starts over. ClearBond forgets
/// the device in any case. A new profile for this device is taken over and set up.
/// Everything else changes nothing.
pub proof fn law_session_commands_by_values(
    world: World,
    link: Link,
    address: [u8; 6],
    profile: DeviceProfile,
)
    requires
        world.state.phase == (Phase::InSession { link }),
    ensures
        ({
            let nothing = Seq::<Effect<'_>>::empty();
            let end = seq![
                Effect::SetDisconnected,
                Effect::ClearBatteryLevel,
                Effect::NotifyState(ConnectionState::Disconnected),
            ];
            let ended = moved(world, Phase::RestartPause { millis: 2_000 });
            let update = Event::Command(ClassicCommand::UpdateProfile { address, profile });
            let forget = Event::Command(ClassicCommand::ClearBond { address });
            &&& next(world, Event::Command(ClassicCommand::Disconnect)) == Some((ended, end))
            &&& address == link.target ==> next(world, forget) == Some(
                (World { keys: without_key(world.keys, address), ..ended }, end),
            )
            &&& address != link.target ==> next(world, forget) == Some(
                (World { keys: without_key(world.keys, address), ..world }, nothing),
            )
            &&& address == link.target && profile != link.profile ==> {
                &&& next(world, update) is Some
                &&& after(world, update) == moved(
                    world,
                    Phase::InSession {
                        link: Link { target: link.target, handle: link.handle, profile },
                    },
                )
                &&& done(world, update).len() == 1 + setup_requests(profile).len()
                &&& done(world, update)[0] == (Effect::SetConnected { address, profile })
                &&& forall|k: int|
                    0 <= k < setup_requests(profile).len() ==> #[trigger] done(world, update)[1 + k]
                        == Effect::Request(setup_requests(profile)[k])
            }
            &&& address != link.target || profile == link.profile ==> next(world, update) == Some(
                (world, nothing),
            )
            &&& next(world, Event::Command(ClassicCommand::Scan)) == Some((world, nothing))
            &&& next(world, Event::Command(ClassicCommand::ScanStop)) == Some((world, nothing))
            &&& next(world, Event::Command(ClassicCommand::Connect { address })) == Some(
                (world, nothing),
            )
        }),
{
}

/// What anything but a command does in a session: the end of the link ends it, an
/// ACL packet is handed on, a battery poll asks any device but a keyboard for
/// report 0x90, a read error pauses, and the rest changes nothing.
pub proof fn law_session_inputs_by_values(
    world: World,
    link: Link,
    kind: HciEventKind,
    data: &[u8],
    rx: &[u8; RX_BUFFER_LEN],
)
    ensures
        ({
            let nothing = Seq::<Effect<'_>>::empty();
            world.state.phase == (Phase::InSession { link }) ==> {
                &&& next(
                    world,
                    Event::Hci { kind: HciEventKind::DisconnectionComplete, data },
                ) == Some(
                    (
                        moved(world, Phase::RestartPause { millis: 2_000 }),
                        seq![
                            Effect::SetDisconnected,
                            Effect::ClearBatteryLevel,
                            Effect::NotifyState(ConnectionState::Disconnected),
                        ],
                    ),
                )
                &&& !(kind is DisconnectionComplete) ==> next(world, Event::Hci { kind, data })
                    == Some((world, nothing))
                &&& next(world, Event::OtherPacket) == Some((world, nothing))
                &&& next(world, Event::ReadFailed) == Some(
                    (moved(world, Phase::SessionPause { link }), nothing),
                )
                &&& link.profile.for_keyboard() ==> next(world, Event::BatteryTick) == Some(
                    (world, nothing),
                )
                &&& !link.profile.for_keyboard() ==> next(world, Event::BatteryTick) == Some(
                    (
                        world,
                        seq![Effect::Request(HidRequest::GetInputReport { report_id: 0x90 })],
                    ),
                )
                &&& next(world, Event::Acl(rx)) is Some
                &&& done(world, Event::Acl(rx)) == nothing
                &&& after(world, Event::Acl(rx)) == moved(
                    world,
                    after(world, Event::Acl(rx)).state.phase,
                )
                &&& after(world, Event::Acl(rx)).state.phase matches Phase::ProcessingReport {
                    link: l,
                    acl,
                }
                &&& l == link
                &&& acl.handle_and_flags == rx@[1] + 256 * rx@[2]
                &&& rx@[3] + 256 * rx@[4] <= 254 ==> acl.len == rx@[3] + 256 * rx@[4]
                &&& rx@[3] + 256 * rx@[4] > 254 ==> acl.len == 254
            }
        }),
        world.state.phase == (Phase::SessionPause { link }) ==> next(world, Event::Elapsed) == Some(
            (moved(world, Phase::InSession { link }), Seq::<Effect<'_>>::empty()),
        ),
{
    law_acl_header_by_bytes(rx@);
}

/// A packet without a report changes nothing.
pub proof fn law_packets_without_report_change_nothing(world: World, link: Link, acl: AclHeader)
    requires
        world.state.phase == (Phase::ProcessingReport { link, acl }),
    ensures
        next(world, Event::AclProcessed(None)) == Some(
            (moved(world, Phase::InSession { link }), Seq::<Effect<'_>>::empty()),
        ),
{
}

/// Of a keyboard, a report of eight bytes, or of nine with a leading 1, is offered
/// to the USB side: its last eight bytes, with a zero for the second of them. Any
/// other report is dropped and logged, loudly the first five times, which are
/// counted. Nothing else changes.
pub proof fn law_keyboard_reports_by_bytes(
    world: World,
    link: Link,
    acl: AclHeader,
    report: &[u8],
)
    requires
        world.state.phase == (Phase::ProcessingReport { link, acl }),
        link.profile.for_keyboard(),
    ensures
        ({
            let event = Event::AclProcessed(Some(report));
            let n = report@.len();
            let phase = after(world, event).state.phase;
            let count = world.state.unknown_reports;
            &&& next(world, event) is Some
            &&& n == 8 || (n == 9 && report@[0] == 1) ==> {
                &&& done(world, event) == Seq::<Effect<'_>>::empty()
                &&& after(world, event) == moved(world, phase)
                &&& phase matches Phase::SendingKeys { link: l, report: keys }
                &&& l == link
                &&& keys@[1] == 0
                &&& forall|k: int| 0 <= k < 8 && k != 1 ==> #[trigger] keys@[k] == report@[n - 8 + k]
            }
            &&& !(n == 8 || (n == 9 && report@[0] == 1)) ==> {
                &&& phase == (Phase::InSession { link })
                &&& done(world, event) == seq![Effect::LogUnknownReport { loud: count < 5 }]
                &&& after(world, event).state.unknown_reports == (if count < 5 {
                    count + 1
                } else {
                    count as int
                })
                &&& after(world, event).state.touch_reports == world.state.touch_reports
                &&& after(world, event).state.report_capacity == world.state.report_capacity
                &&& after(world, event).keys == world.keys
                &&& after(world, event).devices == world.devices
            }
        }),
{
    law_key_reports_by_bytes(report@, world.state.unknown_reports);
}

/// Of any other device, a report of at least four bytes that begins with 0x31 is
/// sent to the mouse interface, slot 3, as a report 0x31 of the Magic Trackpad:
/// from its first byte on, and as much of it as the USB side takes. The first ten
/// are logged and counted. A report of at least three bytes that begins with 0x90
/// gives the battery level by its third byte. Anything else does nothing. The
/// session goes on, and nothing else changes.
pub proof fn law_trackpad_reports_are_sent_by_bytes(
    world: World,
    link: Link,
    acl: AclHeader,
    report: &[u8],
)
    requires
        world.state.phase == (Phase::ProcessingReport { link, acl }),
        !link.profile.for_keyboard(),
    ensures
        ({
            let event = Event::AclProcessed(Some(report));
            let n = report@.len();
            let now = after(world, event);
            let effects = done(world, event);
            let count = world.state.touch_reports;
            let touch = n >= 4 && report@[0] == 0x31;
            &&& next(world, event) is Some
            &&& now.state.phase == (Phase::InSession { link })
            &&& now.keys == world.keys
            &&& now.devices == world.devices
            &&& now.state.unknown_reports == world.state.unknown_reports
            &&& now.state.report_capacity == world.state.report_capacity
            &&& now.state.touch_reports == (if touch && count < 10 {
                count + 1
            } else {
                count as int
            })
            &&& touch ==> {
                &&& effects.len() == (if count < 10 {
                    2int
                } else {
                    1
                })
                &&& count < 10 ==> (effects[0] matches Effect::LogTouch { number, fingers, len }
                    && number == count && len == n && 4 + 9 * fingers <= n < 13 + 9 * fingers)
                &&& effects.last() matches Effect::SendTouch { header, report: sent }
                &&& sent == report
                &&& header.report_type is Mouse
                &&& header.profile is MagicTrackpad
                &&& header.slot_index == 3
                &&& header.report_id == 0x31
                &&& header.len == n || header.len == world.state.report_capacity
                &&& header.len <= n
                &&& header.len <= world.state.report_capacity
                &&& touch_bytes(sent@, header).len() == header.len
                &&& forall|k: int|
                    0 <= k < header.len ==> #[trigger] touch_bytes(sent@, header)[k] == report@[k]
            }
            &&& n >= 3 && report@[0] == 0x90 ==> effects == seq![
                Effect::SetBatteryLevel(report@[2]),
            ]
            &&& !touch && !(n >= 3 && report@[0] == 0x90) ==> effects == Seq::<Effect<'_>>::empty()
        }),
{
    assert(report@.len() == report.len());
    law_trackpad_reports_by_bytes(report@);
}

/// A key report that is taken is done with; one that is not is offered once more,
/// unchanged, and then done with either way.
pub proof fn law_key_sending_by_values(world: World, link: Link, report: [u8; 8], sent: bool)
    ensures
        world.state.phase == (Phase::SendingKeys { link, report }) ==> {
            &&& next(world, Event::KeysSent(true)) == Some(
                (moved(world, Phase::InSession { link }), Seq::<Effect<'_>>::empty()),
            )
            &&& next(world, Event::KeysSent(false)) == Some(
                (moved(world, Phase::AwaitingKeyRoom { link, report }), Seq::<Effect<'_>>::empty()),
            )
        },
        world.state.phase == (Phase::AwaitingKeyRoom { link, report }) ==> next(
            world,
            Event::KeysSent(sent),
        ) == Some((moved(world, Phase::InSession { link }), Seq::<Effect<'_>>::empty())),
{
}

/// The task works on its own state, on all keys of the store and on all devices of
/// the cache.
pub proof fn law_task_works_on_all_it_is_given(
    task: &ClassicTask,
    keys: &MemoryLinkKeyStore,
    cache: &ScanCache,
)
    ensures
        task.world(keys, cache).state == task@,
        task.world(keys, cache).keys == keys@,
        task.world(keys, cache).devices == cache@,
{
}

} // verus!
