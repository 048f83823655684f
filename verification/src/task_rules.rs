//! The rules of the Classic Bluetooth task: which step each event leads to.

use crate::bytes::{to_array, zeros};
use crate::inquiry::{extended_device, rssi_devices, standard_devices, FoundDevice};
use crate::link_keys::{link_key, with_bonds, without_key, LinkKeyEntry, StoredClassicBond};
use crate::profile::{
    auto_bond, battery_request, session_profile, setup_requests, DeviceProfile, HidRequest,
};
use crate::reports::{
    acl_header_of, key_report, keyboard_header_spec, touch_header_spec, trackpad_report, KeyReport,
    TrackpadReport, MAX_UNKNOWN_KEY_REPORT_LOGS,
};
use crate::scan_cache::{known_name, recorded, CachedDevice};
use crate::task_types::{
    ClassicCommand, ConnectionState, Effect, Event, HciEventKind, Link, Notice, Pending, Phase,
    TaskState, BATTERY_POLL_SECS, CHANNEL_RETRY_MILLIS, CONNECT_GIVE_UP_MILLIS, CONNECT_RETRY_MILLIS,
    KEY_SEND_MILLIS, MAX_CONNECT_ATTEMPTS, MAX_SETUP_READS, MAX_TOUCH_LOGS, READ_RETRY_MILLIS,
    RECONNECT_MILLIS, SESSION_RETRY_MILLIS, SETTLE_MILLIS,
};
use vstd::prelude::*;

verus! {

/// The task, the link keys and the scanned devices together.
pub struct World {
    pub state: TaskState,
    pub keys: Seq<LinkKeyEntry>,
    pub devices: Seq<CachedDevice>,
}

/// The state that a step leads to, and what to do at once.
pub type Transition<'a> = Option<(World, Seq<Effect<'a>>)>;

/// What the task waits for in a phase.
pub open spec fn pending_in(phase: Phase) -> Pending {
    match phase {
        Phase::Settling => Pending::Delay { millis: SETTLE_MILLIS },
        Phase::LoadingKeys => Pending::LoadBonds,
        Phase::ResolvingTarget => Pending::LoadBonds,
        Phase::AwaitingCommand => Pending::ReceiveCommand,
        Phase::StartingInquiry => Pending::StartInquiry {
            lap: [0x33u8, 0x8Bu8, 0x9Eu8],
            length: 23,
            responses: 0,
        },
        Phase::Inquiring => Pending::InquiryInput,
        Phase::InquiryPause => Pending::Delay { millis: READ_RETRY_MILLIS },
        Phase::Connecting { target, attempt } => Pending::Connect { address: target },
        Phase::RetryPause { target, attempt } => Pending::Delay { millis: CONNECT_RETRY_MILLIS },
        Phase::ChoosingProfile { target, handle } => Pending::LoadBonds,
        Phase::PersistingBond { link, key, name, name_len } => Pending::PersistBond {
            address: link.target,
            key,
            profile: link.profile,
            auto_connect: true,
            name,
            name_len,
        },
        Phase::OpeningChannels { link } => Pending::OpenChannels { handle: link.handle },
        Phase::PollingChannels { link, reads } => Pending::PollChannels,
        Phase::ReadingSetup { link, reads } => Pending::ReadPacket,
        Phase::ProcessingSetup { link, reads, acl } => Pending::ProcessSetupAcl { acl },
        Phase::SetupPause { link, reads } => Pending::Delay { millis: READ_RETRY_MILLIS },
        Phase::RestartPause { millis } => Pending::Delay { millis },
        Phase::InSession { link } => Pending::SessionInput,
        Phase::ProcessingReport { link, acl } => Pending::ProcessReportAcl { acl },
        Phase::SessionPause { link } => Pending::Delay { millis: SESSION_RETRY_MILLIS },
        Phase::SendingKeys { link, report } => Pending::TrySendKeys {
            header: keyboard_header_spec(),
            report,
        },
        Phase::AwaitingKeyRoom { link, report } => Pending::SendKeys {
            header: keyboard_header_spec(),
            report,
            millis: KEY_SEND_MILLIS,
        },
    }
}

/// The step to a phase that changes nothing else.
pub open spec fn to<'a>(world: World, phase: Phase, effects: Seq<Effect<'a>>) -> Transition<'a> {
    Some((World { state: TaskState { phase, ..world.state }, ..world }, effects))
}

/// What is sent to the controller once the BLE host has settled. The BLE
/// connection manager is released whatever the controller answers: otherwise it
/// would wait for ever.
pub open spec fn startup_effects<'a>() -> Seq<Effect<'a>> {
    seq![
        Effect::SetEventMask,
        Effect::WriteSimplePairingMode { mode: 1 },
        Effect::WriteInquiryMode { mode: 2 },
        Effect::SignalInitDone,
    ]
}

/// An attempt to connect to a device, by its number.
pub open spec fn connect_to<'a>(world: World, target: [u8; 6], attempt: u8) -> Transition<'a> {
    to(
        world,
        Phase::Connecting { target, attempt },
        seq![Effect::NotifyState(ConnectionState::Connecting)],
    )
}

/// The next connection, from the top: bonds are read again, so that changes to
/// them take effect without a reboot.
pub open spec fn restart<'a>(world: World) -> Transition<'a> {
    to(world, Phase::ResolvingTarget, seq![Effect::ResetHost])
}

/// A command while nothing is connected.
pub open spec fn on_idle_command<'a>(world: World, command: ClassicCommand) -> Transition<'a> {
    match command {
        ClassicCommand::Connect { address } => connect_to(world, address, 1),
        ClassicCommand::Scan => to(
            world,
            Phase::StartingInquiry,
            seq![Effect::Announce(Notice::InquiryStarting)],
        ),
        ClassicCommand::ClearBond { address } => to(
            World { keys: without_key(world.keys, address), ..world },
            Phase::AwaitingCommand,
            seq![],
        ),
        // Nothing connected to re-configure: the profile is read back from
        // flash when we connect.
        _ => to(world, Phase::AwaitingCommand, seq![]),
    }
}

/// The devices that an HCI event reports.
pub open spec fn found_devices(kind: HciEventKind, data: Seq<u8>) -> Seq<FoundDevice> {
    match kind {
        HciEventKind::InquiryResult => standard_devices(data),
        HciEventKind::InquiryResultWithRssi => rssi_devices(data),
        HciEventKind::ExtendedInquiryResult => match extended_device(data) {
            Some(device) => seq![device],
            None => seq![],
        },
        _ => seq![],
    }
}

/// The cache after a device was found.
pub open spec fn noted(devices: Seq<CachedDevice>, found: FoundDevice) -> Seq<CachedDevice> {
    recorded(
        devices,
        found.result.address,
        Some((found.result.name, found.result.name_len)),
        Some(found.cod@),
    )
}

/// The cache after devices were found, one after the other.
pub open spec fn all_noted(devices: Seq<CachedDevice>, found: Seq<FoundDevice>) -> Seq<CachedDevice>
    decreases found.len(),
{
    if found.len() == 0 {
        devices
    } else {
        noted(all_noted(devices, found.drop_last()), found.last())
    }
}

/// The reports of found devices.
pub open spec fn scan_reports<'a>(found: Seq<FoundDevice>) -> Seq<Effect<'a>> {
    found.map_values(|device: FoundDevice| Effect::ReportScan(device.result))
}

/// An input during an Inquiry.
pub open spec fn on_inquiry_input<'a>(world: World, event: Event<'a>) -> Transition<'a> {
    match event {
        Event::Command(ClassicCommand::ScanStop) => to(
            world,
            Phase::AwaitingCommand,
            seq![Effect::CancelInquiry, Effect::Announce(Notice::InquiryCancelled)],
        ),
        // To be handled after the Inquiry.
        Event::Command(command) => to(world, Phase::Inquiring, seq![Effect::Requeue(command)]),
        Event::Hci { kind: HciEventKind::InquiryComplete, data } => to(
            world,
            Phase::AwaitingCommand,
            seq![Effect::Announce(Notice::InquiryComplete)],
        ),
        Event::Hci { kind, data } => to(
            World { devices: all_noted(world.devices, found_devices(kind, data@)), ..world },
            Phase::Inquiring,
            scan_reports(found_devices(kind, data@)),
        ),
        Event::Acl(rx) => to(world, Phase::Inquiring, seq![]),
        Event::OtherPacket => to(world, Phase::Inquiring, seq![]),
        Event::ReadFailed => to(world, Phase::InquiryPause, seq![]),
        _ => None,
    }
}

/// What is asked of the controller before the HID channels are opened.
///
/// Without sniff, HID reports come in bursts. Sniff mode forces regular polling
/// every 18 slots of 0.625 ms. Subrating lets the link manager stretch that to
/// 800 slots while no data flows.
pub open spec fn sniff_effects<'a>(handle: u16) -> Seq<Effect<'a>> {
    seq![
        Effect::EnableSniff { handle },
        Effect::SniffMode {
            handle,
            max_interval: 18,
            min_interval: 18,
            attempt: 4,
            timeout: 1,
        },
        Effect::SniffSubrating { handle, max_latency: 800, min_remote: 0, min_local: 0 },
    ]
}

/// The name under which a device is stored: empty if it gave none.
pub open spec fn name_to_store(devices: Seq<CachedDevice>, addr: [u8; 6]) -> ([u8; 32], u8) {
    match known_name(devices, addr) {
        Some(name) => name,
        None => (to_array::<32>(zeros(32)), 0u8),
    }
}

/// A device is connected, and the bonds are known: choose its profile, and
/// write its bond if there is a link key to write.
pub open spec fn on_connected<'a>(
    world: World,
    target: [u8; 6],
    handle: u16,
    bonds: Seq<StoredClassicBond>,
) -> Transition<'a> {
    let profile = session_profile(bonds, world.devices, target);
    let link = Link { target, handle, profile };
    let connected = seq![Effect::SetConnected { address: target, profile }];
    match link_key(world.keys, target) {
        Some(key) => {
            let (name, name_len) = name_to_store(world.devices, target);
            to(world, Phase::PersistingBond { link, key, name, name_len }, connected)
        },
        None => to(world, Phase::OpeningChannels { link }, connected + sniff_effects(handle)),
    }
}

/// One more read while the HID channels open, or giving up after too many.
pub open spec fn after_setup_read<'a>(world: World, link: Link, reads: u16) -> Transition<'a> {
    if reads >= MAX_SETUP_READS {
        to(world, Phase::RestartPause { millis: CHANNEL_RETRY_MILLIS }, seq![])
    } else {
        to(world, Phase::PollingChannels { link, reads: (reads + 1) as u16 }, seq![])
    }
}

/// The requests that set a device up.
pub open spec fn setup_effects<'a>(profile: DeviceProfile) -> Seq<Effect<'a>> {
    setup_requests(profile).map_values(|request: HidRequest| Effect::Request(request))
}

/// The HID channels are open: set the device up and begin the session.
pub open spec fn begin_session<'a>(world: World, link: Link) -> Transition<'a> {
    to(
        world,
        Phase::InSession { link },
        setup_effects(link.profile) + seq![
            Effect::NotifyState(ConnectionState::Connected),
            Effect::StartBatteryPolls { secs: BATTERY_POLL_SECS },
        ],
    )
}

/// The end of a session.
pub open spec fn end_effects<'a>() -> Seq<Effect<'a>> {
    seq![
        Effect::SetDisconnected,
        Effect::ClearBatteryLevel,
        Effect::NotifyState(ConnectionState::Disconnected),
    ]
}

/// The end of a session: clean up, and reconnect after a pause.
pub open spec fn end_session<'a>(world: World) -> Transition<'a> {
    to(world, Phase::RestartPause { millis: RECONNECT_MILLIS }, end_effects())
}

/// A command in a session.
pub open spec fn on_session_command<'a>(world: World, link: Link, command: ClassicCommand) -> Transition<'a> {
    match command {
        ClassicCommand::Disconnect => end_session(world),
        ClassicCommand::ClearBond { address } => {
            let cleared = World { keys: without_key(world.keys, address), ..world };
            if address == link.target {
                end_session(cleared)
            } else {
                to(cleared, Phase::InSession { link }, seq![])
            }
        },
        ClassicCommand::UpdateProfile { address, profile } => if address == link.target && profile
            != link.profile {
            to(
                world,
                Phase::InSession { link: Link { profile, ..link } },
                seq![Effect::SetConnected { address, profile }] + setup_effects(profile),
            )
        } else {
            to(world, Phase::InSession { link }, seq![])
        },
        // Scan and Connect are ignored while connected.
        _ => to(world, Phase::InSession { link }, seq![]),
    }
}

/// An input in a session.
pub open spec fn on_session_input<'a>(world: World, link: Link, event: Event<'a>) -> Transition<'a> {
    let stay = Phase::InSession { link };
    match event {
        // The battery report is Magic Trackpad specific; a keyboard would only
        // answer with a handshake error.
        Event::BatteryTick => if link.profile.for_keyboard() {
            to(world, stay, seq![])
        } else {
            to(world, stay, seq![Effect::Request(battery_request())])
        },
        Event::Command(command) => on_session_command(world, link, command),
        Event::Acl(rx) => to(
            world,
            Phase::ProcessingReport { link, acl: acl_header_of(rx@) },
            seq![],
        ),
        Event::Hci { kind: HciEventKind::DisconnectionComplete, data } => end_session(world),
        Event::Hci { kind, data } => to(world, stay, seq![]),
        Event::OtherPacket => to(world, stay, seq![]),
        Event::ReadFailed => to(world, Phase::SessionPause { link }, seq![]),
        _ => None,
    }
}

/// A report of a keyboard.
pub open spec fn on_key_report<'a>(world: World, link: Link, report: Seq<u8>) -> Transition<'a> {
    match key_report(report, world.state.unknown_reports) {
        KeyReport::Forward { report } => to(world, Phase::SendingKeys { link, report }, seq![]),
        KeyReport::Drop { loud } => {
            let counted = if loud {
                (world.state.unknown_reports + 1) as u8
            } else {
                world.state.unknown_reports
            };
            to(
                World { state: TaskState { unknown_reports: counted, ..world.state }, ..world },
                Phase::InSession { link },
                seq![Effect::LogUnknownReport { loud }],
            )
        },
    }
}

/// A report of a Magic Trackpad 2.
pub open spec fn on_trackpad_report<'a>(
    world: World,
    link: Link,
    report: &'a [u8],
) -> Transition<'a> {
    let stay = Phase::InSession { link };
    match trackpad_report(report@) {
        TrackpadReport::Touch { fingers } => {
            let number = world.state.touch_reports;
            let send = Effect::SendTouch {
                header: touch_header_spec(report@.len() as int, world.state.report_capacity),
                report,
            };
            if number < MAX_TOUCH_LOGS {
                to(
                    World {
                        state: TaskState { touch_reports: (number + 1) as u8, ..world.state },
                        ..world
                    },
                    stay,
                    seq![Effect::LogTouch { number, fingers, len: report@.len() as usize }, send],
                )
            } else {
                to(world, stay, seq![send])
            }
        },
        TrackpadReport::Battery { flags, capacity } => to(
            world,
            stay,
            seq![Effect::SetBatteryLevel(capacity)],
        ),
        TrackpadReport::Other { report_id } => to(world, stay, seq![]),
    }
}

/// The step that an event leads to; none if the task does not wait for it.
pub open spec fn next<'a>(world: World, event: Event<'a>) -> Transition<'a> {
    match (world.state.phase, event) {
        (Phase::Settling, Event::Elapsed) => to(world, Phase::LoadingKeys, startup_effects()),
        (Phase::LoadingKeys, Event::BondsLoaded(bonds)) => restart(
            World { keys: with_bonds(world.keys, bonds@), ..world },
        ),
        (Phase::ResolvingTarget, Event::BondsLoaded(bonds)) => match auto_bond(bonds@) {
            Some(bond) => connect_to(world, bond.addr, 1),
            None => to(world, Phase::AwaitingCommand, seq![]),
        },
        (Phase::AwaitingCommand, Event::Command(command)) => on_idle_command(world, command),
        (Phase::StartingInquiry, Event::InquiryStarted(accepted)) => if accepted {
            to(world, Phase::Inquiring, seq![])
        } else {
            to(world, Phase::AwaitingCommand, seq![Effect::Announce(Notice::InquiryFailed)])
        },
        (Phase::Inquiring, _) => on_inquiry_input(world, event),
        (Phase::InquiryPause, Event::Elapsed) => to(world, Phase::Inquiring, seq![]),
        (Phase::Connecting { target, attempt }, Event::Connected { handle }) => to(
            world,
            Phase::ChoosingProfile { target, handle },
            seq![Effect::NotifyPairingComplete],
        ),
        (Phase::Connecting { target, attempt }, Event::ConnectFailed) => if attempt
            >= MAX_CONNECT_ATTEMPTS {
            to(world, Phase::RestartPause { millis: CONNECT_GIVE_UP_MILLIS }, seq![])
        } else {
            to(world, Phase::RetryPause { target, attempt }, seq![])
        },
        (Phase::RetryPause { target, attempt }, Event::Elapsed) => connect_to(
            world,
            target,
            (attempt + 1) as u8,
        ),
        (Phase::ChoosingProfile { target, handle }, Event::BondsLoaded(bonds)) => on_connected(
            world,
            target,
            handle,
            bonds@,
        ),
        (Phase::PersistingBond { link, key, name, name_len }, Event::BondPersisted(written)) => to(
            world,
            Phase::OpeningChannels { link },
            (if written {
                seq![Effect::NotifyBondStored { address: link.target, profile: link.profile }]
            } else {
                seq![]
            }) + sniff_effects(link.handle),
        ),
        (Phase::OpeningChannels { link }, Event::ChannelsOpened(opened)) => if opened {
            to(world, Phase::PollingChannels { link, reads: 0 }, seq![])
        } else {
            to(world, Phase::RestartPause { millis: CHANNEL_RETRY_MILLIS }, seq![])
        },
        (Phase::PollingChannels { link, reads }, Event::ChannelsReady(ready)) => if ready {
            begin_session(world, link)
        } else {
            to(world, Phase::ReadingSetup { link, reads }, seq![])
        },
        (Phase::ReadingSetup { link, reads }, Event::Acl(rx)) => to(
            world,
            Phase::ProcessingSetup { link, reads, acl: acl_header_of(rx@) },
            seq![],
        ),
        (Phase::ReadingSetup { link, reads }, Event::Hci { kind, data }) => after_setup_read(
            world,
            link,
            reads,
        ),
        (Phase::ReadingSetup { link, reads }, Event::OtherPacket) => after_setup_read(
            world,
            link,
            reads,
        ),
        (Phase::ReadingSetup { link, reads }, Event::ReadFailed) => to(
            world,
            Phase::SetupPause { link, reads },
            seq![],
        ),
        (Phase::ProcessingSetup { link, reads, acl }, Event::AclProcessed(report)) =>
            after_setup_read(world, link, reads),
        (Phase::SetupPause { link, reads }, Event::Elapsed) => after_setup_read(world, link, reads),
        (Phase::RestartPause { millis }, Event::Elapsed) => restart(world),
        (Phase::InSession { link }, _) => on_session_input(world, link, event),
        (Phase::ProcessingReport { link, acl }, Event::AclProcessed(None)) => to(
            world,
            Phase::InSession { link },
            seq![],
        ),
        (Phase::ProcessingReport { link, acl }, Event::AclProcessed(Some(report))) =>
            if link.profile.for_keyboard() {
                on_key_report(world, link, report@)
            } else {
                on_trackpad_report(world, link, report)
            },
        (Phase::SessionPause { link }, Event::Elapsed) => to(
            world,
            Phase::InSession { link },
            seq![],
        ),
        (Phase::SendingKeys { link, report }, Event::KeysSent(sent)) => if sent {
            to(world, Phase::InSession { link }, seq![])
        } else {
            to(world, Phase::AwaitingKeyRoom { link, report }, seq![])
        },
        (Phase::AwaitingKeyRoom { link, report }, Event::KeysSent(sent)) => to(
            world,
            Phase::InSession { link },
            seq![],
        ),
        _ => None,
    }
}

/// What every state of the task keeps to: attempts, reads and counts stay within
/// their limits.
pub open spec fn state_ok(state: TaskState) -> bool {
    &&& state.unknown_reports <= MAX_UNKNOWN_KEY_REPORT_LOGS
    &&& state.touch_reports <= MAX_TOUCH_LOGS
    &&& match state.phase {
        Phase::Connecting { target, attempt } => 1 <= attempt <= MAX_CONNECT_ATTEMPTS,
        Phase::RetryPause { target, attempt } => 1 <= attempt < MAX_CONNECT_ATTEMPTS,
        Phase::PollingChannels { link, reads } => reads <= MAX_SETUP_READS,
        Phase::ReadingSetup { link, reads } => reads <= MAX_SETUP_READS,
        Phase::ProcessingSetup { link, reads, acl } => reads <= MAX_SETUP_READS,
        Phase::SetupPause { link, reads } => reads <= MAX_SETUP_READS,
        _ => true,
    }
}

} // verus!
