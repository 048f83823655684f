use bt2usb_core::inquiry::{ScanResultData, TransportType};
use bt2usb_core::link_keys::{LinkKeyInfo, MemoryLinkKeyStore, StoredClassicBond};
use bt2usb_core::profile::{auto_connect_target, choose_profile, DeviceProfile, HidRequest};
use bt2usb_core::reports::{keyboard_header, touch_header, AclHeader};
use bt2usb_core::scan_cache::ScanCache;
use bt2usb_core::task::ClassicTask;
use bt2usb_core::task_types::{
    ClassicCommand, ConnectionState, Effect, Event, HciEventKind, Link, Notice, Pending, Phase,
};

const TARGET: [u8; 6] = [1, 2, 3, 4, 5, 6];
const OTHER: [u8; 6] = [9, 2, 3, 4, 5, 6];
const HANDLE: u16 = 0x0B;

struct Bench {
    task: ClassicTask,
    keys: MemoryLinkKeyStore,
    cache: ScanCache,
}

impl Bench {
    fn new() -> Bench {
        Bench {
            task: ClassicTask::new(64),
            keys: MemoryLinkKeyStore::new(),
            cache: ScanCache::new(),
        }
    }

    fn step<'a>(&mut self, event: Event<'a>) -> Vec<Effect<'a>> {
        self.task.step(&mut self.keys, &mut self.cache, event).unwrap()
    }

    fn phase(&self) -> Phase {
        self.task.state().phase
    }

    /// Power-up with no bond that connects by itself.
    fn idle() -> Bench {
        let mut bench = Bench::new();
        bench.step(Event::Elapsed);
        bench.step(Event::BondsLoaded(&[]));
        bench.step(Event::BondsLoaded(&[]));
        bench
    }

    /// A session with the target.
    fn in_session(profile: DeviceProfile) -> Bench {
        let mut bench = Bench::idle();
        bench.step(Event::Command(ClassicCommand::Connect { address: TARGET }));
        bench.step(Event::Connected { handle: HANDLE });
        bench.step(Event::BondsLoaded(&[bond(TARGET, profile, false)]));
        bench.step(Event::ChannelsOpened(true));
        bench.step(Event::ChannelsReady(true));
        bench
    }
}

fn bond(addr: [u8; 6], profile: DeviceProfile, auto_connect: bool) -> StoredClassicBond {
    StoredClassicBond { addr, link_key: [addr[0]; 16], key_type: 4, profile, auto_connect }
}

fn link(profile: DeviceProfile) -> Link {
    Link { target: TARGET, handle: HANDLE, profile }
}

fn sniff() -> Vec<Effect<'static>> {
    vec![
        Effect::EnableSniff { handle: HANDLE },
        Effect::SniffMode {
            handle: HANDLE,
            max_interval: 18,
            min_interval: 18,
            attempt: 4,
            timeout: 1,
        },
        Effect::SniffSubrating { handle: HANDLE, max_latency: 800, min_remote: 0, min_local: 0 },
    ]
}

fn session_end() -> Vec<Effect<'static>> {
    vec![
        Effect::SetDisconnected,
        Effect::ClearBatteryLevel,
        Effect::NotifyState(ConnectionState::Disconnected),
    ]
}

fn acl(len: u8) -> [u8; 259] {
    let mut rx = [0u8; 259];
    rx[1] = 0x0B;
    rx[2] = 0x20;
    rx[3] = len;
    rx
}

#[test]
fn startup_releases_ble_and_loads_keys() {
    let mut bench = Bench::new();
    assert_eq!(bench.task.pending(), Pending::Delay { millis: 300 });
    assert_eq!(
        bench.step(Event::Elapsed),
        vec![
            Effect::SetEventMask,
            Effect::WriteSimplePairingMode { mode: 1 },
            Effect::WriteInquiryMode { mode: 2 },
            Effect::SignalInitDone,
        ]
    );
    assert_eq!(bench.task.pending(), Pending::LoadBonds);
    let bonds = [bond(OTHER, DeviceProfile::Keyboard, false)];
    assert_eq!(bench.step(Event::BondsLoaded(&bonds)), vec![Effect::ResetHost]);
    assert_eq!(bench.keys.load(&OTHER), Some(LinkKeyInfo { key: [9; 16], key_type: 4 }));
    assert_eq!(bench.task.pending(), Pending::LoadBonds);
    assert_eq!(bench.step(Event::BondsLoaded(&bonds)), vec![]);
    assert_eq!(bench.phase(), Phase::AwaitingCommand);
    assert_eq!(bench.task.pending(), Pending::ReceiveCommand);
}

#[test]
fn auto_connect_bond_is_connected_to() {
    let bonds = [
        bond(OTHER, DeviceProfile::Keyboard, false),
        bond(TARGET, DeviceProfile::MagicTrackpad, true),
        bond([7; 6], DeviceProfile::Keyboard, true),
    ];
    assert_eq!(auto_connect_target(&bonds), Some(TARGET));
    assert_eq!(auto_connect_target(&bonds[..1]), None);
    let mut bench = Bench::new();
    bench.step(Event::Elapsed);
    bench.step(Event::BondsLoaded(&bonds));
    assert_eq!(
        bench.step(Event::BondsLoaded(&bonds)),
        vec![Effect::NotifyState(ConnectionState::Connecting)]
    );
    assert_eq!(bench.task.pending(), Pending::Connect { address: TARGET });
    assert_eq!(bench.phase(), Phase::Connecting { target: TARGET, attempt: 1 });
}

#[test]
fn unexpected_event_changes_nothing() {
    let mut bench = Bench::idle();
    let before = bench.task.state();
    for event in [
        Event::Elapsed,
        Event::BatteryTick,
        Event::ConnectFailed,
        Event::KeysSent(true),
        Event::ReadFailed,
    ] {
        assert_eq!(bench.task.step(&mut bench.keys, &mut bench.cache, event), None);
        assert_eq!(bench.task.state(), before);
    }
}

#[test]
fn connection_is_tried_five_times() {
    let mut bench = Bench::idle();
    bench.step(Event::Command(ClassicCommand::Connect { address: TARGET }));
    for attempt in 1..5u8 {
        assert_eq!(bench.phase(), Phase::Connecting { target: TARGET, attempt });
        assert_eq!(bench.step(Event::ConnectFailed), vec![]);
        assert_eq!(bench.task.pending(), Pending::Delay { millis: 5_000 });
        assert_eq!(
            bench.step(Event::Elapsed),
            vec![Effect::NotifyState(ConnectionState::Connecting)]
        );
    }
    assert_eq!(bench.phase(), Phase::Connecting { target: TARGET, attempt: 5 });
    assert_eq!(bench.step(Event::ConnectFailed), vec![]);
    assert_eq!(bench.task.pending(), Pending::Delay { millis: 30_000 });
    assert_eq!(bench.step(Event::Elapsed), vec![Effect::ResetHost]);
    assert_eq!(bench.phase(), Phase::ResolvingTarget);
}

#[test]
fn idle_commands_do_what_they_say() {
    let mut bench = Bench::idle();
    bench.keys.store(&TARGET, LinkKeyInfo { key: [1; 16], key_type: 4 });
    for command in [
        ClassicCommand::ScanStop,
        ClassicCommand::Disconnect,
        ClassicCommand::UpdateProfile { address: TARGET, profile: DeviceProfile::Keyboard },
    ] {
        assert_eq!(bench.step(Event::Command(command)), vec![]);
        assert_eq!(bench.phase(), Phase::AwaitingCommand);
    }
    assert_eq!(bench.step(Event::Command(ClassicCommand::ClearBond { address: OTHER })), vec![]);
    assert_eq!(bench.keys.len(), 1);
    assert_eq!(bench.step(Event::Command(ClassicCommand::ClearBond { address: TARGET })), vec![]);
    assert_eq!(bench.keys.load(&TARGET), None);
    assert_eq!(bench.phase(), Phase::AwaitingCommand);
}

#[test]
fn inquiry_finds_and_remembers_devices() {
    let mut bench = Bench::idle();
    assert_eq!(
        bench.step(Event::Command(ClassicCommand::Scan)),
        vec![Effect::Announce(Notice::InquiryStarting)]
    );
    assert_eq!(
        bench.task.pending(),
        Pending::StartInquiry { lap: [0x33, 0x8B, 0x9E], length: 23, responses: 0 }
    );
    assert_eq!(bench.step(Event::InquiryStarted(true)), vec![]);
    assert_eq!(bench.task.pending(), Pending::InquiryInput);
    let mut data = vec![1, 1, 2, 3, 4, 5, 6, 0x01, 0x00, 0x40, 0x25, 0x00, 0x11, 0x22, 0xC4];
    data.extend_from_slice(&[0x04, 0x09, b'K', b'e', b'y']);
    let mut name = [0u8; 32];
    name[..3].copy_from_slice(b"Key");
    assert_eq!(
        bench.step(Event::Hci { kind: HciEventKind::ExtendedInquiryResult, data: &data }),
        vec![Effect::ReportScan(ScanResultData {
            address: TARGET,
            addr_kind: 0,
            name,
            name_len: 3,
            rssi: -60,
            is_hid: true,
            transport_type: TransportType::Classic,
        })]
    );
    let standard = [1, 9, 2, 3, 4, 5, 6, 0x01, 0, 0, 0x04, 0x24, 0x04, 0x11, 0x22];
    assert_eq!(
        bench.step(Event::Hci { kind: HciEventKind::InquiryResult, data: &standard }),
        vec![Effect::ReportScan(ScanResultData {
            address: OTHER,
            addr_kind: 0,
            name: [0; 32],
            name_len: 0,
            rssi: -127,
            is_hid: false,
            transport_type: TransportType::Classic,
        })]
    );
    assert_eq!(bench.cache.lookup_scan_cod(&TARGET), Some([0x40, 0x25, 0x00]));
    assert_eq!(bench.cache.lookup_scan_name(&TARGET), Some((name, 3)));
    assert_eq!(bench.cache.lookup_scan_cod(&OTHER), Some([0x04, 0x24, 0x04]));
    // Without a bond, a keyboard is driven as one from its first connection.
    assert_eq!(choose_profile(&[], &bench.cache, &TARGET), DeviceProfile::Keyboard);
    assert_eq!(choose_profile(&[], &bench.cache, &OTHER), DeviceProfile::MagicTrackpad);
    assert_eq!(bench.step(Event::Hci { kind: HciEventKind::Other, data: &[] }), vec![]);
    assert_eq!(bench.step(Event::Acl(&acl(4))), vec![]);
    assert_eq!(bench.step(Event::OtherPacket), vec![]);
    assert_eq!(bench.phase(), Phase::Inquiring);
    assert_eq!(
        bench.step(Event::Hci { kind: HciEventKind::InquiryComplete, data: &[0] }),
        vec![Effect::Announce(Notice::InquiryComplete)]
    );
    assert_eq!(bench.phase(), Phase::AwaitingCommand);
}

#[test]
fn inquiry_can_fail_pause_and_be_stopped() {
    let mut bench = Bench::idle();
    bench.step(Event::Command(ClassicCommand::Scan));
    assert_eq!(
        bench.step(Event::InquiryStarted(false)),
        vec![Effect::Announce(Notice::InquiryFailed)]
    );
    assert_eq!(bench.phase(), Phase::AwaitingCommand);
    bench.step(Event::Command(ClassicCommand::Scan));
    bench.step(Event::InquiryStarted(true));
    assert_eq!(bench.step(Event::ReadFailed), vec![]);
    assert_eq!(bench.task.pending(), Pending::Delay { millis: 10 });
    assert_eq!(bench.step(Event::Elapsed), vec![]);
    assert_eq!(bench.phase(), Phase::Inquiring);
    let connect = ClassicCommand::Connect { address: TARGET };
    assert_eq!(bench.step(Event::Command(connect)), vec![Effect::Requeue(connect)]);
    assert_eq!(bench.phase(), Phase::Inquiring);
    assert_eq!(
        bench.step(Event::Command(ClassicCommand::ScanStop)),
        vec![Effect::CancelInquiry, Effect::Announce(Notice::InquiryCancelled)]
    );
    assert_eq!(bench.phase(), Phase::AwaitingCommand);
}

#[test]
fn new_pairing_writes_a_bond() {
    let mut bench = Bench::idle();
    let mut name = [0u8; 32];
    name[..3].copy_from_slice(b"Key");
    bench.cache.cache_scan_device(&TARGET, Some((&name, 3)), Some(&[0x40, 0x25, 0x00]));
    bench.step(Event::Command(ClassicCommand::Connect { address: TARGET }));
    // Pairing stores the key while the connection is made.
    let key = LinkKeyInfo { key: [0x5A; 16], key_type: 5 };
    bench.keys.store(&TARGET, key);
    assert_eq!(
        bench.step(Event::Connected { handle: HANDLE }),
        vec![Effect::NotifyPairingComplete]
    );
    assert_eq!(bench.task.pending(), Pending::LoadBonds);
    assert_eq!(
        bench.step(Event::BondsLoaded(&[bond(OTHER, DeviceProfile::MagicTrackpad, false)])),
        vec![Effect::SetConnected { address: TARGET, profile: DeviceProfile::Keyboard }]
    );
    assert_eq!(
        bench.task.pending(),
        Pending::PersistBond {
            address: TARGET,
            key,
            profile: DeviceProfile::Keyboard,
            auto_connect: true,
            name,
            name_len: 3,
        }
    );
    let mut expected = vec![Effect::NotifyBondStored {
        address: TARGET,
        profile: DeviceProfile::Keyboard,
    }];
    expected.extend(sniff());
    assert_eq!(bench.step(Event::BondPersisted(true)), expected);
    assert_eq!(bench.task.pending(), Pending::OpenChannels { handle: HANDLE });
}

#[test]
fn bond_that_cannot_be_written_is_no_obstacle() {
    let mut bench = Bench::idle();
    bench.keys.store(&TARGET, LinkKeyInfo { key: [1; 16], key_type: 4 });
    bench.step(Event::Command(ClassicCommand::Connect { address: TARGET }));
    bench.step(Event::Connected { handle: HANDLE });
    bench.step(Event::BondsLoaded(&[]));
    assert!(matches!(
        bench.task.pending(),
        Pending::PersistBond { name: [0, ..], name_len: 0, .. }
    ));
    assert_eq!(bench.step(Event::BondPersisted(false)), sniff());
    assert_eq!(bench.phase(), Phase::OpeningChannels { link: link(DeviceProfile::MagicTrackpad) });
}

#[test]
fn stored_bond_wins_over_inquiry() {
    let mut bench = Bench::idle();
    bench.cache.cache_scan_device(&TARGET, None, Some(&[0x40, 0x25, 0x00]));
    let by_hand = DeviceProfile::Other { id: 12, keyboard: false };
    let bonds = [
        bond(OTHER, DeviceProfile::Keyboard, false),
        bond(TARGET, by_hand, false),
        bond(TARGET, DeviceProfile::Keyboard, false),
    ];
    assert_eq!(choose_profile(&bonds, &bench.cache, &TARGET), by_hand);
    bench.step(Event::Command(ClassicCommand::Connect { address: TARGET }));
    bench.step(Event::Connected { handle: HANDLE });
    let mut expected = vec![Effect::SetConnected { address: TARGET, profile: by_hand }];
    expected.extend(sniff());
    assert_eq!(bench.step(Event::BondsLoaded(&bonds)), expected);
    assert_eq!(bench.phase(), Phase::OpeningChannels { link: link(by_hand) });
}

#[test]
fn channels_are_awaited_for_a_bounded_number_of_reads() {
    let mut bench = Bench::idle();
    bench.step(Event::Command(ClassicCommand::Connect { address: TARGET }));
    bench.step(Event::Connected { handle: HANDLE });
    bench.step(Event::BondsLoaded(&[]));
    bench.step(Event::ChannelsOpened(true));
    // One read of each outcome.
    assert_eq!(bench.task.pending(), Pending::PollChannels);
    bench.step(Event::ChannelsReady(false));
    assert_eq!(bench.task.pending(), Pending::ReadPacket);
    bench.step(Event::Acl(&acl(12)));
    assert_eq!(
        bench.task.pending(),
        Pending::ProcessSetupAcl { acl: AclHeader { handle_and_flags: 0x200B, len: 12 } }
    );
    bench.step(Event::AclProcessed(None));
    bench.step(Event::ChannelsReady(false));
    bench.step(Event::ReadFailed);
    assert_eq!(bench.task.pending(), Pending::Delay { millis: 10 });
    bench.step(Event::Elapsed);
    bench.step(Event::ChannelsReady(false));
    bench.step(Event::Hci { kind: HciEventKind::DisconnectionComplete, data: &[] });
    let trackpad = link(DeviceProfile::MagicTrackpad);
    assert_eq!(bench.phase(), Phase::PollingChannels { link: trackpad, reads: 3 });
    for _ in 3..5000 {
        bench.step(Event::ChannelsReady(false));
        bench.step(Event::OtherPacket);
    }
    assert_eq!(bench.phase(), Phase::PollingChannels { link: trackpad, reads: 5000 });
    bench.step(Event::ChannelsReady(false));
    assert_eq!(bench.step(Event::OtherPacket), vec![]);
    assert_eq!(bench.task.pending(), Pending::Delay { millis: 5_000 });
    assert_eq!(bench.step(Event::Elapsed), vec![Effect::ResetHost]);
}

#[test]
fn channels_that_do_not_open_restart_the_connection() {
    let mut bench = Bench::idle();
    bench.step(Event::Command(ClassicCommand::Connect { address: TARGET }));
    bench.step(Event::Connected { handle: HANDLE });
    bench.step(Event::BondsLoaded(&[]));
    assert_eq!(bench.step(Event::ChannelsOpened(false)), vec![]);
    assert_eq!(bench.phase(), Phase::RestartPause { millis: 5_000 });
}

#[test]
fn session_begins_with_the_setup_of_the_profile() {
    for (profile, requests) in [
        (DeviceProfile::Keyboard, vec![HidRequest::SetProtocolBoot]),
        (
            DeviceProfile::MagicTrackpad,
            vec![
                HidRequest::SetFeatureReport { report_id: 0xF1, data: [0x02, 0x01] },
                HidRequest::GetInputReport { report_id: 0x90 },
            ],
        ),
    ] {
        let mut bench = Bench::idle();
        bench.step(Event::Command(ClassicCommand::Connect { address: TARGET }));
        bench.step(Event::Connected { handle: HANDLE });
        bench.step(Event::BondsLoaded(&[bond(TARGET, profile, true)]));
        bench.step(Event::ChannelsOpened(true));
        let mut expected: Vec<Effect> = requests.into_iter().map(Effect::Request).collect();
        expected.push(Effect::NotifyState(ConnectionState::Connected));
        expected.push(Effect::StartBatteryPolls { secs: 60 });
        assert_eq!(bench.step(Event::ChannelsReady(true)), expected);
        assert_eq!(bench.phase(), Phase::InSession { link: link(profile) });
        assert_eq!(bench.task.pending(), Pending::SessionInput);
    }
}

#[test]
fn battery_is_polled_on_trackpads_only() {
    let mut trackpad = Bench::in_session(DeviceProfile::MagicTrackpad);
    assert_eq!(
        trackpad.step(Event::BatteryTick),
        vec![Effect::Request(HidRequest::GetInputReport { report_id: 0x90 })]
    );
    let mut keyboard = Bench::in_session(DeviceProfile::Keyboard);
    assert_eq!(keyboard.step(Event::BatteryTick), vec![]);
}

#[test]
fn key_reports_are_sent_with_a_second_chance() {
    let mut bench = Bench::in_session(DeviceProfile::Keyboard);
    let report = [0x02, 0x00, 0x04, 0x05, 0x00, 0x00, 0x00, 0x00];
    assert_eq!(bench.step(Event::Acl(&acl(20))), vec![]);
    assert_eq!(
        bench.task.pending(),
        Pending::ProcessReportAcl { acl: AclHeader { handle_and_flags: 0x200B, len: 20 } }
    );
    assert_eq!(bench.step(Event::AclProcessed(Some(&report))), vec![]);
    assert_eq!(bench.task.pending(), Pending::TrySendKeys { header: keyboard_header(), report });
    assert_eq!(bench.step(Event::KeysSent(false)), vec![]);
    assert_eq!(
        bench.task.pending(),
        Pending::SendKeys { header: keyboard_header(), report, millis: 20 }
    );
    assert_eq!(bench.step(Event::KeysSent(false)), vec![]);
    assert_eq!(bench.phase(), Phase::InSession { link: link(DeviceProfile::Keyboard) });
    bench.step(Event::Acl(&acl(20)));
    bench.step(Event::AclProcessed(Some(&report)));
    assert_eq!(bench.step(Event::KeysSent(true)), vec![]);
    assert_eq!(bench.task.pending(), Pending::SessionInput);
}

#[test]
fn unknown_key_reports_are_logged_a_few_times() {
    let mut bench = Bench::in_session(DeviceProfile::Keyboard);
    for n in 0..8u8 {
        bench.step(Event::Acl(&acl(20)));
        assert_eq!(
            bench.step(Event::AclProcessed(Some(&[0x02, 0xE9, 0x00]))),
            vec![Effect::LogUnknownReport { loud: n < 5 }]
        );
    }
    assert_eq!(bench.task.state().unknown_reports, 5);
}

#[test]
fn touch_reports_go_to_the_mouse_interface() {
    let mut bench = Bench::in_session(DeviceProfile::MagicTrackpad);
    let mut report = vec![0x31, 0, 0, 0];
    report.extend_from_slice(&[0u8; 9]);
    for n in 0..12u8 {
        bench.step(Event::Acl(&acl(20)));
        let mut expected = Vec::new();
        if n < 10 {
            expected.push(Effect::LogTouch { number: n, fingers: 1, len: 13 });
        }
        expected.push(Effect::SendTouch { header: touch_header(13, 64), report: &report });
        assert_eq!(bench.step(Event::AclProcessed(Some(&report))), expected);
    }
    report.extend_from_slice(&[0u8; 90]);
    bench.step(Event::Acl(&acl(120)));
    assert_eq!(
        bench.step(Event::AclProcessed(Some(&report))),
        vec![Effect::SendTouch { header: touch_header(64, 64), report: &report }]
    );
    bench.step(Event::Acl(&acl(20)));
    assert_eq!(
        bench.step(Event::AclProcessed(Some(&[0x90, 0x01, 88]))),
        vec![Effect::SetBatteryLevel(88)]
    );
    bench.step(Event::Acl(&acl(20)));
    assert_eq!(bench.step(Event::AclProcessed(Some(&[0x55]))), vec![]);
    bench.step(Event::Acl(&acl(20)));
    assert_eq!(bench.step(Event::AclProcessed(None)), vec![]);
    assert_eq!(bench.phase(), Phase::InSession { link: link(DeviceProfile::MagicTrackpad) });
}

#[test]
fn session_ends_cleanly() {
    for event in [
        Event::Command(ClassicCommand::Disconnect),
        Event::Command(ClassicCommand::ClearBond { address: TARGET }),
        Event::Hci { kind: HciEventKind::DisconnectionComplete, data: &[] },
    ] {
        let mut bench = Bench::in_session(DeviceProfile::Keyboard);
        assert_eq!(bench.step(event), session_end());
        assert_eq!(bench.task.pending(), Pending::Delay { millis: 2_000 });
        assert_eq!(bench.step(Event::Elapsed), vec![Effect::ResetHost]);
        assert_eq!(bench.task.pending(), Pending::LoadBonds);
    }
}

#[test]
fn session_goes_on_through_the_rest() {
    let mut bench = Bench::in_session(DeviceProfile::Keyboard);
    bench.keys.store(&OTHER, LinkKeyInfo { key: [1; 16], key_type: 4 });
    for event in [
        Event::Command(ClassicCommand::Scan),
        Event::Command(ClassicCommand::ScanStop),
        Event::Command(ClassicCommand::Connect { address: OTHER }),
        Event::Command(ClassicCommand::ClearBond { address: OTHER }),
        Event::Hci { kind: HciEventKind::InquiryComplete, data: &[] },
        Event::OtherPacket,
    ] {
        assert_eq!(bench.step(event), vec![]);
        assert_eq!(bench.phase(), Phase::InSession { link: link(DeviceProfile::Keyboard) });
    }
    assert_eq!(bench.keys.load(&OTHER), None);
    assert_eq!(bench.step(Event::ReadFailed), vec![]);
    assert_eq!(bench.task.pending(), Pending::Delay { millis: 1 });
    assert_eq!(bench.step(Event::Elapsed), vec![]);
    assert_eq!(bench.phase(), Phase::InSession { link: link(DeviceProfile::Keyboard) });
}

#[test]
fn profile_change_runs_setup_again() {
    let mut bench = Bench::in_session(DeviceProfile::MagicTrackpad);
    let keyboard = DeviceProfile::Keyboard;
    let elsewhere = ClassicCommand::UpdateProfile { address: OTHER, profile: keyboard };
    assert_eq!(bench.step(Event::Command(elsewhere)), vec![]);
    let same = ClassicCommand::UpdateProfile {
        address: TARGET,
        profile: DeviceProfile::MagicTrackpad,
    };
    assert_eq!(bench.step(Event::Command(same)), vec![]);
    assert_eq!(bench.phase(), Phase::InSession { link: link(DeviceProfile::MagicTrackpad) });
    let change = ClassicCommand::UpdateProfile { address: TARGET, profile: keyboard };
    assert_eq!(
        bench.step(Event::Command(change)),
        vec![
            Effect::SetConnected { address: TARGET, profile: keyboard },
            Effect::Request(HidRequest::SetProtocolBoot),
        ]
    );
    assert_eq!(bench.phase(), Phase::InSession { link: link(keyboard) });
}

#[test]
fn keyboard_works_from_its_first_connection() {
    let mut bench = Bench::idle();
    bench.step(Event::Command(ClassicCommand::Scan));
    bench.step(Event::InquiryStarted(true));
    // Two devices in one result with RSSI; the last one is a keyboard.
    let data = [
        2, 9, 2, 3, 4, 5, 6, 0x01, 0x00, 0x80, 0x25, 0x00, 0x11, 0x22, 0xC0, 1, 2, 3, 4, 5, 6, 0x01,
        0x00, 0x40, 0x25, 0x00, 0x11, 0x22, 0xC4,
    ];
    let effects = bench.step(Event::Hci { kind: HciEventKind::InquiryResultWithRssi, data: &data });
    assert_eq!(effects.len(), 2);
    bench.step(Event::Hci { kind: HciEventKind::InquiryComplete, data: &[] });
    bench.step(Event::Command(ClassicCommand::Connect { address: TARGET }));
    bench.step(Event::ConnectFailed);
    bench.step(Event::Elapsed);
    bench.step(Event::Connected { handle: HANDLE });
    let keyboard = DeviceProfile::Keyboard;
    let mut expected = vec![Effect::SetConnected { address: TARGET, profile: keyboard }];
    expected.extend(sniff());
    assert_eq!(bench.step(Event::BondsLoaded(&[])), expected);
    assert_eq!(bench.phase(), Phase::OpeningChannels { link: link(keyboard) });
    bench.step(Event::ChannelsOpened(true));
    assert_eq!(
        bench.step(Event::ChannelsReady(true)),
        vec![
            Effect::Request(HidRequest::SetProtocolBoot),
            Effect::NotifyState(ConnectionState::Connected),
            Effect::StartBatteryPolls { secs: 60 },
        ]
    );
}

#[test]
fn busy_scan_keeps_the_keyboard() {
    let mut bench = Bench::idle();
    bench.step(Event::Command(ClassicCommand::Scan));
    bench.step(Event::InquiryStarted(true));
    let result = |n: u8, low: u8| [1, n, 2, 3, 4, 5, 6, 0x01, 0, 0, low, 0x25, 0x00, 0x11, 0x22];
    let kind = HciEventKind::InquiryResult;
    // Shown as a pointing device first; what it was last shown with counts.
    bench.step(Event::Hci { kind, data: &result(1, 0x80) });
    bench.step(Event::Hci { kind, data: &result(1, 0x40) });
    for n in 2..9u8 {
        bench.step(Event::Hci { kind, data: &result(n, 0x80) });
    }
    assert_eq!(choose_profile(&[], &bench.cache, &TARGET), DeviceProfile::Keyboard);
    // A ninth device takes the place of the oldest one.
    bench.step(Event::Hci { kind, data: &result(9, 0x80) });
    assert_eq!(bench.cache.lookup_scan_cod(&TARGET), None);
    assert_eq!(choose_profile(&[], &bench.cache, &TARGET), DeviceProfile::MagicTrackpad);
}
