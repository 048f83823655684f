//! The Classic Bluetooth task as a state machine.
//!
//! The task waits for one thing at a time: a delay, the answer of the
//! controller, a command, a packet. [`ClassicTask::step`] takes what came, and
//! gives back what to do at once ([`Effect`]s, in order) and what to wait for
//! next ([`Pending`]).
//!
//! A connection goes ACL, authentication, encryption, L2CAP, HIDP; then the
//! reports of the device are forwarded. What happens after the HID channels open
//! depends on the device profile:
//!
//! - **Keyboard**: ask for boot protocol, then forward each input report to the
//!   USB boot keyboard interface.
//! - **Magic Trackpad**: enable multitouch, poll the battery, and forward touch
//!   reports.

use crate::bytes::{same_address, zero_array};
use crate::inquiry::{
    parse_extended_inquiry_result, parse_inquiry_result, parse_inquiry_result_with_rssi,
    FoundDevice,
};
use crate::link_keys::{LinkKeyEntry, MemoryLinkKeyStore, StoredClassicBond};
use crate::profile::{
    auto_connect_target, choose_profile, profile_setup, setup_requests, DeviceProfile, HidRequest,
    BATTERY_REPORT_ID,
};
use crate::reports::{
    acl_header, classify_trackpad_report, forward_keyboard_report, keyboard_header, touch_header,
    KeyReport, TrackpadReport,
};
use crate::scan_cache::{CachedDevice, ScanCache};
use crate::task_rules::{
    after_setup_read, all_noted, end_effects, found_devices, next, on_connected, on_idle_command,
    on_inquiry_input, on_key_report, on_session_command, on_session_input, on_trackpad_report,
    pending_in, scan_reports, setup_effects, sniff_effects, state_ok, World,
};
use crate::task_types::{
    ClassicCommand, ConnectionState, Effect, Event, HciEventKind, Link, Notice, Pending, Phase,
    TaskState, BATTERY_POLL_SECS, CHANNEL_RETRY_MILLIS, CONNECT_GIVE_UP_MILLIS, CONNECT_RETRY_MILLIS,
    KEY_SEND_MILLIS, MAX_CONNECT_ATTEMPTS, MAX_SETUP_READS, MAX_TOUCH_LOGS, READ_RETRY_MILLIS,
    RECONNECT_MILLIS, SESSION_RETRY_MILLIS, SETTLE_MILLIS,
};
use vstd::prelude::*;

verus! {

/// Append the requests for sniff mode.
fn push_sniff(effects: &mut Vec<Effect<'_>>, handle: u16)
    ensures
        final(effects)@ == old(effects)@ + sniff_effects(handle),
{
    effects.push(Effect::EnableSniff { handle });
    effects.push(
        Effect::SniffMode { handle, max_interval: 18, min_interval: 18, attempt: 4, timeout: 1 },
    );
    effects.push(Effect::SniffSubrating { handle, max_latency: 800, min_remote: 0, min_local: 0 });
    assert(effects@ == old(effects)@ + sniff_effects(handle));
}

/// Append the requests that set a device up.
fn push_setup(effects: &mut Vec<Effect<'_>>, profile: DeviceProfile)
    ensures
        final(effects)@ == old(effects)@ + setup_effects(profile),
{
    let requests: Vec<HidRequest> = profile_setup(profile);
    let mut i: usize = 0;
    assert(effects@ == old(effects)@ + setup_effects(profile).take(0));
    while i < requests.len()
        invariant
            i <= requests@.len(),
            requests@ == setup_requests(profile),
            effects@ == old(effects)@ + setup_effects(profile).take(i as int),
        decreases requests@.len() - i,
    {
        effects.push(Effect::Request(requests[i]));
        i = i + 1;
        assert(effects@ == old(effects)@ + setup_effects(profile).take(i as int));
    }
    assert(setup_effects(profile).take(i as int) == setup_effects(profile));
}

/// Append what the end of a session calls for.
fn push_end(effects: &mut Vec<Effect<'_>>)
    ensures
        final(effects)@ == old(effects)@ + end_effects(),
{
    effects.push(Effect::SetDisconnected);
    effects.push(Effect::ClearBatteryLevel);
    effects.push(Effect::NotifyState(ConnectionState::Disconnected));
    assert(effects@ == old(effects)@ + end_effects());
}

/// Read the devices that an HCI event reports.
fn read_found(kind: HciEventKind, data: &[u8]) -> (r: Vec<FoundDevice>)
    ensures
        r@ == found_devices(kind, data@),
{
    match kind {
        HciEventKind::InquiryResult => parse_inquiry_result(data),
        HciEventKind::InquiryResultWithRssi => parse_inquiry_result_with_rssi(data),
        HciEventKind::ExtendedInquiryResult => {
            let mut found: Vec<FoundDevice> = Vec::new();
            if let Some(device) = parse_extended_inquiry_result(data) {
                found.push(device);
            }
            assert(found@ == found_devices(kind, data@));
            found
        },
        _ => Vec::new(),
    }
}

/// Note found devices in the cache; gives the reports of them.
fn note_found<'a>(cache: &mut ScanCache, found: &Vec<FoundDevice>) -> (r: Vec<Effect<'a>>)
    requires
        old(cache).wf(),
    ensures
        final(cache).wf(),
        final(cache)@ == all_noted(old(cache)@, found@),
        r@ == scan_reports(found@),
{
    let mut effects: Vec<Effect> = Vec::new();
    let mut i: usize = 0;
    while i < found.len()
        invariant
            i <= found@.len(),
            cache.wf(),
            cache@ == all_noted(old(cache)@, found@.take(i as int)),
            effects@ == scan_reports(found@.take(i as int)),
        decreases found@.len() - i,
    {
        let device: FoundDevice = found[i];
        cache.cache_scan_device(
            &device.result.address,
            Some((&device.result.name, device.result.name_len)),
            Some(&device.cod),
        );
        effects.push(Effect::ReportScan(device.result));
        i = i + 1;
        proof {
            let seen = found@.take(i as int);
            assert(seen.drop_last() == found@.take(i - 1));
            assert(seen.last() == device);
            assert(effects@ == scan_reports(seen));
        }
    }
    assert(found@.take(i as int) == found@);
    effects
}

/// The Classic Bluetooth task.
pub struct ClassicTask {
    state: TaskState,
}

impl ClassicTask {
    /// The state of the task.
    pub closed spec fn view(&self) -> TaskState {
        self.state
    }

    /// The state keeps within its limits.
    pub open spec fn wf(&self) -> bool {
        state_ok(self@)
    }

    /// The task at power-up. The USB side takes `report_capacity` bytes of a
    /// report at most.
    pub fn new(report_capacity: usize) -> (r: Self)
        ensures
            r.wf(),
            r@ == (TaskState {
                phase: Phase::Settling,
                report_capacity,
                unknown_reports: 0,
                touch_reports: 0,
            }),
    {
        ClassicTask {
            state: TaskState {
                phase: Phase::Settling,
                report_capacity,
                unknown_reports: 0,
                touch_reports: 0,
            },
        }
    }

    /// The state of the task.
    pub fn state(&self) -> (r: TaskState)
        ensures
            r == self@,
    {
        self.state
    }

    /// What the task waits for.
    pub fn pending(&self) -> (r: Pending)
        ensures
            r == pending_in(self@.phase),
    {
        match self.state.phase {
            Phase::Settling => Pending::Delay { millis: SETTLE_MILLIS },
            Phase::LoadingKeys => Pending::LoadBonds,
            Phase::ResolvingTarget => Pending::LoadBonds,
            Phase::AwaitingCommand => Pending::ReceiveCommand,
            Phase::StartingInquiry => Pending::StartInquiry {
                lap: [0x33, 0x8B, 0x9E],
                length: 23,
                responses: 0,
            },
            Phase::Inquiring => Pending::InquiryInput,
            Phase::InquiryPause => Pending::Delay { millis: READ_RETRY_MILLIS },
            Phase::Connecting { target, attempt: _ } => Pending::Connect { address: target },
            Phase::RetryPause { target: _, attempt: _ } => Pending::Delay {
                millis: CONNECT_RETRY_MILLIS,
            },
            Phase::ChoosingProfile { target: _, handle: _ } => Pending::LoadBonds,
            Phase::PersistingBond { link, key, name, name_len } => Pending::PersistBond {
                address: link.target,
                key,
                profile: link.profile,
                auto_connect: true,
                name,
                name_len,
            },
            Phase::OpeningChannels { link } => Pending::OpenChannels { handle: link.handle },
            Phase::PollingChannels { link: _, reads: _ } => Pending::PollChannels,
            Phase::ReadingSetup { link: _, reads: _ } => Pending::ReadPacket,
            Phase::ProcessingSetup { link: _, reads: _, acl } => Pending::ProcessSetupAcl { acl },
            Phase::SetupPause { link: _, reads: _ } => Pending::Delay { millis: READ_RETRY_MILLIS },
            Phase::RestartPause { millis } => Pending::Delay { millis },
            Phase::InSession { link: _ } => Pending::SessionInput,
            Phase::ProcessingReport { link: _, acl } => Pending::ProcessReportAcl { acl },
            Phase::SessionPause { link: _ } => Pending::Delay { millis: SESSION_RETRY_MILLIS },
            Phase::SendingKeys { link: _, report } => Pending::TrySendKeys {
                header: keyboard_header(),
                report,
            },
            Phase::AwaitingKeyRoom { link: _, report } => Pending::SendKeys {
                header: keyboard_header(),
                report,
                millis: KEY_SEND_MILLIS,
            },
        }
    }

    /// The task, the given link keys and the given scanned devices.
    pub open spec fn world(&self, keys: &MemoryLinkKeyStore, cache: &ScanCache) -> World {
        World { state: self@, keys: keys@, devices: cache@ }
    }

    /// A command while nothing is connected.
    fn idle_command<'a>(
        &mut self,
        keys: &mut MemoryLinkKeyStore,
        command: ClassicCommand,
    ) -> (r: Vec<Effect<'a>>)
        requires
            old(self).wf(),
        ensures
            final(self).wf(),
            forall|devices: Seq<CachedDevice>|
                #[trigger] on_idle_command(
                    World { state: old(self)@, keys: old(keys)@, devices },
                    command,
                ) == Some((World { state: final(self)@, keys: final(keys)@, devices }, r@)),
    {
        let mut effects: Vec<Effect> = Vec::new();
        match command {
            ClassicCommand::Connect { address } => {
                effects.push(Effect::NotifyState(ConnectionState::Connecting));
                self.state.phase = Phase::Connecting { target: address, attempt: 1 };
            },
            ClassicCommand::Scan => {
                effects.push(Effect::Announce(Notice::InquiryStarting));
                self.state.phase = Phase::StartingInquiry;
            },
            ClassicCommand::ClearBond { address } => {
                keys.remove(&address);
                self.state.phase = Phase::AwaitingCommand;
            },
            _ => {
                self.state.phase = Phase::AwaitingCommand;
            },
        }
        effects
    }

    /// An input during an Inquiry.
    fn inquiry_input<'a>(&mut self, cache: &mut ScanCache, event: Event<'a>) -> (r: Option<
        Vec<Effect<'a>>,
    >)
        requires
            old(self).wf(),
            old(cache).wf(),
        ensures
            final(self).wf(),
            final(cache).wf(),
            r is None ==> final(self)@ == old(self)@ && final(cache)@ == old(cache)@,
            forall|keys: Seq<LinkKeyEntry>|
                #[trigger] on_inquiry_input(
                    World { state: old(self)@, keys, devices: old(cache)@ },
                    event,
                ) == (match r {
                    Some(effects) => Some(
                        (World { state: final(self)@, keys, devices: final(cache)@ }, effects@),
                    ),
                    None => None,
                }),
    {
        let mut effects: Vec<Effect> = Vec::new();
        match event {
            Event::Command(ClassicCommand::ScanStop) => {
                effects.push(Effect::CancelInquiry);
                effects.push(Effect::Announce(Notice::InquiryCancelled));
                self.state.phase = Phase::AwaitingCommand;
            },
            Event::Command(command) => {
                effects.push(Effect::Requeue(command));
                self.state.phase = Phase::Inquiring;
            },
            Event::Hci { kind: HciEventKind::InquiryComplete, data: _ } => {
                effects.push(Effect::Announce(Notice::InquiryComplete));
                self.state.phase = Phase::AwaitingCommand;
            },
            Event::Hci { kind, data } => {
                let found: Vec<FoundDevice> = read_found(kind, data);
                effects = note_found(cache, &found);
                self.state.phase = Phase::Inquiring;
            },
            Event::Acl(_) => {
                self.state.phase = Phase::Inquiring;
            },
            Event::OtherPacket => {
                self.state.phase = Phase::Inquiring;
            },
            Event::ReadFailed => {
                self.state.phase = Phase::InquiryPause;
            },
            _ => {
                return None;
            },
        }
        Some(effects)
    }

    /// A device is connected, and the bonds are known.
    fn connected<'a>(
        &mut self,
        keys: &MemoryLinkKeyStore,
        cache: &ScanCache,
        target: [u8; 6],
        handle: u16,
        bonds: &[StoredClassicBond],
    ) -> (r: Vec<Effect<'a>>)
        requires
            old(self).wf(),
            cache.wf(),
        ensures
            final(self).wf(),
            on_connected(old(self).world(keys, cache), target, handle, bonds@) == Some(
                (final(self).world(keys, cache), r@),
            ),
    {
        let profile: DeviceProfile = choose_profile(bonds, cache, &target);
        let link = Link { target, handle, profile };
        let mut effects: Vec<Effect> = Vec::new();
        effects.push(Effect::SetConnected { address: target, profile });
        match keys.load(&target) {
            Some(key) => {
                let (name, name_len): ([u8; 32], u8) = match cache.lookup_scan_name(&target) {
                    Some(name) => name,
                    None => (zero_array::<32>(), 0),
                };
                self.state.phase = Phase::PersistingBond { link, key, name, name_len };
            },
            None => {
                push_sniff(&mut effects, handle);
                self.state.phase = Phase::OpeningChannels { link };
            },
        }
        assert(seq![Effect::SetConnected { address: target, profile }] =~= Seq::<Effect>::empty().push(
            Effect::SetConnected { address: target, profile },
        ));
        effects
    }

    /// One more read while the HID channels open.
    fn count_setup_read(&mut self, link: Link, reads: u16)
        requires
            old(self).wf(),
        ensures
            final(self).wf(),
            forall|keys: Seq<LinkKeyEntry>, devices: Seq<CachedDevice>|
                #[trigger] after_setup_read(World { state: old(self)@, keys, devices }, link, reads)
                    == Some((World { state: final(self)@, keys, devices }, Seq::<Effect>::empty())),
    {
        if reads >= MAX_SETUP_READS {
            self.state.phase = Phase::RestartPause { millis: CHANNEL_RETRY_MILLIS };
        } else {
            self.state.phase = Phase::PollingChannels { link, reads: reads + 1 };
        }
    }

    /// A command in a session.
    fn session_command<'a>(
        &mut self,
        keys: &mut MemoryLinkKeyStore,
        link: Link,
        command: ClassicCommand,
    ) -> (r: Vec<Effect<'a>>)
        requires
            old(self).wf(),
        ensures
            final(self).wf(),
            forall|devices: Seq<CachedDevice>|
                #[trigger] on_session_command(
                    World { state: old(self)@, keys: old(keys)@, devices },
                    link,
                    command,
                ) == Some((World { state: final(self)@, keys: final(keys)@, devices }, r@)),
    {
        let mut effects: Vec<Effect> = Vec::new();
        self.state.phase = Phase::InSession { link };
        match command {
            ClassicCommand::Disconnect => {
                push_end(&mut effects);
                self.state.phase = Phase::RestartPause { millis: RECONNECT_MILLIS };
            },
            ClassicCommand::ClearBond { address } => {
                keys.remove(&address);
                if same_address(&address, &link.target) {
                    push_end(&mut effects);
                    self.state.phase = Phase::RestartPause { millis: RECONNECT_MILLIS };
                }
            },
            ClassicCommand::UpdateProfile { address, profile } => {
                if same_address(&address, &link.target) && profile != link.profile {
                    effects.push(Effect::SetConnected { address, profile });
                    push_setup(&mut effects, profile);
                    self.state.phase = Phase::InSession {
                        link: Link { target: link.target, handle: link.handle, profile },
                    };
                    assert(effects@ == seq![Effect::SetConnected { address, profile }]
                        + setup_effects(profile));
                }
            },
            _ => {},
        }
        effects
    }

    /// An input in a session.
    fn session_input<'a>(
        &mut self,
        keys: &mut MemoryLinkKeyStore,
        link: Link,
        event: Event<'a>,
    ) -> (r: Option<Vec<Effect<'a>>>)
        requires
            old(self).wf(),
        ensures
            final(self).wf(),
            r is None ==> final(self)@ == old(self)@ && final(keys)@ == old(keys)@,
            forall|devices: Seq<CachedDevice>|
                #[trigger] on_session_input(
                    World { state: old(self)@, keys: old(keys)@, devices },
                    link,
                    event,
                ) == (match r {
                    Some(effects) => Some(
                        (World { state: final(self)@, keys: final(keys)@, devices }, effects@),
                    ),
                    None => None,
                }),
    {
        let mut effects: Vec<Effect> = Vec::new();
        match event {
            Event::BatteryTick => {
                if !link.profile.is_keyboard() {
                    effects.push(
                        Effect::Request(HidRequest::GetInputReport { report_id: BATTERY_REPORT_ID }),
                    );
                }
                self.state.phase = Phase::InSession { link };
            },
            Event::Command(command) => {
                effects = self.session_command(keys, link, command);
            },
            Event::Acl(rx) => {
                self.state.phase = Phase::ProcessingReport { link, acl: acl_header(rx) };
            },
            Event::Hci { kind: HciEventKind::DisconnectionComplete, data: _ } => {
                push_end(&mut effects);
                self.state.phase = Phase::RestartPause { millis: RECONNECT_MILLIS };
            },
            Event::Hci { kind: _, data: _ } => {
                self.state.phase = Phase::InSession { link };
            },
            Event::OtherPacket => {
                self.state.phase = Phase::InSession { link };
            },
            Event::ReadFailed => {
                self.state.phase = Phase::SessionPause { link };
            },
            _ => {
                return None;
            },
        }
        Some(effects)
    }

    /// A report of a keyboard.
    fn keyboard_report<'a>(&mut self, link: Link, report: &[u8]) -> (r: Vec<Effect<'a>>)
        requires
            old(self).wf(),
        ensures
            final(self).wf(),
            forall|keys: Seq<LinkKeyEntry>, devices: Seq<CachedDevice>|
                #[trigger] on_key_report(World { state: old(self)@, keys, devices }, link, report@)
                    == Some((World { state: final(self)@, keys, devices }, r@)),
    {
        let mut effects: Vec<Effect> = Vec::new();
        match forward_keyboard_report(report, self.state.unknown_reports) {
            KeyReport::Forward { report } => {
                self.state.phase = Phase::SendingKeys { link, report };
            },
            KeyReport::Drop { loud } => {
                if loud {
                    self.state.unknown_reports = self.state.unknown_reports + 1;
                }
                effects.push(Effect::LogUnknownReport { loud });
                self.state.phase = Phase::InSession { link };
            },
        }
        effects
    }

    /// A report of a Magic Trackpad 2.
    fn trackpad_report<'a>(&mut self, link: Link, report: &'a [u8]) -> (r: Vec<Effect<'a>>)
        requires
            old(self).wf(),
        ensures
            final(self).wf(),
            forall|keys: Seq<LinkKeyEntry>, devices: Seq<CachedDevice>|
                #[trigger] on_trackpad_report(
                    World { state: old(self)@, keys, devices },
                    link,
                    report,
                ) == Some((World { state: final(self)@, keys, devices }, r@)),
    {
        let mut effects: Vec<Effect> = Vec::new();
        self.state.phase = Phase::InSession { link };
        match classify_trackpad_report(report) {
            TrackpadReport::Touch { fingers } => {
                let number: u8 = self.state.touch_reports;
                if number < MAX_TOUCH_LOGS {
                    self.state.touch_reports = number + 1;
                    effects.push(Effect::LogTouch { number, fingers, len: report.len() });
                }
                let header = touch_header(report.len(), self.state.report_capacity);
                effects.push(Effect::SendTouch { header, report });
            },
            TrackpadReport::Battery { flags: _, capacity } => {
                effects.push(Effect::SetBatteryLevel(capacity));
            },
            TrackpadReport::Other { report_id: _ } => {},
        }
        effects
    }

    /// Take what came, and give back what to do at once; what to wait for next
    /// is then [`ClassicTask::pending`]. An event that the task does not wait
    /// for changes nothing and gives nothing back.
    pub fn step<'a>(
        &mut self,
        keys: &mut MemoryLinkKeyStore,
        cache: &mut ScanCache,
        event: Event<'a>,
    ) -> (r: Option<Vec<Effect<'a>>>)
        requires
            old(self).wf(),
            old(cache).wf(),
        ensures
            final(self).wf(),
            final(cache).wf(),
            match next(old(self).world(old(keys), old(cache)), event) {
                Some((world, effects)) => {
                    &&& r matches Some(given) && given@ == effects
                    &&& final(self).world(final(keys), final(cache)) == world
                },
                None => {
                    &&& r is None
                    &&& final(self).world(final(keys), final(cache)) == old(self).world(
                        old(keys),
                        old(cache),
                    )
                },
            },
    {
        let mut effects: Vec<Effect> = Vec::new();
        match (self.state.phase, event) {
            (Phase::Settling, Event::Elapsed) => {
                effects.push(Effect::SetEventMask);
                effects.push(Effect::WriteSimplePairingMode { mode: 1 });
                effects.push(Effect::WriteInquiryMode { mode: 2 });
                effects.push(Effect::SignalInitDone);
                self.state.phase = Phase::LoadingKeys;
            },
            (Phase::LoadingKeys, Event::BondsLoaded(bonds)) => {
                keys.load_from_flash(bonds);
                effects.push(Effect::ResetHost);
                self.state.phase = Phase::ResolvingTarget;
            },
            (Phase::ResolvingTarget, Event::BondsLoaded(bonds)) => {
                match auto_connect_target(bonds) {
                    Some(target) => {
                        effects.push(Effect::NotifyState(ConnectionState::Connecting));
                        self.state.phase = Phase::Connecting { target, attempt: 1 };
                    },
                    None => {
                        self.state.phase = Phase::AwaitingCommand;
                    },
                }
            },
            (Phase::AwaitingCommand, Event::Command(command)) => {
                effects = self.idle_command(keys, command);
            },
            (Phase::StartingInquiry, Event::InquiryStarted(accepted)) => {
                if accepted {
                    self.state.phase = Phase::Inquiring;
                } else {
                    effects.push(Effect::Announce(Notice::InquiryFailed));
                    self.state.phase = Phase::AwaitingCommand;
                }
            },
            (Phase::Inquiring, _) => {
                return self.inquiry_input(cache, event);
            },
            (Phase::InquiryPause, Event::Elapsed) => {
                self.state.phase = Phase::Inquiring;
            },
            (Phase::Connecting { target, attempt: _ }, Event::Connected { handle }) => {
                effects.push(Effect::NotifyPairingComplete);
                self.state.phase = Phase::ChoosingProfile { target, handle };
            },
            (Phase::Connecting { target, attempt }, Event::ConnectFailed) => {
                self.state.phase = if attempt >= MAX_CONNECT_ATTEMPTS {
                    Phase::RestartPause { millis: CONNECT_GIVE_UP_MILLIS }
                } else {
                    Phase::RetryPause { target, attempt }
                };
            },
            (Phase::RetryPause { target, attempt }, Event::Elapsed) => {
                effects.push(Effect::NotifyState(ConnectionState::Connecting));
                self.state.phase = Phase::Connecting { target, attempt: attempt + 1 };
            },
            (Phase::ChoosingProfile { target, handle }, Event::BondsLoaded(bonds)) => {
                effects = self.connected(keys, cache, target, handle, bonds);
            },
            (
                Phase::PersistingBond { link, key: _, name: _, name_len: _ },
                Event::BondPersisted(written),
            ) => {
                if written {
                    effects.push(
                        Effect::NotifyBondStored { address: link.target, profile: link.profile },
                    );
                }
                push_sniff(&mut effects, link.handle);
                self.state.phase = Phase::OpeningChannels { link };
            },
            (Phase::OpeningChannels { link }, Event::ChannelsOpened(opened)) => {
                self.state.phase = if opened {
                    Phase::PollingChannels { link, reads: 0 }
                } else {
                    Phase::RestartPause { millis: CHANNEL_RETRY_MILLIS }
                };
            },
            (Phase::PollingChannels { link, reads }, Event::ChannelsReady(ready)) => {
                if ready {
                    push_setup(&mut effects, link.profile);
                    effects.push(Effect::NotifyState(ConnectionState::Connected));
                    effects.push(Effect::StartBatteryPolls { secs: BATTERY_POLL_SECS });
                    self.state.phase = Phase::InSession { link };
                } else {
                    self.state.phase = Phase::ReadingSetup { link, reads };
                }
            },
            (Phase::ReadingSetup { link, reads }, Event::Acl(rx)) => {
                self.state.phase = Phase::ProcessingSetup { link, reads, acl: acl_header(rx) };
            },
            (Phase::ReadingSetup { link, reads }, Event::Hci { kind: _, data: _ }) => {
                self.count_setup_read(link, reads);
            },
            (Phase::ReadingSetup { link, reads }, Event::OtherPacket) => {
                self.count_setup_read(link, reads);
            },
            (Phase::ReadingSetup { link, reads }, Event::ReadFailed) => {
                self.state.phase = Phase::SetupPause { link, reads };
            },
            (Phase::ProcessingSetup { link, reads, acl: _ }, Event::AclProcessed(_)) => {
                self.count_setup_read(link, reads);
            },
            (Phase::SetupPause { link, reads }, Event::Elapsed) => {
                self.count_setup_read(link, reads);
            },
            (Phase::RestartPause { millis: _ }, Event::Elapsed) => {
                effects.push(Effect::ResetHost);
                self.state.phase = Phase::ResolvingTarget;
            },
            (Phase::InSession { link }, _) => {
                return self.session_input(keys, link, event);
            },
            (Phase::ProcessingReport { link, acl: _ }, Event::AclProcessed(None)) => {
                self.state.phase = Phase::InSession { link };
            },
            (Phase::ProcessingReport { link, acl: _ }, Event::AclProcessed(Some(report))) => {
                effects = if link.profile.is_keyboard() {
                    self.keyboard_report(link, report)
                } else {
                    self.trackpad_report(link, report)
                };
            },
            (Phase::SessionPause { link }, Event::Elapsed) => {
                self.state.phase = Phase::InSession { link };
            },
            (Phase::SendingKeys { link, report }, Event::KeysSent(sent)) => {
                self.state.phase = if sent {
                    Phase::InSession { link }
                } else {
                    Phase::AwaitingKeyRoom { link, report }
                };
            },
            (Phase::AwaitingKeyRoom { link, report: _ }, Event::KeysSent(_)) => {
                self.state.phase = Phase::InSession { link };
            },
            _ => {
                return None;
            },
        }
        Some(effects)
    }
}

} // verus!
