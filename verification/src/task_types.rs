//! The vocabulary of the Classic Bluetooth task: what it is told, what it waits
//! for and what it has done.

use crate::inquiry::ScanResultData;
use crate::link_keys::{LinkKeyInfo, StoredClassicBond};
use crate::profile::{DeviceProfile, HidRequest};
use crate::reports::{AclHeader, ReportHeader, RX_BUFFER_LEN};
use vstd::prelude::*;

verus! {

/// How often a connection is tried before a long pause.
pub const MAX_CONNECT_ATTEMPTS: u8 = 5;

/// How many reads to wait for the HID channels to open.
pub const MAX_SETUP_READS: u16 = 5000;

/// How many touch reports to log.
pub const MAX_TOUCH_LOGS: u8 = 10;

/// Time for the BLE host to finish its own initialisation.
pub const SETTLE_MILLIS: u32 = 300;

/// Pause after a read error while scanning or setting up.
pub const READ_RETRY_MILLIS: u32 = 10;

/// Pause after a read error in a session.
pub const SESSION_RETRY_MILLIS: u32 = 1;

/// Pause between two connection attempts. The remote may still think it is
/// connected from a previous session.
pub const CONNECT_RETRY_MILLIS: u32 = 5_000;

/// Pause after the last connection attempt.
pub const CONNECT_GIVE_UP_MILLIS: u32 = 30_000;

/// Pause after the HID channels could not be opened.
pub const CHANNEL_RETRY_MILLIS: u32 = 5_000;

/// Pause after a session.
pub const RECONNECT_MILLIS: u32 = 2_000;

/// How long a keyboard report may wait for room on the USB side.
pub const KEY_SEND_MILLIS: u32 = 20;

/// How often the battery of a Magic Trackpad 2 is polled.
pub const BATTERY_POLL_SECS: u32 = 60;

/// A command to the task.
#[derive(Debug, Clone, Copy, PartialEq, Eq)]
pub enum ClassicCommand {
    /// Connect to a device.
    Connect { address: [u8; 6] },
    /// Look for devices.
    Scan,
    /// Stop looking.
    ScanStop,
    /// Forget a device.
    ClearBond { address: [u8; 6] },
    /// End the session.
    Disconnect,
    /// Drive a device by another profile.
    UpdateProfile { address: [u8; 6], profile: DeviceProfile },
}

/// The HCI events that the task tells apart.
#[derive(Debug, Clone, Copy, PartialEq, Eq)]
pub enum HciEventKind {
    InquiryComplete,
    InquiryResult,
    InquiryResultWithRssi,
    ExtendedInquiryResult,
    DisconnectionComplete,
    Other,
}

/// What the user is told of the connection.
#[derive(Debug, Clone, Copy, PartialEq, Eq)]
pub enum ConnectionState {
    Connecting,
    Connected,
    Disconnected,
}

/// What the user is told of an Inquiry.
#[derive(Debug, Clone, Copy, PartialEq, Eq)]
pub enum Notice {
    InquiryStarting,
    InquiryFailed,
    InquiryCancelled,
    InquiryComplete,
}

/// A connected device.
#[derive(Debug, Clone, Copy, PartialEq, Eq)]
pub struct Link {
    pub target: [u8; 6],
    pub handle: u16,
    pub profile: DeviceProfile,
}

/// What the task is doing.
#[derive(Debug, Clone, Copy, PartialEq, Eq)]
pub enum Phase {
    /// Letting the BLE host finish its initialisation.
    Settling,
    /// Loading the link keys of all bonds.
    LoadingKeys,
    /// Looking for a bond to connect to without being asked.
    ResolvingTarget,
    /// Waiting to be told what to do.
    AwaitingCommand,
    /// Starting an Inquiry.
    StartingInquiry,
    /// Collecting Inquiry results.
    Inquiring,
    /// Pausing after a read error during an Inquiry.
    InquiryPause,
    /// Connecting, for the given time.
    Connecting { target: [u8; 6], attempt: u8 },
    /// Pausing before the next attempt.
    RetryPause { target: [u8; 6], attempt: u8 },
    /// Connected; finding out how to drive the device.
    ChoosingProfile { target: [u8; 6], handle: u16 },
    /// Writing the bond to flash.
    PersistingBond { link: Link, key: LinkKeyInfo, name: [u8; 32], name_len: u8 },
    /// Asking for the HID channels.
    OpeningChannels { link: Link },
    /// Looking whether the HID channels are open.
    PollingChannels { link: Link, reads: u16 },
    /// Reading a packet while the HID channels open.
    ReadingSetup { link: Link, reads: u16 },
    /// Handing an ACL packet to L2CAP while the HID channels open.
    ProcessingSetup { link: Link, reads: u16, acl: AclHeader },
    /// Pausing after a read error while the HID channels open.
    SetupPause { link: Link, reads: u16 },
    /// Pausing before the next connection.
    RestartPause { millis: u32 },
    /// Waiting for reports, commands and battery polls.
    InSession { link: Link },
    /// Handing an ACL packet to L2CAP and HIDP.
    ProcessingReport { link: Link, acl: AclHeader },
    /// Pausing after a read error in a session.
    SessionPause { link: Link },
    /// Handing a key report to the USB side.
    SendingKeys { link: Link, report: [u8; 8] },
    /// Waiting for room on the USB side: a dropped key release leaves the host
    /// with a key held down and repeating, so a key report gets a short wait.
    AwaitingKeyRoom { link: Link, report: [u8; 8] },
}

/// What the task waits for.
#[derive(Debug, Clone, Copy, PartialEq, Eq)]
pub enum Pending {
    /// Wait, then [`Event::Elapsed`].
    Delay { millis: u32 },
    /// Read the bonds from flash, then [`Event::BondsLoaded`].
    LoadBonds,
    /// Receive a command, then [`Event::Command`].
    ReceiveCommand,
    /// Start an Inquiry, then [`Event::InquiryStarted`].
    StartInquiry { lap: [u8; 3], length: u8, responses: u8 },
    /// Read a packet or receive a command, whichever comes first.
    InquiryInput,
    /// Connect, then [`Event::Connected`] or [`Event::ConnectFailed`].
    Connect { address: [u8; 6] },
    /// Write a bond to flash, then [`Event::BondPersisted`].
    PersistBond {
        address: [u8; 6],
        key: LinkKeyInfo,
        profile: DeviceProfile,
        auto_connect: bool,
        name: [u8; 32],
        name_len: u8,
    },
    /// Ask for the HID channels on a fresh L2CAP state, then
    /// [`Event::ChannelsOpened`].
    OpenChannels { handle: u16 },
    /// See whether the HID channels are open, then [`Event::ChannelsReady`].
    PollChannels,
    /// Read a packet.
    ReadPacket,
    /// Hand the payload of the packet just read to L2CAP, then
    /// [`Event::AclProcessed`].
    ProcessSetupAcl { acl: AclHeader },
    /// Read a packet, receive a command or await the battery poll, whichever
    /// comes first.
    SessionInput,
    /// Hand the payload of the packet just read to L2CAP, and what comes out of
    /// that to HIDP, then [`Event::AclProcessed`].
    ProcessReportAcl { acl: AclHeader },
    /// Hand a report to the USB side if there is room, then
    /// [`Event::KeysSent`].
    TrySendKeys { header: ReportHeader, report: [u8; 8] },
    /// Hand a report to the USB side, waiting for room for a while, then
    /// [`Event::KeysSent`].
    SendKeys { header: ReportHeader, report: [u8; 8], millis: u32 },
}

/// What came of what the task waited for.
#[derive(Clone, Copy)]
pub enum Event<'a> {
    /// The delay is over.
    Elapsed,
    /// The bonds in flash.
    BondsLoaded(&'a [StoredClassicBond]),
    /// A command came.
    Command(ClassicCommand),
    /// Whether the controller accepted the Inquiry.
    InquiryStarted(bool),
    /// An HCI event came, with its parameters.
    Hci { kind: HciEventKind, data: &'a [u8] },
    /// An ACL packet came; the buffer starts with the HCI packet type.
    Acl(&'a [u8; RX_BUFFER_LEN]),
    /// A packet of another type came.
    OtherPacket,
    /// Reading from the controller failed.
    ReadFailed,
    /// It is time to poll the battery.
    BatteryTick,
    /// Connected and encrypted.
    Connected { handle: u16 },
    /// The connection attempt failed.
    ConnectFailed,
    /// Whether the bond was written.
    BondPersisted(bool),
    /// Whether the HID channels could be asked for.
    ChannelsOpened(bool),
    /// Whether the HID channels are open.
    ChannelsReady(bool),
    /// The packet was handed on; the HID report that came out of it, if any.
    AclProcessed(Option<&'a [u8]>),
    /// Whether the USB side took the report.
    KeysSent(bool),
}

/// Something to do at once, whose outcome changes nothing.
#[derive(Debug, Clone, Copy, PartialEq, Eq)]
pub enum Effect<'a> {
    /// Send the event mask of [`crate::event_mask::classic_event_mask`].
    SetEventMask,
    /// Write Simple Pairing Mode.
    WriteSimplePairingMode { mode: u8 },
    /// Write Inquiry Mode: 0 = standard, 1 = with RSSI, 2 = extended.
    WriteInquiryMode { mode: u8 },
    /// Release the BLE connection manager.
    SignalInitDone,
    /// Reset the host resources and begin with a new runner.
    ResetHost,
    /// Cancel the Inquiry.
    CancelInquiry,
    /// Tell the user about the Inquiry.
    Announce(Notice),
    /// Put a command back into the queue.
    Requeue(ClassicCommand),
    /// Report a found device.
    ReportScan(ScanResultData),
    /// Report the state of the connection.
    NotifyState(ConnectionState),
    /// Report that pairing is complete.
    NotifyPairingComplete,
    /// Report that a bond was stored.
    NotifyBondStored { address: [u8; 6], profile: DeviceProfile },
    /// Mark the device as connected for status reports.
    SetConnected { address: [u8; 6], profile: DeviceProfile },
    /// Mark the device as disconnected.
    SetDisconnected,
    /// Allow sniff mode in the link policy.
    EnableSniff { handle: u16 },
    /// Request sniff mode.
    SniffMode { handle: u16, max_interval: u16, min_interval: u16, attempt: u16, timeout: u16 },
    /// Request sniff subrating.
    SniffSubrating { handle: u16, max_latency: u16, min_remote: u16, min_local: u16 },
    /// Send a request to the device.
    Request(HidRequest),
    /// Begin to poll the battery.
    StartBatteryPolls { secs: u32 },
    /// Publish the battery level.
    SetBatteryLevel(u8),
    /// Withdraw the battery level.
    ClearBatteryLevel,
    /// Hand [`crate::reports::touch_payload`] of the report to the USB side, or
    /// drop it if there is no room.
    SendTouch { header: ReportHeader, report: &'a [u8] },
    /// Log a touch report.
    LogTouch { number: u8, fingers: usize, len: usize },
    /// Log a keyboard report that was dropped.
    LogUnknownReport { loud: bool },
}

/// The state of the task.
#[derive(Debug, Clone, Copy, PartialEq, Eq)]
pub struct TaskState {
    pub phase: Phase,
    /// How many bytes of a report the USB side takes.
    pub report_capacity: usize,
    /// How many keyboard reports were dropped loudly.
    pub unknown_reports: u8,
    /// How many touch reports were logged.
    pub touch_reports: u8,
}

} // verus!
