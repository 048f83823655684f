//! Classic Bluetooth pairing: Secure Simple Pairing (SSP) and legacy PIN.
//!
//! SSP flow:
//!   1. AuthenticationRequested: the controller initiates pairing
//!   2. IoCapabilityRequest: we reply with our IO capabilities
//!   3. IoCapabilityResponse: we learn the remote's capabilities
//!   4. Either UserConfirmationRequest (Just Works, auto-accepted) or
//!      UserPasskeyNotification (Passkey Entry: the passkey is handed up for
//!      display, and the user types it on the remote keyboard)
//!   5. SimplePairingComplete: pairing done (success or failure)
//!   6. LinkKeyNotification: new link key generated, store it
//!   7. AuthenticationComplete: authentication finished
//!
//! For bonded devices with a stored link key:
//!   1. AuthenticationRequested: the controller checks the link key
//!   2. LinkKeyRequest: we reply with the stored key
//!   3. AuthenticationComplete: success (no SSP needed)
//!
//! # Why DisplayOnly
//!
//! The Pico has no screen, but it does have a host: the firmware streams log
//! events to whatever tool is driving it, which is display enough to show a
//! six-digit passkey. Claiming `DisplayOnly` is what makes keyboards pairable.
//!
//! The association model comes from both devices' IO capabilities:
//!
//! | Remote            | Model with `DisplayOnly` here                 |
//! |-------------------|-----------------------------------------------|
//! | KeyboardOnly      | Passkey Entry: we display, the user types it  |
//! | NoInputNoOutput   | Just Works: auto-accepted                     |
//! | DisplayOnly/YesNo | Just Works: auto-accepted                     |
//!
//! A keyboard has `KeyboardOnly` capability. With `NoInputNoOutput` here the only
//! available model would be Just Works, which keyboards requiring MITM protection
//! refuse. Trackpads and mice report `NoInputNoOutput` and pair by Just Works
//! either way.

use bt_hci::param::{BdAddr, IoCapability};
use vstd::prelude::*;

verus! {

/// Our IO capability for SSP pairing, as HCI numbers it: `DisplayOnly`.
///
/// It enables Passkey Entry against keyboards while leaving pointing devices on
/// Just Works. See the module docs for the full mapping.
pub const OUR_IO_CAPABILITY: u8 = 0x00;

/// OOB (Out of Band) data presence flag: not present, since we don't support
/// OOB pairing.
pub const OUR_OOB_DATA: u8 = 0x00;

/// Default PIN used to answer a legacy (pre-SSP) `PinCodeRequest`.
///
/// Legacy keyboards expect the user to type the host's PIN and press Enter,
/// so the value is reported through [`PairingEvent::LegacyPin`] rather than
/// being answered silently.
pub const DEFAULT_LEGACY_PIN: &'static str = "0000";

/// `bt_hci::param::BdAddr`, the address of a Bluetooth device.
#[verifier::external_type_specification]
#[verifier::external_body]
pub struct ExBdAddr(BdAddr);

/// `bt_hci::param::IoCapability`, what a device can show and what can be typed
/// on it.
#[verifier::external_type_specification]
#[verifier::external_body]
pub struct ExIoCapability(IoCapability);

/// Something the user needs to know, or act on, during pairing.
///
/// Pairing happens inside a blocking connect, so there is no other moment to
/// surface it.
#[derive(Debug, Clone, Copy, PartialEq, Eq)]
pub enum PairingEvent {
    /// Passkey Entry: show this to the user, who types it on the remote
    /// keyboard and presses Enter. Always six digits, zero-padded.
    PasskeyDisplay(u32),
    /// Legacy pairing: we answered with this PIN, which the user must type on
    /// the remote keyboard followed by Enter.
    LegacyPin(&'static str),
    /// Just Works: numeric comparison auto-accepted, nothing for the user to do.
    JustWorks,
    /// The remote asked *us* to enter a passkey it is displaying. We have no
    /// input device, so pairing was declined.
    PasskeyEntryUnsupported,
}

/// Pairing state tracker for a connection.
#[derive(Debug, Clone, Copy, PartialEq, Eq)]
pub enum PairingState {
    /// No pairing in progress.
    Idle,
    /// Waiting for IoCapabilityRequest from controller.
    WaitingIoCap,
    /// Sent IoCapabilityRequestReply, waiting for remote's response.
    IoCapsExchanged,
    /// Waiting for UserConfirmationRequest or UserPasskeyNotification.
    WaitingConfirmation,
    /// Passkey displayed to the user; waiting for them to type it on the
    /// remote keyboard. This is the one pairing step gated on a human, so it
    /// can take considerably longer than the rest put together.
    WaitingPasskeyEntry,
    /// Sent UserConfirmationRequestReply, waiting for SimplePairingComplete.
    WaitingComplete,
    /// Pairing complete, waiting for LinkKeyNotification.
    WaitingLinkKey,
    /// Pairing finished (success or failure).
    Done,
}

/// Tracks the pairing state for a single connection.
pub struct PairingContext {
    pub state: PairingState,
    /// Remote device's IO capability (learned from IoCapabilityResponse).
    pub remote_io_cap: Option<IoCapability>,
    /// The remote BD_ADDR being paired with.
    pub peer_addr: BdAddr,
    /// Whether pairing succeeded.
    pub success: bool,
    /// Newly generated link key (from LinkKeyNotification).
    pub new_link_key: Option<[u8; 16]>,
    /// Link key type from LinkKeyNotification.
    pub link_key_type: u8,
    /// Passkey the remote must type, from UserPasskeyNotification.
    pub passkey: Option<u32>,
}

impl PairingContext {
    /// A context in which nothing has happened yet.
    pub open spec fn fresh(peer_addr: BdAddr) -> Self {
        PairingContext {
            state: PairingState::Idle,
            remote_io_cap: None,
            peer_addr,
            success: false,
            new_link_key: None,
            link_key_type: 0,
            passkey: None,
        }
    }

    /// The context at the start of an attempt: all that the attempt is to learn
    /// is unknown again. The peer and the type of the last link key stay.
    pub open spec fn started(self) -> Self {
        PairingContext {
            state: PairingState::WaitingIoCap,
            remote_io_cap: None,
            peer_addr: self.peer_addr,
            success: false,
            new_link_key: None,
            link_key_type: self.link_key_type,
            passkey: None,
        }
    }

    /// The context once the remote's capability is known.
    pub open spec fn with_io_capability(self, io_cap: IoCapability) -> Self {
        PairingContext {
            state: PairingState::WaitingConfirmation,
            remote_io_cap: Some(io_cap),
            ..self
        }
    }

    /// The context while the user types the passkey.
    pub open spec fn with_passkey(self, passkey: u32) -> Self {
        PairingContext {
            state: PairingState::WaitingPasskeyEntry,
            passkey: Some(passkey),
            ..self
        }
    }

    /// The context once Simple Pairing has succeeded or failed.
    pub open spec fn completed(self, success: bool) -> Self {
        PairingContext {
            state: if success {
                PairingState::WaitingLinkKey
            } else {
                PairingState::Done
            },
            success,
            ..self
        }
    }

    /// The context once the new link key is known.
    pub open spec fn with_link_key(self, key: [u8; 16], key_type: u8) -> Self {
        PairingContext {
            state: PairingState::Done,
            new_link_key: Some(key),
            link_key_type: key_type,
            ..self
        }
    }

    /// A context in which nothing has happened yet.
    pub fn new(peer_addr: BdAddr) -> (r: Self)
        ensures
            r == Self::fresh(peer_addr),
    {
        PairingContext {
            state: PairingState::Idle,
            remote_io_cap: None,
            peer_addr,
            success: false,
            new_link_key: None,
            link_key_type: 0,
            passkey: None,
        }
    }

    /// Start a new pairing attempt.
    pub fn start(&mut self)
        ensures
            *final(self) == old(self).started(),
    {
        self.state = PairingState::WaitingIoCap;
        self.remote_io_cap = None;
        self.success = false;
        self.new_link_key = None;
        self.passkey = None;
    }

    /// Handle IoCapabilityResponse event (remote's capabilities).
    pub fn on_io_capability_response(&mut self, io_cap: IoCapability)
        ensures
            *final(self) == old(self).with_io_capability(io_cap),
    {
        self.remote_io_cap = Some(io_cap);
        self.state = PairingState::WaitingConfirmation;
    }

    /// Handle UserPasskeyNotification event: the remote is waiting for the
    /// user to type this passkey on its own keyboard.
    pub fn on_user_passkey_notification(&mut self, passkey: u32)
        ensures
            *final(self) == old(self).with_passkey(passkey),
    {
        self.passkey = Some(passkey);
        self.state = PairingState::WaitingPasskeyEntry;
    }

    /// Handle SimplePairingComplete event.
    pub fn on_simple_pairing_complete(&mut self, success: bool)
        ensures
            *final(self) == old(self).completed(success),
    {
        self.success = success;
        self.state = if success {
            PairingState::WaitingLinkKey
        } else {
            PairingState::Done
        };
    }

    /// Handle LinkKeyNotification event.
    pub fn on_link_key_notification(&mut self, key: [u8; 16], key_type: u8)
        ensures
            *final(self) == old(self).with_link_key(key, key_type),
    {
        self.new_link_key = Some(key);
        self.link_key_type = key_type;
        self.state = PairingState::Done;
    }
}

/// Passkey Entry from start to end: whatever the context held before, a
/// successful attempt ends done, with the peer it began with, the capability and
/// passkey that were announced, and the new link key.
pub proof fn law_passkey_entry_ends_with_a_key(
    context: PairingContext,
    io_cap: IoCapability,
    passkey: u32,
    key: [u8; 16],
    key_type: u8,
)
    ensures
        context.started().with_io_capability(io_cap).with_passkey(passkey).completed(
            true,
        ).with_link_key(key, key_type) == (PairingContext {
            state: PairingState::Done,
            remote_io_cap: Some(io_cap),
            peer_addr: context.peer_addr,
            success: true,
            new_link_key: Some(key),
            link_key_type: key_type,
            passkey: Some(passkey),
        }),
{
}

/// Just Works from start to end: as Passkey Entry, without a passkey.
pub proof fn law_just_works_ends_with_a_key(
    context: PairingContext,
    io_cap: IoCapability,
    key: [u8; 16],
    key_type: u8,
)
    ensures
        context.started().with_io_capability(io_cap).completed(true).with_link_key(key, key_type)
            == (PairingContext {
            state: PairingState::Done,
            remote_io_cap: Some(io_cap),
            peer_addr: context.peer_addr,
            success: true,
            new_link_key: Some(key),
            link_key_type: key_type,
            passkey: None,
        }),
{
}

/// A failed attempt is done at once, unsuccessful and without a new link key,
/// whatever was learnt on the way.
pub proof fn law_failed_pairing_has_no_key(
    context: PairingContext,
    io_cap: IoCapability,
    passkey: u32,
)
    ensures
        context.started().completed(false).state is Done,
        !context.started().completed(false).success,
        context.started().completed(false).new_link_key is None,
        context.started().with_io_capability(io_cap).completed(false).state is Done,
        !context.started().with_io_capability(io_cap).completed(false).success,
        context.started().with_io_capability(io_cap).completed(false).new_link_key is None,
        context.started().with_io_capability(io_cap).with_passkey(passkey).completed(
            false,
        ).state is Done,
        !context.started().with_io_capability(io_cap).with_passkey(passkey).completed(
            false,
        ).success,
        context.started().with_io_capability(io_cap).with_passkey(passkey).completed(
            false,
        ).new_link_key is None,
{
}

/// A new attempt forgets the one before: it starts the same from any two
/// contexts with the same peer and last key type, and starting twice is
/// starting once.
pub proof fn law_new_attempt_forgets_the_last(a: PairingContext, b: PairingContext)
    requires
        a.peer_addr == b.peer_addr,
        a.link_key_type == b.link_key_type,
    ensures
        a.started() == b.started(),
        a.started().started() == a.started(),
{
}

/// No event changes the peer of a context.
pub proof fn law_peer_never_changes(
    context: PairingContext,
    io_cap: IoCapability,
    passkey: u32,
    success: bool,
    key: [u8; 16],
    key_type: u8,
)
    ensures
        context.started().peer_addr == context.peer_addr,
        context.with_io_capability(io_cap).peer_addr == context.peer_addr,
        context.with_passkey(passkey).peer_addr == context.peer_addr,
        context.completed(success).peer_addr == context.peer_addr,
        context.with_link_key(key, key_type).peer_addr == context.peer_addr,
{
}

/// A new context is idle, for the given peer, and knows nothing.
pub proof fn law_new_context_knows_nothing(peer_addr: BdAddr)
    ensures
        ({
            let context = PairingContext::fresh(peer_addr);
            &&& context.state is Idle
            &&& context.peer_addr == peer_addr
            &&& context.remote_io_cap is None
            &&& !context.success
            &&& context.new_link_key is None
            &&& context.link_key_type == 0
            &&& context.passkey is None
        }),
{
}

/// From any context, an attempt starts by waiting for the IO capability, without
/// success, key, capability or passkey of an earlier one.
pub proof fn law_start_clears_the_attempt(context: PairingContext)
    ensures
        ({
            let now = context.started();
            &&& now.state is WaitingIoCap
            &&& now.peer_addr == context.peer_addr
            &&& now.remote_io_cap is None
            &&& !now.success
            &&& now.new_link_key is None
            &&& now.link_key_type == context.link_key_type
            &&& now.passkey is None
        }),
{
}

/// In any context, an IoCapabilityResponse is remembered and leads to waiting for
/// the confirmation; nothing else changes.
pub proof fn law_io_capability_is_remembered(context: PairingContext, io_cap: IoCapability)
    ensures
        ({
            let now = context.with_io_capability(io_cap);
            &&& now.state is WaitingConfirmation
            &&& now.remote_io_cap == Some(io_cap)
            &&& now.peer_addr == context.peer_addr
            &&& now.success == context.success
            &&& now.new_link_key == context.new_link_key
            &&& now.link_key_type == context.link_key_type
            &&& now.passkey == context.passkey
        }),
{
}

/// In any context, a UserPasskeyNotification is remembered, whatever its passkey,
/// and leads to waiting for the user to type it; nothing else changes.
pub proof fn law_passkey_is_remembered(context: PairingContext, passkey: u32)
    ensures
        ({
            let now = context.with_passkey(passkey);
            &&& now.state is WaitingPasskeyEntry
            &&& now.passkey == Some(passkey)
            &&& now.remote_io_cap == context.remote_io_cap
            &&& now.peer_addr == context.peer_addr
            &&& now.success == context.success
            &&& now.new_link_key == context.new_link_key
            &&& now.link_key_type == context.link_key_type
        }),
{
}

/// In any context, SimplePairingComplete decides on success: after one the link
/// key is awaited, and after a failure pairing is done; nothing else changes.
pub proof fn law_completion_decides_on_success(context: PairingContext, success: bool)
    ensures
        ({
            let now = context.completed(success);
            &&& now.success == success
            &&& success ==> now.state is WaitingLinkKey
            &&& !success ==> now.state is Done
            &&& now.remote_io_cap == context.remote_io_cap
            &&& now.peer_addr == context.peer_addr
            &&& now.new_link_key == context.new_link_key
            &&& now.link_key_type == context.link_key_type
            &&& now.passkey == context.passkey
        }),
{
}

/// In any context, whether or not Simple Pairing was completed before, a
/// LinkKeyNotification leaves exactly its key and type, and pairing is done. So a
/// legacy pairing, which has no SimplePairingComplete, keeps its key too.
pub proof fn law_new_link_key_is_kept(context: PairingContext, key: [u8; 16], key_type: u8)
    ensures
        ({
            let now = context.with_link_key(key, key_type);
            &&& now.new_link_key == Some(key)
            &&& now.link_key_type == key_type
            &&& now.state is Done
            &&& now.success == context.success
            &&& now.passkey == context.passkey
            &&& now.remote_io_cap == context.remote_io_cap
            &&& now.peer_addr == context.peer_addr
        }),
{
}

} // verus!
