use bt2usb_core::pairing::{
    PairingContext, PairingEvent, PairingState, DEFAULT_LEGACY_PIN, OUR_IO_CAPABILITY,
    OUR_OOB_DATA,
};
use bt2usb_core::messages::{notice_message, pairing_message, Severity};
use bt2usb_core::task_types::Notice;
use bt_hci::param::{BdAddr, IoCapability};
use bt_hci::FromHciBytes;

fn peer() -> BdAddr {
    BdAddr::new([1, 2, 3, 4, 5, 6])
}

#[test]
fn new_context_is_idle() {
    let context = PairingContext::new(peer());
    assert_eq!(context.state, PairingState::Idle);
    assert_eq!(context.remote_io_cap, None);
    assert_eq!(context.peer_addr, peer());
    assert!(!context.success);
    assert_eq!(context.new_link_key, None);
    assert_eq!(context.link_key_type, 0);
    assert_eq!(context.passkey, None);
    assert_eq!(OUR_OOB_DATA, 0);
}

#[test]
fn bridge_can_only_display() {
    let ours = IoCapability::from_hci_bytes_complete(&[OUR_IO_CAPABILITY]);
    assert_eq!(ours.unwrap(), IoCapability::DisplayOnly);
}

#[test]
fn passkey_entry_ends_with_a_key() {
    let mut context = PairingContext::new(peer());
    context.start();
    assert_eq!(context.state, PairingState::WaitingIoCap);
    context.on_io_capability_response(IoCapability::KeyboardOnly);
    assert_eq!(context.state, PairingState::WaitingConfirmation);
    assert_eq!(context.remote_io_cap, Some(IoCapability::KeyboardOnly));
    context.on_user_passkey_notification(42);
    assert_eq!(context.state, PairingState::WaitingPasskeyEntry);
    assert_eq!(context.passkey, Some(42));
    context.on_simple_pairing_complete(true);
    assert_eq!(context.state, PairingState::WaitingLinkKey);
    assert!(context.success);
    context.on_link_key_notification([7; 16], 5);
    assert_eq!(context.state, PairingState::Done);
    assert!(context.success);
    assert_eq!(context.new_link_key, Some([7; 16]));
    assert_eq!(context.link_key_type, 5);
    assert_eq!(context.peer_addr, peer());
}

#[test]
fn just_works_ends_with_a_key() {
    let mut context = PairingContext::new(peer());
    context.start();
    context.on_io_capability_response(IoCapability::NoInputNoOutput);
    context.on_simple_pairing_complete(true);
    context.on_link_key_notification([3; 16], 4);
    assert_eq!(context.state, PairingState::Done);
    assert!(context.success);
    assert_eq!(context.passkey, None);
    assert_eq!(context.new_link_key, Some([3; 16]));
}

#[test]
fn failed_pairing_is_done_without_a_key() {
    let mut context = PairingContext::new(peer());
    context.start();
    context.on_io_capability_response(IoCapability::KeyboardOnly);
    context.on_user_passkey_notification(7);
    context.on_simple_pairing_complete(false);
    assert_eq!(context.state, PairingState::Done);
    assert!(!context.success);
    assert_eq!(context.new_link_key, None);
}

#[test]
fn new_attempt_forgets_the_last_one() {
    let mut context = PairingContext::new(peer());
    context.start();
    context.on_io_capability_response(IoCapability::KeyboardOnly);
    context.on_user_passkey_notification(7);
    context.on_simple_pairing_complete(true);
    context.on_link_key_notification([7; 16], 5);
    context.start();
    assert_eq!(context.state, PairingState::WaitingIoCap);
    assert_eq!(context.remote_io_cap, None);
    assert!(!context.success);
    assert_eq!(context.new_link_key, None);
    assert_eq!(context.passkey, None);
    assert_eq!(context.link_key_type, 5);
}

#[test]
fn passkey_is_shown_with_leading_zeros() {
    let shown = pairing_message(PairingEvent::PasskeyDisplay(42));
    assert_eq!(shown.severity, Severity::Info);
    assert_eq!(shown.text, "Passkey 000042: type it on the keyboard, then press Enter");
    assert_eq!(
        pairing_message(PairingEvent::PasskeyDisplay(0)).text,
        "Passkey 000000: type it on the keyboard, then press Enter"
    );
    assert_eq!(
        pairing_message(PairingEvent::PasskeyDisplay(987_654)).text,
        "Passkey 987654: type it on the keyboard, then press Enter"
    );
}

#[test]
fn passkey_is_shown_as_the_formatter_pads_it() {
    for passkey in [1u32, 10, 99, 100, 12_345, 99_999, 100_000, 999_999, 1_000_000, u32::MAX] {
        assert_eq!(
            pairing_message(PairingEvent::PasskeyDisplay(passkey)).text,
            format!("Passkey {:06}: type it on the keyboard, then press Enter", passkey)
        );
    }
}

#[test]
fn passkeys_are_told_apart() {
    assert_ne!(
        pairing_message(PairingEvent::PasskeyDisplay(1)).text,
        pairing_message(PairingEvent::PasskeyDisplay(10)).text
    );
    assert_ne!(
        pairing_message(PairingEvent::PasskeyDisplay(100_000)).text,
        pairing_message(PairingEvent::PasskeyDisplay(1_000_000)).text
    );
}

#[test]
fn other_pairing_steps_are_shown() {
    let pin = pairing_message(PairingEvent::LegacyPin(DEFAULT_LEGACY_PIN));
    assert_eq!(pin.severity, Severity::Info);
    assert_eq!(pin.text, "PIN 0000: type it on the keyboard, then press Enter");
    let works = pairing_message(PairingEvent::JustWorks);
    assert_eq!(works.severity, Severity::Info);
    assert_eq!(works.text, "Pairing confirmed automatically");
    let declined = pairing_message(PairingEvent::PasskeyEntryUnsupported);
    assert_eq!(declined.severity, Severity::Error);
    assert_eq!(declined.text, "Device wants a passkey typed on the bridge, which has no keys");
}

#[test]
fn inquiry_steps_are_shown() {
    let shown = [
        (Notice::InquiryStarting, Severity::Info, "Classic Inquiry scan starting (~10s)..."),
        (Notice::InquiryFailed, Severity::Error, "Classic Inquiry failed"),
        (Notice::InquiryCancelled, Severity::Info, "Classic Inquiry cancelled"),
        (Notice::InquiryComplete, Severity::Info, "Classic Inquiry scan complete"),
    ];
    for (notice, severity, text) in shown {
        let message = notice_message(notice);
        assert_eq!(message.severity, severity);
        assert_eq!(message.text, text);
    }
}
