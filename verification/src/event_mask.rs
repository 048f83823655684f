//! The HCI events that the controller is asked to report.
//!
//! The BLE host's own event mask leaves the Classic authentication events off,
//! so the mask is sent again with both sets of events in it.

use bt_hci::param::EventMask;
use vstd::prelude::*;

verus! {

/// `bt_hci::param::EventMask`, the parameter of the HCI command Set Event Mask.
#[verifier::external_type_specification]
#[verifier::external_body]
pub struct ExEventMask(EventMask);

/// The events that a mask enables, each by the number of its bit in the mask.
pub uninterp spec fn enabled_events(mask: EventMask) -> Set<int>;

/// The events of `events` with one of them switched on or off.
pub open spec fn switched(events: Set<int>, event: int, on: bool) -> Set<int> {
    if on {
        events.insert(event)
    } else {
        events.remove(event)
    }
}

/// `EventMask::new`: no event is enabled.
pub assume_specification[ EventMask::new ]() -> (r: EventMask)
    ensures
        enabled_events(r) == Set::<int>::empty(),
;

/// `EventMask::enable_le_meta`: switches bit 61, LE Meta, and no other.
pub assume_specification[ EventMask::enable_le_meta ](
    mask: EventMask,
    val: bool,
) -> (r: EventMask)
    ensures
        enabled_events(r) == switched(enabled_events(mask), 61, val),
;

/// `EventMask::enable_conn_request`: switches bit 3, Connection Request, and no other.
pub assume_specification[ EventMask::enable_conn_request ](
    mask: EventMask,
    val: bool,
) -> (r: EventMask)
    ensures
        enabled_events(r) == switched(enabled_events(mask), 3, val),
;

/// `EventMask::enable_conn_complete`: switches bit 2, Connection Complete, and no other.
pub assume_specification[ EventMask::enable_conn_complete ](
    mask: EventMask,
    val: bool,
) -> (r: EventMask)
    ensures
        enabled_events(r) == switched(enabled_events(mask), 2, val),
;

/// `EventMask::enable_hardware_error`: switches bit 15, Hardware Error, and no other.
pub assume_specification[ EventMask::enable_hardware_error ](
    mask: EventMask,
    val: bool,
) -> (r: EventMask)
    ensures
        enabled_events(r) == switched(enabled_events(mask), 15, val),
;

/// `EventMask::enable_disconnection_complete`: switches bit 4, Disconnection Complete, and no other.
pub assume_specification[ EventMask::enable_disconnection_complete ](
    mask: EventMask,
    val: bool,
) -> (r: EventMask)
    ensures
        enabled_events(r) == switched(enabled_events(mask), 4, val),
;

/// `EventMask::enable_encryption_change_v1`: switches bit 7, Encryption Change, and no other.
pub assume_specification[ EventMask::enable_encryption_change_v1 ](
    mask: EventMask,
    val: bool,
) -> (r: EventMask)
    ensures
        enabled_events(r) == switched(enabled_events(mask), 7, val),
;

/// `EventMask::enable_encryption_key_refresh_complete`: switches bit 47, Encryption Key Refresh Complete, and no other.
pub assume_specification[ EventMask::enable_encryption_key_refresh_complete ](
    mask: EventMask,
    val: bool,
) -> (r: EventMask)
    ensures
        enabled_events(r) == switched(enabled_events(mask), 47, val),
;

/// `EventMask::enable_authentication_complete`: switches bit 5, Authentication Complete, and no other.
pub assume_specification[ EventMask::enable_authentication_complete ](
    mask: EventMask,
    val: bool,
) -> (r: EventMask)
    ensures
        enabled_events(r) == switched(enabled_events(mask), 5, val),
;

/// `EventMask::enable_link_key_request`: switches bit 22, Link Key Request, and no other.
pub assume_specification[ EventMask::enable_link_key_request ](
    mask: EventMask,
    val: bool,
) -> (r: EventMask)
    ensures
        enabled_events(r) == switched(enabled_events(mask), 22, val),
;

/// `EventMask::enable_link_key_notification`: switches bit 23, Link Key Notification, and no other.
pub assume_specification[ EventMask::enable_link_key_notification ](
    mask: EventMask,
    val: bool,
) -> (r: EventMask)
    ensures
        enabled_events(r) == switched(enabled_events(mask), 23, val),
;

/// `EventMask::enable_pin_code_request`: switches bit 21, PIN Code Request, and no other.
pub assume_specification[ EventMask::enable_pin_code_request ](
    mask: EventMask,
    val: bool,
) -> (r: EventMask)
    ensures
        enabled_events(r) == switched(enabled_events(mask), 21, val),
;

/// `EventMask::enable_io_capability_request`: switches bit 48, IO Capability Request, and no other.
pub assume_specification[ EventMask::enable_io_capability_request ](
    mask: EventMask,
    val: bool,
) -> (r: EventMask)
    ensures
        enabled_events(r) == switched(enabled_events(mask), 48, val),
;

/// `EventMask::enable_io_capability_response`: switches bit 49, IO Capability Response, and no other.
pub assume_specification[ EventMask::enable_io_capability_response ](
    mask: EventMask,
    val: bool,
) -> (r: EventMask)
    ensures
        enabled_events(r) == switched(enabled_events(mask), 49, val),
;

/// `EventMask::enable_user_confirmation_request`: switches bit 50, User Confirmation Request, and no other.
pub assume_specification[ EventMask::enable_user_confirmation_request ](
    mask: EventMask,
    val: bool,
) -> (r: EventMask)
    ensures
        enabled_events(r) == switched(enabled_events(mask), 50, val),
;

/// `EventMask::enable_user_passkey_request`: switches bit 51, User Passkey Request, and no other.
pub assume_specification[ EventMask::enable_user_passkey_request ](
    mask: EventMask,
    val: bool,
) -> (r: EventMask)
    ensures
        enabled_events(r) == switched(enabled_events(mask), 51, val),
;

/// `EventMask::enable_user_passkey_notification`: switches bit 58, User Passkey Notification, and no other.
pub assume_specification[ EventMask::enable_user_passkey_notification ](
    mask: EventMask,
    val: bool,
) -> (r: EventMask)
    ensures
        enabled_events(r) == switched(enabled_events(mask), 58, val),
;

/// `EventMask::enable_keypress_notification`: switches bit 59, Keypress Notification, and no other.
pub assume_specification[ EventMask::enable_keypress_notification ](
    mask: EventMask,
    val: bool,
) -> (r: EventMask)
    ensures
        enabled_events(r) == switched(enabled_events(mask), 59, val),
;

/// `EventMask::enable_simple_pairing_complete`: switches bit 53, Simple Pairing Complete, and no other.
pub assume_specification[ EventMask::enable_simple_pairing_complete ](
    mask: EventMask,
    val: bool,
) -> (r: EventMask)
    ensures
        enabled_events(r) == switched(enabled_events(mask), 53, val),
;

/// `EventMask::enable_mode_change`: switches bit 19, Mode Change, and no other.
pub assume_specification[ EventMask::enable_mode_change ](
    mask: EventMask,
    val: bool,
) -> (r: EventMask)
    ensures
        enabled_events(r) == switched(enabled_events(mask), 19, val),
;

/// `EventMask::enable_inquiry_complete`: switches bit 0, Inquiry Complete, and no other.
pub assume_specification[ EventMask::enable_inquiry_complete ](
    mask: EventMask,
    val: bool,
) -> (r: EventMask)
    ensures
        enabled_events(r) == switched(enabled_events(mask), 0, val),
;

/// `EventMask::enable_inquiry_result`: switches bit 1, Inquiry Result, and no other.
pub assume_specification[ EventMask::enable_inquiry_result ](
    mask: EventMask,
    val: bool,
) -> (r: EventMask)
    ensures
        enabled_events(r) == switched(enabled_events(mask), 1, val),
;

/// `EventMask::enable_inquiry_result_with_rssi`: switches bit 33, Inquiry Result with RSSI, and no other.
pub assume_specification[ EventMask::enable_inquiry_result_with_rssi ](
    mask: EventMask,
    val: bool,
) -> (r: EventMask)
    ensures
        enabled_events(r) == switched(enabled_events(mask), 33, val),
;

/// `EventMask::enable_ext_inquiry_result`: switches bit 46, Extended Inquiry Result, and no other.
pub assume_specification[ EventMask::enable_ext_inquiry_result ](
    mask: EventMask,
    val: bool,
) -> (r: EventMask)
    ensures
        enabled_events(r) == switched(enabled_events(mask), 46, val),
;

/// `EventMask::enable_remote_name_request_complete`: switches bit 6, Remote Name Request Complete, and no other.
pub assume_specification[ EventMask::enable_remote_name_request_complete ](
    mask: EventMask,
    val: bool,
) -> (r: EventMask)
    ensures
        enabled_events(r) == switched(enabled_events(mask), 6, val),
;

/// The events the bridge needs: those of the BLE host, and those of Classic
/// pairing, link mode and Inquiry.
pub open spec fn bridge_events() -> Set<int> {
    ble_host_events() + pairing_events() + link_events() + inquiry_events()
}

/// Mode Change.
pub open spec fn link_events() -> Set<int> {
    set![19int]
}

/// LE Meta, Connection Request and Complete, Hardware Error, Disconnection
/// Complete, Encryption Change, Encryption Key Refresh Complete.
pub open spec fn ble_host_events() -> Set<int> {
    set![61int, 3, 2, 15, 4, 7, 47]
}

/// Authentication Complete, Link Key Request and Notification, PIN Code
/// Request, IO Capability Request and Response, User Confirmation Request,
/// User Passkey Request and Notification, Keypress Notification, Simple Pairing
/// Complete.
pub open spec fn pairing_events() -> Set<int> {
    set![5int, 22, 23, 21, 48, 49, 50, 51, 58, 59, 53]
}

/// Inquiry Complete, Inquiry Result in its three formats, Remote Name Request
/// Complete.
pub open spec fn inquiry_events() -> Set<int> {
    set![0int, 1, 33, 46, 6]
}

/// The mask that enables exactly the events the bridge needs.
pub fn classic_event_mask() -> (r: EventMask)
    ensures
        enabled_events(r) == bridge_events(),
{
    let mask = EventMask::new()
        // the BLE host's events
        .enable_le_meta(true)
        .enable_conn_request(true)
        .enable_conn_complete(true)
        .enable_hardware_error(true)
        .enable_disconnection_complete(true)
        .enable_encryption_change_v1(true)
        .enable_encryption_key_refresh_complete(true)
        // Classic authentication events
        .enable_authentication_complete(true)
        .enable_link_key_request(true)
        .enable_link_key_notification(true)
        .enable_pin_code_request(true)
        .enable_io_capability_request(true)
        .enable_io_capability_response(true)
        .enable_user_confirmation_request(true)
        // Passkey Entry, the association model a keyboard uses: without these
        // the controller picks a passkey we never see and the user has nothing
        // to type.
        .enable_user_passkey_request(true)
        .enable_user_passkey_notification(true)
        .enable_keypress_notification(true)
        .enable_simple_pairing_complete(true)
        .enable_mode_change(true)
        .enable_inquiry_complete(true)
        .enable_inquiry_result(true)
        // Required once the Inquiry mode is RSSI or EIR: the controller still
        // emits these events, but only with these bits set.
        .enable_inquiry_result_with_rssi(true)
        .enable_ext_inquiry_result(true)
        // Needed to ask for a remote name as a fallback.
        .enable_remote_name_request_complete(true);
    assert(enabled_events(mask) == bridge_events());
    mask
}

/// The events that the bridge needs, by their numbers in the mask: the first
/// eight, and sixteen others.
pub proof fn law_needed_events_by_number(event: int)
    ensures
        bridge_events().contains(event) <==> 0 <= event <= 7 || event == 15 || event == 19 || 21
            <= event <= 23 || event == 33 || 46 <= event <= 51 || event == 53 || event == 58
            || event == 59 || event == 61,
{
}

} // verus!
