use bt2usb_core::event_mask::classic_event_mask;

#[test]
fn mask_has_exactly_the_needed_bits() {
    let bits: [usize; 24] = [
        0, 1, 2, 3, 4, 5, 6, 7, 15, 19, 21, 22, 23, 33, 46, 47, 48, 49, 50, 51, 53, 58, 59, 61,
    ];
    let mut expected = [0u8; 8];
    for bit in bits {
        expected[bit / 8] |= 1 << (bit % 8);
    }
    assert_eq!(classic_event_mask().into_inner(), expected);
}

#[test]
fn ble_host_events_stay_enabled() {
    let mask = classic_event_mask();
    assert!(mask.is_le_meta_enabled());
    assert!(mask.is_conn_request_enabled());
    assert!(mask.is_conn_complete_enabled());
    assert!(mask.is_hardware_error_enabled());
    assert!(mask.is_disconnection_complete_enabled());
    assert!(mask.is_encryption_change_v1_enabled());
    assert!(mask.is_encryption_key_refresh_complete_enabled());
}

#[test]
fn pairing_events_are_enabled() {
    let mask = classic_event_mask();
    assert!(mask.is_authentication_complete_enabled());
    assert!(mask.is_link_key_request_enabled());
    assert!(mask.is_link_key_notification_enabled());
    assert!(mask.is_pin_code_request_enabled());
    assert!(mask.is_io_capability_request_enabled());
    assert!(mask.is_io_capability_response_enabled());
    assert!(mask.is_user_confirmation_request_enabled());
    assert!(mask.is_user_passkey_request_enabled());
    assert!(mask.is_user_passkey_notification_enabled());
    assert!(mask.is_keypress_notification_enabled());
    assert!(mask.is_simple_pairing_complete_enabled());
    assert!(mask.is_mode_change_enabled());
}

#[test]
fn inquiry_events_are_enabled() {
    let mask = classic_event_mask();
    assert!(mask.is_inquiry_complete_enabled());
    assert!(mask.is_inquiry_result_enabled());
    assert!(mask.is_inquiry_result_with_rssi_enabled());
    assert!(mask.is_ext_inquiry_result_enabled());
    assert!(mask.is_remote_name_request_complete_enabled());
    assert!(!mask.is_role_change_enabled());
    assert!(!mask.is_remote_oob_data_request_enabled());
}
