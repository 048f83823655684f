use bt2usb_core::classic::{cod_is_keyboard, cod_is_pointing, translate_keyboard_report};
use bt2usb_core::profile::{profile_setup, DeviceProfile, HidRequest};
use bt2usb_core::reports::{
    acl_header, classify_trackpad_report, forward_keyboard_report, keyboard_header, touch_header,
    touch_payload, AclHeader, HidReportType, KeyReport, ReportHeader, TrackpadReport,
};

#[test]
fn translated_report_passes_through_again() {
    let report = [0x01, 0xE1, 0x55, 0x04, 0x05, 0x06, 0x07, 0x08, 0x09];
    let once = translate_keyboard_report(&report).unwrap();
    assert_eq!(once, [0xE1, 0x00, 0x04, 0x05, 0x06, 0x07, 0x08, 0x09]);
    assert_eq!(translate_keyboard_report(&once), Some(once));
}

#[test]
fn both_protocols_give_the_same_keys() {
    let body = [0x02, 0x7F, 0x04, 0x00, 0x00, 0x00, 0x00, 0x29];
    let mut framed = vec![0x01];
    framed.extend_from_slice(&body);
    assert_eq!(translate_keyboard_report(&framed), translate_keyboard_report(&body));
}

#[test]
fn service_class_does_not_change_the_kind() {
    for service in [0x00u8, 0x20, 0xFF] {
        assert!(cod_is_keyboard(&[0x40, 0x25, service]));
        assert!(!cod_is_pointing(&[0x40, 0x25, service]));
        // The high bits of the middle byte are service bits too.
        assert!(cod_is_keyboard(&[0x7C, 0xE5, service, 0x00]));
        assert!(cod_is_keyboard(&[0x40, 0x05, service]));
    }
}

#[test]
fn acl_header_is_little_endian() {
    let mut rx = [0u8; 259];
    rx[0] = 0x02;
    rx[1] = 0x0B;
    rx[2] = 0x20;
    rx[3] = 0x0C;
    rx[4] = 0x00;
    assert_eq!(acl_header(&rx), AclHeader { handle_and_flags: 0x200B, len: 12 });
    rx[4] = 0x01;
    assert_eq!(acl_header(&rx), AclHeader { handle_and_flags: 0x200B, len: 254 });
    rx[3] = 0xFE;
    rx[4] = 0x00;
    assert_eq!(acl_header(&rx).len, 254);
}

#[test]
fn keyboard_reports_are_forwarded_or_dropped() {
    let report = [0x02, 0x00, 0x04, 0x00, 0x00, 0x00, 0x00, 0x00];
    assert_eq!(forward_keyboard_report(&report, 0), KeyReport::Forward { report });
    assert_eq!(forward_keyboard_report(&report, 5), KeyReport::Forward { report });
    assert_eq!(forward_keyboard_report(&[0x02, 0xE9], 0), KeyReport::Drop { loud: true });
    assert_eq!(forward_keyboard_report(&[0x02, 0xE9], 4), KeyReport::Drop { loud: true });
    assert_eq!(forward_keyboard_report(&[0x02, 0xE9], 5), KeyReport::Drop { loud: false });
}

#[test]
fn trackpad_reports_are_told_apart() {
    let mut touch = vec![0x31, 0x00, 0x00, 0x00];
    assert_eq!(classify_trackpad_report(&touch), TrackpadReport::Touch { fingers: 0 });
    touch.extend_from_slice(&[0u8; 20]);
    assert_eq!(classify_trackpad_report(&touch), TrackpadReport::Touch { fingers: 2 });
    assert_eq!(
        classify_trackpad_report(&[0x31, 0x00, 0x00]),
        TrackpadReport::Other { report_id: 0x31 }
    );
    assert_eq!(
        classify_trackpad_report(&[0x90, 0x02, 0x57]),
        TrackpadReport::Battery { flags: 0x02, capacity: 0x57 }
    );
    assert_eq!(
        classify_trackpad_report(&[0x90, 0x02]),
        TrackpadReport::Other { report_id: 0x90 }
    );
    assert_eq!(classify_trackpad_report(&[]), TrackpadReport::Other { report_id: 0 });
    assert_eq!(
        classify_trackpad_report(&[0x12, 0, 0, 0, 0]),
        TrackpadReport::Other { report_id: 0x12 }
    );
}

#[test]
fn report_headers_name_the_interface() {
    assert_eq!(
        keyboard_header(),
        ReportHeader {
            report_type: HidReportType::Keyboard,
            profile: DeviceProfile::Keyboard,
            slot_index: 3,
            report_id: 0,
            len: 8,
        }
    );
    assert_eq!(
        touch_header(40, 64),
        ReportHeader {
            report_type: HidReportType::Mouse,
            profile: DeviceProfile::MagicTrackpad,
            slot_index: 3,
            report_id: 0x31,
            len: 40,
        }
    );
    assert_eq!(touch_header(100, 64).len, 64);
}

#[test]
fn touch_reports_are_sent_from_their_start() {
    let report: Vec<u8> = (0..100u8).map(|i| if i == 0 { 0x31 } else { i }).collect();
    assert_eq!(touch_payload(&report, &touch_header(100, 64)), &report[..64]);
    assert_eq!(touch_payload(&report, &touch_header(100, 128)), &report[..]);
    assert_eq!(touch_payload(&report[..13], &touch_header(13, 64)), &report[..13]);
    // A header that says more than there is.
    assert_eq!(touch_payload(&report[..13], &touch_header(100, 64)), &report[..13]);
    assert_eq!(touch_payload(&[], &touch_header(4, 64)), &[0u8; 0][..]);
}

#[test]
fn setup_depends_on_the_profile() {
    assert_eq!(profile_setup(DeviceProfile::Keyboard), vec![HidRequest::SetProtocolBoot]);
    let trackpad = vec![
        HidRequest::SetFeatureReport { report_id: 0xF1, data: [0x02, 0x01] },
        HidRequest::GetInputReport { report_id: 0x90 },
    ];
    assert_eq!(profile_setup(DeviceProfile::MagicTrackpad), trackpad);
    assert_eq!(profile_setup(DeviceProfile::Other { id: 7, keyboard: false }), trackpad);
    assert_eq!(
        profile_setup(DeviceProfile::Other { id: 8, keyboard: true }),
        vec![HidRequest::SetProtocolBoot]
    );
}

#[test]
fn profiles_know_keyboards() {
    assert!(DeviceProfile::Keyboard.is_keyboard());
    assert!(!DeviceProfile::MagicTrackpad.is_keyboard());
    assert!(DeviceProfile::Other { id: 1, keyboard: true }.is_keyboard());
    assert!(!DeviceProfile::Other { id: 1, keyboard: false }.is_keyboard());
}
