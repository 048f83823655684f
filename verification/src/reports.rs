//! Reports from a connected device, and what becomes of them on the USB side.

use crate::classic::{boot_report, translate_keyboard_report};
use crate::bytes::{lemma_eight_bytes, lemma_to_array, to_array};
use crate::profile::{DeviceProfile, BATTERY_REPORT_ID};
use vstd::prelude::*;

verus! {

/// Size of the buffer that a packet from the controller is read into.
pub const RX_BUFFER_LEN: usize = 259;

/// Slot index reported for Classic devices. The three BLE slots are 0..=2.
pub const CLASSIC_SLOT_INDEX: u8 = 3;

/// Touch report of the Magic Trackpad 2: a 4-byte header and nine bytes for each
/// touch point.
pub const TOUCH_REPORT_ID: u8 = 0x31;

/// Where in the read buffer the payload of an ACL packet starts: behind the HCI
/// packet type and the ACL header.
pub const ACL_PAYLOAD_AT: usize = 5;

/// The header of an ACL packet: its connection handle and flags, and how many
/// bytes of payload the read buffer holds.
#[derive(Debug, Clone, Copy, PartialEq, Eq)]
pub struct AclHeader {
    pub handle_and_flags: u16,
    pub len: usize,
}

/// The 16-bit value that two little-endian bytes hold.
pub open spec fn le_u16(low: u8, high: u8) -> u16 {
    (low + 0x100 * high) as u16
}

/// The header of the ACL packet in a read buffer. The length that it declares
/// counts only as far as the buffer reaches.
pub open spec fn acl_header_of(rx: Seq<u8>) -> AclHeader {
    let declared = le_u16(rx[3], rx[4]) as int;
    let room = rx.len() - ACL_PAYLOAD_AT;
    AclHeader {
        handle_and_flags: le_u16(rx[1], rx[2]),
        len: (if declared <= room {
            declared
        } else {
            room
        }) as usize,
    }
}

/// Read the header of the ACL packet in a read buffer.
pub fn acl_header(rx: &[u8; RX_BUFFER_LEN]) -> (r: AclHeader)
    ensures
        r == acl_header_of(rx@),
        ACL_PAYLOAD_AT + r.len <= RX_BUFFER_LEN,
{
    let handle_and_flags: u16 = rx[1] as u16 + 0x100 * (rx[2] as u16);
    let declared: usize = rx[3] as usize + 0x100 * (rx[4] as usize);
    let room: usize = RX_BUFFER_LEN - ACL_PAYLOAD_AT;
    let len: usize = if declared <= room {
        declared
    } else {
        room
    };
    AclHeader { handle_and_flags, len }
}

/// Which USB interface a report goes to.
#[derive(Debug, Clone, Copy, PartialEq, Eq, Structural)]
pub enum HidReportType {
    Keyboard,
    Mouse,
}

/// What goes along with the bytes of a report to the USB side.
#[derive(Debug, Clone, Copy, PartialEq, Eq)]
pub struct ReportHeader {
    pub report_type: HidReportType,
    pub profile: DeviceProfile,
    pub slot_index: u8,
    pub report_id: u8,
    pub len: usize,
}

/// The header of a boot keyboard report.
pub open spec fn keyboard_header_spec() -> ReportHeader {
    ReportHeader {
        report_type: HidReportType::Keyboard,
        profile: DeviceProfile::Keyboard,
        slot_index: CLASSIC_SLOT_INDEX,
        report_id: 0,
        len: 8,
    }
}

/// The header of a boot keyboard report.
pub fn keyboard_header() -> (r: ReportHeader)
    ensures
        r == keyboard_header_spec(),
{
    ReportHeader {
        report_type: HidReportType::Keyboard,
        profile: DeviceProfile::Keyboard,
        slot_index: CLASSIC_SLOT_INDEX,
        report_id: 0,
        len: 8,
    }
}

/// The header of a touch report of `len` bytes, of which the USB side takes the
/// first `capacity` at most.
pub open spec fn touch_header_spec(len: int, capacity: usize) -> ReportHeader {
    ReportHeader {
        report_type: HidReportType::Mouse,
        profile: DeviceProfile::MagicTrackpad,
        slot_index: CLASSIC_SLOT_INDEX,
        report_id: TOUCH_REPORT_ID,
        len: if len <= capacity {
            len as usize
        } else {
            capacity
        },
    }
}

/// The header of a touch report of `len` bytes.
pub fn touch_header(len: usize, capacity: usize) -> (r: ReportHeader)
    ensures
        r == touch_header_spec(len as int, capacity),
{
    ReportHeader {
        report_type: HidReportType::Mouse,
        profile: DeviceProfile::MagicTrackpad,
        slot_index: CLASSIC_SLOT_INDEX,
        report_id: TOUCH_REPORT_ID,
        len: if len <= capacity {
            len
        } else {
            capacity
        },
    }
}

/// The bytes of a touch report that go to the USB side: as many of the first
/// ones as the header says.
pub open spec fn touch_bytes(report: Seq<u8>, header: ReportHeader) -> Seq<u8> {
    report.take(
        if header.len <= report.len() {
            header.len as int
        } else {
            report.len() as int
        },
    )
}

/// The bytes of a touch report that go to the USB side.
pub fn touch_payload<'a>(report: &'a [u8], header: &ReportHeader) -> (r: &'a [u8])
    ensures
        r@ == touch_bytes(report@, *header),
{
    let len: usize = if header.len <= report.len() {
        header.len
    } else {
        report.len()
    };
    let r: &'a [u8] = &report[0..len];
    assert(r@ == report@.take(len as int));
    r
}

/// How many unrecognised keyboard reports to log loudly before going quiet.
pub const MAX_UNKNOWN_KEY_REPORT_LOGS: u8 = 5;

/// What becomes of a keyboard's report.
#[derive(Debug, Clone, Copy, PartialEq, Eq)]
pub enum KeyReport {
    /// It goes to the USB keyboard interface as this boot report.
    Forward { report: [u8; 8] },
    /// It is dropped and logged. Consumer/media keys and vendor reports land
    /// here: a misread report types characters nobody pressed.
    Drop { loud: bool },
}

/// What becomes of a keyboard's report, when `unknown` reports were dropped
/// loudly before. The first few are logged so that the log shows what a given
/// keyboard sends that we skip; after that they would only be noise, since a
/// media key held down repeats.
pub open spec fn key_report(report: Seq<u8>, unknown: u8) -> KeyReport {
    match boot_report(report) {
        Some(boot) => KeyReport::Forward { report: to_array::<8>(boot) },
        None => KeyReport::Drop { loud: unknown < MAX_UNKNOWN_KEY_REPORT_LOGS },
    }
}

/// Decide what becomes of a keyboard's report.
pub fn forward_keyboard_report(report: &[u8], unknown: u8) -> (r: KeyReport)
    ensures
        r == key_report(report@, unknown),
{
    match translate_keyboard_report(report) {
        Some(boot) => {
            proof {
                lemma_to_array(boot);
            }
            KeyReport::Forward { report: boot }
        },
        None => KeyReport::Drop { loud: unknown < MAX_UNKNOWN_KEY_REPORT_LOGS },
    }
}

/// What a report of a Magic Trackpad 2 is.
#[derive(Debug, Clone, Copy, PartialEq, Eq)]
pub enum TrackpadReport {
    /// Touch points of that many fingers.
    Touch { fingers: usize },
    /// Battery state. Flag bits: 0 = AC present, 1 = charging, 2 = discharging.
    Battery { flags: u8, capacity: u8 },
    /// Status or control, not forwarded.
    Other { report_id: u8 },
}

/// What a report of a Magic Trackpad 2 is, by its report ID and length.
pub open spec fn trackpad_report(report: Seq<u8>) -> TrackpadReport {
    if report.len() >= 4 && report[0] == TOUCH_REPORT_ID {
        TrackpadReport::Touch { fingers: ((report.len() - 4) / 9) as usize }
    } else if report.len() >= 3 && report[0] == BATTERY_REPORT_ID {
        TrackpadReport::Battery { flags: report[1], capacity: report[2] }
    } else {
        TrackpadReport::Other {
            report_id: if report.len() > 0 {
                report[0]
            } else {
                0
            },
        }
    }
}

/// Tell what a report of a Magic Trackpad 2 is.
pub fn classify_trackpad_report(report: &[u8]) -> (r: TrackpadReport)
    ensures
        r == trackpad_report(report@),
{
    let report_id: u8 = if report.len() > 0 {
        report[0]
    } else {
        0
    };
    if report_id == TOUCH_REPORT_ID && report.len() >= 4 {
        TrackpadReport::Touch { fingers: (report.len() - 4) / 9 }
    } else if report_id == BATTERY_REPORT_ID && report.len() >= 3 {
        TrackpadReport::Battery { flags: report[1], capacity: report[2] }
    } else {
        TrackpadReport::Other { report_id }
    }
}

/// In a read buffer of 259 bytes, the handle and flags of an ACL packet are the
/// second and third byte and its length the fourth and fifth, low byte first; no
/// more than the 254 bytes behind them are taken.
pub proof fn law_acl_header_by_bytes(rx: Seq<u8>)
    requires
        rx.len() == 259,
    ensures
        acl_header_of(rx).handle_and_flags == rx[1] + 256 * rx[2],
        rx[3] + 256 * rx[4] <= 254 ==> acl_header_of(rx).len == rx[3] + 256 * rx[4],
        rx[3] + 256 * rx[4] > 254 ==> acl_header_of(rx).len == 254,
{
}

/// Every key report goes to the keyboard interface: slot 3, report ID 0, eight
/// bytes.
pub proof fn law_keyboard_header_by_values()
    ensures
        keyboard_header_spec().report_type is Keyboard,
        keyboard_header_spec().profile is Keyboard,
        keyboard_header_spec().slot_index == 3,
        keyboard_header_spec().report_id == 0,
        keyboard_header_spec().len == 8,
{
}

/// Every touch report, whatever its length and the room there is, goes to the mouse
/// interface as one of the Magic Trackpad: slot 3, report ID 0x31, and all its
/// bytes or as many as there is room for.
pub proof fn law_touch_header_by_values(len: usize, capacity: usize)
    ensures
        ({
            let header = touch_header_spec(len as int, capacity);
            &&& header.report_type is Mouse
            &&& header.profile is MagicTrackpad
            &&& header.slot_index == 3
            &&& header.report_id == 0x31
            &&& header.len == len || header.len == capacity
            &&& header.len <= len
            &&& header.len <= capacity
        }),
{
}

/// What is sent of a touch report is its beginning: as many bytes as the header
/// says, or all there are if that is less, each in its place.
pub proof fn law_touch_bytes_are_the_beginning(report: Seq<u8>, header: ReportHeader)
    ensures
        touch_bytes(report, header).len() == header.len || touch_bytes(report, header).len()
            == report.len(),
        touch_bytes(report, header).len() <= header.len,
        touch_bytes(report, header).len() <= report.len(),
        forall|k: int|
            0 <= k < touch_bytes(report, header).len() ==> #[trigger] touch_bytes(report, header)[k]
                == report[k],
{
}

/// A keyboard's report is sent on exactly if it has eight bytes, or nine of which
/// the first is 1: its last eight bytes, with a zero for the second of them.
/// Anything else is dropped, and loudly exactly if fewer than five were before.
pub proof fn law_key_reports_by_bytes(report: Seq<u8>, unknown: u8)
    ensures
        key_report(report, unknown) is Forward <==> report.len() == 8 || (report.len() == 9
            && report[0] == 1),
        key_report(report, unknown) matches KeyReport::Forward { report: boot } ==> {
            &&& boot@[1] == 0
            &&& forall|k: int|
                0 <= k < 8 && k != 1 ==> #[trigger] boot@[k] == report[report.len() - 8 + k]
        },
        key_report(report, unknown) matches KeyReport::Drop { loud } ==> (loud <==> unknown < 5),
{
    if boot_report(report) is Some {
        lemma_eight_bytes(boot_report(report)->0);
    }
}

/// A trackpad's report is a touch report if it begins with 0x31 and has at least
/// four bytes; it shows a finger for every whole nine bytes behind those. It is a
/// battery report if it begins with 0x90 and has at least three bytes, of which the
/// second holds the flags and the third the capacity. Anything else is neither.
pub proof fn law_trackpad_reports_by_bytes(report: Seq<u8>)
    requires
        report.len() <= usize::MAX,
    ensures
        trackpad_report(report) is Touch <==> report.len() >= 4 && report[0] == 0x31,
        trackpad_report(report) matches TrackpadReport::Touch { fingers } ==> 4 + 9 * fingers
            <= report.len() < 13 + 9 * fingers,
        trackpad_report(report) is Battery <==> report.len() >= 3 && report[0] == 0x90,
        trackpad_report(report) matches TrackpadReport::Battery { flags, capacity } ==> flags
            == report[1] && capacity == report[2],
        trackpad_report(report) matches TrackpadReport::Other { report_id } ==> report_id == (
        if report.len() > 0 {
            report[0]
        } else {
            0
        }),
{
}

} // verus!
