//! Bluetooth Classic helpers: Class of Device decoding and HID keyboard
//! report translation.

use vstd::prelude::*;

verus! {

/// Major Device Class for "Peripheral": keyboards, mice, trackpads, gamepads.
pub const MAJOR_CLASS_PERIPHERAL: u8 = 0x05;

/// Length of a USB/Bluetooth boot-protocol keyboard report.
pub const BOOT_KEYBOARD_REPORT_LEN: usize = 8;

/// Report ID used by the keyboard input report of virtually every Classic
/// keyboard that runs in report protocol rather than boot protocol.
pub const KEYBOARD_REPORT_ID: u8 = 0x01;

/// The 24-bit Class of Device that three little-endian bytes spell out.
pub open spec fn cod_value(cod: Seq<u8>) -> int {
    cod[0] + 0x100 * cod[1] + 0x1_0000 * cod[2]
}

/// Bits 12:8 of a Class of Device: the Major Device Class.
pub open spec fn major_class(cod: Seq<u8>) -> int {
    (cod_value(cod) / 0x100) % 0x20
}

/// Bits 7:6 of a Class of Device: for a Peripheral, the kind of device.
pub open spec fn peripheral_kind(cod: Seq<u8>) -> int {
    (cod_value(cod) / 0x40) % 4
}

/// A complete Class of Device whose Major Device Class is Peripheral.
pub open spec fn is_peripheral(cod: Seq<u8>) -> bool {
    cod.len() >= 3 && major_class(cod) == MAJOR_CLASS_PERIPHERAL
}

/// A Peripheral whose kind is keyboard (1) or combo keyboard/pointing (3).
pub open spec fn is_keyboard(cod: Seq<u8>) -> bool {
    is_peripheral(cod) && (peripheral_kind(cod) == 1 || peripheral_kind(cod) == 3)
}

/// A Peripheral whose kind is pointing device (2) or combo (3).
pub open spec fn is_pointing(cod: Seq<u8>) -> bool {
    is_peripheral(cod) && (peripheral_kind(cod) == 2 || peripheral_kind(cod) == 3)
}

/// The fields that decide the kind of a device lie within single bytes.
proof fn lemma_cod_fields(cod: Seq<u8>)
    ensures
        major_class(cod) == cod[1] % 0x20,
        peripheral_kind(cod) == cod[0] / 0x40,
{
    let (low, mid, high) = (cod[0] as int, cod[1] as int, cod[2] as int);
    assert(cod_value(cod) == low + 0x100 * (mid + 0x100 * high));
    assert(cod_value(cod) / 0x100 == mid + 0x20 * (8 * high));
    assert(cod_value(cod) / 0x40 == low / 0x40 + 4 * (mid + 0x100 * high));
}

/// Extract the Major Device Class (bits 12:8) from a 3-byte Class of Device.
///
/// CoD arrives from HCI little-endian:
///   cod[0] = bits 7:0   (format type + minor device class)
///   cod[1] = bits 15:8  (major device class + low major service bits)
///   cod[2] = bits 23:16 (major service class)
pub fn cod_major_device_class(cod: &[u8]) -> (r: Option<u8>)
    ensures
        r is Some <==> cod@.len() >= 3,
        r matches Some(c) ==> c == major_class(cod@),
{
    if cod.len() < 3 {
        return None;
    }
    let middle: u8 = cod[1];
    proof {
        lemma_cod_fields(cod@);
    }
    assert(middle & 0x1F == middle % 0x20) by (bit_vector);
    Some(middle & 0x1F)
}

/// Whether a Class of Device identifies a Peripheral (HID) device.
pub fn cod_is_peripheral(cod: &[u8]) -> (r: bool)
    ensures
        r == is_peripheral(cod@),
{
    match cod_major_device_class(cod) {
        Some(class) => class == MAJOR_CLASS_PERIPHERAL,
        None => false,
    }
}

/// Whether a Class of Device identifies a keyboard.
///
/// For the Peripheral major class the top two bits of the Minor Device Class
/// (bits 7:6 of the CoD, i.e. the top of `cod[0]`) select the device kind:
///   00 = uncategorized, 01 = keyboard, 10 = pointing device,
///   11 = combo keyboard/pointing device.
///
/// Combos count as keyboards: their keystrokes are what we can forward.
pub fn cod_is_keyboard(cod: &[u8]) -> (r: bool)
    ensures
        r == is_keyboard(cod@),
{
    if !cod_is_peripheral(cod) {
        return false;
    }
    let low: u8 = cod[0];
    proof {
        lemma_cod_fields(cod@);
        assert((low >> 6) & 0x03 == low / 0x40) by (bit_vector);
    }
    matches!((low >> 6) & 0x03, 0b01 | 0b11)
}

/// Whether a Class of Device identifies a pointing device (mouse, trackpad).
pub fn cod_is_pointing(cod: &[u8]) -> (r: bool)
    ensures
        r == is_pointing(cod@),
{
    if !cod_is_peripheral(cod) {
        return false;
    }
    let low: u8 = cod[0];
    proof {
        lemma_cod_fields(cod@);
        assert((low >> 6) & 0x03 == low / 0x40) by (bit_vector);
    }
    matches!((low >> 6) & 0x03, 0b10 | 0b11)
}

/// The modifiers, reserved byte and six keys of an accepted input report: the
/// report itself in boot protocol, what follows the report ID in report
/// protocol.
pub open spec fn report_body(data: Seq<u8>) -> Option<Seq<u8>> {
    if data.len() == BOOT_KEYBOARD_REPORT_LEN {
        Some(data)
    } else if data.len() == BOOT_KEYBOARD_REPORT_LEN + 1 && data[0] == KEYBOARD_REPORT_ID {
        Some(data.skip(1))
    } else {
        None
    }
}

/// The boot keyboard report that an input report stands for: its body with the
/// reserved byte cleared.
pub open spec fn boot_report(data: Seq<u8>) -> Option<Seq<u8>> {
    match report_body(data) {
        Some(body) => Some(body.update(1, 0)),
        None => None,
    }
}

/// Translate a HIDP input report from a Classic keyboard into the 8-byte boot
/// keyboard report the USB side sends: `[modifiers, 0, key1..key6]`.
///
/// Two shapes are accepted, covering what keyboards emit in practice:
///
/// - 8 bytes: boot protocol, already `[modifiers, reserved, key1..key6]`.
///   This is what a keyboard sends once `SET_PROTOCOL(Boot)` is accepted.
/// - 9 bytes starting with report ID `0x01`: report protocol with the same
///   payload behind a report ID, for keyboards that refuse boot protocol.
///
/// Anything else returns `None` rather than guessing: a misread report types
/// characters the user never pressed, while a dropped one is merely silent.
///
/// The reserved byte is forced to zero: some keyboards put OEM data there,
/// and hosts expect it clear.
pub fn translate_keyboard_report(data: &[u8]) -> (r: Option<[u8; BOOT_KEYBOARD_REPORT_LEN]>)
    ensures
        match r {
            Some(out) => boot_report(data@) == Some(out@),
            None => boot_report(data@) is None,
        },
{
    let start: usize = if data.len() == BOOT_KEYBOARD_REPORT_LEN {
        0
    } else if data.len() == BOOT_KEYBOARD_REPORT_LEN + 1 && data[0] == KEYBOARD_REPORT_ID {
        1
    } else {
        return None;
    };
    let mut out: [u8; BOOT_KEYBOARD_REPORT_LEN] = [0u8; BOOT_KEYBOARD_REPORT_LEN];
    out[0] = data[start];
    let mut i: usize = 2;
    while i < BOOT_KEYBOARD_REPORT_LEN
        invariant
            2 <= i <= BOOT_KEYBOARD_REPORT_LEN,
            start <= 1,
            data@.len() == BOOT_KEYBOARD_REPORT_LEN + start,
            out@[0] == data@[start as int],
            out@[1] == 0,
            forall|k: int| 2 <= k < i ==> out@[k] == data@[start + k],
        decreases BOOT_KEYBOARD_REPORT_LEN - i,
    {
        out[i] = data[start + i];
        i = i + 1;
    }
    proof {
        assert(report_body(data@) == Some(data@.skip(start as int)));
        assert(out@ == data@.skip(start as int).update(1, 0));
    }
    Some(out)
}

/// Every keyboard and every pointing device is a Peripheral, and a device is
/// both exactly when it is a combo.
pub proof fn law_device_kinds(cod: Seq<u8>)
    ensures
        is_keyboard(cod) ==> is_peripheral(cod),
        is_pointing(cod) ==> is_peripheral(cod),
        is_keyboard(cod) && is_pointing(cod) <==> is_peripheral(cod) && peripheral_kind(cod) == 3,
        is_peripheral(cod) && !is_keyboard(cod) && !is_pointing(cod) ==> peripheral_kind(cod) == 0,
{
}

/// The Major Device Class alone decides whether a device is a Peripheral, and
/// with the kind in the top of the low byte whether it is a keyboard or a
/// pointing device: the service class bits, the rest of the low byte and what
/// follows the three bytes change nothing.
pub proof fn law_kind_ignores_service_class(a: Seq<u8>, b: Seq<u8>)
    requires
        a.len() >= 3,
        b.len() >= 3,
        a[1] % 0x20 == b[1] % 0x20,
    ensures
        major_class(a) == major_class(b),
        is_peripheral(a) == is_peripheral(b),
        a[0] / 0x40 == b[0] / 0x40 ==> is_keyboard(a) == is_keyboard(b),
        a[0] / 0x40 == b[0] / 0x40 ==> is_pointing(a) == is_pointing(b),
{
    lemma_cod_fields(a);
    lemma_cod_fields(b);
}

/// A report is accepted exactly in two shapes: eight bytes, or nine bytes that
/// start with the keyboard report ID.
pub proof fn law_accepted_shapes(data: Seq<u8>)
    ensures
        boot_report(data) is Some <==> (data.len() == 8 || (data.len() == 9 && data[0] == 0x01)),
{
}

/// A translated report has eight bytes, a clear reserved byte, and the
/// modifiers and the six keys of what the keyboard sent.
pub proof fn law_keys_are_preserved(data: Seq<u8>)
    requires
        boot_report(data) is Some,
    ensures
        boot_report(data)->0.len() == 8,
        boot_report(data)->0[1] == 0,
        forall|k: int|
            0 <= k < 8 && k != 1 ==> #[trigger] boot_report(data)->0[k] == data[data.len() - 8 + k],
{
}

/// Translation is idempotent: a translated report passes through unchanged.
pub proof fn law_translation_is_idempotent(data: Seq<u8>)
    requires
        boot_report(data) is Some,
    ensures
        boot_report(boot_report(data)->0) == boot_report(data),
{
    let once = boot_report(data)->0;
    assert(once.update(1, 0) == once);
}

/// Both protocols give the same keys: a boot report and the same report behind
/// the keyboard report ID translate alike.
pub proof fn law_protocols_agree(body: Seq<u8>)
    requires
        body.len() == BOOT_KEYBOARD_REPORT_LEN,
    ensures
        boot_report(seq![KEYBOARD_REPORT_ID] + body) == boot_report(body),
{
    assert((seq![KEYBOARD_REPORT_ID] + body).skip(1) == body);
}

/// What a device is can be read off two bytes: the low five bits of the middle one
/// are 5 for a Peripheral, and the top two bits of the low one are 1 for a
/// keyboard, 2 for a pointing device and 3 for both. Fewer than three bytes are
/// nothing.
pub proof fn law_kinds_by_bytes(cod: Seq<u8>)
    ensures
        cod.len() >= 3 ==> major_class(cod) == cod[1] % 32,
        is_peripheral(cod) <==> cod.len() >= 3 && cod[1] % 32 == 5,
        is_keyboard(cod) <==> cod.len() >= 3 && cod[1] % 32 == 5 && (64 <= cod[0] < 128 || cod[0]
            >= 192),
        is_pointing(cod) <==> cod.len() >= 3 && cod[1] % 32 == 5 && cod[0] >= 128,
{
    lemma_cod_fields(cod);
}

/// A boot report is sent on byte for byte but for the reserved byte, a report
/// behind the keyboard report ID likewise without the ID, and nothing else is
/// sent on.
pub proof fn law_translation_by_bytes(data: Seq<u8>)
    ensures
        data.len() == 8 ==> boot_report(data) == Some(
            seq![data[0], 0, data[2], data[3], data[4], data[5], data[6], data[7]],
        ),
        data.len() == 9 && data[0] == 1 ==> boot_report(data) == Some(
            seq![data[1], 0, data[3], data[4], data[5], data[6], data[7], data[8]],
        ),
        data.len() != 8 && !(data.len() == 9 && data[0] == 1) ==> boot_report(data) is None,
{
    if data.len() == 8 {
        assert(boot_report(data)->0 =~= seq![
            data[0], 0, data[2], data[3], data[4], data[5], data[6], data[7],
        ]);
    }
    if data.len() == 9 && data[0] == 1 {
        assert(boot_report(data)->0 =~= seq![
            data[1], 0, data[3], data[4], data[5], data[6], data[7], data[8],
        ]);
    }
}

} // verus!
