//! Inquiry results: what the controller reports of each device that answers.
//!
//! The three result formats carry the same things at different places. Standard
//! results and results with RSSI hold several entries of fourteen bytes each
//! behind a count; an extended result holds one entry, followed by Extended
//! Inquiry Response (EIR) data with the device name in it.

use crate::bytes::{
    copy_array, law_zeros_are_zero, lemma_six_bytes, lemma_thirty_two_bytes, lemma_three_bytes,
    lemma_to_array, to_array, zero_array, zeros,
};
use crate::classic::{cod_is_peripheral, is_peripheral, law_kinds_by_bytes};
use vstd::prelude::*;

verus! {

/// Length of one entry of a standard result or a result with RSSI.
pub const INQUIRY_ENTRY_LEN: usize = 14;

/// Room for a device name.
pub const MAX_NAME_LEN: usize = 32;

/// Signal strength reported for a device whose result carries none.
pub const UNKNOWN_RSSI: i8 = -127;

/// EIR data type: shortened local name.
pub const EIR_SHORT_NAME: u8 = 0x08;

/// EIR data type: complete local name.
pub const EIR_COMPLETE_NAME: u8 = 0x09;

/// Over which transport a device was found.
#[derive(Debug, Clone, Copy, PartialEq, Eq, Structural)]
pub enum TransportType {
    Ble,
    Classic,
}

/// A found device, as it is reported to the user.
#[derive(Debug, Clone, Copy, PartialEq, Eq)]
pub struct ScanResultData {
    pub address: [u8; 6],
    pub addr_kind: u8,
    pub name: [u8; MAX_NAME_LEN],
    pub name_len: u8,
    pub rssi: i8,
    pub is_hid: bool,
    pub transport_type: TransportType,
}

/// A found device together with its Class of Device.
#[derive(Debug, Clone, Copy, PartialEq, Eq)]
pub struct FoundDevice {
    pub result: ScanResultData,
    pub cod: [u8; 3],
}

/// The signed value that a byte holds in two's complement.
pub open spec fn signed(byte: u8) -> i8 {
    (if byte < 0x80 {
        byte as int
    } else {
        byte - 0x100
    }) as i8
}

/// The device whose address and Class of Device stand at the given places.
pub open spec fn device_at(
    data: Seq<u8>,
    addr_at: int,
    cod_at: int,
    name: (Seq<u8>, int),
    rssi: i8,
) -> FoundDevice {
    let cod = data.subrange(cod_at, cod_at + 3);
    FoundDevice {
        result: ScanResultData {
            address: to_array::<6>(data.subrange(addr_at, addr_at + 6)),
            addr_kind: 0,
            name: to_array::<MAX_NAME_LEN>(name.0),
            name_len: name.1 as u8,
            rssi,
            is_hid: is_peripheral(cod),
            transport_type: TransportType::Classic,
        },
        cod: to_array::<3>(cod),
    }
}

/// No name: an empty buffer.
pub open spec fn no_name() -> (Seq<u8>, int) {
    (zeros(MAX_NAME_LEN as nat), 0)
}

/// How many entries a result holds in full: as many as its count says, as far
/// as the data reaches.
pub open spec fn entry_count(data: Seq<u8>) -> int {
    if data.len() == 0 {
        0
    } else {
        let room = (data.len() - 1) / (INQUIRY_ENTRY_LEN as int);
        if data[0] <= room {
            data[0] as int
        } else {
            room
        }
    }
}

/// Where entry `i` starts.
pub open spec fn entry_start(i: int) -> int {
    1 + i * INQUIRY_ENTRY_LEN
}

/// Entry `i` of a standard result: address, two reserved fields of one and two
/// bytes, Class of Device, clock offset.
pub open spec fn standard_entry(data: Seq<u8>, i: int) -> FoundDevice {
    device_at(data, entry_start(i), entry_start(i) + 9, no_name(), UNKNOWN_RSSI)
}

/// Entry `i` of a result with RSSI: address, two reserved bytes, Class of
/// Device, clock offset, signal strength.
pub open spec fn rssi_entry(data: Seq<u8>, i: int) -> FoundDevice {
    device_at(
        data,
        entry_start(i),
        entry_start(i) + 8,
        no_name(),
        signed(data[entry_start(i) + 13]),
    )
}

/// The devices of a standard result.
pub open spec fn standard_devices(data: Seq<u8>) -> Seq<FoundDevice> {
    Seq::new(entry_count(data) as nat, |i: int| standard_entry(data, i))
}

/// The devices of a result with RSSI.
pub open spec fn rssi_devices(data: Seq<u8>) -> Seq<FoundDevice> {
    Seq::new(entry_count(data) as nat, |i: int| rssi_entry(data, i))
}

/// One field of EIR data: the length that it declares for its type and data,
/// its type, and as much of its data as is there.
pub struct EirField {
    pub len: int,
    pub kind: u8,
    pub data: Seq<u8>,
}

/// The fields of EIR data. They end at a zero length or where no type fits.
pub open spec fn eir_fields(eir: Seq<u8>) -> Seq<EirField>
    decreases eir.len(),
{
    if eir.len() < 2 || eir[0] == 0 {
        Seq::empty()
    } else {
        let end = if 1 + eir[0] < eir.len() {
            1 + eir[0]
        } else {
            eir.len() as int
        };
        seq![EirField { len: eir[0] as int, kind: eir[1], data: eir.subrange(2, end) }] + eir_fields(
            eir.skip(end),
        )
    }
}

/// A field that names the device.
pub open spec fn is_name_field(field: EirField) -> bool {
    (field.kind == EIR_SHORT_NAME || field.kind == EIR_COMPLETE_NAME) && field.len > 1
}

/// The bytes of a name field that there is room for.
pub open spec fn name_bytes(field: EirField) -> Seq<u8> {
    if field.data.len() <= MAX_NAME_LEN {
        field.data
    } else {
        field.data.take(MAX_NAME_LEN as int)
    }
}

/// The name buffer and name length after the given fields: each name field is
/// written over the start of the buffer.
pub open spec fn eir_name(fields: Seq<EirField>) -> (Seq<u8>, int)
    decreases fields.len(),
{
    if fields.len() == 0 {
        no_name()
    } else {
        let before = eir_name(fields.drop_last());
        if is_name_field(fields.last()) {
            let name = name_bytes(fields.last());
            (name + before.0.skip(name.len() as int), name.len() as int)
        } else {
            before
        }
    }
}

/// The device of an extended result: a count, address, two reserved bytes, Class
/// of Device, clock offset, signal strength, EIR data.
pub open spec fn extended_device(data: Seq<u8>) -> Option<FoundDevice> {
    if data.len() >= 15 {
        Some(device_at(data, 1, 9, eir_name(eir_fields(data.skip(15))), signed(data[14])))
    } else {
        None
    }
}

/// The signed value of a byte.
fn signed_byte(byte: u8) -> (r: i8)
    ensures
        r == signed(byte),
{
    if byte < 0x80 {
        byte as i8
    } else {
        (byte as i16 - 0x100) as i8
    }
}

/// Read the device whose address and Class of Device stand at the given places.
fn read_device(
    data: &[u8],
    addr_at: usize,
    cod_at: usize,
    name: [u8; MAX_NAME_LEN],
    name_len: u8,
    rssi: i8,
) -> (r: FoundDevice)
    requires
        addr_at + 6 <= data@.len(),
        cod_at + 3 <= data@.len(),
    ensures
        r == device_at(data@, addr_at as int, cod_at as int, (name@, name_len as int), rssi),
{
    let address: [u8; 6] = copy_array::<6>(data, addr_at);
    let cod: [u8; 3] = copy_array::<3>(data, cod_at);
    proof {
        lemma_to_array(name);
    }
    FoundDevice {
        result: ScanResultData {
            address,
            addr_kind: 0,
            name,
            name_len,
            rssi,
            is_hid: cod_is_peripheral(&cod),
            transport_type: TransportType::Classic,
        },
        cod,
    }
}

/// The devices of a standard Inquiry result.
pub fn parse_inquiry_result(data: &[u8]) -> (r: Vec<FoundDevice>)
    ensures
        r@ == standard_devices(data@),
{
    let mut found: Vec<FoundDevice> = Vec::new();
    if data.len() > 0 {
        let count: usize = data[0] as usize;
        let mut i: usize = 0;
        while i < count && data.len() - 1 - i * INQUIRY_ENTRY_LEN >= INQUIRY_ENTRY_LEN
            invariant
                data@.len() > 0,
                count == data@[0],
                i <= entry_count(data@),
                i <= 255,
                found@ == standard_devices(data@).take(i as int),
            decreases count - i,
        {
            let start: usize = 1 + i * INQUIRY_ENTRY_LEN;
            found.push(read_device(data, start, start + 9, zero_array::<MAX_NAME_LEN>(), 0, UNKNOWN_RSSI));
            i = i + 1;
            assert(found@ == standard_devices(data@).take(i as int));
        }
        assert(i == entry_count(data@));
    }
    assert(found@ == standard_devices(data@));
    found
}

/// The devices of an Inquiry result with RSSI.
pub fn parse_inquiry_result_with_rssi(data: &[u8]) -> (r: Vec<FoundDevice>)
    ensures
        r@ == rssi_devices(data@),
{
    let mut found: Vec<FoundDevice> = Vec::new();
    if data.len() > 0 {
        let count: usize = data[0] as usize;
        let mut i: usize = 0;
        while i < count && data.len() - 1 - i * INQUIRY_ENTRY_LEN >= INQUIRY_ENTRY_LEN
            invariant
                data@.len() > 0,
                count == data@[0],
                i <= entry_count(data@),
                i <= 255,
                found@ == rssi_devices(data@).take(i as int),
            decreases count - i,
        {
            let start: usize = 1 + i * INQUIRY_ENTRY_LEN;
            let rssi: i8 = signed_byte(data[start + 13]);
            found.push(read_device(data, start, start + 8, zero_array::<MAX_NAME_LEN>(), 0, rssi));
            i = i + 1;
            assert(found@ == rssi_devices(data@).take(i as int));
        }
        assert(i == entry_count(data@));
    }
    assert(found@ == rssi_devices(data@));
    found
}

/// The name buffer always has its full length, and the name lies within it.
proof fn lemma_eir_name_fits(fields: Seq<EirField>)
    ensures
        eir_name(fields).0.len() == MAX_NAME_LEN,
        0 <= eir_name(fields).1 <= MAX_NAME_LEN,
    decreases fields.len(),
{
    if fields.len() > 0 {
        lemma_eir_name_fits(fields.drop_last());
    }
}

/// The device name in EIR data: a buffer that holds it, and its length.
pub fn parse_eir_name(eir: &[u8]) -> (r: ([u8; MAX_NAME_LEN], u8))
    ensures
        r.0@ == eir_name(eir_fields(eir@)).0,
        r.1 == eir_name(eir_fields(eir@)).1,
{
    let mut name: [u8; MAX_NAME_LEN] = zero_array::<MAX_NAME_LEN>();
    let mut name_len: u8 = 0;
    let mut pos: usize = 0;
    let ghost mut done: Seq<EirField> = Seq::empty();
    proof {
        assert(eir@.skip(0) == eir@);
        assert(done + eir_fields(eir@) == eir_fields(eir@));
    }
    while eir.len() - pos >= 2 && eir[pos] != 0
        invariant
            pos <= eir@.len(),
            eir_fields(eir@) == done + eir_fields(eir@.skip(pos as int)),
            name@ == eir_name(done).0,
            name_len == eir_name(done).1,
        decreases eir@.len() - pos,
    {
        let len: usize = eir[pos] as usize;
        let kind: u8 = eir[pos + 1];
        let rest: usize = eir.len() - pos;
        let end: usize = if 1 + len < rest {
            pos + 1 + len
        } else {
            eir.len()
        };
        let ghost field = EirField {
            len: len as int,
            kind,
            data: eir@.subrange(pos + 2, end as int),
        };
        proof {
            let here = eir@.skip(pos as int);
            assert(here.subrange(2, end - pos) == field.data);
            assert(here.skip(end - pos) == eir@.skip(end as int));
            assert(eir_fields(here) == seq![field] + eir_fields(eir@.skip(end as int)));
            assert(done + (seq![field] + eir_fields(eir@.skip(end as int))) == done.push(field)
                + eir_fields(eir@.skip(end as int)));
            assert(done.push(field).drop_last() == done);
            lemma_eir_name_fits(done);
        }
        if (kind == EIR_SHORT_NAME || kind == EIR_COMPLETE_NAME) && len > 1 {
            let there: usize = end - (pos + 2);
            let actual: usize = if there <= MAX_NAME_LEN {
                there
            } else {
                MAX_NAME_LEN
            };
            let ghost before = name@;
            let mut i: usize = 0;
            while i < actual
                invariant
                    i <= actual <= MAX_NAME_LEN,
                    pos + 2 + actual <= end <= eir@.len(),
                    before.len() == MAX_NAME_LEN,
                    name@ == eir@.subrange(pos + 2, pos + 2 + i) + before.skip(i as int),
                decreases actual - i,
            {
                name[i] = eir[pos + 2 + i];
                i = i + 1;
                assert(name@ == eir@.subrange(pos + 2, pos + 2 + i) + before.skip(i as int));
            }
            name_len = actual as u8;
            assert(name_bytes(field) == eir@.subrange(pos + 2, pos + 2 + actual));
        }
        proof {
            done = done.push(field);
        }
        pos = end;
    }
    assert(eir_fields(eir@.skip(pos as int)) == Seq::<EirField>::empty());
    assert(done + Seq::<EirField>::empty() == done);
    (name, name_len)
}

/// The device of an extended Inquiry result.
pub fn parse_extended_inquiry_result(data: &[u8]) -> (r: Option<FoundDevice>)
    ensures
        r == extended_device(data@),
{
    if data.len() < 15 {
        return None;
    }
    let eir: &[u8] = &data[15..data.len()];
    let (name, name_len): ([u8; MAX_NAME_LEN], u8) = parse_eir_name(eir);
    proof {
        assert(eir@ == data@.skip(15));
        lemma_eir_name_fits(eir_fields(eir@));
    }
    Some(read_device(data, 1, 9, name, name_len, signed_byte(data[14])))
}

/// Every entry that is read lies within the data, and an entry is left out only
/// if the count does not cover it or the data ends before it does.
pub proof fn law_entries_lie_within_the_data(data: Seq<u8>, i: int)
    requires
        0 <= i,
    ensures
        i < entry_count(data) <==> data.len() > 0 && i < data[0] && entry_start(i)
            + INQUIRY_ENTRY_LEN <= data.len(),
{
}

/// The last name field of EIR data is the name: as many of its bytes as there
/// is room for. Without a name field there is no name.
pub proof fn law_last_name_wins(fields: Seq<EirField>, last: int)
    requires
        -1 <= last < fields.len(),
        last >= 0 ==> is_name_field(fields[last]),
        forall|k: int| last < k < fields.len() ==> !is_name_field(#[trigger] fields[k]),
    ensures
        last == -1 ==> eir_name(fields) == no_name(),
        last >= 0 ==> eir_name(fields).1 == name_bytes(fields[last]).len(),
        last >= 0 ==> eir_name(fields).0.take(eir_name(fields).1) == name_bytes(fields[last]),
    decreases fields.len(),
{
    if fields.len() > 0 {
        if last == fields.len() - 1 {
            let name = name_bytes(fields[last]);
            assert(eir_name(fields).0.take(name.len() as int) == name);
        } else {
            law_last_name_wins(fields.drop_last(), last);
        }
    }
}

/// With a single name field, the rest of the name buffer is zero.
pub proof fn law_single_name_is_zero_padded(fields: Seq<EirField>, only: int)
    requires
        0 <= only < fields.len(),
        is_name_field(fields[only]),
        forall|k: int|
            0 <= k < fields.len() && k != only ==> !is_name_field(#[trigger] fields[k]),
    ensures
        eir_name(fields).0 == name_bytes(fields[only]) + zeros(
            (MAX_NAME_LEN - name_bytes(fields[only]).len()) as nat,
        ),
    decreases fields.len(),
{
    if only == fields.len() - 1 {
        law_last_name_wins(fields.drop_last(), -1);
    } else {
        law_single_name_is_zero_padded(fields.drop_last(), only);
    }
}

/// Every found device is reported on the Classic transport, in every result
/// format.
pub proof fn law_found_devices_are_classic(data: Seq<u8>, i: int)
    ensures
        0 <= i < entry_count(data) ==> standard_devices(data)[i].result.transport_type is Classic,
        0 <= i < entry_count(data) ==> rssi_devices(data)[i].result.transport_type is Classic,
        extended_device(data) matches Some(device) ==> device.result.transport_type is Classic,
{
}

/// A device is reported as a HID device exactly when its Class of Device is a
/// Peripheral one, in every result format.
pub proof fn law_hid_devices_are_peripherals(data: Seq<u8>, i: int)
    ensures
        0 <= i < entry_count(data) ==> standard_devices(data)[i].result.is_hid == is_peripheral(
            standard_devices(data)[i].cod@,
        ),
        0 <= i < entry_count(data) ==> rssi_devices(data)[i].result.is_hid == is_peripheral(
            rssi_devices(data)[i].cod@,
        ),
        extended_device(data) matches Some(device) ==> device.result.is_hid == is_peripheral(
            device.cod@,
        ),
{
    if 0 <= i < entry_count(data) {
        lemma_three_bytes(data.subrange(entry_start(i) + 9, entry_start(i) + 12));
        lemma_three_bytes(data.subrange(entry_start(i) + 8, entry_start(i) + 11));
    }
    if data.len() >= 15 {
        lemma_three_bytes(data.subrange(9, 12));
    }
}

/// A byte and its signed value differ by nothing or by 256, and the value lies
/// between -128 and 127.
pub proof fn law_signed_value(byte: u8)
    ensures
        signed(byte) == byte || signed(byte) == byte - 256,
        -128 <= signed(byte) <= 127,
{
}

/// A standard result is a count and entries of fourteen bytes. Entry `i` is
/// reported exactly if the count covers it and its last byte is there, with its
/// address and Class of Device from its own place, no name and no signal strength.
pub proof fn law_standard_results_by_bytes(data: Seq<u8>, i: int)
    requires
        0 <= i,
    ensures
        i < standard_devices(data).len() <==> data.len() > 0 && i < data[0] && 15 + 14 * i
            <= data.len(),
        i < standard_devices(data).len() ==> ({
            let device = standard_devices(data)[i];
            &&& device.result.address@ == data.subrange(1 + 14 * i, 7 + 14 * i)
            &&& device.cod@ == data.subrange(10 + 14 * i, 13 + 14 * i)
            &&& device.result.is_hid <==> data[11 + 14 * i] % 32 == 5
            &&& device.result.rssi == -127
            &&& device.result.addr_kind == 0
            &&& device.result.name_len == 0
            &&& forall|k: int| 0 <= k < 32 ==> #[trigger] device.result.name@[k] == 0
            &&& device.result.transport_type is Classic
        }),
{
    if i < standard_devices(data).len() {
        lemma_six_bytes(data.subrange(1 + 14 * i, 7 + 14 * i));
        lemma_three_bytes(data.subrange(10 + 14 * i, 13 + 14 * i));
        law_kinds_by_bytes(data.subrange(10 + 14 * i, 13 + 14 * i));
        law_zeros_are_zero(32);
    }
}

/// A result with RSSI is a count and entries of fourteen bytes. Entry `i` is
/// reported exactly if the count covers it and its last byte is there, with its
/// address, Class of Device and signal strength from its own place, and no name.
pub proof fn law_rssi_results_by_bytes(data: Seq<u8>, i: int)
    requires
        0 <= i,
    ensures
        i < rssi_devices(data).len() <==> data.len() > 0 && i < data[0] && 15 + 14 * i
            <= data.len(),
        i < rssi_devices(data).len() ==> ({
            let device = rssi_devices(data)[i];
            let strength = data[14 + 14 * i];
            &&& device.result.address@ == data.subrange(1 + 14 * i, 7 + 14 * i)
            &&& device.cod@ == data.subrange(9 + 14 * i, 12 + 14 * i)
            &&& device.result.is_hid <==> data[10 + 14 * i] % 32 == 5
            &&& device.result.rssi == strength || device.result.rssi == strength - 256
            &&& device.result.addr_kind == 0
            &&& device.result.name_len == 0
            &&& forall|k: int| 0 <= k < 32 ==> #[trigger] device.result.name@[k] == 0
            &&& device.result.transport_type is Classic
        }),
{
    if i < rssi_devices(data).len() {
        lemma_six_bytes(data.subrange(1 + 14 * i, 7 + 14 * i));
        lemma_three_bytes(data.subrange(9 + 14 * i, 12 + 14 * i));
        law_kinds_by_bytes(data.subrange(9 + 14 * i, 12 + 14 * i));
        law_zeros_are_zero(32);
    }
}

/// An extended result of fifteen bytes or more is one device, with its address,
/// Class of Device and signal strength from their places and the name that the
/// bytes behind them hold.
pub proof fn law_extended_result_by_bytes(data: Seq<u8>)
    ensures
        extended_device(data) is Some <==> data.len() >= 15,
        extended_device(data) matches Some(device) ==> {
            &&& device.result.address@ == data.subrange(1, 7)
            &&& device.cod@ == data.subrange(9, 12)
            &&& device.result.is_hid <==> data[10] % 32 == 5
            &&& device.result.rssi == data[14] || device.result.rssi == data[14] - 256
            &&& device.result.addr_kind == 0
            &&& device.result.name@ == eir_name(eir_fields(data.skip(15))).0
            &&& device.result.name_len == eir_name(eir_fields(data.skip(15))).1
            &&& device.result.transport_type is Classic
        },
{
    if data.len() >= 15 {
        lemma_six_bytes(data.subrange(1, 7));
        lemma_three_bytes(data.subrange(9, 12));
        law_kinds_by_bytes(data.subrange(9, 12));
        lemma_eir_name_fits(eir_fields(data.skip(15)));
        lemma_thirty_two_bytes(eir_name(eir_fields(data.skip(15))).0);
    }
}

/// EIR data is a row of fields: a length, which counts the type and the data, the
/// type, and the data. Whatever follows a whole field is read as if the field were
/// not there.
pub proof fn law_eir_fields_stand_in_a_row(len: u8, kind: u8, data: Seq<u8>, rest: Seq<u8>)
    requires
        len == data.len() + 1,
    ensures
        eir_fields(seq![len, kind] + data + rest) == seq![
            EirField { len: len as int, kind, data },
        ] + eir_fields(rest),
{
    let eir = seq![len, kind] + data + rest;
    assert(eir.subrange(2, 2 + data.len() as int) == data);
    assert(eir.skip(2 + data.len() as int) == rest);
}

/// A field that the data cuts off is the last one, with as much data as is there.
pub proof fn law_cut_off_field_is_the_last(len: u8, kind: u8, data: Seq<u8>)
    requires
        len > data.len() + 1,
    ensures
        eir_fields(seq![len, kind] + data) == seq![EirField { len: len as int, kind, data }],
{
    let eir = seq![len, kind] + data;
    assert(eir.subrange(2, eir.len() as int) == data);
    assert(eir_fields(eir.skip(eir.len() as int)) == Seq::<EirField>::empty());
}

/// The fields end at a zero length, or where less than a length and a type is
/// left.
pub proof fn law_eir_fields_end(eir: Seq<u8>)
    requires
        eir.len() < 2 || eir[0] == 0,
    ensures
        eir_fields(eir).len() == 0,
{
}

/// A field of type 8 or 9 that declares any data puts its data, up to thirty-two
/// bytes, at the start of the name buffer, and their number is the length of the
/// name; what stood behind them stays. Any other field changes nothing. Before the
/// first field the buffer is zero and the name empty.
pub proof fn law_name_fields_write_the_name(fields: Seq<EirField>, field: EirField)
    ensures
        ({
            let before = eir_name(fields);
            let now = eir_name(fields.push(field));
            let n = if field.data.len() <= 32 {
                field.data.len() as int
            } else {
                32
            };
            if (field.kind == 8 || field.kind == 9) && field.len > 1 {
                &&& now.1 == n
                &&& now.0.len() == 32
                &&& forall|k: int| 0 <= k < n ==> #[trigger] now.0[k] == field.data[k]
                &&& forall|k: int| n <= k < 32 ==> #[trigger] now.0[k] == before.0[k]
            } else {
                now == before
            }
        }),
        eir_name(Seq::empty()).1 == 0,
        eir_name(Seq::empty()).0.len() == 32,
        forall|k: int| 0 <= k < 32 ==> #[trigger] eir_name(Seq::empty()).0[k] == 0,
{
    assert(fields.push(field).drop_last() == fields);
    lemma_eir_name_fits(fields);
}

/// The name of a device whose EIR data begins with its name: the bytes behind
/// length and type, up to thirty-two of them, and zeros behind those.
pub proof fn law_leading_name_is_the_name(kind: u8, name: Seq<u8>, rest: Seq<u8>)
    requires
        kind == 8 || kind == 9,
        1 <= name.len() <= 254,
        rest.len() < 2 || rest[0] == 0,
    ensures
        ({
            let eir = seq![(name.len() + 1) as u8, kind] + name + rest;
            let read = eir_name(eir_fields(eir));
            &&& read.1 == (if name.len() <= 32 {
                name.len() as int
            } else {
                32
            })
            &&& forall|k: int|
                0 <= k < 32 ==> #[trigger] read.0[k] == (if k < name.len() {
                    name[k]
                } else {
                    0
                })
        }),
{
    let len = (name.len() + 1) as u8;
    let field = EirField { len: len as int, kind, data: name };
    law_eir_fields_stand_in_a_row(len, kind, name, rest);
    law_eir_fields_end(rest);
    assert(seq![field] + eir_fields(rest) == Seq::<EirField>::empty().push(field));
    law_name_fields_write_the_name(Seq::empty(), field);
}

} // verus!
