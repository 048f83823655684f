use bt2usb_core::inquiry::{
    parse_eir_name, parse_extended_inquiry_result, parse_inquiry_result,
    parse_inquiry_result_with_rssi, TransportType,
};

fn name(text: &str) -> [u8; 32] {
    let mut buffer = [0u8; 32];
    buffer[..text.len()].copy_from_slice(text.as_bytes());
    buffer
}

/// One 14-byte entry: address, psrm, two reserved bytes, CoD, clock.
fn standard_entry(n: u8, cod: [u8; 3]) -> Vec<u8> {
    let mut entry = vec![n, 2, 3, 4, 5, 6, 0x01, 0x00, 0x00];
    entry.extend_from_slice(&cod);
    entry.extend_from_slice(&[0x11, 0x22]);
    entry
}

/// One 14-byte entry: address, psrm, one reserved byte, CoD, clock, RSSI.
fn rssi_entry(n: u8, cod: [u8; 3], rssi: u8) -> Vec<u8> {
    let mut entry = vec![n, 2, 3, 4, 5, 6, 0x01, 0x00];
    entry.extend_from_slice(&cod);
    entry.extend_from_slice(&[0x11, 0x22, rssi]);
    entry
}

fn extended(cod: [u8; 3], rssi: u8, eir: &[u8]) -> Vec<u8> {
    let mut data = vec![1, 1, 2, 3, 4, 5, 6, 0x01, 0x00];
    data.extend_from_slice(&cod);
    data.extend_from_slice(&[0x11, 0x22, rssi]);
    data.extend_from_slice(eir);
    data
}

#[test]
fn standard_results_are_read() {
    let mut data = vec![2];
    data.extend(standard_entry(1, [0x40, 0x25, 0x00]));
    data.extend(standard_entry(9, [0x04, 0x24, 0x04]));
    let found = parse_inquiry_result(&data);
    assert_eq!(found.len(), 2);
    assert_eq!(found[0].result.address, [1, 2, 3, 4, 5, 6]);
    assert_eq!(found[0].cod, [0x40, 0x25, 0x00]);
    assert!(found[0].result.is_hid);
    assert_eq!(found[0].result.rssi, -127);
    assert_eq!(found[0].result.transport_type, TransportType::Classic);
    assert_eq!(found[0].result.addr_kind, 0);
    assert_eq!(found[0].result.name, [0u8; 32]);
    assert_eq!(found[0].result.name_len, 0);
    assert_eq!(found[1].result.address, [9, 2, 3, 4, 5, 6]);
    assert_eq!(found[1].cod, [0x04, 0x24, 0x04]);
    assert!(!found[1].result.is_hid);
}

#[test]
fn results_with_rssi_are_read() {
    let mut data = vec![2];
    data.extend(rssi_entry(1, [0x80, 0x25, 0x00], 0xC4));
    data.extend(rssi_entry(2, [0x40, 0x25, 0x00], 0x05));
    let found = parse_inquiry_result_with_rssi(&data);
    assert_eq!(found.len(), 2);
    assert_eq!(found[0].cod, [0x80, 0x25, 0x00]);
    assert_eq!(found[0].result.rssi, -60);
    assert_eq!(found[0].result.transport_type, TransportType::Classic);
    assert!(found[0].result.is_hid);
    assert_eq!(found[1].cod, [0x40, 0x25, 0x00]);
    assert_eq!(found[1].result.rssi, 5);
}

#[test]
fn entries_past_the_end_are_left_out() {
    assert_eq!(parse_inquiry_result(&[]).len(), 0);
    assert_eq!(parse_inquiry_result_with_rssi(&[]).len(), 0);
    assert_eq!(parse_inquiry_result(&[3]).len(), 0);
    let mut data = vec![3];
    data.extend(standard_entry(1, [0x40, 0x25, 0x00]));
    data.extend(standard_entry(2, [0x40, 0x25, 0x00]));
    data.pop();
    assert_eq!(parse_inquiry_result(&data).len(), 1);
    assert_eq!(parse_inquiry_result_with_rssi(&data).len(), 1);
    data.push(0x22);
    assert_eq!(parse_inquiry_result(&data).len(), 2);
}

#[test]
fn entries_past_the_count_are_left_out() {
    let mut data = vec![1];
    data.extend(standard_entry(1, [0x40, 0x25, 0x00]));
    data.extend(standard_entry(2, [0x40, 0x25, 0x00]));
    assert_eq!(parse_inquiry_result(&data).len(), 1);
    data[0] = 0;
    assert_eq!(parse_inquiry_result(&data).len(), 0);
}

#[test]
fn extended_result_carries_the_name() {
    let eir = [0x02, 0x0A, 0x04, 0x05, 0x09, b'K', b'e', b'y', b's', 0x00];
    let found = parse_extended_inquiry_result(&extended([0x40, 0x25, 0x00], 0xBA, &eir)).unwrap();
    assert_eq!(found.result.address, [1, 2, 3, 4, 5, 6]);
    assert_eq!(found.cod, [0x40, 0x25, 0x00]);
    assert_eq!(found.result.rssi, -70);
    assert_eq!(found.result.transport_type, TransportType::Classic);
    assert!(found.result.is_hid);
    assert_eq!(found.result.name, name("Keys"));
    assert_eq!(found.result.name_len, 4);
}

#[test]
fn extended_result_without_eir_has_no_name() {
    let data = extended([0x80, 0x25, 0x00], 0x80, &[]);
    assert_eq!(data.len(), 15);
    let found = parse_extended_inquiry_result(&data).unwrap();
    assert_eq!(found.result.name_len, 0);
    assert_eq!(found.result.rssi, -128);
    assert_eq!(parse_extended_inquiry_result(&data[..14]), None);
    assert_eq!(parse_extended_inquiry_result(&[]), None);
}

#[test]
fn last_name_field_wins() {
    // A shortened name after the complete one: the length is that of the last
    // field, and the buffer still holds the tail of the first.
    let eir = [0x05, 0x09, b'L', b'o', b'n', b'g', 0x03, 0x08, b'A', b'b'];
    assert_eq!(parse_eir_name(&eir), (name("Abng"), 2));
}

#[test]
fn name_ends_at_a_zero_length() {
    let eir = [0x03, 0x09, b'A', b'b', 0x00, 0x03, 0x09, b'C', b'd'];
    assert_eq!(parse_eir_name(&eir), (name("Ab"), 2));
}

#[test]
fn long_name_is_cut_to_the_buffer() {
    let mut eir = vec![41, 0x09];
    eir.extend((0..40u8).map(|i| b'a' + i % 26));
    let (buffer, len) = parse_eir_name(&eir);
    assert_eq!(len, 32);
    assert_eq!(&buffer[..], &eir[2..34]);
}

#[test]
fn name_ends_with_the_data() {
    assert_eq!(parse_eir_name(&[0x0A, 0x09, b'A', b'b']), (name("Ab"), 2));
    assert_eq!(parse_eir_name(&[0x0A, 0x09]), (name(""), 0));
    assert_eq!(parse_eir_name(&[0x0A]), (name(""), 0));
    assert_eq!(parse_eir_name(&[]), (name(""), 0));
}

#[test]
fn empty_name_field_is_no_name() {
    // A declared length of one leaves room for the type alone.
    assert_eq!(parse_eir_name(&[0x03, 0x09, b'A', b'b', 0x01, 0x09]), (name("Ab"), 2));
    // A longer one that the data cuts off still counts.
    assert_eq!(parse_eir_name(&[0x03, 0x09, b'A', b'b', 0x05, 0x09]), (name("Ab"), 0));
}
