use asm_firmware::common::{Metrics, Packet, Status, PACKET_METRICS, PACKET_STATUS};
use asm_firmware::protocol::{deserialize_packet, deserialize_u16, packet_body_len, serialize_packet};

#[test]
fn metrics_frame_is_tag_cpu_and_big_endian_ram() {
    let bytes = serialize_packet(Packet::Metrics(Metrics { cpu: 42, ram: 0x1234 }));
    assert_eq!(bytes, vec![0x01, 42, 0x12, 0x34]);
}

#[test]
fn status_frame_is_tag_battery_and_led() {
    let on = serialize_packet(Packet::Status(Status { battery: 80, led_on: true }));
    assert_eq!(on, vec![0x02, 80, 1]);
    let off = serialize_packet(Packet::Status(Status { battery: 7, led_on: false }));
    assert_eq!(off, vec![0x02, 7, 0]);
}

#[test]
fn round_trip_of_every_kind() {
    let packets = [
        Packet::Metrics(Metrics { cpu: 0, ram: 0 }),
        Packet::Metrics(Metrics { cpu: 255, ram: 0xFFFF }),
        Packet::Metrics(Metrics { cpu: 100, ram: 0x0100 }),
        Packet::Status(Status { battery: 0, led_on: false }),
        Packet::Status(Status { battery: 255, led_on: true }),
    ];
    for p in packets {
        let bytes = serialize_packet(p);
        let (decoded, used) = deserialize_packet(&bytes);
        assert_eq!(decoded, Some(p));
        assert_eq!(used, bytes.len());
    }
}

#[test]
fn round_trip_with_trailing_bytes() {
    let mut bytes = serialize_packet(Packet::Metrics(Metrics { cpu: 9, ram: 513 }));
    bytes.extend_from_slice(&[0x02, 1, 1]);
    let (decoded, used) = deserialize_packet(&bytes);
    assert_eq!(decoded, Some(Packet::Metrics(Metrics { cpu: 9, ram: 513 })));
    assert_eq!(used, 4);
    let (next, used_next) = deserialize_packet(&bytes[used..]);
    assert_eq!(next, Some(Packet::Status(Status { battery: 1, led_on: true })));
    assert_eq!(used_next, 3);
}

#[test]
fn unknown_tag_consumes_one_byte() {
    let (decoded, used) = deserialize_packet(&[0xFF, 0x01, 2, 3, 4]);
    assert_eq!(decoded, None);
    assert_eq!(used, 1);
    let (decoded, used) = deserialize_packet(&[0x00]);
    assert_eq!(decoded, None);
    assert_eq!(used, 1);
}

#[test]
fn unknown_tag_then_resync_on_next_byte() {
    let bytes = [0xFF, 0x02, 50, 0];
    let (first, used) = deserialize_packet(&bytes);
    assert_eq!((first, used), (None, 1));
    let (second, used2) = deserialize_packet(&bytes[used..]);
    assert_eq!(second, Some(Packet::Status(Status { battery: 50, led_on: false })));
    assert_eq!(used2, 3);
}

#[test]
fn empty_input_yields_nothing() {
    assert_eq!(deserialize_packet(&[]), (None, 0));
}

#[test]
fn incomplete_frame_consumes_nothing() {
    assert_eq!(deserialize_packet(&[0x01, 5, 6]), (None, 0));
    assert_eq!(deserialize_packet(&[0x02, 5]), (None, 0));
    assert_eq!(deserialize_packet(&[0x01]), (None, 0));
}

#[test]
fn led_byte_other_than_zero_means_on() {
    let (decoded, _) = deserialize_packet(&[0x02, 3, 7]);
    assert_eq!(decoded, Some(Packet::Status(Status { battery: 3, led_on: true })));
}

#[test]
fn u16_is_big_endian() {
    assert_eq!(deserialize_u16(0x12, 0x34), 0x1234);
    assert_eq!(deserialize_u16(0xFF, 0xFF), 0xFFFF);
    assert_eq!(deserialize_u16(0, 0), 0);
    assert_eq!(deserialize_u16(1, 0), 256);
}

#[test]
fn body_lengths_of_tags() {
    assert_eq!(packet_body_len(PACKET_METRICS), Some(3));
    assert_eq!(packet_body_len(PACKET_STATUS), Some(2));
    assert_eq!(packet_body_len(0xFF), None);
    assert_eq!(packet_body_len(0x00), None);
}
