use shurectl::probe::{
    build_get_packet, build_get_packet_mv7_lock, build_get_packet_raw, effective_prefix,
    fmt_value_hex, hex_dump, known_hit_line, known_mv7_lock_name, known_name, parse_response,
    summary_lines, unknown_hit_line, utc_timestamp, ProbeHit, SweepClass, class_label,
    hit_prefix, sweep_packet,
};
use shurectl::protocol::{crc16_ansi, CMD_GET_FEAT, CMD_GET_LOCK, PACKET_SIZE};

#[test]
fn get_packet_carries_prefix_and_address() {
    let pkt = build_get_packet(7, &CMD_GET_FEAT, [0x01, 0x86], 0x01);
    assert_eq!(pkt.len(), PACKET_SIZE);
    assert_eq!(pkt[4], 7);
    assert_eq!(&pkt[10..13], &CMD_GET_FEAT);
    assert_eq!(&pkt[13..16], &[0x01, 0x01, 0x86]);
    let total = pkt[1] as usize;
    let stored = ((pkt[total] as u16) << 8) | pkt[total + 1] as u16;
    assert_eq!(stored, crc16_ansi(&pkt[2..total]));
}

#[test]
fn lock_class_packet_uses_three_level_address() {
    let pkt = build_get_packet_mv7_lock(0, 0x0C, 0xA2);
    assert_eq!(&pkt[10..13], &CMD_GET_LOCK);
    assert_eq!(&pkt[13..16], &[0x0C, 0x00, 0xA2]);
}

#[test]
fn raw_packet_with_empty_payload_matches_confirm_layout() {
    let pkt = build_get_packet_raw(3, &[0x01, 0x00, 0x00], &[]);
    assert_eq!(pkt[1], 13);
    assert_eq!(pkt[7], 5);
    assert!(pkt[15..].iter().all(|&b| b == 0));
}

#[test]
fn effective_prefix_forces_mix_class_for_monitor_mix() {
    assert_eq!(effective_prefix(true, [0x01, 0x86], 0x00), 0x01);
    assert_eq!(effective_prefix(false, [0x01, 0x86], 0x06), 0x06);
    assert_eq!(effective_prefix(true, [0x01, 0x02], 0x00), 0x00);
}

fn response(value: &[u8]) -> Vec<u8> {
    // A GET-FEAT response for feature [0x01, 0x02] carrying `value`.
    let mut inner = vec![0x11, 0x22, 0x00, 0x03, 0x08, 0, 0x70, 0, 0x03, 0x02, 0x02, 0x00, 0x01, 0x02];
    inner.extend_from_slice(value);
    let data_len = (3 + 3 + value.len() + 2) as u8;
    inner[5] = data_len;
    inner[7] = data_len;
    let crc = crc16_ansi(&inner);
    let mut buf = vec![0x01, (inner.len() + 2) as u8];
    buf.extend_from_slice(&inner);
    buf.push((crc >> 8) as u8);
    buf.push((crc & 0xFF) as u8);
    buf.resize(64, 0);
    buf
}

#[test]
fn parse_response_keeps_value_and_raw_report() {
    let buf = response(&[0x0E, 0x10]);
    let r = parse_response(&buf).expect("valid response");
    assert_eq!(r.value_bytes, vec![0x0E, 0x10]);
    assert_eq!(r.raw, buf);
}

#[test]
fn parse_response_rejects_corrupt_reports() {
    let mut buf = response(&[0x01]);
    buf[3] = 0x00;
    assert!(parse_response(&buf).is_none());
    assert!(parse_response(&[0u8; 17]).is_none());
    let mut short_len = response(&[0x01]);
    short_len[1] = 3;
    assert!(parse_response(&short_len).is_none());
}

#[test]
fn value_hex_is_space_separated_lowercase() {
    assert_eq!(fmt_value_hex(&[0x0E, 0x10, 0xFF]), "0e 10 ff");
    assert_eq!(fmt_value_hex(&[0x00]), "00");
    assert_eq!(fmt_value_hex(&[]), "");
}

#[test]
fn hex_dump_of_a_short_buffer() {
    let expected = format!("  0000:  41 42 20 00 {}  |AB .|\n", "   ".repeat(12));
    assert_eq!(hex_dump(&[0x41, 0x42, 0x20, 0x00]), expected);
}

#[test]
fn hex_dump_splits_into_lines_of_sixteen() {
    let bytes: Vec<u8> = (0u8..17).collect();
    let dump = hex_dump(&bytes);
    let lines: Vec<&str> = dump.lines().collect();
    assert_eq!(lines.len(), 2);
    assert_eq!(
        lines[0],
        "  0000:  00 01 02 03 04 05 06 07 08 09 0a 0b 0c 0d 0e 0f   |................|"
    );
    assert!(lines[1].starts_with("  0010:  10 "));
    assert_eq!(hex_dump(&[]), "");
}

#[test]
fn known_names_are_looked_up_by_address() {
    assert_eq!(known_name([0x01, 0x02]), Some("GAIN"));
    assert_eq!(known_name([0x03, 0x81]), Some("POPPER_STOPPER (MV6/Gen2/MV7+)"));
    assert_eq!(known_name([0x07, 0x07]), None);
    assert_eq!(
        known_mv7_lock_name(0x0C, 0xA4),
        Some("MV7+_LED_MODE (1 byte: 0x01=solid, 0x02=breathing)")
    );
    assert_eq!(known_mv7_lock_name(0x0C, 0x00), None);
}

#[test]
fn timestamps_on_the_rough_calendar() {
    assert_eq!(utc_timestamp(0), "1970-01-01 00:00:00 UTC");
    assert_eq!(utc_timestamp(365 * 86400 + 3661), "1971-01-01 01:01:01 UTC");
    // Day 364 of a year falls in the 13th 30-day month.
    assert_eq!(utc_timestamp(364 * 86400 + 59), "1970-13-05 00:00:59 UTC");
}

fn hit(addr: [u8; 2], known: Option<&'static str>) -> ProbeHit {
    ProbeHit {
        addr,
        value_bytes: vec![0x0E, 0x10],
        prefix: 0x00,
        cmd_class: "standard",
        is_known: known.is_some(),
        known_name: known,
    }
}

#[test]
fn summary_lines_split_known_and_unknown_hits() {
    let hits = vec![hit([0x01, 0x02], Some("GAIN")), hit([0x01, 0xAB], None)];
    let (known, unknown) = summary_lines(&hits);
    assert_eq!(
        known,
        vec![format!(
            "  [01 02]  GAIN{}  prefix=0x00  class=standard  value: [0e 10]",
            " ".repeat(28)
        )]
    );
    assert_eq!(
        unknown,
        vec![String::from(
            "  [01 AB]  *** UNKNOWN ***  prefix=0x00  class=standard  value: [0e 10]  2 bytes"
        )]
    );
    assert_eq!(known[0], known_hit_line(&hits[0]));
    assert_eq!(unknown[0], unknown_hit_line(&hits[1]));
}

#[test]
fn sweeps_send_only_get_commands() {
    for class in [SweepClass::Standard, SweepClass::Mix, SweepClass::Lock, SweepClass::Mv7Lock] {
        for (page, sub) in [(0x00u8, 0x00u8), (0x01, 0x86), (0x0C, 0xA6)] {
            let pkt = sweep_packet(class, page, sub, 5);
            assert_eq!(pkt[10], 0x01);
            assert_eq!(pkt[11], 0x02);
            assert!(pkt[12] == 0x02 || pkt[12] == 0x01);
        }
    }
}

#[test]
fn sweep_payloads_and_prefixes() {
    assert_eq!(&sweep_packet(SweepClass::Standard, 0x01, 0x86, 0)[13..16], &[0x01, 0x01, 0x86]);
    assert_eq!(&sweep_packet(SweepClass::Standard, 0x01, 0x85, 0)[13..16], &[0x00, 0x01, 0x85]);
    assert_eq!(&sweep_packet(SweepClass::Lock, 0x00, 0xA6, 0)[13..16], &[0x06, 0x00, 0xA6]);
    assert_eq!(&sweep_packet(SweepClass::Mv7Lock, 0x0C, 0x60, 0)[13..16], &[0x0C, 0x00, 0x60]);
    assert_eq!(hit_prefix(SweepClass::Standard, 0x01, 0x86), 0x01);
    assert_eq!(hit_prefix(SweepClass::Mix, 0x02, 0x00), 0x01);
    assert_eq!(hit_prefix(SweepClass::Mv7Lock, 0x0C, 0x60), 0x00);
    assert_eq!(class_label(SweepClass::Mv7Lock), "mv7-lock");
}
