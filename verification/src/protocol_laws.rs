//! Laws of the wire protocol: encodings round-trip, command packets are
//! well-formed frames, and what a SET writes is what the device's echo of it
//! decodes to.
use vstd::prelude::*;
use crate::protocol::{
    apply_feature, clamp_int, crc16, crc_rounds, crc_update, decode_setting, frame_inner, is_data_response, normalized,
    packet, parse_frame, setting_addr, setting_in_range, setting_payload, setting_value,
    with_setting, zeros, AutoGain, AutoTone, CompressorPreset, DeviceState, HpfFrequency,
    MicPosition, Setting, REPORT_ID, RES_SET_FEAT, RES_SET_LOCK,
};

verus! {

/// Every packet is 64 bytes long and carries report ID 0x01, the header
/// magic 0x11 0x22, the sequence number at offset 4, the constants 0x03,
/// 0x08 and 0x70 at offsets 5, 6 and 8, the data length repeated at offsets 7
/// and 9, the command at offsets 10–12, and at offsets `p[1]` and `p[1] + 1`
/// the CRC of bytes `2..p[1]`, followed only by zero bytes.
pub proof fn lemma_packet_layout(seq: u8, cmd: Seq<u8>, payload: Seq<u8>)
    requires
        cmd.len() == 3,
        payload.len() <= 49,
    ensures
        ({
            let p = packet(seq, cmd, payload);
            let end = p[1] as int;
            &&& p.len() == 64
            &&& p[0] == 0x01
            &&& p[2] == 0x11 && p[3] == 0x22
            &&& p[4] == seq
            &&& p[5] == 0x03 && p[6] == 0x08 && p[8] == 0x70
            &&& p[7] == p[9]
            &&& p.subrange(10, 13) == cmd
            &&& end == 13 + payload.len()
            &&& p.subrange(13, end) == payload
            &&& crc16(p.subrange(2, end)) == p[end] * 256 + p[end + 1]
            &&& forall|i: int| end + 2 <= i < 64 ==> p[i] == 0
        }),
{
    let inner = frame_inner(seq, cmd, payload);
    let crc = crc16(inner);
    let body = seq![REPORT_ID, (inner.len() + 2) as u8] + inner + seq![
        (crc / 256) as u8,
        (crc % 256) as u8,
    ];
    let p = packet(seq, cmd, payload);
    let end = p[1] as int;
    assert(p == body + zeros((64 - body.len()) as nat));
    assert(end == inner.len() + 2);
    assert(p.subrange(2, end) =~= inner);
    assert(p.subrange(10, 13) =~= cmd);
    assert(p.subrange(13, end) =~= payload);
    assert(p[end] == (crc / 256) as u8);
    assert(p[end + 1] == (crc % 256) as u8);
}

/// A frame built like a command packet but carrying one of the data
/// response commands parses back to the feature address and value bytes it
/// was built from.
pub proof fn lemma_response_round_trip(
    seq: u8,
    response: Seq<u8>,
    prefix: u8,
    f0: u8,
    f1: u8,
    value: Seq<u8>,
)
    requires
        response.len() == 3,
        is_data_response(response[0], response[1], response[2]),
        value.len() <= 46,
    ensures
        parse_frame(packet(seq, response, seq![prefix, f0, f1] + value)) == Some((f0, f1, value)),
{
    let payload = seq![prefix, f0, f1] + value;
    lemma_packet_layout(seq, response, payload);
    let p = packet(seq, response, payload);
    let end = p[1] as int;
    assert(p[10] == p.subrange(10, 13)[0]);
    assert(p[11] == p.subrange(10, 13)[1]);
    assert(p[12] == p.subrange(10, 13)[2]);
    assert(p[14] == p.subrange(13, end)[1]);
    assert(p[15] == p.subrange(13, end)[2]);
    assert(p.subrange(16, end) =~= p.subrange(13, end).subrange(3, payload.len() as int));
    assert(payload.subrange(3, payload.len() as int) =~= value);
}

/// Every enumerated setting decodes from its own code: the codes that SET
/// commands write are read back as the same value.
pub proof fn lemma_codes_round_trip(
    p: MicPosition,
    t: AutoTone,
    g: AutoGain,
    c: CompressorPreset,
    h: HpfFrequency,
)
    ensures
        MicPosition::decode(p.code()) == p,
        AutoTone::decode(t.code()) == t,
        AutoGain::decode(g.wire()) == g,
        CompressorPreset::decode(c.code()) == c,
        HpfFrequency::decode(h.code()) == h,
{
}

/// Cycling visits every value and comes back: the mic position after 2
/// steps, tone, auto gain and high-pass filter after 3, the compressor after
/// 4; no step stays in place.
pub proof fn lemma_cycles_return(
    p: MicPosition,
    t: AutoTone,
    g: AutoGain,
    c: CompressorPreset,
    h: HpfFrequency,
)
    ensures
        p.succ() != p && p.succ().succ() == p,
        t.succ() != t && t.succ().succ() != t && t.succ().succ().succ() == t,
        g.succ() != g && g.succ().succ() != g && g.succ().succ().succ() == g,
        c.succ() != c && c.succ().succ() != c && c.succ().succ().succ() != c
            && c.succ().succ().succ().succ() == c,
        h.succ() != h && h.succ().succ() != h && h.succ().succ().succ() == h,
{
}

/// The value bytes a SET writes decode, at the same feature address, to the
/// setting as the device keeps it (gain at most 60 dB, monitor mix at most
/// 100, EQ band gain within −8..=+6 dB).
pub proof fn lemma_set_value_decodes(st: Setting)
    requires
        setting_in_range(st),
    ensures
        decode_setting(setting_addr(st).0, setting_addr(st).1, setting_value(st)) == Some(
            normalized(st),
        ),
{
    match st {
        Setting::Gain(x) => {
            let m: int = if x <= 60 { x as int } else { 60 };
            let raw = m * 100;
            assert((raw / 256) * 256 + raw % 256 == raw);
            assert(raw / 100 == m);
        },
        Setting::EqBandGain(b, x) => {
            let c = clamp_int(x as int, -8, 6);
            let raw = c * 10;
            assert(-80 <= raw <= 60);
            let u = if raw < 0 { raw + 65536 } else { raw };
            assert((u / 256) * 256 + u % 256 == u);
            assert(raw >= 0 ==> raw / 10 == c);
            assert(raw < 0 ==> (-raw) / 10 == -c);
        },
        _ => {},
    }
}

/// What a read gives back of a write: the device's echo of a SET (the same
/// payload under the SET response command) parses to the feature address and
/// value bytes that were sent, and applying them to any state changes exactly
/// that setting to its kept value.
pub proof fn lemma_set_echo_applies(seq: u8, st: Setting, s: DeviceState)
    requires
        setting_in_range(st),
    ensures
        ({
            let response = if st is Locked { RES_SET_LOCK@ } else { RES_SET_FEAT@ };
            let (f0, f1) = setting_addr(st);
            &&& parse_frame(packet(seq, response, setting_payload(st))) == Some(
                (f0, f1, setting_value(st)),
            )
            &&& apply_feature(f0, f1, setting_value(st), s) == Some(with_setting(s, normalized(st)))
        }),
{
    let response = if st is Locked { RES_SET_LOCK@ } else { RES_SET_FEAT@ };
    let (f0, f1) = setting_addr(st);
    let prefix = setting_payload(st)[0];
    assert(setting_payload(st) =~= seq![prefix, f0, f1] + setting_value(st));
    lemma_response_round_trip(seq, response, prefix, f0, f1, setting_value(st));
    lemma_set_value_decodes(st);
}

/// One bit round of CRC-16/ANSI on the low bit of `b`.
pub open spec fn crc_bit_round(crc: u16, b: u8) -> u16 {
    if ((crc ^ (b as u16)) & 1u16) != 0 {
        (crc >> 1u16) ^ 0xA001u16
    } else {
        crc >> 1u16
    }
}

/// The eight bit rounds of one byte, written out.
pub open spec fn crc_byte_rounds(crc: u16, b: u8) -> u16 {
    let b1 = b >> 1u8;
    let b2 = b1 >> 1u8;
    let b3 = b2 >> 1u8;
    let b4 = b3 >> 1u8;
    let b5 = b4 >> 1u8;
    let b6 = b5 >> 1u8;
    let b7 = b6 >> 1u8;
    crc_bit_round(
        crc_bit_round(
            crc_bit_round(
                crc_bit_round(
                    crc_bit_round(
                        crc_bit_round(crc_bit_round(crc_bit_round(crc, b), b1), b2),
                        b3,
                    ),
                    b4,
                ),
                b5,
            ),
            b6,
        ),
        b7,
    )
}

proof fn lemma_crc_update_rounds(crc: u16, b: u8)
    ensures
        crc_update(crc, b) == crc_byte_rounds(crc, b),
{
    reveal_with_fuel(crc_rounds, 9);
}

/// Running a byte through the CRC register whose low byte it equals only
/// shifts the register: the byte's bits cancel the register's.
proof fn lemma_crc_own_low_byte(x: u16)
    ensures
        crc_update(x, x as u8) == x >> 8u16,
{
    lemma_crc_update_rounds(x, x as u8);
    let x0 = x;
    let y0 = x as u8;
    assert(x0 == x >> 0u16 && y0 == (x as u8) >> 0u8) by (bit_vector)
        requires
            x0 == x,
            y0 == x as u8,
    ;
    let x1 = crc_bit_round(x0, y0);
    let y1 = y0 >> 1u8;
    assert(x1 == x >> 1u16 && y1 == (x as u8) >> 1u8) by (bit_vector)
        requires
            x0 == x >> 0u16,
            y0 == (x as u8) >> 0u8,
            x1 == crc_bit_round(x0, y0),
            y1 == y0 >> 1u8,
    ;
    let x2 = crc_bit_round(x1, y1);
    let y2 = y1 >> 1u8;
    assert(x2 == x >> 2u16 && y2 == (x as u8) >> 2u8) by (bit_vector)
        requires
            x1 == x >> 1u16,
            y1 == (x as u8) >> 1u8,
            x2 == crc_bit_round(x1, y1),
            y2 == y1 >> 1u8,
    ;
    let x3 = crc_bit_round(x2, y2);
    let y3 = y2 >> 1u8;
    assert(x3 == x >> 3u16 && y3 == (x as u8) >> 3u8) by (bit_vector)
        requires
            x2 == x >> 2u16,
            y2 == (x as u8) >> 2u8,
            x3 == crc_bit_round(x2, y2),
            y3 == y2 >> 1u8,
    ;
    let x4 = crc_bit_round(x3, y3);
    let y4 = y3 >> 1u8;
    assert(x4 == x >> 4u16 && y4 == (x as u8) >> 4u8) by (bit_vector)
        requires
            x3 == x >> 3u16,
            y3 == (x as u8) >> 3u8,
            x4 == crc_bit_round(x3, y3),
            y4 == y3 >> 1u8,
    ;
    let x5 = crc_bit_round(x4, y4);
    let y5 = y4 >> 1u8;
    assert(x5 == x >> 5u16 && y5 == (x as u8) >> 5u8) by (bit_vector)
        requires
            x4 == x >> 4u16,
            y4 == (x as u8) >> 4u8,
            x5 == crc_bit_round(x4, y4),
            y5 == y4 >> 1u8,
    ;
    let x6 = crc_bit_round(x5, y5);
    let y6 = y5 >> 1u8;
    assert(x6 == x >> 6u16 && y6 == (x as u8) >> 6u8) by (bit_vector)
        requires
            x5 == x >> 5u16,
            y5 == (x as u8) >> 5u8,
            x6 == crc_bit_round(x5, y5),
            y6 == y5 >> 1u8,
    ;
    let x7 = crc_bit_round(x6, y6);
    let y7 = y6 >> 1u8;
    assert(x7 == x >> 7u16 && y7 == (x as u8) >> 7u8) by (bit_vector)
        requires
            x6 == x >> 6u16,
            y6 == (x as u8) >> 6u8,
            x7 == crc_bit_round(x6, y6),
            y7 == y6 >> 1u8,
    ;
    let x8 = crc_bit_round(x7, y7);
    let y8 = y7 >> 1u8;
    assert(x8 == x >> 8u16 && y8 == (x as u8) >> 8u8) by (bit_vector)
        requires
            x7 == x >> 7u16,
            y7 == (x as u8) >> 7u8,
            x8 == crc_bit_round(x7, y7),
            y8 == y7 >> 1u8,
    ;
    assert(crc_byte_rounds(x, x as u8) == x8);
}

/// Appending the CRC of some bytes to them, low byte first, leaves a CRC
/// residue of zero: a receiver that runs the CRC over data and checksum
/// together gets 0 for every intact frame.
pub proof fn lemma_crc_residue(data: Seq<u8>)
    ensures
        ({
            let c = crc16(data);
            crc16(data.push(c as u8).push((c >> 8u16) as u8)) == 0
        }),
{
    let c = crc16(data);
    let lo = c as u8;
    let hi = (c >> 8u16) as u8;
    let d1 = data.push(lo);
    let d2 = d1.push(hi);
    assert(d1.drop_last() =~= data);
    assert(d2.drop_last() =~= d1);
    lemma_crc_own_low_byte(c);
    let c1 = c >> 8u16;
    assert(crc16(d1) == c1);
    assert(hi == c1 as u8);
    lemma_crc_own_low_byte(c1);
    assert(c1 >> 8u16 == 0) by (bit_vector)
        requires
            c1 == c >> 8u16,
    ;
}

} // verus!
