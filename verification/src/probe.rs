//! The read-only feature probe: the GET packets it sweeps a page with, what
//! it takes from a response, the names of the features already known, and
//! the text of its log (hex dumps, value lists, time stamps).
use vstd::prelude::*;
use crate::protocol::{build_packet, packet, parse_frame, CMD_GET_FEAT, CMD_GET_LOCK, PACKET_SIZE};
use crate::protocol_laws::lemma_packet_layout;
use crate::text::{decimal, decimal_text, push_char};

verus! {

// ── Packets ──────────────────────────────────────────────────────────────────
/// A GET packet with an arbitrary payload after the command.
///
/// A 64-byte report has room for at most 49 payload bytes.
pub fn build_get_packet_raw(seq: u8, cmd: &[u8; 3], payload: &[u8]) -> (pkt: Vec<u8>)
    requires
        payload@.len() <= 49,
    ensures
        pkt@ == packet(seq, cmd@, payload@),
        pkt@.len() == PACKET_SIZE,
{
    build_packet(seq, cmd, payload)
}

/// A GET packet for feature `feat_addr` with the class prefix byte
/// `is_mix_or_lock` (0x00 standard, 0x01 mix, 0x06 lock).
pub fn build_get_packet(seq: u8, cmd: &[u8; 3], feat_addr: [u8; 2], is_mix_or_lock: u8) -> (pkt: Vec<u8>)
    ensures
        pkt@ == packet(seq, cmd@, seq![is_mix_or_lock, feat_addr[0], feat_addr[1]]),
        pkt@.len() == PACKET_SIZE,
{
    let payload = [is_mix_or_lock, feat_addr[0], feat_addr[1]];
    assert(payload@ =~= seq![is_mix_or_lock, feat_addr[0], feat_addr[1]]);
    build_get_packet_raw(seq, cmd, &payload)
}

/// A lock-class GET packet with three-level addressing `[page, 0x00, sub_addr]`
/// (LED colours on page 0x0C, the mute button switch at 0x60).
pub fn build_get_packet_mv7_lock(seq: u8, page: u8, sub_addr: u8) -> (pkt: Vec<u8>)
    ensures
        pkt@ == packet(seq, CMD_GET_LOCK@, seq![page, 0x00u8, sub_addr]),
        pkt@.len() == PACKET_SIZE,
{
    let payload = [page, 0x00u8, sub_addr];
    assert(payload@ =~= seq![page, 0x00u8, sub_addr]);
    build_get_packet_raw(seq, &CMD_GET_LOCK, &payload)
}

/// The class prefix a standard sweep sends for `addr`: the mix-class prefix
/// 0x01 for the one address known to need it, `[0x01, 0x86]`, else `prefix`.
pub fn effective_prefix(standard_sweep: bool, addr: [u8; 2], prefix: u8) -> (p: u8)
    ensures
        p == (if standard_sweep && addr[0] == 0x01 && addr[1] == 0x86 {
            0x01
        } else {
            prefix
        }),
{
    if standard_sweep && addr[0] == 0x01 && addr[1] == 0x86 {
        0x01
    } else {
        prefix
    }
}

// ── Sweeps ───────────────────────────────────────────────────────────────────
/// The ways the probe sweeps a page.
#[derive(Debug, Clone, Copy, PartialEq, Eq, Structural)]
pub enum SweepClass {
    /// GET with the standard prefix 0x00 (the monitor mix with its own 0x01).
    Standard,
    /// GET with the mix-class prefix 0x01.
    Mix,
    /// Lock-class GET with prefix 0x06.
    Lock,
    /// Lock-class GET with three-level addressing `[page, 0x00, sub_addr]`.
    Mv7Lock,
}

/// The command a sweep sends.
pub open spec fn sweep_command(class: SweepClass) -> Seq<u8> {
    match class {
        SweepClass::Standard => CMD_GET_FEAT@,
        SweepClass::Mix => CMD_GET_FEAT@,
        SweepClass::Lock => CMD_GET_LOCK@,
        SweepClass::Mv7Lock => CMD_GET_LOCK@,
    }
}

/// The payload a sweep sends for sub-address `sub` of `page`.
pub open spec fn sweep_payload(class: SweepClass, page: u8, sub: u8) -> Seq<u8> {
    match class {
        SweepClass::Standard => seq![
            if page == 0x01 && sub == 0x86 {
                0x01u8
            } else {
                0x00u8
            },
            page,
            sub,
        ],
        SweepClass::Mix => seq![0x01u8, page, sub],
        SweepClass::Lock => seq![0x06u8, page, sub],
        SweepClass::Mv7Lock => seq![page, 0x00u8, sub],
    }
}

/// The packet a sweep of `class` sends for sub-address `sub` of `page`.
pub fn sweep_packet(class: SweepClass, page: u8, sub: u8, seq: u8) -> (pkt: Vec<u8>)
    ensures
        pkt@ == packet(seq, sweep_command(class), sweep_payload(class, page, sub)),
        pkt@.len() == PACKET_SIZE,
{
    match class {
        SweepClass::Standard => {
            let p = effective_prefix(true, [page, sub], 0x00);
            build_get_packet(seq, &CMD_GET_FEAT, [page, sub], p)
        },
        SweepClass::Mix => build_get_packet(seq, &CMD_GET_FEAT, [page, sub], 0x01),
        SweepClass::Lock => build_get_packet(seq, &CMD_GET_LOCK, [page, sub], 0x06),
        SweepClass::Mv7Lock => build_get_packet_mv7_lock(seq, page, sub),
    }
}

/// The prefix byte a hit of a sweep is logged with: the class prefix the
/// GET carried, 0x00 for three-level addressing.
pub fn hit_prefix(class: SweepClass, page: u8, sub: u8) -> (p: u8)
    ensures
        p == (match class {
            SweepClass::Mv7Lock => 0x00u8,
            _ => sweep_payload(class, page, sub)[0],
        }),
{
    match class {
        SweepClass::Standard => effective_prefix(true, [page, sub], 0x00),
        SweepClass::Mix => 0x01,
        SweepClass::Lock => 0x06,
        SweepClass::Mv7Lock => 0x00,
    }
}

/// The class name the log and summary use.
pub fn class_label(class: SweepClass) -> (r: &'static str)
    ensures
        r@ == (match class {
            SweepClass::Standard => "standard"@,
            SweepClass::Mix => "mix"@,
            SweepClass::Lock => "lock"@,
            SweepClass::Mv7Lock => "mv7-lock"@,
        }),
{
    match class {
        SweepClass::Standard => "standard",
        SweepClass::Mix => "mix",
        SweepClass::Lock => "lock",
        SweepClass::Mv7Lock => "mv7-lock",
    }
}

/// The probe only reads: every packet a sweep sends carries a GET command
/// (`01 02 02` or `01 02 01`), never a SET (`02 02 ..`) or a CONFIRM
/// (`01 00 00`).
pub proof fn lemma_sweeps_only_read(class: SweepClass, page: u8, sub: u8, seq: u8)
    ensures
        ({
            let p = packet(seq, sweep_command(class), sweep_payload(class, page, sub));
            &&& p[10] == 0x01
            &&& p[11] == 0x02
            &&& (p[12] == 0x02 || p[12] == 0x01)
        }),
{
    lemma_packet_layout(seq, sweep_command(class), sweep_payload(class, page, sub));
    let p = packet(seq, sweep_command(class), sweep_payload(class, page, sub));
    assert(p[10] == p.subrange(10, 13)[0]);
    assert(p[11] == p.subrange(10, 13)[1]);
    assert(p[12] == p.subrange(10, 13)[2]);
}

// ── Responses ────────────────────────────────────────────────────────────────
/// A data response the probe accepted.
pub struct ParsedResponse {
    /// The value bytes after the feature address.
    pub value_bytes: Vec<u8>,
    /// The whole report as received.
    pub raw: Vec<u8>,
}

/// Check a received report and take its value bytes: `None` exactly when
/// [`parse_frame`] rejects it.
pub fn parse_response(buf: &[u8]) -> (r: Option<ParsedResponse>)
    ensures
        match parse_frame(buf@) {
            None => r is None,
            Some((_, _, v)) => r is Some && r->0.value_bytes@ == v && r->0.raw@ == buf@,
        },
{
    match crate::protocol::parse_response(buf) {
        None => None,
        Some((_, value)) => Some(ParsedResponse { value_bytes: value, raw: vstd::slice::slice_to_vec(buf) }),
    }
}

// ── Known features ───────────────────────────────────────────────────────────
/// The documented name of the feature at address `[a0, a1]`, if it is known.
pub open spec fn known_feature(a0: u8, a1: u8) -> Option<&'static str> {
    if a0 == 0x00 && a1 == 0xA6 {
        Some("LOCK (Gen1 only — not present on Gen2 or MV6)")
    } else if a0 == 0x01 && a1 == 0x02 {
        Some("GAIN")
    } else if a0 == 0x01 && a1 == 0x04 {
        Some("MUTE")
    } else if a0 == 0x01 && a1 == 0x06 {
        Some("HPF")
    } else if a0 == 0x01 && a1 == 0x51 {
        Some("LIMITER (Gen1/Gen2)")
    } else if a0 == 0x01 && a1 == 0x58 {
        Some("DENOISER (MV6/Gen2)")
    } else if a0 == 0x01 && a1 == 0x5C {
        Some("COMPRESSOR (Gen1/Gen2)")
    } else if a0 == 0x01 && a1 == 0x66 {
        Some("PHANTOM (Gen1/Gen2)")
    } else if a0 == 0x01 && a1 == 0x82 {
        Some("AUTO_POSITION (Gen1 only)")
    } else if a0 == 0x01 && a1 == 0x83 {
        Some("AUTO_TONE (Gen1 only)")
    } else if a0 == 0x01 && a1 == 0x85 {
        Some("AUTO_LEVEL")
    } else if a0 == 0x01 && a1 == 0x86 {
        Some("MONITOR_MIX (Gen1: GET/SET both use mix-class prefix 0x01; Gen2/MV6: GET standard, SET uses HDR_CONSTANT=0x00; device only responds to GET after first SET)")
    } else if a0 == 0x01 && a1 == 0x87 {
        Some("AUTO_GAIN (Gen1 only)")
    } else if a0 == 0x01 && a1 == 0xF3 {
        Some("GAIN_LOCK (MV6/Gen2)")
    } else if a0 == 0x01 && a1 == 0xF4 {
        Some("UNKNOWN_F4 (GET always returns 0x00 on MV6; not mute btn disable)")
    } else if a0 == 0x0C && a1 == 0x00 {
        Some("MV6_MUTE_BTN_DISABLE (MV6 only — GET: CMD_GET_LOCK, payload=[0x0C,0x00,0x60], resp feat=[0x00,0x60]; SET: CMD_SET_LOCK, HDR_CONSTANT=0x00; inverted: 0x00=disabled, 0x01=active)")
    } else if a0 == 0x02 && a1 == 0x00 {
        Some("EQ_MASTER (Gen1 only — not present on Gen2)")
    } else if a0 == 0x02 && a1 == 0x04 {
        Some("TONE_SLIDER (MV6/Gen2)")
    } else if a0 == 0x02 && a1 == 0x10 {
        Some("EQ_100HZ_EN (Gen1 only — not present on Gen2)")
    } else if a0 == 0x02 && a1 == 0x11 {
        Some("EQ_100HZ_FREQ_RO (Gen2 only — read-only, always 100)")
    } else if a0 == 0x02 && a1 == 0x14 {
        Some("EQ_100HZ_GAIN (Gen1/Gen2)")
    } else if a0 == 0x02 && a1 == 0x20 {
        Some("EQ_250HZ_EN (Gen1 only — not present on Gen2)")
    } else if a0 == 0x02 && a1 == 0x21 {
        Some("EQ_250HZ_FREQ_RO (Gen2 only — read-only, always 250)")
    } else if a0 == 0x02 && a1 == 0x24 {
        Some("EQ_250HZ_GAIN (Gen1/Gen2)")
    } else if a0 == 0x02 && a1 == 0x30 {
        Some("EQ_1KHZ_EN (Gen1 only — not present on Gen2)")
    } else if a0 == 0x02 && a1 == 0x31 {
        Some("EQ_1KHZ_FREQ_RO (Gen2 only — read-only, always 1000)")
    } else if a0 == 0x02 && a1 == 0x34 {
        Some("EQ_1KHZ_GAIN (Gen1/Gen2)")
    } else if a0 == 0x02 && a1 == 0x40 {
        Some("EQ_4KHZ_EN (Gen1 only — not present on Gen2)")
    } else if a0 == 0x02 && a1 == 0x41 {
        Some("EQ_4KHZ_FREQ_RO (Gen2 only — read-only, always 4000)")
    } else if a0 == 0x02 && a1 == 0x44 {
        Some("EQ_4KHZ_GAIN (Gen1/Gen2)")
    } else if a0 == 0x02 && a1 == 0x50 {
        Some("EQ_10KHZ_EN (Gen1 only — not present on Gen2)")
    } else if a0 == 0x02 && a1 == 0x51 {
        Some("EQ_10KHZ_FREQ_RO (Gen2 only — read-only, always 10000)")
    } else if a0 == 0x02 && a1 == 0x54 {
        Some("EQ_10KHZ_GAIN (Gen1/Gen2)")
    } else if a0 == 0x03 && a1 == 0x81 {
        Some("POPPER_STOPPER (MV6/Gen2/MV7+)")
    } else if a0 == 0x03 && a1 == 0x82 {
        Some("MV7+_REVERB_OUTPUT (MV7+ only — 0=off, 1=on)")
    } else if a0 == 0x03 && a1 == 0x83 {
        Some("MV7+_REVERB_TYPE (MV7+ only — 0=Plate, 1=Hall, 2=Studio)")
    } else if a0 == 0x03 && a1 == 0x84 {
        Some("MV7+_REVERB_INTENSITY (MV7+ only — 0–100)")
    } else if a0 == 0x03 && a1 == 0x85 {
        Some("MV7+_REVERB_MONITOR (MV7+ only — 0=off, 1=on)")
    } else {
        None
    }
}

/// The documented name of the lock-class feature at `[page, 0x00, sub_addr]`,
/// if it is known.
pub open spec fn known_lock_feature(page: u8, sub_addr: u8) -> Option<&'static str> {
    if page == 0x0C && sub_addr == 0x60 {
        Some("MV6/MV7+_MUTE_BTN_DISABLE (0x00=disabled, 0x01=active)")
    } else if page == 0x0C && sub_addr == 0xA2 {
        Some("MV7+_LED_COLOR_ACTIVE (4 bytes: [0x00, R, G, B] — color when unmuted)")
    } else if page == 0x0C && sub_addr == 0xA3 {
        Some("MV7+_LED_COLOR_MUTED (4 bytes: [0x00, R, G, B] — color when muted)")
    } else if page == 0x0C && sub_addr == 0xA4 {
        Some("MV7+_LED_MODE (1 byte: 0x01=solid, 0x02=breathing)")
    } else if page == 0x0C && sub_addr == 0xA5 {
        Some("MV7+_LED_FLAG_A5 (1 byte: always 0x01 — write-only flag)")
    } else if page == 0x0C && sub_addr == 0xA6 {
        Some("MV7+_LED_FLAG_A6 (1 byte: always 0x01 — write-only flag; aliases FEAT_LOCK on MVX2U)")
    } else {
        None
    }
}

/// The documented name of the feature at `addr`, if it is known.
pub fn known_name(addr: [u8; 2]) -> (r: Option<&'static str>)
    ensures
        r == known_feature(addr[0], addr[1]),
{
    let a0 = addr[0];
    let a1 = addr[1];
    if a0 == 0x00 && a1 == 0xA6 {
        Some("LOCK (Gen1 only — not present on Gen2 or MV6)")
    } else if a0 == 0x01 && a1 == 0x02 {
        Some("GAIN")
    } else if a0 == 0x01 && a1 == 0x04 {
        Some("MUTE")
    } else if a0 == 0x01 && a1 == 0x06 {
        Some("HPF")
    } else if a0 == 0x01 && a1 == 0x51 {
        Some("LIMITER (Gen1/Gen2)")
    } else if a0 == 0x01 && a1 == 0x58 {
        Some("DENOISER (MV6/Gen2)")
    } else if a0 == 0x01 && a1 == 0x5C {
        Some("COMPRESSOR (Gen1/Gen2)")
    } else if a0 == 0x01 && a1 == 0x66 {
        Some("PHANTOM (Gen1/Gen2)")
    } else if a0 == 0x01 && a1 == 0x82 {
        Some("AUTO_POSITION (Gen1 only)")
    } else if a0 == 0x01 && a1 == 0x83 {
        Some("AUTO_TONE (Gen1 only)")
    } else if a0 == 0x01 && a1 == 0x85 {
        Some("AUTO_LEVEL")
    } else if a0 == 0x01 && a1 == 0x86 {
        Some("MONITOR_MIX (Gen1: GET/SET both use mix-class prefix 0x01; Gen2/MV6: GET standard, SET uses HDR_CONSTANT=0x00; device only responds to GET after first SET)")
    } else if a0 == 0x01 && a1 == 0x87 {
        Some("AUTO_GAIN (Gen1 only)")
    } else if a0 == 0x01 && a1 == 0xF3 {
        Some("GAIN_LOCK (MV6/Gen2)")
    } else if a0 == 0x01 && a1 == 0xF4 {
        Some("UNKNOWN_F4 (GET always returns 0x00 on MV6; not mute btn disable)")
    } else if a0 == 0x0C && a1 == 0x00 {
        Some("MV6_MUTE_BTN_DISABLE (MV6 only — GET: CMD_GET_LOCK, payload=[0x0C,0x00,0x60], resp feat=[0x00,0x60]; SET: CMD_SET_LOCK, HDR_CONSTANT=0x00; inverted: 0x00=disabled, 0x01=active)")
    } else if a0 == 0x02 && a1 == 0x00 {
        Some("EQ_MASTER (Gen1 only — not present on Gen2)")
    } else if a0 == 0x02 && a1 == 0x04 {
        Some("TONE_SLIDER (MV6/Gen2)")
    } else if a0 == 0x02 && a1 == 0x10 {
        Some("EQ_100HZ_EN (Gen1 only — not present on Gen2)")
    } else if a0 == 0x02 && a1 == 0x11 {
        Some("EQ_100HZ_FREQ_RO (Gen2 only — read-only, always 100)")
    } else if a0 == 0x02 && a1 == 0x14 {
        Some("EQ_100HZ_GAIN (Gen1/Gen2)")
    } else if a0 == 0x02 && a1 == 0x20 {
        Some("EQ_250HZ_EN (Gen1 only — not present on Gen2)")
    } else if a0 == 0x02 && a1 == 0x21 {
        Some("EQ_250HZ_FREQ_RO (Gen2 only — read-only, always 250)")
    } else if a0 == 0x02 && a1 == 0x24 {
        Some("EQ_250HZ_GAIN (Gen1/Gen2)")
    } else if a0 == 0x02 && a1 == 0x30 {
        Some("EQ_1KHZ_EN (Gen1 only — not present on Gen2)")
    } else if a0 == 0x02 && a1 == 0x31 {
        Some("EQ_1KHZ_FREQ_RO (Gen2 only — read-only, always 1000)")
    } else if a0 == 0x02 && a1 == 0x34 {
        Some("EQ_1KHZ_GAIN (Gen1/Gen2)")
    } else if a0 == 0x02 && a1 == 0x40 {
        Some("EQ_4KHZ_EN (Gen1 only — not present on Gen2)")
    } else if a0 == 0x02 && a1 == 0x41 {
        Some("EQ_4KHZ_FREQ_RO (Gen2 only — read-only, always 4000)")
    } else if a0 == 0x02 && a1 == 0x44 {
        Some("EQ_4KHZ_GAIN (Gen1/Gen2)")
    } else if a0 == 0x02 && a1 == 0x50 {
        Some("EQ_10KHZ_EN (Gen1 only — not present on Gen2)")
    } else if a0 == 0x02 && a1 == 0x51 {
        Some("EQ_10KHZ_FREQ_RO (Gen2 only — read-only, always 10000)")
    } else if a0 == 0x02 && a1 == 0x54 {
        Some("EQ_10KHZ_GAIN (Gen1/Gen2)")
    } else if a0 == 0x03 && a1 == 0x81 {
        Some("POPPER_STOPPER (MV6/Gen2/MV7+)")
    } else if a0 == 0x03 && a1 == 0x82 {
        Some("MV7+_REVERB_OUTPUT (MV7+ only — 0=off, 1=on)")
    } else if a0 == 0x03 && a1 == 0x83 {
        Some("MV7+_REVERB_TYPE (MV7+ only — 0=Plate, 1=Hall, 2=Studio)")
    } else if a0 == 0x03 && a1 == 0x84 {
        Some("MV7+_REVERB_INTENSITY (MV7+ only — 0–100)")
    } else if a0 == 0x03 && a1 == 0x85 {
        Some("MV7+_REVERB_MONITOR (MV7+ only — 0=off, 1=on)")
    } else {
        None
    }
}

/// The documented name of the lock-class feature at `[page, 0x00, sub_addr]`,
/// if it is known.
pub fn known_mv7_lock_name(page: u8, sub_addr: u8) -> (r: Option<&'static str>)
    ensures
        r == known_lock_feature(page, sub_addr),
{
    if page == 0x0C && sub_addr == 0x60 {
        Some("MV6/MV7+_MUTE_BTN_DISABLE (0x00=disabled, 0x01=active)")
    } else if page == 0x0C && sub_addr == 0xA2 {
        Some("MV7+_LED_COLOR_ACTIVE (4 bytes: [0x00, R, G, B] — color when unmuted)")
    } else if page == 0x0C && sub_addr == 0xA3 {
        Some("MV7+_LED_COLOR_MUTED (4 bytes: [0x00, R, G, B] — color when muted)")
    } else if page == 0x0C && sub_addr == 0xA4 {
        Some("MV7+_LED_MODE (1 byte: 0x01=solid, 0x02=breathing)")
    } else if page == 0x0C && sub_addr == 0xA5 {
        Some("MV7+_LED_FLAG_A5 (1 byte: always 0x01 — write-only flag)")
    } else if page == 0x0C && sub_addr == 0xA6 {
        Some("MV7+_LED_FLAG_A6 (1 byte: always 0x01 — write-only flag; aliases FEAT_LOCK on MVX2U)")
    } else {
        None
    }
}

// ── Log text ─────────────────────────────────────────────────────────────────
/// The lowercase hexadecimal digits.
pub open spec fn hex_chars() -> Seq<char> {
    seq!['0', '1', '2', '3', '4', '5', '6', '7', '8', '9', 'a', 'b', 'c', 'd', 'e', 'f']
}

/// `n` in lowercase hexadecimal, without leading zeros.
pub open spec fn hex_text(n: nat) -> Seq<char>
    decreases n,
{
    if n < 16 {
        seq![hex_chars()[n as int]]
    } else {
        hex_text(n / 16).push(hex_chars()[(n % 16) as int])
    }
}

/// `s` with zeros in front up to `width` characters.
pub open spec fn zero_padded(s: Seq<char>, width: nat) -> Seq<char> {
    if s.len() >= width {
        s
    } else {
        Seq::new((width - s.len()) as nat, |i: int| '0') + s
    }
}

/// A byte as two lowercase hex digits.
pub open spec fn byte_hex(b: u8) -> Seq<char> {
    seq![hex_chars()[(b / 16) as int], hex_chars()[(b % 16) as int]]
}

/// Bytes as two-digit hex numbers separated by single spaces.
pub open spec fn value_hex_text(bytes: Seq<u8>) -> Seq<char>
    decreases bytes.len(),
{
    if bytes.len() == 0 {
        Seq::empty()
    } else if bytes.len() == 1 {
        byte_hex(bytes[0])
    } else {
        value_hex_text(bytes.drop_last()) + seq![' '] + byte_hex(bytes.last())
    }
}

/// The hex digit `d` (below 16).
fn hex_digit(d: u8) -> (c: char)
    requires
        d < 16,
    ensures
        c == hex_chars()[d as int],
{
    let digits = ['0', '1', '2', '3', '4', '5', '6', '7', '8', '9', 'a', 'b', 'c', 'd', 'e', 'f'];
    assert(digits@ =~= hex_chars());
    digits[d as usize]
}

/// Append a byte as two hex digits.
fn push_byte_hex(s: &mut String, b: u8)
    ensures
        final(s)@ == old(s)@ + byte_hex(b),
{
    push_char(s, hex_digit(b / 16));
    push_char(s, hex_digit(b % 16));
    assert(s@ =~= old(s)@ + byte_hex(b));
}

/// Value bytes as two-digit hex numbers separated by spaces, e.g. "0e 10".
pub fn fmt_value_hex(bytes: &[u8]) -> (r: String)
    ensures
        r@ == value_hex_text(bytes@),
{
    let mut r = String::new();
    let mut i: usize = 0;
    while i < bytes.len()
        invariant
            i <= bytes@.len(),
            r@ == value_hex_text(bytes@.subrange(0, i as int)),
        decreases bytes@.len() - i,
    {
        if i > 0 {
            push_char(&mut r, ' ');
        }
        push_byte_hex(&mut r, bytes[i]);
        assert(bytes@.subrange(0, i + 1).drop_last() =~= bytes@.subrange(0, i as int));
        i = i + 1;
    }
    assert(bytes@.subrange(0, bytes@.len() as int) =~= bytes@);
    r
}

/// `n` in lowercase hexadecimal.
fn hex_string(n: u64) -> (r: String)
    ensures
        r@ == hex_text(n as nat),
    decreases n,
{
    if n < 16 {
        let mut r = String::new();
        push_char(&mut r, hex_digit(n as u8));
        assert(r@ =~= hex_text(n as nat));
        r
    } else {
        let mut r = hex_string(n / 16);
        push_char(&mut r, hex_digit((n % 16) as u8));
        r
    }
}

/// Append `text` with zeros in front up to `width` characters.
fn append_zero_padded(s: &mut String, text: &String, width: usize)
    ensures
        final(s)@ == old(s)@ + zero_padded(text@, width as nat),
{
    let len = text.unicode_len();
    let mut k: usize = len;
    while k < width
        invariant
            len == text@.len(),
            len <= k <= width || (k == len && len >= width),
            s@ == old(s)@ + Seq::new((k - len) as nat, |i: int| '0'),
        decreases width - k,
    {
        push_char(s, '0');
        assert(s@ =~= old(s)@ + Seq::new((k + 1 - len) as nat, |i: int| '0'));
        k = k + 1;
    }
    s.append(text.as_str());
    if len >= width {
        assert(s@ =~= old(s)@ + zero_padded(text@, width as nat));
    } else {
        assert(s@ =~= old(s)@ + zero_padded(text@, width as nat));
    }
}

/// Whether the byte shows as itself in a dump: printable ASCII or a space.
pub open spec fn shows_as_itself(b: u8) -> bool {
    0x20 <= b <= 0x7E
}

/// How a byte shows in the text column of a dump.
pub open spec fn dump_char(b: u8) -> char {
    if shows_as_itself(b) {
        b as char
    } else {
        '.'
    }
}

/// Bytes as two-digit hex numbers, each followed by a space.
pub open spec fn spaced_hex(bytes: Seq<u8>) -> Seq<char>
    decreases bytes.len(),
{
    if bytes.len() == 0 {
        Seq::empty()
    } else {
        spaced_hex(bytes.drop_last()) + byte_hex(bytes.last()) + seq![' ']
    }
}

/// One dump line for `chunk` (at most 16 bytes) starting at byte `offset`:
/// the offset in at least four hex digits, the bytes in hex with blank
/// columns for missing ones, and the bytes as text between bars.
pub open spec fn dump_line(chunk: Seq<u8>, offset: nat) -> Seq<char> {
    "  "@ + zero_padded(hex_text(offset), 4) + ":  "@ + spaced_hex(chunk) + Seq::new(
        (3 * (16 - chunk.len())) as nat,
        |i: int| ' ',
    ) + "  |"@ + chunk.map_values(|b: u8| dump_char(b)) + "|\n"@
}

/// The dump of `bytes` whose first byte is at `offset`: one line per 16
/// bytes, the last line possibly shorter.
pub open spec fn dump_text(bytes: Seq<u8>, offset: nat) -> Seq<char>
    decreases bytes.len(),
{
    if bytes.len() == 0 {
        Seq::empty()
    } else if bytes.len() <= 16 {
        dump_line(bytes, offset)
    } else {
        dump_line(bytes.take(16), offset) + dump_text(bytes.skip(16), offset + 16)
    }
}

/// How a byte shows in the text column of a dump.
fn dump_char_exec(b: u8) -> (c: char)
    ensures
        c == dump_char(b),
{
    if 0x20 <= b && b <= 0x7E {
        b as char
    } else {
        '.'
    }
}

/// Append the dump line of `bytes[start..end]`.
fn push_dump_line(out: &mut String, bytes: &[u8], start: usize, end: usize)
    requires
        start < end <= bytes@.len(),
        end - start <= 16,
    ensures
        final(out)@ == old(out)@ + dump_line(bytes@.subrange(start as int, end as int), start as nat),
{
    let ghost chunk = bytes@.subrange(start as int, end as int);
    out.append("  ");
    let off = hex_string(start as u64);
    append_zero_padded(out, &off, 4);
    out.append(":  ");
    let ghost before_hex = out@;
    let mut i: usize = start;
    while i < end
        invariant
            start <= i <= end,
            end <= bytes@.len(),
            chunk == bytes@.subrange(start as int, end as int),
            out@ == before_hex + spaced_hex(bytes@.subrange(start as int, i as int)),
        decreases end - i,
    {
        push_byte_hex(out, bytes[i]);
        push_char(out, ' ');
        assert(bytes@.subrange(start as int, i + 1).drop_last() =~= bytes@.subrange(start as int, i as int));
        i = i + 1;
    }
    let ghost before_pad = out@;
    let mut k: usize = end - start;
    while k < 16
        invariant
            end - start <= k <= 16,
            out@ == before_pad + Seq::new((3 * (k - (end - start))) as nat, |j: int| ' '),
        decreases 16 - k,
    {
        push_char(out, ' ');
        push_char(out, ' ');
        push_char(out, ' ');
        assert(out@ =~= before_pad + Seq::new((3 * (k + 1 - (end - start))) as nat, |j: int| ' '));
        k = k + 1;
    }
    out.append("  |");
    let ghost before_text = out@;
    let mut j: usize = start;
    while j < end
        invariant
            start <= j <= end,
            end <= bytes@.len(),
            out@ == before_text + bytes@.subrange(start as int, j as int).map_values(|b: u8| dump_char(b)),
        decreases end - j,
    {
        push_char(out, dump_char_exec(bytes[j]));
        assert(bytes@.subrange(start as int, j + 1).map_values(|b: u8| dump_char(b))
            =~= bytes@.subrange(start as int, j as int).map_values(|b: u8| dump_char(b)).push(dump_char(bytes@[j as int])));
        j = j + 1;
    }
    out.append("|\n");
    assert(out@ =~= old(out)@ + dump_line(chunk, start as nat));
}

/// A classic hex dump: per 16 bytes, the offset, the bytes in hex and the
/// bytes as text (printable ASCII and spaces as themselves, others as '.').
pub fn hex_dump(bytes: &[u8]) -> (r: String)
    ensures
        r@ == dump_text(bytes@, 0),
{
    let mut out = String::new();
    let mut i: usize = 0;
    assert(bytes@.skip(0) =~= bytes@);
    assert(out@ + dump_text(bytes@, 0) =~= dump_text(bytes@, 0));
    while i < bytes.len()
        invariant
            i <= bytes@.len(),
            out@ + dump_text(bytes@.skip(i as int), i as nat) == dump_text(bytes@, 0),
        decreases bytes@.len() - i,
    {
        let rest = bytes.len() - i;
        let end = if rest > 16 { i + 16 } else { bytes.len() };
        let ghost tail = bytes@.skip(i as int);
        let ghost before = out@;
        push_dump_line(&mut out, bytes, i, end);
        proof {
            assert(tail.take(16) =~= bytes@.subrange(i as int, end as int) || tail.len() <= 16);
            if tail.len() > 16 {
                assert(tail.take(16) =~= bytes@.subrange(i as int, end as int));
                assert(tail.skip(16) =~= bytes@.skip(end as int));
            } else {
                assert(tail =~= bytes@.subrange(i as int, end as int));
                assert(bytes@.skip(end as int) =~= Seq::<u8>::empty());
            }
            assert(out@ + dump_text(bytes@.skip(end as int), end as nat) =~= before + dump_text(tail, i as nat));
        }
        i = end;
    }
    assert(bytes@.skip(i as int) =~= Seq::<u8>::empty());
    assert(out@ =~= out@ + dump_text(bytes@.skip(i as int), i as nat));
    out
}

/// The log's time stamp for `secs` seconds since the Unix epoch, on a rough
/// calendar of 365-day years and 30-day months (dates drift from the real
/// calendar; the time of day is exact): "YYYY-MM-DD hh:mm:ss UTC".
pub open spec fn timestamp_text(secs: nat) -> Seq<char> {
    let days = secs / 86400;
    let day_of_year = days % 365;
    zero_padded(decimal_text(1970 + days / 365), 4) + "-"@ + zero_padded(
        decimal_text(day_of_year / 30 + 1),
        2,
    ) + "-"@ + zero_padded(decimal_text(day_of_year % 30 + 1), 2) + " "@ + zero_padded(
        decimal_text((secs / 3600) % 24),
        2,
    ) + ":"@ + zero_padded(decimal_text((secs / 60) % 60), 2) + ":"@ + zero_padded(
        decimal_text(secs % 60),
        2,
    ) + " UTC"@
}

/// The log's time stamp for `secs` seconds since the Unix epoch.
pub fn utc_timestamp(secs: u64) -> (r: String)
    ensures
        r@ == timestamp_text(secs as nat),
{
    let days = secs / 86400;
    let day_of_year = days % 365;
    let mut r = String::new();
    append_zero_padded(&mut r, &decimal(1970 + days / 365), 4);
    r.append("-");
    append_zero_padded(&mut r, &decimal(day_of_year / 30 + 1), 2);
    r.append("-");
    append_zero_padded(&mut r, &decimal(day_of_year % 30 + 1), 2);
    r.append(" ");
    append_zero_padded(&mut r, &decimal((secs / 3600) % 24), 2);
    r.append(":");
    append_zero_padded(&mut r, &decimal((secs / 60) % 60), 2);
    r.append(":");
    append_zero_padded(&mut r, &decimal(secs % 60), 2);
    r.append(" UTC");
    assert(r@ =~= timestamp_text(secs as nat));
    r
}

// ── Summary ──────────────────────────────────────────────────────────────────
/// One address that answered during a sweep.
pub struct ProbeHit {
    pub addr: [u8; 2],
    pub value_bytes: Vec<u8>,
    /// The class prefix byte the GET was sent with.
    pub prefix: u8,
    /// "standard", "mix", "lock" or "mv7-lock".
    pub cmd_class: &'static str,
    pub is_known: bool,
    pub known_name: Option<&'static str>,
}

/// The uppercase hexadecimal digits.
pub open spec fn hex_upper_chars() -> Seq<char> {
    seq!['0', '1', '2', '3', '4', '5', '6', '7', '8', '9', 'A', 'B', 'C', 'D', 'E', 'F']
}

/// A byte as two uppercase hex digits.
pub open spec fn byte_hex_upper(b: u8) -> Seq<char> {
    seq![hex_upper_chars()[(b / 16) as int], hex_upper_chars()[(b % 16) as int]]
}

/// `s` with spaces after it up to `width` characters.
pub open spec fn space_padded(s: Seq<char>, width: nat) -> Seq<char> {
    if s.len() >= width {
        s
    } else {
        s + Seq::new((width - s.len()) as nat, |i: int| ' ')
    }
}

/// The address, prefix, class and value columns shared by both kinds of
/// summary line, after the name column.
pub open spec fn hit_tail(h: ProbeHit) -> Seq<char> {
    "  prefix=0x"@ + byte_hex_upper(h.prefix) + "  class="@ + h.cmd_class@ + "  value: ["@
        + value_hex_text(h.value_bytes@) + "]"@
}

/// The summary line of a known address: its name padded to 32 columns ("?"
/// when the hit carries none).
pub open spec fn known_hit_text(h: ProbeHit) -> Seq<char> {
    let name = match h.known_name {
        Some(n) => n@,
        None => "?"@,
    };
    "  ["@ + byte_hex_upper(h.addr[0]) + " "@ + byte_hex_upper(h.addr[1]) + "]"@ + "  "@ + space_padded(
        name,
        32,
    ) + hit_tail(h)
}

/// The summary line of an unknown address, with its value length.
pub open spec fn unknown_hit_text(h: ProbeHit) -> Seq<char> {
    "  ["@ + byte_hex_upper(h.addr[0]) + " "@ + byte_hex_upper(h.addr[1]) + "]"@ + "  *** UNKNOWN ***"@
        + hit_tail(h) + "  "@ + decimal_text(h.value_bytes@.len()) + " bytes"@
}

/// The summary lines of the known hits, in sweep order.
pub open spec fn known_lines(hits: Seq<ProbeHit>) -> Seq<Seq<char>>
    decreases hits.len(),
{
    if hits.len() == 0 {
        Seq::empty()
    } else if hits.last().is_known {
        known_lines(hits.drop_last()).push(known_hit_text(hits.last()))
    } else {
        known_lines(hits.drop_last())
    }
}

/// The summary lines of the unknown hits, in sweep order.
pub open spec fn unknown_lines(hits: Seq<ProbeHit>) -> Seq<Seq<char>>
    decreases hits.len(),
{
    if hits.len() == 0 {
        Seq::empty()
    } else if !hits.last().is_known {
        unknown_lines(hits.drop_last()).push(unknown_hit_text(hits.last()))
    } else {
        unknown_lines(hits.drop_last())
    }
}

/// The hex digit `d` (below 16), uppercase.
fn hex_digit_upper(d: u8) -> (c: char)
    requires
        d < 16,
    ensures
        c == hex_upper_chars()[d as int],
{
    let digits = ['0', '1', '2', '3', '4', '5', '6', '7', '8', '9', 'A', 'B', 'C', 'D', 'E', 'F'];
    assert(digits@ =~= hex_upper_chars());
    digits[d as usize]
}

/// Append a byte as two uppercase hex digits.
fn push_byte_hex_upper(s: &mut String, b: u8)
    ensures
        final(s)@ == old(s)@ + byte_hex_upper(b),
{
    push_char(s, hex_digit_upper(b / 16));
    push_char(s, hex_digit_upper(b % 16));
    assert(s@ =~= old(s)@ + byte_hex_upper(b));
}

/// Append "  [AA BB]".
fn push_addr(s: &mut String, addr: [u8; 2])
    ensures
        final(s)@ == old(s)@ + "  ["@ + byte_hex_upper(addr[0]) + " "@ + byte_hex_upper(addr[1]) + "]"@,
{
    s.append("  [");
    push_byte_hex_upper(s, addr[0]);
    s.append(" ");
    push_byte_hex_upper(s, addr[1]);
    s.append("]");
    assert(s@ =~= old(s)@ + "  ["@ + byte_hex_upper(addr[0]) + " "@ + byte_hex_upper(addr[1]) + "]"@);
}

/// Append the prefix, class and value columns.
fn push_hit_tail(s: &mut String, h: &ProbeHit)
    ensures
        final(s)@ == old(s)@ + hit_tail(*h),
{
    s.append("  prefix=0x");
    push_byte_hex_upper(s, h.prefix);
    s.append("  class=");
    s.append(h.cmd_class);
    s.append("  value: [");
    let v = fmt_value_hex(h.value_bytes.as_slice());
    s.append(v.as_str());
    s.append("]");
    assert(s@ =~= old(s)@ + hit_tail(*h));
}

/// Append `text` with spaces after it up to `width` characters.
fn append_space_padded(s: &mut String, text: &str, width: usize)
    ensures
        final(s)@ == old(s)@ + space_padded(text@, width as nat),
{
    s.append(text);
    let ghost with_text = s@;
    let len = text.unicode_len();
    let mut k: usize = len;
    while k < width
        invariant
            len == text@.len(),
            len <= k <= width || (k == len && len >= width),
            s@ == with_text + Seq::new((k - len) as nat, |i: int| ' '),
        decreases width - k,
    {
        push_char(s, ' ');
        assert(s@ =~= with_text + Seq::new((k + 1 - len) as nat, |i: int| ' '));
        k = k + 1;
    }
    assert(s@ =~= old(s)@ + space_padded(text@, width as nat));
}

/// The summary line of a known hit.
pub fn known_hit_line(h: &ProbeHit) -> (r: String)
    ensures
        r@ == known_hit_text(*h),
{
    let mut r = String::new();
    push_addr(&mut r, h.addr);
    r.append("  ");
    let name = match h.known_name {
        Some(n) => n,
        None => "?",
    };
    append_space_padded(&mut r, name, 32);
    push_hit_tail(&mut r, h);
    assert(r@ =~= known_hit_text(*h));
    r
}

/// The summary line of an unknown hit.
pub fn unknown_hit_line(h: &ProbeHit) -> (r: String)
    ensures
        r@ == unknown_hit_text(*h),
{
    let mut r = String::new();
    push_addr(&mut r, h.addr);
    r.append("  *** UNKNOWN ***");
    push_hit_tail(&mut r, h);
    r.append("  ");
    r.append(decimal(h.value_bytes.len() as u64).as_str());
    r.append(" bytes");
    assert(r@ =~= unknown_hit_text(*h));
    r
}

/// The summary of a sweep: the lines of the known hits and of the unknown
/// ones, each in sweep order.
pub fn summary_lines(hits: &Vec<ProbeHit>) -> (r: (Vec<String>, Vec<String>))
    ensures
        r.0@.map_values(|l: String| l@) == known_lines(hits@),
        r.1@.map_values(|l: String| l@) == unknown_lines(hits@),
{
    let mut known: Vec<String> = Vec::new();
    let mut unknown: Vec<String> = Vec::new();
    let mut i: usize = 0;
    while i < hits.len()
        invariant
            i <= hits@.len(),
            known@.map_values(|l: String| l@) == known_lines(hits@.subrange(0, i as int)),
            unknown@.map_values(|l: String| l@) == unknown_lines(hits@.subrange(0, i as int)),
        decreases hits@.len() - i,
    {
        let h = &hits[i];
        let ghost prefix = hits@.subrange(0, i + 1);
        assert(prefix.drop_last() =~= hits@.subrange(0, i as int));
        if h.is_known {
            let line = known_hit_line(h);
            known.push(line);
            assert(known@.map_values(|l: String| l@) =~= known_lines(prefix));
        } else {
            let line = unknown_hit_line(h);
            unknown.push(line);
            assert(unknown@.map_values(|l: String| l@) =~= unknown_lines(prefix));
        }
        i = i + 1;
    }
    assert(hits@.subrange(0, hits@.len() as int) =~= hits@);
    (known, unknown)
}

} // verus!
