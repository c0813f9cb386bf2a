use shurectl::protocol::{
    apply_response, cmd_confirm, cmd_get_gain, cmd_get_lock, cmd_get_mix, cmd_set_auto_gain,
    cmd_set_auto_position, cmd_set_auto_tone, cmd_set_compressor, cmd_set_eq_band_enable,
    cmd_set_eq_band_gain, cmd_set_gain, cmd_set_hpf, cmd_set_lock, cmd_set_mix, cmd_set_mode,
    cmd_set_mute, cmd_set_phantom, crc16_ansi, parse_response, AutoGain, AutoTone,
    CompressorPreset, DeviceState, HpfFrequency, InputMode, MicPosition, CMD_CONFIRM,
    CMD_GET_FEAT, CMD_GET_LOCK, CMD_SET_FEAT, CMD_SET_LOCK, DATA_START, EQ_BAND_FREQS, FEAT_AUTO,
    FEAT_AUTO_GAIN, FEAT_AUTO_POSITION, FEAT_AUTO_TONE, FEAT_COMP, FEAT_EQ, FEAT_GAIN, FEAT_HPF,
    FEAT_LIMITER, FEAT_LOCK, FEAT_MIX, FEAT_MUTE, FEAT_PHANTOM, HDR_CONSTANT, HDR_END,
    HEADER_MAGIC, PACKET_SIZE, PHANTOM_OFF, PHANTOM_ON, REPORT_ID, RES_GET_FEAT, RES_GET_LOCK,
    RES_SET_FEAT, RES_SET_LOCK,
};

// ── CRC ───────────────────────────────────────────────────────────────────

#[test]
fn crc16_ansi_empty_input() {
    assert_eq!(crc16_ansi(&[]), 0x0000);
}

#[test]
fn crc16_ansi_known_value() {
    assert_eq!(crc16_ansi(&[0x01u8, 0x02, 0x03]), 0xA110);
}

#[test]
fn crc16_ansi_standard_test_vector() {
    let data = b"123456789";
    assert_eq!(crc16_ansi(data), 0xBB3D);
}

#[test]
fn crc16_ansi_is_deterministic() {
    let data = [
        0x11u8, 0x22, 0x00, 0x03, 0x08, 0x05, 0x70, 0x05, 0x01, 0x00, 0x00,
    ];
    assert_eq!(crc16_ansi(&data), crc16_ansi(&data));
}

#[test]
fn crc16_ansi_differs_from_ccitt_false() {
    assert_eq!(crc16_ansi(&[]), 0x0000);
    let data = [0x11u8, 0x22, 0x03, 0x00];
    let ansi = crc16_ansi(&data);
    assert_ne!(
        ansi, 0x5426,
        "crc16_ansi must not produce CCITT-FALSE values"
    );
}

#[test]
fn crc16_ansi_single_byte_boundary() {
    assert_eq!(crc16_ansi(&[0x00]), 0x0000);
    assert_eq!(crc16_ansi(&[0xFF]), 0x4040);
    assert_eq!(crc16_ansi(&[0x01]), 0xC0C1);
}

// ── packet structure ──────────────────────────────────────────────────────

#[test]
fn packet_is_exactly_64_bytes() {
    assert_eq!(cmd_get_gain(0).len(), PACKET_SIZE);
    assert_eq!(cmd_set_gain(0, 36).len(), PACKET_SIZE);
    assert_eq!(cmd_confirm(0).len(), PACKET_SIZE);
}

#[test]
fn packet_starts_with_report_id_0x01() {
    let pkt = cmd_get_gain(0);
    assert_eq!(pkt[0], 0x01, "Report ID must be 0x01");
}

#[test]
fn packet_header_magic_at_offset_2() {
    let pkt = cmd_get_gain(0);
    assert_eq!(pkt[2], 0x11);
    assert_eq!(pkt[3], 0x22);
}

#[test]
fn packet_sequence_number_reflected() {
    for seq in [0u8, 1, 42, 255] {
        let pkt = cmd_get_gain(seq);
        assert_eq!(pkt[4], seq, "seq byte at offset 4 must match");
    }
}

#[test]
fn packet_constant_fields() {
    let pkt = cmd_get_gain(0);
    assert_eq!(pkt[5], 0x03, "constant 0x03 at offset 5");
    assert_eq!(pkt[6], 0x08, "header end 0x08 at offset 6");
    assert_eq!(pkt[8], 0x70, "data start 0x70 at offset 8");
    assert_eq!(pkt[7], pkt[9], "data_len repeated at offsets 7 and 9");
}

#[test]
fn packet_crc_is_valid() {
    let pkt = cmd_set_gain(5, 36);
    let total_len = pkt[1] as usize;
    let crc_hi = pkt[total_len] as u16;
    let crc_lo = pkt[total_len + 1] as u16;
    let stored_crc = (crc_hi << 8) | crc_lo;
    let computed_crc = crc16_ansi(&pkt[2..total_len]);
    assert_eq!(stored_crc, computed_crc, "CRC in packet must be valid");
}

#[test]
fn packet_padded_with_zeros_to_64() {
    let pkt = cmd_confirm(0);
    let total_len = pkt[1] as usize;
    for &b in &pkt[total_len + 2..] {
        assert_eq!(b, 0x00, "all bytes after CRC must be zero padding");
    }
}

// ── Command encoding ──────────────────────────────────────────────────────

#[test]
fn get_gain_has_correct_feat_addr() {
    let pkt = cmd_get_gain(0);
    assert_eq!(&pkt[10..13], &CMD_GET_FEAT);
    assert_eq!(pkt[13], 0x00, "is_mix must be 0 for gain");
    assert_eq!(&pkt[14..16], &FEAT_GAIN);
}

#[test]
fn set_gain_encodes_db_correctly() {
    let pkt = cmd_set_gain(0, 36);
    assert_eq!(&pkt[10..13], &CMD_SET_FEAT);
    assert_eq!(&pkt[14..16], &FEAT_GAIN);
    let raw = u16::from_be_bytes([pkt[16], pkt[17]]);
    assert_eq!(raw, 3600, "36 dB must encode as 3600");
}

#[test]
fn set_gain_clamps_at_60() {
    let pkt = cmd_set_gain(0, 200);
    let raw = u16::from_be_bytes([pkt[16], pkt[17]]);
    assert_eq!(raw, 6000, "gain clamped to 60 dB = raw 6000");
}

#[test]
fn set_gain_zero_db() {
    let pkt = cmd_set_gain(0, 0);
    let raw = u16::from_be_bytes([pkt[16], pkt[17]]);
    assert_eq!(raw, 0, "0 dB must encode as 0");
}

#[test]
fn set_phantom_on_uses_0x30() {
    let pkt = cmd_set_phantom(0, true);
    assert_eq!(&pkt[14..16], &FEAT_PHANTOM);
    assert_eq!(pkt[16], PHANTOM_ON, "phantom ON must be 0x30");
}

#[test]
fn set_phantom_off_uses_0x00() {
    let pkt = cmd_set_phantom(0, false);
    assert_eq!(pkt[16], PHANTOM_OFF, "phantom OFF must be 0x00");
}

#[test]
fn get_mix_is_mix_flag_set() {
    let pkt = cmd_get_mix(0);
    assert_eq!(&pkt[10..13], &CMD_GET_FEAT);
    assert_eq!(pkt[13], 0x01, "is_mix must be 1 for GET MIX");
    assert_eq!(&pkt[14..16], &FEAT_MIX);
}

#[test]
fn set_mix_is_mix_flag_set() {
    let pkt = cmd_set_mix(0, 50);
    assert_eq!(&pkt[14..16], &FEAT_MIX);
    assert_eq!(pkt[13], 0x01, "is_mix must be 1 for MIX feature");
    assert_eq!(pkt[16], 50);
}

#[test]
fn set_mix_clamps_at_100() {
    let pkt = cmd_set_mix(0, 200);
    assert_eq!(pkt[16], 100);
}

#[test]
fn set_mute_encodes_on_off() {
    assert_eq!(cmd_set_mute(0, true)[16], 1);
    assert_eq!(cmd_set_mute(0, false)[16], 0);
}

#[test]
fn set_mode_encodes_auto_manual() {
    assert_eq!(cmd_set_mode(0, true)[16], 1, "auto=true must be 1");
    assert_eq!(cmd_set_mode(0, false)[16], 0, "auto=false must be 0");
}

#[test]
fn set_compressor_all_presets() {
    let cases = [
        (CompressorPreset::Off, 0x00u8),
        (CompressorPreset::Light, 0x01),
        (CompressorPreset::Medium, 0x02),
        (CompressorPreset::Heavy, 0x03),
    ];
    for (preset, expected) in &cases {
        let pkt = cmd_set_compressor(0, preset);
        assert_eq!(pkt[16], *expected, "wrong byte for {preset:?}");
    }
}

#[test]
fn set_hpf_all_values() {
    assert_eq!(cmd_set_hpf(0, &HpfFrequency::Off)[16], 0x00);
    assert_eq!(cmd_set_hpf(0, &HpfFrequency::Hz75)[16], 0x01);
    assert_eq!(cmd_set_hpf(0, &HpfFrequency::Hz150)[16], 0x02);
}

#[test]
fn eq_band_gain_encoding() {
    let pkt = cmd_set_eq_band_gain(0, 0, 3);
    let raw = i16::from_be_bytes([pkt[16], pkt[17]]);
    assert_eq!(raw, 30, "+3 dB must encode as 30");

    let pkt = cmd_set_eq_band_gain(0, 1, -6);
    let raw = i16::from_be_bytes([pkt[16], pkt[17]]);
    assert_eq!(raw, -60, "-6 dB must encode as -60");
}

#[test]
fn eq_band_gain_clamps() {
    let pkt_hi = cmd_set_eq_band_gain(0, 0, 127);
    let raw_hi = i16::from_be_bytes([pkt_hi[16], pkt_hi[17]]);
    assert_eq!(raw_hi, 60, "+127 dB must clamp to +6 dB (raw 60)");

    let pkt_lo = cmd_set_eq_band_gain(0, 0, -128);
    let raw_lo = i16::from_be_bytes([pkt_lo[16], pkt_lo[17]]);
    assert_eq!(raw_lo, -80, "-128 dB must clamp to -8 dB (raw -80)");
}

#[test]
fn eq_band_addresses_are_correct() {
    let en_pkt = cmd_set_eq_band_enable(0, 0, true);
    assert_eq!(&en_pkt[14..16], &[0x02u8, 0x10]);
    let gain_pkt = cmd_set_eq_band_gain(0, 0, 0);
    assert_eq!(&gain_pkt[14..16], &[0x02u8, 0x14]);

    let en_pkt4 = cmd_set_eq_band_enable(0, 4, false);
    assert_eq!(&en_pkt4[14..16], &[0x02u8, 0x50]);
    let gain_pkt4 = cmd_set_eq_band_gain(0, 4, 0);
    assert_eq!(&gain_pkt4[14..16], &[0x02u8, 0x54]);
}

#[test]
fn confirm_packet_uses_correct_cmd() {
    let pkt = cmd_confirm(0);
    assert_eq!(&pkt[10..13], &CMD_CONFIRM);
}

// ── parse_response ────────────────────────────────────────────────────────

/// A synthetic device response, framed as the device frames it.
fn make_response(seq: u8, resp_cmd: &[u8; 3], feat_addr: &[u8; 2], value: &[u8]) -> Vec<u8> {
    let is_mix: u8 = 0x00;
    let mut payload = vec![is_mix, feat_addr[0], feat_addr[1]];
    payload.extend_from_slice(value);

    let data_len = (3 + payload.len() + 2) as u8;
    let mut inner: Vec<u8> = Vec::new();
    inner.push(HEADER_MAGIC[0]);
    inner.push(HEADER_MAGIC[1]);
    inner.push(seq);
    inner.push(HDR_CONSTANT);
    inner.push(HDR_END);
    inner.push(data_len);
    inner.push(DATA_START);
    inner.push(data_len);
    inner.extend_from_slice(resp_cmd);
    inner.extend_from_slice(&payload);

    let total_len = (inner.len() + 2) as u8;
    let crc = crc16_ansi(&inner);

    let mut buf = Vec::with_capacity(64);
    buf.push(REPORT_ID);
    buf.push(total_len);
    buf.extend_from_slice(&inner);
    buf.push((crc >> 8) as u8);
    buf.push((crc & 0xFF) as u8);
    buf.resize(64, 0x00);
    buf
}

#[test]
fn parse_response_get_feat_phantom() {
    let buf = make_response(0, &RES_GET_FEAT, &FEAT_PHANTOM, &[PHANTOM_ON]);
    let result = parse_response(&buf);
    assert!(result.is_some(), "parse_response must succeed");
    let (feat, value) = result.unwrap();
    assert_eq!(feat, FEAT_PHANTOM);
    assert_eq!(value, vec![PHANTOM_ON]);
}

#[test]
fn parse_response_rejects_bad_magic() {
    let mut buf = make_response(0, &RES_GET_FEAT, &FEAT_MUTE, &[0x01]);
    buf[2] = 0xFF;
    assert!(parse_response(&buf).is_none());
}

#[test]
fn parse_response_rejects_bad_crc() {
    let mut buf = make_response(0, &RES_GET_FEAT, &FEAT_MUTE, &[0x01]);
    let total_len = buf[1] as usize;
    buf[total_len] ^= 0xFF;
    assert!(parse_response(&buf).is_none());
}

#[test]
fn parse_response_rejects_too_short() {
    assert!(parse_response(&[]).is_none());
    assert!(parse_response(&[0x01; 10]).is_none());
}

#[test]
fn parse_response_returns_none_for_confirm() {
    let confirm_cmd: [u8; 3] = [0x09, 0x00, 0x00];
    let buf = make_response(0, &confirm_cmd, &[0x00, 0x00], &[]);
    assert!(parse_response(&buf).is_none());
}

#[test]
fn parse_response_accepts_set_feat_response_type() {
    let buf = make_response(0, &RES_SET_FEAT, &FEAT_MUTE, &[0x01]);
    let result = parse_response(&buf);
    assert!(result.is_some(), "parse_response must accept RES_SET_FEAT");
    let (feat, value) = result.unwrap();
    assert_eq!(feat, FEAT_MUTE);
    assert_eq!(value, vec![0x01]);
}

#[test]
fn parse_response_rejects_oversized_total_len() {
    let mut buf = make_response(0, &RES_GET_FEAT, &FEAT_MUTE, &[0x01]);
    buf[1] = 200;
    assert!(parse_response(&buf).is_none());
}

#[test]
fn parse_response_rejects_buffers_below_minimum_length() {
    for len in [0usize, 1, 10, 17] {
        let buf = vec![0u8; len];
        assert!(
            parse_response(&buf).is_none(),
            "buf of length {len} must be rejected"
        );
    }
    let buf18 = vec![0u8; 18];
    let _ = parse_response(&buf18);
}

#[test]
fn parse_response_get_feat_mix_full_chain() {
    let buf = make_response(0, &RES_GET_FEAT, &FEAT_MIX, &[75]);
    let result = parse_response(&buf);
    assert!(result.is_some(), "parse_response must accept MIX response");
    let (feat, value) = result.unwrap();
    assert_eq!(feat, FEAT_MIX, "feature address must be FEAT_MIX");
    assert_eq!(value, vec![75]);

    let mut state = DeviceState::default();
    assert!(apply_response(feat, &value, &mut state));
    assert_eq!(state.monitor_mix, 75);
}

// ── apply_response ────────────────────────────────────────────────────────

#[test]
fn apply_response_gain() {
    let mut state = DeviceState::default();
    let _ = apply_response(FEAT_GAIN, &[0x0E, 0x10], &mut state);
    assert_eq!(state.gain_db, 36);
}

#[test]
fn apply_response_gain_clamps_at_60() {
    let mut state = DeviceState::default();
    let _ = apply_response(FEAT_GAIN, &[0x23, 0x28], &mut state);
    assert_eq!(state.gain_db, 60);
}

#[test]
fn apply_response_gain_rejects_short_values() {
    let mut state = DeviceState::default();
    let original = state.gain_db;
    assert!(!apply_response(FEAT_GAIN, &[], &mut state), "empty must return false");
    assert!(!apply_response(FEAT_GAIN, &[0x0E], &mut state), "1-byte must return false");
    assert_eq!(state.gain_db, original, "state must not change on rejection");
}

#[test]
fn apply_response_phantom_on() {
    let mut state = DeviceState::default();
    let _ = apply_response(FEAT_PHANTOM, &[0x30], &mut state);
    assert!(state.phantom_power);
}

#[test]
fn apply_response_phantom_off() {
    let mut state = DeviceState::default();
    state.phantom_power = true;
    let _ = apply_response(FEAT_PHANTOM, &[0x00], &mut state);
    assert!(!state.phantom_power);
}

#[test]
fn apply_response_mute() {
    let mut state = DeviceState::default();
    let _ = apply_response(FEAT_MUTE, &[0x01], &mut state);
    assert!(state.muted);
    let _ = apply_response(FEAT_MUTE, &[0x00], &mut state);
    assert!(!state.muted);
}

#[test]
fn apply_response_mode() {
    let mut state = DeviceState::default();
    let _ = apply_response(FEAT_AUTO, &[0x01], &mut state);
    assert_eq!(state.mode, InputMode::Auto);
    let _ = apply_response(FEAT_AUTO, &[0x00], &mut state);
    assert_eq!(state.mode, InputMode::Manual);
}

#[test]
fn apply_response_compressor_all_presets() {
    let cases = [
        (0x00u8, CompressorPreset::Off),
        (0x01, CompressorPreset::Light),
        (0x02, CompressorPreset::Medium),
        (0x03, CompressorPreset::Heavy),
    ];
    for (byte, expected) in &cases {
        let mut state = DeviceState::default();
        let _ = apply_response(FEAT_COMP, &[*byte], &mut state);
        assert_eq!(state.compressor, *expected);
    }
}

#[test]
fn apply_response_hpf() {
    let mut state = DeviceState::default();
    let _ = apply_response(FEAT_HPF, &[0x01], &mut state);
    assert_eq!(state.hpf, HpfFrequency::Hz75);
    let _ = apply_response(FEAT_HPF, &[0x02], &mut state);
    assert_eq!(state.hpf, HpfFrequency::Hz150);
    let _ = apply_response(FEAT_HPF, &[0x00], &mut state);
    assert_eq!(state.hpf, HpfFrequency::Off);
}

#[test]
fn apply_response_eq_band_gain_all_bands() {
    let cases: &[(usize, [u8; 2], u8, u8, i8)] = &[
        (0, [0x02, 0x14], 0x00, 0x28, 4),
        (1, [0x02, 0x24], 0xFF, 0xC4, -6),
        (2, [0x02, 0x34], 0x00, 0x1E, 3),
        (3, [0x02, 0x44], 0xFF, 0xD8, -4),
        (4, [0x02, 0x54], 0x00, 0x3C, 6),
    ];
    for &(band, addr, hi, lo, expected_db) in cases {
        let mut state = DeviceState::default();
        assert!(
            apply_response(addr, &[hi, lo], &mut state),
            "apply_response must return true for band {band}"
        );
        assert_eq!(
            state.eq_bands[band].gain_db, expected_db,
            "band {band} gain mismatch"
        );
    }
}

#[test]
fn apply_response_eq_band_enable_all_bands() {
    let enable_addrs: [[u8; 2]; 5] = [
        [0x02, 0x10],
        [0x02, 0x20],
        [0x02, 0x30],
        [0x02, 0x40],
        [0x02, 0x50],
    ];
    for (band, addr) in enable_addrs.iter().enumerate() {
        let mut state = DeviceState::default();
        assert!(apply_response(*addr, &[0x01], &mut state));
        assert!(state.eq_bands[band].enabled, "band {band} must be enabled");
        assert!(apply_response(*addr, &[0x00], &mut state));
        assert!(!state.eq_bands[band].enabled, "band {band} must be disabled");
    }
}

#[test]
fn apply_response_monitor_mix() {
    let mut state = DeviceState::default();
    let _ = apply_response(FEAT_MIX, &[50], &mut state);
    assert_eq!(state.monitor_mix, 50);
}

#[test]
fn apply_response_monitor_mix_clamps_at_100() {
    let mut state = DeviceState::default();
    let _ = apply_response(FEAT_MIX, &[200], &mut state);
    assert_eq!(state.monitor_mix, 100, "monitor mix must clamp to 100");
}

#[test]
fn apply_response_monitor_mix_empty_value_returns_false() {
    let mut state = DeviceState::default();
    assert!(!apply_response(FEAT_MIX, &[], &mut state));
}

#[test]
fn apply_response_limiter() {
    let mut state = DeviceState::default();
    let _ = apply_response(FEAT_LIMITER, &[0x01], &mut state);
    assert!(state.limiter_enabled);
    let _ = apply_response(FEAT_LIMITER, &[0x00], &mut state);
    assert!(!state.limiter_enabled);
}

#[test]
fn apply_response_limiter_empty_value_returns_false() {
    let mut state = DeviceState::default();
    assert!(!apply_response(FEAT_LIMITER, &[], &mut state));
}

#[test]
fn apply_response_eq_master_enable() {
    let mut state = DeviceState::default();
    let _ = apply_response(FEAT_EQ, &[0x01], &mut state);
    assert!(state.eq_enabled);
    let _ = apply_response(FEAT_EQ, &[0x00], &mut state);
    assert!(!state.eq_enabled);
}

#[test]
fn apply_response_eq_master_enable_empty_value_returns_false() {
    let mut state = DeviceState::default();
    assert!(!apply_response(FEAT_EQ, &[], &mut state));
}

#[test]
fn apply_response_unknown_feat_returns_false() {
    let mut state = DeviceState::default();
    let original_gain = state.gain_db;
    let applied = apply_response([0xFF, 0xFF], &[0x01], &mut state);
    assert!(!applied, "unknown feature must return false");
    assert_eq!(state.gain_db, original_gain, "state must not be mutated");
}

#[test]
fn apply_response_too_short_returns_false() {
    let mut state = DeviceState::default();
    assert!(
        !apply_response(FEAT_GAIN, &[], &mut state),
        "empty value must return false"
    );
    assert!(
        !apply_response(FEAT_GAIN, &[0x01], &mut state),
        "1-byte value for 2-byte gain must return false"
    );
}

// ── Cycle helpers ─────────────────────────────────────────────────────────

#[test]
fn compressor_cycles_full_round_trip() {
    let seq = [
        CompressorPreset::Off,
        CompressorPreset::Light,
        CompressorPreset::Medium,
        CompressorPreset::Heavy,
        CompressorPreset::Off,
    ];
    for w in seq.windows(2) {
        assert_eq!(w[0].cycle_next(), w[1]);
    }
}

#[test]
fn hpf_cycles_full_round_trip() {
    let seq = [
        HpfFrequency::Off,
        HpfFrequency::Hz75,
        HpfFrequency::Hz150,
        HpfFrequency::Off,
    ];
    for w in seq.windows(2) {
        assert_eq!(w[0].cycle_next(), w[1]);
    }
}

#[test]
fn eq_band_freqs_are_correct() {
    assert_eq!(EQ_BAND_FREQS, [100, 250, 1000, 4000, 10000]);
}

// ── Lock commands ─────────────────────────────────────────────────────────

#[test]
fn lock_get_packet_uses_correct_command_and_feat_addr() {
    let pkt = cmd_get_lock(0);
    assert_eq!(pkt.len(), PACKET_SIZE);
    assert_eq!(&pkt[10..13], &CMD_GET_LOCK, "must use CMD_GET_LOCK");
    assert_eq!(pkt[13], 0x06, "lock payload prefix must be 0x06");
    assert_eq!(
        &pkt[14..16],
        &FEAT_LOCK,
        "feature address must be FEAT_LOCK"
    );
}

#[test]
fn lock_set_packet_uses_correct_command_and_encodes_value() {
    let pkt_lock = cmd_set_lock(0, true);
    assert_eq!(&pkt_lock[10..13], &CMD_SET_LOCK, "must use CMD_SET_LOCK");
    assert_eq!(pkt_lock[13], 0x06, "lock payload prefix must be 0x06");
    assert_eq!(&pkt_lock[14..16], &FEAT_LOCK);
    assert_eq!(pkt_lock[16], 0x01, "locked=true must encode as 0x01");

    let pkt_unlock = cmd_set_lock(0, false);
    assert_eq!(pkt_unlock[16], 0x00, "locked=false must encode as 0x00");
}

#[test]
fn lock_packets_are_exactly_64_bytes_with_valid_crc() {
    for locked in [true, false] {
        let pkt = cmd_set_lock(0, locked);
        assert_eq!(pkt.len(), PACKET_SIZE);
        let total_len = pkt[1] as usize;
        let stored_crc = ((pkt[total_len] as u16) << 8) | pkt[total_len + 1] as u16;
        let computed_crc = crc16_ansi(&pkt[2..total_len]);
        assert_eq!(
            stored_crc, computed_crc,
            "CRC must be valid for locked={locked}"
        );
    }
}

#[test]
fn lock_get_packet_differs_from_regular_get_feat() {
    let lock_pkt = cmd_get_lock(0);
    let gain_pkt = cmd_get_gain(0);
    assert_ne!(&lock_pkt[10..13], &gain_pkt[10..13]);
    assert_eq!(lock_pkt[12], 0x01);
    assert_eq!(gain_pkt[12], 0x02);
}

#[test]
fn apply_response_lock_locked() {
    let mut state = DeviceState::default();
    assert!(!state.locked, "default state must be unlocked");
    let _ = apply_response(FEAT_LOCK, &[0x01], &mut state);
    assert!(state.locked);
}

#[test]
fn apply_response_lock_unlocked() {
    let mut state = DeviceState::default();
    state.locked = true;
    let _ = apply_response(FEAT_LOCK, &[0x00], &mut state);
    assert!(!state.locked);
}

#[test]
fn apply_response_lock_empty_value_returns_false() {
    let mut state = DeviceState::default();
    assert!(!apply_response(FEAT_LOCK, &[], &mut state));
}

#[test]
fn parse_response_accepts_lock_response_types() {
    let buf = make_response(0, &RES_GET_LOCK, &FEAT_LOCK, &[0x01]);
    let result = parse_response(&buf);
    assert!(result.is_some(), "parse_response must accept RES_GET_LOCK");
    let (feat, value) = result.unwrap();
    assert_eq!(feat, FEAT_LOCK);
    assert_eq!(value, vec![0x01]);

    let buf2 = make_response(0, &RES_SET_LOCK, &FEAT_LOCK, &[0x00]);
    let result2 = parse_response(&buf2);
    assert!(result2.is_some(), "parse_response must accept RES_SET_LOCK");
    let (feat2, value2) = result2.unwrap();
    assert_eq!(feat2, FEAT_LOCK);
    assert_eq!(value2, vec![0x00]);
}

// ── Auto Level sub-features ───────────────────────────────────────────────

#[test]
fn mic_position_roundtrip_via_packet() {
    for (pos, expected_byte) in [
        (MicPosition::Near, 0x00u8),
        (MicPosition::Far, 0x01u8),
    ] {
        let pkt = cmd_set_auto_position(0, &pos);
        assert_eq!(pkt.len(), PACKET_SIZE);
        assert_eq!(&pkt[14..16], &FEAT_AUTO_POSITION, "feature address mismatch");
        assert_eq!(pkt[16], expected_byte, "position byte mismatch for {}", pos.label());
    }
}

#[test]
fn mic_position_apply_response_roundtrip() {
    let cases = [
        (&[0x00u8][..], MicPosition::Near),
        (&[0x01u8][..], MicPosition::Far),
        (&[0x99u8][..], MicPosition::Near),
    ];
    for (bytes, expected) in cases {
        let mut state = DeviceState::default();
        assert!(apply_response(FEAT_AUTO_POSITION, bytes, &mut state));
        assert_eq!(state.auto_position, expected);
    }
}

#[test]
fn mic_position_apply_response_empty_returns_false() {
    let mut state = DeviceState::default();
    assert!(!apply_response(FEAT_AUTO_POSITION, &[], &mut state));
}

#[test]
fn mic_position_cycles_full_round_trip() {
    let seq = [MicPosition::Near, MicPosition::Far, MicPosition::Near];
    for w in seq.windows(2) {
        assert_eq!(w[0].cycle_next(), w[1]);
    }
}

#[test]
fn auto_tone_roundtrip_via_packet() {
    for (tone, expected_byte) in [
        (AutoTone::Dark, 0x00u8),
        (AutoTone::Natural, 0x01u8),
        (AutoTone::Bright, 0x02u8),
    ] {
        let pkt = cmd_set_auto_tone(0, &tone);
        assert_eq!(pkt.len(), PACKET_SIZE);
        assert_eq!(&pkt[14..16], &FEAT_AUTO_TONE, "feature address mismatch");
        assert_eq!(pkt[16], expected_byte, "tone byte mismatch for {}", tone.label());
    }
}

#[test]
fn auto_tone_apply_response_roundtrip() {
    let cases = [
        (&[0x00u8][..], AutoTone::Dark),
        (&[0x01u8][..], AutoTone::Natural),
        (&[0x02u8][..], AutoTone::Bright),
        (&[0x99u8][..], AutoTone::Natural),
    ];
    for (bytes, expected) in cases {
        let mut state = DeviceState::default();
        assert!(apply_response(FEAT_AUTO_TONE, bytes, &mut state));
        assert_eq!(state.auto_tone, expected);
    }
}

#[test]
fn auto_tone_apply_response_empty_returns_false() {
    let mut state = DeviceState::default();
    assert!(!apply_response(FEAT_AUTO_TONE, &[], &mut state));
}

#[test]
fn auto_tone_cycles_full_round_trip() {
    let seq = [
        AutoTone::Dark,
        AutoTone::Natural,
        AutoTone::Bright,
        AutoTone::Dark,
    ];
    for w in seq.windows(2) {
        assert_eq!(w[0].cycle_next(), w[1]);
    }
}

#[test]
fn auto_gain_roundtrip_via_packet() {
    for (gain, expected_val) in [
        (AutoGain::Quiet, 0u32),
        (AutoGain::Normal, 1u32),
        (AutoGain::Loud, 2u32),
    ] {
        let pkt = cmd_set_auto_gain(0, &gain);
        assert_eq!(pkt.len(), PACKET_SIZE);
        assert_eq!(&pkt[14..16], &FEAT_AUTO_GAIN, "feature address mismatch");
        let encoded = u32::from_be_bytes([pkt[16], pkt[17], pkt[18], pkt[19]]);
        assert_eq!(encoded, expected_val, "gain value mismatch for {}", gain.label());
    }
}

#[test]
fn auto_gain_apply_response_roundtrip_4_bytes() {
    let cases: &[(&[u8], AutoGain)] = &[
        (&[0x00, 0x00, 0x00, 0x00], AutoGain::Quiet),
        (&[0x00, 0x00, 0x00, 0x01], AutoGain::Normal),
        (&[0x00, 0x00, 0x00, 0x02], AutoGain::Loud),
        (&[0x99, 0x99, 0x99, 0x99], AutoGain::Normal),
    ];
    for (bytes, expected) in cases {
        let mut state = DeviceState::default();
        assert!(apply_response(FEAT_AUTO_GAIN, bytes, &mut state));
        assert_eq!(state.auto_gain, *expected);
    }
}

#[test]
fn auto_gain_apply_response_1_byte_fallback() {
    let cases: &[(&[u8], AutoGain)] = &[
        (&[0x00], AutoGain::Quiet),
        (&[0x01], AutoGain::Normal),
        (&[0x02], AutoGain::Loud),
    ];
    for (bytes, expected) in cases {
        let mut state = DeviceState::default();
        assert!(apply_response(FEAT_AUTO_GAIN, bytes, &mut state));
        assert_eq!(state.auto_gain, *expected);
    }
}

#[test]
fn auto_gain_apply_response_empty_returns_false() {
    let mut state = DeviceState::default();
    assert!(!apply_response(FEAT_AUTO_GAIN, &[], &mut state));
}

#[test]
fn auto_gain_cycles_full_round_trip() {
    let seq = [
        AutoGain::Quiet,
        AutoGain::Normal,
        AutoGain::Loud,
        AutoGain::Quiet,
    ];
    for w in seq.windows(2) {
        assert_eq!(w[0].cycle_next(), w[1]);
    }
}

// ── What a read gives back of a write ─────────────────────────────────────

/// The device's echo of a SET: the same packet under the SET response command.
fn echo_of(mut pkt: Vec<u8>, response: &[u8; 3]) -> Vec<u8> {
    pkt[10..13].copy_from_slice(response);
    let end = pkt[1] as usize;
    let crc = crc16_ansi(&pkt[2..end]);
    pkt[end] = (crc >> 8) as u8;
    pkt[end + 1] = (crc & 0xFF) as u8;
    pkt
}

#[test]
fn echoed_set_applies_the_written_value() {
    let cases: Vec<(Vec<u8>, fn(&DeviceState) -> bool)> = vec![
        (cmd_set_gain(1, 36), |s| s.gain_db == 36),
        (cmd_set_gain(2, 200), |s| s.gain_db == 60),
        (cmd_set_mix(3, 200), |s| s.monitor_mix == 100),
        (cmd_set_phantom(4, true), |s| s.phantom_power),
        (cmd_set_eq_band_gain(5, 3, -4), |s| s.eq_bands[3].gain_db == -4),
        (cmd_set_eq_band_enable(6, 2, true), |s| s.eq_bands[2].enabled),
        (cmd_set_auto_gain(7, &AutoGain::Loud), |s| s.auto_gain == AutoGain::Loud),
        (cmd_set_hpf(8, &HpfFrequency::Hz150), |s| s.hpf == HpfFrequency::Hz150),
    ];
    for (pkt, holds) in cases {
        let echo = echo_of(pkt, &RES_SET_FEAT);
        let (feat, value) = parse_response(&echo).expect("echo parses");
        let mut state = DeviceState::default();
        assert!(apply_response(feat, &value, &mut state));
        assert!(holds(&state));
    }
    let echo = echo_of(cmd_set_lock(9, true), &RES_SET_LOCK);
    let (feat, value) = parse_response(&echo).expect("lock echo parses");
    let mut state = DeviceState::default();
    assert!(apply_response(feat, &value, &mut state));
    assert!(state.locked);
}

#[test]
fn crc_of_data_with_its_crc_appended_low_byte_first_is_zero() {
    for data in [&b""[..], &b"123456789"[..], &[0x11u8, 0x22, 0x03, 0x00][..]] {
        let c = crc16_ansi(data);
        let mut framed = data.to_vec();
        framed.push(c as u8);
        framed.push((c >> 8) as u8);
        assert_eq!(crc16_ansi(&framed), 0);
    }
}
