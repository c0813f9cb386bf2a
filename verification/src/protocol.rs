//! MVX2U USB HID protocol: packet framing, CRC, command builders, response
//! parsing and decoding of feature values into a [`DeviceState`].
//!
//! Packet structure (64 bytes total):
//!
//! ```text
//! [0x01]              report ID
//! [total_len]         length of everything that follows up to the end of the CRC
//! [0x11] [0x22]       header magic
//! [seq]  [0x03]       sequence number + constant 0x03
//! [0x08]              header end marker
//! [data_len]          length of data section
//! [0x70]              data start marker
//! [data_len]          length of data section (repeated)
//! [cmd0][cmd1][cmd2]  3-byte command
//! [payload...]        prefix byte + feature address + value bytes
//! [crc_hi][crc_lo]    CRC-16/ANSI over all bytes from [0x11] onward
//! [0x00 ...]          zero padding up to 64 bytes
//! ```
use vstd::prelude::*;

verus! {

pub const VID: u16 = 0x14ED;
pub const PID: u16 = 0x1013;
/// Product ID of the Shure MV6.
pub const MV6_PID: u16 = 0x1026;
pub const PACKET_SIZE: usize = 64;

pub const REPORT_ID: u8 = 0x01;
pub const HEADER_MAGIC: [u8; 2] = [0x11, 0x22];
pub const HDR_CONSTANT: u8 = 0x03;
pub const HDR_END: u8 = 0x08;
pub const DATA_START: u8 = 0x70;

// ── Command bytes (3 bytes each) ──────────────────────────────────────────────
pub const CMD_GET_FEAT: [u8; 3] = [0x01, 0x02, 0x02];
pub const CMD_SET_FEAT: [u8; 3] = [0x02, 0x02, 0x02];
pub const CMD_CONFIRM: [u8; 3] = [0x01, 0x00, 0x00];
/// Lock uses a distinct command variant (last byte 0x01 instead of 0x02).
pub const CMD_GET_LOCK: [u8; 3] = [0x01, 0x02, 0x01];
pub const CMD_SET_LOCK: [u8; 3] = [0x02, 0x02, 0x01];

// Response command bytes (from device)
pub const RES_GET_FEAT: [u8; 3] = [0x03, 0x02, 0x02];
pub const RES_SET_FEAT: [u8; 3] = [0x04, 0x02, 0x02];
pub const RES_GET_LOCK: [u8; 3] = [0x03, 0x02, 0x01];
pub const RES_SET_LOCK: [u8; 3] = [0x04, 0x02, 0x01];

// ── Feature addresses (2 bytes each) ─────────────────────────────────────────
/// Config lock lives on page 0x00, unlike all other features.
pub const FEAT_LOCK: [u8; 2] = [0x00, 0xA6];
pub const FEAT_GAIN: [u8; 2] = [0x01, 0x02];
pub const FEAT_MUTE: [u8; 2] = [0x01, 0x04];
pub const FEAT_HPF: [u8; 2] = [0x01, 0x06];
pub const FEAT_LIMITER: [u8; 2] = [0x01, 0x51];
pub const FEAT_COMP: [u8; 2] = [0x01, 0x5C];
pub const FEAT_PHANTOM: [u8; 2] = [0x01, 0x66];
/// Auto level on/off.
pub const FEAT_AUTO: [u8; 2] = [0x01, 0x85];
pub const FEAT_MIX: [u8; 2] = [0x01, 0x86];
/// Mic position for Auto Level mode: 0=Near, 1=Far.
pub const FEAT_AUTO_POSITION: [u8; 2] = [0x01, 0x82];
/// Tone preset for Auto Level mode: 0=Dark, 1=Natural, 2=Bright.
pub const FEAT_AUTO_TONE: [u8; 2] = [0x01, 0x83];
/// Gain preset for Auto Level mode, a 4-byte big-endian value: 0=Quiet, 1=Normal, 2=Loud.
pub const FEAT_AUTO_GAIN: [u8; 2] = [0x01, 0x87];
pub const FEAT_EQ: [u8; 2] = [0x02, 0x00];

/// The center frequency (Hz) for each of the 5 EQ bands. Fixed by hardware.
pub const EQ_BAND_FREQS: [u16; 5] = [100, 250, 1000, 4000, 10000];

/// Number of parametric EQ bands.
pub const EQ_BAND_COUNT: usize = 5;

// ── Phantom power value encoding ──────────────────────────────────────────────
pub const PHANTOM_ON: u8 = 0x30;
pub const PHANTOM_OFF: u8 = 0x00;

// ── Enumerated settings ──────────────────────────────────────────────────────
#[derive(Debug, Clone, Copy, PartialEq, Eq, Structural)]
pub enum InputMode {
    Auto,
    Manual,
}

impl InputMode {
    pub open spec fn label_text(self) -> Seq<char> {
        match self {
            InputMode::Auto => "Auto Level"@,
            InputMode::Manual => "Manual"@,
        }
    }

    /// Display name of the mode.
    pub fn label(&self) -> (r: &'static str)
        ensures
            r@ == self.label_text(),
    {
        match self {
            InputMode::Auto => "Auto Level",
            InputMode::Manual => "Manual",
        }
    }
}

/// Microphone position for Auto Level mode.
#[derive(Debug, Clone, Copy, PartialEq, Eq, Structural)]
pub enum MicPosition {
    /// Mic is close to the speaker's mouth (default).
    Near,
    /// Mic is at arm's length or further.
    Far,
}

impl MicPosition {
    pub open spec fn succ(self) -> MicPosition {
        match self {
            MicPosition::Near => MicPosition::Far,
            MicPosition::Far => MicPosition::Near,
        }
    }

    pub open spec fn code(self) -> u8 {
        match self {
            MicPosition::Near => 0x00,
            MicPosition::Far => 0x01,
        }
    }

    pub open spec fn decode(b: u8) -> MicPosition {
        if b == 0x01 {
            MicPosition::Far
        } else {
            MicPosition::Near
        }
    }

    pub open spec fn label_text(self) -> Seq<char> {
        match self {
            MicPosition::Near => "Near"@,
            MicPosition::Far => "Far"@,
        }
    }

    pub fn cycle_next(&self) -> (r: Self)
        ensures
            r == self.succ(),
    {
        match self {
            MicPosition::Near => MicPosition::Far,
            MicPosition::Far => MicPosition::Near,
        }
    }

    pub fn as_byte(&self) -> (r: u8)
        ensures
            r == self.code(),
    {
        match self {
            MicPosition::Near => 0x00,
            MicPosition::Far => 0x01,
        }
    }

    pub fn from_byte(b: u8) -> (r: Self)
        ensures
            r == Self::decode(b),
    {
        if b == 0x01 {
            MicPosition::Far
        } else {
            MicPosition::Near
        }
    }

    pub fn label(&self) -> (r: &'static str)
        ensures
            r@ == self.label_text(),
    {
        match self {
            MicPosition::Near => "Near",
            MicPosition::Far => "Far",
        }
    }
}

/// Tone character preset for Auto Level mode.
#[derive(Debug, Clone, Copy, PartialEq, Eq, Structural)]
pub enum AutoTone {
    Dark,
    Natural,
    Bright,
}

impl AutoTone {
    pub open spec fn succ(self) -> AutoTone {
        match self {
            AutoTone::Dark => AutoTone::Natural,
            AutoTone::Natural => AutoTone::Bright,
            AutoTone::Bright => AutoTone::Dark,
        }
    }

    pub open spec fn code(self) -> u8 {
        match self {
            AutoTone::Dark => 0x00,
            AutoTone::Natural => 0x01,
            AutoTone::Bright => 0x02,
        }
    }

    /// Unknown bytes fall back to `Natural`.
    pub open spec fn decode(b: u8) -> AutoTone {
        if b == 0x00 {
            AutoTone::Dark
        } else if b == 0x02 {
            AutoTone::Bright
        } else {
            AutoTone::Natural
        }
    }

    pub open spec fn label_text(self) -> Seq<char> {
        match self {
            AutoTone::Dark => "Dark"@,
            AutoTone::Natural => "Natural"@,
            AutoTone::Bright => "Bright"@,
        }
    }

    pub fn cycle_next(&self) -> (r: Self)
        ensures
            r == self.succ(),
    {
        match self {
            AutoTone::Dark => AutoTone::Natural,
            AutoTone::Natural => AutoTone::Bright,
            AutoTone::Bright => AutoTone::Dark,
        }
    }

    pub fn as_byte(&self) -> (r: u8)
        ensures
            r == self.code(),
    {
        match self {
            AutoTone::Dark => 0x00,
            AutoTone::Natural => 0x01,
            AutoTone::Bright => 0x02,
        }
    }

    pub fn from_byte(b: u8) -> (r: Self)
        ensures
            r == Self::decode(b),
    {
        if b == 0x00 {
            AutoTone::Dark
        } else if b == 0x02 {
            AutoTone::Bright
        } else {
            AutoTone::Natural
        }
    }

    pub fn label(&self) -> (r: &'static str)
        ensures
            r@ == self.label_text(),
    {
        match self {
            AutoTone::Dark => "Dark",
            AutoTone::Natural => "Natural",
            AutoTone::Bright => "Bright",
        }
    }
}

/// Gain sensitivity preset for Auto Level mode.
#[derive(Debug, Clone, Copy, PartialEq, Eq, Structural)]
pub enum AutoGain {
    /// For quiet environments or soft-spoken voices.
    Quiet,
    /// Default setting for typical speech levels.
    Normal,
    /// For loud environments or strong voices.
    Loud,
}

/// The big-endian value of four bytes.
pub open spec fn be_u32(b0: u8, b1: u8, b2: u8, b3: u8) -> int {
    b0 * 16777216 + b1 * 65536 + b2 * 256 + b3
}

impl AutoGain {
    pub open spec fn succ(self) -> AutoGain {
        match self {
            AutoGain::Quiet => AutoGain::Normal,
            AutoGain::Normal => AutoGain::Loud,
            AutoGain::Loud => AutoGain::Quiet,
        }
    }

    pub open spec fn code(self) -> u8 {
        match self {
            AutoGain::Quiet => 0,
            AutoGain::Normal => 1,
            AutoGain::Loud => 2,
        }
    }

    /// The 4-byte big-endian wire encoding.
    pub open spec fn wire(self) -> Seq<u8> {
        seq![0u8, 0u8, 0u8, self.code()]
    }

    /// Decoding of a numeric value: unknown values fall back to `Normal`.
    pub open spec fn decode_value(v: int) -> AutoGain {
        if v == 0 {
            AutoGain::Quiet
        } else if v == 2 {
            AutoGain::Loud
        } else {
            AutoGain::Normal
        }
    }

    /// Decoding of the wire bytes: four or more bytes are read as a big-endian
    /// value, shorter non-empty input by its first byte, empty input as `Normal`.
    pub open spec fn decode(bytes: Seq<u8>) -> AutoGain {
        if bytes.len() >= 4 {
            Self::decode_value(be_u32(bytes[0], bytes[1], bytes[2], bytes[3]))
        } else if bytes.len() > 0 {
            Self::decode_value(bytes[0] as int)
        } else {
            AutoGain::Normal
        }
    }

    pub open spec fn label_text(self) -> Seq<char> {
        match self {
            AutoGain::Quiet => "Quiet"@,
            AutoGain::Normal => "Normal"@,
            AutoGain::Loud => "Loud"@,
        }
    }

    pub fn cycle_next(&self) -> (r: Self)
        ensures
            r == self.succ(),
    {
        match self {
            AutoGain::Quiet => AutoGain::Normal,
            AutoGain::Normal => AutoGain::Loud,
            AutoGain::Loud => AutoGain::Quiet,
        }
    }

    /// Encodes as a 4-byte big-endian value.
    pub fn as_be_bytes(&self) -> (r: [u8; 4])
        ensures
            r@ == self.wire(),
    {
        let v: u8 = match self {
            AutoGain::Quiet => 0,
            AutoGain::Normal => 1,
            AutoGain::Loud => 2,
        };
        let r = [0u8, 0u8, 0u8, v];
        assert(r@ =~= self.wire());
        r
    }

    /// Accepts both the 4-byte and a 1-byte representation.
    pub fn from_be_bytes(bytes: &[u8]) -> (r: Self)
        ensures
            r == Self::decode(bytes@),
    {
        let v: u32 = if bytes.len() >= 4 {
            (bytes[0] as u32) * 16777216 + (bytes[1] as u32) * 65536 + (bytes[2] as u32) * 256
                + (bytes[3] as u32)
        } else if bytes.len() > 0 {
            bytes[0] as u32
        } else {
            return AutoGain::Normal;
        };
        if v == 0 {
            AutoGain::Quiet
        } else if v == 2 {
            AutoGain::Loud
        } else {
            AutoGain::Normal
        }
    }

    pub fn label(&self) -> (r: &'static str)
        ensures
            r@ == self.label_text(),
    {
        match self {
            AutoGain::Quiet => "Quiet",
            AutoGain::Normal => "Normal",
            AutoGain::Loud => "Loud",
        }
    }
}

#[derive(Debug, Clone, Copy, PartialEq, Eq, Structural)]
pub enum CompressorPreset {
    Off,
    Light,
    Medium,
    Heavy,
}

impl CompressorPreset {
    pub open spec fn succ(self) -> CompressorPreset {
        match self {
            CompressorPreset::Off => CompressorPreset::Light,
            CompressorPreset::Light => CompressorPreset::Medium,
            CompressorPreset::Medium => CompressorPreset::Heavy,
            CompressorPreset::Heavy => CompressorPreset::Off,
        }
    }

    pub open spec fn code(self) -> u8 {
        match self {
            CompressorPreset::Off => 0x00,
            CompressorPreset::Light => 0x01,
            CompressorPreset::Medium => 0x02,
            CompressorPreset::Heavy => 0x03,
        }
    }

    /// Unknown bytes fall back to `Off`.
    pub open spec fn decode(b: u8) -> CompressorPreset {
        if b == 0x01 {
            CompressorPreset::Light
        } else if b == 0x02 {
            CompressorPreset::Medium
        } else if b == 0x03 {
            CompressorPreset::Heavy
        } else {
            CompressorPreset::Off
        }
    }

    pub open spec fn label_text(self) -> Seq<char> {
        match self {
            CompressorPreset::Off => "Off"@,
            CompressorPreset::Light => "Light"@,
            CompressorPreset::Medium => "Medium"@,
            CompressorPreset::Heavy => "Heavy"@,
        }
    }

    pub fn cycle_next(&self) -> (r: Self)
        ensures
            r == self.succ(),
    {
        match self {
            CompressorPreset::Off => CompressorPreset::Light,
            CompressorPreset::Light => CompressorPreset::Medium,
            CompressorPreset::Medium => CompressorPreset::Heavy,
            CompressorPreset::Heavy => CompressorPreset::Off,
        }
    }

    pub fn as_byte(&self) -> (r: u8)
        ensures
            r == self.code(),
    {
        match self {
            CompressorPreset::Off => 0x00,
            CompressorPreset::Light => 0x01,
            CompressorPreset::Medium => 0x02,
            CompressorPreset::Heavy => 0x03,
        }
    }

    pub fn from_byte(b: u8) -> (r: Self)
        ensures
            r == Self::decode(b),
    {
        if b == 0x01 {
            CompressorPreset::Light
        } else if b == 0x02 {
            CompressorPreset::Medium
        } else if b == 0x03 {
            CompressorPreset::Heavy
        } else {
            CompressorPreset::Off
        }
    }

    pub fn label(&self) -> (r: &'static str)
        ensures
            r@ == self.label_text(),
    {
        match self {
            CompressorPreset::Off => "Off",
            CompressorPreset::Light => "Light",
            CompressorPreset::Medium => "Medium",
            CompressorPreset::Heavy => "Heavy",
        }
    }
}

#[derive(Debug, Clone, Copy, PartialEq, Eq, Structural)]
pub enum HpfFrequency {
    Off,
    Hz75,
    Hz150,
}

impl HpfFrequency {
    pub open spec fn succ(self) -> HpfFrequency {
        match self {
            HpfFrequency::Off => HpfFrequency::Hz75,
            HpfFrequency::Hz75 => HpfFrequency::Hz150,
            HpfFrequency::Hz150 => HpfFrequency::Off,
        }
    }

    pub open spec fn code(self) -> u8 {
        match self {
            HpfFrequency::Off => 0x00,
            HpfFrequency::Hz75 => 0x01,
            HpfFrequency::Hz150 => 0x02,
        }
    }

    /// Unknown bytes fall back to `Off`.
    pub open spec fn decode(b: u8) -> HpfFrequency {
        if b == 0x01 {
            HpfFrequency::Hz75
        } else if b == 0x02 {
            HpfFrequency::Hz150
        } else {
            HpfFrequency::Off
        }
    }

    pub open spec fn label_text(self) -> Seq<char> {
        match self {
            HpfFrequency::Off => "Off"@,
            HpfFrequency::Hz75 => "75 Hz"@,
            HpfFrequency::Hz150 => "150 Hz"@,
        }
    }

    pub fn cycle_next(&self) -> (r: Self)
        ensures
            r == self.succ(),
    {
        match self {
            HpfFrequency::Off => HpfFrequency::Hz75,
            HpfFrequency::Hz75 => HpfFrequency::Hz150,
            HpfFrequency::Hz150 => HpfFrequency::Off,
        }
    }

    pub fn as_byte(&self) -> (r: u8)
        ensures
            r == self.code(),
    {
        match self {
            HpfFrequency::Off => 0x00,
            HpfFrequency::Hz75 => 0x01,
            HpfFrequency::Hz150 => 0x02,
        }
    }

    pub fn from_byte(b: u8) -> (r: Self)
        ensures
            r == Self::decode(b),
    {
        if b == 0x01 {
            HpfFrequency::Hz75
        } else if b == 0x02 {
            HpfFrequency::Hz150
        } else {
            HpfFrequency::Off
        }
    }

    pub fn label(&self) -> (r: &'static str)
        ensures
            r@ == self.label_text(),
    {
        match self {
            HpfFrequency::Off => "Off",
            HpfFrequency::Hz75 => "75 Hz",
            HpfFrequency::Hz150 => "150 Hz",
        }
    }
}


// ── Settings of the newer models, carried in presets ─────────────────────────
#[derive(Debug, Clone, Copy, PartialEq, Eq, Structural)]
pub enum ReverbType {
    Plate,
    Hall,
    Studio,
}

impl ReverbType {
    pub open spec fn label_text(self) -> Seq<char> {
        match self {
            ReverbType::Plate => "Plate"@,
            ReverbType::Hall => "Hall"@,
            ReverbType::Studio => "Studio"@,
        }
    }

    pub fn label(&self) -> (r: &'static str)
        ensures
            r@ == self.label_text(),
    {
        match self {
            ReverbType::Plate => "Plate",
            ReverbType::Hall => "Hall",
            ReverbType::Studio => "Studio",
        }
    }
}

#[derive(Debug, Clone, Copy, PartialEq, Eq, Structural)]
pub enum LedBehavior {
    Live,
    Pulsing,
    Solid,
}

#[derive(Debug, Clone, Copy, PartialEq, Eq, Structural)]
pub enum LedBrightness {
    Low,
    Med,
    High,
    Max,
}

#[derive(Debug, Clone, Copy, PartialEq, Eq, Structural)]
pub enum LedLiveTheme {
    Default,
    Seaside,
    Space,
    Fruity,
    Custom,
}

#[derive(Debug, Clone, Copy, PartialEq, Eq, Structural)]
pub enum LedSolidTheme {
    Shure,
    Custom,
}

#[derive(Debug, Clone, Copy, PartialEq, Eq, Structural)]
pub enum LedPulsingTheme {
    Shure,
    Custom,
}

/// The supported microphone models.
#[derive(Debug, Clone, Copy, PartialEq, Eq, Structural)]
pub enum DeviceModel {
    Mvx2u,
    Mv6,
    Mv7Plus,
    Mvx2uGen2,
}

impl DeviceModel {
    pub open spec fn gain_limit(self) -> u8 {
        match self {
            DeviceModel::Mv6 => 36,
            _ => 60,
        }
    }

    /// Largest manual gain the model accepts: 36 dB on the MV6, otherwise the
    /// protocol's own 60 dB limit.
    pub fn max_gain_db(&self) -> (r: u8)
        ensures
            r == self.gain_limit(),
    {
        match self {
            DeviceModel::Mv6 => 36,
            _ => 60,
        }
    }

    /// The model a supported product ID stands for (the MV6 by its own ID,
    /// the MVX2U otherwise).
    pub fn from_pid(pid: u16) -> (r: Self)
        ensures
            r == (if pid == MV6_PID { DeviceModel::Mv6 } else { DeviceModel::Mvx2u }),
    {
        if pid == MV6_PID {
            DeviceModel::Mv6
        } else {
            DeviceModel::Mvx2u
        }
    }
}

/// Whether a HID vendor/product pair is a supported Shure device.
pub fn is_supported_device(vendor_id: u16, product_id: u16) -> (r: bool)
    ensures
        r == (vendor_id == VID && (product_id == PID || product_id == MV6_PID)),
{
    vendor_id == VID && (product_id == PID || product_id == MV6_PID)
}

/// One of the 5 parametric EQ bands.
///
/// Center frequencies are fixed by hardware: 100, 250, 1000, 4000, 10000 Hz.
/// Only gain (−8 to +6 dB in steps of 2) and enabled/disabled are settable.
#[derive(Debug, Clone, Copy, PartialEq, Eq, Structural)]
pub struct EqBand {
    /// Gain in dB, range −8 to +6 in steps of 2.
    pub gain_db: i8,
    /// Whether this band is active.
    pub enabled: bool,
}

impl Default for EqBand {
    fn default() -> (b: Self)
        ensures
            b == (EqBand { gain_db: 0, enabled: false }),
    {
        EqBand { gain_db: 0, enabled: false }
    }
}

// ── Device state (fully decoded) ──────────────────────────────────────────────
#[derive(Debug, Clone, PartialEq)]
pub struct DeviceState {
    /// Manual gain in dB, range 0–60.
    pub gain_db: u8,
    pub mode: InputMode,
    /// Mic position for Auto Level mode.
    pub auto_position: MicPosition,
    /// Tone preset for Auto Level mode.
    pub auto_tone: AutoTone,
    /// Gain preset for Auto Level mode.
    pub auto_gain: AutoGain,
    pub muted: bool,
    pub phantom_power: bool,
    /// Monitor mix: 0 = 100% mic, 100 = 100% playback.
    pub monitor_mix: u8,
    pub limiter_enabled: bool,
    pub compressor: CompressorPreset,
    pub hpf: HpfFrequency,
    pub eq_enabled: bool,
    /// 5 EQ bands at fixed frequencies (100, 250, 1k, 4k, 10k Hz).
    pub eq_bands: [EqBand; 5],
    /// Whether the device configuration is locked against changes.
    pub locked: bool,
    pub denoiser_enabled: bool,
    pub popper_stopper_enabled: bool,
    pub mute_btn_disabled: bool,
    /// Tone: -10 (100% Dark) to +10 (100% Bright), 0 = Natural.
    pub tone: i8,
    pub mv6_gain_locked: bool,
    /// Independent playback mix channel: 0 = full mic, 100 = full playback.
    pub playback_mix: u8,
    pub reverb_on_output: bool,
    pub reverb_monitoring: bool,
    pub reverb_type: ReverbType,
    pub reverb_intensity: u8,
    pub led_behavior: LedBehavior,
    pub led_brightness: LedBrightness,
    pub led_live_theme: LedLiveTheme,
    pub led_solid_theme: LedSolidTheme,
    pub led_pulsing_theme: LedPulsingTheme,
    pub led_solid_rgb: [u8; 3],
    pub led_pulsing_rgb: [u8; 3],
    pub led_live_edge_rgb: [u8; 3],
    pub led_live_middle_rgb: [u8; 3],
    pub led_live_interior_rgb: [u8; 3],
    /// Device serial number string, populated after connection.
    pub serial_number: String,
    /// Device firmware version string, "Unknown" until one is read.
    pub firmware_version: String,
}

/// The factory state: 36 dB gain in Auto Level mode with neutral presets,
/// everything switched off, the popper stopper on, reverb Plate at 50%,
/// live LEDs at high brightness, serial number and firmware version "Unknown".
pub open spec fn is_factory_state(s: DeviceState) -> bool {
    &&& s.gain_db == 36
    &&& s.mode == InputMode::Auto
    &&& s.auto_position == MicPosition::Near
    &&& s.auto_tone == AutoTone::Natural
    &&& s.auto_gain == AutoGain::Normal
    &&& !s.muted
    &&& !s.phantom_power
    &&& s.monitor_mix == 0
    &&& !s.limiter_enabled
    &&& s.compressor == CompressorPreset::Off
    &&& s.hpf == HpfFrequency::Off
    &&& !s.eq_enabled
    &&& forall|i: int| 0 <= i < 5 ==> #[trigger] s.eq_bands[i] == (EqBand { gain_db: 0, enabled: false })
    &&& !s.locked
    &&& !s.denoiser_enabled
    &&& s.popper_stopper_enabled
    &&& !s.mute_btn_disabled
    &&& s.tone == 0
    &&& !s.mv6_gain_locked
    &&& s.playback_mix == 0
    &&& !s.reverb_on_output
    &&& !s.reverb_monitoring
    &&& s.reverb_type == ReverbType::Plate
    &&& s.reverb_intensity == 50
    &&& s.led_behavior == LedBehavior::Live
    &&& s.led_brightness == LedBrightness::High
    &&& s.led_live_theme == LedLiveTheme::Default
    &&& s.led_solid_theme == LedSolidTheme::Shure
    &&& s.led_pulsing_theme == LedPulsingTheme::Shure
    &&& s.led_solid_rgb@ == seq![0xB2u8, 0xFFu8, 0x33u8]
    &&& s.led_pulsing_rgb@ == seq![0x10u8, 0x3Fu8, 0xFBu8]
    &&& s.led_live_edge_rgb@ == seq![0xFFu8, 0xFFu8, 0xFFu8]
    &&& s.led_live_middle_rgb@ == seq![0x1Fu8, 0x1Fu8, 0x1Fu8]
    &&& s.led_live_interior_rgb@ == seq![0x00u8, 0x00u8, 0x00u8]
    &&& s.serial_number@ == "Unknown"@
    &&& s.firmware_version@ == "Unknown"@
}

impl Default for DeviceState {
    fn default() -> (s: Self)
        ensures
            is_factory_state(s),
    {
        let band = EqBand { gain_db: 0, enabled: false };
        let s = DeviceState {
            gain_db: 36,
            mode: InputMode::Auto,
            auto_position: MicPosition::Near,
            auto_tone: AutoTone::Natural,
            auto_gain: AutoGain::Normal,
            muted: false,
            phantom_power: false,
            monitor_mix: 0,
            limiter_enabled: false,
            compressor: CompressorPreset::Off,
            hpf: HpfFrequency::Off,
            eq_enabled: false,
            eq_bands: [band, band, band, band, band],
            locked: false,
            denoiser_enabled: false,
            popper_stopper_enabled: true,
            mute_btn_disabled: false,
            tone: 0,
            mv6_gain_locked: false,
            playback_mix: 0,
            reverb_on_output: false,
            reverb_monitoring: false,
            reverb_type: ReverbType::Plate,
            reverb_intensity: 50,
            led_behavior: LedBehavior::Live,
            led_brightness: LedBrightness::High,
            led_live_theme: LedLiveTheme::Default,
            led_solid_theme: LedSolidTheme::Shure,
            led_pulsing_theme: LedPulsingTheme::Shure,
            led_solid_rgb: [0xB2, 0xFF, 0x33],
            led_pulsing_rgb: [0x10, 0x3F, 0xFB],
            led_live_edge_rgb: [0xFF, 0xFF, 0xFF],
            led_live_middle_rgb: [0x1F, 0x1F, 0x1F],
            led_live_interior_rgb: [0x00, 0x00, 0x00],
            serial_number: String::from_str("Unknown"),
            firmware_version: String::from_str("Unknown"),
        };
        assert(s.led_solid_rgb@ =~= seq![0xB2u8, 0xFFu8, 0x33u8]);
        assert(s.led_pulsing_rgb@ =~= seq![0x10u8, 0x3Fu8, 0xFBu8]);
        assert(s.led_live_edge_rgb@ =~= seq![0xFFu8, 0xFFu8, 0xFFu8]);
        assert(s.led_live_middle_rgb@ =~= seq![0x1Fu8, 0x1Fu8, 0x1Fu8]);
        assert(s.led_live_interior_rgb@ =~= seq![0x00u8, 0x00u8, 0x00u8]);
        s
    }
}

// ── CRC-16/ANSI ───────────────────────────────────────────────────────────────
/// `n` rounds of the reflected CRC-16/ANSI shift register (poly 0x8005
/// reflected to 0xA001), consuming the low bits of `b` first.
pub open spec fn crc_rounds(crc: u16, b: u8, n: nat) -> u16
    decreases n,
{
    if n == 0 {
        crc
    } else {
        let bit = (crc ^ (b as u16)) & 1u16;
        let shifted = crc >> 1u16;
        let next = if bit != 0 {
            shifted ^ 0xA001u16
        } else {
            shifted
        };
        crc_rounds(next, b >> 1u8, (n - 1) as nat)
    }
}

/// One byte fed into the CRC register.
pub open spec fn crc_update(crc: u16, b: u8) -> u16 {
    crc_rounds(crc, b, 8)
}

/// CRC-16/ANSI (ARC): init 0x0000, reflected input and output, no final xor.
pub open spec fn crc16(data: Seq<u8>) -> u16
    decreases data.len(),
{
    if data.len() == 0 {
        0
    } else {
        crc_update(crc16(data.drop_last()), data.last())
    }
}

/// CRC-16/ANSI: poly 0x8005, init 0x0000, reflected input and output.
pub fn crc16_ansi(data: &[u8]) -> (crc: u16)
    ensures
        crc == crc16(data@),
{
    let mut crc: u16 = 0x0000;
    let mut i: usize = 0;
    while i < data.len()
        invariant
            i <= data@.len(),
            crc == crc16(data@.subrange(0, i as int)),
        decreases data@.len() - i,
    {
        let byte = data[i];
        let ghost start = crc;
        let mut b: u8 = byte;
        let mut k: u8 = 0;
        while k < 8
            invariant
                k <= 8,
                crc_update(start, byte) == crc_rounds(crc, b, (8 - k) as nat),
            decreases 8 - k,
        {
            let bit = (crc ^ (b as u16)) & 1u16;
            crc = crc >> 1u16;
            if bit != 0 {
                crc = crc ^ 0xA001u16;
            }
            b = b >> 1u8;
            k = k + 1;
        }
        proof {
            let s = data@.subrange(0, i + 1);
            assert(s.drop_last() =~= data@.subrange(0, i as int));
            assert(s.last() == byte);
        }
        i = i + 1;
    }
    proof {
        assert(data@.subrange(0, data@.len() as int) =~= data@);
    }
    crc
}


// ── Packet builder ────────────────────────────────────────────────────────────
/// The framed content after the report ID and length byte, before the CRC:
/// `[0x11][0x22][seq][0x03][0x08][data_len][0x70][data_len][cmd...][payload...]`.
pub open spec fn frame_inner(seq: u8, cmd: Seq<u8>, payload: Seq<u8>) -> Seq<u8> {
    let data_len = (payload.len() + 5) as u8;
    seq![0x11u8, 0x22u8, seq, 0x03u8, 0x08u8, data_len, 0x70u8, data_len] + cmd + payload
}

/// `n` zero bytes.
pub open spec fn zeros(n: nat) -> Seq<u8> {
    Seq::new(n, |i: int| 0u8)
}

/// The complete 64-byte packet: report ID, length, framed content, the
/// CRC-16/ANSI of the framed content (high byte first), zero padding.
pub open spec fn packet(seq: u8, cmd: Seq<u8>, payload: Seq<u8>) -> Seq<u8> {
    let inner = frame_inner(seq, cmd, payload);
    let crc = crc16(inner);
    let body = seq![REPORT_ID, (inner.len() + 2) as u8] + inner + seq![
        (crc / 256) as u8,
        (crc % 256) as u8,
    ];
    body + zeros((64 - body.len()) as nat)
}

/// Build a 64-byte packet ready for a HID write.
///
/// `seq` is the per-packet sequence number, `cmd` the 3-byte command and
/// `payload` the prefix byte, feature address and optional value bytes.
/// The CRC covers everything from the header magic to the end of the payload.
pub(crate) fn build_packet(seq: u8, cmd: &[u8; 3], payload: &[u8]) -> (pkt: Vec<u8>)
    requires
        payload@.len() <= 49,
    ensures
        pkt@ == packet(seq, cmd@, payload@),
        pkt@.len() == PACKET_SIZE,
{
    let data_len = (3 + payload.len() + 2) as u8;
    let mut inner: Vec<u8> = Vec::with_capacity(PACKET_SIZE);
    inner.push(HEADER_MAGIC[0]);
    inner.push(HEADER_MAGIC[1]);
    inner.push(seq);
    inner.push(HDR_CONSTANT);
    inner.push(HDR_END);
    inner.push(data_len);
    inner.push(DATA_START);
    inner.push(data_len);
    inner.push(cmd[0]);
    inner.push(cmd[1]);
    inner.push(cmd[2]);
    let mut i: usize = 0;
    while i < payload.len()
        invariant
            i <= payload@.len(),
            payload@.len() <= 49,
            inner@ =~= seq![0x11u8, 0x22u8, seq, 0x03u8, 0x08u8, data_len, 0x70u8, data_len]
                + cmd@ + payload@.subrange(0, i as int),
        decreases payload@.len() - i,
    {
        inner.push(payload[i]);
        i = i + 1;
    }
    assert(payload@.subrange(0, payload@.len() as int) =~= payload@);
    assert(inner@ =~= frame_inner(seq, cmd@, payload@));

    let total_len = (inner.len() + 2) as u8;
    let crc = crc16_ansi(inner.as_slice());
    let hi = (crc >> 8u16) as u8;
    let lo = (crc & 0xFFu16) as u8;
    assert(crc >> 8u16 == crc / 256) by (bit_vector);
    assert(crc & 0xFFu16 == crc % 256) by (bit_vector);

    let mut pkt: Vec<u8> = Vec::with_capacity(PACKET_SIZE);
    pkt.push(REPORT_ID);
    pkt.push(total_len);
    let mut j: usize = 0;
    while j < inner.len()
        invariant
            j <= inner@.len(),
            pkt@ =~= seq![REPORT_ID, total_len] + inner@.subrange(0, j as int),
        decreases inner@.len() - j,
    {
        pkt.push(inner[j]);
        j = j + 1;
    }
    assert(inner@.subrange(0, inner@.len() as int) =~= inner@);
    pkt.push(hi);
    pkt.push(lo);
    let ghost body = pkt@;
    while pkt.len() < PACKET_SIZE
        invariant
            body.len() <= pkt@.len() <= PACKET_SIZE,
            pkt@ =~= body + zeros((pkt@.len() - body.len()) as nat),
        decreases PACKET_SIZE - pkt@.len(),
    {
        pkt.push(0x00);
    }
    pkt
}

// ── Command constructors ──────────────────────────────────────────────────────
/// The prefix byte of a feature's payload: 0x01 for the monitor mix, 0x00 otherwise.
pub open spec fn mix_flag(f0: u8, f1: u8) -> u8 {
    if f0 == FEAT_MIX[0] && f1 == FEAT_MIX[1] {
        1
    } else {
        0
    }
}

/// A GET packet with the given payload prefix byte and feature address.
pub open spec fn get_packet(seq: u8, prefix: u8, f0: u8, f1: u8) -> Seq<u8> {
    packet(seq, CMD_GET_FEAT@, seq![prefix, f0, f1])
}

/// A SET packet: the feature's prefix byte, its address and the value bytes.
pub open spec fn set_packet(seq: u8, f0: u8, f1: u8, value: Seq<u8>) -> Seq<u8> {
    packet(seq, CMD_SET_FEAT@, seq![mix_flag(f0, f1), f0, f1] + value)
}

/// One byte for a boolean: 1 for true, 0 for false.
pub open spec fn bool_byte(b: bool) -> u8 {
    if b {
        1
    } else {
        0
    }
}

/// Low address byte of the enable feature of EQ band `band` (page 0x02).
pub open spec fn eq_enable_lo(band: int) -> u8 {
    ((band + 1) * 16) as u8
}

/// Low address byte of the gain feature of EQ band `band` (page 0x02).
pub open spec fn eq_gain_lo(band: int) -> u8 {
    ((band + 1) * 16 + 4) as u8
}

/// Feature address of the enable switch of EQ band `band` (0–4).
pub fn eq_band_enable_addr(band: usize) -> (a: [u8; 2])
    requires
        band < EQ_BAND_COUNT,
    ensures
        a[0] == 0x02,
        a[1] == eq_enable_lo(band as int),
{
    let lo: u8 = ((band as u8) + 1) * 16;
    [0x02, lo]
}

/// Feature address of the gain of EQ band `band` (0–4).
pub fn eq_band_gain_addr(band: usize) -> (a: [u8; 2])
    requires
        band < EQ_BAND_COUNT,
    ensures
        a[0] == 0x02,
        a[1] == eq_gain_lo(band as int),
{
    let lo: u8 = ((band as u8) + 1) * 16 + 4;
    [0x02, lo]
}

/// Build a GET packet for a single feature (prefix byte 0x00).
fn cmd_get(seq: u8, feat_addr: &[u8; 2]) -> (pkt: Vec<u8>)
    ensures
        pkt@ == get_packet(seq, 0, feat_addr[0], feat_addr[1]),
{
    let payload = [0x00, feat_addr[0], feat_addr[1]];
    assert(payload@ =~= seq![0u8, feat_addr[0], feat_addr[1]]);
    build_packet(seq, &CMD_GET_FEAT, &payload)
}

/// Build a SET packet for a feature with a value payload.
fn cmd_set(seq: u8, feat_addr: &[u8; 2], value: &[u8]) -> (pkt: Vec<u8>)
    requires
        value@.len() <= 4,
    ensures
        pkt@ == set_packet(seq, feat_addr[0], feat_addr[1], value@),
{
    let is_mix: u8 = if feat_addr[0] == FEAT_MIX[0] && feat_addr[1] == FEAT_MIX[1] {
        0x01
    } else {
        0x00
    };
    let mut payload: Vec<u8> = Vec::with_capacity(8);
    payload.push(is_mix);
    payload.push(feat_addr[0]);
    payload.push(feat_addr[1]);
    let mut i: usize = 0;
    while i < value.len()
        invariant
            i <= value@.len(),
            payload@ =~= seq![is_mix, feat_addr[0], feat_addr[1]] + value@.subrange(0, i as int),
        decreases value@.len() - i,
    {
        payload.push(value[i]);
        i = i + 1;
    }
    assert(value@.subrange(0, value@.len() as int) =~= value@);
    build_packet(seq, &CMD_SET_FEAT, payload.as_slice())
}

/// Build a CONFIRM packet (must follow every SET).
pub fn cmd_confirm(seq: u8) -> (pkt: Vec<u8>)
    ensures
        pkt@ == packet(seq, CMD_CONFIRM@, Seq::<u8>::empty()),
{
    let empty: [u8; 0] = [];
    assert(empty@ =~= Seq::<u8>::empty());
    build_packet(seq, &CMD_CONFIRM, &empty)
}

// ── Public GET constructors ───────────────────────────────────────────────────
pub fn cmd_get_gain(seq: u8) -> (pkt: Vec<u8>)
    ensures
        pkt@ == get_packet(seq, 0, FEAT_GAIN[0], FEAT_GAIN[1]),
{
    cmd_get(seq, &FEAT_GAIN)
}

pub fn cmd_get_mute(seq: u8) -> (pkt: Vec<u8>)
    ensures
        pkt@ == get_packet(seq, 0, FEAT_MUTE[0], FEAT_MUTE[1]),
{
    cmd_get(seq, &FEAT_MUTE)
}

pub fn cmd_get_hpf(seq: u8) -> (pkt: Vec<u8>)
    ensures
        pkt@ == get_packet(seq, 0, FEAT_HPF[0], FEAT_HPF[1]),
{
    cmd_get(seq, &FEAT_HPF)
}

pub fn cmd_get_limiter(seq: u8) -> (pkt: Vec<u8>)
    ensures
        pkt@ == get_packet(seq, 0, FEAT_LIMITER[0], FEAT_LIMITER[1]),
{
    cmd_get(seq, &FEAT_LIMITER)
}

pub fn cmd_get_compressor(seq: u8) -> (pkt: Vec<u8>)
    ensures
        pkt@ == get_packet(seq, 0, FEAT_COMP[0], FEAT_COMP[1]),
{
    cmd_get(seq, &FEAT_COMP)
}

pub fn cmd_get_phantom(seq: u8) -> (pkt: Vec<u8>)
    ensures
        pkt@ == get_packet(seq, 0, FEAT_PHANTOM[0], FEAT_PHANTOM[1]),
{
    cmd_get(seq, &FEAT_PHANTOM)
}

pub fn cmd_get_mode(seq: u8) -> (pkt: Vec<u8>)
    ensures
        pkt@ == get_packet(seq, 0, FEAT_AUTO[0], FEAT_AUTO[1]),
{
    cmd_get(seq, &FEAT_AUTO)
}

pub fn cmd_get_auto_position(seq: u8) -> (pkt: Vec<u8>)
    ensures
        pkt@ == get_packet(seq, 0, FEAT_AUTO_POSITION[0], FEAT_AUTO_POSITION[1]),
{
    cmd_get(seq, &FEAT_AUTO_POSITION)
}

pub fn cmd_get_auto_tone(seq: u8) -> (pkt: Vec<u8>)
    ensures
        pkt@ == get_packet(seq, 0, FEAT_AUTO_TONE[0], FEAT_AUTO_TONE[1]),
{
    cmd_get(seq, &FEAT_AUTO_TONE)
}

pub fn cmd_get_auto_gain(seq: u8) -> (pkt: Vec<u8>)
    ensures
        pkt@ == get_packet(seq, 0, FEAT_AUTO_GAIN[0], FEAT_AUTO_GAIN[1]),
{
    cmd_get(seq, &FEAT_AUTO_GAIN)
}

/// The monitor mix needs prefix 0x01 in its GET payload too.
pub fn cmd_get_mix(seq: u8) -> (pkt: Vec<u8>)
    ensures
        pkt@ == get_packet(seq, 1, FEAT_MIX[0], FEAT_MIX[1]),
{
    let payload = [0x01, FEAT_MIX[0], FEAT_MIX[1]];
    assert(payload@ =~= seq![1u8, FEAT_MIX[0], FEAT_MIX[1]]);
    build_packet(seq, &CMD_GET_FEAT, &payload)
}

pub fn cmd_get_eq_enable(seq: u8) -> (pkt: Vec<u8>)
    ensures
        pkt@ == get_packet(seq, 0, FEAT_EQ[0], FEAT_EQ[1]),
{
    cmd_get(seq, &FEAT_EQ)
}

// ── Lock command constructors ─────────────────────────────────────────────────
// Lock uses its own command pair and the payload prefix byte 0x06.

/// GET packet for the config-lock feature.
pub fn cmd_get_lock(seq: u8) -> (pkt: Vec<u8>)
    ensures
        pkt@ == packet(seq, CMD_GET_LOCK@, seq![0x06u8, FEAT_LOCK[0], FEAT_LOCK[1]]),
{
    let payload = [0x06, FEAT_LOCK[0], FEAT_LOCK[1]];
    assert(payload@ =~= seq![0x06u8, FEAT_LOCK[0], FEAT_LOCK[1]]);
    build_packet(seq, &CMD_GET_LOCK, &payload)
}

/// SET packet for the config-lock feature: `locked = true` locks the device.
pub fn cmd_set_lock(seq: u8, locked: bool) -> (pkt: Vec<u8>)
    ensures
        pkt@ == setting_packet(seq, Setting::Locked(locked)),
{
    let value: u8 = if locked { 1 } else { 0 };
    let payload = [0x06, FEAT_LOCK[0], FEAT_LOCK[1], value];
    assert(payload@ =~= setting_payload(Setting::Locked(locked)));
    build_packet(seq, &CMD_SET_LOCK, &payload)
}

pub fn cmd_get_eq_band_enable(seq: u8, band: usize) -> (pkt: Vec<u8>)
    requires
        band < EQ_BAND_COUNT,
    ensures
        pkt@ == get_packet(seq, 0, 0x02, eq_enable_lo(band as int)),
{
    cmd_get(seq, &eq_band_enable_addr(band))
}

pub fn cmd_get_eq_band_gain(seq: u8, band: usize) -> (pkt: Vec<u8>)
    requires
        band < EQ_BAND_COUNT,
    ensures
        pkt@ == get_packet(seq, 0, 0x02, eq_gain_lo(band as int)),
{
    cmd_get(seq, &eq_band_gain_addr(band))
}

// ── Public SET constructors ───────────────────────────────────────────────────
/// Big-endian bytes of a manual gain, clamped to 0–60 dB and scaled by 100.
pub open spec fn gain_wire(gain_db: u8) -> Seq<u8> {
    let raw = (if gain_db <= 60 { gain_db as int } else { 60 }) * 100;
    seq![(raw / 256) as u8, (raw % 256) as u8]
}

/// Two's-complement big-endian bytes of a 16-bit value.
pub open spec fn i16_be(raw: int) -> Seq<u8> {
    let u = if raw < 0 { raw + 65536 } else { raw };
    seq![(u / 256) as u8, (u % 256) as u8]
}

/// `v` clamped to `lo..=hi`.
pub open spec fn clamp_int(v: int, lo: int, hi: int) -> int {
    if v < lo {
        lo
    } else if v > hi {
        hi
    } else {
        v
    }
}

/// Bytes of an EQ band gain: clamped to −8..=+6 dB, scaled by 10, signed 16-bit big-endian.
pub open spec fn eq_gain_wire(gain_db: i8) -> Seq<u8> {
    i16_be(clamp_int(gain_db as int, -8, 6) * 10)
}

/// Set manual gain. `gain_db` is clamped to 0–60 and encoded as
/// `gain_db * 100` in 16-bit big-endian.
pub fn cmd_set_gain(seq: u8, gain_db: u8) -> (pkt: Vec<u8>)
    ensures
        pkt@ == setting_packet(seq, Setting::Gain(gain_db)),
{
    let g: u16 = if gain_db <= 60 { gain_db as u16 } else { 60 };
    let raw: u16 = g * 100;
    let bytes = [(raw / 256) as u8, (raw % 256) as u8];
    assert(bytes@ =~= gain_wire(gain_db));
    cmd_set(seq, &FEAT_GAIN, &bytes)
}

pub fn cmd_set_mute(seq: u8, muted: bool) -> (pkt: Vec<u8>)
    ensures
        pkt@ == setting_packet(seq, Setting::Muted(muted)),
{
    let bytes = [if muted { 1u8 } else { 0u8 }];
    assert(bytes@ =~= seq![bool_byte(muted)]);
    cmd_set(seq, &FEAT_MUTE, &bytes)
}

/// Phantom power on is encoded as 0x30 (48 V), off as 0x00.
pub fn cmd_set_phantom(seq: u8, enabled: bool) -> (pkt: Vec<u8>)
    ensures
        pkt@ == setting_packet(seq, Setting::Phantom(enabled)),
{
    let bytes = [if enabled { PHANTOM_ON } else { PHANTOM_OFF }];
    assert(bytes@ =~= seq![if enabled { PHANTOM_ON } else { PHANTOM_OFF }]);
    cmd_set(seq, &FEAT_PHANTOM, &bytes)
}

/// Set input mode. `auto = true` selects Auto Level; `false` selects Manual.
pub fn cmd_set_mode(seq: u8, auto: bool) -> (pkt: Vec<u8>)
    ensures
        pkt@ == setting_packet(
            seq,
            Setting::Mode(if auto { InputMode::Auto } else { InputMode::Manual }),
        ),
{
    let bytes = [if auto { 1u8 } else { 0u8 }];
    assert(bytes@ =~= seq![bool_byte(auto)]);
    cmd_set(seq, &FEAT_AUTO, &bytes)
}

/// Set mic position for Auto Level mode.
pub fn cmd_set_auto_position(seq: u8, position: &MicPosition) -> (pkt: Vec<u8>)
    ensures
        pkt@ == setting_packet(seq, Setting::AutoPosition(*position)),
{
    let bytes = [position.as_byte()];
    assert(bytes@ =~= seq![position.code()]);
    cmd_set(seq, &FEAT_AUTO_POSITION, &bytes)
}

/// Set tone preset for Auto Level mode.
pub fn cmd_set_auto_tone(seq: u8, tone: &AutoTone) -> (pkt: Vec<u8>)
    ensures
        pkt@ == setting_packet(seq, Setting::AutoTone(*tone)),
{
    let bytes = [tone.as_byte()];
    assert(bytes@ =~= seq![tone.code()]);
    cmd_set(seq, &FEAT_AUTO_TONE, &bytes)
}

/// Set gain preset for Auto Level mode (4-byte big-endian value).
pub fn cmd_set_auto_gain(seq: u8, gain: &AutoGain) -> (pkt: Vec<u8>)
    ensures
        pkt@ == setting_packet(seq, Setting::AutoGain(*gain)),
{
    let bytes = gain.as_be_bytes();
    cmd_set(seq, &FEAT_AUTO_GAIN, &bytes)
}

/// Set monitor mix. `mix` is clamped to 0–100 (0=full mic, 100=full playback).
pub fn cmd_set_mix(seq: u8, mix: u8) -> (pkt: Vec<u8>)
    ensures
        pkt@ == setting_packet(seq, Setting::MonitorMix(mix)),
{
    let bytes = [if mix <= 100 { mix } else { 100u8 }];
    assert(bytes@ =~= seq![if mix <= 100 { mix } else { 100u8 }]);
    cmd_set(seq, &FEAT_MIX, &bytes)
}

pub fn cmd_set_limiter(seq: u8, enabled: bool) -> (pkt: Vec<u8>)
    ensures
        pkt@ == setting_packet(seq, Setting::Limiter(enabled)),
{
    let bytes = [if enabled { 1u8 } else { 0u8 }];
    assert(bytes@ =~= seq![bool_byte(enabled)]);
    cmd_set(seq, &FEAT_LIMITER, &bytes)
}

pub fn cmd_set_compressor(seq: u8, preset: &CompressorPreset) -> (pkt: Vec<u8>)
    ensures
        pkt@ == setting_packet(seq, Setting::Compressor(*preset)),
{
    let bytes = [preset.as_byte()];
    assert(bytes@ =~= seq![preset.code()]);
    cmd_set(seq, &FEAT_COMP, &bytes)
}

pub fn cmd_set_hpf(seq: u8, freq: &HpfFrequency) -> (pkt: Vec<u8>)
    ensures
        pkt@ == setting_packet(seq, Setting::Hpf(*freq)),
{
    let bytes = [freq.as_byte()];
    assert(bytes@ =~= seq![freq.code()]);
    cmd_set(seq, &FEAT_HPF, &bytes)
}

pub fn cmd_set_eq_enable(seq: u8, enabled: bool) -> (pkt: Vec<u8>)
    ensures
        pkt@ == setting_packet(seq, Setting::EqEnabled(enabled)),
{
    let bytes = [if enabled { 1u8 } else { 0u8 }];
    assert(bytes@ =~= seq![bool_byte(enabled)]);
    cmd_set(seq, &FEAT_EQ, &bytes)
}

/// Set EQ band enable. `band` is 0–4.
pub fn cmd_set_eq_band_enable(seq: u8, band: usize, enabled: bool) -> (pkt: Vec<u8>)
    requires
        band < EQ_BAND_COUNT,
    ensures
        pkt@ == setting_packet(seq, Setting::EqBandEnabled(band, enabled)),
{
    let bytes = [if enabled { 1u8 } else { 0u8 }];
    assert(bytes@ =~= seq![bool_byte(enabled)]);
    cmd_set(seq, &eq_band_enable_addr(band), &bytes)
}

/// Set EQ band gain. `gain_db` is clamped to −8..+6 and encoded as
/// `gain_db * 10` in 16-bit signed big-endian.
pub fn cmd_set_eq_band_gain(seq: u8, band: usize, gain_db: i8) -> (pkt: Vec<u8>)
    requires
        band < EQ_BAND_COUNT,
    ensures
        pkt@ == setting_packet(seq, Setting::EqBandGain(band, gain_db)),
{
    let clamped: i32 = if gain_db < -8 {
        -8
    } else if gain_db > 6 {
        6
    } else {
        gain_db as i32
    };
    let raw: i32 = clamped * 10;
    let u: i32 = if raw < 0 { raw + 65536 } else { raw };
    let bytes = [(u / 256) as u8, (u % 256) as u8];
    assert(bytes@ =~= eq_gain_wire(gain_db));
    cmd_set(seq, &eq_band_gain_addr(band), &bytes)
}

// ── Response parser ───────────────────────────────────────────────────────────
/// The four response commands that carry a feature address and value.
pub open spec fn is_data_response(c0: u8, c1: u8, c2: u8) -> bool {
    (c0 == 0x03 || c0 == 0x04) && c1 == 0x02 && (c2 == 0x02 || c2 == 0x01)
}

/// What a received report decodes to: `None` when it is shorter than 18
/// bytes, when its length byte points outside the buffer or before the
/// value bytes, when the header magic or the CRC does not match, or when the
/// response command carries no data (such as a CONFIRM); otherwise the two
/// feature address bytes and the value bytes.
pub open spec fn parse_frame(buf: Seq<u8>) -> Option<(u8, u8, Seq<u8>)> {
    if buf.len() < 18 {
        None
    } else {
        let end = buf[1] as int;
        if end + 2 > buf.len() || end < 16 {
            None
        } else if buf[2] != 0x11 || buf[3] != 0x22 {
            None
        } else if crc16(buf.subrange(2, end)) != buf[end] * 256 + buf[end + 1] {
            None
        } else if !is_data_response(buf[10], buf[11], buf[12]) {
            None
        } else {
            Some((buf[14], buf[15], buf.subrange(16, end)))
        }
    }
}

/// Validate a received HID report and extract the feature address and value bytes.
///
/// Returns `None` if the buffer is malformed, the header magic is wrong, the
/// CRC does not match, or the report is not a data response.
pub fn parse_response(buf: &[u8]) -> (res: Option<([u8; 2], Vec<u8>)>)
    ensures
        match res {
            None => parse_frame(buf@) is None,
            Some((feat, value)) => parse_frame(buf@) == Some((feat[0], feat[1], value@)),
        },
{
    if buf.len() < 18 {
        return None;
    }
    let contents_end = buf[1] as usize;
    if contents_end + 2 > buf.len() || contents_end < 16 {
        return None;
    }
    if buf[2] != HEADER_MAGIC[0] || buf[3] != HEADER_MAGIC[1] {
        return None;
    }
    let expected_crc: u16 = (buf[contents_end] as u16) * 256 + buf[contents_end + 1] as u16;
    let actual_crc = crc16_ansi(vstd::slice::slice_subrange(buf, 2, contents_end));
    if actual_crc != expected_crc {
        return None;
    }
    let c0 = buf[10];
    let c1 = buf[11];
    let c2 = buf[12];
    if !((c0 == 0x03 || c0 == 0x04) && c1 == 0x02 && (c2 == 0x02 || c2 == 0x01)) {
        return None;
    }
    let feat_addr: [u8; 2] = [buf[14], buf[15]];
    let value_bytes = vstd::slice::slice_to_vec(vstd::slice::slice_subrange(buf, 16, contents_end));
    Some((feat_addr, value_bytes))
}

// ── Response decoder ──────────────────────────────────────────────────────────
/// Whether `(f0, f1)` is the address `addr`.
pub open spec fn is_addr(f0: u8, f1: u8, addr: [u8; 2]) -> bool {
    f0 == addr[0] && f1 == addr[1]
}

/// The big-endian unsigned value of two bytes.
pub open spec fn be_u16(hi: u8, lo: u8) -> int {
    hi * 256 + lo
}

/// The big-endian two's-complement value of two bytes.
pub open spec fn be_i16(hi: u8, lo: u8) -> int {
    let u = be_u16(hi, lo);
    if u >= 32768 {
        u - 65536
    } else {
        u
    }
}

/// Integer division rounding toward zero.
pub open spec fn div_toward_zero(a: int, d: int) -> int {
    if a >= 0 {
        a / d
    } else {
        -((-a) / d)
    }
}

/// Manual gain decoded from its raw value: `raw / 100`, at most 60.
pub open spec fn gain_from_raw(raw: int) -> u8 {
    let g = raw / 100;
    (if g > 60 {
        60
    } else {
        g
    }) as u8
}

/// EQ band gain decoded from its raw value: `raw / 10` rounded toward zero,
/// clamped to −8..=+6.
pub open spec fn eq_gain_from_raw(raw: int) -> i8 {
    clamp_int(div_toward_zero(raw, 10), -8, 6) as i8
}

/// The EQ band whose enable switch lives at `(f0, f1)`, if any.
pub open spec fn eq_enable_band(f0: u8, f1: u8) -> Option<int> {
    if f0 == 0x02 && f1 % 16 == 0 && 16 <= f1 <= 80 {
        Some(f1 / 16 - 1)
    } else {
        None
    }
}

/// The EQ band whose gain lives at `(f0, f1)`, if any.
pub open spec fn eq_gain_band(f0: u8, f1: u8) -> Option<int> {
    if f0 == 0x02 && f1 % 16 == 4 && 16 <= f1 <= 84 {
        Some(f1 / 16 - 1)
    } else {
        None
    }
}

/// One decoded feature value.
#[derive(Debug, Clone, Copy, PartialEq, Eq, Structural)]
pub enum Setting {
    Locked(bool),
    Gain(u8),
    Muted(bool),
    Hpf(HpfFrequency),
    Limiter(bool),
    Compressor(CompressorPreset),
    Phantom(bool),
    Mode(InputMode),
    AutoPosition(MicPosition),
    AutoTone(AutoTone),
    AutoGain(AutoGain),
    MonitorMix(u8),
    EqEnabled(bool),
    /// Band index (0–4) and switch.
    EqBandEnabled(usize, bool),
    /// Band index (0–4) and gain in dB.
    EqBandGain(usize, i8),
}

/// What the value bytes `v` of feature `(f0, f1)` decode to, or `None` when
/// the feature is unknown or the value too short (two bytes for the manual
/// gain and the EQ band gains, one byte for everything else).
pub open spec fn decode_setting(f0: u8, f1: u8, v: Seq<u8>) -> Option<Setting> {
    let one = v.len() >= 1;
    let two = v.len() >= 2;
    if is_addr(f0, f1, FEAT_LOCK) {
        if one { Some(Setting::Locked(v[0] != 0)) } else { None }
    } else if is_addr(f0, f1, FEAT_GAIN) {
        if two { Some(Setting::Gain(gain_from_raw(be_u16(v[0], v[1])))) } else { None }
    } else if is_addr(f0, f1, FEAT_MUTE) {
        if one { Some(Setting::Muted(v[0] != 0)) } else { None }
    } else if is_addr(f0, f1, FEAT_HPF) {
        if one { Some(Setting::Hpf(HpfFrequency::decode(v[0]))) } else { None }
    } else if is_addr(f0, f1, FEAT_LIMITER) {
        if one { Some(Setting::Limiter(v[0] != 0)) } else { None }
    } else if is_addr(f0, f1, FEAT_COMP) {
        if one { Some(Setting::Compressor(CompressorPreset::decode(v[0]))) } else { None }
    } else if is_addr(f0, f1, FEAT_PHANTOM) {
        if one { Some(Setting::Phantom(v[0] != 0)) } else { None }
    } else if is_addr(f0, f1, FEAT_AUTO) {
        if one {
            Some(Setting::Mode(if v[0] != 0 { InputMode::Auto } else { InputMode::Manual }))
        } else {
            None
        }
    } else if is_addr(f0, f1, FEAT_AUTO_POSITION) {
        if one { Some(Setting::AutoPosition(MicPosition::decode(v[0]))) } else { None }
    } else if is_addr(f0, f1, FEAT_AUTO_TONE) {
        if one { Some(Setting::AutoTone(AutoTone::decode(v[0]))) } else { None }
    } else if is_addr(f0, f1, FEAT_AUTO_GAIN) {
        if one { Some(Setting::AutoGain(AutoGain::decode(v))) } else { None }
    } else if is_addr(f0, f1, FEAT_MIX) {
        if one { Some(Setting::MonitorMix(if v[0] <= 100 { v[0] } else { 100 })) } else { None }
    } else if is_addr(f0, f1, FEAT_EQ) {
        if one { Some(Setting::EqEnabled(v[0] != 0)) } else { None }
    } else if let Some(band) = eq_enable_band(f0, f1) {
        if one { Some(Setting::EqBandEnabled(band as usize, v[0] != 0)) } else { None }
    } else if let Some(band) = eq_gain_band(f0, f1) {
        if two {
            Some(Setting::EqBandGain(band as usize, eq_gain_from_raw(be_i16(v[0], v[1]))))
        } else {
            None
        }
    } else {
        None
    }
}

/// A band index a setting may carry is in range.
pub open spec fn setting_in_range(st: Setting) -> bool {
    match st {
        Setting::EqBandEnabled(b, _) => b < 5,
        Setting::EqBandGain(b, _) => b < 5,
        _ => true,
    }
}

/// The EQ bands with one band's switch or gain changed by `st`.
pub open spec fn bands_with_setting(bands: [EqBand; 5], st: Setting) -> [EqBand; 5] {
    match st {
        Setting::EqBandEnabled(b, x) => vstd::array::spec_array_update(
            bands,
            b as int,
            EqBand { enabled: x, ..bands[b as int] },
        ),
        Setting::EqBandGain(b, x) => vstd::array::spec_array_update(
            bands,
            b as int,
            EqBand { gain_db: x, ..bands[b as int] },
        ),
        _ => bands,
    }
}

/// The state with one setting changed and everything else kept.
pub open spec fn with_setting(s: DeviceState, st: Setting) -> DeviceState {
    DeviceState {
        locked: match st { Setting::Locked(x) => x, _ => s.locked },
        gain_db: match st { Setting::Gain(x) => x, _ => s.gain_db },
        muted: match st { Setting::Muted(x) => x, _ => s.muted },
        hpf: match st { Setting::Hpf(x) => x, _ => s.hpf },
        limiter_enabled: match st { Setting::Limiter(x) => x, _ => s.limiter_enabled },
        compressor: match st { Setting::Compressor(x) => x, _ => s.compressor },
        phantom_power: match st { Setting::Phantom(x) => x, _ => s.phantom_power },
        mode: match st { Setting::Mode(x) => x, _ => s.mode },
        auto_position: match st { Setting::AutoPosition(x) => x, _ => s.auto_position },
        auto_tone: match st { Setting::AutoTone(x) => x, _ => s.auto_tone },
        auto_gain: match st { Setting::AutoGain(x) => x, _ => s.auto_gain },
        monitor_mix: match st { Setting::MonitorMix(x) => x, _ => s.monitor_mix },
        eq_enabled: match st { Setting::EqEnabled(x) => x, _ => s.eq_enabled },
        eq_bands: bands_with_setting(s.eq_bands, st),
        ..s
    }
}

/// The state after applying the value of feature `(f0, f1)`, or `None` when
/// it does not decode.
pub open spec fn apply_feature(f0: u8, f1: u8, v: Seq<u8>, s: DeviceState) -> Option<DeviceState> {
    match decode_setting(f0, f1, v) {
        Some(st) => Some(with_setting(s, st)),
        None => None,
    }
}

/// The feature address a setting is written to.
pub open spec fn setting_addr(st: Setting) -> (u8, u8) {
    match st {
        Setting::Locked(_) => (FEAT_LOCK[0], FEAT_LOCK[1]),
        Setting::Gain(_) => (FEAT_GAIN[0], FEAT_GAIN[1]),
        Setting::Muted(_) => (FEAT_MUTE[0], FEAT_MUTE[1]),
        Setting::Hpf(_) => (FEAT_HPF[0], FEAT_HPF[1]),
        Setting::Limiter(_) => (FEAT_LIMITER[0], FEAT_LIMITER[1]),
        Setting::Compressor(_) => (FEAT_COMP[0], FEAT_COMP[1]),
        Setting::Phantom(_) => (FEAT_PHANTOM[0], FEAT_PHANTOM[1]),
        Setting::Mode(_) => (FEAT_AUTO[0], FEAT_AUTO[1]),
        Setting::AutoPosition(_) => (FEAT_AUTO_POSITION[0], FEAT_AUTO_POSITION[1]),
        Setting::AutoTone(_) => (FEAT_AUTO_TONE[0], FEAT_AUTO_TONE[1]),
        Setting::AutoGain(_) => (FEAT_AUTO_GAIN[0], FEAT_AUTO_GAIN[1]),
        Setting::MonitorMix(_) => (FEAT_MIX[0], FEAT_MIX[1]),
        Setting::EqEnabled(_) => (FEAT_EQ[0], FEAT_EQ[1]),
        Setting::EqBandEnabled(b, _) => (0x02, eq_enable_lo(b as int)),
        Setting::EqBandGain(b, _) => (0x02, eq_gain_lo(b as int)),
    }
}

/// The value bytes a SET of the setting carries.
pub open spec fn setting_value(st: Setting) -> Seq<u8> {
    match st {
        Setting::Locked(x) => seq![bool_byte(x)],
        Setting::Gain(x) => gain_wire(x),
        Setting::Muted(x) => seq![bool_byte(x)],
        Setting::Hpf(x) => seq![x.code()],
        Setting::Limiter(x) => seq![bool_byte(x)],
        Setting::Compressor(x) => seq![x.code()],
        Setting::Phantom(x) => seq![if x { PHANTOM_ON } else { PHANTOM_OFF }],
        Setting::Mode(x) => seq![bool_byte(x == InputMode::Auto)],
        Setting::AutoPosition(x) => seq![x.code()],
        Setting::AutoTone(x) => seq![x.code()],
        Setting::AutoGain(x) => x.wire(),
        Setting::MonitorMix(x) => seq![if x <= 100 { x } else { 100u8 }],
        Setting::EqEnabled(x) => seq![bool_byte(x)],
        Setting::EqBandEnabled(_, x) => seq![bool_byte(x)],
        Setting::EqBandGain(_, x) => eq_gain_wire(x),
    }
}

/// The payload of a SET of the setting: prefix byte (0x06 for the lock,
/// 0x01 for the monitor mix, 0x00 otherwise), feature address, value bytes.
pub open spec fn setting_payload(st: Setting) -> Seq<u8> {
    let (f0, f1) = setting_addr(st);
    let prefix = if st is Locked {
        0x06u8
    } else {
        mix_flag(f0, f1)
    };
    seq![prefix, f0, f1] + setting_value(st)
}

/// The SET packet for a setting (the lock has its own SET command).
pub open spec fn setting_packet(seq: u8, st: Setting) -> Seq<u8> {
    let cmd = if st is Locked {
        CMD_SET_LOCK@
    } else {
        CMD_SET_FEAT@
    };
    packet(seq, cmd, setting_payload(st))
}

/// The setting as the device keeps it: manual gain at most 60 dB, monitor
/// mix at most 100, EQ band gain within −8..=+6 dB.
pub open spec fn normalized(st: Setting) -> Setting {
    match st {
        Setting::Gain(x) => Setting::Gain(if x <= 60 { x } else { 60 }),
        Setting::MonitorMix(x) => Setting::MonitorMix(if x <= 100 { x } else { 100 }),
        Setting::EqBandGain(b, x) => Setting::EqBandGain(b, clamp_int(x as int, -8, 6) as i8),
        _ => st,
    }
}

/// Manual gain in dB decoded from its two big-endian wire bytes.
fn gain_from_bytes(hi: u8, lo: u8) -> (g: u8)
    ensures
        g == gain_from_raw(be_u16(hi, lo)),
{
    let raw: u16 = (hi as u16) * 256 + lo as u16;
    let g: u16 = raw / 100;
    if g > 60 {
        60
    } else {
        g as u8
    }
}

/// EQ band gain in dB decoded from its two big-endian wire bytes.
fn eq_gain_from_bytes(hi: u8, lo: u8) -> (g: i8)
    ensures
        g == eq_gain_from_raw(be_i16(hi, lo)),
{
    let u: i32 = (hi as i32) * 256 + lo as i32;
    let raw: i32 = if u >= 32768 {
        u - 65536
    } else {
        u
    };
    let q: i32 = if raw >= 0 {
        raw / 10
    } else {
        -((-raw) / 10)
    };
    if q < -8 {
        -8
    } else if q > 6 {
        6
    } else {
        q as i8
    }
}

/// The band whose enable switch lives at `(f0, f1)`.
fn enable_band_of(f0: u8, f1: u8) -> (r: Option<usize>)
    ensures
        match eq_enable_band(f0, f1) {
            Some(b) => r == Some(b as usize) && 0 <= b < 5,
            None => r is None,
        },
{
    if f0 == 0x02 && f1 % 16 == 0 && 16 <= f1 && f1 <= 80 {
        Some((f1 / 16 - 1) as usize)
    } else {
        None
    }
}

/// The band whose gain lives at `(f0, f1)`.
fn gain_band_of(f0: u8, f1: u8) -> (r: Option<usize>)
    ensures
        match eq_gain_band(f0, f1) {
            Some(b) => r == Some(b as usize) && 0 <= b < 5,
            None => r is None,
        },
{
    if f0 == 0x02 && f1 % 16 == 4 && 16 <= f1 && f1 <= 84 {
        Some((f1 / 16 - 1) as usize)
    } else {
        None
    }
}

/// Decode the value bytes of feature `feat_addr`.
pub fn decode_response(feat_addr: [u8; 2], value: &[u8]) -> (r: Option<Setting>)
    ensures
        r == decode_setting(feat_addr[0], feat_addr[1], value@),
        r matches Some(st) ==> setting_in_range(st),
{
    let f0 = feat_addr[0];
    let f1 = feat_addr[1];
    let one = value.len() >= 1;
    let two = value.len() >= 2;
    if f0 == FEAT_LOCK[0] && f1 == FEAT_LOCK[1] {
        if one { Some(Setting::Locked(value[0] != 0)) } else { None }
    } else if f0 == FEAT_GAIN[0] && f1 == FEAT_GAIN[1] {
        if two { Some(Setting::Gain(gain_from_bytes(value[0], value[1]))) } else { None }
    } else if f0 == FEAT_MUTE[0] && f1 == FEAT_MUTE[1] {
        if one { Some(Setting::Muted(value[0] != 0)) } else { None }
    } else if f0 == FEAT_HPF[0] && f1 == FEAT_HPF[1] {
        if one { Some(Setting::Hpf(HpfFrequency::from_byte(value[0]))) } else { None }
    } else if f0 == FEAT_LIMITER[0] && f1 == FEAT_LIMITER[1] {
        if one { Some(Setting::Limiter(value[0] != 0)) } else { None }
    } else if f0 == FEAT_COMP[0] && f1 == FEAT_COMP[1] {
        if one { Some(Setting::Compressor(CompressorPreset::from_byte(value[0]))) } else { None }
    } else if f0 == FEAT_PHANTOM[0] && f1 == FEAT_PHANTOM[1] {
        if one { Some(Setting::Phantom(value[0] != 0)) } else { None }
    } else if f0 == FEAT_AUTO[0] && f1 == FEAT_AUTO[1] {
        if one {
            Some(Setting::Mode(if value[0] != 0 { InputMode::Auto } else { InputMode::Manual }))
        } else {
            None
        }
    } else if f0 == FEAT_AUTO_POSITION[0] && f1 == FEAT_AUTO_POSITION[1] {
        if one { Some(Setting::AutoPosition(MicPosition::from_byte(value[0]))) } else { None }
    } else if f0 == FEAT_AUTO_TONE[0] && f1 == FEAT_AUTO_TONE[1] {
        if one { Some(Setting::AutoTone(AutoTone::from_byte(value[0]))) } else { None }
    } else if f0 == FEAT_AUTO_GAIN[0] && f1 == FEAT_AUTO_GAIN[1] {
        if one { Some(Setting::AutoGain(AutoGain::from_be_bytes(value))) } else { None }
    } else if f0 == FEAT_MIX[0] && f1 == FEAT_MIX[1] {
        if one { Some(Setting::MonitorMix(if value[0] <= 100 { value[0] } else { 100 })) } else { None }
    } else if f0 == FEAT_EQ[0] && f1 == FEAT_EQ[1] {
        if one { Some(Setting::EqEnabled(value[0] != 0)) } else { None }
    } else {
        match enable_band_of(f0, f1) {
            Some(b) => {
                if one { Some(Setting::EqBandEnabled(b, value[0] != 0)) } else { None }
            },
            None => match gain_band_of(f0, f1) {
                Some(b) => {
                    if two {
                        Some(Setting::EqBandGain(b, eq_gain_from_bytes(value[0], value[1])))
                    } else {
                        None
                    }
                },
                None => None,
            },
        }
    }
}

fn set_band_enabled(state: &mut DeviceState, b: usize, x: bool)
    requires
        b < 5,
    ensures
        *final(state) == with_setting(*old(state), Setting::EqBandEnabled(b, x)),
{
    let mut band = state.eq_bands[b];
    band.enabled = x;
    state.eq_bands[b] = band;
    assert(state.eq_bands =~= vstd::array::spec_array_update(
        old(state).eq_bands,
        b as int,
        EqBand { enabled: x, ..old(state).eq_bands[b as int] },
    ));
}

fn set_band_gain(state: &mut DeviceState, b: usize, x: i8)
    requires
        b < 5,
    ensures
        *final(state) == with_setting(*old(state), Setting::EqBandGain(b, x)),
{
    let mut band = state.eq_bands[b];
    band.gain_db = x;
    state.eq_bands[b] = band;
    assert(state.eq_bands =~= vstd::array::spec_array_update(
        old(state).eq_bands,
        b as int,
        EqBand { gain_db: x, ..old(state).eq_bands[b as int] },
    ));
}

// One setter per setting: each changes exactly its field.
fn set_locked(state: &mut DeviceState, x: bool)
    ensures
        *final(state) == with_setting(*old(state), Setting::Locked(x)),
{
    state.locked = x;
}

fn set_gain(state: &mut DeviceState, x: u8)
    ensures
        *final(state) == with_setting(*old(state), Setting::Gain(x)),
{
    state.gain_db = x;
}

fn set_muted(state: &mut DeviceState, x: bool)
    ensures
        *final(state) == with_setting(*old(state), Setting::Muted(x)),
{
    state.muted = x;
}

fn set_hpf(state: &mut DeviceState, x: HpfFrequency)
    ensures
        *final(state) == with_setting(*old(state), Setting::Hpf(x)),
{
    state.hpf = x;
}

fn set_limiter(state: &mut DeviceState, x: bool)
    ensures
        *final(state) == with_setting(*old(state), Setting::Limiter(x)),
{
    state.limiter_enabled = x;
}

fn set_compressor(state: &mut DeviceState, x: CompressorPreset)
    ensures
        *final(state) == with_setting(*old(state), Setting::Compressor(x)),
{
    state.compressor = x;
}

fn set_phantom(state: &mut DeviceState, x: bool)
    ensures
        *final(state) == with_setting(*old(state), Setting::Phantom(x)),
{
    state.phantom_power = x;
}

fn set_mode(state: &mut DeviceState, x: InputMode)
    ensures
        *final(state) == with_setting(*old(state), Setting::Mode(x)),
{
    state.mode = x;
}

fn set_auto_position(state: &mut DeviceState, x: MicPosition)
    ensures
        *final(state) == with_setting(*old(state), Setting::AutoPosition(x)),
{
    state.auto_position = x;
}

fn set_auto_tone(state: &mut DeviceState, x: AutoTone)
    ensures
        *final(state) == with_setting(*old(state), Setting::AutoTone(x)),
{
    state.auto_tone = x;
}

fn set_auto_gain(state: &mut DeviceState, x: AutoGain)
    ensures
        *final(state) == with_setting(*old(state), Setting::AutoGain(x)),
{
    state.auto_gain = x;
}

fn set_monitor_mix(state: &mut DeviceState, x: u8)
    ensures
        *final(state) == with_setting(*old(state), Setting::MonitorMix(x)),
{
    state.monitor_mix = x;
}

fn set_eq_enabled(state: &mut DeviceState, x: bool)
    ensures
        *final(state) == with_setting(*old(state), Setting::EqEnabled(x)),
{
    state.eq_enabled = x;
}

/// Change one setting of `state`, keeping everything else.
pub fn apply_setting(state: &mut DeviceState, st: Setting)
    requires
        setting_in_range(st),
    ensures
        *final(state) == with_setting(*old(state), st),
{
    match st {
        Setting::Locked(x) => set_locked(state, x),
        Setting::Gain(x) => set_gain(state, x),
        Setting::Muted(x) => set_muted(state, x),
        Setting::Hpf(x) => set_hpf(state, x),
        Setting::Limiter(x) => set_limiter(state, x),
        Setting::Compressor(x) => set_compressor(state, x),
        Setting::Phantom(x) => set_phantom(state, x),
        Setting::Mode(x) => set_mode(state, x),
        Setting::AutoPosition(x) => set_auto_position(state, x),
        Setting::AutoTone(x) => set_auto_tone(state, x),
        Setting::AutoGain(x) => set_auto_gain(state, x),
        Setting::MonitorMix(x) => set_monitor_mix(state, x),
        Setting::EqEnabled(x) => set_eq_enabled(state, x),
        Setting::EqBandEnabled(b, x) => set_band_enabled(state, b, x),
        Setting::EqBandGain(b, x) => set_band_gain(state, b, x),
    }
}

/// Apply a parsed feature response `(feat_addr, value_bytes)` to `state`.
///
/// Returns `true` if the feature was recognised and applied, `false` if the
/// feature address is unknown or the value bytes are too short; in that case
/// `state` is left as it was.
pub fn apply_response(feat_addr: [u8; 2], value: &[u8], state: &mut DeviceState) -> (applied: bool)
    ensures
        match apply_feature(feat_addr[0], feat_addr[1], value@, *old(state)) {
            Some(next) => applied && *final(state) == next,
            None => !applied && *final(state) == *old(state),
        },
{
    match decode_response(feat_addr, value) {
        Some(st) => {
            apply_setting(state, st);
            true
        },
        None => false,
    }
}

} // verus!
