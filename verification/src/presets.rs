//! Host-side preset model.
//!
//! A preset captures all configurable settings of a [`DeviceState`] —
//! everything that can be sent to the device — together with a name. The
//! lock state, the serial number and the firmware version are not part of a
//! preset. There are 4
//! fixed slots, stored as `preset_1.toml`–`preset_4.toml`.
use vstd::prelude::*;
use crate::protocol::{
    clamp_int, AutoGain, AutoTone, CompressorPreset, DeviceModel, DeviceState, EqBand,
    HpfFrequency, InputMode, LedBehavior, LedBrightness, LedLiveTheme, LedPulsingTheme,
    LedSolidTheme, MicPosition, ReverbType,
};
use crate::text::{append_decimal, decimal_text};

verus! {

pub const PRESET_COUNT: usize = 4;

// ── Stored mirror types ──────────────────────────────────────────────────────
// The on-disk form of each enumerated setting; kept apart from the protocol
// enums so that the stored format stays stable.

#[derive(Debug, Clone, Copy, PartialEq, Eq, Structural)]
pub enum SerInputMode {
    Auto,
    Manual,
}

/// The stored form of a [`InputMode`].
pub open spec fn ser_input_mode(v: InputMode) -> SerInputMode {
    match v {
        InputMode::Auto => SerInputMode::Auto,
        InputMode::Manual => SerInputMode::Manual,
    }
}

/// The [`InputMode`] a stored value stands for.
pub open spec fn input_mode_of(v: SerInputMode) -> InputMode {
    match v {
        SerInputMode::Auto => InputMode::Auto,
        SerInputMode::Manual => InputMode::Manual,
    }
}

impl From<InputMode> for SerInputMode {
    fn from(v: InputMode) -> (r: Self)
        ensures
            r == ser_input_mode(v),
    {
        match v {
            InputMode::Auto => SerInputMode::Auto,
            InputMode::Manual => SerInputMode::Manual,
        }
    }
}

impl vstd::std_specs::convert::FromSpecImpl<InputMode> for SerInputMode {
    open spec fn obeys_from_spec() -> bool {
        true
    }

    open spec fn from_spec(v: InputMode) -> Self {
        ser_input_mode(v)
    }
}

impl From<SerInputMode> for InputMode {
    fn from(v: SerInputMode) -> (r: Self)
        ensures
            r == input_mode_of(v),
    {
        match v {
            SerInputMode::Auto => InputMode::Auto,
            SerInputMode::Manual => InputMode::Manual,
        }
    }
}

impl vstd::std_specs::convert::FromSpecImpl<SerInputMode> for InputMode {
    open spec fn obeys_from_spec() -> bool {
        true
    }

    open spec fn from_spec(v: SerInputMode) -> Self {
        input_mode_of(v)
    }
}

#[derive(Debug, Clone, Copy, PartialEq, Eq, Structural)]
pub enum SerMicPosition {
    Near,
    Far,
}

/// The stored form of a [`MicPosition`].
pub open spec fn ser_mic_position(v: MicPosition) -> SerMicPosition {
    match v {
        MicPosition::Near => SerMicPosition::Near,
        MicPosition::Far => SerMicPosition::Far,
    }
}

/// The [`MicPosition`] a stored value stands for.
pub open spec fn mic_position_of(v: SerMicPosition) -> MicPosition {
    match v {
        SerMicPosition::Near => MicPosition::Near,
        SerMicPosition::Far => MicPosition::Far,
    }
}

impl From<MicPosition> for SerMicPosition {
    fn from(v: MicPosition) -> (r: Self)
        ensures
            r == ser_mic_position(v),
    {
        match v {
            MicPosition::Near => SerMicPosition::Near,
            MicPosition::Far => SerMicPosition::Far,
        }
    }
}

impl vstd::std_specs::convert::FromSpecImpl<MicPosition> for SerMicPosition {
    open spec fn obeys_from_spec() -> bool {
        true
    }

    open spec fn from_spec(v: MicPosition) -> Self {
        ser_mic_position(v)
    }
}

impl From<SerMicPosition> for MicPosition {
    fn from(v: SerMicPosition) -> (r: Self)
        ensures
            r == mic_position_of(v),
    {
        match v {
            SerMicPosition::Near => MicPosition::Near,
            SerMicPosition::Far => MicPosition::Far,
        }
    }
}

impl vstd::std_specs::convert::FromSpecImpl<SerMicPosition> for MicPosition {
    open spec fn obeys_from_spec() -> bool {
        true
    }

    open spec fn from_spec(v: SerMicPosition) -> Self {
        mic_position_of(v)
    }
}

#[derive(Debug, Clone, Copy, PartialEq, Eq, Structural)]
pub enum SerAutoTone {
    Dark,
    Natural,
    Bright,
}

/// The stored form of a [`AutoTone`].
pub open spec fn ser_auto_tone(v: AutoTone) -> SerAutoTone {
    match v {
        AutoTone::Dark => SerAutoTone::Dark,
        AutoTone::Natural => SerAutoTone::Natural,
        AutoTone::Bright => SerAutoTone::Bright,
    }
}

/// The [`AutoTone`] a stored value stands for.
pub open spec fn auto_tone_of(v: SerAutoTone) -> AutoTone {
    match v {
        SerAutoTone::Dark => AutoTone::Dark,
        SerAutoTone::Natural => AutoTone::Natural,
        SerAutoTone::Bright => AutoTone::Bright,
    }
}

impl From<AutoTone> for SerAutoTone {
    fn from(v: AutoTone) -> (r: Self)
        ensures
            r == ser_auto_tone(v),
    {
        match v {
            AutoTone::Dark => SerAutoTone::Dark,
            AutoTone::Natural => SerAutoTone::Natural,
            AutoTone::Bright => SerAutoTone::Bright,
        }
    }
}

impl vstd::std_specs::convert::FromSpecImpl<AutoTone> for SerAutoTone {
    open spec fn obeys_from_spec() -> bool {
        true
    }

    open spec fn from_spec(v: AutoTone) -> Self {
        ser_auto_tone(v)
    }
}

impl From<SerAutoTone> for AutoTone {
    fn from(v: SerAutoTone) -> (r: Self)
        ensures
            r == auto_tone_of(v),
    {
        match v {
            SerAutoTone::Dark => AutoTone::Dark,
            SerAutoTone::Natural => AutoTone::Natural,
            SerAutoTone::Bright => AutoTone::Bright,
        }
    }
}

impl vstd::std_specs::convert::FromSpecImpl<SerAutoTone> for AutoTone {
    open spec fn obeys_from_spec() -> bool {
        true
    }

    open spec fn from_spec(v: SerAutoTone) -> Self {
        auto_tone_of(v)
    }
}

#[derive(Debug, Clone, Copy, PartialEq, Eq, Structural)]
pub enum SerAutoGain {
    Quiet,
    Normal,
    Loud,
}

/// The stored form of a [`AutoGain`].
pub open spec fn ser_auto_gain(v: AutoGain) -> SerAutoGain {
    match v {
        AutoGain::Quiet => SerAutoGain::Quiet,
        AutoGain::Normal => SerAutoGain::Normal,
        AutoGain::Loud => SerAutoGain::Loud,
    }
}

/// The [`AutoGain`] a stored value stands for.
pub open spec fn auto_gain_of(v: SerAutoGain) -> AutoGain {
    match v {
        SerAutoGain::Quiet => AutoGain::Quiet,
        SerAutoGain::Normal => AutoGain::Normal,
        SerAutoGain::Loud => AutoGain::Loud,
    }
}

impl From<AutoGain> for SerAutoGain {
    fn from(v: AutoGain) -> (r: Self)
        ensures
            r == ser_auto_gain(v),
    {
        match v {
            AutoGain::Quiet => SerAutoGain::Quiet,
            AutoGain::Normal => SerAutoGain::Normal,
            AutoGain::Loud => SerAutoGain::Loud,
        }
    }
}

impl vstd::std_specs::convert::FromSpecImpl<AutoGain> for SerAutoGain {
    open spec fn obeys_from_spec() -> bool {
        true
    }

    open spec fn from_spec(v: AutoGain) -> Self {
        ser_auto_gain(v)
    }
}

impl From<SerAutoGain> for AutoGain {
    fn from(v: SerAutoGain) -> (r: Self)
        ensures
            r == auto_gain_of(v),
    {
        match v {
            SerAutoGain::Quiet => AutoGain::Quiet,
            SerAutoGain::Normal => AutoGain::Normal,
            SerAutoGain::Loud => AutoGain::Loud,
        }
    }
}

impl vstd::std_specs::convert::FromSpecImpl<SerAutoGain> for AutoGain {
    open spec fn obeys_from_spec() -> bool {
        true
    }

    open spec fn from_spec(v: SerAutoGain) -> Self {
        auto_gain_of(v)
    }
}

#[derive(Debug, Clone, Copy, PartialEq, Eq, Structural)]
pub enum SerCompressorPreset {
    Off,
    Light,
    Medium,
    Heavy,
}

/// The stored form of a [`CompressorPreset`].
pub open spec fn ser_compressor(v: CompressorPreset) -> SerCompressorPreset {
    match v {
        CompressorPreset::Off => SerCompressorPreset::Off,
        CompressorPreset::Light => SerCompressorPreset::Light,
        CompressorPreset::Medium => SerCompressorPreset::Medium,
        CompressorPreset::Heavy => SerCompressorPreset::Heavy,
    }
}

/// The [`CompressorPreset`] a stored value stands for.
pub open spec fn compressor_of(v: SerCompressorPreset) -> CompressorPreset {
    match v {
        SerCompressorPreset::Off => CompressorPreset::Off,
        SerCompressorPreset::Light => CompressorPreset::Light,
        SerCompressorPreset::Medium => CompressorPreset::Medium,
        SerCompressorPreset::Heavy => CompressorPreset::Heavy,
    }
}

impl From<CompressorPreset> for SerCompressorPreset {
    fn from(v: CompressorPreset) -> (r: Self)
        ensures
            r == ser_compressor(v),
    {
        match v {
            CompressorPreset::Off => SerCompressorPreset::Off,
            CompressorPreset::Light => SerCompressorPreset::Light,
            CompressorPreset::Medium => SerCompressorPreset::Medium,
            CompressorPreset::Heavy => SerCompressorPreset::Heavy,
        }
    }
}

impl vstd::std_specs::convert::FromSpecImpl<CompressorPreset> for SerCompressorPreset {
    open spec fn obeys_from_spec() -> bool {
        true
    }

    open spec fn from_spec(v: CompressorPreset) -> Self {
        ser_compressor(v)
    }
}

impl From<SerCompressorPreset> for CompressorPreset {
    fn from(v: SerCompressorPreset) -> (r: Self)
        ensures
            r == compressor_of(v),
    {
        match v {
            SerCompressorPreset::Off => CompressorPreset::Off,
            SerCompressorPreset::Light => CompressorPreset::Light,
            SerCompressorPreset::Medium => CompressorPreset::Medium,
            SerCompressorPreset::Heavy => CompressorPreset::Heavy,
        }
    }
}

impl vstd::std_specs::convert::FromSpecImpl<SerCompressorPreset> for CompressorPreset {
    open spec fn obeys_from_spec() -> bool {
        true
    }

    open spec fn from_spec(v: SerCompressorPreset) -> Self {
        compressor_of(v)
    }
}

#[derive(Debug, Clone, Copy, PartialEq, Eq, Structural)]
pub enum SerHpfFrequency {
    Off,
    Hz75,
    Hz150,
}

/// The stored form of a [`HpfFrequency`].
pub open spec fn ser_hpf(v: HpfFrequency) -> SerHpfFrequency {
    match v {
        HpfFrequency::Off => SerHpfFrequency::Off,
        HpfFrequency::Hz75 => SerHpfFrequency::Hz75,
        HpfFrequency::Hz150 => SerHpfFrequency::Hz150,
    }
}

/// The [`HpfFrequency`] a stored value stands for.
pub open spec fn hpf_of(v: SerHpfFrequency) -> HpfFrequency {
    match v {
        SerHpfFrequency::Off => HpfFrequency::Off,
        SerHpfFrequency::Hz75 => HpfFrequency::Hz75,
        SerHpfFrequency::Hz150 => HpfFrequency::Hz150,
    }
}

impl From<HpfFrequency> for SerHpfFrequency {
    fn from(v: HpfFrequency) -> (r: Self)
        ensures
            r == ser_hpf(v),
    {
        match v {
            HpfFrequency::Off => SerHpfFrequency::Off,
            HpfFrequency::Hz75 => SerHpfFrequency::Hz75,
            HpfFrequency::Hz150 => SerHpfFrequency::Hz150,
        }
    }
}

impl vstd::std_specs::convert::FromSpecImpl<HpfFrequency> for SerHpfFrequency {
    open spec fn obeys_from_spec() -> bool {
        true
    }

    open spec fn from_spec(v: HpfFrequency) -> Self {
        ser_hpf(v)
    }
}

impl From<SerHpfFrequency> for HpfFrequency {
    fn from(v: SerHpfFrequency) -> (r: Self)
        ensures
            r == hpf_of(v),
    {
        match v {
            SerHpfFrequency::Off => HpfFrequency::Off,
            SerHpfFrequency::Hz75 => HpfFrequency::Hz75,
            SerHpfFrequency::Hz150 => HpfFrequency::Hz150,
        }
    }
}

impl vstd::std_specs::convert::FromSpecImpl<SerHpfFrequency> for HpfFrequency {
    open spec fn obeys_from_spec() -> bool {
        true
    }

    open spec fn from_spec(v: SerHpfFrequency) -> Self {
        hpf_of(v)
    }
}

#[derive(Debug, Clone, Copy, PartialEq, Eq, Structural)]
pub enum SerReverbType {
    Plate,
    Hall,
    Studio,
}

/// The stored form of a [`ReverbType`].
pub open spec fn ser_reverb_type(v: ReverbType) -> SerReverbType {
    match v {
        ReverbType::Plate => SerReverbType::Plate,
        ReverbType::Hall => SerReverbType::Hall,
        ReverbType::Studio => SerReverbType::Studio,
    }
}

/// The [`ReverbType`] a stored value stands for.
pub open spec fn reverb_type_of(v: SerReverbType) -> ReverbType {
    match v {
        SerReverbType::Plate => ReverbType::Plate,
        SerReverbType::Hall => ReverbType::Hall,
        SerReverbType::Studio => ReverbType::Studio,
    }
}

impl From<ReverbType> for SerReverbType {
    fn from(v: ReverbType) -> (r: Self)
        ensures
            r == ser_reverb_type(v),
    {
        match v {
            ReverbType::Plate => SerReverbType::Plate,
            ReverbType::Hall => SerReverbType::Hall,
            ReverbType::Studio => SerReverbType::Studio,
        }
    }
}

impl vstd::std_specs::convert::FromSpecImpl<ReverbType> for SerReverbType {
    open spec fn obeys_from_spec() -> bool {
        true
    }

    open spec fn from_spec(v: ReverbType) -> Self {
        ser_reverb_type(v)
    }
}

impl From<SerReverbType> for ReverbType {
    fn from(v: SerReverbType) -> (r: Self)
        ensures
            r == reverb_type_of(v),
    {
        match v {
            SerReverbType::Plate => ReverbType::Plate,
            SerReverbType::Hall => ReverbType::Hall,
            SerReverbType::Studio => ReverbType::Studio,
        }
    }
}

impl vstd::std_specs::convert::FromSpecImpl<SerReverbType> for ReverbType {
    open spec fn obeys_from_spec() -> bool {
        true
    }

    open spec fn from_spec(v: SerReverbType) -> Self {
        reverb_type_of(v)
    }
}

#[derive(Debug, Clone, Copy, PartialEq, Eq, Structural)]
pub enum SerLedBehavior {
    Live,
    Pulsing,
    Solid,
}

/// The stored form of a [`LedBehavior`].
pub open spec fn ser_led_behavior(v: LedBehavior) -> SerLedBehavior {
    match v {
        LedBehavior::Live => SerLedBehavior::Live,
        LedBehavior::Pulsing => SerLedBehavior::Pulsing,
        LedBehavior::Solid => SerLedBehavior::Solid,
    }
}

/// The [`LedBehavior`] a stored value stands for.
pub open spec fn led_behavior_of(v: SerLedBehavior) -> LedBehavior {
    match v {
        SerLedBehavior::Live => LedBehavior::Live,
        SerLedBehavior::Pulsing => LedBehavior::Pulsing,
        SerLedBehavior::Solid => LedBehavior::Solid,
    }
}

impl From<LedBehavior> for SerLedBehavior {
    fn from(v: LedBehavior) -> (r: Self)
        ensures
            r == ser_led_behavior(v),
    {
        match v {
            LedBehavior::Live => SerLedBehavior::Live,
            LedBehavior::Pulsing => SerLedBehavior::Pulsing,
            LedBehavior::Solid => SerLedBehavior::Solid,
        }
    }
}

impl vstd::std_specs::convert::FromSpecImpl<LedBehavior> for SerLedBehavior {
    open spec fn obeys_from_spec() -> bool {
        true
    }

    open spec fn from_spec(v: LedBehavior) -> Self {
        ser_led_behavior(v)
    }
}

impl From<SerLedBehavior> for LedBehavior {
    fn from(v: SerLedBehavior) -> (r: Self)
        ensures
            r == led_behavior_of(v),
    {
        match v {
            SerLedBehavior::Live => LedBehavior::Live,
            SerLedBehavior::Pulsing => LedBehavior::Pulsing,
            SerLedBehavior::Solid => LedBehavior::Solid,
        }
    }
}

impl vstd::std_specs::convert::FromSpecImpl<SerLedBehavior> for LedBehavior {
    open spec fn obeys_from_spec() -> bool {
        true
    }

    open spec fn from_spec(v: SerLedBehavior) -> Self {
        led_behavior_of(v)
    }
}

#[derive(Debug, Clone, Copy, PartialEq, Eq, Structural)]
pub enum SerLedBrightness {
    Low,
    Med,
    High,
    Max,
}

/// The stored form of a [`LedBrightness`].
pub open spec fn ser_led_brightness(v: LedBrightness) -> SerLedBrightness {
    match v {
        LedBrightness::Low => SerLedBrightness::Low,
        LedBrightness::Med => SerLedBrightness::Med,
        LedBrightness::High => SerLedBrightness::High,
        LedBrightness::Max => SerLedBrightness::Max,
    }
}

/// The [`LedBrightness`] a stored value stands for.
pub open spec fn led_brightness_of(v: SerLedBrightness) -> LedBrightness {
    match v {
        SerLedBrightness::Low => LedBrightness::Low,
        SerLedBrightness::Med => LedBrightness::Med,
        SerLedBrightness::High => LedBrightness::High,
        SerLedBrightness::Max => LedBrightness::Max,
    }
}

impl From<LedBrightness> for SerLedBrightness {
    fn from(v: LedBrightness) -> (r: Self)
        ensures
            r == ser_led_brightness(v),
    {
        match v {
            LedBrightness::Low => SerLedBrightness::Low,
            LedBrightness::Med => SerLedBrightness::Med,
            LedBrightness::High => SerLedBrightness::High,
            LedBrightness::Max => SerLedBrightness::Max,
        }
    }
}

impl vstd::std_specs::convert::FromSpecImpl<LedBrightness> for SerLedBrightness {
    open spec fn obeys_from_spec() -> bool {
        true
    }

    open spec fn from_spec(v: LedBrightness) -> Self {
        ser_led_brightness(v)
    }
}

impl From<SerLedBrightness> for LedBrightness {
    fn from(v: SerLedBrightness) -> (r: Self)
        ensures
            r == led_brightness_of(v),
    {
        match v {
            SerLedBrightness::Low => LedBrightness::Low,
            SerLedBrightness::Med => LedBrightness::Med,
            SerLedBrightness::High => LedBrightness::High,
            SerLedBrightness::Max => LedBrightness::Max,
        }
    }
}

impl vstd::std_specs::convert::FromSpecImpl<SerLedBrightness> for LedBrightness {
    open spec fn obeys_from_spec() -> bool {
        true
    }

    open spec fn from_spec(v: SerLedBrightness) -> Self {
        led_brightness_of(v)
    }
}

#[derive(Debug, Clone, Copy, PartialEq, Eq, Structural)]
pub enum SerLedLiveTheme {
    Default,
    Seaside,
    Space,
    Fruity,
    Custom,
}

/// The stored form of a [`LedLiveTheme`].
pub open spec fn ser_led_live_theme(v: LedLiveTheme) -> SerLedLiveTheme {
    match v {
        LedLiveTheme::Default => SerLedLiveTheme::Default,
        LedLiveTheme::Seaside => SerLedLiveTheme::Seaside,
        LedLiveTheme::Space => SerLedLiveTheme::Space,
        LedLiveTheme::Fruity => SerLedLiveTheme::Fruity,
        LedLiveTheme::Custom => SerLedLiveTheme::Custom,
    }
}

/// The [`LedLiveTheme`] a stored value stands for.
pub open spec fn led_live_theme_of(v: SerLedLiveTheme) -> LedLiveTheme {
    match v {
        SerLedLiveTheme::Default => LedLiveTheme::Default,
        SerLedLiveTheme::Seaside => LedLiveTheme::Seaside,
        SerLedLiveTheme::Space => LedLiveTheme::Space,
        SerLedLiveTheme::Fruity => LedLiveTheme::Fruity,
        SerLedLiveTheme::Custom => LedLiveTheme::Custom,
    }
}

impl From<LedLiveTheme> for SerLedLiveTheme {
    fn from(v: LedLiveTheme) -> (r: Self)
        ensures
            r == ser_led_live_theme(v),
    {
        match v {
            LedLiveTheme::Default => SerLedLiveTheme::Default,
            LedLiveTheme::Seaside => SerLedLiveTheme::Seaside,
            LedLiveTheme::Space => SerLedLiveTheme::Space,
            LedLiveTheme::Fruity => SerLedLiveTheme::Fruity,
            LedLiveTheme::Custom => SerLedLiveTheme::Custom,
        }
    }
}

impl vstd::std_specs::convert::FromSpecImpl<LedLiveTheme> for SerLedLiveTheme {
    open spec fn obeys_from_spec() -> bool {
        true
    }

    open spec fn from_spec(v: LedLiveTheme) -> Self {
        ser_led_live_theme(v)
    }
}

impl From<SerLedLiveTheme> for LedLiveTheme {
    fn from(v: SerLedLiveTheme) -> (r: Self)
        ensures
            r == led_live_theme_of(v),
    {
        match v {
            SerLedLiveTheme::Default => LedLiveTheme::Default,
            SerLedLiveTheme::Seaside => LedLiveTheme::Seaside,
            SerLedLiveTheme::Space => LedLiveTheme::Space,
            SerLedLiveTheme::Fruity => LedLiveTheme::Fruity,
            SerLedLiveTheme::Custom => LedLiveTheme::Custom,
        }
    }
}

impl vstd::std_specs::convert::FromSpecImpl<SerLedLiveTheme> for LedLiveTheme {
    open spec fn obeys_from_spec() -> bool {
        true
    }

    open spec fn from_spec(v: SerLedLiveTheme) -> Self {
        led_live_theme_of(v)
    }
}

#[derive(Debug, Clone, Copy, PartialEq, Eq, Structural)]
pub enum SerLedSolidTheme {
    Shure,
    Custom,
}

/// The stored form of a [`LedSolidTheme`].
pub open spec fn ser_led_solid_theme(v: LedSolidTheme) -> SerLedSolidTheme {
    match v {
        LedSolidTheme::Shure => SerLedSolidTheme::Shure,
        LedSolidTheme::Custom => SerLedSolidTheme::Custom,
    }
}

/// The [`LedSolidTheme`] a stored value stands for.
pub open spec fn led_solid_theme_of(v: SerLedSolidTheme) -> LedSolidTheme {
    match v {
        SerLedSolidTheme::Shure => LedSolidTheme::Shure,
        SerLedSolidTheme::Custom => LedSolidTheme::Custom,
    }
}

impl From<LedSolidTheme> for SerLedSolidTheme {
    fn from(v: LedSolidTheme) -> (r: Self)
        ensures
            r == ser_led_solid_theme(v),
    {
        match v {
            LedSolidTheme::Shure => SerLedSolidTheme::Shure,
            LedSolidTheme::Custom => SerLedSolidTheme::Custom,
        }
    }
}

impl vstd::std_specs::convert::FromSpecImpl<LedSolidTheme> for SerLedSolidTheme {
    open spec fn obeys_from_spec() -> bool {
        true
    }

    open spec fn from_spec(v: LedSolidTheme) -> Self {
        ser_led_solid_theme(v)
    }
}

impl From<SerLedSolidTheme> for LedSolidTheme {
    fn from(v: SerLedSolidTheme) -> (r: Self)
        ensures
            r == led_solid_theme_of(v),
    {
        match v {
            SerLedSolidTheme::Shure => LedSolidTheme::Shure,
            SerLedSolidTheme::Custom => LedSolidTheme::Custom,
        }
    }
}

impl vstd::std_specs::convert::FromSpecImpl<SerLedSolidTheme> for LedSolidTheme {
    open spec fn obeys_from_spec() -> bool {
        true
    }

    open spec fn from_spec(v: SerLedSolidTheme) -> Self {
        led_solid_theme_of(v)
    }
}

#[derive(Debug, Clone, Copy, PartialEq, Eq, Structural)]
pub enum SerLedPulsingTheme {
    Shure,
    Custom,
}

/// The stored form of a [`LedPulsingTheme`].
pub open spec fn ser_led_pulsing_theme(v: LedPulsingTheme) -> SerLedPulsingTheme {
    match v {
        LedPulsingTheme::Shure => SerLedPulsingTheme::Shure,
        LedPulsingTheme::Custom => SerLedPulsingTheme::Custom,
    }
}

/// The [`LedPulsingTheme`] a stored value stands for.
pub open spec fn led_pulsing_theme_of(v: SerLedPulsingTheme) -> LedPulsingTheme {
    match v {
        SerLedPulsingTheme::Shure => LedPulsingTheme::Shure,
        SerLedPulsingTheme::Custom => LedPulsingTheme::Custom,
    }
}

impl From<LedPulsingTheme> for SerLedPulsingTheme {
    fn from(v: LedPulsingTheme) -> (r: Self)
        ensures
            r == ser_led_pulsing_theme(v),
    {
        match v {
            LedPulsingTheme::Shure => SerLedPulsingTheme::Shure,
            LedPulsingTheme::Custom => SerLedPulsingTheme::Custom,
        }
    }
}

impl vstd::std_specs::convert::FromSpecImpl<LedPulsingTheme> for SerLedPulsingTheme {
    open spec fn obeys_from_spec() -> bool {
        true
    }

    open spec fn from_spec(v: LedPulsingTheme) -> Self {
        ser_led_pulsing_theme(v)
    }
}

impl From<SerLedPulsingTheme> for LedPulsingTheme {
    fn from(v: SerLedPulsingTheme) -> (r: Self)
        ensures
            r == led_pulsing_theme_of(v),
    {
        match v {
            SerLedPulsingTheme::Shure => LedPulsingTheme::Shure,
            SerLedPulsingTheme::Custom => LedPulsingTheme::Custom,
        }
    }
}

impl vstd::std_specs::convert::FromSpecImpl<SerLedPulsingTheme> for LedPulsingTheme {
    open spec fn obeys_from_spec() -> bool {
        true
    }

    open spec fn from_spec(v: SerLedPulsingTheme) -> Self {
        led_pulsing_theme_of(v)
    }
}

/// One EQ band as stored: gain in tenths of dB would fit as well, so the
/// stored gain is 16 bits wide.
#[derive(Debug, Clone, Copy, PartialEq, Eq, Structural)]
pub struct SerEqBand {
    pub enabled: bool,
    pub gain_db: i16,
}

/// The stored form of an EQ band.
pub open spec fn ser_band(b: EqBand) -> SerEqBand {
    SerEqBand { enabled: b.enabled, gain_db: b.gain_db as i16 }
}

/// The EQ band a stored band stands for; a stored gain outside the 8-bit
/// range saturates at −128 or +127.
pub open spec fn band_of(b: SerEqBand) -> EqBand {
    EqBand { enabled: b.enabled, gain_db: clamp_int(b.gain_db as int, -128, 127) as i8 }
}

impl From<EqBand> for SerEqBand {
    fn from(v: EqBand) -> (r: Self)
        ensures
            r == ser_band(v),
    {
        SerEqBand { enabled: v.enabled, gain_db: v.gain_db as i16 }
    }
}

impl vstd::std_specs::convert::FromSpecImpl<EqBand> for SerEqBand {
    open spec fn obeys_from_spec() -> bool {
        true
    }

    open spec fn from_spec(v: EqBand) -> Self {
        ser_band(v)
    }
}

impl From<SerEqBand> for EqBand {
    fn from(v: SerEqBand) -> (r: Self)
        ensures
            r == band_of(v),
    {
        let g: i8 = if v.gain_db < -128 {
            -128
        } else if v.gain_db > 127 {
            127
        } else {
            v.gain_db as i8
        };
        EqBand { enabled: v.enabled, gain_db: g }
    }
}

impl vstd::std_specs::convert::FromSpecImpl<SerEqBand> for EqBand {
    open spec fn obeys_from_spec() -> bool {
        true
    }

    open spec fn from_spec(v: SerEqBand) -> Self {
        band_of(v)
    }
}

impl SerReverbType {
    pub open spec fn label_text(self) -> Seq<char> {
        reverb_type_of(self).label_text()
    }

    /// Display name of the reverb type.
    pub fn label(&self) -> (r: &'static str)
        ensures
            r@ == self.label_text(),
    {
        match self {
            SerReverbType::Plate => "Plate",
            SerReverbType::Hall => "Hall",
            SerReverbType::Studio => "Studio",
        }
    }
}

// ── Defaults of settings a preset file may lack ─────────────────────────────
/// A preset file without `popper_stopper_enabled` has the popper stopper on.
pub fn default_popper_stopper() -> (r: bool)
    ensures
        r,
{
    true
}

/// A preset file without `reverb_intensity` has it at 50%.
pub fn default_reverb_intensity() -> (r: u8)
    ensures
        r == 50,
{
    50
}

/// A preset file without `led_solid_rgb` has the solid LED colour #B2FF33.
pub fn default_led_solid_rgb() -> (r: [u8; 3])
    ensures
        r@ == seq![0xB2u8, 0xFF, 0x33],
{
    let r = [0xB2u8, 0xFF, 0x33];
    assert(r@ =~= seq![0xB2u8, 0xFF, 0x33]);
    r
}

/// A preset file without `led_pulsing_rgb` has the pulsing LED colour #103FFB.
pub fn default_led_pulsing_rgb() -> (r: [u8; 3])
    ensures
        r@ == seq![0x10u8, 0x3F, 0xFB],
{
    let r = [0x10u8, 0x3F, 0xFB];
    assert(r@ =~= seq![0x10u8, 0x3F, 0xFB]);
    r
}

/// A preset file without `led_live_edge_rgb` has the live edge LEDs white.
pub fn default_led_live_edge_rgb() -> (r: [u8; 3])
    ensures
        r@ == seq![0xFFu8, 0xFF, 0xFF],
{
    let r = [0xFFu8, 0xFF, 0xFF];
    assert(r@ =~= seq![0xFFu8, 0xFF, 0xFF]);
    r
}

/// A preset file without `led_live_middle_rgb` has the live middle LEDs #1F1F1F.
pub fn default_led_live_middle_rgb() -> (r: [u8; 3])
    ensures
        r@ == seq![0x1Fu8, 0x1F, 0x1F],
{
    let r = [0x1Fu8, 0x1F, 0x1F];
    assert(r@ =~= seq![0x1Fu8, 0x1F, 0x1F]);
    r
}

/// A preset file without `led_live_interior_rgb` has the live interior LEDs off.
pub fn default_led_live_interior_rgb() -> (r: [u8; 3])
    ensures
        r@ == seq![0u8, 0, 0],
{
    let r = [0u8, 0, 0];
    assert(r@ =~= seq![0u8, 0, 0]);
    r
}

// ── Preset slot ──────────────────────────────────────────────────────────────
/// A snapshot of all configurable device settings, with a name.
///
/// Fields of all models are included; fields irrelevant to a given model keep
/// their defaults and are not applied to that device.
#[derive(Debug, Clone, PartialEq)]
pub struct PresetSlot {
    /// Human-readable name shown in the TUI.
    pub name: String,
    pub gain_db: u8,
    pub mode: SerInputMode,
    pub muted: bool,
    pub hpf: SerHpfFrequency,
    pub auto_position: SerMicPosition,
    pub auto_tone: SerAutoTone,
    pub auto_gain: SerAutoGain,
    pub phantom_power: bool,
    /// Monitor mix: 0 = 100% mic, 100 = 100% playback.
    pub monitor_mix: u8,
    pub limiter_enabled: bool,
    pub compressor: SerCompressorPreset,
    pub eq_enabled: bool,
    pub eq_bands: [SerEqBand; 5],
    pub denoiser_enabled: bool,
    pub popper_stopper_enabled: bool,
    pub mute_btn_disabled: bool,
    /// Tone: -10 (100% Dark) to +10 (100% Bright), 0 = Natural.
    pub tone: i8,
    pub mv6_gain_locked: bool,
    /// Independent playback mix channel: 0 = full mic, 100 = full playback.
    pub playback_mix: u8,
    pub reverb_on_output: bool,
    pub reverb_monitoring: bool,
    pub reverb_type: SerReverbType,
    pub reverb_intensity: u8,
    pub led_behavior: SerLedBehavior,
    pub led_brightness: SerLedBrightness,
    pub led_live_theme: SerLedLiveTheme,
    pub led_solid_theme: SerLedSolidTheme,
    pub led_pulsing_theme: SerLedPulsingTheme,
    pub led_solid_rgb: [u8; 3],
    pub led_pulsing_rgb: [u8; 3],
    pub led_live_edge_rgb: [u8; 3],
    pub led_live_middle_rgb: [u8; 3],
    pub led_live_interior_rgb: [u8; 3],
}

/// The slot holds every configurable setting of `s` (all but the lock state,
/// the serial number and the firmware version).
pub open spec fn holds_settings_of(slot: PresetSlot, s: DeviceState) -> bool {
    &&& slot.gain_db == s.gain_db
    &&& slot.mode == ser_input_mode(s.mode)
    &&& slot.muted == s.muted
    &&& slot.hpf == ser_hpf(s.hpf)
    &&& slot.auto_position == ser_mic_position(s.auto_position)
    &&& slot.auto_tone == ser_auto_tone(s.auto_tone)
    &&& slot.auto_gain == ser_auto_gain(s.auto_gain)
    &&& slot.phantom_power == s.phantom_power
    &&& slot.monitor_mix == s.monitor_mix
    &&& slot.limiter_enabled == s.limiter_enabled
    &&& slot.compressor == ser_compressor(s.compressor)
    &&& slot.eq_enabled == s.eq_enabled
    &&& forall|i: int| 0 <= i < 5 ==> #[trigger] slot.eq_bands[i] == ser_band(s.eq_bands[i])
    &&& slot.denoiser_enabled == s.denoiser_enabled
    &&& slot.popper_stopper_enabled == s.popper_stopper_enabled
    &&& slot.mute_btn_disabled == s.mute_btn_disabled
    &&& slot.tone == s.tone
    &&& slot.mv6_gain_locked == s.mv6_gain_locked
    &&& slot.playback_mix == s.playback_mix
    &&& slot.reverb_on_output == s.reverb_on_output
    &&& slot.reverb_monitoring == s.reverb_monitoring
    &&& slot.reverb_type == ser_reverb_type(s.reverb_type)
    &&& slot.reverb_intensity == s.reverb_intensity
    &&& slot.led_behavior == ser_led_behavior(s.led_behavior)
    &&& slot.led_brightness == ser_led_brightness(s.led_brightness)
    &&& slot.led_live_theme == ser_led_live_theme(s.led_live_theme)
    &&& slot.led_solid_theme == ser_led_solid_theme(s.led_solid_theme)
    &&& slot.led_pulsing_theme == ser_led_pulsing_theme(s.led_pulsing_theme)
    &&& slot.led_solid_rgb == s.led_solid_rgb
    &&& slot.led_pulsing_rgb == s.led_pulsing_rgb
    &&& slot.led_live_edge_rgb == s.led_live_edge_rgb
    &&& slot.led_live_middle_rgb == s.led_live_middle_rgb
    &&& slot.led_live_interior_rgb == s.led_live_interior_rgb
}

/// `t` carries the settings of `slot` and, for the lock state, the serial
/// number and the firmware version, the values of `base`.
pub open spec fn restored_from(t: DeviceState, slot: PresetSlot, base: DeviceState) -> bool {
    &&& t == DeviceState {
        gain_db: slot.gain_db,
        mode: input_mode_of(slot.mode),
        muted: slot.muted,
        hpf: hpf_of(slot.hpf),
        auto_position: mic_position_of(slot.auto_position),
        auto_tone: auto_tone_of(slot.auto_tone),
        auto_gain: auto_gain_of(slot.auto_gain),
        phantom_power: slot.phantom_power,
        monitor_mix: slot.monitor_mix,
        limiter_enabled: slot.limiter_enabled,
        compressor: compressor_of(slot.compressor),
        eq_enabled: slot.eq_enabled,
        eq_bands: t.eq_bands,
        denoiser_enabled: slot.denoiser_enabled,
        popper_stopper_enabled: slot.popper_stopper_enabled,
        mute_btn_disabled: slot.mute_btn_disabled,
        tone: slot.tone,
        mv6_gain_locked: slot.mv6_gain_locked,
        playback_mix: slot.playback_mix,
        reverb_on_output: slot.reverb_on_output,
        reverb_monitoring: slot.reverb_monitoring,
        reverb_type: reverb_type_of(slot.reverb_type),
        reverb_intensity: slot.reverb_intensity,
        led_behavior: led_behavior_of(slot.led_behavior),
        led_brightness: led_brightness_of(slot.led_brightness),
        led_live_theme: led_live_theme_of(slot.led_live_theme),
        led_solid_theme: led_solid_theme_of(slot.led_solid_theme),
        led_pulsing_theme: led_pulsing_theme_of(slot.led_pulsing_theme),
        led_solid_rgb: slot.led_solid_rgb,
        led_pulsing_rgb: slot.led_pulsing_rgb,
        led_live_edge_rgb: slot.led_live_edge_rgb,
        led_live_middle_rgb: slot.led_live_middle_rgb,
        led_live_interior_rgb: slot.led_live_interior_rgb,
        ..base
    }
    &&& forall|i: int| 0 <= i < 5 ==> #[trigger] t.eq_bands[i] == band_of(slot.eq_bands[i])
}

impl PresetSlot {
    /// Build a preset snapshot from a live `DeviceState`.
    pub fn from_device_state(name: &str, state: &DeviceState) -> (slot: Self)
        ensures
            slot.name@ == name@,
            holds_settings_of(slot, *state),
    {
        let b = &state.eq_bands;
        PresetSlot {
            name: String::from_str(name),
            gain_db: state.gain_db,
            mode: SerInputMode::from(state.mode),
            muted: state.muted,
            hpf: SerHpfFrequency::from(state.hpf),
            auto_position: SerMicPosition::from(state.auto_position),
            auto_tone: SerAutoTone::from(state.auto_tone),
            auto_gain: SerAutoGain::from(state.auto_gain),
            phantom_power: state.phantom_power,
            monitor_mix: state.monitor_mix,
            limiter_enabled: state.limiter_enabled,
            compressor: SerCompressorPreset::from(state.compressor),
            eq_enabled: state.eq_enabled,
            eq_bands: [
                SerEqBand::from(b[0]),
                SerEqBand::from(b[1]),
                SerEqBand::from(b[2]),
                SerEqBand::from(b[3]),
                SerEqBand::from(b[4]),
            ],
            denoiser_enabled: state.denoiser_enabled,
            popper_stopper_enabled: state.popper_stopper_enabled,
            mute_btn_disabled: state.mute_btn_disabled,
            tone: state.tone,
            mv6_gain_locked: state.mv6_gain_locked,
            playback_mix: state.playback_mix,
            reverb_on_output: state.reverb_on_output,
            reverb_monitoring: state.reverb_monitoring,
            reverb_type: SerReverbType::from(state.reverb_type),
            reverb_intensity: state.reverb_intensity,
            led_behavior: SerLedBehavior::from(state.led_behavior),
            led_brightness: SerLedBrightness::from(state.led_brightness),
            led_live_theme: SerLedLiveTheme::from(state.led_live_theme),
            led_solid_theme: SerLedSolidTheme::from(state.led_solid_theme),
            led_pulsing_theme: SerLedPulsingTheme::from(state.led_pulsing_theme),
            led_solid_rgb: state.led_solid_rgb,
            led_pulsing_rgb: state.led_pulsing_rgb,
            led_live_edge_rgb: state.led_live_edge_rgb,
            led_live_middle_rgb: state.led_live_middle_rgb,
            led_live_interior_rgb: state.led_live_interior_rgb,
        }
    }

    /// Apply this preset's settings onto a `DeviceState`, keeping its lock
    /// state, serial number and firmware version.
    pub fn apply_to_device_state(&self, state: &mut DeviceState)
        ensures
            restored_from(*final(state), *self, *old(state)),
    {
        state.gain_db = self.gain_db;
        state.mode = InputMode::from(self.mode);
        state.muted = self.muted;
        state.hpf = HpfFrequency::from(self.hpf);
        state.auto_position = MicPosition::from(self.auto_position);
        state.auto_tone = AutoTone::from(self.auto_tone);
        state.auto_gain = AutoGain::from(self.auto_gain);
        state.phantom_power = self.phantom_power;
        state.monitor_mix = self.monitor_mix;
        state.limiter_enabled = self.limiter_enabled;
        state.compressor = CompressorPreset::from(self.compressor);
        state.eq_enabled = self.eq_enabled;
        state.eq_bands = [
            EqBand::from(self.eq_bands[0]),
            EqBand::from(self.eq_bands[1]),
            EqBand::from(self.eq_bands[2]),
            EqBand::from(self.eq_bands[3]),
            EqBand::from(self.eq_bands[4]),
        ];
        state.denoiser_enabled = self.denoiser_enabled;
        state.popper_stopper_enabled = self.popper_stopper_enabled;
        state.mute_btn_disabled = self.mute_btn_disabled;
        state.tone = self.tone;
        state.mv6_gain_locked = self.mv6_gain_locked;
        state.playback_mix = self.playback_mix;
        state.reverb_on_output = self.reverb_on_output;
        state.reverb_monitoring = self.reverb_monitoring;
        state.reverb_type = ReverbType::from(self.reverb_type);
        state.reverb_intensity = self.reverb_intensity;
        state.led_behavior = LedBehavior::from(self.led_behavior);
        state.led_brightness = LedBrightness::from(self.led_brightness);
        state.led_live_theme = LedLiveTheme::from(self.led_live_theme);
        state.led_solid_theme = LedSolidTheme::from(self.led_solid_theme);
        state.led_pulsing_theme = LedPulsingTheme::from(self.led_pulsing_theme);
        state.led_solid_rgb = self.led_solid_rgb;
        state.led_pulsing_rgb = self.led_pulsing_rgb;
        state.led_live_edge_rgb = self.led_live_edge_rgb;
        state.led_live_middle_rgb = self.led_live_middle_rgb;
        state.led_live_interior_rgb = self.led_live_interior_rgb;
    }
}

/// The file name of slot `index` (0-based): `preset_1.toml` for slot 0.
pub open spec fn preset_file_text(index: nat) -> Seq<char> {
    "preset_"@ + decimal_text(index + 1) + ".toml"@
}

/// The file name of slot `index` (0-based), numbered from 1.
pub fn preset_file_name(index: usize) -> (r: String)
    requires
        index < usize::MAX,
    ensures
        r@ == preset_file_text(index as nat),
{
    let mut r = String::from_str("preset_");
    append_decimal(&mut r, (index as u64) + 1);
    r.append(".toml");
    r
}

// ── One-line summary ─────────────────────────────────────────────────────────
/// The separator between summary items.
pub open spec fn sep() -> Seq<char> {
    " · "@
}

pub open spec fn hpf_summary(h: SerHpfFrequency) -> Seq<char> {
    match hpf_of(h) {
        HpfFrequency::Off => "HPF off"@,
        f => "HPF "@ + f.label_text(),
    }
}

/// The tone as text: "Natural" at 0, otherwise ten times the value as a
/// percentage towards Bright (positive) or Dark (negative).
pub open spec fn tone_summary(t: i8) -> Seq<char> {
    if t == 0 {
        "Natural"@
    } else if t > 0 {
        decimal_text((t * 10) as nat) + "% Bright"@
    } else {
        decimal_text((-(t * 10)) as nat) + "% Dark"@
    }
}

pub open spec fn denoiser_summary(on: bool) -> Seq<char> {
    if on { "Denoiser on"@ } else { "Denoiser off"@ }
}

pub open spec fn popper_summary(on: bool) -> Seq<char> {
    if on { "Popper on"@ } else { "Popper off"@ }
}

pub open spec fn phantom_summary(on: bool) -> Seq<char> {
    if on { "48V on"@ } else { "48V off"@ }
}

pub open spec fn limiter_summary(on: bool) -> Seq<char> {
    if on { "Limiter on"@ } else { "Limiter off"@ }
}

pub open spec fn eq_summary(on: bool) -> Seq<char> {
    if on { "EQ on"@ } else { "EQ off"@ }
}

pub open spec fn reverb_summary(slot: PresetSlot) -> Seq<char> {
    if slot.reverb_on_output {
        "Reverb: "@ + slot.reverb_type.label_text() + " "@ + decimal_text(slot.reverb_intensity as nat)
            + "%"@
    } else {
        "Reverb: off"@
    }
}

/// Summary items shared by the MV6 and MV7+: gain, denoiser, popper
/// stopper, high-pass filter, tone.
pub open spec fn mic_summary(slot: PresetSlot) -> Seq<char> {
    decimal_text(slot.gain_db as nat) + "dB"@ + sep() + denoiser_summary(slot.denoiser_enabled)
        + sep() + popper_summary(slot.popper_stopper_enabled) + sep() + hpf_summary(slot.hpf)
        + sep() + "Tone: "@ + tone_summary(slot.tone)
}

pub open spec fn gen2_summary(slot: PresetSlot) -> Seq<char> {
    match input_mode_of(slot.mode) {
        InputMode::Auto => "Auto"@ + sep() + phantom_summary(slot.phantom_power) + sep()
            + denoiser_summary(slot.denoiser_enabled) + sep() + popper_summary(
            slot.popper_stopper_enabled,
        ) + sep() + "Tone: "@ + tone_summary(slot.tone),
        InputMode::Manual => "Manual"@ + sep() + decimal_text(slot.gain_db as nat) + "dB"@ + sep()
            + limiter_summary(slot.limiter_enabled) + sep() + "Comp: "@ + compressor_of(
            slot.compressor,
        ).label_text() + sep() + phantom_summary(slot.phantom_power) + sep() + denoiser_summary(
            slot.denoiser_enabled,
        ) + sep() + popper_summary(slot.popper_stopper_enabled) + sep() + hpf_summary(slot.hpf),
    }
}

pub open spec fn mvx2u_summary(slot: PresetSlot) -> Seq<char> {
    match input_mode_of(slot.mode) {
        InputMode::Auto => "Auto"@ + sep() + auto_tone_of(slot.auto_tone).label_text() + sep()
            + auto_gain_of(slot.auto_gain).label_text() + sep() + mic_position_of(
            slot.auto_position,
        ).label_text() + sep() + phantom_summary(slot.phantom_power),
        InputMode::Manual => "Manual"@ + sep() + decimal_text(slot.gain_db as nat) + "dB"@ + sep()
            + eq_summary(slot.eq_enabled) + sep() + "Comp: "@ + compressor_of(
            slot.compressor,
        ).label_text() + sep() + phantom_summary(slot.phantom_power) + sep() + hpf_summary(
            slot.hpf,
        ),
    }
}

/// The one-line summary of a slot for a device model: gain, denoiser,
/// popper stopper, high-pass filter and tone for the MV6 (and reverb for the
/// MV7+); for the MVX2U models the mode and the settings that matter in it.
pub open spec fn summary_text(slot: PresetSlot, model: DeviceModel) -> Seq<char> {
    match model {
        DeviceModel::Mv6 => mic_summary(slot),
        DeviceModel::Mv7Plus => mic_summary(slot) + sep() + reverb_summary(slot),
        DeviceModel::Mvx2uGen2 => gen2_summary(slot),
        DeviceModel::Mvx2u => mvx2u_summary(slot),
    }
}

fn hpf_piece(h: SerHpfFrequency) -> (r: String)
    ensures
        r@ == hpf_summary(h),
{
    let f = HpfFrequency::from(h);
    match f {
        HpfFrequency::Off => String::from_str("HPF off"),
        _ => {
            let mut r = String::from_str("HPF ");
            r.append(f.label());
            r
        },
    }
}

fn on_off(on: bool, yes: &'static str, no: &'static str) -> (r: &'static str)
    ensures
        r@ == (if on { yes@ } else { no@ }),
{
    if on { yes } else { no }
}

impl PresetSlot {
    /// The denoiser state as summary text.
    pub fn denoiser_str(&self) -> (r: &'static str)
        ensures
            r@ == denoiser_summary(self.denoiser_enabled),
    {
        if self.denoiser_enabled {
            "Denoiser on"
        } else {
            "Denoiser off"
        }
    }

    /// The popper stopper state as summary text.
    pub fn popper_str(&self) -> (r: &'static str)
        ensures
            r@ == popper_summary(self.popper_stopper_enabled),
    {
        if self.popper_stopper_enabled {
            "Popper on"
        } else {
            "Popper off"
        }
    }

    /// The tone as summary text.
    pub fn tone_str(&self) -> (r: String)
        ensures
            r@ == tone_summary(self.tone),
    {
        let t = self.tone;
        if t == 0 {
            String::from_str("Natural")
        } else if t > 0 {
            let mut r = String::new();
            append_decimal(&mut r, (t as u64) * 10);
            r.append("% Bright");
            r
        } else {
            let mut r = String::new();
            let magnitude: i32 = -((t as i32) * 10);
            append_decimal(&mut r, magnitude as u64);
            r.append("% Dark");
            r
        }
    }

    fn reverb_piece(&self) -> (r: String)
        ensures
            r@ == reverb_summary(*self),
    {
        if self.reverb_on_output {
            let mut r = String::from_str("Reverb: ");
            r.append(self.reverb_type.label());
            r.append(" ");
            append_decimal(&mut r, self.reverb_intensity as u64);
            r.append("%");
            r
        } else {
            String::from_str("Reverb: off")
        }
    }

    fn mic_piece(&self) -> (r: String)
        ensures
            r@ == mic_summary(*self),
    {
        let sep = " · ";
        let mut r = String::new();
        append_decimal(&mut r, self.gain_db as u64);
        r.append("dB");
        r.append(sep);
        r.append(self.denoiser_str());
        r.append(sep);
        r.append(self.popper_str());
        r.append(sep);
        r.append(hpf_piece(self.hpf).as_str());
        r.append(sep);
        r.append("Tone: ");
        r.append(self.tone_str().as_str());
        r
    }

    fn gen2_piece(&self) -> (r: String)
        ensures
            r@ == gen2_summary(*self),
    {
        let sep = " · ";
        let mut r = String::new();
        match InputMode::from(self.mode) {
            InputMode::Auto => {
                r.append("Auto");
                r.append(sep);
                r.append(on_off(self.phantom_power, "48V on", "48V off"));
                r.append(sep);
                r.append(self.denoiser_str());
                r.append(sep);
                r.append(self.popper_str());
                r.append(sep);
                r.append("Tone: ");
                r.append(self.tone_str().as_str());
            },
            InputMode::Manual => {
                r.append("Manual");
                r.append(sep);
                append_decimal(&mut r, self.gain_db as u64);
                r.append("dB");
                r.append(sep);
                r.append(on_off(self.limiter_enabled, "Limiter on", "Limiter off"));
                r.append(sep);
                r.append("Comp: ");
                r.append(CompressorPreset::from(self.compressor).label());
                r.append(sep);
                r.append(on_off(self.phantom_power, "48V on", "48V off"));
                r.append(sep);
                r.append(self.denoiser_str());
                r.append(sep);
                r.append(self.popper_str());
                r.append(sep);
                r.append(hpf_piece(self.hpf).as_str());
            },
        }
        r
    }

    fn mvx2u_piece(&self) -> (r: String)
        ensures
            r@ == mvx2u_summary(*self),
    {
        let sep = " · ";
        let mut r = String::new();
        match InputMode::from(self.mode) {
            InputMode::Auto => {
                r.append("Auto");
                r.append(sep);
                r.append(AutoTone::from(self.auto_tone).label());
                r.append(sep);
                r.append(AutoGain::from(self.auto_gain).label());
                r.append(sep);
                r.append(MicPosition::from(self.auto_position).label());
                r.append(sep);
                r.append(on_off(self.phantom_power, "48V on", "48V off"));
            },
            InputMode::Manual => {
                r.append("Manual");
                r.append(sep);
                append_decimal(&mut r, self.gain_db as u64);
                r.append("dB");
                r.append(sep);
                r.append(on_off(self.eq_enabled, "EQ on", "EQ off"));
                r.append(sep);
                r.append("Comp: ");
                r.append(CompressorPreset::from(self.compressor).label());
                r.append(sep);
                r.append(on_off(self.phantom_power, "48V on", "48V off"));
                r.append(sep);
                r.append(hpf_piece(self.hpf).as_str());
            },
        }
        r
    }

    /// One-line summary of the key settings for display in the TUI.
    ///
    /// The model decides which settings are shown, since the models have
    /// different configurable fields.
    pub fn summary(&self, model: DeviceModel) -> (r: String)
        ensures
            r@ == summary_text(*self, model),
    {
        match model {
            DeviceModel::Mv6 => self.mic_piece(),
            DeviceModel::Mv7Plus => {
                let mut r = self.mic_piece();
                r.append(" · ");
                r.append(self.reverb_piece().as_str());
                r
            },
            DeviceModel::Mvx2uGen2 => self.gen2_piece(),
            DeviceModel::Mvx2u => self.mvx2u_piece(),
        }
    }
}

} // verus!
