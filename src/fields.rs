//! The enumerated bit fields of the chip's registers.
//!
//! Each field type converts from the bits of its field and back. A field whose
//! every code the chip defines converts totally; one with reserved codes
//! either reads them as an explicit `Unknown` value or refuses them, as the
//! chip's register map asks.

use vstd::prelude::*;

verus! {

/// Whether a fast-charge protocol is in use (protocol indication, bit 7).
#[derive(Clone, Copy, Debug, PartialEq, Eq, Structural)]
pub enum ProtocolStatus {
    OffLine,
    OnLine,
}

impl ProtocolStatus {
    pub open spec fn spec_from_bit(set: bool) -> Self {
        if set {
            ProtocolStatus::OnLine
        } else {
            ProtocolStatus::OffLine
        }
    }

    /// The field's value for a set (`true`) or a clear bit.
    #[verifier::when_used_as_spec(spec_from_bit)]
    pub fn from_bit(set: bool) -> (r: Self)
        ensures
            r == Self::spec_from_bit(set),
    {
        if set {
            ProtocolStatus::OnLine
        } else {
            ProtocolStatus::OffLine
        }
    }

    pub open spec fn spec_bits(self) -> u8 {
        match self {
            ProtocolStatus::OffLine => 0,
            ProtocolStatus::OnLine => 1,
        }
    }

    /// The field's code, as it stands in the register before shifting.
    /// Reading the code back gives the same value.
    #[verifier::when_used_as_spec(spec_bits)]
    pub fn bits(self) -> (r: u8)
        ensures
            r == self.spec_bits(),
            Self::spec_from_bit(r == 1) == self,
    {
        match self {
            ProtocolStatus::OffLine => 0,
            ProtocolStatus::OnLine => 1,
        }
    }
}

/// Whether the output sits at 5 V or at a voltage a protocol asked for
/// (protocol indication, bit 6).
#[derive(Clone, Copy, Debug, PartialEq, Eq, Structural)]
pub enum VoltageStatus {
    _5V,
    ProtocolVoltage,
}

impl VoltageStatus {
    pub open spec fn spec_from_bit(set: bool) -> Self {
        if set {
            VoltageStatus::ProtocolVoltage
        } else {
            VoltageStatus::_5V
        }
    }

    /// The field's value for a set (`true`) or a clear bit.
    #[verifier::when_used_as_spec(spec_from_bit)]
    pub fn from_bit(set: bool) -> (r: Self)
        ensures
            r == Self::spec_from_bit(set),
    {
        if set {
            VoltageStatus::ProtocolVoltage
        } else {
            VoltageStatus::_5V
        }
    }

    pub open spec fn spec_bits(self) -> u8 {
        match self {
            VoltageStatus::_5V => 0,
            VoltageStatus::ProtocolVoltage => 1,
        }
    }

    /// The field's code, as it stands in the register before shifting.
    /// Reading the code back gives the same value.
    #[verifier::when_used_as_spec(spec_bits)]
    pub fn bits(self) -> (r: u8)
        ensures
            r == self.spec_bits(),
            Self::spec_from_bit(r == 1) == self,
    {
        match self {
            VoltageStatus::_5V => 0,
            VoltageStatus::ProtocolVoltage => 1,
        }
    }
}

/// Whether the port is switched on (system status, bit 1).
#[derive(Clone, Copy, Debug, PartialEq, Eq, Structural)]
pub enum PortStatus {
    Off,
    On,
}

impl PortStatus {
    pub open spec fn spec_from_bit(set: bool) -> Self {
        if set {
            PortStatus::On
        } else {
            PortStatus::Off
        }
    }

    /// The field's value for a set (`true`) or a clear bit.
    #[verifier::when_used_as_spec(spec_from_bit)]
    pub fn from_bit(set: bool) -> (r: Self)
        ensures
            r == Self::spec_from_bit(set),
    {
        if set {
            PortStatus::On
        } else {
            PortStatus::Off
        }
    }

    pub open spec fn spec_bits(self) -> u8 {
        match self {
            PortStatus::Off => 0,
            PortStatus::On => 1,
        }
    }

    /// The field's code, as it stands in the register before shifting.
    /// Reading the code back gives the same value.
    #[verifier::when_used_as_spec(spec_bits)]
    pub fn bits(self) -> (r: u8)
        ensures
            r == self.spec_bits(),
            Self::spec_from_bit(r == 1) == self,
    {
        match self {
            PortStatus::Off => 0,
            PortStatus::On => 1,
        }
    }
}

/// Whether the buck converter is running (system status, bit 0).
#[derive(Clone, Copy, Debug, PartialEq, Eq, Structural)]
pub enum BuckStatus {
    Off,
    On,
}

impl BuckStatus {
    pub open spec fn spec_from_bit(set: bool) -> Self {
        if set {
            BuckStatus::On
        } else {
            BuckStatus::Off
        }
    }

    /// The field's value for a set (`true`) or a clear bit.
    #[verifier::when_used_as_spec(spec_from_bit)]
    pub fn from_bit(set: bool) -> (r: Self)
        ensures
            r == Self::spec_from_bit(set),
    {
        if set {
            BuckStatus::On
        } else {
            BuckStatus::Off
        }
    }

    pub open spec fn spec_bits(self) -> u8 {
        match self {
            BuckStatus::Off => 0,
            BuckStatus::On => 1,
        }
    }

    /// The field's code, as it stands in the register before shifting.
    /// Reading the code back gives the same value.
    #[verifier::when_used_as_spec(spec_bits)]
    pub fn bits(self) -> (r: u8)
        ensures
            r == self.spec_bits(),
            Self::spec_from_bit(r == 1) == self,
    {
        match self {
            BuckStatus::Off => 0,
            BuckStatus::On => 1,
        }
    }
}

/// Input over-voltage protection (abnormal case, bit 4).
#[derive(Clone, Copy, Debug, PartialEq, Eq, Structural)]
pub enum VinOvpStatus {
    Normal,
    Ovp,
}

impl VinOvpStatus {
    pub open spec fn spec_from_bit(set: bool) -> Self {
        if set {
            VinOvpStatus::Ovp
        } else {
            VinOvpStatus::Normal
        }
    }

    /// The field's value for a set (`true`) or a clear bit.
    #[verifier::when_used_as_spec(spec_from_bit)]
    pub fn from_bit(set: bool) -> (r: Self)
        ensures
            r == Self::spec_from_bit(set),
    {
        if set {
            VinOvpStatus::Ovp
        } else {
            VinOvpStatus::Normal
        }
    }

    pub open spec fn spec_bits(self) -> u8 {
        match self {
            VinOvpStatus::Normal => 0,
            VinOvpStatus::Ovp => 1,
        }
    }

    /// The field's code, as it stands in the register before shifting.
    /// Reading the code back gives the same value.
    #[verifier::when_used_as_spec(spec_bits)]
    pub fn bits(self) -> (r: u8)
        ensures
            r == self.spec_bits(),
            Self::spec_from_bit(r == 1) == self,
    {
        match self {
            VinOvpStatus::Normal => 0,
            VinOvpStatus::Ovp => 1,
        }
    }
}

/// Over-temperature alarm (abnormal case, bit 2).
#[derive(Clone, Copy, Debug, PartialEq, Eq, Structural)]
pub enum OverTemperatureAlarmStatus {
    Normal,
    Alarm,
}

impl OverTemperatureAlarmStatus {
    pub open spec fn spec_from_bit(set: bool) -> Self {
        if set {
            OverTemperatureAlarmStatus::Alarm
        } else {
            OverTemperatureAlarmStatus::Normal
        }
    }

    /// The field's value for a set (`true`) or a clear bit.
    #[verifier::when_used_as_spec(spec_from_bit)]
    pub fn from_bit(set: bool) -> (r: Self)
        ensures
            r == Self::spec_from_bit(set),
    {
        if set {
            OverTemperatureAlarmStatus::Alarm
        } else {
            OverTemperatureAlarmStatus::Normal
        }
    }

    pub open spec fn spec_bits(self) -> u8 {
        match self {
            OverTemperatureAlarmStatus::Normal => 0,
            OverTemperatureAlarmStatus::Alarm => 1,
        }
    }

    /// The field's code, as it stands in the register before shifting.
    /// Reading the code back gives the same value.
    #[verifier::when_used_as_spec(spec_bits)]
    pub fn bits(self) -> (r: u8)
        ensures
            r == self.spec_bits(),
            Self::spec_from_bit(r == 1) == self,
    {
        match self {
            OverTemperatureAlarmStatus::Normal => 0,
            OverTemperatureAlarmStatus::Alarm => 1,
        }
    }
}

/// Over-temperature shutdown (abnormal case, bit 1).
#[derive(Clone, Copy, Debug, PartialEq, Eq, Structural)]
pub enum OverTemperatureShutdownStatus {
    Normal,
    Shutdown,
}

impl OverTemperatureShutdownStatus {
    pub open spec fn spec_from_bit(set: bool) -> Self {
        if set {
            OverTemperatureShutdownStatus::Shutdown
        } else {
            OverTemperatureShutdownStatus::Normal
        }
    }

    /// The field's value for a set (`true`) or a clear bit.
    #[verifier::when_used_as_spec(spec_from_bit)]
    pub fn from_bit(set: bool) -> (r: Self)
        ensures
            r == Self::spec_from_bit(set),
    {
        if set {
            OverTemperatureShutdownStatus::Shutdown
        } else {
            OverTemperatureShutdownStatus::Normal
        }
    }

    pub open spec fn spec_bits(self) -> u8 {
        match self {
            OverTemperatureShutdownStatus::Normal => 0,
            OverTemperatureShutdownStatus::Shutdown => 1,
        }
    }

    /// The field's code, as it stands in the register before shifting.
    /// Reading the code back gives the same value.
    #[verifier::when_used_as_spec(spec_bits)]
    pub fn bits(self) -> (r: u8)
        ensures
            r == self.spec_bits(),
            Self::spec_from_bit(r == 1) == self,
    {
        match self {
            OverTemperatureShutdownStatus::Normal => 0,
            OverTemperatureShutdownStatus::Shutdown => 1,
        }
    }
}

/// Output short circuit (abnormal case, bit 0).
#[derive(Clone, Copy, Debug, PartialEq, Eq, Structural)]
pub enum OutputShortCircuitStatus {
    Normal,
    Short,
}

impl OutputShortCircuitStatus {
    pub open spec fn spec_from_bit(set: bool) -> Self {
        if set {
            OutputShortCircuitStatus::Short
        } else {
            OutputShortCircuitStatus::Normal
        }
    }

    /// The field's value for a set (`true`) or a clear bit.
    #[verifier::when_used_as_spec(spec_from_bit)]
    pub fn from_bit(set: bool) -> (r: Self)
        ensures
            r == Self::spec_from_bit(set),
    {
        if set {
            OutputShortCircuitStatus::Short
        } else {
            OutputShortCircuitStatus::Normal
        }
    }

    pub open spec fn spec_bits(self) -> u8 {
        match self {
            OutputShortCircuitStatus::Normal => 0,
            OutputShortCircuitStatus::Short => 1,
        }
    }

    /// The field's code, as it stands in the register before shifting.
    /// Reading the code back gives the same value.
    #[verifier::when_used_as_spec(spec_bits)]
    pub fn bits(self) -> (r: u8)
        ensures
            r == self.spec_bits(),
            Self::spec_from_bit(r == 1) == self,
    {
        match self {
            OutputShortCircuitStatus::Normal => 0,
            OutputShortCircuitStatus::Short => 1,
        }
    }
}

/// Whether the buck converter is forced off for one second (buck force-off
/// configuration, bit 7).
#[derive(Clone, Copy, Debug, PartialEq, Eq, Structural)]
pub enum BuckForceOff {
    Nothing,
    TurnOffOneSecond,
}

impl BuckForceOff {
    pub open spec fn spec_from_bit(set: bool) -> Self {
        if set {
            BuckForceOff::TurnOffOneSecond
        } else {
            BuckForceOff::Nothing
        }
    }

    /// The field's value for a set (`true`) or a clear bit.
    #[verifier::when_used_as_spec(spec_from_bit)]
    pub fn from_bit(set: bool) -> (r: Self)
        ensures
            r == Self::spec_from_bit(set),
    {
        if set {
            BuckForceOff::TurnOffOneSecond
        } else {
            BuckForceOff::Nothing
        }
    }

    pub open spec fn spec_bits(self) -> u8 {
        match self {
            BuckForceOff::Nothing => 0,
            BuckForceOff::TurnOffOneSecond => 1,
        }
    }

    /// The field's code, as it stands in the register before shifting.
    /// Reading the code back gives the same value.
    #[verifier::when_used_as_spec(spec_bits)]
    pub fn bits(self) -> (r: u8)
        ensures
            r == self.spec_bits(),
            Self::spec_from_bit(r == 1) == self,
    {
        match self {
            BuckForceOff::Nothing => 0,
            BuckForceOff::TurnOffOneSecond => 1,
        }
    }
}

/// Whether the CC lines are left undriven while the buck converter is forced
/// off (buck force-off configuration, bit 6).
#[derive(Clone, Copy, Debug, PartialEq, Eq, Structural)]
pub enum CCUnDrivenDurationBuckForceOff {
    Driven,
    UnDriven,
}

impl CCUnDrivenDurationBuckForceOff {
    pub open spec fn spec_from_bit(set: bool) -> Self {
        if set {
            CCUnDrivenDurationBuckForceOff::UnDriven
        } else {
            CCUnDrivenDurationBuckForceOff::Driven
        }
    }

    /// The field's value for a set (`true`) or a clear bit.
    #[verifier::when_used_as_spec(spec_from_bit)]
    pub fn from_bit(set: bool) -> (r: Self)
        ensures
            r == Self::spec_from_bit(set),
    {
        if set {
            CCUnDrivenDurationBuckForceOff::UnDriven
        } else {
            CCUnDrivenDurationBuckForceOff::Driven
        }
    }

    pub open spec fn spec_bits(self) -> u8 {
        match self {
            CCUnDrivenDurationBuckForceOff::Driven => 0,
            CCUnDrivenDurationBuckForceOff::UnDriven => 1,
        }
    }

    /// The field's code, as it stands in the register before shifting.
    /// Reading the code back gives the same value.
    #[verifier::when_used_as_spec(spec_bits)]
    pub fn bits(self) -> (r: u8)
        ensures
            r == self.spec_bits(),
            Self::spec_from_bit(r == 1) == self,
    {
        match self {
            CCUnDrivenDurationBuckForceOff::Driven => 0,
            CCUnDrivenDurationBuckForceOff::UnDriven => 1,
        }
    }
}

/// SCP voltage range (fast-charge configuration 5, bit 6).
#[derive(Clone, Copy, Debug, PartialEq, Eq, Structural)]
pub enum ScpSelect {
    LowVoltage,
    HighVoltage,
}

impl ScpSelect {
    pub open spec fn spec_from_bit(set: bool) -> Self {
        if set {
            ScpSelect::HighVoltage
        } else {
            ScpSelect::LowVoltage
        }
    }

    /// The field's value for a set (`true`) or a clear bit.
    #[verifier::when_used_as_spec(spec_from_bit)]
    pub fn from_bit(set: bool) -> (r: Self)
        ensures
            r == Self::spec_from_bit(set),
    {
        if set {
            ScpSelect::HighVoltage
        } else {
            ScpSelect::LowVoltage
        }
    }

    pub open spec fn spec_bits(self) -> u8 {
        match self {
            ScpSelect::LowVoltage => 0,
            ScpSelect::HighVoltage => 1,
        }
    }

    /// The field's code, as it stands in the register before shifting.
    /// Reading the code back gives the same value.
    #[verifier::when_used_as_spec(spec_bits)]
    pub fn bits(self) -> (r: u8)
        ensures
            r == self.spec_bits(),
            Self::spec_from_bit(r == 1) == self,
    {
        match self {
            ScpSelect::LowVoltage => 0,
            ScpSelect::HighVoltage => 1,
        }
    }
}

/// Highest voltage offered over PE 2.0 (fast-charge configuration 5, bit 5).
#[derive(Clone, Copy, Debug, PartialEq, Eq, Structural)]
pub enum Pe2_0MaxVoltage {
    _12V,
    _20V,
}

impl Pe2_0MaxVoltage {
    pub open spec fn spec_from_bit(set: bool) -> Self {
        if set {
            Pe2_0MaxVoltage::_20V
        } else {
            Pe2_0MaxVoltage::_12V
        }
    }

    /// The field's value for a set (`true`) or a clear bit.
    #[verifier::when_used_as_spec(spec_from_bit)]
    pub fn from_bit(set: bool) -> (r: Self)
        ensures
            r == Self::spec_from_bit(set),
    {
        if set {
            Pe2_0MaxVoltage::_20V
        } else {
            Pe2_0MaxVoltage::_12V
        }
    }

    pub open spec fn spec_bits(self) -> u8 {
        match self {
            Pe2_0MaxVoltage::_12V => 0,
            Pe2_0MaxVoltage::_20V => 1,
        }
    }

    /// The field's code, as it stands in the register before shifting.
    /// Reading the code back gives the same value.
    #[verifier::when_used_as_spec(spec_bits)]
    pub fn bits(self) -> (r: u8)
        ensures
            r == self.spec_bits(),
            Self::spec_from_bit(r == 1) == self,
    {
        match self {
            Pe2_0MaxVoltage::_12V => 0,
            Pe2_0MaxVoltage::_20V => 1,
        }
    }
}

/// What happens when the PD output current passes its limit
/// (fast-charge configuration 3, bit 7).
#[derive(Clone, Copy, Debug, PartialEq, Eq, Structural)]
pub enum PdCurrentLimitProtectMethod {
    /// The output voltage drops while the current is over the limit.
    UV,
    /// The output voltage falls back to 5 V.
    OC,
}

impl PdCurrentLimitProtectMethod {
    pub open spec fn spec_from_bit(set: bool) -> Self {
        if set {
            PdCurrentLimitProtectMethod::OC
        } else {
            PdCurrentLimitProtectMethod::UV
        }
    }

    /// The field's value for a set (`true`) or a clear bit.
    #[verifier::when_used_as_spec(spec_from_bit)]
    pub fn from_bit(set: bool) -> (r: Self)
        ensures
            r == Self::spec_from_bit(set),
    {
        if set {
            PdCurrentLimitProtectMethod::OC
        } else {
            PdCurrentLimitProtectMethod::UV
        }
    }

    pub open spec fn spec_bits(self) -> u8 {
        match self {
            PdCurrentLimitProtectMethod::UV => 0,
            PdCurrentLimitProtectMethod::OC => 1,
        }
    }

    /// The field's code, as it stands in the register before shifting.
    /// Reading the code back gives the same value.
    #[verifier::when_used_as_spec(spec_bits)]
    pub fn bits(self) -> (r: u8)
        ensures
            r == self.spec_bits(),
            Self::spec_from_bit(r == 1) == self,
    {
        match self {
            PdCurrentLimitProtectMethod::UV => 0,
            PdCurrentLimitProtectMethod::OC => 1,
        }
    }
}

/// What happens when the QC 3.0 output current passes its limit
/// (fast-charge configuration 3, bit 6).
#[derive(Clone, Copy, Debug, PartialEq, Eq, Structural)]
pub enum QC3_0CurrentLimitProtectMethod {
    CCLoop,
    VoltageDrop,
}

impl QC3_0CurrentLimitProtectMethod {
    pub open spec fn spec_from_bit(set: bool) -> Self {
        if set {
            QC3_0CurrentLimitProtectMethod::VoltageDrop
        } else {
            QC3_0CurrentLimitProtectMethod::CCLoop
        }
    }

    /// The field's value for a set (`true`) or a clear bit.
    #[verifier::when_used_as_spec(spec_from_bit)]
    pub fn from_bit(set: bool) -> (r: Self)
        ensures
            r == Self::spec_from_bit(set),
    {
        if set {
            QC3_0CurrentLimitProtectMethod::VoltageDrop
        } else {
            QC3_0CurrentLimitProtectMethod::CCLoop
        }
    }

    pub open spec fn spec_bits(self) -> u8 {
        match self {
            QC3_0CurrentLimitProtectMethod::CCLoop => 0,
            QC3_0CurrentLimitProtectMethod::VoltageDrop => 1,
        }
    }

    /// The field's code, as it stands in the register before shifting.
    /// Reading the code back gives the same value.
    #[verifier::when_used_as_spec(spec_bits)]
    pub fn bits(self) -> (r: u8)
        ensures
            r == self.spec_bits(),
            Self::spec_from_bit(r == 1) == self,
    {
        match self {
            QC3_0CurrentLimitProtectMethod::CCLoop => 0,
            QC3_0CurrentLimitProtectMethod::VoltageDrop => 1,
        }
    }
}

/// Where the output power limit comes from (fast-charge configuration 3,
/// bit 2).
#[derive(Clone, Copy, Debug, PartialEq, Eq, Structural)]
pub enum PowerSettingMethod {
    /// The Rset resistor.
    Rset,
    /// The output power limit register.
    Register,
}

impl PowerSettingMethod {
    pub open spec fn spec_from_bit(set: bool) -> Self {
        if set {
            PowerSettingMethod::Register
        } else {
            PowerSettingMethod::Rset
        }
    }

    /// The field's value for a set (`true`) or a clear bit.
    #[verifier::when_used_as_spec(spec_from_bit)]
    pub fn from_bit(set: bool) -> (r: Self)
        ensures
            r == Self::spec_from_bit(set),
    {
        if set {
            PowerSettingMethod::Register
        } else {
            PowerSettingMethod::Rset
        }
    }

    pub open spec fn spec_bits(self) -> u8 {
        match self {
            PowerSettingMethod::Rset => 0,
            PowerSettingMethod::Register => 1,
        }
    }

    /// The field's code, as it stands in the register before shifting.
    /// Reading the code back gives the same value.
    #[verifier::when_used_as_spec(spec_bits)]
    pub fn bits(self) -> (r: u8)
        ensures
            r == self.spec_bits(),
            Self::spec_from_bit(r == 1) == self,
    {
        match self {
            PowerSettingMethod::Rset => 0,
            PowerSettingMethod::Register => 1,
        }
    }
}

/// The PD revision that was negotiated (protocol indication, bits 5-4).
#[derive(Clone, Copy, Debug, PartialEq, Eq, Structural)]
pub enum PdVersion {
    Unknown,
    PD2_0,
    PD3_0,
}

impl PdVersion {
    pub open spec fn spec_from_bits(bits: u8) -> Self {
        match bits {
            1 => PdVersion::PD2_0,
            2 => PdVersion::PD3_0,
            _ => PdVersion::Unknown,
        }
    }

    /// The field's value for a code; a code the chip leaves reserved reads as
    /// `Unknown`.
    #[verifier::when_used_as_spec(spec_from_bits)]
    pub fn from_bits(bits: u8) -> (r: Self)
        ensures
            r == Self::spec_from_bits(bits),
    {
        match bits {
            1 => PdVersion::PD2_0,
            2 => PdVersion::PD3_0,
            _ => PdVersion::Unknown,
        }
    }

    pub open spec fn spec_bits(self) -> u8 {
        match self {
            PdVersion::Unknown => 0,
            PdVersion::PD2_0 => 1,
            PdVersion::PD3_0 => 2,
        }
    }

    /// The field's code, as it stands in the register before shifting.
    /// Reading the code back gives the same value.
    #[verifier::when_used_as_spec(spec_bits)]
    pub fn bits(self) -> (r: u8)
        ensures
            r == self.spec_bits(),
            Self::spec_from_bits(r) == self,
    {
        match self {
            PdVersion::Unknown => 0,
            PdVersion::PD2_0 => 1,
            PdVersion::PD3_0 => 2,
        }
    }
}

/// The fast-charge protocol in use (protocol indication, bits 3-0).
#[derive(Clone, Copy, Debug, PartialEq, Eq, Structural)]
pub enum ProtocolIndication {
    Unknown,
    QC2_0,
    QC3_0,
    FCP,
    SCP,
    PdFix,
    PdPps,
    PE1_1,
    PE2_0,
    VOOC,
    SFCP,
    AFC,
}

impl ProtocolIndication {
    pub open spec fn spec_from_bits(bits: u8) -> Self {
        match bits {
            1 => ProtocolIndication::QC2_0,
            2 => ProtocolIndication::QC3_0,
            3 => ProtocolIndication::FCP,
            4 => ProtocolIndication::SCP,
            5 => ProtocolIndication::PdFix,
            6 => ProtocolIndication::PdPps,
            7 => ProtocolIndication::PE1_1,
            8 => ProtocolIndication::PE2_0,
            9 => ProtocolIndication::VOOC,
            10 => ProtocolIndication::SFCP,
            11 => ProtocolIndication::AFC,
            _ => ProtocolIndication::Unknown,
        }
    }

    /// The field's value for a code; a code the chip leaves reserved reads as
    /// `Unknown`.
    #[verifier::when_used_as_spec(spec_from_bits)]
    pub fn from_bits(bits: u8) -> (r: Self)
        ensures
            r == Self::spec_from_bits(bits),
    {
        match bits {
            1 => ProtocolIndication::QC2_0,
            2 => ProtocolIndication::QC3_0,
            3 => ProtocolIndication::FCP,
            4 => ProtocolIndication::SCP,
            5 => ProtocolIndication::PdFix,
            6 => ProtocolIndication::PdPps,
            7 => ProtocolIndication::PE1_1,
            8 => ProtocolIndication::PE2_0,
            9 => ProtocolIndication::VOOC,
            10 => ProtocolIndication::SFCP,
            11 => ProtocolIndication::AFC,
            _ => ProtocolIndication::Unknown,
        }
    }

    pub open spec fn spec_bits(self) -> u8 {
        match self {
            ProtocolIndication::Unknown => 0,
            ProtocolIndication::QC2_0 => 1,
            ProtocolIndication::QC3_0 => 2,
            ProtocolIndication::FCP => 3,
            ProtocolIndication::SCP => 4,
            ProtocolIndication::PdFix => 5,
            ProtocolIndication::PdPps => 6,
            ProtocolIndication::PE1_1 => 7,
            ProtocolIndication::PE2_0 => 8,
            ProtocolIndication::VOOC => 9,
            ProtocolIndication::SFCP => 10,
            ProtocolIndication::AFC => 11,
        }
    }

    /// The field's code, as it stands in the register before shifting.
    /// Reading the code back gives the same value.
    #[verifier::when_used_as_spec(spec_bits)]
    pub fn bits(self) -> (r: u8)
        ensures
            r == self.spec_bits(),
            Self::spec_from_bits(r) == self,
    {
        match self {
            ProtocolIndication::Unknown => 0,
            ProtocolIndication::QC2_0 => 1,
            ProtocolIndication::QC3_0 => 2,
            ProtocolIndication::FCP => 3,
            ProtocolIndication::SCP => 4,
            ProtocolIndication::PdFix => 5,
            ProtocolIndication::PdPps => 6,
            ProtocolIndication::PE1_1 => 7,
            ProtocolIndication::PE2_0 => 8,
            ProtocolIndication::VOOC => 9,
            ProtocolIndication::SFCP => 10,
            ProtocolIndication::AFC => 11,
        }
    }
}

/// Highest output voltage offered over the protocols other than PD
/// (fast-charge configuration 2, bits 1-0).
#[derive(Clone, Copy, Debug, PartialEq, Eq, Structural)]
pub enum MaxOutputVoltageExceptPd {
    SameWithPd,
    _9V,
    _12V,
    _20V,
}

impl MaxOutputVoltageExceptPd {
    pub open spec fn spec_from_bits(bits: u8) -> Self {
        match bits {
            0 => MaxOutputVoltageExceptPd::SameWithPd,
            1 => MaxOutputVoltageExceptPd::_9V,
            2 => MaxOutputVoltageExceptPd::_12V,
            _ => MaxOutputVoltageExceptPd::_20V,
        }
    }

    /// The field's value for a two-bit code; every code is defined.
    #[verifier::when_used_as_spec(spec_from_bits)]
    pub fn from_bits(bits: u8) -> (r: Self)
        requires
            bits < 4,
        ensures
            r == Self::spec_from_bits(bits),
    {
        match bits {
            0 => MaxOutputVoltageExceptPd::SameWithPd,
            1 => MaxOutputVoltageExceptPd::_9V,
            2 => MaxOutputVoltageExceptPd::_12V,
            _ => MaxOutputVoltageExceptPd::_20V,
        }
    }

    pub open spec fn spec_bits(self) -> u8 {
        match self {
            MaxOutputVoltageExceptPd::SameWithPd => 0,
            MaxOutputVoltageExceptPd::_9V => 1,
            MaxOutputVoltageExceptPd::_12V => 2,
            MaxOutputVoltageExceptPd::_20V => 3,
        }
    }

    /// The field's code, as it stands in the register before shifting.
    /// Reading the code back gives the same value.
    #[verifier::when_used_as_spec(spec_bits)]
    pub fn bits(self) -> (r: u8)
        ensures
            r == self.spec_bits(),
            r < 4,
            Self::spec_from_bits(r) == self,
    {
        match self {
            MaxOutputVoltageExceptPd::SameWithPd => 0,
            MaxOutputVoltageExceptPd::_9V => 1,
            MaxOutputVoltageExceptPd::_12V => 2,
            MaxOutputVoltageExceptPd::_20V => 3,
        }
    }
}

/// The quantity that the ADC data registers hold (ADC configuration,
/// bits 1-0).
#[derive(Clone, Copy, Debug, PartialEq, Eq, Structural)]
pub enum AdcConfig {
    Vin,
    Vout,
    Iout,
}

impl AdcConfig {
    pub open spec fn spec_try_from_bits(bits: u8) -> Option<Self> {
        match bits {
            1 => Some(AdcConfig::Vin),
            2 => Some(AdcConfig::Vout),
            3 => Some(AdcConfig::Iout),
            _ => None,
        }
    }

    /// The field's value for a code, or `None` for a code the chip does not
    /// define.
    #[verifier::when_used_as_spec(spec_try_from_bits)]
    pub fn try_from_bits(bits: u8) -> (r: Option<Self>)
        ensures
            r == Self::spec_try_from_bits(bits),
    {
        match bits {
            1 => Some(AdcConfig::Vin),
            2 => Some(AdcConfig::Vout),
            3 => Some(AdcConfig::Iout),
            _ => None,
        }
    }

    pub open spec fn spec_bits(self) -> u8 {
        match self {
            AdcConfig::Vin => 1,
            AdcConfig::Vout => 2,
            AdcConfig::Iout => 3,
        }
    }

    /// The field's code, as it stands in the register before shifting.
    /// Reading the code back gives the same value.
    #[verifier::when_used_as_spec(spec_bits)]
    pub fn bits(self) -> (r: u8)
        ensures
            r == self.spec_bits(),
            Self::spec_try_from_bits(r) == Some(self),
    {
        match self {
            AdcConfig::Vin => 1,
            AdcConfig::Vout => 2,
            AdcConfig::Iout => 3,
        }
    }
}

/// A command that the chip can send to the sink over PD (power command
/// request, bits 2-0).
#[derive(Clone, Copy, Debug, PartialEq, Eq, Structural)]
pub enum PdCommand {
    HardReset,
}

impl PdCommand {
    pub open spec fn spec_try_from_bits(bits: u8) -> Option<Self> {
        match bits {
            1 => Some(PdCommand::HardReset),
            _ => None,
        }
    }

    /// The field's value for a code, or `None` for a code the chip does not
    /// define.
    #[verifier::when_used_as_spec(spec_try_from_bits)]
    pub fn try_from_bits(bits: u8) -> (r: Option<Self>)
        ensures
            r == Self::spec_try_from_bits(bits),
    {
        match bits {
            1 => Some(PdCommand::HardReset),
            _ => None,
        }
    }

    pub open spec fn spec_bits(self) -> u8 {
        match self {
            PdCommand::HardReset => 1,
        }
    }

    /// The field's code, as it stands in the register before shifting.
    /// Reading the code back gives the same value.
    #[verifier::when_used_as_spec(spec_bits)]
    pub fn bits(self) -> (r: u8)
        ensures
            r == self.spec_bits(),
            Self::spec_try_from_bits(r) == Some(self),
    {
        match self {
            PdCommand::HardReset => 1,
        }
    }
}

} // verus!
