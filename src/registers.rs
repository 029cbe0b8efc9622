//! The chip's register map, and a typed view of each register whose bits
//! carry fields.
//!
//! Each view decodes from the register's raw byte and encodes back to it
//! (`From<u8>` and `From<View> for u8`). The spec functions `decode` and
//! `encode` state both directions bit by bit.

use vstd::prelude::*;
use crate::error::ModelError;
use crate::fields::{
    AdcConfig, BuckForceOff, BuckStatus, CCUnDrivenDurationBuckForceOff, MaxOutputVoltageExceptPd,
    OutputShortCircuitStatus, OverTemperatureAlarmStatus, OverTemperatureShutdownStatus, PdCommand,
    PdCurrentLimitProtectMethod, PdVersion, Pe2_0MaxVoltage, PortStatus, PowerSettingMethod,
    ProtocolIndication, ProtocolStatus, QC3_0CurrentLimitProtectMethod, ScpSelect, VinOvpStatus,
    VoltageStatus,
};

verus! {

/// The chip's registers, by what they hold.
#[derive(Clone, Copy, Debug, PartialEq, Eq, Structural)]
pub enum Register {
    VersionInfo,
    BuckOutputVoltageHigh8b,
    BuckOutputVoltageLow4b,
    BuckOutputCurrentLimit,
    ProtocolIndication,
    SystemStatus,
    AbnormalCase,
    I2cEnable,
    BuckForceOff,
    AdcVinData,
    AdcVoutData,
    AdcIoutData,
    AdcConfig,
    AdcDataHigh8b,
    AdcDataLow4b,
    PowerStatus,
    CcStatus,
    PowerCommandRequest,
    FastChargeConfig6,
    FastChargeConfig5,
    PowerConfig,
    FastChargeConfig0,
    FastChargeConfig1,
    FastChargeConfig2,
    FastChargeConfig3,
    FastChargeConfig4,
    VidConfig0,
    VidConfig1,
}

impl Register {
    pub open spec fn spec_address(self) -> u8 {
        match self {
            Register::VersionInfo => 0x01,
            Register::BuckOutputVoltageHigh8b => 0x03,
            Register::BuckOutputVoltageLow4b => 0x04,
            Register::BuckOutputCurrentLimit => 0x05,
            Register::ProtocolIndication => 0x06,
            Register::SystemStatus => 0x07,
            Register::AbnormalCase => 0x0b,
            Register::I2cEnable => 0x12,
            Register::BuckForceOff => 0x13,
            Register::AdcVinData => 0x30,
            Register::AdcVoutData => 0x31,
            Register::AdcIoutData => 0x33,
            Register::AdcConfig => 0x3a,
            Register::AdcDataHigh8b => 0x3b,
            Register::AdcDataLow4b => 0x3c,
            Register::PowerStatus => 0x68,
            Register::CcStatus => 0x69,
            Register::PowerCommandRequest => 0x70,
            Register::FastChargeConfig6 => 0xa2,
            Register::FastChargeConfig5 => 0xa4,
            Register::PowerConfig => 0xa7,
            Register::FastChargeConfig0 => 0xa8,
            Register::FastChargeConfig1 => 0xa9,
            Register::FastChargeConfig2 => 0xaa,
            Register::FastChargeConfig3 => 0xab,
            Register::FastChargeConfig4 => 0xac,
            Register::VidConfig0 => 0xae,
            Register::VidConfig1 => 0xaf,
        }
    }

    /// The register's offset on the chip.
    #[verifier::when_used_as_spec(spec_address)]
    pub fn address(self) -> (r: u8)
        ensures
            r == self.spec_address(),
    {
        match self {
            Register::VersionInfo => 0x01,
            Register::BuckOutputVoltageHigh8b => 0x03,
            Register::BuckOutputVoltageLow4b => 0x04,
            Register::BuckOutputCurrentLimit => 0x05,
            Register::ProtocolIndication => 0x06,
            Register::SystemStatus => 0x07,
            Register::AbnormalCase => 0x0b,
            Register::I2cEnable => 0x12,
            Register::BuckForceOff => 0x13,
            Register::AdcVinData => 0x30,
            Register::AdcVoutData => 0x31,
            Register::AdcIoutData => 0x33,
            Register::AdcConfig => 0x3a,
            Register::AdcDataHigh8b => 0x3b,
            Register::AdcDataLow4b => 0x3c,
            Register::PowerStatus => 0x68,
            Register::CcStatus => 0x69,
            Register::PowerCommandRequest => 0x70,
            Register::FastChargeConfig6 => 0xa2,
            Register::FastChargeConfig5 => 0xa4,
            Register::PowerConfig => 0xa7,
            Register::FastChargeConfig0 => 0xa8,
            Register::FastChargeConfig1 => 0xa9,
            Register::FastChargeConfig2 => 0xaa,
            Register::FastChargeConfig3 => 0xab,
            Register::FastChargeConfig4 => 0xac,
            Register::VidConfig0 => 0xae,
            Register::VidConfig1 => 0xaf,
        }
    }
}

/// The protocol indication register: what the port negotiated.
#[derive(Clone, Copy, Debug, PartialEq, Eq, Structural)]
pub struct ProtocolIndicationResponse {
    pub protocol_status: ProtocolStatus,
    pub voltage_status: VoltageStatus,
    pub pd_version: PdVersion,
    pub protocol: ProtocolIndication,
}

impl ProtocolIndicationResponse {
    /// The register's fields, read from its raw byte.
    pub open spec fn decode(raw: u8) -> Self {
        ProtocolIndicationResponse {
            protocol_status: ProtocolStatus::from_bit((raw & 0x80) != 0),
            voltage_status: VoltageStatus::from_bit((raw & 0x40) != 0),
            pd_version: PdVersion::from_bits((raw & 0x30) >> 4),
            protocol: ProtocolIndication::from_bits(raw & 0x0f),
        }
    }

    /// The raw byte that holds the fields; bits that no field covers are zero.
    pub open spec fn encode(self) -> u8 {
        (self.protocol_status.bits() << 7) |
        (self.voltage_status.bits() << 6) |
        (self.pd_version.bits() << 4) |
        self.protocol.bits()
    }
}

impl From<u8> for ProtocolIndicationResponse {
    fn from(value: u8) -> (r: Self)
        ensures
            r == Self::decode(value),
    {
        ProtocolIndicationResponse {
            protocol_status: ProtocolStatus::from_bit((value & 0x80) != 0),
            voltage_status: VoltageStatus::from_bit((value & 0x40) != 0),
            pd_version: PdVersion::from_bits((value & 0x30) >> 4),
            protocol: ProtocolIndication::from_bits(value & 0x0f),
        }
    }
}

impl vstd::std_specs::convert::FromSpecImpl<u8> for ProtocolIndicationResponse {
    open spec fn obeys_from_spec() -> bool {
        true
    }

    open spec fn from_spec(v: u8) -> Self {
        Self::decode(v)
    }
}

impl From<ProtocolIndicationResponse> for u8 {
    fn from(value: ProtocolIndicationResponse) -> (r: u8)
        ensures
            r == value.encode(),
    {
        (value.protocol_status.bits() << 7) |
        (value.voltage_status.bits() << 6) |
        (value.pd_version.bits() << 4) |
        value.protocol.bits()
    }
}

impl vstd::std_specs::convert::FromSpecImpl<ProtocolIndicationResponse> for u8 {
    open spec fn obeys_from_spec() -> bool {
        true
    }

    open spec fn from_spec(v: ProtocolIndicationResponse) -> u8 {
        v.encode()
    }
}

/// The bit layout of the register: each field's code comes back out of the
/// byte it is packed into.
proof fn lemma_protocol_indication_fields(
    raw: u8,
    protocol_status: u8,
    voltage_status: u8,
    pd_version: u8,
    protocol: u8,
)
    by (bit_vector)
    requires
        protocol_status < 2,
        voltage_status < 2,
        pd_version < 4,
        protocol < 16,
        raw == (protocol_status << 7) |
            (voltage_status << 6) |
            (pd_version << 4) |
            protocol,
    ensures
        ((raw & 0x80) != 0) == (protocol_status == 1),
        ((raw & 0x40) != 0) == (voltage_status == 1),
        ((raw & 0x30) >> 4) == pd_version,
        (raw & 0x0f) == protocol,
{
}

/// Decoding the byte that a protocol indication value encodes to gives the
/// value back.
pub proof fn lemma_protocol_indication_round_trip(v: ProtocolIndicationResponse)
    ensures
        ProtocolIndicationResponse::decode(v.encode()) == v,
{
    lemma_protocol_indication_fields(
        v.encode(),
        v.protocol_status.bits(),
        v.voltage_status.bits(),
        v.pd_version.bits(),
        v.protocol.bits(),
    );
}

/// The system status register: port and buck converter on or off.
#[derive(Clone, Copy, Debug, PartialEq, Eq, Structural)]
pub struct SystemStatusResponse {
    pub port_status: PortStatus,
    pub buck_status: BuckStatus,
}

impl SystemStatusResponse {
    /// The register's fields, read from its raw byte.
    pub open spec fn decode(raw: u8) -> Self {
        SystemStatusResponse {
            port_status: PortStatus::from_bit((raw & 0x02) != 0),
            buck_status: BuckStatus::from_bit((raw & 0x01) != 0),
        }
    }

    /// The raw byte that holds the fields; bits that no field covers are zero.
    pub open spec fn encode(self) -> u8 {
        (self.port_status.bits() << 1) |
        self.buck_status.bits()
    }
}

impl From<u8> for SystemStatusResponse {
    fn from(value: u8) -> (r: Self)
        ensures
            r == Self::decode(value),
    {
        SystemStatusResponse {
            port_status: PortStatus::from_bit((value & 0x02) != 0),
            buck_status: BuckStatus::from_bit((value & 0x01) != 0),
        }
    }
}

impl vstd::std_specs::convert::FromSpecImpl<u8> for SystemStatusResponse {
    open spec fn obeys_from_spec() -> bool {
        true
    }

    open spec fn from_spec(v: u8) -> Self {
        Self::decode(v)
    }
}

impl From<SystemStatusResponse> for u8 {
    fn from(value: SystemStatusResponse) -> (r: u8)
        ensures
            r == value.encode(),
    {
        (value.port_status.bits() << 1) |
        value.buck_status.bits()
    }
}

impl vstd::std_specs::convert::FromSpecImpl<SystemStatusResponse> for u8 {
    open spec fn obeys_from_spec() -> bool {
        true
    }

    open spec fn from_spec(v: SystemStatusResponse) -> u8 {
        v.encode()
    }
}

/// The bit layout of the register: each field's code comes back out of the
/// byte it is packed into.
proof fn lemma_system_status_fields(
    raw: u8,
    port_status: u8,
    buck_status: u8,
)
    by (bit_vector)
    requires
        port_status < 2,
        buck_status < 2,
        raw == (port_status << 1) |
            buck_status,
    ensures
        ((raw & 0x02) != 0) == (port_status == 1),
        ((raw & 0x01) != 0) == (buck_status == 1),
{
}

/// Decoding the byte that a system status value encodes to gives the
/// value back.
pub proof fn lemma_system_status_round_trip(v: SystemStatusResponse)
    ensures
        SystemStatusResponse::decode(v.encode()) == v,
{
    lemma_system_status_fields(
        v.encode(),
        v.port_status.bits(),
        v.buck_status.bits(),
    );
}

/// The abnormal case register: the chip's fault flags.
#[derive(Clone, Copy, Debug, PartialEq, Eq, Structural)]
pub struct AbnormalCaseResponse {
    pub vin_ovp_status: VinOvpStatus,
    pub over_temperature_alarm_status: OverTemperatureAlarmStatus,
    pub over_temperature_shutdown_status: OverTemperatureShutdownStatus,
    pub output_short_circuit_status: OutputShortCircuitStatus,
}

impl AbnormalCaseResponse {
    /// The register's fields, read from its raw byte.
    pub open spec fn decode(raw: u8) -> Self {
        AbnormalCaseResponse {
            vin_ovp_status: VinOvpStatus::from_bit((raw & 0x10) != 0),
            over_temperature_alarm_status: OverTemperatureAlarmStatus::from_bit((raw & 0x04) != 0),
            over_temperature_shutdown_status: OverTemperatureShutdownStatus::from_bit((raw & 0x02) != 0),
            output_short_circuit_status: OutputShortCircuitStatus::from_bit((raw & 0x01) != 0),
        }
    }

    /// The raw byte that holds the fields; bits that no field covers are zero.
    pub open spec fn encode(self) -> u8 {
        (self.vin_ovp_status.bits() << 4) |
        (self.over_temperature_alarm_status.bits() << 2) |
        (self.over_temperature_shutdown_status.bits() << 1) |
        self.output_short_circuit_status.bits()
    }
}

impl From<u8> for AbnormalCaseResponse {
    fn from(value: u8) -> (r: Self)
        ensures
            r == Self::decode(value),
    {
        AbnormalCaseResponse {
            vin_ovp_status: VinOvpStatus::from_bit((value & 0x10) != 0),
            over_temperature_alarm_status: OverTemperatureAlarmStatus::from_bit((value & 0x04) != 0),
            over_temperature_shutdown_status: OverTemperatureShutdownStatus::from_bit((value & 0x02) != 0),
            output_short_circuit_status: OutputShortCircuitStatus::from_bit((value & 0x01) != 0),
        }
    }
}

impl vstd::std_specs::convert::FromSpecImpl<u8> for AbnormalCaseResponse {
    open spec fn obeys_from_spec() -> bool {
        true
    }

    open spec fn from_spec(v: u8) -> Self {
        Self::decode(v)
    }
}

impl From<AbnormalCaseResponse> for u8 {
    fn from(value: AbnormalCaseResponse) -> (r: u8)
        ensures
            r == value.encode(),
    {
        (value.vin_ovp_status.bits() << 4) |
        (value.over_temperature_alarm_status.bits() << 2) |
        (value.over_temperature_shutdown_status.bits() << 1) |
        value.output_short_circuit_status.bits()
    }
}

impl vstd::std_specs::convert::FromSpecImpl<AbnormalCaseResponse> for u8 {
    open spec fn obeys_from_spec() -> bool {
        true
    }

    open spec fn from_spec(v: AbnormalCaseResponse) -> u8 {
        v.encode()
    }
}

/// The bit layout of the register: each field's code comes back out of the
/// byte it is packed into.
proof fn lemma_abnormal_case_fields(
    raw: u8,
    vin_ovp_status: u8,
    over_temperature_alarm_status: u8,
    over_temperature_shutdown_status: u8,
    output_short_circuit_status: u8,
)
    by (bit_vector)
    requires
        vin_ovp_status < 2,
        over_temperature_alarm_status < 2,
        over_temperature_shutdown_status < 2,
        output_short_circuit_status < 2,
        raw == (vin_ovp_status << 4) |
            (over_temperature_alarm_status << 2) |
            (over_temperature_shutdown_status << 1) |
            output_short_circuit_status,
    ensures
        ((raw & 0x10) != 0) == (vin_ovp_status == 1),
        ((raw & 0x04) != 0) == (over_temperature_alarm_status == 1),
        ((raw & 0x02) != 0) == (over_temperature_shutdown_status == 1),
        ((raw & 0x01) != 0) == (output_short_circuit_status == 1),
{
}

/// Decoding the byte that a abnormal case value encodes to gives the
/// value back.
pub proof fn lemma_abnormal_case_round_trip(v: AbnormalCaseResponse)
    ensures
        AbnormalCaseResponse::decode(v.encode()) == v,
{
    lemma_abnormal_case_fields(
        v.encode(),
        v.vin_ovp_status.bits(),
        v.over_temperature_alarm_status.bits(),
        v.over_temperature_shutdown_status.bits(),
        v.output_short_circuit_status.bits(),
    );
}

/// The buck force-off configuration register.
#[derive(Clone, Copy, Debug, PartialEq, Eq, Structural)]
pub struct BuckForceOffConfig {
    pub force_off: BuckForceOff,
    pub cc_un_driven_duration_buck_force_off: CCUnDrivenDurationBuckForceOff,
}

impl BuckForceOffConfig {
    /// The register's fields, read from its raw byte.
    pub open spec fn decode(raw: u8) -> Self {
        BuckForceOffConfig {
            force_off: BuckForceOff::from_bit((raw & 0x80) != 0),
            cc_un_driven_duration_buck_force_off: CCUnDrivenDurationBuckForceOff::from_bit((raw & 0x40) != 0),
        }
    }

    /// The raw byte that holds the fields; bits that no field covers are zero.
    pub open spec fn encode(self) -> u8 {
        (self.force_off.bits() << 7) |
        (self.cc_un_driven_duration_buck_force_off.bits() << 6)
    }
}

impl From<u8> for BuckForceOffConfig {
    fn from(value: u8) -> (r: Self)
        ensures
            r == Self::decode(value),
    {
        BuckForceOffConfig {
            force_off: BuckForceOff::from_bit((value & 0x80) != 0),
            cc_un_driven_duration_buck_force_off: CCUnDrivenDurationBuckForceOff::from_bit((value & 0x40) != 0),
        }
    }
}

impl vstd::std_specs::convert::FromSpecImpl<u8> for BuckForceOffConfig {
    open spec fn obeys_from_spec() -> bool {
        true
    }

    open spec fn from_spec(v: u8) -> Self {
        Self::decode(v)
    }
}

impl From<BuckForceOffConfig> for u8 {
    fn from(value: BuckForceOffConfig) -> (r: u8)
        ensures
            r == value.encode(),
    {
        (value.force_off.bits() << 7) |
        (value.cc_un_driven_duration_buck_force_off.bits() << 6)
    }
}

impl vstd::std_specs::convert::FromSpecImpl<BuckForceOffConfig> for u8 {
    open spec fn obeys_from_spec() -> bool {
        true
    }

    open spec fn from_spec(v: BuckForceOffConfig) -> u8 {
        v.encode()
    }
}

/// The bit layout of the register: each field's code comes back out of the
/// byte it is packed into.
proof fn lemma_buck_force_off_fields(
    raw: u8,
    force_off: u8,
    cc_un_driven_duration_buck_force_off: u8,
)
    by (bit_vector)
    requires
        force_off < 2,
        cc_un_driven_duration_buck_force_off < 2,
        raw == (force_off << 7) |
            (cc_un_driven_duration_buck_force_off << 6),
    ensures
        ((raw & 0x80) != 0) == (force_off == 1),
        ((raw & 0x40) != 0) == (cc_un_driven_duration_buck_force_off == 1),
{
}

/// Decoding the byte that a buck force off value encodes to gives the
/// value back.
pub proof fn lemma_buck_force_off_round_trip(v: BuckForceOffConfig)
    ensures
        BuckForceOffConfig::decode(v.encode()) == v,
{
    lemma_buck_force_off_fields(
        v.encode(),
        v.force_off.bits(),
        v.cc_un_driven_duration_buck_force_off.bits(),
    );
}

/// The CC status register: which CC line has a sink attached.
#[derive(Clone, Copy, Debug, PartialEq, Eq, Structural)]
pub struct CcStatus {
    pub cc1_attached: bool,
    pub cc2_attached: bool,
}

impl CcStatus {
    /// The register's fields, read from its raw byte.
    pub open spec fn decode(raw: u8) -> Self {
        CcStatus {
            cc1_attached: (raw & 0x80) != 0,
            cc2_attached: (raw & 0x40) != 0,
        }
    }

    /// The raw byte that holds the fields; bits that no field covers are zero.
    pub open spec fn encode(self) -> u8 {
        ((self.cc1_attached as u8) << 7) |
        ((self.cc2_attached as u8) << 6)
    }
}

impl From<u8> for CcStatus {
    fn from(value: u8) -> (r: Self)
        ensures
            r == Self::decode(value),
    {
        CcStatus {
            cc1_attached: (value & 0x80) != 0,
            cc2_attached: (value & 0x40) != 0,
        }
    }
}

impl vstd::std_specs::convert::FromSpecImpl<u8> for CcStatus {
    open spec fn obeys_from_spec() -> bool {
        true
    }

    open spec fn from_spec(v: u8) -> Self {
        Self::decode(v)
    }
}

impl From<CcStatus> for u8 {
    fn from(value: CcStatus) -> (r: u8)
        ensures
            r == value.encode(),
    {
        ((value.cc1_attached as u8) << 7) |
        ((value.cc2_attached as u8) << 6)
    }
}

impl vstd::std_specs::convert::FromSpecImpl<CcStatus> for u8 {
    open spec fn obeys_from_spec() -> bool {
        true
    }

    open spec fn from_spec(v: CcStatus) -> u8 {
        v.encode()
    }
}

/// The bit layout of the register: each field's code comes back out of the
/// byte it is packed into.
proof fn lemma_cc_status_fields(
    raw: u8,
    cc1_attached: u8,
    cc2_attached: u8,
)
    by (bit_vector)
    requires
        cc1_attached < 2,
        cc2_attached < 2,
        raw == (cc1_attached << 7) |
            (cc2_attached << 6),
    ensures
        ((raw & 0x80) != 0) == (cc1_attached == 1),
        ((raw & 0x40) != 0) == (cc2_attached == 1),
{
}

/// Decoding the byte that a cc status value encodes to gives the
/// value back.
pub proof fn lemma_cc_status_round_trip(v: CcStatus)
    ensures
        CcStatus::decode(v.encode()) == v,
{
    lemma_cc_status_fields(
        v.encode(),
        v.cc1_attached as u8,
        v.cc2_attached as u8,
    );
}

/// Fast-charge configuration 6.
#[derive(Clone, Copy, Debug, PartialEq, Eq, Structural)]
pub struct FastChargeConfig6 {
    pub qc2_0_qc3_0_cable_compatible_and_offset_enabled: bool,
    pub pdo_link_with_vin: bool,
}

impl FastChargeConfig6 {
    /// The register's fields, read from its raw byte.
    pub open spec fn decode(raw: u8) -> Self {
        FastChargeConfig6 {
            qc2_0_qc3_0_cable_compatible_and_offset_enabled: (raw & 0x40) != 0,
            pdo_link_with_vin: (raw & 0x20) != 0,
        }
    }

    /// The raw byte that holds the fields; bits that no field covers are zero.
    pub open spec fn encode(self) -> u8 {
        ((self.qc2_0_qc3_0_cable_compatible_and_offset_enabled as u8) << 6) |
        ((self.pdo_link_with_vin as u8) << 5)
    }
}

impl From<u8> for FastChargeConfig6 {
    fn from(value: u8) -> (r: Self)
        ensures
            r == Self::decode(value),
    {
        FastChargeConfig6 {
            qc2_0_qc3_0_cable_compatible_and_offset_enabled: (value & 0x40) != 0,
            pdo_link_with_vin: (value & 0x20) != 0,
        }
    }
}

impl vstd::std_specs::convert::FromSpecImpl<u8> for FastChargeConfig6 {
    open spec fn obeys_from_spec() -> bool {
        true
    }

    open spec fn from_spec(v: u8) -> Self {
        Self::decode(v)
    }
}

impl From<FastChargeConfig6> for u8 {
    fn from(value: FastChargeConfig6) -> (r: u8)
        ensures
            r == value.encode(),
    {
        ((value.qc2_0_qc3_0_cable_compatible_and_offset_enabled as u8) << 6) |
        ((value.pdo_link_with_vin as u8) << 5)
    }
}

impl vstd::std_specs::convert::FromSpecImpl<FastChargeConfig6> for u8 {
    open spec fn obeys_from_spec() -> bool {
        true
    }

    open spec fn from_spec(v: FastChargeConfig6) -> u8 {
        v.encode()
    }
}

/// The bit layout of the register: each field's code comes back out of the
/// byte it is packed into.
proof fn lemma_fast_charge_config_6_fields(
    raw: u8,
    qc2_0_qc3_0_cable_compatible_and_offset_enabled: u8,
    pdo_link_with_vin: u8,
)
    by (bit_vector)
    requires
        qc2_0_qc3_0_cable_compatible_and_offset_enabled < 2,
        pdo_link_with_vin < 2,
        raw == (qc2_0_qc3_0_cable_compatible_and_offset_enabled << 6) |
            (pdo_link_with_vin << 5),
    ensures
        ((raw & 0x40) != 0) == (qc2_0_qc3_0_cable_compatible_and_offset_enabled == 1),
        ((raw & 0x20) != 0) == (pdo_link_with_vin == 1),
{
}

/// Decoding the byte that a fast charge config 6 value encodes to gives the
/// value back.
pub proof fn lemma_fast_charge_config_6_round_trip(v: FastChargeConfig6)
    ensures
        FastChargeConfig6::decode(v.encode()) == v,
{
    lemma_fast_charge_config_6_fields(
        v.encode(),
        v.qc2_0_qc3_0_cable_compatible_and_offset_enabled as u8,
        v.pdo_link_with_vin as u8,
    );
}

/// Fast-charge configuration 5.
#[derive(Clone, Copy, Debug, PartialEq, Eq, Structural)]
pub struct FastChargeConfig5 {
    pub scp_select: ScpSelect,
    pub pe2_0_max_voltage: Pe2_0MaxVoltage,
}

impl FastChargeConfig5 {
    /// The register's fields, read from its raw byte.
    pub open spec fn decode(raw: u8) -> Self {
        FastChargeConfig5 {
            scp_select: ScpSelect::from_bit((raw & 0x40) != 0),
            pe2_0_max_voltage: Pe2_0MaxVoltage::from_bit((raw & 0x20) != 0),
        }
    }

    /// The raw byte that holds the fields; bits that no field covers are zero.
    pub open spec fn encode(self) -> u8 {
        (self.scp_select.bits() << 6) |
        (self.pe2_0_max_voltage.bits() << 5)
    }
}

impl From<u8> for FastChargeConfig5 {
    fn from(value: u8) -> (r: Self)
        ensures
            r == Self::decode(value),
    {
        FastChargeConfig5 {
            scp_select: ScpSelect::from_bit((value & 0x40) != 0),
            pe2_0_max_voltage: Pe2_0MaxVoltage::from_bit((value & 0x20) != 0),
        }
    }
}

impl vstd::std_specs::convert::FromSpecImpl<u8> for FastChargeConfig5 {
    open spec fn obeys_from_spec() -> bool {
        true
    }

    open spec fn from_spec(v: u8) -> Self {
        Self::decode(v)
    }
}

impl From<FastChargeConfig5> for u8 {
    fn from(value: FastChargeConfig5) -> (r: u8)
        ensures
            r == value.encode(),
    {
        (value.scp_select.bits() << 6) |
        (value.pe2_0_max_voltage.bits() << 5)
    }
}

impl vstd::std_specs::convert::FromSpecImpl<FastChargeConfig5> for u8 {
    open spec fn obeys_from_spec() -> bool {
        true
    }

    open spec fn from_spec(v: FastChargeConfig5) -> u8 {
        v.encode()
    }
}

/// The bit layout of the register: each field's code comes back out of the
/// byte it is packed into.
proof fn lemma_fast_charge_config_5_fields(
    raw: u8,
    scp_select: u8,
    pe2_0_max_voltage: u8,
)
    by (bit_vector)
    requires
        scp_select < 2,
        pe2_0_max_voltage < 2,
        raw == (scp_select << 6) |
            (pe2_0_max_voltage << 5),
    ensures
        ((raw & 0x40) != 0) == (scp_select == 1),
        ((raw & 0x20) != 0) == (pe2_0_max_voltage == 1),
{
}

/// Decoding the byte that a fast charge config 5 value encodes to gives the
/// value back.
pub proof fn lemma_fast_charge_config_5_round_trip(v: FastChargeConfig5)
    ensures
        FastChargeConfig5::decode(v.encode()) == v,
{
    lemma_fast_charge_config_5_fields(
        v.encode(),
        v.scp_select.bits(),
        v.pe2_0_max_voltage.bits(),
    );
}

/// Fast-charge configuration 0: which protocols are enabled.
#[derive(Clone, Copy, Debug, PartialEq, Eq, Structural)]
pub struct FastChargeConfig0 {
    pub scp_enabled: bool,
    pub vooc_enabled: bool,
    pub sfcp_enabled: bool,
    pub qc2_0_enabled: bool,
    pub qc3_0_enabled: bool,
    pub fcp_enabled: bool,
    pub afc_enabled: bool,
    pub pe_enabled: bool,
}

impl FastChargeConfig0 {
    /// The register's fields, read from its raw byte.
    pub open spec fn decode(raw: u8) -> Self {
        FastChargeConfig0 {
            scp_enabled: (raw & 0x80) != 0,
            vooc_enabled: (raw & 0x40) != 0,
            sfcp_enabled: (raw & 0x20) != 0,
            qc2_0_enabled: (raw & 0x10) != 0,
            qc3_0_enabled: (raw & 0x08) != 0,
            fcp_enabled: (raw & 0x04) != 0,
            afc_enabled: (raw & 0x02) != 0,
            pe_enabled: (raw & 0x01) != 0,
        }
    }

    /// The raw byte that holds the fields; bits that no field covers are zero.
    pub open spec fn encode(self) -> u8 {
        ((self.scp_enabled as u8) << 7) |
        ((self.vooc_enabled as u8) << 6) |
        ((self.sfcp_enabled as u8) << 5) |
        ((self.qc2_0_enabled as u8) << 4) |
        ((self.qc3_0_enabled as u8) << 3) |
        ((self.fcp_enabled as u8) << 2) |
        ((self.afc_enabled as u8) << 1) |
        (self.pe_enabled as u8)
    }
}

impl From<u8> for FastChargeConfig0 {
    fn from(value: u8) -> (r: Self)
        ensures
            r == Self::decode(value),
    {
        FastChargeConfig0 {
            scp_enabled: (value & 0x80) != 0,
            vooc_enabled: (value & 0x40) != 0,
            sfcp_enabled: (value & 0x20) != 0,
            qc2_0_enabled: (value & 0x10) != 0,
            qc3_0_enabled: (value & 0x08) != 0,
            fcp_enabled: (value & 0x04) != 0,
            afc_enabled: (value & 0x02) != 0,
            pe_enabled: (value & 0x01) != 0,
        }
    }
}

impl vstd::std_specs::convert::FromSpecImpl<u8> for FastChargeConfig0 {
    open spec fn obeys_from_spec() -> bool {
        true
    }

    open spec fn from_spec(v: u8) -> Self {
        Self::decode(v)
    }
}

impl From<FastChargeConfig0> for u8 {
    fn from(value: FastChargeConfig0) -> (r: u8)
        ensures
            r == value.encode(),
    {
        ((value.scp_enabled as u8) << 7) |
        ((value.vooc_enabled as u8) << 6) |
        ((value.sfcp_enabled as u8) << 5) |
        ((value.qc2_0_enabled as u8) << 4) |
        ((value.qc3_0_enabled as u8) << 3) |
        ((value.fcp_enabled as u8) << 2) |
        ((value.afc_enabled as u8) << 1) |
        (value.pe_enabled as u8)
    }
}

impl vstd::std_specs::convert::FromSpecImpl<FastChargeConfig0> for u8 {
    open spec fn obeys_from_spec() -> bool {
        true
    }

    open spec fn from_spec(v: FastChargeConfig0) -> u8 {
        v.encode()
    }
}

/// The bit layout of the register: each field's code comes back out of the
/// byte it is packed into.
proof fn lemma_fast_charge_config_0_fields(
    raw: u8,
    scp_enabled: u8,
    vooc_enabled: u8,
    sfcp_enabled: u8,
    qc2_0_enabled: u8,
    qc3_0_enabled: u8,
    fcp_enabled: u8,
    afc_enabled: u8,
    pe_enabled: u8,
)
    by (bit_vector)
    requires
        scp_enabled < 2,
        vooc_enabled < 2,
        sfcp_enabled < 2,
        qc2_0_enabled < 2,
        qc3_0_enabled < 2,
        fcp_enabled < 2,
        afc_enabled < 2,
        pe_enabled < 2,
        raw == (scp_enabled << 7) |
            (vooc_enabled << 6) |
            (sfcp_enabled << 5) |
            (qc2_0_enabled << 4) |
            (qc3_0_enabled << 3) |
            (fcp_enabled << 2) |
            (afc_enabled << 1) |
            pe_enabled,
    ensures
        ((raw & 0x80) != 0) == (scp_enabled == 1),
        ((raw & 0x40) != 0) == (vooc_enabled == 1),
        ((raw & 0x20) != 0) == (sfcp_enabled == 1),
        ((raw & 0x10) != 0) == (qc2_0_enabled == 1),
        ((raw & 0x08) != 0) == (qc3_0_enabled == 1),
        ((raw & 0x04) != 0) == (fcp_enabled == 1),
        ((raw & 0x02) != 0) == (afc_enabled == 1),
        ((raw & 0x01) != 0) == (pe_enabled == 1),
{
}

/// Decoding the byte that a fast charge config 0 value encodes to gives the
/// value back.
pub proof fn lemma_fast_charge_config_0_round_trip(v: FastChargeConfig0)
    ensures
        FastChargeConfig0::decode(v.encode()) == v,
{
    lemma_fast_charge_config_0_fields(
        v.encode(),
        v.scp_enabled as u8,
        v.vooc_enabled as u8,
        v.sfcp_enabled as u8,
        v.qc2_0_enabled as u8,
        v.qc3_0_enabled as u8,
        v.fcp_enabled as u8,
        v.afc_enabled as u8,
        v.pe_enabled as u8,
    );
}

/// Every byte is a valid fast-charge configuration 0: its eight bits are
/// eight fields, so encoding the decoded fields gives the byte back.
pub proof fn lemma_fast_charge_config_0_every_byte(raw: u8)
    ensures
        FastChargeConfig0::decode(raw).encode() == raw,
{
    assert(
        (((raw & 0x80) != 0) as u8) << 7
            | (((raw & 0x40) != 0) as u8) << 6
            | (((raw & 0x20) != 0) as u8) << 5
            | (((raw & 0x10) != 0) as u8) << 4
            | (((raw & 0x08) != 0) as u8) << 3
            | (((raw & 0x04) != 0) as u8) << 2
            | (((raw & 0x02) != 0) as u8) << 1
            | (((raw & 0x01) != 0) as u8)
            == raw
    ) by (bit_vector);
}

/// Fast-charge configuration 1: which PD offers are enabled.
#[derive(Clone, Copy, Debug, PartialEq, Eq, Structural)]
pub struct FastChargeConfig1 {
    pub pps1_enabled: bool,
    pub pps0_enabled: bool,
    pub pd_20v_enabled: bool,
    pub pd_15v_enabled: bool,
    pub pd_12v_enabled: bool,
    pub pd_9v_enabled: bool,
    pub pd_enabled: bool,
}

impl FastChargeConfig1 {
    /// The register's fields, read from its raw byte.
    pub open spec fn decode(raw: u8) -> Self {
        FastChargeConfig1 {
            pps1_enabled: (raw & 0x80) != 0,
            pps0_enabled: (raw & 0x40) != 0,
            pd_20v_enabled: (raw & 0x20) != 0,
            pd_15v_enabled: (raw & 0x10) != 0,
            pd_12v_enabled: (raw & 0x08) != 0,
            pd_9v_enabled: (raw & 0x04) != 0,
            pd_enabled: (raw & 0x01) != 0,
        }
    }

    /// The raw byte that holds the fields; bits that no field covers are zero.
    pub open spec fn encode(self) -> u8 {
        ((self.pps1_enabled as u8) << 7) |
        ((self.pps0_enabled as u8) << 6) |
        ((self.pd_20v_enabled as u8) << 5) |
        ((self.pd_15v_enabled as u8) << 4) |
        ((self.pd_12v_enabled as u8) << 3) |
        ((self.pd_9v_enabled as u8) << 2) |
        (self.pd_enabled as u8)
    }
}

impl From<u8> for FastChargeConfig1 {
    fn from(value: u8) -> (r: Self)
        ensures
            r == Self::decode(value),
    {
        FastChargeConfig1 {
            pps1_enabled: (value & 0x80) != 0,
            pps0_enabled: (value & 0x40) != 0,
            pd_20v_enabled: (value & 0x20) != 0,
            pd_15v_enabled: (value & 0x10) != 0,
            pd_12v_enabled: (value & 0x08) != 0,
            pd_9v_enabled: (value & 0x04) != 0,
            pd_enabled: (value & 0x01) != 0,
        }
    }
}

impl vstd::std_specs::convert::FromSpecImpl<u8> for FastChargeConfig1 {
    open spec fn obeys_from_spec() -> bool {
        true
    }

    open spec fn from_spec(v: u8) -> Self {
        Self::decode(v)
    }
}

impl From<FastChargeConfig1> for u8 {
    fn from(value: FastChargeConfig1) -> (r: u8)
        ensures
            r == value.encode(),
    {
        ((value.pps1_enabled as u8) << 7) |
        ((value.pps0_enabled as u8) << 6) |
        ((value.pd_20v_enabled as u8) << 5) |
        ((value.pd_15v_enabled as u8) << 4) |
        ((value.pd_12v_enabled as u8) << 3) |
        ((value.pd_9v_enabled as u8) << 2) |
        (value.pd_enabled as u8)
    }
}

impl vstd::std_specs::convert::FromSpecImpl<FastChargeConfig1> for u8 {
    open spec fn obeys_from_spec() -> bool {
        true
    }

    open spec fn from_spec(v: FastChargeConfig1) -> u8 {
        v.encode()
    }
}

/// The bit layout of the register: each field's code comes back out of the
/// byte it is packed into.
proof fn lemma_fast_charge_config_1_fields(
    raw: u8,
    pps1_enabled: u8,
    pps0_enabled: u8,
    pd_20v_enabled: u8,
    pd_15v_enabled: u8,
    pd_12v_enabled: u8,
    pd_9v_enabled: u8,
    pd_enabled: u8,
)
    by (bit_vector)
    requires
        pps1_enabled < 2,
        pps0_enabled < 2,
        pd_20v_enabled < 2,
        pd_15v_enabled < 2,
        pd_12v_enabled < 2,
        pd_9v_enabled < 2,
        pd_enabled < 2,
        raw == (pps1_enabled << 7) |
            (pps0_enabled << 6) |
            (pd_20v_enabled << 5) |
            (pd_15v_enabled << 4) |
            (pd_12v_enabled << 3) |
            (pd_9v_enabled << 2) |
            pd_enabled,
    ensures
        ((raw & 0x80) != 0) == (pps1_enabled == 1),
        ((raw & 0x40) != 0) == (pps0_enabled == 1),
        ((raw & 0x20) != 0) == (pd_20v_enabled == 1),
        ((raw & 0x10) != 0) == (pd_15v_enabled == 1),
        ((raw & 0x08) != 0) == (pd_12v_enabled == 1),
        ((raw & 0x04) != 0) == (pd_9v_enabled == 1),
        ((raw & 0x01) != 0) == (pd_enabled == 1),
{
}

/// Decoding the byte that a fast charge config 1 value encodes to gives the
/// value back.
pub proof fn lemma_fast_charge_config_1_round_trip(v: FastChargeConfig1)
    ensures
        FastChargeConfig1::decode(v.encode()) == v,
{
    lemma_fast_charge_config_1_fields(
        v.encode(),
        v.pps1_enabled as u8,
        v.pps0_enabled as u8,
        v.pd_20v_enabled as u8,
        v.pd_15v_enabled as u8,
        v.pd_12v_enabled as u8,
        v.pd_9v_enabled as u8,
        v.pd_enabled as u8,
    );
}

/// Fast-charge configuration 2.
#[derive(Clone, Copy, Debug, PartialEq, Eq, Structural)]
pub struct FastChargeConfig2 {
    pub dpdm_enabled: bool,
    pub max_output_voltage_except_pd: MaxOutputVoltageExceptPd,
}

impl FastChargeConfig2 {
    /// The register's fields, read from its raw byte.
    pub open spec fn decode(raw: u8) -> Self {
        FastChargeConfig2 {
            dpdm_enabled: (raw & 0x20) != 0,
            max_output_voltage_except_pd: MaxOutputVoltageExceptPd::from_bits(raw & 0x03),
        }
    }

    /// The raw byte that holds the fields; bits that no field covers are zero.
    pub open spec fn encode(self) -> u8 {
        ((self.dpdm_enabled as u8) << 5) |
        self.max_output_voltage_except_pd.bits()
    }
}

impl From<u8> for FastChargeConfig2 {
    fn from(value: u8) -> (r: Self)
        ensures
            r == Self::decode(value),
    {
        assert((value & 0x03) < 4) by (bit_vector);
        FastChargeConfig2 {
            dpdm_enabled: (value & 0x20) != 0,
            max_output_voltage_except_pd: MaxOutputVoltageExceptPd::from_bits(value & 0x03),
        }
    }
}

impl vstd::std_specs::convert::FromSpecImpl<u8> for FastChargeConfig2 {
    open spec fn obeys_from_spec() -> bool {
        true
    }

    open spec fn from_spec(v: u8) -> Self {
        Self::decode(v)
    }
}

impl From<FastChargeConfig2> for u8 {
    fn from(value: FastChargeConfig2) -> (r: u8)
        ensures
            r == value.encode(),
    {
        ((value.dpdm_enabled as u8) << 5) |
        value.max_output_voltage_except_pd.bits()
    }
}

impl vstd::std_specs::convert::FromSpecImpl<FastChargeConfig2> for u8 {
    open spec fn obeys_from_spec() -> bool {
        true
    }

    open spec fn from_spec(v: FastChargeConfig2) -> u8 {
        v.encode()
    }
}

/// The bit layout of the register: each field's code comes back out of the
/// byte it is packed into.
proof fn lemma_fast_charge_config_2_fields(
    raw: u8,
    dpdm_enabled: u8,
    max_output_voltage_except_pd: u8,
)
    by (bit_vector)
    requires
        dpdm_enabled < 2,
        max_output_voltage_except_pd < 4,
        raw == (dpdm_enabled << 5) |
            max_output_voltage_except_pd,
    ensures
        ((raw & 0x20) != 0) == (dpdm_enabled == 1),
        (raw & 0x03) == max_output_voltage_except_pd,
{
}

/// Decoding the byte that a fast charge config 2 value encodes to gives the
/// value back.
pub proof fn lemma_fast_charge_config_2_round_trip(v: FastChargeConfig2)
    ensures
        FastChargeConfig2::decode(v.encode()) == v,
{
    lemma_fast_charge_config_2_fields(
        v.encode(),
        v.dpdm_enabled as u8,
        v.max_output_voltage_except_pd.bits(),
    );
}

/// Fast-charge configuration 3: current limit and power settings.
#[derive(Clone, Copy, Debug, PartialEq, Eq, Structural)]
pub struct FastChargeConfig3 {
    pub pd_current_limit_protect_method: PdCurrentLimitProtectMethod,
    pub qc3_0_current_limit_protect_method: QC3_0CurrentLimitProtectMethod,
    pub qc3_0_constant_power_enabled: bool,
    pub pps_constant_power_enabled: bool,
    pub power_setting_method: PowerSettingMethod,
}

impl FastChargeConfig3 {
    /// The register's fields, read from its raw byte.
    pub open spec fn decode(raw: u8) -> Self {
        FastChargeConfig3 {
            pd_current_limit_protect_method: PdCurrentLimitProtectMethod::from_bit((raw & 0x80) != 0),
            qc3_0_current_limit_protect_method: QC3_0CurrentLimitProtectMethod::from_bit((raw & 0x40) != 0),
            qc3_0_constant_power_enabled: (raw & 0x20) != 0,
            pps_constant_power_enabled: (raw & 0x10) != 0,
            power_setting_method: PowerSettingMethod::from_bit((raw & 0x04) != 0),
        }
    }

    /// The raw byte that holds the fields; bits that no field covers are zero.
    pub open spec fn encode(self) -> u8 {
        (self.pd_current_limit_protect_method.bits() << 7) |
        (self.qc3_0_current_limit_protect_method.bits() << 6) |
        ((self.qc3_0_constant_power_enabled as u8) << 5) |
        ((self.pps_constant_power_enabled as u8) << 4) |
        (self.power_setting_method.bits() << 2)
    }
}

impl From<u8> for FastChargeConfig3 {
    fn from(value: u8) -> (r: Self)
        ensures
            r == Self::decode(value),
    {
        FastChargeConfig3 {
            pd_current_limit_protect_method: PdCurrentLimitProtectMethod::from_bit((value & 0x80) != 0),
            qc3_0_current_limit_protect_method: QC3_0CurrentLimitProtectMethod::from_bit((value & 0x40) != 0),
            qc3_0_constant_power_enabled: (value & 0x20) != 0,
            pps_constant_power_enabled: (value & 0x10) != 0,
            power_setting_method: PowerSettingMethod::from_bit((value & 0x04) != 0),
        }
    }
}

impl vstd::std_specs::convert::FromSpecImpl<u8> for FastChargeConfig3 {
    open spec fn obeys_from_spec() -> bool {
        true
    }

    open spec fn from_spec(v: u8) -> Self {
        Self::decode(v)
    }
}

impl From<FastChargeConfig3> for u8 {
    fn from(value: FastChargeConfig3) -> (r: u8)
        ensures
            r == value.encode(),
    {
        (value.pd_current_limit_protect_method.bits() << 7) |
        (value.qc3_0_current_limit_protect_method.bits() << 6) |
        ((value.qc3_0_constant_power_enabled as u8) << 5) |
        ((value.pps_constant_power_enabled as u8) << 4) |
        (value.power_setting_method.bits() << 2)
    }
}

impl vstd::std_specs::convert::FromSpecImpl<FastChargeConfig3> for u8 {
    open spec fn obeys_from_spec() -> bool {
        true
    }

    open spec fn from_spec(v: FastChargeConfig3) -> u8 {
        v.encode()
    }
}

/// The bit layout of the register: each field's code comes back out of the
/// byte it is packed into.
proof fn lemma_fast_charge_config_3_fields(
    raw: u8,
    pd_current_limit_protect_method: u8,
    qc3_0_current_limit_protect_method: u8,
    qc3_0_constant_power_enabled: u8,
    pps_constant_power_enabled: u8,
    power_setting_method: u8,
)
    by (bit_vector)
    requires
        pd_current_limit_protect_method < 2,
        qc3_0_current_limit_protect_method < 2,
        qc3_0_constant_power_enabled < 2,
        pps_constant_power_enabled < 2,
        power_setting_method < 2,
        raw == (pd_current_limit_protect_method << 7) |
            (qc3_0_current_limit_protect_method << 6) |
            (qc3_0_constant_power_enabled << 5) |
            (pps_constant_power_enabled << 4) |
            (power_setting_method << 2),
    ensures
        ((raw & 0x80) != 0) == (pd_current_limit_protect_method == 1),
        ((raw & 0x40) != 0) == (qc3_0_current_limit_protect_method == 1),
        ((raw & 0x20) != 0) == (qc3_0_constant_power_enabled == 1),
        ((raw & 0x10) != 0) == (pps_constant_power_enabled == 1),
        ((raw & 0x04) != 0) == (power_setting_method == 1),
{
}

/// Decoding the byte that a fast charge config 3 value encodes to gives the
/// value back.
pub proof fn lemma_fast_charge_config_3_round_trip(v: FastChargeConfig3)
    ensures
        FastChargeConfig3::decode(v.encode()) == v,
{
    lemma_fast_charge_config_3_fields(
        v.encode(),
        v.pd_current_limit_protect_method.bits(),
        v.qc3_0_current_limit_protect_method.bits(),
        v.qc3_0_constant_power_enabled as u8,
        v.pps_constant_power_enabled as u8,
        v.power_setting_method.bits(),
    );
}

/// Fast-charge configuration 4.
#[derive(Clone, Copy, Debug, PartialEq, Eq, Structural)]
pub struct FastChargeConfig4 {
    /// Every fast-charge protocol is switched off.
    pub port_fast_charge_disabled: bool,
    /// The source capabilities are sent again with a 5 V / 2 A PDO after the
    /// sink asks for the 5 V / 3 A PDO.
    pub pd_5v_2a_rebroadcast_enabled: bool,
}

impl FastChargeConfig4 {
    /// The register's fields, read from its raw byte.
    pub open spec fn decode(raw: u8) -> Self {
        FastChargeConfig4 {
            port_fast_charge_disabled: (raw & 0x04) != 0,
            pd_5v_2a_rebroadcast_enabled: (raw & 0x01) != 0,
        }
    }

    /// The raw byte that holds the fields; bits that no field covers are zero.
    pub open spec fn encode(self) -> u8 {
        ((self.port_fast_charge_disabled as u8) << 2) |
        (self.pd_5v_2a_rebroadcast_enabled as u8)
    }
}

impl From<u8> for FastChargeConfig4 {
    fn from(value: u8) -> (r: Self)
        ensures
            r == Self::decode(value),
    {
        FastChargeConfig4 {
            port_fast_charge_disabled: (value & 0x04) != 0,
            pd_5v_2a_rebroadcast_enabled: (value & 0x01) != 0,
        }
    }
}

impl vstd::std_specs::convert::FromSpecImpl<u8> for FastChargeConfig4 {
    open spec fn obeys_from_spec() -> bool {
        true
    }

    open spec fn from_spec(v: u8) -> Self {
        Self::decode(v)
    }
}

impl From<FastChargeConfig4> for u8 {
    fn from(value: FastChargeConfig4) -> (r: u8)
        ensures
            r == value.encode(),
    {
        ((value.port_fast_charge_disabled as u8) << 2) |
        (value.pd_5v_2a_rebroadcast_enabled as u8)
    }
}

impl vstd::std_specs::convert::FromSpecImpl<FastChargeConfig4> for u8 {
    open spec fn obeys_from_spec() -> bool {
        true
    }

    open spec fn from_spec(v: FastChargeConfig4) -> u8 {
        v.encode()
    }
}

/// The bit layout of the register: each field's code comes back out of the
/// byte it is packed into.
proof fn lemma_fast_charge_config_4_fields(
    raw: u8,
    port_fast_charge_disabled: u8,
    pd_5v_2a_rebroadcast_enabled: u8,
)
    by (bit_vector)
    requires
        port_fast_charge_disabled < 2,
        pd_5v_2a_rebroadcast_enabled < 2,
        raw == (port_fast_charge_disabled << 2) |
            pd_5v_2a_rebroadcast_enabled,
    ensures
        ((raw & 0x04) != 0) == (port_fast_charge_disabled == 1),
        ((raw & 0x01) != 0) == (pd_5v_2a_rebroadcast_enabled == 1),
{
}

/// Decoding the byte that a fast charge config 4 value encodes to gives the
/// value back.
pub proof fn lemma_fast_charge_config_4_round_trip(v: FastChargeConfig4)
    ensures
        FastChargeConfig4::decode(v.encode()) == v,
{
    lemma_fast_charge_config_4_fields(
        v.encode(),
        v.port_fast_charge_disabled as u8,
        v.pd_5v_2a_rebroadcast_enabled as u8,
    );
}

/// The power command request register: a PD command to send, and the bit
/// that sends it.
#[derive(Clone, Copy, Debug, PartialEq, Eq, Structural)]
pub struct PowerCommandRequest {
    /// Set to send `command`. The chip clears this bit once the command is
    /// sent.
    pub send_enabled: bool,
    pub command: PdCommand,
}

impl PowerCommandRequest {
    /// The register's fields, or the raw byte as an error where its command
    /// code is one that the chip does not define.
    pub open spec fn decode(raw: u8) -> Result<Self, ModelError> {
        match PdCommand::try_from_bits(raw & 0x07) {
            Some(command) => Ok(PowerCommandRequest { send_enabled: (raw & 0x80) != 0, command }),
            None => Err(ModelError::InvalidValueU8(raw)),
        }
    }

    /// The send bit in bit 7, the command code in bits 2-0.
    pub open spec fn encode(self) -> u8 {
        ((self.send_enabled as u8) << 7) | self.command.bits()
    }
}

impl TryFrom<u8> for PowerCommandRequest {
    type Error = ModelError;

    fn try_from(value: u8) -> (r: Result<Self, ModelError>)
        ensures
            r == Self::decode(value),
    {
        match PdCommand::try_from_bits(value & 0x07) {
            Some(command) => Ok(PowerCommandRequest { send_enabled: (value & 0x80) != 0, command }),
            None => Err(ModelError::InvalidValueU8(value)),
        }
    }
}

impl vstd::std_specs::convert::TryFromSpecImpl<u8> for PowerCommandRequest {
    open spec fn obeys_try_from_spec() -> bool {
        true
    }

    open spec fn try_from_spec(v: u8) -> Result<Self, ModelError> {
        Self::decode(v)
    }
}

impl From<PowerCommandRequest> for u8 {
    fn from(value: PowerCommandRequest) -> (r: u8)
        ensures
            r == value.encode(),
    {
        ((value.send_enabled as u8) << 7) | value.command.bits()
    }
}

impl vstd::std_specs::convert::FromSpecImpl<PowerCommandRequest> for u8 {
    open spec fn obeys_from_spec() -> bool {
        true
    }

    open spec fn from_spec(v: PowerCommandRequest) -> u8 {
        v.encode()
    }
}

impl Default for PowerCommandRequest {
    /// A hard reset, not yet to be sent.
    fn default() -> (r: Self)
        ensures
            r == (PowerCommandRequest { send_enabled: false, command: PdCommand::HardReset }),
    {
        PowerCommandRequest { send_enabled: false, command: PdCommand::HardReset }
    }
}

proof fn lemma_power_command_request_fields(raw: u8, send: u8, command: u8)
    by (bit_vector)
    requires
        send < 2,
        command < 8,
        raw == (send << 7) | command,
    ensures
        ((raw & 0x80) != 0) == (send == 1),
        (raw & 0x07) == command,
{
}

/// Decoding the byte that a power command request encodes to gives the
/// request back.
pub proof fn lemma_power_command_request_round_trip(v: PowerCommandRequest)
    ensures
        PowerCommandRequest::decode(v.encode()) == Ok::<PowerCommandRequest, ModelError>(v),
{
    lemma_power_command_request_fields(v.encode(), v.send_enabled as u8, v.command.bits());
}

/// A byte whose command bits hold no command that the chip defines is
/// refused, with the byte itself as the error.
pub proof fn lemma_undefined_command_refused(raw: u8)
    requires
        PdCommand::try_from_bits(raw & 0x07) is None,
    ensures
        PowerCommandRequest::decode(raw) == Err::<PowerCommandRequest, ModelError>(
            ModelError::InvalidValueU8(raw),
        ),
{
}

/// The ADC configuration register's channel: the code in bits 1-0. Code 0
/// is no channel that the chip defines, and the byte is refused.
pub open spec fn decode_adc_config(raw: u8) -> Result<AdcConfig, ModelError> {
    match AdcConfig::try_from_bits(raw & 0x03) {
        Some(channel) => Ok(channel),
        None => Err(ModelError::InvalidValueU8(raw)),
    }
}

/// Decoding the byte that a channel is written as gives the channel back.
pub proof fn lemma_adc_config_round_trip(channel: AdcConfig)
    ensures
        decode_adc_config(channel.bits()) == Ok::<AdcConfig, ModelError>(channel),
{
    let code = channel.bits();
    assert(code < 4 ==> code & 0x03 == code) by (bit_vector);
}

} // verus!
