//! Register-level driver for the SW3526 USB power-delivery / fast-charge
//! controller.

pub mod error;
pub mod fields;
pub mod registers;
pub mod session;
pub mod transport;
pub mod units;

pub use error::{ModelError, OperationError};
pub use fields::{
    AdcConfig, BuckForceOff, BuckStatus, CCUnDrivenDurationBuckForceOff, MaxOutputVoltageExceptPd,
    OutputShortCircuitStatus, OverTemperatureAlarmStatus, OverTemperatureShutdownStatus, PdCommand,
    PdCurrentLimitProtectMethod, PdVersion, Pe2_0MaxVoltage, PortStatus, PowerSettingMethod,
    ProtocolIndication, ProtocolStatus, QC3_0CurrentLimitProtectMethod, ScpSelect, VinOvpStatus,
    VoltageStatus,
};
pub use registers::{
    AbnormalCaseResponse, BuckForceOffConfig, CcStatus, FastChargeConfig0, FastChargeConfig1,
    FastChargeConfig2, FastChargeConfig3, FastChargeConfig4, FastChargeConfig5, FastChargeConfig6,
    PowerCommandRequest, ProtocolIndicationResponse, Register, SystemStatusResponse,
};
pub use session::{ADDRESS, SW3526};
pub use transport::{BusOp, Transport};
pub use units::{
    adc_calibrated_tenths, adc_input_millivolts, adc_output_milliamps, adc_output_millivolts,
    buck_output_limit_milliamps, buck_output_millivolts, chip_version, composite_code,
    limit_watts, output_limit_raw, output_limit_watts, vid,
};
