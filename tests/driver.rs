use embedded_hal::i2c::{ErrorKind, I2c};
use embedded_hal_mock::eh1::i2c::{Mock, Transaction};
use sw3526::{
    AdcConfig, BuckForceOff, BuckForceOffConfig, CCUnDrivenDurationBuckForceOff,
    FastChargeConfig0, FastChargeConfig1, FastChargeConfig2, FastChargeConfig3,
    FastChargeConfig4, FastChargeConfig5, FastChargeConfig6, MaxOutputVoltageExceptPd,
    OutputShortCircuitStatus, OverTemperatureAlarmStatus, OverTemperatureShutdownStatus,
    PdCommand, PdCurrentLimitProtectMethod, PdVersion, Pe2_0MaxVoltage, PowerCommandRequest,
    PowerSettingMethod, ProtocolIndication, ProtocolStatus, QC3_0CurrentLimitProtectMethod,
    ScpSelect, Transport, VinOvpStatus, VoltageStatus, ADDRESS, SW3526,
};

/// The mock bus, seen through the driver's transport trait.
struct Bus(Mock);

impl Transport for Bus {
    type Error = ErrorKind;

    fn write(&mut self, address: u8, bytes: &[u8]) -> Result<(), ErrorKind> {
        self.0.write(address, bytes)
    }

    fn write_read(&mut self, address: u8, bytes: &[u8], buffer: &mut [u8]) -> Result<(), ErrorKind> {
        self.0.write_read(address, bytes, buffer)
    }
}

#[test]
fn get_chip_version() {
    let i2c_expectations = [Transaction::write_read(ADDRESS, vec![0x01], vec![0x01])];
    let mut i2c = Mock::new(&i2c_expectations);
    let mut sw3526 = SW3526::new(Bus(i2c.clone()));

    let version = sw3526.get_chip_version().unwrap();

    assert!(version == 0x01);

    i2c.done();
}

#[test]
fn get_buck_output_millivolts() {
    let i2c_expectations = [
        Transaction::write_read(ADDRESS, vec![0x03], vec![0xff]), // eq 0xff
        Transaction::write_read(ADDRESS, vec![0x04], vec![0xff]),
    ]; // eq 0xf0
    let mut i2c = Mock::new(&i2c_expectations);
    let mut sw3526 = SW3526::new(Bus(i2c.clone()));

    let output = sw3526.get_buck_output_millivolts().unwrap();

    assert!(output == 40950);

    i2c.done();
}

#[test]
fn get_buck_output_limit_milliamps() {
    let i2c_expectations = [Transaction::write_read(ADDRESS, vec![0x05], vec![0xff])]; // eq 0x3f
    let mut i2c = Mock::new(&i2c_expectations);
    let mut sw3526 = SW3526::new(Bus(i2c.clone()));

    let limit = sw3526.get_buck_output_limit_milliamps().unwrap();

    assert!(limit == 4150);

    i2c.done();
}

#[test]
fn get_protocol_1() {
    let i2c_expectations = [Transaction::write_read(ADDRESS, vec![0x06], vec![0xaa])];
    let mut i2c = Mock::new(&i2c_expectations);
    let mut sw3526 = SW3526::new(Bus(i2c.clone()));

    let res = sw3526.get_protocol().unwrap();

    assert!(matches!(res.protocol_status, ProtocolStatus::OnLine));
    assert!(matches!(res.voltage_status, VoltageStatus::_5V));
    assert!(matches!(res.pd_version, PdVersion::PD3_0));
    assert!(matches!(res.protocol, ProtocolIndication::SFCP));

    i2c.done();
}

#[test]
fn get_protocol_2() {
    let i2c_expectations = [Transaction::write_read(ADDRESS, vec![0x06], vec![0x55])];
    let mut i2c = Mock::new(&i2c_expectations);
    let mut sw3526 = SW3526::new(Bus(i2c.clone()));

    let res = sw3526.get_protocol().unwrap();

    assert!(matches!(res.protocol_status, ProtocolStatus::OffLine));
    assert!(matches!(res.voltage_status, VoltageStatus::ProtocolVoltage));
    assert!(matches!(res.pd_version, PdVersion::PD2_0));
    assert!(matches!(res.protocol, ProtocolIndication::PdFix));

    i2c.done();
}

#[test]
fn get_abnormal_case_normal() {
    let i2c_expectations = [Transaction::write_read(ADDRESS, vec![0x0b], vec![0xe8])];
    let mut i2c = Mock::new(&i2c_expectations);
    let mut sw3526 = SW3526::new(Bus(i2c.clone()));

    let abnormal_case = sw3526.get_abnormal_case().unwrap();

    assert!(matches!(abnormal_case.vin_ovp_status, VinOvpStatus::Normal));
    assert!(matches!(
        abnormal_case.over_temperature_alarm_status,
        OverTemperatureAlarmStatus::Normal
    ));
    assert!(matches!(
        abnormal_case.over_temperature_shutdown_status,
        OverTemperatureShutdownStatus::Normal
    ));
    assert!(matches!(
        abnormal_case.output_short_circuit_status,
        OutputShortCircuitStatus::Normal
    ));

    i2c.done();
}

#[test]
fn get_abnormal_case_abnormal() {
    let i2c_expectations = [Transaction::write_read(ADDRESS, vec![0x0b], vec![0x17])];
    let mut i2c = Mock::new(&i2c_expectations);
    let mut sw3526 = SW3526::new(Bus(i2c.clone()));

    let abnormal_case = sw3526.get_abnormal_case().unwrap();

    assert!(matches!(abnormal_case.vin_ovp_status, VinOvpStatus::Ovp));
    assert!(matches!(
        abnormal_case.over_temperature_alarm_status,
        OverTemperatureAlarmStatus::Alarm
    ));
    assert!(matches!(
        abnormal_case.over_temperature_shutdown_status,
        OverTemperatureShutdownStatus::Shutdown
    ));
    assert!(matches!(
        abnormal_case.output_short_circuit_status,
        OutputShortCircuitStatus::Short
    ));

    i2c.done();
}

#[test]
fn set_i2c_writable() {
    let i2c_expectations = [Transaction::write(ADDRESS, vec![0x12, 0x20, 0x40, 0x80])];
    let mut i2c = Mock::new(&i2c_expectations);
    let mut sw3526 = SW3526::new(Bus(i2c.clone()));

    sw3526.set_i2c_writable().unwrap();

    i2c.done();
}

#[test]
fn get_buck_force_off() {
    let i2c_expectations = [Transaction::write_read(ADDRESS, vec![0x13], vec![0x80])];
    let mut i2c = Mock::new(&i2c_expectations);
    let mut sw3526 = SW3526::new(Bus(i2c.clone()));

    let buck_force_off = sw3526.get_buck_force_off().unwrap();

    assert!(matches!(
        buck_force_off.force_off,
        BuckForceOff::TurnOffOneSecond
    ));
    assert!(matches!(
        buck_force_off.cc_un_driven_duration_buck_force_off,
        CCUnDrivenDurationBuckForceOff::Driven
    ));

    i2c.done();
}

#[test]
fn set_buck_force_off() {
    let i2c_expectations = [Transaction::write(ADDRESS, vec![0x13, 0xc0])];
    let mut i2c = Mock::new(&i2c_expectations);

    let mut sw3526 = SW3526::new(Bus(i2c.clone()));
    sw3526
        .set_buck_force_off(BuckForceOffConfig {
            force_off: BuckForceOff::TurnOffOneSecond,
            cc_un_driven_duration_buck_force_off: CCUnDrivenDurationBuckForceOff::UnDriven,
        })
        .unwrap();

    i2c.done();
}

#[test]
fn get_adc_input_millivolts() {
    let i2c_expectations = [Transaction::write_read(ADDRESS, vec![0x30], vec![0xff])];
    let mut i2c = Mock::new(&i2c_expectations);
    let mut sw3526 = SW3526::new(Bus(i2c.clone()));

    let input = sw3526.get_adc_input_millivolts().unwrap();

    assert!(input == 40800);

    i2c.done();
}

#[test]
fn get_adc_output_millivolts() {
    let i2c_expectations = [Transaction::write_read(ADDRESS, vec![0x31], vec![0xff])];
    let mut i2c = Mock::new(&i2c_expectations);
    let mut sw3526 = SW3526::new(Bus(i2c.clone()));

    let output = sw3526.get_adc_output_millivolts().unwrap();

    assert!(output == 24480);

    i2c.done();
}

#[test]
fn get_adc_output_milliamps() {
    let i2c_expectations = [Transaction::write_read(ADDRESS, vec![0x33], vec![0xff])];
    let mut i2c = Mock::new(&i2c_expectations);
    let mut sw3526 = SW3526::new(Bus(i2c.clone()));

    let output = sw3526.get_adc_output_milliamps().unwrap();

    assert!(output as f32 == 10200f32);

    i2c.done();
}

#[test]
fn get_adc_config() {
    let i2c_expectations = [Transaction::write_read(ADDRESS, vec![0x3a], vec![0xff])]; // eq 0x3
    let mut i2c = Mock::new(&i2c_expectations);
    let mut sw3526 = SW3526::new(Bus(i2c.clone()));

    let config = sw3526.get_adc_config().unwrap();

    assert!(matches!(config, AdcConfig::Iout));

    i2c.done();
}

#[test]
fn set_adc_config() {
    let i2c_expectations = [Transaction::write(ADDRESS, vec![0x3a, 0x01])];
    let mut i2c = Mock::new(&i2c_expectations);

    let mut sw3526 = SW3526::new(Bus(i2c.clone()));
    sw3526.set_adc_config(AdcConfig::Vin).unwrap();

    i2c.done();
}

#[test]
fn get_adc_data_raw() {
    let i2c_expectations = [
        Transaction::write_read(ADDRESS, vec![0x3b], vec![0xff]), // eq 0xff
        Transaction::write_read(ADDRESS, vec![0x3c], vec![0xff]), // eq 0x0f
    ];
    let mut i2c = Mock::new(&i2c_expectations);
    let mut sw3526 = SW3526::new(Bus(i2c.clone()));

    let data = sw3526.get_adc_data_raw().unwrap();

    assert!(data == 4095);

    i2c.done();
}

#[test]
fn get_adc_data_when_adc_config_not_configured() {
    let i2c_expectations: [Transaction; 0] = [];
    let mut i2c = Mock::new(&i2c_expectations);
    let mut sw3526 = SW3526::new(Bus(i2c.clone()));

    let data = sw3526.get_adc_data().unwrap();

    assert!(data.is_none());

    i2c.done();
}

#[test]
fn get_adc_data_when_adc_config_configured() {
    let i2c_expectations = [
        Transaction::write(ADDRESS, vec![0x3a, 0x01]),
        Transaction::write_read(ADDRESS, vec![0x3b], vec![0xff]), // eq 0xff
        Transaction::write_read(ADDRESS, vec![0x3c], vec![0xff]), // eq 0x0f
    ];
    let mut i2c = Mock::new(&i2c_expectations);
    let mut sw3526 = SW3526::new(Bus(i2c.clone()));

    sw3526.set_adc_config(AdcConfig::Vin).unwrap();
    let data = sw3526.get_adc_data().unwrap();

    assert!(data.is_some());
    assert!(data.unwrap() as f32 / 10.0 == 40950_f32);

    i2c.done();
}

#[test]
fn get_cc_status() {
    let i2c_expectations = [Transaction::write_read(ADDRESS, vec![0x69], vec![0xff])]; // eq 0x30
    let mut i2c = Mock::new(&i2c_expectations);
    let mut sw3526 = SW3526::new(Bus(i2c.clone()));

    let status = sw3526.get_cc_status().unwrap();

    assert!(status.cc1_attached == true);
    assert!(status.cc2_attached == true);

    i2c.done();
}

#[test]
fn get_power_command_request() {
    let i2c_expectations = [Transaction::write_read(ADDRESS, vec![0x70], vec![0xf9])]; // eq 0x81
    let mut i2c = Mock::new(&i2c_expectations);
    let mut sw3526 = SW3526::new(Bus(i2c.clone()));

    let status = sw3526.get_power_command_request().unwrap();

    assert!(status.send_enabled == true);
    assert!(matches!(status.command, PdCommand::HardReset));

    i2c.done();
}

#[test]
fn set_power_command_request() {
    let i2c_expectations = [Transaction::write(ADDRESS, vec![0x70, 0x81])];
    let mut i2c = Mock::new(&i2c_expectations);
    let mut sw3526 = SW3526::new(Bus(i2c.clone()));

    sw3526
        .set_power_command_request(PowerCommandRequest {
            send_enabled: true,
            command: PdCommand::HardReset,
        })
        .unwrap();

    i2c.done();
}

#[test]
fn send_pd_hard_reset() {
    let i2c_expectations = [Transaction::write(ADDRESS, vec![0x70, 0x81])];
    let mut i2c = Mock::new(&i2c_expectations);
    let mut sw3526 = SW3526::new(Bus(i2c.clone()));

    sw3526.send_pd_hard_reset().unwrap();

    i2c.done();
}

#[test]
fn get_fast_charge_config_6() {
    let i2c_expectations = [Transaction::write_read(ADDRESS, vec![0xa2], vec![0xff])]; // eq 0x60
    let mut i2c = Mock::new(&i2c_expectations);
    let mut sw3526 = SW3526::new(Bus(i2c.clone()));

    let fast_charge_config = sw3526.get_fast_charge_config_6().unwrap();

    assert!(fast_charge_config.qc2_0_qc3_0_cable_compatible_and_offset_enabled == true);
    assert!(fast_charge_config.pdo_link_with_vin == true);

    i2c.done();
}

#[test]
fn set_fast_charge_config_6() {
    let i2c_expectations = [Transaction::write(ADDRESS, vec![0xa2, 0x60])];
    let mut i2c = Mock::new(&i2c_expectations);
    let mut sw3526 = SW3526::new(Bus(i2c.clone()));

    sw3526
        .set_fast_charge_config_6(FastChargeConfig6 {
            qc2_0_qc3_0_cable_compatible_and_offset_enabled: true,
            pdo_link_with_vin: true,
        })
        .unwrap();

    i2c.done();
}

#[test]
fn get_fast_charge_config_5() {
    let i2c_expectations = [Transaction::write_read(ADDRESS, vec![0xa4], vec![0xff])]; // eq 0x60
    let mut i2c = Mock::new(&i2c_expectations);
    let mut sw3526 = SW3526::new(Bus(i2c.clone()));

    let fast_charge_config = sw3526.get_fast_charge_config_5().unwrap();

    assert!(matches!(
        fast_charge_config.scp_select,
        ScpSelect::HighVoltage
    ));
    assert!(matches!(
        fast_charge_config.pe2_0_max_voltage,
        Pe2_0MaxVoltage::_20V
    ));

    i2c.done();
}

#[test]
fn set_fast_charge_config_5() {
    let i2c_expectations = [Transaction::write(ADDRESS, vec![0xa4, 0x60])];
    let mut i2c = Mock::new(&i2c_expectations);
    let mut sw3526 = SW3526::new(Bus(i2c.clone()));

    sw3526
        .set_fast_charge_config_5(FastChargeConfig5 {
            scp_select: ScpSelect::HighVoltage,
            pe2_0_max_voltage: Pe2_0MaxVoltage::_20V,
        })
        .unwrap();

    i2c.done();
}

#[test]
fn get_output_limit_watts() {
    let i2c_expectations = [Transaction::write_read(ADDRESS, vec![0xa7], vec![0xff])];
    let mut i2c = Mock::new(&i2c_expectations);
    let mut sw3526 = SW3526::new(Bus(i2c.clone()));

    let output = sw3526.get_output_limit_watts().unwrap();

    assert!(output == 63);

    i2c.done();
}

#[test]
fn set_output_limit_watts() {
    let i2c_expectations = [Transaction::write(ADDRESS, vec![0xa7, 0x3f])];
    let mut i2c = Mock::new(&i2c_expectations);
    let mut sw3526 = SW3526::new(Bus(i2c.clone()));

    sw3526.set_output_limit_watts(63).unwrap();

    i2c.done();
}

#[test]
fn get_fast_charge_config_0() {
    let i2c_expectations = [Transaction::write_read(ADDRESS, vec![0xa8], vec![0xaa])];
    let mut i2c = Mock::new(&i2c_expectations);
    let mut sw3526 = SW3526::new(Bus(i2c.clone()));

    let fast_charge_config = sw3526.get_fast_charge_config_0().unwrap();

    assert!(fast_charge_config.scp_enabled == true);
    assert!(fast_charge_config.vooc_enabled == false);
    assert!(fast_charge_config.sfcp_enabled == true);
    assert!(fast_charge_config.qc2_0_enabled == false);
    assert!(fast_charge_config.qc3_0_enabled == true);
    assert!(fast_charge_config.fcp_enabled == false);
    assert!(fast_charge_config.afc_enabled == true);
    assert!(fast_charge_config.pe_enabled == false);

    i2c.done();
}

#[test]
fn set_fast_charge_config_0() {
    let i2c_expectations = [Transaction::write(ADDRESS, vec![0xa8, 0x55])];
    let mut i2c = Mock::new(&i2c_expectations);
    let mut sw3526 = SW3526::new(Bus(i2c.clone()));

    sw3526
        .set_fast_charge_config_0(FastChargeConfig0 {
            scp_enabled: false,
            vooc_enabled: true,
            sfcp_enabled: false,
            qc2_0_enabled: true,
            qc3_0_enabled: false,
            fcp_enabled: true,
            afc_enabled: false,
            pe_enabled: true,
        })
        .unwrap();

    i2c.done();
}

#[test]
fn get_fast_charge_config_1() {
    let i2c_expectations = [Transaction::write_read(ADDRESS, vec![0xa9], vec![0xaa])];
    let mut i2c = Mock::new(&i2c_expectations);
    let mut sw3526 = SW3526::new(Bus(i2c.clone()));

    let fast_charge_config = sw3526.get_fast_charge_config_1().unwrap();

    assert!(fast_charge_config.pps1_enabled == true);
    assert!(fast_charge_config.pps0_enabled == false);
    assert!(fast_charge_config.pd_20v_enabled == true);
    assert!(fast_charge_config.pd_15v_enabled == false);
    assert!(fast_charge_config.pd_12v_enabled == true);
    assert!(fast_charge_config.pd_9v_enabled == false);
    assert!(fast_charge_config.pd_enabled == false);

    i2c.done();
}

#[test]
fn set_fast_charge_config_1() {
    let i2c_expectations = [Transaction::write(ADDRESS, vec![0xa9, 0x55])];
    let mut i2c = Mock::new(&i2c_expectations);
    let mut sw3526 = SW3526::new(Bus(i2c.clone()));

    sw3526
        .set_fast_charge_config_1(FastChargeConfig1 {
            pps1_enabled: false,
            pps0_enabled: true,
            pd_20v_enabled: false,
            pd_15v_enabled: true,
            pd_12v_enabled: false,
            pd_9v_enabled: true,
            pd_enabled: true,
        })
        .unwrap();

    i2c.done();
}

#[test]
fn get_fast_charge_config_2() {
    let i2c_expectations = [Transaction::write_read(ADDRESS, vec![0xaa], vec![0xff])]; // eq 0x23
    let mut i2c = Mock::new(&i2c_expectations);
    let mut sw3526 = SW3526::new(Bus(i2c.clone()));

    let fast_charge_config = sw3526.get_fast_charge_config_2().unwrap();

    assert!(fast_charge_config.dpdm_enabled == true);
    assert!(matches!(
        fast_charge_config.max_output_voltage_except_pd,
        MaxOutputVoltageExceptPd::_20V
    ));

    i2c.done();
}

#[test]
fn set_fast_charge_config_2() {
    let i2c_expectations = [Transaction::write(ADDRESS, vec![0xaa, 0x23])];
    let mut i2c = Mock::new(&i2c_expectations);
    let mut sw3526 = SW3526::new(Bus(i2c.clone()));

    sw3526
        .set_fast_charge_config_2(FastChargeConfig2 {
            dpdm_enabled: true,
            max_output_voltage_except_pd: MaxOutputVoltageExceptPd::_20V,
        })
        .unwrap();

    i2c.done();
}

#[test]
fn get_fast_charge_config_3() {
    let i2c_expectations = [Transaction::write_read(ADDRESS, vec![0xab], vec![0xaa])]; // eq 0xa4
    let mut i2c = Mock::new(&i2c_expectations);
    let mut sw3526 = SW3526::new(Bus(i2c.clone()));

    let fast_charge_config = sw3526.get_fast_charge_config_3().unwrap();

    // pd_current_limit_protect_method: (value & 0x80).try_into().unwrap(),
    //     qc3_0_current_limit_protect_method: (value & 0x40).try_into().unwrap(),
    //     qc3_0_constant_power_enabled: (value & 0x20) != 0,
    //     pps_constant_power_enabled: (value & 0x10) != 0,
    //     power_setting_method: (value & 0x01).try_into().unwrap(),
    assert!(matches!(
        fast_charge_config.pd_current_limit_protect_method,
        PdCurrentLimitProtectMethod::OC
    ));
    assert!(matches!(
        fast_charge_config.qc3_0_current_limit_protect_method,
        QC3_0CurrentLimitProtectMethod::CCLoop
    ));
    assert!(fast_charge_config.qc3_0_constant_power_enabled == true);
    assert!(fast_charge_config.pps_constant_power_enabled == false);
    assert!(matches!(
        fast_charge_config.power_setting_method,
        PowerSettingMethod::Rset
    ));

    i2c.done();
}

#[test]
fn set_fast_charge_config_3() {
    let i2c_expectations = [Transaction::write(ADDRESS, vec![0xab, 0x54])];
    let mut i2c = Mock::new(&i2c_expectations);
    let mut sw3526 = SW3526::new(Bus(i2c.clone()));

    sw3526
        .set_fast_charge_config_3(FastChargeConfig3 {
            pd_current_limit_protect_method: PdCurrentLimitProtectMethod::UV,
            qc3_0_current_limit_protect_method: QC3_0CurrentLimitProtectMethod::VoltageDrop,
            qc3_0_constant_power_enabled: false,
            pps_constant_power_enabled: true,
            power_setting_method: PowerSettingMethod::Register,
        })
        .unwrap();

    i2c.done();
}

#[test]
fn get_fast_charge_config_4() {
    let i2c_expectations = [Transaction::write_read(ADDRESS, vec![0xac], vec![0x05])];
    let mut i2c = Mock::new(&i2c_expectations);
    let mut sw3526 = SW3526::new(Bus(i2c.clone()));

    let fast_charge_config = sw3526.get_fast_charge_config_4().unwrap();

    assert!(fast_charge_config.port_fast_charge_disabled == true);
    assert!(fast_charge_config.pd_5v_2a_rebroadcast_enabled == true);

    i2c.done();
}

#[test]
fn set_fast_charge_config_4() {
    let i2c_expectations = [Transaction::write(ADDRESS, vec![0xac, 0x00])];
    let mut i2c = Mock::new(&i2c_expectations);
    let mut sw3526 = SW3526::new(Bus(i2c.clone()));

    sw3526
        .set_fast_charge_config_4(FastChargeConfig4 {
            port_fast_charge_disabled: false,
            pd_5v_2a_rebroadcast_enabled: false,
        })
        .unwrap();

    i2c.done();
}

#[test]
fn get_vid() {
    let i2c_expectations = [
        Transaction::write_read(ADDRESS, vec![0xae], vec![0xaa]),
        Transaction::write_read(ADDRESS, vec![0xaf], vec![0xaa]),
    ];
    let mut i2c = Mock::new(&i2c_expectations);
    let mut sw3526 = SW3526::new(Bus(i2c.clone()));

    let vid = sw3526.get_vid().unwrap();

    assert!(vid == 0xaaaa);

    i2c.done();
}

#[test]
fn set_vid() {
    let i2c_expectations = [
        Transaction::write(ADDRESS, vec![0xae, 0xaa]),
        Transaction::write(ADDRESS, vec![0xaf, 0xaa]),
    ];
    let mut i2c = Mock::new(&i2c_expectations);
    let mut sw3526 = SW3526::new(Bus(i2c.clone()));

    sw3526.set_vid(0xaaaa).unwrap();

    i2c.done();
}
