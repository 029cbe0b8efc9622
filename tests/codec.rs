use sw3526::{
    adc_calibrated_tenths, adc_input_millivolts, adc_output_milliamps, adc_output_millivolts,
    buck_output_limit_milliamps, buck_output_millivolts, chip_version, composite_code,
    limit_watts, output_limit_raw, output_limit_watts, vid, AbnormalCaseResponse, AdcConfig,
    BuckForceOff, BuckForceOffConfig, BuckStatus, CCUnDrivenDurationBuckForceOff, CcStatus,
    FastChargeConfig0, FastChargeConfig1, FastChargeConfig2, FastChargeConfig3,
    FastChargeConfig4, FastChargeConfig5, FastChargeConfig6, MaxOutputVoltageExceptPd,
    ModelError, OutputShortCircuitStatus, OverTemperatureAlarmStatus,
    OverTemperatureShutdownStatus, PdCommand, PdCurrentLimitProtectMethod, PdVersion,
    Pe2_0MaxVoltage, PortStatus, PowerCommandRequest, PowerSettingMethod, ProtocolIndication,
    ProtocolIndicationResponse, ProtocolStatus, QC3_0CurrentLimitProtectMethod, Register,
    ScpSelect, SystemStatusResponse, VinOvpStatus, VoltageStatus,
};

#[test]
fn protocol_indication_round_trips() {
    let all_protocols = [
        ProtocolIndication::Unknown,
        ProtocolIndication::QC2_0,
        ProtocolIndication::QC3_0,
        ProtocolIndication::FCP,
        ProtocolIndication::SCP,
        ProtocolIndication::PdFix,
        ProtocolIndication::PdPps,
        ProtocolIndication::PE1_1,
        ProtocolIndication::PE2_0,
        ProtocolIndication::VOOC,
        ProtocolIndication::SFCP,
        ProtocolIndication::AFC,
    ];
    for protocol in all_protocols {
        for pd_version in [PdVersion::Unknown, PdVersion::PD2_0, PdVersion::PD3_0] {
            for online in [false, true] {
                let v = ProtocolIndicationResponse {
                    protocol_status: ProtocolStatus::from_bit(online),
                    voltage_status: VoltageStatus::from_bit(!online),
                    pd_version,
                    protocol,
                };
                let raw = u8::from(v);
                assert_eq!(ProtocolIndicationResponse::from(raw), v);
            }
        }
    }
}

#[test]
fn protocol_indication_known_bytes() {
    let on = ProtocolIndicationResponse::from(0xaa);
    assert_eq!(on.protocol_status, ProtocolStatus::OnLine);
    assert_eq!(on.voltage_status, VoltageStatus::_5V);
    assert_eq!(on.pd_version, PdVersion::PD3_0);
    assert_eq!(on.protocol, ProtocolIndication::SFCP);
    let off = ProtocolIndicationResponse::from(0x55);
    assert_eq!(off.protocol_status, ProtocolStatus::OffLine);
    assert_eq!(off.voltage_status, VoltageStatus::ProtocolVoltage);
    assert_eq!(off.pd_version, PdVersion::PD2_0);
    assert_eq!(off.protocol, ProtocolIndication::PdFix);
}

#[test]
fn protocol_indication_reserved_codes_read_as_unknown() {
    let v = ProtocolIndicationResponse::from(0x3f);
    assert_eq!(v.pd_version, PdVersion::Unknown);
    assert_eq!(v.protocol, ProtocolIndication::Unknown);
    let v = ProtocolIndicationResponse::from(0x0c);
    assert_eq!(v.protocol, ProtocolIndication::Unknown);
    assert_eq!(v.pd_version, PdVersion::Unknown);
}

#[test]
fn two_field_registers_round_trip() {
    for a in [false, true] {
        for b in [false, true] {
            let s = SystemStatusResponse {
                port_status: PortStatus::from_bit(a),
                buck_status: BuckStatus::from_bit(b),
            };
            assert_eq!(SystemStatusResponse::from(u8::from(s)), s);
            let f = BuckForceOffConfig {
                force_off: BuckForceOff::from_bit(a),
                cc_un_driven_duration_buck_force_off: CCUnDrivenDurationBuckForceOff::from_bit(b),
            };
            assert_eq!(BuckForceOffConfig::from(u8::from(f)), f);
            let c = CcStatus { cc1_attached: a, cc2_attached: b };
            assert_eq!(CcStatus::from(u8::from(c)), c);
            let c6 = FastChargeConfig6 {
                qc2_0_qc3_0_cable_compatible_and_offset_enabled: a,
                pdo_link_with_vin: b,
            };
            assert_eq!(FastChargeConfig6::from(u8::from(c6)), c6);
            let c5 = FastChargeConfig5 {
                scp_select: ScpSelect::from_bit(a),
                pe2_0_max_voltage: Pe2_0MaxVoltage::from_bit(b),
            };
            assert_eq!(FastChargeConfig5::from(u8::from(c5)), c5);
            let c4 = FastChargeConfig4 {
                port_fast_charge_disabled: a,
                pd_5v_2a_rebroadcast_enabled: b,
            };
            assert_eq!(FastChargeConfig4::from(u8::from(c4)), c4);
        }
    }
}

#[test]
fn abnormal_case_round_trips() {
    for bits in 0u8..16 {
        let v = AbnormalCaseResponse {
            vin_ovp_status: VinOvpStatus::from_bit(bits & 8 != 0),
            over_temperature_alarm_status: OverTemperatureAlarmStatus::from_bit(bits & 4 != 0),
            over_temperature_shutdown_status: OverTemperatureShutdownStatus::from_bit(
                bits & 2 != 0,
            ),
            output_short_circuit_status: OutputShortCircuitStatus::from_bit(bits & 1 != 0),
        };
        assert_eq!(AbnormalCaseResponse::from(u8::from(v)), v);
    }
}

#[test]
fn fast_charge_config_0_every_byte_round_trips() {
    for raw in 0u8..=255 {
        assert_eq!(u8::from(FastChargeConfig0::from(raw)), raw);
    }
}

#[test]
fn fast_charge_config_1_round_trips() {
    for bits in 0u8..128 {
        let v = FastChargeConfig1 {
            pps1_enabled: bits & 64 != 0,
            pps0_enabled: bits & 32 != 0,
            pd_20v_enabled: bits & 16 != 0,
            pd_15v_enabled: bits & 8 != 0,
            pd_12v_enabled: bits & 4 != 0,
            pd_9v_enabled: bits & 2 != 0,
            pd_enabled: bits & 1 != 0,
        };
        assert_eq!(FastChargeConfig1::from(u8::from(v)), v);
    }
    // Bit 1 is reserved: it is dropped on the way through.
    assert_eq!(u8::from(FastChargeConfig1::from(0xff)), 0xfd);
}

#[test]
fn fast_charge_config_2_round_trips() {
    for code in 0u8..4 {
        for dpdm_enabled in [false, true] {
            let v = FastChargeConfig2 {
                dpdm_enabled,
                max_output_voltage_except_pd: MaxOutputVoltageExceptPd::from_bits(code),
            };
            assert_eq!(v.max_output_voltage_except_pd.bits(), code);
            assert_eq!(FastChargeConfig2::from(u8::from(v)), v);
        }
    }
}

#[test]
fn fast_charge_config_3_power_setting_method_round_trips() {
    let v = FastChargeConfig3 {
        pd_current_limit_protect_method: PdCurrentLimitProtectMethod::UV,
        qc3_0_current_limit_protect_method: QC3_0CurrentLimitProtectMethod::CCLoop,
        qc3_0_constant_power_enabled: false,
        pps_constant_power_enabled: false,
        power_setting_method: PowerSettingMethod::Register,
    };
    assert_eq!(u8::from(v), 0x04);
    assert_eq!(FastChargeConfig3::from(0x04), v);
    for bits in 0u8..32 {
        let v = FastChargeConfig3 {
            pd_current_limit_protect_method: PdCurrentLimitProtectMethod::from_bit(bits & 16 != 0),
            qc3_0_current_limit_protect_method: QC3_0CurrentLimitProtectMethod::from_bit(
                bits & 8 != 0,
            ),
            qc3_0_constant_power_enabled: bits & 4 != 0,
            pps_constant_power_enabled: bits & 2 != 0,
            power_setting_method: PowerSettingMethod::from_bit(bits & 1 != 0),
        };
        assert_eq!(FastChargeConfig3::from(u8::from(v)), v);
    }
}

#[test]
fn power_command_request_round_trips() {
    for send_enabled in [false, true] {
        let v = PowerCommandRequest { send_enabled, command: PdCommand::HardReset };
        assert_eq!(PowerCommandRequest::try_from(u8::from(v)), Ok(v));
    }
    let hard_reset = PowerCommandRequest { send_enabled: true, command: PdCommand::HardReset };
    assert_eq!(u8::from(hard_reset), 0x81);
}

#[test]
fn power_command_request_undefined_code_is_refused() {
    for raw in [0x00u8, 0x02, 0x07, 0x80, 0x86] {
        assert_eq!(PowerCommandRequest::try_from(raw), Err(ModelError::InvalidValueU8(raw)));
    }
    assert_eq!(
        PowerCommandRequest::try_from(0xf9),
        Ok(PowerCommandRequest { send_enabled: true, command: PdCommand::HardReset })
    );
}

#[test]
fn power_command_request_default() {
    let d = PowerCommandRequest::default();
    assert!(!d.send_enabled);
    assert_eq!(d.command, PdCommand::HardReset);
}

#[test]
fn field_codes() {
    assert_eq!(AdcConfig::try_from_bits(0), None);
    assert_eq!(AdcConfig::try_from_bits(1), Some(AdcConfig::Vin));
    assert_eq!(AdcConfig::try_from_bits(2), Some(AdcConfig::Vout));
    assert_eq!(AdcConfig::try_from_bits(3), Some(AdcConfig::Iout));
    assert_eq!(AdcConfig::Iout.bits(), 3);
    assert_eq!(PdCommand::try_from_bits(1), Some(PdCommand::HardReset));
    assert_eq!(PdCommand::try_from_bits(4), None);
    assert_eq!(PdVersion::from_bits(3), PdVersion::Unknown);
    assert_eq!(ProtocolIndication::from_bits(11), ProtocolIndication::AFC);
    assert_eq!(ProtocolIndication::from_bits(12), ProtocolIndication::Unknown);
    assert_eq!(MaxOutputVoltageExceptPd::from_bits(1), MaxOutputVoltageExceptPd::_9V);
}

#[test]
fn register_addresses() {
    assert_eq!(Register::VersionInfo.address(), 0x01);
    assert_eq!(Register::AbnormalCase.address(), 0x0b);
    assert_eq!(Register::AdcConfig.address(), 0x3a);
    assert_eq!(Register::PowerCommandRequest.address(), 0x70);
    assert_eq!(Register::PowerConfig.address(), 0xa7);
    assert_eq!(Register::VidConfig1.address(), 0xaf);
}

#[test]
fn composite_codes() {
    assert_eq!(composite_code(0xff, 0xff), 0xfff);
    assert_eq!(composite_code(0x12, 0x34), 0x123);
    assert_eq!(composite_code(0x00, 0x0f), 0x000);
    assert_eq!(buck_output_millivolts(0xff, 0xff), 40950);
    assert_eq!(buck_output_millivolts(0x01, 0x80), 240);
}

#[test]
fn scaled_readings() {
    assert_eq!(chip_version(0xfe), 2);
    assert_eq!(buck_output_limit_milliamps(0xff), 4150);
    assert_eq!(buck_output_limit_milliamps(0x00), 1000);
    assert_eq!(buck_output_limit_milliamps(0x41), 1050);
    assert_eq!(adc_input_millivolts(0xff), 40800);
    assert_eq!(adc_output_millivolts(0xff), 24480);
    assert_eq!(adc_output_milliamps(0xff), 10200);
    assert_eq!(adc_output_milliamps(0x01), 40);
    assert_eq!(limit_watts(0xff), 127);
    assert_eq!(vid(0x34, 0x12), 0x1234);
}

#[test]
fn calibrated_adc_values() {
    assert_eq!(adc_calibrated_tenths(AdcConfig::Vin, 0xfff), 409500);
    assert_eq!(adc_calibrated_tenths(AdcConfig::Vout, 0xfff), 245700);
    assert_eq!(adc_calibrated_tenths(AdcConfig::Iout, 1), 25);
    assert_eq!(adc_calibrated_tenths(AdcConfig::Iout, 0xfff), 102375);
}

#[test]
fn output_limit_wraps_around() {
    assert_eq!(output_limit_raw(63), 0x3f);
    assert_eq!(output_limit_watts(0x3f), 63);
    assert_eq!(output_limit_watts(0), 64);
    assert_eq!(output_limit_raw(64), 0);
    assert_eq!(output_limit_watts(7), 71);
    assert_eq!(output_limit_raw(71), 7);
    assert_eq!(output_limit_watts(0xc8), 8);
    for watts in 8u8..=71 {
        assert_eq!(output_limit_watts(output_limit_raw(watts)), watts);
    }
    for raw in 0u8..64 {
        assert_eq!(output_limit_raw(output_limit_watts(raw)), raw);
    }
}
