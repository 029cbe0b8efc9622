//! A session with one chip: the bus it owns, the ADC channel it last set or
//! read, and a record of every transaction it issued.
//!
//! Each operation issues a fixed, short sequence of transactions at the
//! chip's address and decodes what they read. The contracts state that
//! sequence over the record: which bytes were written, in which order, and
//! what the operation returns for whatever the bus answered. A transport
//! failure ends the operation at once and is returned unchanged.

use vstd::prelude::*;
use crate::error::{ModelError, OperationError};
use crate::fields::{AdcConfig, PdCommand};
use crate::registers::{
    decode_adc_config, AbnormalCaseResponse, BuckForceOffConfig, CcStatus, FastChargeConfig0,
    FastChargeConfig1, FastChargeConfig2, FastChargeConfig3, FastChargeConfig4, FastChargeConfig5,
    FastChargeConfig6, PowerCommandRequest, ProtocolIndicationResponse, Register,
    SystemStatusResponse,
};
use crate::transport::{reply_of, BusOp, Transport};
use crate::units::{
    adc_calibrated_tenths, adc_input_millivolts, adc_output_milliamps, adc_output_millivolts,
    buck_output_limit_milliamps, buck_output_millivolts, chip_version, composite_code,
    limit_watts, output_limit_raw, output_limit_watts, spec_adc_calibrated_tenths,
    spec_adc_input_millivolts, spec_adc_output_milliamps, spec_adc_output_millivolts,
    spec_buck_output_limit_milliamps, spec_buck_output_millivolts, spec_chip_version,
    spec_composite_code, spec_limit_watts, spec_output_limit_raw, spec_output_limit_watts,
    spec_vid, vid,
};

verus! {

/// The chip's fixed address on the bus.
pub const ADDRESS: u8 = 0x3c;

/// `op` writes `register`'s offset to the chip and reads one byte back.
pub open spec fn reads_register<E>(op: BusOp<E>, register: Register) -> bool {
    match op {
        BusOp::WriteRead { address, bytes, reply } => {
            &&& address == ADDRESS
            &&& bytes == seq![register.spec_address()]
            &&& reply matches Ok(b) ==> b.len() == 1
        },
        BusOp::Write { .. } => false,
    }
}

/// The byte that a write-then-read read, or the transport's error.
pub open spec fn byte_read<E>(op: BusOp<E>) -> Result<u8, E>
    recommends
        op is WriteRead,
{
    match op {
        BusOp::WriteRead { reply, .. } => match reply {
            Ok(b) => Ok(b[0]),
            Err(e) => Err(e),
        },
        BusOp::Write { .. } => arbitrary(),
    }
}

/// `op` writes exactly `bytes` to the chip.
pub open spec fn writes<E>(op: BusOp<E>, bytes: Seq<u8>) -> bool {
    op matches BusOp::Write { address, bytes: written, .. } && address == ADDRESS && written
        == bytes
}

/// What became of a write.
pub open spec fn write_result<E>(op: BusOp<E>) -> Result<(), E>
    recommends
        op is Write,
{
    match op {
        BusOp::Write { result, .. } => result,
        BusOp::WriteRead { .. } => arbitrary(),
    }
}

/// `f` applied to a success, an error passed on as it is.
pub open spec fn map_ok<A, T, E>(r: Result<A, E>, f: spec_fn(A) -> T) -> Result<T, E> {
    match r {
        Ok(a) => Ok(f(a)),
        Err(e) => Err(e),
    }
}

/// A byte that was read and then validated: the transport's error, or the
/// decoding's.
pub open spec fn checked<T, E>(r: Result<u8, E>, decode: spec_fn(u8) -> Result<T, ModelError>) -> Result<T, OperationError<E>> {
    match r {
        Ok(b) => match decode(b) {
            Ok(v) => Ok(v),
            Err(m) => Err(OperationError::ModelError(m)),
        },
        Err(e) => Err(OperationError::I2CError(e)),
    }
}

/// A driver session: the transport to the chip, and the ADC channel that the
/// session last configured or read, which gives raw ADC codes their unit.
pub struct SW3526<I2C: Transport> {
    i2c: I2C,
    adc_config: Option<AdcConfig>,
    history: Ghost<Seq<BusOp<I2C::Error>>>,
}

impl<I2C: Transport> SW3526<I2C> {
    /// Every transaction that this session has issued, oldest first.
    pub closed spec fn history(&self) -> Seq<BusOp<I2C::Error>> {
        self.history@
    }

    /// The ADC channel last configured or read, if any.
    pub closed spec fn adc_channel(&self) -> Option<AdcConfig> {
        self.adc_config
    }

    /// `self` is `prev` with `n` more transactions recorded after it.
    pub open spec fn extends(self, prev: Self, n: nat) -> bool {
        &&& self.history().len() == prev.history().len() + n
        &&& self.history().subrange(0, prev.history().len() as int) == prev.history()
    }

    /// The `k`-th transaction issued since `prev`, counting from zero.
    pub open spec fn op_after(self, prev: Self, k: int) -> BusOp<I2C::Error> {
        self.history()[prev.history().len() + k]
    }

    /// Since `prev`: one read of `register`, and the channel left alone.
    pub open spec fn read_one(self, prev: Self, register: Register) -> bool {
        &&& self.extends(prev, 1)
        &&& self.adc_channel() == prev.adc_channel()
        &&& reads_register(self.op_after(prev, 0), register)
    }

    /// The byte that the one read since `prev` read, or its error.
    pub open spec fn one_byte(self, prev: Self) -> Result<u8, I2C::Error> {
        byte_read(self.op_after(prev, 0))
    }

    /// Since `prev`: a read of `first`, then, only if it succeeded, a read of
    /// `second`; the channel left alone.
    pub open spec fn read_two(self, prev: Self, first: Register, second: Register) -> bool {
        &&& self.adc_channel() == prev.adc_channel()
        &&& reads_register(self.op_after(prev, 0), first)
        &&& if byte_read(self.op_after(prev, 0)) is Ok {
            &&& self.extends(prev, 2)
            &&& reads_register(self.op_after(prev, 1), second)
        } else {
            self.extends(prev, 1)
        }
    }

    /// The two bytes that the reads since `prev` read, or the first error.
    pub open spec fn two_bytes(self, prev: Self) -> Result<(u8, u8), I2C::Error> {
        match byte_read(self.op_after(prev, 0)) {
            Ok(first) => match byte_read(self.op_after(prev, 1)) {
                Ok(second) => Ok((first, second)),
                Err(e) => Err(e),
            },
            Err(e) => Err(e),
        }
    }

    /// Since `prev`: one write of `bytes`, and the channel left alone.
    pub open spec fn wrote_one(self, prev: Self, bytes: Seq<u8>) -> bool {
        &&& self.extends(prev, 1)
        &&& self.adc_channel() == prev.adc_channel()
        &&& writes(self.op_after(prev, 0), bytes)
    }

    /// What became of the one write since `prev`.
    pub open spec fn write_outcome(self, prev: Self) -> Result<(), I2C::Error> {
        write_result(self.op_after(prev, 0))
    }

    /// A session over `i2c`, with no ADC channel known yet.
    pub fn new(i2c: I2C) -> (r: Self)
        ensures
            r.history() == Seq::<BusOp<I2C::Error>>::empty(),
            r.adc_channel() is None,
    {
        SW3526 { i2c, adc_config: None, history: Ghost(Seq::empty()) }
    }

    fn read_register(&mut self, register: Register) -> (r: Result<u8, I2C::Error>)
        ensures
            final(self).read_one(*old(self), register),
            r == final(self).one_byte(*old(self)),
    {
        let mut buffer = [0u8; 1];
        let request = [register.address()];
        assert(request@ =~= seq![register.spec_address()]);
        let result = self.i2c.write_read(ADDRESS, &request, &mut buffer);
        self.history = Ghost(
            self.history@.push(
                BusOp::WriteRead { address: ADDRESS, bytes: request@, reply: reply_of(result, buffer@) },
            ),
        );
        assert(self.history@.subrange(0, old(self).history@.len() as int) =~= old(self).history@);
        match result {
            Ok(_) => Ok(buffer[0]),
            Err(e) => Err(e),
        }
    }

    fn read_registers(&mut self, first: Register, second: Register) -> (r: Result<
        (u8, u8),
        I2C::Error,
    >)
        ensures
            final(self).read_two(*old(self), first, second),
            r == final(self).two_bytes(*old(self)),
    {
        let high = match self.read_register(first) {
            Ok(b) => b,
            Err(e) => return Err(e),
        };
        let ghost middle = *self;
        let low = match self.read_register(second) {
            Ok(b) => b,
            Err(e) => {
                assert(self.history().subrange(0, old(self).history().len() as int) =~= old(self).history()) by {
                    assert(self.history().subrange(0, middle.history().len() as int) == middle.history());
                }
                return Err(e);
            },
        };
        assert(self.history().subrange(0, old(self).history().len() as int) =~= old(self).history()) by {
            assert(self.history().subrange(0, middle.history().len() as int) == middle.history());
        }
        Ok((high, low))
    }

    fn write_bytes(&mut self, bytes: &[u8]) -> (r: Result<(), I2C::Error>)
        ensures
            final(self).wrote_one(*old(self), bytes@),
            r == final(self).write_outcome(*old(self)),
    {
        let result = self.i2c.write(ADDRESS, bytes);
        self.history = Ghost(
            self.history@.push(BusOp::Write { address: ADDRESS, bytes: bytes@, result: result }),
        );
        assert(self.history@.subrange(0, old(self).history@.len() as int) =~= old(self).history@);
        result
    }

    fn write_register(&mut self, register: Register, value: u8) -> (r: Result<(), I2C::Error>)
        ensures
            final(self).wrote_one(*old(self), seq![register.spec_address(), value]),
            r == final(self).write_outcome(*old(self)),
    {
        let bytes = [register.address(), value];
        assert(bytes@ =~= seq![register.spec_address(), value]);
        self.write_bytes(&bytes)
    }

    /// The chip's version: the low two bits of the version register.
    pub fn get_chip_version(&mut self) -> (r: Result<u8, I2C::Error>)
        ensures
            final(self).read_one(*old(self), Register::VersionInfo),
            r == map_ok(final(self).one_byte(*old(self)), |b: u8| spec_chip_version(b)),
    {
        match self.read_register(Register::VersionInfo) {
            Ok(b) => Ok(chip_version(b)),
            Err(e) => Err(e),
        }
    }

    /// The buck converter's output voltage in millivolts, from its 12-bit
    /// code across two registers: the high byte is read first, and the low
    /// register only if that read succeeded.
    pub fn get_buck_output_millivolts(&mut self) -> (r: Result<u16, I2C::Error>)
        ensures
            final(self).read_two(
                *old(self),
                Register::BuckOutputVoltageHigh8b,
                Register::BuckOutputVoltageLow4b,
            ),
            r == map_ok(
                final(self).two_bytes(*old(self)),
                |p: (u8, u8)| spec_buck_output_millivolts(p.0, p.1) as u16,
            ),
    {
        match self.read_registers(
            Register::BuckOutputVoltageHigh8b,
            Register::BuckOutputVoltageLow4b,
        ) {
            Ok((high, low)) => Ok(buck_output_millivolts(high, low)),
            Err(e) => Err(e),
        }
    }

    /// The buck converter's current limit, in milliamps.
    pub fn get_buck_output_limit_milliamps(&mut self) -> (r: Result<u16, I2C::Error>)
        ensures
            final(self).read_one(*old(self), Register::BuckOutputCurrentLimit),
            r == map_ok(final(self).one_byte(*old(self)), |b: u8| spec_buck_output_limit_milliamps(b) as u16),
    {
        match self.read_register(Register::BuckOutputCurrentLimit) {
            Ok(b) => Ok(buck_output_limit_milliamps(b)),
            Err(e) => Err(e),
        }
    }

    /// The protocol that the port negotiated, and its state.
    pub fn get_protocol(&mut self) -> (r: Result<ProtocolIndicationResponse, I2C::Error>)
        ensures
            final(self).read_one(*old(self), Register::ProtocolIndication),
            r == map_ok(final(self).one_byte(*old(self)), |b: u8| ProtocolIndicationResponse::decode(b)),
    {
        match self.read_register(Register::ProtocolIndication) {
            Ok(b) => Ok(ProtocolIndicationResponse::from(b)),
            Err(e) => Err(e),
        }
    }

    /// Whether the port and the buck converter are on.
    pub fn get_system_status(&mut self) -> (r: Result<SystemStatusResponse, I2C::Error>)
        ensures
            final(self).read_one(*old(self), Register::SystemStatus),
            r == map_ok(final(self).one_byte(*old(self)), |b: u8| SystemStatusResponse::decode(b)),
    {
        match self.read_register(Register::SystemStatus) {
            Ok(b) => Ok(SystemStatusResponse::from(b)),
            Err(e) => Err(e),
        }
    }

    /// The chip's fault flags.
    pub fn get_abnormal_case(&mut self) -> (r: Result<AbnormalCaseResponse, I2C::Error>)
        ensures
            final(self).read_one(*old(self), Register::AbnormalCase),
            r == map_ok(final(self).one_byte(*old(self)), |b: u8| AbnormalCaseResponse::decode(b)),
    {
        match self.read_register(Register::AbnormalCase) {
            Ok(b) => Ok(AbnormalCaseResponse::from(b)),
            Err(e) => Err(e),
        }
    }

    /// Unlocks the chip's configuration registers (0xA0 to 0xBF, 0x70, 0x71
    /// and 0x13) for writing, with one write of three fixed bytes. It must
    /// come before writes to those registers; nothing here checks that.
    pub fn set_i2c_writable(&mut self) -> (r: Result<(), I2C::Error>)
        ensures
            final(self).wrote_one(*old(self), seq![Register::I2cEnable.spec_address(), 0x20, 0x40, 0x80]),
            r == final(self).write_outcome(*old(self)),
    {
        let bytes = [Register::I2cEnable.address(), 0x20, 0x40, 0x80];
        assert(bytes@ =~= seq![Register::I2cEnable.spec_address(), 0x20, 0x40, 0x80]);
        self.write_bytes(&bytes)
    }

    /// The buck force-off configuration.
    pub fn get_buck_force_off(&mut self) -> (r: Result<BuckForceOffConfig, I2C::Error>)
        ensures
            final(self).read_one(*old(self), Register::BuckForceOff),
            r == map_ok(final(self).one_byte(*old(self)), |b: u8| BuckForceOffConfig::decode(b)),
    {
        match self.read_register(Register::BuckForceOff) {
            Ok(b) => Ok(BuckForceOffConfig::from(b)),
            Err(e) => Err(e),
        }
    }

    /// Writes the buck force-off configuration.
    pub fn set_buck_force_off(&mut self, config: BuckForceOffConfig) -> (r: Result<(), I2C::Error>)
        ensures
            final(self).wrote_one(*old(self), seq![Register::BuckForceOff.spec_address(), config.encode()]),
            r == final(self).write_outcome(*old(self)),
    {
        self.write_register(Register::BuckForceOff, u8::from(config))
    }

    /// The input voltage from its ADC register, in millivolts.
    pub fn get_adc_input_millivolts(&mut self) -> (r: Result<u16, I2C::Error>)
        ensures
            final(self).read_one(*old(self), Register::AdcVinData),
            r == map_ok(final(self).one_byte(*old(self)), |b: u8| spec_adc_input_millivolts(b) as u16),
    {
        match self.read_register(Register::AdcVinData) {
            Ok(b) => Ok(adc_input_millivolts(b)),
            Err(e) => Err(e),
        }
    }

    /// The output voltage from its ADC register, in millivolts.
    pub fn get_adc_output_millivolts(&mut self) -> (r: Result<u16, I2C::Error>)
        ensures
            final(self).read_one(*old(self), Register::AdcVoutData),
            r == map_ok(final(self).one_byte(*old(self)), |b: u8| spec_adc_output_millivolts(b) as u16),
    {
        match self.read_register(Register::AdcVoutData) {
            Ok(b) => Ok(adc_output_millivolts(b)),
            Err(e) => Err(e),
        }
    }

    /// The output current from its ADC register, in milliamps.
    pub fn get_adc_output_milliamps(&mut self) -> (r: Result<u16, I2C::Error>)
        ensures
            final(self).read_one(*old(self), Register::AdcIoutData),
            r == map_ok(final(self).one_byte(*old(self)), |b: u8| spec_adc_output_milliamps(b) as u16),
    {
        match self.read_register(Register::AdcIoutData) {
            Ok(b) => Ok(adc_output_milliamps(b)),
            Err(e) => Err(e),
        }
    }

    /// The channel that the ADC data registers measure. The session remembers
    /// it, so that `get_adc_data` can give raw codes their unit. A code that
    /// names no channel is refused and leaves the remembered channel as it
    /// was.
    pub fn get_adc_config(&mut self) -> (r: Result<AdcConfig, OperationError<I2C::Error>>)
        ensures
            final(self).extends(*old(self), 1),
            reads_register(final(self).op_after(*old(self), 0), Register::AdcConfig),
            r == checked(final(self).one_byte(*old(self)), |b: u8| decode_adc_config(b)),
            final(self).adc_channel() == (match r {
                Ok(channel) => Some(channel),
                Err(_) => old(self).adc_channel(),
            }),
    {
        let b = match self.read_register(Register::AdcConfig) {
            Ok(b) => b,
            Err(e) => return Err(OperationError::I2CError(e)),
        };
        match AdcConfig::try_from_bits(b & 0x03) {
            Some(channel) => {
                self.adc_config = Some(channel);
                Ok(channel)
            },
            None => Err(OperationError::ModelError(ModelError::InvalidValueU8(b))),
        }
    }

    /// Selects the channel that the ADC data registers measure. The session
    /// remembers the channel once the write has succeeded; after a failed
    /// write it keeps the one it had.
    pub fn set_adc_config(&mut self, config: AdcConfig) -> (r: Result<(), I2C::Error>)
        ensures
            final(self).extends(*old(self), 1),
            writes(final(self).op_after(*old(self), 0), seq![Register::AdcConfig.spec_address(), config.bits()]),
            r == final(self).write_outcome(*old(self)),
            final(self).adc_channel() == (if r is Ok {
                Some(config)
            } else {
                old(self).adc_channel()
            }),
    {
        let result = self.write_register(Register::AdcConfig, config.bits());
        if result.is_ok() {
            self.adc_config = Some(config);
        }
        result
    }

    /// The raw 12-bit ADC code, across the two ADC data registers: the high
    /// byte is read first, and the low register only if that read succeeded.
    pub fn get_adc_data_raw(&mut self) -> (r: Result<u16, I2C::Error>)
        ensures
            final(self).read_two(*old(self), Register::AdcDataHigh8b, Register::AdcDataLow4b),
            r == map_ok(
                final(self).two_bytes(*old(self)),
                |p: (u8, u8)| spec_composite_code(p.0, p.1) as u16,
            ),
    {
        match self.read_registers(Register::AdcDataHigh8b, Register::AdcDataLow4b) {
            Ok((high, low)) => Ok(composite_code(high, low)),
            Err(e) => Err(e),
        }
    }

    /// The ADC code as a calibrated value on the remembered channel, in tenths
    /// of a millivolt (input or output voltage) or of a milliamp (output
    /// current). With no channel known, `None`, and nothing goes on the bus.
    pub fn get_adc_data(&mut self) -> (r: Result<Option<u32>, I2C::Error>)
        ensures
            match old(self).adc_channel() {
                None => {
                    &&& final(self).extends(*old(self), 0)
                    &&& final(self).adc_channel() is None
                    &&& r == Ok::<Option<u32>, I2C::Error>(None)
                },
                Some(channel) => {
                    &&& final(self).read_two(
                        *old(self),
                        Register::AdcDataHigh8b,
                        Register::AdcDataLow4b,
                    )
                    &&& r == map_ok(
                        final(self).two_bytes(*old(self)),
                        |p: (u8, u8)|
                            Some(
                                spec_adc_calibrated_tenths(
                                    channel,
                                    spec_composite_code(p.0, p.1),
                                ) as u32,
                            ),
                    )
                },
            },
    {
        let channel = match self.adc_config {
            Some(channel) => channel,
            None => {
                assert(self.history().subrange(0, self.history().len() as int) =~= self.history());
                return Ok(None);
            },
        };
        match self.get_adc_data_raw() {
            Ok(code) => Ok(Some(adc_calibrated_tenths(channel, code))),
            Err(e) => Err(e),
        }
    }

    /// The power limit that the chip applies, set by Rset or by the power
    /// configuration register: 0 to 127 watts.
    pub fn get_limit_watts(&mut self) -> (r: Result<u8, I2C::Error>)
        ensures
            final(self).read_one(*old(self), Register::PowerStatus),
            r == map_ok(final(self).one_byte(*old(self)), |b: u8| spec_limit_watts(b)),
    {
        match self.read_register(Register::PowerStatus) {
            Ok(b) => Ok(limit_watts(b)),
            Err(e) => Err(e),
        }
    }

    /// Which CC lines have a sink attached.
    pub fn get_cc_status(&mut self) -> (r: Result<CcStatus, I2C::Error>)
        ensures
            final(self).read_one(*old(self), Register::CcStatus),
            r == map_ok(final(self).one_byte(*old(self)), |b: u8| CcStatus::decode(b)),
    {
        match self.read_register(Register::CcStatus) {
            Ok(b) => Ok(CcStatus::from(b)),
            Err(e) => Err(e),
        }
    }

    /// The power command request register. A command code that the chip does
    /// not define is refused with the byte that held it.
    pub fn get_power_command_request(&mut self) -> (r: Result<
        PowerCommandRequest,
        OperationError<I2C::Error>,
    >)
        ensures
            final(self).read_one(*old(self), Register::PowerCommandRequest),
            r == checked(final(self).one_byte(*old(self)), |b: u8| PowerCommandRequest::decode(b)),
    {
        let b = match self.read_register(Register::PowerCommandRequest) {
            Ok(b) => b,
            Err(e) => return Err(OperationError::I2CError(e)),
        };
        match PowerCommandRequest::try_from(b) {
            Ok(request) => Ok(request),
            Err(m) => Err(OperationError::ModelError(m)),
        }
    }

    /// Writes a power command request; with `send_enabled` set, the chip
    /// sends the command.
    pub fn set_power_command_request(&mut self, config: PowerCommandRequest) -> (r: Result<(), I2C::Error>)
        ensures
            final(self).wrote_one(*old(self), seq![Register::PowerCommandRequest.spec_address(), config.encode()]),
            r == final(self).write_outcome(*old(self)),
    {
        self.write_register(Register::PowerCommandRequest, u8::from(config))
    }

    /// Sends a PD hard reset: one write of the power command request with the
    /// send bit set and the hard-reset code, whatever the session did before.
    pub fn send_pd_hard_reset(&mut self) -> (r: Result<(), I2C::Error>)
        ensures
            final(self).wrote_one(*old(self), seq![0x70, 0x81]),
            r == final(self).write_outcome(*old(self)),
    {
        let request = PowerCommandRequest { send_enabled: true, command: PdCommand::HardReset };
        assert(((1u8 << 7u8) | 1u8) == 0x81u8) by (bit_vector);
        self.set_power_command_request(request)
    }

    /// Fast-charge configuration 6.
    pub fn get_fast_charge_config_6(&mut self) -> (r: Result<FastChargeConfig6, I2C::Error>)
        ensures
            final(self).read_one(*old(self), Register::FastChargeConfig6),
            r == map_ok(final(self).one_byte(*old(self)), |b: u8| FastChargeConfig6::decode(b)),
    {
        match self.read_register(Register::FastChargeConfig6) {
            Ok(b) => Ok(FastChargeConfig6::from(b)),
            Err(e) => Err(e),
        }
    }

    /// Writes fast-charge configuration 6.
    pub fn set_fast_charge_config_6(&mut self, config: FastChargeConfig6) -> (r: Result<(), I2C::Error>)
        ensures
            final(self).wrote_one(*old(self), seq![Register::FastChargeConfig6.spec_address(), config.encode()]),
            r == final(self).write_outcome(*old(self)),
    {
        self.write_register(Register::FastChargeConfig6, u8::from(config))
    }

    /// Fast-charge configuration 5.
    pub fn get_fast_charge_config_5(&mut self) -> (r: Result<FastChargeConfig5, I2C::Error>)
        ensures
            final(self).read_one(*old(self), Register::FastChargeConfig5),
            r == map_ok(final(self).one_byte(*old(self)), |b: u8| FastChargeConfig5::decode(b)),
    {
        match self.read_register(Register::FastChargeConfig5) {
            Ok(b) => Ok(FastChargeConfig5::from(b)),
            Err(e) => Err(e),
        }
    }

    /// Writes fast-charge configuration 5.
    pub fn set_fast_charge_config_5(&mut self, config: FastChargeConfig5) -> (r: Result<(), I2C::Error>)
        ensures
            final(self).wrote_one(*old(self), seq![Register::FastChargeConfig5.spec_address(), config.encode()]),
            r == final(self).write_outcome(*old(self)),
    {
        self.write_register(Register::FastChargeConfig5, u8::from(config))
    }

    /// The output power limit in watts, from its wrap-around encoding.
    pub fn get_output_limit_watts(&mut self) -> (r: Result<u8, I2C::Error>)
        ensures
            final(self).read_one(*old(self), Register::PowerConfig),
            r == map_ok(final(self).one_byte(*old(self)), |b: u8| spec_output_limit_watts(b)),
    {
        match self.read_register(Register::PowerConfig) {
            Ok(b) => Ok(output_limit_watts(b)),
            Err(e) => Err(e),
        }
    }

    /// Sets the output power limit, 12 to 71 watts, in its wrap-around
    /// encoding.
    pub fn set_output_limit_watts(&mut self, watts: u8) -> (r: Result<(), I2C::Error>)
        requires
            12 <= watts <= 71,
        ensures
            final(self).wrote_one(*old(self), seq![Register::PowerConfig.spec_address(), spec_output_limit_raw(watts)]),
            r == final(self).write_outcome(*old(self)),
    {
        self.write_register(Register::PowerConfig, output_limit_raw(watts))
    }

    /// Fast-charge configuration 0: which protocols are enabled.
    pub fn get_fast_charge_config_0(&mut self) -> (r: Result<FastChargeConfig0, I2C::Error>)
        ensures
            final(self).read_one(*old(self), Register::FastChargeConfig0),
            r == map_ok(final(self).one_byte(*old(self)), |b: u8| FastChargeConfig0::decode(b)),
    {
        match self.read_register(Register::FastChargeConfig0) {
            Ok(b) => Ok(FastChargeConfig0::from(b)),
            Err(e) => Err(e),
        }
    }

    /// Writes fast-charge configuration 0.
    pub fn set_fast_charge_config_0(&mut self, config: FastChargeConfig0) -> (r: Result<(), I2C::Error>)
        ensures
            final(self).wrote_one(*old(self), seq![Register::FastChargeConfig0.spec_address(), config.encode()]),
            r == final(self).write_outcome(*old(self)),
    {
        self.write_register(Register::FastChargeConfig0, u8::from(config))
    }

    /// Fast-charge configuration 1: which PD offers are enabled.
    pub fn get_fast_charge_config_1(&mut self) -> (r: Result<FastChargeConfig1, I2C::Error>)
        ensures
            final(self).read_one(*old(self), Register::FastChargeConfig1),
            r == map_ok(final(self).one_byte(*old(self)), |b: u8| FastChargeConfig1::decode(b)),
    {
        match self.read_register(Register::FastChargeConfig1) {
            Ok(b) => Ok(FastChargeConfig1::from(b)),
            Err(e) => Err(e),
        }
    }

    /// Writes fast-charge configuration 1.
    pub fn set_fast_charge_config_1(&mut self, config: FastChargeConfig1) -> (r: Result<(), I2C::Error>)
        ensures
            final(self).wrote_one(*old(self), seq![Register::FastChargeConfig1.spec_address(), config.encode()]),
            r == final(self).write_outcome(*old(self)),
    {
        self.write_register(Register::FastChargeConfig1, u8::from(config))
    }

    /// Fast-charge configuration 2.
    pub fn get_fast_charge_config_2(&mut self) -> (r: Result<FastChargeConfig2, I2C::Error>)
        ensures
            final(self).read_one(*old(self), Register::FastChargeConfig2),
            r == map_ok(final(self).one_byte(*old(self)), |b: u8| FastChargeConfig2::decode(b)),
    {
        match self.read_register(Register::FastChargeConfig2) {
            Ok(b) => Ok(FastChargeConfig2::from(b)),
            Err(e) => Err(e),
        }
    }

    /// Writes fast-charge configuration 2.
    pub fn set_fast_charge_config_2(&mut self, config: FastChargeConfig2) -> (r: Result<(), I2C::Error>)
        ensures
            final(self).wrote_one(*old(self), seq![Register::FastChargeConfig2.spec_address(), config.encode()]),
            r == final(self).write_outcome(*old(self)),
    {
        self.write_register(Register::FastChargeConfig2, u8::from(config))
    }

    /// Fast-charge configuration 3.
    pub fn get_fast_charge_config_3(&mut self) -> (r: Result<FastChargeConfig3, I2C::Error>)
        ensures
            final(self).read_one(*old(self), Register::FastChargeConfig3),
            r == map_ok(final(self).one_byte(*old(self)), |b: u8| FastChargeConfig3::decode(b)),
    {
        match self.read_register(Register::FastChargeConfig3) {
            Ok(b) => Ok(FastChargeConfig3::from(b)),
            Err(e) => Err(e),
        }
    }

    /// Writes fast-charge configuration 3.
    pub fn set_fast_charge_config_3(&mut self, config: FastChargeConfig3) -> (r: Result<(), I2C::Error>)
        ensures
            final(self).wrote_one(*old(self), seq![Register::FastChargeConfig3.spec_address(), config.encode()]),
            r == final(self).write_outcome(*old(self)),
    {
        self.write_register(Register::FastChargeConfig3, u8::from(config))
    }

    /// Fast-charge configuration 4.
    pub fn get_fast_charge_config_4(&mut self) -> (r: Result<FastChargeConfig4, I2C::Error>)
        ensures
            final(self).read_one(*old(self), Register::FastChargeConfig4),
            r == map_ok(final(self).one_byte(*old(self)), |b: u8| FastChargeConfig4::decode(b)),
    {
        match self.read_register(Register::FastChargeConfig4) {
            Ok(b) => Ok(FastChargeConfig4::from(b)),
            Err(e) => Err(e),
        }
    }

    /// Writes fast-charge configuration 4.
    pub fn set_fast_charge_config_4(&mut self, config: FastChargeConfig4) -> (r: Result<(), I2C::Error>)
        ensures
            final(self).wrote_one(*old(self), seq![Register::FastChargeConfig4.spec_address(), config.encode()]),
            r == final(self).write_outcome(*old(self)),
    {
        self.write_register(Register::FastChargeConfig4, u8::from(config))
    }

    /// The USB vendor id, from its low register then its high register; the
    /// high register is read only if the first read succeeded.
    pub fn get_vid(&mut self) -> (r: Result<u16, I2C::Error>)
        ensures
            final(self).read_two(*old(self), Register::VidConfig0, Register::VidConfig1),
            r == map_ok(final(self).two_bytes(*old(self)), |p: (u8, u8)| spec_vid(p.0, p.1) as u16),
    {
        match self.read_registers(Register::VidConfig0, Register::VidConfig1) {
            Ok((low, high)) => Ok(vid(low, high)),
            Err(e) => Err(e),
        }
    }

    /// Sets the USB vendor id: its low byte to the low register, then, if
    /// that write succeeded, its high byte to the high register. A failure of
    /// the second write leaves the first in effect.
    pub fn set_vid(&mut self, vid: u16) -> (r: Result<(), I2C::Error>)
        ensures
            final(self).adc_channel() == old(self).adc_channel(),
            writes(final(self).op_after(*old(self), 0), seq![Register::VidConfig0.spec_address(), (vid % 256) as u8]),
            if write_result(final(self).op_after(*old(self), 0)) is Ok {
                &&& final(self).extends(*old(self), 2)
                &&& writes(final(self).op_after(*old(self), 1), seq![Register::VidConfig1.spec_address(), (vid / 256) as u8])
                &&& r == write_result(final(self).op_after(*old(self), 1))
            } else {
                &&& final(self).extends(*old(self), 1)
                &&& r == write_result(final(self).op_after(*old(self), 0))
            },
    {
        let ghost start = *self;
        let result = self.write_register(Register::VidConfig0, (vid % 256) as u8);
        if result.is_err() {
            return result;
        }
        let ghost middle = *self;
        let result = self.write_register(Register::VidConfig1, (vid / 256) as u8);
        assert(self.history().subrange(0, start.history().len() as int) =~= start.history()) by {
            assert(self.history().subrange(0, middle.history().len() as int) == middle.history());
        }
        result
    }
}

} // verus!
