use vstd::prelude::*;

pub mod register;

use embassy_rp::i2c::Error as BusError;
use register::Register;

verus! {

/// Error type of the bus transport, embassy_rp::i2c::Error. It is
/// opaque to this driver, which never constructs or inspects a value
/// of it: a transport fault is handed back to the caller unchanged.
#[verifier::external_type_specification]
#[verifier::external_body]
pub struct ExBusError(BusError);

/// Fixed 7-bit bus address of the sensor; the device offers no
/// alternate address in this design.
pub const DEFAULT_ADDRESS: u8 = 0x76;

/// A plain bus write: the register address byte followed by one data
/// byte, sent to `device` in a single transaction.
pub struct BusWrite {
    /// 7-bit bus address of the target device.
    pub device: u8,
    /// Register address byte, sent first.
    pub reg: u8,
    /// Data byte written into the register.
    pub value: u8,
}

/// A combined write-then-read: write the register address byte to
/// `device`, then read `read_len` bytes back without releasing the bus
/// in between.
pub struct BusWriteRead {
    /// 7-bit bus address of the target device.
    pub device: u8,
    /// Register address byte, sent first.
    pub reg: u8,
    /// Number of bytes to read back.
    pub read_len: usize,
}

/// The unsigned 16-bit value stored little-endian in bytes `lo`, `hi`.
pub open spec fn spec_le_u16(lo: u8, hi: u8) -> int {
    256 * hi + lo
}

/// The signed 16-bit two's-complement value stored little-endian in
/// bytes `lo`, `hi`.
pub open spec fn spec_le_i16(lo: u8, hi: u8) -> int {
    if hi < 128 {
        256 * hi + lo
    } else {
        256 * hi + lo - 65536
    }
}

/// The calibration triple (T1, T2, T3) held in the first six bytes of
/// the factory calibration block, low byte of each pair first. The
/// remaining bytes of the block belong to pressure compensation and do
/// not enter the result.
pub open spec fn spec_calibration(data: Seq<u8>) -> (int, int, int)
    recommends
        data.len() >= 6,
{
    (spec_le_u16(data[0], data[1]), spec_le_i16(data[2], data[3]), spec_le_i16(data[4], data[5]))
}

/// Register address of the measurement-control register.
pub const CTRL_MEAS_REGISTER: u8 = 0xF4;

/// Register address of the standby/filter configuration register.
pub const CONFIG_REGISTER: u8 = 0xF5;

/// Temperature oversampling x1, pressure oversampling x1, normal mode.
pub const CTRL_MEAS_VALUE: u8 = 0b00100111;

/// Standby 1000 ms between samples, digital filter off.
pub const CONFIG_VALUE: u8 = 0b10100000;

/// Progress of the two-write configuration sequence.
#[derive(Clone, Copy, Debug, PartialEq, Eq, Structural)]
pub enum ConfigureState {
    /// No write issued yet.
    Start,
    /// The CTRL_MEAS write has been issued and succeeded.
    CtrlMeasWritten,
    /// Both writes have succeeded; the sensor is configured.
    Done,
    /// A write failed; the sequence stops here.
    Failed,
}

/// The 20-bit raw ADC sample packed most-significant byte first in the
/// three bytes of a temperature response; the low four bits of the last
/// byte are a reserved nibble and are discarded.
pub open spec fn spec_raw_adc(b0: u8, b1: u8, b2: u8) -> int {
    4096 * b0 + 16 * b1 + b2 / 16
}

/// First term of the manufacturer's fixed-point compensation formula.
/// Division by a power of two stands for the formula's arithmetic
/// right shift: Euclidean division rounds toward minus infinity for
/// these positive divisors, exactly as a sign-preserving shift does.
pub open spec fn spec_var1(adc: int, t1: int, t2: int) -> int {
    ((adc / 8 - 2 * t1) * t2) / 2048
}

/// Second term of the compensation formula, quadratic in the distance
/// of the sample from the T1 calibration point.
pub open spec fn spec_var2(adc: int, t1: int, t3: int) -> int {
    ((((adc / 16 - t1) * (adc / 16 - t1)) / 4096) * t3) / 16384
}

/// Fine-resolution intermediate temperature of the compensation
/// formula.
pub open spec fn spec_t_fine(adc: int, t1: int, t2: int, t3: int) -> int {
    spec_var1(adc, t1, t2) + spec_var2(adc, t1, t3)
}

/// Compensated temperature in hundredths of a degree Celsius.
pub open spec fn spec_temperature_centi(adc: int, t1: int, t2: int, t3: int) -> int {
    (spec_t_fine(adc, t1, t2, t3) * 5 + 128) / 256
}

/// What a temperature read returns, given the three response bytes the
/// bus delivered and the calibration triple the caller passed in: a
/// pure function of those arguments alone — the driver value
/// contributes nothing, so no state carries over between reads.
pub open spec fn spec_read_temperature(
    d: BMP280,
    b0: u8,
    b1: u8,
    b2: u8,
    dig_t1: u16,
    dig_t2: i16,
    dig_t3: i16,
) -> int {
    spec_temperature_centi(spec_raw_adc(b0, b1, b2), dig_t1 as int, dig_t2 as int, dig_t3 as int)
}

/// Reassemble the 20-bit raw ADC value from a temperature response:
/// byte 0 contributes at bit 12, byte 1 at bit 4, and only the high
/// nibble of byte 2 contributes.
pub fn raw_adc(data: &[u8; 3]) -> (adc: u32)
    ensures
        adc == spec_raw_adc(data[0], data[1], data[2]),
        adc < 0x100000,
{
    let b0 = data[0];
    let b1 = data[1];
    let b2 = data[2];
    let adc: u32 = ((b0 as u32) << 12u32) | ((b1 as u32) << 4u32) | ((b2 as u32) >> 4u32);
    proof {
        assert(((b0 as u32) << 12u32) | ((b1 as u32) << 4u32) | ((b2 as u32) >> 4u32) == 4096
            * b0 + 16 * b1 + b2 / 16) by (bit_vector);
        assert(((b0 as u32) << 12u32) | ((b1 as u32) << 4u32) | ((b2 as u32) >> 4u32)
            < 0x100000) by (bit_vector);
    }
    adc
}

/// The manufacturer's fixed-point compensation formula: a raw 20-bit
/// ADC sample and the calibration triple give the temperature in
/// hundredths of a degree Celsius. Every right shift in the body is
/// the arithmetic (sign-preserving) shift of a signed value; the
/// contract states each one as floor division by a power of two. The
/// two products are taken at 64 bits: for extreme calibration values a
/// 20-bit sample can push them past 32 bits, and the formula's value
/// must survive unclipped for every triple the device could report.
pub fn compensate_temperature(adc: u32, dig_t1: u16, dig_t2: i16, dig_t3: i16) -> (t: i32)
    requires
        adc < 0x100000,
    ensures
        t == spec_temperature_centi(adc as int, dig_t1 as int, dig_t2 as int, dig_t3 as int),
{
    let adc_t: i64 = adc as i64;
    let t1: i64 = dig_t1 as i64;
    let t2: i64 = dig_t2 as i64;
    let t3: i64 = dig_t3 as i64;

    let a3: i64 = adc_t >> 3u32;
    proof {
        assert(adc_t >> 3u32 == adc_t / 8) by (bit_vector);
    }
    let t1x2: i64 = t1 << 1u32;
    proof {
        assert(t1 << 1u32 == 2 * t1) by (bit_vector)
            requires
                0 <= t1 <= 65535i64,
        ;
    }
    let x1: i64 = a3 - t1x2;
    proof {
        assert(-131071 * 32768 <= x1 * t2 <= 131071 * 32768) by (nonlinear_arith)
            requires
                -131070 <= x1 <= 131071,
                -32768 <= t2 <= 32767,
        ;
    }
    let p1: i64 = x1 * t2;
    let var1: i64 = p1 >> 11u32;
    proof {
        assert(p1 >> 11u32 == p1 / 2048) by (bit_vector);
    }

    let a4: i64 = adc_t >> 4u32;
    proof {
        assert(adc_t >> 4u32 == adc_t / 16) by (bit_vector);
    }
    let dd: i64 = a4 - t1;
    proof {
        assert(0 <= dd * dd <= 65535 * 65535) by (nonlinear_arith)
            requires
                -65535 <= dd <= 65535,
        ;
    }
    let sq: i64 = dd * dd;
    let sq12: i64 = sq >> 12u32;
    proof {
        assert(sq >> 12u32 == sq / 4096) by (bit_vector);
        assert(0 <= sq >> 12u32 <= 1048544) by (bit_vector)
            requires
                0 <= sq <= 4294836225i64,
        ;
    }
    proof {
        assert(-1048544 * 32768 <= sq12 * t3 <= 1048544 * 32768) by (nonlinear_arith)
            requires
                0 <= sq12 <= 1048544,
                -32768 <= t3 <= 32767,
        ;
    }
    let p2: i64 = sq12 * t3;
    let var2: i64 = p2 >> 14u32;
    proof {
        assert(p2 >> 14u32 == p2 / 16384) by (bit_vector);
    }

    let t_fine: i64 = var1 + var2;
    let scaled: i64 = t_fine * 5 + 128;
    let centi: i64 = scaled >> 8u32;
    proof {
        assert(scaled >> 8u32 == scaled / 256) by (bit_vector);
    }
    centi as i32
}

/// Protocol core of the driver: it describes every bus transaction the
/// sensor needs and decodes every response, but holds no transport of
/// its own. An embedded harness owns the bus and issues the
/// transactions this type describes.
pub struct BMP280 {
    address: u8,
}

impl BMP280 {
    /// The device bus address every transaction of this driver targets.
    pub closed spec fn spec_address(self) -> u8 {
        self.address
    }

    pub fn new() -> (d: Self)
        ensures
            d.spec_address() == DEFAULT_ADDRESS,
    {
        BMP280 { address: DEFAULT_ADDRESS }
    }

    /// The transaction that fetches the identity byte: write the ID
    /// register address, read one byte back.
    pub fn read_id_request(&self) -> (t: BusWriteRead)
        ensures
            t.device == self.spec_address(),
            t.reg == Register::ID.spec_addr(),
            t.read_len == 1,
    {
        BusWriteRead { device: self.address, reg: Register::ID.addr(), read_len: 1 }
    }

    /// The identity byte carried in the response to `read_id_request`.
    pub fn read_id_decode(&self, response: &[u8; 1]) -> (id: u8)
        ensures
            id == response[0],
    {
        response[0]
    }

    /// The result of the identity operation, given the transport's
    /// outcome for the transaction of `read_id_request` and the buffer
    /// it filled: a bus fault is the driver's result, unchanged, and
    /// only a successful transaction yields an identity byte.
    pub fn read_id_outcome(
        &self,
        outcome: Result<(), BusError>,
        response: &[u8; 1],
    ) -> (r: Result<u8, BusError>)
        ensures
            outcome matches Err(e) ==> r == Err::<u8, BusError>(e),
            outcome matches Ok(_) ==> r == Ok::<u8, BusError>(response[0]),
    {
        match outcome {
            Ok(()) => Ok(self.read_id_decode(response)),
            Err(e) => Err(e),
        }
    }

    /// The first write of the configuration sequence: normal sampling
    /// mode with single oversampling into the CTRL_MEAS register.
    pub open spec fn spec_ctrl_meas_write(self) -> BusWrite {
        BusWrite { device: self.spec_address(), reg: CTRL_MEAS_REGISTER, value: CTRL_MEAS_VALUE }
    }

    /// The second write of the configuration sequence: standby interval
    /// and filter setting into the CONFIG register.
    pub open spec fn spec_config_write(self) -> BusWrite {
        BusWrite { device: self.spec_address(), reg: CONFIG_REGISTER, value: CONFIG_VALUE }
    }

    /// The write the configuration sequence issues in `state`, if any:
    /// CTRL_MEAS first, CONFIG only once the CTRL_MEAS write has
    /// succeeded, nothing once the sequence is done or failed.
    pub open spec fn spec_configure_next_write(self, state: ConfigureState) -> Option<BusWrite> {
        match state {
            ConfigureState::Start => Some(self.spec_ctrl_meas_write()),
            ConfigureState::CtrlMeasWritten => Some(self.spec_config_write()),
            ConfigureState::Done => None,
            ConfigureState::Failed => None,
        }
    }

    /// The state after the pending write of `state` completed with
    /// `write_ok`: progress on success, Failed on failure, no movement
    /// out of Done or Failed.
    pub open spec fn spec_configure_advance(state: ConfigureState, write_ok: bool) -> ConfigureState {
        match state {
            ConfigureState::Start => if write_ok {
                ConfigureState::CtrlMeasWritten
            } else {
                ConfigureState::Failed
            },
            ConfigureState::CtrlMeasWritten => if write_ok {
                ConfigureState::Done
            } else {
                ConfigureState::Failed
            },
            ConfigureState::Done => ConfigureState::Done,
            ConfigureState::Failed => ConfigureState::Failed,
        }
    }

    /// The next write the configuration sequence issues in `state`, or
    /// None when the sequence has finished. The harness sends each
    /// write it is handed and feeds the outcome to `configure_advance`.
    pub fn configure_next_write(&self, state: &ConfigureState) -> (w: Option<BusWrite>)
        ensures
            w == self.spec_configure_next_write(*state),
    {
        match state {
            ConfigureState::Start => Some(
                BusWrite { device: self.address, reg: CTRL_MEAS_REGISTER, value: CTRL_MEAS_VALUE },
            ),
            ConfigureState::CtrlMeasWritten => Some(
                BusWrite { device: self.address, reg: CONFIG_REGISTER, value: CONFIG_VALUE },
            ),
            ConfigureState::Done => None,
            ConfigureState::Failed => None,
        }
    }

    /// Advance the configuration sequence with the outcome of the write
    /// issued in `state`.
    pub fn configure_advance(&self, state: &ConfigureState, write_ok: bool) -> (s: ConfigureState)
        ensures
            s == BMP280::spec_configure_advance(*state, write_ok),
    {
        match state {
            ConfigureState::Start => if write_ok {
                ConfigureState::CtrlMeasWritten
            } else {
                ConfigureState::Failed
            },
            ConfigureState::CtrlMeasWritten => if write_ok {
                ConfigureState::Done
            } else {
                ConfigureState::Failed
            },
            ConfigureState::Done => ConfigureState::Done,
            ConfigureState::Failed => ConfigureState::Failed,
        }
    }

    /// The transaction that fetches the factory calibration block:
    /// write the CALIB register address, read the 24-byte block back.
    pub fn read_calibration_request(&self) -> (t: BusWriteRead)
        ensures
            t.device == self.spec_address(),
            t.reg == Register::CALIB.spec_addr(),
            t.read_len == 24,
    {
        BusWriteRead { device: self.address, reg: Register::CALIB.addr(), read_len: 24 }
    }

    /// The calibration triple (T1 unsigned, T2 and T3 signed) decoded
    /// from the calibration block delivered by the bus: three
    /// little-endian 16-bit values in the first six bytes.
    pub fn read_calibration_decode(&self, data: &[u8; 24]) -> (c: (u16, i16, i16))
        ensures
            c.0 == spec_calibration(data@).0,
            c.1 == spec_calibration(data@).1,
            c.2 == spec_calibration(data@).2,
    {
        let lo1 = data[0];
        let hi1 = data[1];
        let lo2 = data[2];
        let hi2 = data[3];
        let lo3 = data[4];
        let hi3 = data[5];

        let dig_t1: u16 = ((hi1 as u16) << 8) | (lo1 as u16);
        let raw_t2: u16 = ((hi2 as u16) << 8) | (lo2 as u16);
        let raw_t3: u16 = ((hi3 as u16) << 8) | (lo3 as u16);
        let dig_t2: i16 = raw_t2 as i16;
        let dig_t3: i16 = raw_t3 as i16;

        proof {
            assert(((hi1 as u16) << 8) | (lo1 as u16) == 256 * hi1 + lo1) by (bit_vector);
            assert(((hi2 as u16) << 8) | (lo2 as u16) == 256 * hi2 + lo2) by (bit_vector);
            assert(((hi3 as u16) << 8) | (lo3 as u16) == 256 * hi3 + lo3) by (bit_vector);
            assert(raw_t2 as i16 as int == if raw_t2 < 32768 {
                raw_t2 as int
            } else {
                raw_t2 - 65536
            }) by (bit_vector);
            assert(raw_t3 as i16 as int == if raw_t3 < 32768 {
                raw_t3 as int
            } else {
                raw_t3 - 65536
            }) by (bit_vector);
        }

        (dig_t1, dig_t2, dig_t3)
    }

    /// The result of the calibration operation, given the transport's
    /// outcome for the transaction of `read_calibration_request` and
    /// the block it filled: a bus fault is the driver's result,
    /// unchanged, and no partial triple is ever produced.
    pub fn read_calibration_outcome(
        &self,
        outcome: Result<(), BusError>,
        data: &[u8; 24],
    ) -> (r: Result<(u16, i16, i16), BusError>)
        ensures
            outcome matches Err(e) ==> r == Err::<(u16, i16, i16), BusError>(e),
            outcome matches Ok(_) ==> (r matches Ok(c) && c.0 == spec_calibration(data@).0 && c.1
                == spec_calibration(data@).1 && c.2 == spec_calibration(data@).2),
    {
        match outcome {
            Ok(()) => Ok(self.read_calibration_decode(data)),
            Err(e) => Err(e),
        }
    }

    /// The transaction that fetches a temperature sample: write the
    /// TEMPERATURE register address, read three bytes back.
    pub fn read_temperature_request(&self) -> (t: BusWriteRead)
        ensures
            t.device == self.spec_address(),
            t.reg == Register::TEMPERATURE.spec_addr(),
            t.read_len == 3,
    {
        BusWriteRead { device: self.address, reg: Register::TEMPERATURE.addr(), read_len: 3 }
    }

    /// Decode a temperature response against the calibration triple the
    /// caller holds: reassemble the raw ADC sample and apply the
    /// compensation formula. The result is in hundredths of a degree
    /// Celsius; a presentation layer divides by one hundred for
    /// degrees.
    pub fn read_temperature_decode(
        &self,
        data: &[u8; 3],
        dig_t1: u16,
        dig_t2: i16,
        dig_t3: i16,
    ) -> (t: i32)
        ensures
            t == spec_read_temperature(*self, data[0], data[1], data[2], dig_t1, dig_t2, dig_t3),
    {
        let adc = raw_adc(data);
        compensate_temperature(adc, dig_t1, dig_t2, dig_t3)
    }

    /// The result of the temperature operation, given the transport's
    /// outcome for the transaction of `read_temperature_request` and
    /// the bytes it delivered: a bus fault is the driver's result,
    /// unchanged, and no garbage temperature is ever produced.
    pub fn read_temperature_outcome(
        &self,
        outcome: Result<(), BusError>,
        data: &[u8; 3],
        dig_t1: u16,
        dig_t2: i16,
        dig_t3: i16,
    ) -> (r: Result<i32, BusError>)
        ensures
            outcome matches Err(e) ==> r == Err::<i32, BusError>(e),
            outcome matches Ok(_) ==> r == Ok::<i32, BusError>(
                spec_read_temperature(*self, data[0], data[1], data[2], dig_t1, dig_t2, dig_t3)
                    as i32,
            ),
    {
        match outcome {
            Ok(()) => Ok(self.read_temperature_decode(data, dig_t1, dig_t2, dig_t3)),
            Err(e) => Err(e),
        }
    }
}

/// Order of the configuration writes: the first write the sequence
/// issues is the CTRL_MEAS write; the CONFIG write is issued only from
/// the state that a successful CTRL_MEAS write produces; a failed
/// write moves the sequence to Failed, from which no further write is
/// issued.
pub proof fn lemma_configure_order(d: BMP280, state: ConfigureState, write_ok: bool)
    ensures
        d.spec_configure_next_write(ConfigureState::Start) == Some(d.spec_ctrl_meas_write()),
        d.spec_configure_next_write(state) == Some(d.spec_config_write()) ==> state
            == ConfigureState::CtrlMeasWritten,
        BMP280::spec_configure_advance(state, write_ok) == ConfigureState::CtrlMeasWritten ==> (
        state == ConfigureState::Start && write_ok),
        state == ConfigureState::Start || state == ConfigureState::CtrlMeasWritten
            ==> BMP280::spec_configure_advance(state, false) == ConfigureState::Failed,
        d.spec_configure_next_write(ConfigureState::Failed) == None::<BusWrite>,
{
}

/// Calibration decoding reads only the six-byte temperature sub-block:
/// two calibration blocks that agree on their first six bytes decode
/// to the same triple, whatever their trailing bytes hold.
pub proof fn lemma_calibration_ignores_trailing(a: Seq<u8>, b: Seq<u8>)
    requires
        a.len() >= 6,
        b.len() >= 6,
        forall|i: int| 0 <= i < 6 ==> a[i] == b[i],
    ensures
        spec_calibration(a) == spec_calibration(b),
{
}

/// Temperature reads are independent: the value a read decodes to is
/// the same function of the response bytes and the calibration triple
/// for every driver value, so no hidden state carries from one read
/// into the next.
pub proof fn lemma_temperature_reads_independent(
    d1: BMP280,
    d2: BMP280,
    b0: u8,
    b1: u8,
    b2: u8,
    dig_t1: u16,
    dig_t2: i16,
    dig_t3: i16,
)
    ensures
        spec_read_temperature(d1, b0, b1, b2, dig_t1, dig_t2, dig_t3) == spec_read_temperature(
            d2,
            b0,
            b1,
            b2,
            dig_t1,
            dig_t2,
            dig_t3,
        ),
{
}

} // verus!
