//! BMP280 pressure and temperature sensor: calibration and measurement byte
//! layouts, and the control registers.

use vstd::prelude::*;
use vstd::arithmetic::power2::{lemma2_to64, pow2};
use crate::bits::{lemma_u8_bit_weights, bit_is_set, field_value, get_bit, get_field, in_field, low_mask, with_field};
use crate::bytes::{i16_from_le, le_u16, u16_from_le};

verus! {

/// Address of the first byte of the trimming parameters.
pub const TRIMMING_PARAMETERS_START: u8 = 0x88;

/// Number of bytes of trimming parameters.
pub const TRIMMING_PARAMETERS_LEN: usize = 24;

/// CTRL_MEAS register.
pub const CTRL_MEAS_ADDRESS: u8 = 0xf4;

/// CONFIG register.
pub const CONFIG_ADDRESS: u8 = 0xf5;

/// Address of the first byte of the pressure and temperature readings.
pub const PRESSURE_AND_TEMPERATURE_START: u8 = 0xf7;

/// Number of bytes of pressure and temperature readings.
pub const PRESSURE_AND_TEMPERATURE_LEN: usize = 6;

/// The signed value of two little-endian bytes.
pub open spec fn le_i16(lo: u8, hi: u8) -> int {
    if hi < 128 {
        le_u16(lo, hi)
    } else {
        le_u16(lo, hi) - 65536
    }
}

/// The factory calibration of one sensor.
#[derive(Debug, Clone, Copy, PartialEq, Eq, Structural)]
pub struct TrimmingParameters {
    pub dig_t1: u16,
    pub dig_t2: i16,
    pub dig_t3: i16,
    pub dig_p1: u16,
    pub dig_p2: i16,
    pub dig_p3: i16,
    pub dig_p4: u16,
    pub dig_p5: i16,
    pub dig_p6: i16,
    pub dig_p7: u16,
    pub dig_p8: i16,
    pub dig_p9: i16,
}

/// The calibration that the 24 bytes from 0x88 on hold: twelve little-endian
/// words, T1 to T3 then P1 to P9, with T1, P1, P4 and P7 unsigned.
pub open spec fn trimming_parameters_from(b: Seq<u8>) -> TrimmingParameters {
    TrimmingParameters {
        dig_t1: le_u16(b[0], b[1]) as u16,
        dig_t2: le_i16(b[2], b[3]) as i16,
        dig_t3: le_i16(b[4], b[5]) as i16,
        dig_p1: le_u16(b[6], b[7]) as u16,
        dig_p2: le_i16(b[8], b[9]) as i16,
        dig_p3: le_i16(b[10], b[11]) as i16,
        dig_p4: le_u16(b[12], b[13]) as u16,
        dig_p5: le_i16(b[14], b[15]) as i16,
        dig_p6: le_i16(b[16], b[17]) as i16,
        dig_p7: le_u16(b[18], b[19]) as u16,
        dig_p8: le_i16(b[20], b[21]) as i16,
        dig_p9: le_i16(b[22], b[23]) as i16,
    }
}

/// Calibration word `i` (T1 to T3, then P1 to P9) is the little-endian word
/// at bytes `2i` and `2i + 1` from 0x88 on; the signed words take the top bit
/// of their upper byte as the sign.
pub proof fn lemma_trimming_parameters_layout(b: Seq<u8>)
    requires
        b.len() == 24,
    ensures
        trimming_parameters_from(b).dig_t1 == b[0] + 256 * b[1],
        trimming_parameters_from(b).dig_t2 == b[2] + 256 * b[3] - 65536 * (b[3] / 128),
        trimming_parameters_from(b).dig_t3 == b[4] + 256 * b[5] - 65536 * (b[5] / 128),
        trimming_parameters_from(b).dig_p1 == b[6] + 256 * b[7],
        trimming_parameters_from(b).dig_p2 == b[8] + 256 * b[9] - 65536 * (b[9] / 128),
        trimming_parameters_from(b).dig_p3 == b[10] + 256 * b[11] - 65536 * (b[11] / 128),
        trimming_parameters_from(b).dig_p4 == b[12] + 256 * b[13],
        trimming_parameters_from(b).dig_p5 == b[14] + 256 * b[15] - 65536 * (b[15] / 128),
        trimming_parameters_from(b).dig_p6 == b[16] + 256 * b[17] - 65536 * (b[17] / 128),
        trimming_parameters_from(b).dig_p7 == b[18] + 256 * b[19],
        trimming_parameters_from(b).dig_p8 == b[20] + 256 * b[21] - 65536 * (b[21] / 128),
        trimming_parameters_from(b).dig_p9 == b[22] + 256 * b[23] - 65536 * (b[23] / 128),
{
}

/// Splits a word into its little-endian bytes.
fn word_bytes(v: u16) -> (r: (u8, u8))
    ensures
        le_u16(r.0, r.1) == v,
{
    let lo = (v & 0xff) as u8;
    let hi = (v >> 8) as u8;
    assert(lo + 256 * hi == v) by (bit_vector)
        requires
            lo == (v & 0xff) as u8,
            hi == (v >> 8) as u8,
    ;
    (lo, hi)
}

/// Splits a signed word into its little-endian (two's complement) bytes.
fn signed_word_bytes(v: i16) -> (r: (u8, u8))
    ensures
        le_i16(r.0, r.1) == v,
{
    let u: u16 = if v < 0 {
        (v as i32 + 65536) as u16
    } else {
        v as u16
    };
    let (lo, hi) = word_bytes(u);
    assert(v < 0 ==> hi >= 128);
    assert(v >= 0 ==> hi < 128);
    (lo, hi)
}

impl TrimmingParameters {
    /// The calibration that the 24 bytes from 0x88 on hold.
    pub fn from_bytes(b: &[u8; 24]) -> (t: Self)
        ensures
            t == trimming_parameters_from(b@),
    {
        Self {
            dig_t1: u16_from_le(b[0], b[1]),
            dig_t2: i16_from_le(b[2], b[3]),
            dig_t3: i16_from_le(b[4], b[5]),
            dig_p1: u16_from_le(b[6], b[7]),
            dig_p2: i16_from_le(b[8], b[9]),
            dig_p3: i16_from_le(b[10], b[11]),
            dig_p4: u16_from_le(b[12], b[13]),
            dig_p5: i16_from_le(b[14], b[15]),
            dig_p6: i16_from_le(b[16], b[17]),
            dig_p7: u16_from_le(b[18], b[19]),
            dig_p8: i16_from_le(b[20], b[21]),
            dig_p9: i16_from_le(b[22], b[23]),
        }
    }

    /// The 24 bytes that hold this calibration, as the sensor stores it.
    pub fn to_bytes(&self) -> (b: [u8; 24])
        ensures
            trimming_parameters_from(b@) == *self,
    {
        let (t1l, t1h) = word_bytes(self.dig_t1);
        let (t2l, t2h) = signed_word_bytes(self.dig_t2);
        let (t3l, t3h) = signed_word_bytes(self.dig_t3);
        let (p1l, p1h) = word_bytes(self.dig_p1);
        let (p2l, p2h) = signed_word_bytes(self.dig_p2);
        let (p3l, p3h) = signed_word_bytes(self.dig_p3);
        let (p4l, p4h) = word_bytes(self.dig_p4);
        let (p5l, p5h) = signed_word_bytes(self.dig_p5);
        let (p6l, p6h) = signed_word_bytes(self.dig_p6);
        let (p7l, p7h) = word_bytes(self.dig_p7);
        let (p8l, p8h) = signed_word_bytes(self.dig_p8);
        let (p9l, p9h) = signed_word_bytes(self.dig_p9);
        let b = [
            t1l, t1h, t2l, t2h, t3l, t3h, p1l, p1h, p2l, p2h, p3l, p3h,
            p4l, p4h, p5l, p5h, p6l, p6h, p7l, p7h, p8l, p8h, p9l, p9h,
        ];
        assert(trimming_parameters_from(b@) == *self);
        b
    }
}

/// Two byte pairs with the same little-endian value are the same pair.
pub proof fn lemma_le_u16_injective(a: u8, b: u8, c: u8, d: u8)
    requires
        le_u16(a, b) == le_u16(c, d),
    ensures
        a == c,
        b == d,
{
}

/// Two byte pairs with the same signed little-endian value are the same pair.
pub proof fn lemma_le_i16_injective(a: u8, b: u8, c: u8, d: u8)
    requires
        le_i16(a, b) == le_i16(c, d),
    ensures
        a == c,
        b == d,
{
}

/// Bytes that hold the same calibration are the same bytes: a calibration read
/// from bytes gives those bytes back when written out.
pub proof fn lemma_trimming_parameters_bytes_round_trip(b: Seq<u8>, c: Seq<u8>)
    requires
        b.len() == 24,
        c.len() == 24,
        trimming_parameters_from(b) == trimming_parameters_from(c),
    ensures
        b == c,
{
    lemma_le_u16_injective(b[0], b[1], c[0], c[1]);
    lemma_le_i16_injective(b[2], b[3], c[2], c[3]);
    lemma_le_i16_injective(b[4], b[5], c[4], c[5]);
    lemma_le_u16_injective(b[6], b[7], c[6], c[7]);
    lemma_le_i16_injective(b[8], b[9], c[8], c[9]);
    lemma_le_i16_injective(b[10], b[11], c[10], c[11]);
    lemma_le_u16_injective(b[12], b[13], c[12], c[13]);
    lemma_le_i16_injective(b[14], b[15], c[14], c[15]);
    lemma_le_i16_injective(b[16], b[17], c[16], c[17]);
    lemma_le_u16_injective(b[18], b[19], c[18], c[19]);
    lemma_le_i16_injective(b[20], b[21], c[20], c[21]);
    lemma_le_i16_injective(b[22], b[23], c[22], c[23]);
    assert(b =~= c);
}

/// The raw pressure and temperature readings, as read from 0xF7 on.
#[derive(Debug, Clone, Copy, PartialEq, Eq, Structural)]
pub struct PressureAndTemperature {
    pub press_msb: u8,
    pub press_lsb: u8,
    pub press_xlsb: u8,
    pub temp_msb: u8,
    pub temp_lsb: u8,
    pub temp_xlsb: u8,
}

/// The 20-bit reading held in an MSB, an LSB and the upper half of an XLSB.
pub open spec fn combine_20_bits(msb: u8, lsb: u8, xlsb: u8) -> int {
    msb as int * 4096 + lsb as int * 16 + xlsb as int / 16
}

/// A 20-bit reading is MSB * 4096 + LSB * 16 + XLSB / 16: its top eight bits
/// are the MSB, the next eight the LSB, and its low four bits the upper half
/// of the XLSB.
pub proof fn lemma_combine_20_bits_places(msb: u8, lsb: u8, xlsb: u8)
    ensures
        combine_20_bits(msb, lsb, xlsb) == msb * 4096 + lsb * 16 + xlsb / 16,
        0 <= combine_20_bits(msb, lsb, xlsb) < 0x10_0000,
        combine_20_bits(msb, lsb, xlsb) / 4096 == msb,
        (combine_20_bits(msb, lsb, xlsb) / 16) % 256 == lsb,
        combine_20_bits(msb, lsb, xlsb) % 16 == xlsb / 16,
{
    let v = combine_20_bits(msb, lsb, xlsb);
    assert(v / 4096 == msb && (v / 16) % 256 == lsb && v % 16 == xlsb / 16 && v < 0x10_0000)
        by (nonlinear_arith)
        requires
            v == msb * 4096 + lsb * 16 + xlsb / 16,
            0 <= msb < 256,
            0 <= lsb < 256,
            0 <= xlsb < 256,
    ;
}

/// Combines an MSB, an LSB and the upper half of an XLSB into a 20-bit reading.
fn combine(msb: u8, lsb: u8, xlsb: u8) -> (v: u32)
    ensures
        v == combine_20_bits(msb, lsb, xlsb),
{
    let v = ((msb as u32) << 12) | ((lsb as u32) << 4) | ((xlsb as u32) >> 4);
    assert(v == msb as u32 * 4096 + lsb as u32 * 16 + xlsb as u32 / 16) by (bit_vector)
        requires
            v == ((msb as u32) << 12) | ((lsb as u32) << 4) | ((xlsb as u32) >> 4),
    ;
    v
}

/// Splits a reading below 2^21 into the MSB, LSB and XLSB bytes that hold it;
/// bit 20 has no place there and is dropped.
fn split(raw: u32) -> (r: (u8, u8, u8))
    requires
        raw < 0x20_0000,
    ensures
        combine_20_bits(r.0, r.1, r.2) == raw % 0x10_0000,
        r.2 % 16 == 0,
{
    let xlsb = ((raw & 0x00_00_0f) as u8) << 4;
    let lsb = ((raw >> 4) & 0x00_00_ff) as u8;
    let msb = ((raw >> 12) & 0x00_00_ff) as u8;
    assert(msb as int * 4096 + lsb as int * 16 + xlsb as int / 16 == raw % 0x10_0000 && xlsb % 16
        == 0) by (bit_vector)
        requires
            raw < 0x20_0000,
            xlsb == ((raw & 0x00_00_0f) as u8) << 4,
            lsb == ((raw >> 4) & 0x00_00_ff) as u8,
            msb == ((raw >> 12) & 0x00_00_ff) as u8,
    ;
    (msb, lsb, xlsb)
}

impl PressureAndTemperature {
    /// All bytes zero.
    pub fn new_zeroed() -> (p: Self)
        ensures
            p == pressure_and_temperature_from(Seq::new(6, |i: int| 0u8)),
    {
        Self { press_msb: 0, press_lsb: 0, press_xlsb: 0, temp_msb: 0, temp_lsb: 0, temp_xlsb: 0 }
    }

    /// The readings held by the 6 bytes read from 0xF7 on.
    pub fn from_bytes(b: &[u8; 6]) -> (p: Self)
        ensures
            p == pressure_and_temperature_from(b@),
    {
        Self {
            press_msb: b[0],
            press_lsb: b[1],
            press_xlsb: b[2],
            temp_msb: b[3],
            temp_lsb: b[4],
            temp_xlsb: b[5],
        }
    }

    /// The 6 bytes, in register order.
    pub fn to_bytes(&self) -> (b: [u8; 6])
        ensures
            pressure_and_temperature_from(b@) == *self,
    {
        [self.press_msb, self.press_lsb, self.press_xlsb, self.temp_msb, self.temp_lsb, self.temp_xlsb]
    }

    /// The 20-bit uncompensated pressure.
    pub fn raw_pressure(&self) -> (v: u32)
        ensures
            v == combine_20_bits(self.press_msb, self.press_lsb, self.press_xlsb),
            v < 0x10_0000,
    {
        combine(self.press_msb, self.press_lsb, self.press_xlsb)
    }

    /// The 20-bit uncompensated temperature.
    pub fn raw_temperature(&self) -> (v: u32)
        ensures
            v == combine_20_bits(self.temp_msb, self.temp_lsb, self.temp_xlsb),
            v < 0x10_0000,
    {
        combine(self.temp_msb, self.temp_lsb, self.temp_xlsb)
    }

    /// Stores an uncompensated temperature below 2^21 (bit 20 is dropped).
    pub fn set_raw_tempeature(&mut self, raw_temperature: u32)
        requires
            raw_temperature < (1u32 << 21),
        ensures
            combine_20_bits(final(self).temp_msb, final(self).temp_lsb, final(self).temp_xlsb)
                == raw_temperature % 0x10_0000,
            final(self).temp_xlsb % 16 == 0,
            final(self).press_msb == old(self).press_msb,
            final(self).press_lsb == old(self).press_lsb,
            final(self).press_xlsb == old(self).press_xlsb,
    {
        assert((1u32 << 21) == 0x20_0000) by (bit_vector);
        let (msb, lsb, xlsb) = split(raw_temperature);
        self.temp_xlsb = xlsb;
        self.temp_lsb = lsb;
        self.temp_msb = msb;
    }

    /// Stores an uncompensated pressure below 2^21 (bit 20 is dropped).
    pub fn set_raw_pressure(&mut self, raw_pressure: u32)
        requires
            raw_pressure < (1u32 << 21),
        ensures
            combine_20_bits(final(self).press_msb, final(self).press_lsb, final(self).press_xlsb)
                == raw_pressure % 0x10_0000,
            final(self).press_xlsb % 16 == 0,
            final(self).temp_msb == old(self).temp_msb,
            final(self).temp_lsb == old(self).temp_lsb,
            final(self).temp_xlsb == old(self).temp_xlsb,
    {
        assert((1u32 << 21) == 0x20_0000) by (bit_vector);
        let (msb, lsb, xlsb) = split(raw_pressure);
        self.press_xlsb = xlsb;
        self.press_lsb = lsb;
        self.press_msb = msb;
    }
}

/// Bytes that hold the same readings are the same bytes.
pub proof fn lemma_pressure_and_temperature_bytes_round_trip(b: Seq<u8>, c: Seq<u8>)
    requires
        b.len() == 6,
        c.len() == 6,
        pressure_and_temperature_from(b) == pressure_and_temperature_from(c),
    ensures
        b == c,
{
    assert(b =~= c);
}

/// The raw pressure is held by the bytes at 0xF7 (MSB), 0xF8 (LSB) and 0xF9
/// (XLSB), the raw temperature by those at 0xFA, 0xFB and 0xFC: each is
/// MSB * 4096 + LSB * 16 + XLSB / 16.
pub proof fn lemma_raw_readings_from_register_bytes(b: Seq<u8>)
    requires
        b.len() == 6,
    ensures
        combine_20_bits(
            pressure_and_temperature_from(b).press_msb,
            pressure_and_temperature_from(b).press_lsb,
            pressure_and_temperature_from(b).press_xlsb,
        ) == b[0] * 4096 + b[1] * 16 + b[2] / 16,
        combine_20_bits(
            pressure_and_temperature_from(b).temp_msb,
            pressure_and_temperature_from(b).temp_lsb,
            pressure_and_temperature_from(b).temp_xlsb,
        ) == b[3] * 4096 + b[4] * 16 + b[5] / 16,
{
    lemma_combine_20_bits_places(b[0], b[1], b[2]);
    lemma_combine_20_bits_places(b[3], b[4], b[5]);
}

/// A reading below 2^20 that is stored in an MSB, an LSB and an XLSB whose
/// low half is clear, as the setters of the raw readings store it, puts bits
/// 12 to 19 in the MSB, bits 4 to 11 in the LSB and bits 0 to 3 in the upper
/// half of the XLSB.
pub proof fn lemma_stored_reading_places(msb: u8, lsb: u8, xlsb: u8, raw: int)
    requires
        0 <= raw < 0x10_0000,
        combine_20_bits(msb, lsb, xlsb) == raw,
        xlsb % 16 == 0,
    ensures
        msb == raw / 4096,
        lsb == (raw / 16) % 256,
        xlsb == (raw % 16) * 16,
{
    lemma_combine_20_bits_places(msb, lsb, xlsb);
}

/// The readings that 6 bytes from 0xF7 on hold.
pub open spec fn pressure_and_temperature_from(b: Seq<u8>) -> PressureAndTemperature {
    PressureAndTemperature {
        press_msb: b[0],
        press_lsb: b[1],
        press_xlsb: b[2],
        temp_msb: b[3],
        temp_lsb: b[4],
        temp_xlsb: b[5],
    }
}

/// Power mode (CTRL_MEAS bits 0 and 1); two codes mean forced.
#[derive(Debug, Clone, Copy, PartialEq, Eq, Structural)]
pub enum PowerMode {
    Sleep,
    Forced,
    ForcedAlt,
    Normal,
}

/// The 2-bit code of a power mode.
pub open spec fn power_mode_code(v: PowerMode) -> u8 {
    match v {
        PowerMode::Sleep => 0,
        PowerMode::Forced => 1,
        PowerMode::ForcedAlt => 2,
        PowerMode::Normal => 3,
    }
}

impl PowerMode {
    /// The 2-bit code of this value.
    pub fn code(self) -> (c: u8)
        ensures
            c == power_mode_code(self),
            c < 4,
    {
        match self {
            PowerMode::Sleep => 0,
            PowerMode::Forced => 1,
            PowerMode::ForcedAlt => 2,
            PowerMode::Normal => 3,
        }
    }

    /// The value with the given 2-bit code.
    pub fn from_code(code: u8) -> (v: Self)
        requires
            code < 4,
        ensures
            power_mode_code(v) == code,
    {
        if code == 0 {
            PowerMode::Sleep
        } else if code == 1 {
            PowerMode::Forced
        } else if code == 2 {
            PowerMode::ForcedAlt
        } else {
            PowerMode::Normal
        }
    }
}

/// Oversampling of a measurement; three codes mean x16.
#[derive(Debug, Clone, Copy, PartialEq, Eq, Structural)]
pub enum Oversampling {
    Skipped,
    X1,
    X2,
    X4,
    X8,
    X16,
    X16Alt1,
    X16Alt2,
}

/// The 3-bit code of an oversampling.
pub open spec fn oversampling_code(v: Oversampling) -> u8 {
    match v {
        Oversampling::Skipped => 0,
        Oversampling::X1 => 1,
        Oversampling::X2 => 2,
        Oversampling::X4 => 3,
        Oversampling::X8 => 4,
        Oversampling::X16 => 5,
        Oversampling::X16Alt1 => 6,
        Oversampling::X16Alt2 => 7,
    }
}

/// How many samples a measurement takes: none when skipped, else the factor
/// in the name (the codes above x16 also take 16).
pub open spec fn oversampling_factor(v: Oversampling) -> nat {
    match v {
        Oversampling::Skipped => 0,
        Oversampling::X1 => 1,
        Oversampling::X2 => 2,
        Oversampling::X4 => 4,
        Oversampling::X8 => 8,
        Oversampling::X16 => 16,
        Oversampling::X16Alt1 => 16,
        Oversampling::X16Alt2 => 16,
    }
}

/// Code 0 skips the measurement; code `c` from 1 to 5 takes 2^(c - 1)
/// samples, and the codes above 5 take 16.
pub proof fn lemma_oversampling_code_factor(v: Oversampling)
    ensures
        oversampling_code(v) == 0 <==> oversampling_factor(v) == 0,
        1 <= oversampling_code(v) <= 5 ==> oversampling_factor(v) == pow2(
            (oversampling_code(v) - 1) as nat,
        ),
        oversampling_code(v) > 5 ==> oversampling_factor(v) == 16,
{
    lemma2_to64();
}

impl Oversampling {
    /// The 3-bit code of this value.
    pub fn code(self) -> (c: u8)
        ensures
            c == oversampling_code(self),
            c < 8,
    {
        match self {
            Oversampling::Skipped => 0,
            Oversampling::X1 => 1,
            Oversampling::X2 => 2,
            Oversampling::X4 => 3,
            Oversampling::X8 => 4,
            Oversampling::X16 => 5,
            Oversampling::X16Alt1 => 6,
            Oversampling::X16Alt2 => 7,
        }
    }

    /// The value with the given 3-bit code.
    pub fn from_code(code: u8) -> (v: Self)
        requires
            code < 8,
        ensures
            oversampling_code(v) == code,
    {
        if code == 0 {
            Oversampling::Skipped
        } else if code == 1 {
            Oversampling::X1
        } else if code == 2 {
            Oversampling::X2
        } else if code == 3 {
            Oversampling::X4
        } else if code == 4 {
            Oversampling::X8
        } else if code == 5 {
            Oversampling::X16
        } else if code == 6 {
            Oversampling::X16Alt1
        } else {
            Oversampling::X16Alt2
        }
    }
}

/// IIR filter coefficient (CONFIG bits 2 to 4).
#[derive(Debug, Clone, Copy, PartialEq, Eq, Structural)]
pub enum Filter {
    Off,
    X2,
    X4,
    X8,
    X16,
    Unknown0,
    Unknown1,
    Unknown2,
}

/// The 3-bit code of a filter coefficient.
pub open spec fn filter_code(v: Filter) -> u8 {
    match v {
        Filter::Off => 0,
        Filter::X2 => 1,
        Filter::X4 => 2,
        Filter::X8 => 3,
        Filter::X16 => 4,
        Filter::Unknown0 => 5,
        Filter::Unknown1 => 6,
        Filter::Unknown2 => 7,
    }
}

/// The IIR filter coefficient: 0 when off, else the factor in the name;
/// `None` for the codes that the datasheet leaves unnamed.
pub open spec fn filter_coefficient(v: Filter) -> Option<nat> {
    match v {
        Filter::Off => Some(0),
        Filter::X2 => Some(2),
        Filter::X4 => Some(4),
        Filter::X8 => Some(8),
        Filter::X16 => Some(16),
        Filter::Unknown0 => None,
        Filter::Unknown1 => None,
        Filter::Unknown2 => None,
    }
}

/// Code 0 turns the filter off, code `c` from 1 to 4 sets coefficient 2^c,
/// and the codes from 5 on have no coefficient.
pub proof fn lemma_filter_code_coefficient(v: Filter)
    ensures
        filter_code(v) == 0 <==> filter_coefficient(v) == Some(0nat),
        1 <= filter_code(v) <= 4 ==> filter_coefficient(v) == Some(pow2(filter_code(v) as nat)),
        filter_code(v) >= 5 <==> filter_coefficient(v) is None,
{
    lemma2_to64();
}

impl Filter {
    /// The 3-bit code of this value.
    pub fn code(self) -> (c: u8)
        ensures
            c == filter_code(self),
            c < 8,
    {
        match self {
            Filter::Off => 0,
            Filter::X2 => 1,
            Filter::X4 => 2,
            Filter::X8 => 3,
            Filter::X16 => 4,
            Filter::Unknown0 => 5,
            Filter::Unknown1 => 6,
            Filter::Unknown2 => 7,
        }
    }

    /// The value with the given 3-bit code.
    pub fn from_code(code: u8) -> (v: Self)
        requires
            code < 8,
        ensures
            filter_code(v) == code,
    {
        if code == 0 {
            Filter::Off
        } else if code == 1 {
            Filter::X2
        } else if code == 2 {
            Filter::X4
        } else if code == 3 {
            Filter::X8
        } else if code == 4 {
            Filter::X16
        } else if code == 5 {
            Filter::Unknown0
        } else if code == 6 {
            Filter::Unknown1
        } else {
            Filter::Unknown2
        }
    }
}

/// Bit of STATUS that is set while a measurement runs.
pub const MEASURING_BIT: u8 = 3;

/// The CTRL_MEAS register: power mode in bits 0 and 1, pressure oversampling
/// in bits 2 to 4, temperature oversampling in bits 5 to 7.
#[derive(Debug, Clone, Copy, PartialEq, Eq, Structural)]
pub struct CtrlMeasReg {
    raw: u8,
}

impl CtrlMeasReg {
    /// The register's byte.
    pub closed spec fn bits(&self) -> u8 {
        self.raw
    }

    /// All bits clear.
    pub fn zero() -> (r: Self)
        ensures
            r.bits() == 0,
    {
        Self { raw: 0 }
    }

    /// The register holding `raw`.
    pub fn new_with_raw_value(raw: u8) -> (r: Self)
        ensures
            r.bits() == raw,
    {
        Self { raw }
    }

    /// The register's byte.
    pub fn raw_value(&self) -> (v: u8)
        ensures
            v == self.bits(),
    {
        self.raw
    }

    /// The power mode.
    pub fn power_mode(&self) -> (m: PowerMode)
        ensures
            power_mode_code(m) == field_value(self.bits(), 0, 2),
    {
        proof { lemma_u8_bit_weights(); }
        PowerMode::from_code(get_field(self.raw, 0, 2))
    }

    /// The register with the power mode set, the other fields kept.
    pub fn with_power_mode(self, mode: PowerMode) -> (r: Self)
        ensures
            field_value(r.bits(), 0, 2) == power_mode_code(mode),
            r.bits() == (self.bits() & !(low_mask(2) << 0u8)) | (power_mode_code(mode) << 0u8),
            forall|j: u8| j < 8 && !in_field(j, 0, 2) ==> bit_is_set(r.bits(), j) == bit_is_set(self.bits(), j),
    {
        let code = mode.code();
        proof { lemma_u8_bit_weights(); }
        Self { raw: with_field(self.raw, 0, 2, code) }
    }

    /// The pressure oversampling.
    pub fn pressure_oversampling(&self) -> (o: Oversampling)
        ensures
            oversampling_code(o) == field_value(self.bits(), 2, 3),
    {
        proof { lemma_u8_bit_weights(); }
        Oversampling::from_code(get_field(self.raw, 2, 3))
    }

    /// The register with the pressure oversampling set, the other fields kept.
    pub fn with_pressure_oversampling(self, o: Oversampling) -> (r: Self)
        ensures
            field_value(r.bits(), 2, 3) == oversampling_code(o),
            r.bits() == (self.bits() & !(low_mask(3) << 2u8)) | (oversampling_code(o) << 2u8),
            forall|j: u8| j < 8 && !in_field(j, 2, 3) ==> bit_is_set(r.bits(), j) == bit_is_set(self.bits(), j),
    {
        let code = o.code();
        proof { lemma_u8_bit_weights(); }
        Self { raw: with_field(self.raw, 2, 3, code) }
    }

    /// The temperature oversampling.
    pub fn temperature_oversampling(&self) -> (o: Oversampling)
        ensures
            oversampling_code(o) == field_value(self.bits(), 5, 3),
    {
        proof { lemma_u8_bit_weights(); }
        Oversampling::from_code(get_field(self.raw, 5, 3))
    }

    /// The register with the temperature oversampling set, the other fields kept.
    pub fn with_temperature_oversampling(self, o: Oversampling) -> (r: Self)
        ensures
            field_value(r.bits(), 5, 3) == oversampling_code(o),
            r.bits() == (self.bits() & !(low_mask(3) << 5u8)) | (oversampling_code(o) << 5u8),
            forall|j: u8| j < 8 && !in_field(j, 5, 3) ==> bit_is_set(r.bits(), j) == bit_is_set(self.bits(), j),
    {
        let code = o.code();
        proof { lemma_u8_bit_weights(); }
        Self { raw: with_field(self.raw, 5, 3, code) }
    }
}

/// The CONFIG register: the filter coefficient in bits 2 to 4.
#[derive(Debug, Clone, Copy, PartialEq, Eq, Structural)]
pub struct ConfigReg {
    raw: u8,
}

impl ConfigReg {
    /// The register's byte.
    pub closed spec fn bits(&self) -> u8 {
        self.raw
    }

    /// All bits clear.
    pub fn zero() -> (r: Self)
        ensures
            r.bits() == 0,
    {
        Self { raw: 0 }
    }

    /// The register holding `raw`.
    pub fn new_with_raw_value(raw: u8) -> (r: Self)
        ensures
            r.bits() == raw,
    {
        Self { raw }
    }

    /// The register's byte.
    pub fn raw_value(&self) -> (v: u8)
        ensures
            v == self.bits(),
    {
        self.raw
    }

    /// The filter coefficient.
    pub fn filter(&self) -> (f: Filter)
        ensures
            filter_code(f) == field_value(self.bits(), 2, 3),
    {
        proof { lemma_u8_bit_weights(); }
        Filter::from_code(get_field(self.raw, 2, 3))
    }

    /// The register with the filter coefficient set, the other bits kept.
    pub fn with_filter(self, f: Filter) -> (r: Self)
        ensures
            field_value(r.bits(), 2, 3) == filter_code(f),
            r.bits() == (self.bits() & !(low_mask(3) << 2u8)) | (filter_code(f) << 2u8),
            forall|j: u8| j < 8 && !in_field(j, 2, 3) ==> bit_is_set(r.bits(), j) == bit_is_set(self.bits(), j),
    {
        let code = f.code();
        proof { lemma_u8_bit_weights(); }
        Self { raw: with_field(self.raw, 2, 3, code) }
    }
}

/// The STATUS register.
#[derive(Debug, Clone, Copy, PartialEq, Eq, Structural)]
pub struct Status {
    raw: u8,
}

impl Status {
    /// The register's byte.
    pub closed spec fn bits(&self) -> u8 {
        self.raw
    }

    /// The register holding `raw`.
    pub fn new_with_raw_value(raw: u8) -> (r: Self)
        ensures
            r.bits() == raw,
    {
        Self { raw }
    }

    /// Whether a measurement is running.
    pub fn measuring(&self) -> (b: bool)
        ensures
            b == bit_is_set(self.bits(), MEASURING_BIT),
    {
        get_bit(self.raw, MEASURING_BIT)
    }
}

/// The CTRL_MEAS value of a forced measurement with x16 pressure and x2
/// temperature oversampling.
pub open spec fn forced_measurement_ctrl_meas() -> u8 {
    0x55
}

/// The CONFIG value with the x16 filter and all other bits clear.
pub open spec fn x16_filter_config() -> u8 {
    0x10
}

/// The write that sets the filter coefficient, all other CONFIG bits clear.
pub fn set_filter_frame(filter: Filter) -> (f: [u8; 2])
    ensures
        f@ == seq![CONFIG_ADDRESS, (filter_code(filter) << 2u8) as u8],
        filter == Filter::X16 ==> f@[1] == x16_filter_config(),
{
    let code = filter.code();
    let reg = ConfigReg::zero().with_filter(filter);
    let v = reg.raw_value();
    assert(v == code << 2u8) by (bit_vector)
        requires
            code < 8,
            v == (0u8 & !(low_mask(3) << 2u8)) | (code << 2u8),
    ;
    let f = [CONFIG_ADDRESS, v];
    assert(f@ =~= seq![CONFIG_ADDRESS, (filter_code(filter) << 2u8) as u8]);
    if filter == Filter::X16 {
        assert((4u8 << 2u8) == 0x10u8) by (bit_vector);
    }
    f
}

/// The write that starts one forced measurement with x16 pressure and x2
/// temperature oversampling.
pub fn force_measurement_frame() -> (f: [u8; 2])
    ensures
        f@ == seq![CTRL_MEAS_ADDRESS, forced_measurement_ctrl_meas()],
{
    let r0 = CtrlMeasReg::zero();
    let r1 = r0.with_power_mode(PowerMode::Forced);
    let r2 = r1.with_pressure_oversampling(Oversampling::X16);
    let r3 = r2.with_temperature_oversampling(Oversampling::X2);
    let (v1, v2, v3) = (r1.raw_value(), r2.raw_value(), r3.raw_value());
    assert(v3 == 0x55) by (bit_vector)
        requires
            v1 == (0u8 & !(low_mask(2) << 0u8)) | (1u8 << 0u8),
            v2 == (v1 & !(low_mask(3) << 2u8)) | (5u8 << 2u8),
            v3 == (v2 & !(low_mask(3) << 5u8)) | (2u8 << 5u8),
    ;
    let f = [CTRL_MEAS_ADDRESS, v3];
    assert(f@ =~= seq![CTRL_MEAS_ADDRESS, forced_measurement_ctrl_meas()]);
    f
}

} // verus!
