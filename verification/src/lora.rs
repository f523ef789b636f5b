//! SX1276 LoRa radio: register encodings, the carrier frequency registers
//! and the SPI frames of register accesses and transmissions.

use vstd::prelude::*;
use crate::bits::{lemma_u8_bit_weights, bit_is_set, field_value, get_bit, get_field, in_field, low_mask, with_bit, with_field};

verus! {

/// FIFO data register.
pub const FIFO: u8 = 0x00;

/// RegOpMode.
pub const OP_MODE: u8 = 0x01;

/// Most significant byte of the carrier frequency.
pub const CARRIER_FREQUENCY_MSB: u8 = 0x06;

/// RegPaConfig.
pub const PA_CONFIG: u8 = 0x09;

/// FIFO address pointer.
pub const FIFO_PTR: u8 = 0x0d;

/// Start of the transmit data in the FIFO.
pub const FIFO_TX_BASE: u8 = 0x0e;

/// Start of the receive data in the FIFO.
pub const FIFO_RX_BASE: u8 = 0x0f;

/// Start of the last packet received.
pub const FIFO_RX_CURRENT_ADDR: u8 = 0x10;

/// Number of bytes of the last packet received.
pub const LAST_RX_BYTES: u8 = 0x13;

/// RegModemConfig1.
pub const MODEM_CONFIG_1: u8 = 0x1D;

/// RegModemConfig2.
pub const MODEM_CONFIG_2: u8 = 0x1E;

/// Payload length of the next transmission.
pub const PAYLOAD_LENGTH: u8 = 0x22;

/// LoRa sync word.
pub const SYNC_WORD: u8 = 0x39;

/// Silicon version.
pub const VERSION: u8 = 0x42;

/// Bit set in the address byte of a register write.
pub const WRITE_FLAG: u8 = 0x80;

/// Capacity of the FIFO: the longest payload that is sent.
pub const FIFO_SIZE: usize = 255;

/// The silicon version that a working SX1276 reports.
pub const EXPECTED_SILICON_VERSION: u8 = 0x12;

/// Modulation: FSK/OOK or LoRa (RegOpMode bit 7).
#[derive(Debug, Clone, Copy, PartialEq, Eq, Structural)]
pub enum LongRangeMode {
    FskOok,
    LoRa,
}

/// The 1-bit code of a `LongRangeMode`.
pub open spec fn long_range_mode_code(v: LongRangeMode) -> u8 {
    match v {
        LongRangeMode::FskOok => 0,
        LongRangeMode::LoRa => 1,
    }
}

impl LongRangeMode {
    /// The 1-bit code of this value.
    pub fn code(self) -> (c: u8)
        ensures
            c == long_range_mode_code(self),
            c < 2,
    {
        match self {
            LongRangeMode::FskOok => 0,
            LongRangeMode::LoRa => 1,
        }
    }

    /// The value with the given 1-bit code.
    pub fn from_code(code: u8) -> (v: Self)
        requires
            code < 2,
        ensures
            long_range_mode_code(v) == code,
    {
        if code == 0 {
            LongRangeMode::FskOok
        } else {
            LongRangeMode::LoRa
        }
    }
}

/// Frequency band of the register set (RegOpMode bit 3).
#[derive(Debug, Clone, Copy, PartialEq, Eq, Structural)]
pub enum FrequencyMode {
    HighFrequencyMode,
    LowFrequencyMode,
}

/// The 1-bit code of a `FrequencyMode`.
pub open spec fn frequency_mode_code(v: FrequencyMode) -> u8 {
    match v {
        FrequencyMode::HighFrequencyMode => 0,
        FrequencyMode::LowFrequencyMode => 1,
    }
}

impl FrequencyMode {
    /// The 1-bit code of this value.
    pub fn code(self) -> (c: u8)
        ensures
            c == frequency_mode_code(self),
            c < 2,
    {
        match self {
            FrequencyMode::HighFrequencyMode => 0,
            FrequencyMode::LowFrequencyMode => 1,
        }
    }

    /// The value with the given 1-bit code.
    pub fn from_code(code: u8) -> (v: Self)
        requires
            code < 2,
        ensures
            frequency_mode_code(v) == code,
    {
        if code == 0 {
            FrequencyMode::HighFrequencyMode
        } else {
            FrequencyMode::LowFrequencyMode
        }
    }
}

/// Transceiver mode (RegOpMode bits 0 to 2).
#[derive(Debug, Clone, Copy, PartialEq, Eq, Structural)]
pub enum DeviceMode {
    Sleep,
    Standby,
    FsTx,
    Tx,
    FsRx,
    RxContinuous,
    RxSingle,
    Cad,
}

/// The 3-bit code of a `DeviceMode`.
pub open spec fn device_mode_code(v: DeviceMode) -> u8 {
    match v {
        DeviceMode::Sleep => 0,
        DeviceMode::Standby => 1,
        DeviceMode::FsTx => 2,
        DeviceMode::Tx => 3,
        DeviceMode::FsRx => 4,
        DeviceMode::RxContinuous => 5,
        DeviceMode::RxSingle => 6,
        DeviceMode::Cad => 7,
    }
}

impl DeviceMode {
    /// The 3-bit code of this value.
    pub fn code(self) -> (c: u8)
        ensures
            c == device_mode_code(self),
            c < 8,
    {
        match self {
            DeviceMode::Sleep => 0,
            DeviceMode::Standby => 1,
            DeviceMode::FsTx => 2,
            DeviceMode::Tx => 3,
            DeviceMode::FsRx => 4,
            DeviceMode::RxContinuous => 5,
            DeviceMode::RxSingle => 6,
            DeviceMode::Cad => 7,
        }
    }

    /// The value with the given 3-bit code.
    pub fn from_code(code: u8) -> (v: Self)
        requires
            code < 8,
        ensures
            device_mode_code(v) == code,
    {
        if code == 0 {
            DeviceMode::Sleep
        } else if code == 1 {
            DeviceMode::Standby
        } else if code == 2 {
            DeviceMode::FsTx
        } else if code == 3 {
            DeviceMode::Tx
        } else if code == 4 {
            DeviceMode::FsRx
        } else if code == 5 {
            DeviceMode::RxContinuous
        } else if code == 6 {
            DeviceMode::RxSingle
        } else {
            DeviceMode::Cad
        }
    }
}

/// Output pin of the power amplifier (RegPaConfig bit 7).
#[derive(Debug, Clone, Copy, PartialEq, Eq, Structural)]
pub enum PaSelect {
    Rfo,
    PaBoost,
}

/// The 1-bit code of a `PaSelect`.
pub open spec fn pa_select_code(v: PaSelect) -> u8 {
    match v {
        PaSelect::Rfo => 0,
        PaSelect::PaBoost => 1,
    }
}

impl PaSelect {
    /// The 1-bit code of this value.
    pub fn code(self) -> (c: u8)
        ensures
            c == pa_select_code(self),
            c < 2,
    {
        match self {
            PaSelect::Rfo => 0,
            PaSelect::PaBoost => 1,
        }
    }

    /// The value with the given 1-bit code.
    pub fn from_code(code: u8) -> (v: Self)
        requires
            code < 2,
        ensures
            pa_select_code(v) == code,
    {
        if code == 0 {
            PaSelect::Rfo
        } else {
            PaSelect::PaBoost
        }
    }
}

/// Signal bandwidth (RegModemConfig1 bits 4 to 7).
#[derive(Debug, Clone, Copy, PartialEq, Eq, Structural)]
pub enum BandWidth {
    Khz7_8,
    Khz10_4,
    Khz15_6,
    Khz20_8,
    Khz31_25,
    Khz41_7,
    Khz62_5,
    Khz125,
    Khz250,
    Khz500,
}

/// Whether `code` stands for a value of `BandWidth`.
pub open spec fn band_width_code_is_defined(code: u8) -> bool {
    code == 0 || code == 1 || code == 2 || code == 3 || code == 4 || code == 5 || code == 6 || code == 7 || code == 8 || code == 9
}

/// The 4-bit code of a `BandWidth`.
pub open spec fn band_width_code(v: BandWidth) -> u8 {
    match v {
        BandWidth::Khz7_8 => 0,
        BandWidth::Khz10_4 => 1,
        BandWidth::Khz15_6 => 2,
        BandWidth::Khz20_8 => 3,
        BandWidth::Khz31_25 => 4,
        BandWidth::Khz41_7 => 5,
        BandWidth::Khz62_5 => 6,
        BandWidth::Khz125 => 7,
        BandWidth::Khz250 => 8,
        BandWidth::Khz500 => 9,
    }
}

/// The signal bandwidth that a value names, in hertz.
pub open spec fn band_width_hz(v: BandWidth) -> nat {
    match v {
        BandWidth::Khz7_8 => 7_800,
        BandWidth::Khz10_4 => 10_400,
        BandWidth::Khz15_6 => 15_600,
        BandWidth::Khz20_8 => 20_800,
        BandWidth::Khz31_25 => 31_250,
        BandWidth::Khz41_7 => 41_700,
        BandWidth::Khz62_5 => 62_500,
        BandWidth::Khz125 => 125_000,
        BandWidth::Khz250 => 250_000,
        BandWidth::Khz500 => 500_000,
    }
}

/// The bandwidth codes run from the narrowest bandwidth (code 0) to the
/// widest: a wider bandwidth has a higher code.
pub proof fn lemma_band_width_code_order(a: BandWidth, b: BandWidth)
    ensures
        band_width_hz(a) < band_width_hz(b) <==> band_width_code(a) < band_width_code(b),
        band_width_code(a) == 0 <==> band_width_hz(a) == 7_800,
{
}

impl BandWidth {
    /// The 4-bit code of this value.
    pub fn code(self) -> (c: u8)
        ensures
            c == band_width_code(self),
            c < 16,
    {
        match self {
            BandWidth::Khz7_8 => 0,
            BandWidth::Khz10_4 => 1,
            BandWidth::Khz15_6 => 2,
            BandWidth::Khz20_8 => 3,
            BandWidth::Khz31_25 => 4,
            BandWidth::Khz41_7 => 5,
            BandWidth::Khz62_5 => 6,
            BandWidth::Khz125 => 7,
            BandWidth::Khz250 => 8,
            BandWidth::Khz500 => 9,
        }
    }

    /// The value with the given 4-bit code, or `None` for a code that
    /// stands for no value.
    pub fn from_code(code: u8) -> (v: Option<Self>)
        ensures
            v matches Some(x) ==> band_width_code(x) == code,
            v is None <==> !band_width_code_is_defined(code),
    {
        if code == 0 {
            Some(BandWidth::Khz7_8)
        } else if code == 1 {
            Some(BandWidth::Khz10_4)
        } else if code == 2 {
            Some(BandWidth::Khz15_6)
        } else if code == 3 {
            Some(BandWidth::Khz20_8)
        } else if code == 4 {
            Some(BandWidth::Khz31_25)
        } else if code == 5 {
            Some(BandWidth::Khz41_7)
        } else if code == 6 {
            Some(BandWidth::Khz62_5)
        } else if code == 7 {
            Some(BandWidth::Khz125)
        } else if code == 8 {
            Some(BandWidth::Khz250)
        } else if code == 9 {
            Some(BandWidth::Khz500)
        } else {
            None
        }
    }
}

/// Error coding rate (RegModemConfig1 bits 1 to 3).
#[derive(Debug, Clone, Copy, PartialEq, Eq, Structural)]
pub enum CodingRate {
    Cr4_5,
    Cr4_6,
    Cr4_7,
    Cr4_8,
}

/// Whether `code` stands for a value of `CodingRate`.
pub open spec fn coding_rate_code_is_defined(code: u8) -> bool {
    code == 1 || code == 2 || code == 3 || code == 4
}

/// The 3-bit code of a `CodingRate`.
pub open spec fn coding_rate_code(v: CodingRate) -> u8 {
    match v {
        CodingRate::Cr4_5 => 1,
        CodingRate::Cr4_6 => 2,
        CodingRate::Cr4_7 => 3,
        CodingRate::Cr4_8 => 4,
    }
}

/// The denominator of a coding rate 4/5 to 4/8.
pub open spec fn coding_rate_denominator(v: CodingRate) -> nat {
    match v {
        CodingRate::Cr4_5 => 5,
        CodingRate::Cr4_6 => 6,
        CodingRate::Cr4_7 => 7,
        CodingRate::Cr4_8 => 8,
    }
}

/// The code of coding rate 4/d is d - 4.
pub proof fn lemma_coding_rate_code(v: CodingRate)
    ensures
        coding_rate_code(v) == coding_rate_denominator(v) - 4,
{
}

impl CodingRate {
    /// The 3-bit code of this value.
    pub fn code(self) -> (c: u8)
        ensures
            c == coding_rate_code(self),
            c < 8,
    {
        match self {
            CodingRate::Cr4_5 => 1,
            CodingRate::Cr4_6 => 2,
            CodingRate::Cr4_7 => 3,
            CodingRate::Cr4_8 => 4,
        }
    }

    /// The value with the given 3-bit code, or `None` for a code that
    /// stands for no value.
    pub fn from_code(code: u8) -> (v: Option<Self>)
        ensures
            v matches Some(x) ==> coding_rate_code(x) == code,
            v is None <==> !coding_rate_code_is_defined(code),
    {
        if code == 1 {
            Some(CodingRate::Cr4_5)
        } else if code == 2 {
            Some(CodingRate::Cr4_6)
        } else if code == 3 {
            Some(CodingRate::Cr4_7)
        } else if code == 4 {
            Some(CodingRate::Cr4_8)
        } else {
            None
        }
    }
}

/// Explicit or implicit header (RegModemConfig1 bit 0).
#[derive(Debug, Clone, Copy, PartialEq, Eq, Structural)]
pub enum HeaderMode {
    Explicit,
    Implicit,
}

/// The 1-bit code of a `HeaderMode`.
pub open spec fn header_mode_code(v: HeaderMode) -> u8 {
    match v {
        HeaderMode::Explicit => 0,
        HeaderMode::Implicit => 1,
    }
}

impl HeaderMode {
    /// The 1-bit code of this value.
    pub fn code(self) -> (c: u8)
        ensures
            c == header_mode_code(self),
            c < 2,
    {
        match self {
            HeaderMode::Explicit => 0,
            HeaderMode::Implicit => 1,
        }
    }

    /// The value with the given 1-bit code.
    pub fn from_code(code: u8) -> (v: Self)
        requires
            code < 2,
        ensures
            header_mode_code(v) == code,
    {
        if code == 0 {
            HeaderMode::Explicit
        } else {
            HeaderMode::Implicit
        }
    }
}

/// Spreading factor (RegModemConfig2 bits 4 to 7).
#[derive(Debug, Clone, Copy, PartialEq, Eq, Structural)]
pub enum SpreadingFactor {
    SF6,
    SF7,
    SF8,
    SF9,
    SF10,
    SF11,
    SF12,
}

/// Whether `code` stands for a value of `SpreadingFactor`.
pub open spec fn spreading_factor_code_is_defined(code: u8) -> bool {
    code == 6 || code == 7 || code == 8 || code == 9 || code == 10 || code == 11 || code == 12
}

/// The 4-bit code of a `SpreadingFactor`.
pub open spec fn spreading_factor_code(v: SpreadingFactor) -> u8 {
    match v {
        SpreadingFactor::SF6 => 6,
        SpreadingFactor::SF7 => 7,
        SpreadingFactor::SF8 => 8,
        SpreadingFactor::SF9 => 9,
        SpreadingFactor::SF10 => 10,
        SpreadingFactor::SF11 => 11,
        SpreadingFactor::SF12 => 12,
    }
}

/// The spreading factor that a value names, 6 to 12.
pub open spec fn spreading_factor_value(v: SpreadingFactor) -> nat {
    match v {
        SpreadingFactor::SF6 => 6,
        SpreadingFactor::SF7 => 7,
        SpreadingFactor::SF8 => 8,
        SpreadingFactor::SF9 => 9,
        SpreadingFactor::SF10 => 10,
        SpreadingFactor::SF11 => 11,
        SpreadingFactor::SF12 => 12,
    }
}

/// The code of spreading factor SFn is n itself.
pub proof fn lemma_spreading_factor_code(v: SpreadingFactor)
    ensures
        spreading_factor_code(v) == spreading_factor_value(v),
{
}

impl SpreadingFactor {
    /// The 4-bit code of this value.
    pub fn code(self) -> (c: u8)
        ensures
            c == spreading_factor_code(self),
            c < 16,
    {
        match self {
            SpreadingFactor::SF6 => 6,
            SpreadingFactor::SF7 => 7,
            SpreadingFactor::SF8 => 8,
            SpreadingFactor::SF9 => 9,
            SpreadingFactor::SF10 => 10,
            SpreadingFactor::SF11 => 11,
            SpreadingFactor::SF12 => 12,
        }
    }

    /// The value with the given 4-bit code, or `None` for a code that
    /// stands for no value.
    pub fn from_code(code: u8) -> (v: Option<Self>)
        ensures
            v matches Some(x) ==> spreading_factor_code(x) == code,
            v is None <==> !spreading_factor_code_is_defined(code),
    {
        if code == 6 {
            Some(SpreadingFactor::SF6)
        } else if code == 7 {
            Some(SpreadingFactor::SF7)
        } else if code == 8 {
            Some(SpreadingFactor::SF8)
        } else if code == 9 {
            Some(SpreadingFactor::SF9)
        } else if code == 10 {
            Some(SpreadingFactor::SF10)
        } else if code == 11 {
            Some(SpreadingFactor::SF11)
        } else if code == 12 {
            Some(SpreadingFactor::SF12)
        } else {
            None
        }
    }
}

/// Single packet or continuous transmission (RegModemConfig2 bit 3).
#[derive(Debug, Clone, Copy, PartialEq, Eq, Structural)]
pub enum TxMode {
    Normal,
    Continuous,
}

/// The 1-bit code of a `TxMode`.
pub open spec fn tx_mode_code(v: TxMode) -> u8 {
    match v {
        TxMode::Normal => 0,
        TxMode::Continuous => 1,
    }
}

impl TxMode {
    /// The 1-bit code of this value.
    pub fn code(self) -> (c: u8)
        ensures
            c == tx_mode_code(self),
            c < 2,
    {
        match self {
            TxMode::Normal => 0,
            TxMode::Continuous => 1,
        }
    }

    /// The value with the given 1-bit code.
    pub fn from_code(code: u8) -> (v: Self)
        requires
            code < 2,
        ensures
            tx_mode_code(v) == code,
    {
        if code == 0 {
            TxMode::Normal
        } else {
            TxMode::Continuous
        }
    }
}

/// RegOpMode: modulation, frequency band and transceiver mode.
#[derive(Debug, Clone, Copy, PartialEq, Eq, Structural)]
pub struct RegOpMode {
    raw: u8,
}

impl RegOpMode {
    /// The register's byte.
    pub closed spec fn bits(&self) -> u8 {
        self.raw
    }

    /// All bits clear.
    pub fn zero() -> (r: Self)
        ensures
            r.bits() == 0,
    {
        Self { raw: 0 }
    }

    /// The register holding `raw`.
    pub fn new_with_raw_value(raw: u8) -> (r: Self)
        ensures
            r.bits() == raw,
    {
        Self { raw }
    }

    /// The register's byte.
    pub fn raw_value(&self) -> (v: u8)
        ensures
            v == self.bits(),
    {
        self.raw
    }

    /// The register with the long range mode field (bits 7 to 7) set, the rest kept.
    pub fn with_long_range_mode(self, value: LongRangeMode) -> (r: Self)
        ensures
            field_value(r.bits(), 7, 1) == long_range_mode_code(value),
            forall|j: u8| j < 8 && !in_field(j, 7, 1) ==> bit_is_set(r.bits(), j) == bit_is_set(self.bits(), j),
            r.bits() == (self.bits() & !(low_mask(1) << 7u8)) | (long_range_mode_code(value) << 7u8),
    {
        let code = value.code();
        proof { lemma_u8_bit_weights(); }
        Self { raw: with_field(self.raw, 7, 1, code) }
    }

    /// The long range mode field (bits 7 to 7).
    pub fn long_range_mode(&self) -> (v: LongRangeMode)
        ensures
            long_range_mode_code(v) == field_value(self.bits(), 7, 1),
    {
        proof { lemma_u8_bit_weights(); }
        LongRangeMode::from_code(get_field(self.raw, 7, 1))
    }

    /// The register with the frequency mode field (bits 3 to 3) set, the rest kept.
    pub fn with_frequency_mode(self, value: FrequencyMode) -> (r: Self)
        ensures
            field_value(r.bits(), 3, 1) == frequency_mode_code(value),
            forall|j: u8| j < 8 && !in_field(j, 3, 1) ==> bit_is_set(r.bits(), j) == bit_is_set(self.bits(), j),
            r.bits() == (self.bits() & !(low_mask(1) << 3u8)) | (frequency_mode_code(value) << 3u8),
    {
        let code = value.code();
        proof { lemma_u8_bit_weights(); }
        Self { raw: with_field(self.raw, 3, 1, code) }
    }

    /// The frequency mode field (bits 3 to 3).
    pub fn frequency_mode(&self) -> (v: FrequencyMode)
        ensures
            frequency_mode_code(v) == field_value(self.bits(), 3, 1),
    {
        proof { lemma_u8_bit_weights(); }
        FrequencyMode::from_code(get_field(self.raw, 3, 1))
    }

    /// The register with the device mode field (bits 0 to 2) set, the rest kept.
    pub fn with_device_mode(self, value: DeviceMode) -> (r: Self)
        ensures
            field_value(r.bits(), 0, 3) == device_mode_code(value),
            forall|j: u8| j < 8 && !in_field(j, 0, 3) ==> bit_is_set(r.bits(), j) == bit_is_set(self.bits(), j),
            r.bits() == (self.bits() & !(low_mask(3) << 0u8)) | (device_mode_code(value) << 0u8),
    {
        let code = value.code();
        proof { lemma_u8_bit_weights(); }
        Self { raw: with_field(self.raw, 0, 3, code) }
    }

    /// The device mode field (bits 0 to 2).
    pub fn device_mode(&self) -> (v: DeviceMode)
        ensures
            device_mode_code(v) == field_value(self.bits(), 0, 3),
    {
        proof { lemma_u8_bit_weights(); }
        DeviceMode::from_code(get_field(self.raw, 0, 3))
    }
}

/// RegPaConfig: power amplifier output pin and power.
#[derive(Debug, Clone, Copy, PartialEq, Eq, Structural)]
pub struct RegPaConfig {
    raw: u8,
}

impl RegPaConfig {
    /// The register's byte.
    pub closed spec fn bits(&self) -> u8 {
        self.raw
    }

    /// All bits clear.
    pub fn zero() -> (r: Self)
        ensures
            r.bits() == 0,
    {
        Self { raw: 0 }
    }

    /// The register holding `raw`.
    pub fn new_with_raw_value(raw: u8) -> (r: Self)
        ensures
            r.bits() == raw,
    {
        Self { raw }
    }

    /// The register's byte.
    pub fn raw_value(&self) -> (v: u8)
        ensures
            v == self.bits(),
    {
        self.raw
    }

    /// The register with the pa select field (bits 7 to 7) set, the rest kept.
    pub fn with_pa_select(self, value: PaSelect) -> (r: Self)
        ensures
            field_value(r.bits(), 7, 1) == pa_select_code(value),
            forall|j: u8| j < 8 && !in_field(j, 7, 1) ==> bit_is_set(r.bits(), j) == bit_is_set(self.bits(), j),
            r.bits() == (self.bits() & !(low_mask(1) << 7u8)) | (pa_select_code(value) << 7u8),
    {
        let code = value.code();
        proof { lemma_u8_bit_weights(); }
        Self { raw: with_field(self.raw, 7, 1, code) }
    }

    /// The pa select field (bits 7 to 7).
    pub fn pa_select(&self) -> (v: PaSelect)
        ensures
            pa_select_code(v) == field_value(self.bits(), 7, 1),
    {
        proof { lemma_u8_bit_weights(); }
        PaSelect::from_code(get_field(self.raw, 7, 1))
    }

    /// The register with the max power field (bits 4 to 6) set, the rest kept.
    pub fn with_max_power(self, value: u8) -> (r: Self)
        requires
            value < 8,
        ensures
            field_value(r.bits(), 4, 3) == value,
            forall|j: u8| j < 8 && !in_field(j, 4, 3) ==> bit_is_set(r.bits(), j) == bit_is_set(self.bits(), j),
            r.bits() == (self.bits() & !(low_mask(3) << 4u8)) | (value << 4u8),
    {
        let code = value;
        proof { lemma_u8_bit_weights(); }
        Self { raw: with_field(self.raw, 4, 3, code) }
    }

    /// The max power field (bits 4 to 6).
    pub fn max_power(&self) -> (v: u8)
        ensures
            v == field_value(self.bits(), 4, 3),
    {
        get_field(self.raw, 4, 3)
    }

    /// The register with the output power field (bits 0 to 3) set, the rest kept.
    pub fn with_output_power(self, value: u8) -> (r: Self)
        requires
            value < 16,
        ensures
            field_value(r.bits(), 0, 4) == value,
            forall|j: u8| j < 8 && !in_field(j, 0, 4) ==> bit_is_set(r.bits(), j) == bit_is_set(self.bits(), j),
            r.bits() == (self.bits() & !(low_mask(4) << 0u8)) | (value << 0u8),
    {
        let code = value;
        proof { lemma_u8_bit_weights(); }
        Self { raw: with_field(self.raw, 0, 4, code) }
    }

    /// The output power field (bits 0 to 3).
    pub fn output_power(&self) -> (v: u8)
        ensures
            v == field_value(self.bits(), 0, 4),
    {
        get_field(self.raw, 0, 4)
    }
}

/// RegModemConfig1: bandwidth, coding rate and header mode.
#[derive(Debug, Clone, Copy, PartialEq, Eq, Structural)]
pub struct RegModemConfig1 {
    raw: u8,
}

impl RegModemConfig1 {
    /// The register's byte.
    pub closed spec fn bits(&self) -> u8 {
        self.raw
    }

    /// All bits clear.
    pub fn zero() -> (r: Self)
        ensures
            r.bits() == 0,
    {
        Self { raw: 0 }
    }

    /// The register holding `raw`.
    pub fn new_with_raw_value(raw: u8) -> (r: Self)
        ensures
            r.bits() == raw,
    {
        Self { raw }
    }

    /// The register's byte.
    pub fn raw_value(&self) -> (v: u8)
        ensures
            v == self.bits(),
    {
        self.raw
    }

    /// The register with the bandwidth field (bits 4 to 7) set, the rest kept.
    pub fn with_bandwidth(self, value: BandWidth) -> (r: Self)
        ensures
            field_value(r.bits(), 4, 4) == band_width_code(value),
            forall|j: u8| j < 8 && !in_field(j, 4, 4) ==> bit_is_set(r.bits(), j) == bit_is_set(self.bits(), j),
            r.bits() == (self.bits() & !(low_mask(4) << 4u8)) | (band_width_code(value) << 4u8),
    {
        let code = value.code();
        proof { lemma_u8_bit_weights(); }
        Self { raw: with_field(self.raw, 4, 4, code) }
    }

    /// The bandwidth field (bits 4 to 7), or `None` for a code that stands for no value.
    pub fn bandwidth(&self) -> (v: Option<BandWidth>)
        ensures
            v matches Some(x) ==> band_width_code(x) == field_value(self.bits(), 4, 4),
            v is None <==> !band_width_code_is_defined(field_value(self.bits(), 4, 4)),
    {
        BandWidth::from_code(get_field(self.raw, 4, 4))
    }

    /// The register with the coding rate field (bits 1 to 3) set, the rest kept.
    pub fn with_coding_rate(self, value: CodingRate) -> (r: Self)
        ensures
            field_value(r.bits(), 1, 3) == coding_rate_code(value),
            forall|j: u8| j < 8 && !in_field(j, 1, 3) ==> bit_is_set(r.bits(), j) == bit_is_set(self.bits(), j),
            r.bits() == (self.bits() & !(low_mask(3) << 1u8)) | (coding_rate_code(value) << 1u8),
    {
        let code = value.code();
        proof { lemma_u8_bit_weights(); }
        Self { raw: with_field(self.raw, 1, 3, code) }
    }

    /// The coding rate field (bits 1 to 3), or `None` for a code that stands for no value.
    pub fn coding_rate(&self) -> (v: Option<CodingRate>)
        ensures
            v matches Some(x) ==> coding_rate_code(x) == field_value(self.bits(), 1, 3),
            v is None <==> !coding_rate_code_is_defined(field_value(self.bits(), 1, 3)),
    {
        CodingRate::from_code(get_field(self.raw, 1, 3))
    }

    /// The register with the header mode field (bits 0 to 0) set, the rest kept.
    pub fn with_header_mode(self, value: HeaderMode) -> (r: Self)
        ensures
            field_value(r.bits(), 0, 1) == header_mode_code(value),
            forall|j: u8| j < 8 && !in_field(j, 0, 1) ==> bit_is_set(r.bits(), j) == bit_is_set(self.bits(), j),
            r.bits() == (self.bits() & !(low_mask(1) << 0u8)) | (header_mode_code(value) << 0u8),
    {
        let code = value.code();
        proof { lemma_u8_bit_weights(); }
        Self { raw: with_field(self.raw, 0, 1, code) }
    }

    /// The header mode field (bits 0 to 0).
    pub fn header_mode(&self) -> (v: HeaderMode)
        ensures
            header_mode_code(v) == field_value(self.bits(), 0, 1),
    {
        proof { lemma_u8_bit_weights(); }
        HeaderMode::from_code(get_field(self.raw, 0, 1))
    }
}

/// RegModemConfig2: spreading factor, transmission mode, CRC and the upper bits of the symbol timeout.
#[derive(Debug, Clone, Copy, PartialEq, Eq, Structural)]
pub struct RegModemConfig2 {
    raw: u8,
}

impl RegModemConfig2 {
    /// The register's byte.
    pub closed spec fn bits(&self) -> u8 {
        self.raw
    }

    /// All bits clear.
    pub fn zero() -> (r: Self)
        ensures
            r.bits() == 0,
    {
        Self { raw: 0 }
    }

    /// The register holding `raw`.
    pub fn new_with_raw_value(raw: u8) -> (r: Self)
        ensures
            r.bits() == raw,
    {
        Self { raw }
    }

    /// The register's byte.
    pub fn raw_value(&self) -> (v: u8)
        ensures
            v == self.bits(),
    {
        self.raw
    }

    /// The register with the spreading factor field (bits 4 to 7) set, the rest kept.
    pub fn with_spreading_factor(self, value: SpreadingFactor) -> (r: Self)
        ensures
            field_value(r.bits(), 4, 4) == spreading_factor_code(value),
            forall|j: u8| j < 8 && !in_field(j, 4, 4) ==> bit_is_set(r.bits(), j) == bit_is_set(self.bits(), j),
            r.bits() == (self.bits() & !(low_mask(4) << 4u8)) | (spreading_factor_code(value) << 4u8),
    {
        let code = value.code();
        proof { lemma_u8_bit_weights(); }
        Self { raw: with_field(self.raw, 4, 4, code) }
    }

    /// The spreading factor field (bits 4 to 7), or `None` for a code that stands for no value.
    pub fn spreading_factor(&self) -> (v: Option<SpreadingFactor>)
        ensures
            v matches Some(x) ==> spreading_factor_code(x) == field_value(self.bits(), 4, 4),
            v is None <==> !spreading_factor_code_is_defined(field_value(self.bits(), 4, 4)),
    {
        SpreadingFactor::from_code(get_field(self.raw, 4, 4))
    }

    /// The register with the tx mode field (bits 3 to 3) set, the rest kept.
    pub fn with_tx_mode(self, value: TxMode) -> (r: Self)
        ensures
            field_value(r.bits(), 3, 1) == tx_mode_code(value),
            forall|j: u8| j < 8 && !in_field(j, 3, 1) ==> bit_is_set(r.bits(), j) == bit_is_set(self.bits(), j),
            r.bits() == (self.bits() & !(low_mask(1) << 3u8)) | (tx_mode_code(value) << 3u8),
    {
        let code = value.code();
        proof { lemma_u8_bit_weights(); }
        Self { raw: with_field(self.raw, 3, 1, code) }
    }

    /// The tx mode field (bits 3 to 3).
    pub fn tx_mode(&self) -> (v: TxMode)
        ensures
            tx_mode_code(v) == field_value(self.bits(), 3, 1),
    {
        proof { lemma_u8_bit_weights(); }
        TxMode::from_code(get_field(self.raw, 3, 1))
    }

    /// Whether the payload crc bit (bit 2) is set.
    pub fn payload_crc(&self) -> (b: bool)
        ensures
            b == bit_is_set(self.bits(), 2),
    {
        get_bit(self.raw, 2)
    }

    /// The register with the payload crc bit set to `value`, the rest kept.
    pub fn with_payload_crc(self, value: bool) -> (r: Self)
        ensures
            bit_is_set(r.bits(), 2) == value,
            forall|j: u8| j < 8 && j != 2 ==> bit_is_set(r.bits(), j) == bit_is_set(self.bits(), j),
            r.bits() == if value {
                self.bits() | (1u8 << 2u8)
            } else {
                self.bits() & !(1u8 << 2u8)
            },
    {
        Self { raw: with_bit(self.raw, 2, value) }
    }

    /// The register with the symb timeout msb field (bits 0 to 1) set, the rest kept.
    pub fn with_symb_timeout_msb(self, value: u8) -> (r: Self)
        requires
            value < 4,
        ensures
            field_value(r.bits(), 0, 2) == value,
            forall|j: u8| j < 8 && !in_field(j, 0, 2) ==> bit_is_set(r.bits(), j) == bit_is_set(self.bits(), j),
            r.bits() == (self.bits() & !(low_mask(2) << 0u8)) | (value << 0u8),
    {
        let code = value;
        proof { lemma_u8_bit_weights(); }
        Self { raw: with_field(self.raw, 0, 2, code) }
    }

    /// The symb timeout msb field (bits 0 to 1).
    pub fn symb_timeout_msb(&self) -> (v: u8)
        ensures
            v == field_value(self.bits(), 0, 2),
    {
        get_field(self.raw, 0, 2)
    }
}

/// The register setting of a carrier frequency: the frequency in steps of
/// 61.035 Hz.
#[derive(Debug, Clone, Copy, PartialEq, Eq, Structural)]
pub struct CarrierFrequency {
    register_value: u32,
}

/// The three bytes of the frequency registers, most significant first: the
/// low 24 bits of a register value.
pub open spec fn frequency_bytes(v: u32) -> Seq<u8> {
    seq![((v / 65536) % 256) as u8, ((v / 256) % 256) as u8, (v % 256) as u8]
}

/// The frequency bytes, read most significant first, give back the low 24
/// bits of the register value.
pub proof fn lemma_frequency_bytes_big_endian(v: u32)
    ensures
        frequency_bytes(v).len() == 3,
        frequency_bytes(v)[0] * 65536 + frequency_bytes(v)[1] * 256 + frequency_bytes(v)[2] == v
            % 0x100_0000,
{
    let b = frequency_bytes(v);
    assert(b[0] * 65536 + b[1] * 256 + b[2] == v % 0x100_0000) by (nonlinear_arith)
        requires
            b[0] == (v / 65536) % 256,
            b[1] == (v / 256) % 256,
            b[2] == v % 256,
            0 <= v,
    ;
}

impl CarrierFrequency {
    /// The register value.
    pub closed spec fn value(&self) -> u32 {
        self.register_value
    }

    /// The setting with the given register value.
    pub fn from_register_value(register_value: u32) -> (f: Self)
        ensures
            f.value() == register_value,
    {
        Self { register_value }
    }

    /// The bytes of the frequency registers, most significant first: bytes 1
    /// to 3 of the big-endian register value.
    pub fn register_bytes(&self) -> (b: [u8; 3])
        ensures
            b@ == frequency_bytes(self.value()),
    {
        let v = self.register_value;
        let b0 = ((v >> 16) & 0xff) as u8;
        let b1 = ((v >> 8) & 0xff) as u8;
        let b2 = (v & 0xff) as u8;
        assert(b0 == (v / 65536) % 256 && b1 == (v / 256) % 256 && b2 == v % 256) by (bit_vector)
            requires
                b0 == ((v >> 16) & 0xff) as u8,
                b1 == ((v >> 8) & 0xff) as u8,
                b2 == (v & 0xff) as u8,
        ;
        let b = [b0, b1, b2];
        assert(b@ =~= frequency_bytes(v));
        b
    }
}

/// The SPI frame that writes `value` to the register at `address`.
pub fn register_write_frame(address: u8, value: u8) -> (f: [u8; 2])
    ensures
        f@ == seq![address | WRITE_FLAG, value],
{
    let f = [address | WRITE_FLAG, value];
    assert(f@ =~= seq![address | WRITE_FLAG, value]);
    f
}

/// The SPI frame that reads the register at `address`; the value comes back
/// in its second byte.
pub fn register_read_frame(address: u8) -> (f: [u8; 2])
    ensures
        f@ == seq![address, 0u8],
{
    let f = [address, 0u8];
    assert(f@ =~= seq![address, 0u8]);
    f
}

/// The SPI frame that writes the carrier frequency registers.
pub fn frequency_write_frame(frequency: &CarrierFrequency) -> (f: [u8; 4])
    ensures
        f@ == seq![CARRIER_FREQUENCY_MSB | WRITE_FLAG] + frequency_bytes(frequency.value()),
{
    let b = frequency.register_bytes();
    let f = [CARRIER_FREQUENCY_MSB | WRITE_FLAG, b[0], b[1], b[2]];
    assert(f@ =~= seq![CARRIER_FREQUENCY_MSB | WRITE_FLAG] + frequency_bytes(frequency.value()));
    f
}

/// The first SPI frame of a FIFO write; the payload follows in the same transfer.
pub fn fifo_write_header() -> (f: [u8; 1])
    ensures
        f@ == seq![FIFO | WRITE_FLAG],
{
    let f = [FIFO | WRITE_FLAG];
    assert(f@ =~= seq![FIFO | WRITE_FLAG]);
    f
}

/// How much of a payload of `len` bytes is sent: all of it, or the first
/// 255 bytes of a longer one.
pub fn trimmed_payload_len(len: usize) -> (n: usize)
    ensures
        n == if len < FIFO_SIZE {
            len
        } else {
            FIFO_SIZE
        },
{
    if len >= FIFO_SIZE {
        FIFO_SIZE
    } else {
        len
    }
}

/// RegOpMode with only the transceiver mode changed.
pub fn with_device_mode(current: RegOpMode, mode: DeviceMode) -> (r: RegOpMode)
    ensures
        field_value(r.bits(), 0, 3) == device_mode_code(mode),
        forall|j: u8| j < 8 && !in_field(j, 0, 3) ==> bit_is_set(r.bits(), j) == bit_is_set(current.bits(), j),
{
    current.with_device_mode(mode)
}

/// RegOpMode at start-up: LoRa, high-frequency band, asleep.
pub fn initial_op_mode() -> (r: RegOpMode)
    ensures
        r.bits() == 0x80,
{
    let r1 = RegOpMode::zero().with_long_range_mode(LongRangeMode::LoRa);
    let r2 = r1.with_frequency_mode(FrequencyMode::HighFrequencyMode);
    let r3 = r2.with_device_mode(DeviceMode::Sleep);
    let (v1, v2, v3) = (r1.raw_value(), r2.raw_value(), r3.raw_value());
    assert(v3 == 0x80) by (bit_vector)
        requires
            v1 == (0u8 & !(low_mask(1) << 7u8)) | (1u8 << 7u8),
            v2 == (v1 & !(low_mask(1) << 3u8)) | (0u8 << 3u8),
            v3 == (v2 & !(low_mask(3) << 0u8)) | (0u8 << 0u8),
    ;
    r3
}

/// RegModemConfig1 at start-up: 250 kHz, coding rate 4/5, explicit header.
pub fn initial_modem_config1() -> (r: RegModemConfig1)
    ensures
        r.bits() == 0x82,
{
    let r1 = RegModemConfig1::zero().with_bandwidth(BandWidth::Khz250);
    let r2 = r1.with_coding_rate(CodingRate::Cr4_5);
    let r3 = r2.with_header_mode(HeaderMode::Explicit);
    let (v1, v2, v3) = (r1.raw_value(), r2.raw_value(), r3.raw_value());
    assert(v3 == 0x82) by (bit_vector)
        requires
            v1 == (0u8 & !(low_mask(4) << 4u8)) | (8u8 << 4u8),
            v2 == (v1 & !(low_mask(3) << 1u8)) | (1u8 << 1u8),
            v3 == (v2 & !(low_mask(1) << 0u8)) | (0u8 << 0u8),
    ;
    r3
}

/// RegModemConfig2 at start-up: spreading factor 11, single packets, no CRC,
/// symbol timeout upper bits zero.
pub fn initial_modem_config2() -> (r: RegModemConfig2)
    ensures
        r.bits() == 0xb0,
{
    let r1 = RegModemConfig2::zero().with_spreading_factor(SpreadingFactor::SF11);
    let r2 = r1.with_tx_mode(TxMode::Normal);
    let r3 = r2.with_payload_crc(false);
    let r4 = r3.with_symb_timeout_msb(0);
    let (v1, v2, v3, v4) = (r1.raw_value(), r2.raw_value(), r3.raw_value(), r4.raw_value());
    assert(v4 == 0xb0) by (bit_vector)
        requires
            v1 == (0u8 & !(low_mask(4) << 4u8)) | (11u8 << 4u8),
            v2 == (v1 & !(low_mask(1) << 3u8)) | (0u8 << 3u8),
            v3 == v2 & !(1u8 << 2u8),
            v4 == (v3 & !(low_mask(2) << 0u8)) | (0u8 << 0u8),
    ;
    r4
}

/// RegPaConfig at start-up: PA_BOOST pin, output power 12.
pub fn initial_pa_config() -> (r: RegPaConfig)
    ensures
        r.bits() == 0x8c,
{
    let r1 = RegPaConfig::zero().with_pa_select(PaSelect::PaBoost);
    let r2 = r1.with_max_power(0);
    let r3 = r2.with_output_power(12);
    let (v1, v2, v3) = (r1.raw_value(), r2.raw_value(), r3.raw_value());
    assert(v3 == 0x8c) by (bit_vector)
        requires
            v1 == (0u8 & !(low_mask(1) << 7u8)) | (1u8 << 7u8),
            v2 == (v1 & !(low_mask(3) << 4u8)) | (0u8 << 4u8),
            v3 == (v2 & !(low_mask(4) << 0u8)) | (12u8 << 0u8),
    ;
    r3
}

} // verus!
