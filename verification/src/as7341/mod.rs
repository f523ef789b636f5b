//! AS7341 spectral sensor: pixel-to-ADC routing (SMUX), registers, the bytes
//! written to and read from the device, and the polling decisions.

pub mod integration_time;

use std::time::Duration;
use vstd::prelude::*;
use vstd::arithmetic::power2::{lemma2_to64, pow2};
use crate::bits::{bit_is_set, get_bit, with_bit};
use crate::bytes::{le_u16, u16_from_le};
use self::integration_time::TimingSettings;

verus! {

/// I2C address of the AS7341.
pub const AS7341_ADDRESS: u8 = 0x39;

/// First SMUX configuration register.
pub const SMUX_START_ADDRESS: u8 = 0x00;

/// ENABLE register.
pub const ENABLE_ADDRESS: u8 = 0x80;

/// ATIME register.
pub const ATIME_ADDRESS: u8 = 0x81;

/// WTIME register.
pub const WTIME_ADDRESS: u8 = 0x83;

/// First channel data register; the channel block is read from here.
pub const CH0_DATA_L_ADDRESS: u8 = 0x95;

/// CFG1 register (gain).
pub const CFG1_ADDRESS: u8 = 0xaa;

/// CFG6 register (SMUX command).
pub const CFG6_ADDRESS: u8 = 0xaf;

/// Low byte of ASTEP.
pub const ASTEP_L_ADDRESS: u8 = 0xca;

/// AZ_CFG register (auto-zero frequency).
pub const AZ_CFG_ADDRESS: u8 = 0xd6;

/// Number of SMUX configuration bytes.
pub const SMUX_CONFIG_LEN: usize = 20;

/// Number of bytes in the channel data block (CH0_DATA_L up to STATUS3).
pub const CHANNEL_DATA_LEN: usize = 16;

/// Half of an SMUX configuration byte.
#[derive(Debug, Clone, Copy, PartialEq, Eq, Structural)]
pub enum Nibble {
    Lower,
    Upper,
}

/// The ADC that a pixel is routed to, or none.
#[derive(Debug, Clone, Copy, PartialEq, Eq, Structural)]
pub enum Adc {
    Disabled,
    Adc0,
    Adc1,
    Adc2,
    Adc3,
    Adc4,
    Adc5,
}

/// The SMUX code of an ADC.
pub open spec fn adc_code(adc: Adc) -> u8 {
    match adc {
        Adc::Disabled => 0,
        Adc::Adc0 => 1,
        Adc::Adc1 => 2,
        Adc::Adc2 => 3,
        Adc::Adc3 => 4,
        Adc::Adc4 => 5,
        Adc::Adc5 => 6,
    }
}

/// The number of the ADC that a value names, `None` when disabled.
pub open spec fn adc_number(adc: Adc) -> Option<nat> {
    match adc {
        Adc::Disabled => None,
        Adc::Adc0 => Some(0),
        Adc::Adc1 => Some(1),
        Adc::Adc2 => Some(2),
        Adc::Adc3 => Some(3),
        Adc::Adc4 => Some(4),
        Adc::Adc5 => Some(5),
    }
}

/// SMUX code 0 routes a pixel nowhere; code `n + 1` routes it to ADC `n`.
pub proof fn lemma_adc_code_numbering(adc: Adc)
    ensures
        adc_code(adc) == 0 <==> adc_number(adc) is None,
        adc_number(adc) is Some ==> adc_code(adc) == adc_number(adc)->Some_0 + 1,
{
}

impl Adc {
    /// The SMUX code of this ADC.
    pub fn code(self) -> (c: u8)
        ensures
            c == adc_code(self),
            c < 16,
    {
        match self {
            Adc::Disabled => 0,
            Adc::Adc0 => 1,
            Adc::Adc1 => 2,
            Adc::Adc2 => 3,
            Adc::Adc3 => 4,
            Adc::Adc4 => 5,
            Adc::Adc5 => 6,
        }
    }
}

/// A photodiode of the sensor, by its number.
#[derive(Debug, Clone, Copy, PartialEq, Eq, Structural)]
pub struct Pixel {
    id: u8,
}

/// The SMUX byte that holds the routing of pixel `id`.
pub open spec fn pixel_byte_index(id: u8) -> int {
    id as int / 2
}

/// The half of its SMUX byte that holds the routing of pixel `id`.
pub open spec fn pixel_nibble(id: u8) -> Nibble {
    if id % 2 == 0 {
        Nibble::Lower
    } else {
        Nibble::Upper
    }
}

/// The numbers of a sequence of pixels.
pub open spec fn pixel_ids(pixels: Seq<Pixel>) -> Seq<u8> {
    pixels.map_values(|p: Pixel| p.id_value())
}

impl Pixel {
    /// The pixel's number.
    pub closed spec fn id_value(&self) -> u8 {
        self.id
    }

    /// The pixel with the given number.
    pub fn new(id: u8) -> (p: Self)
        ensures
            p.id_value() == id,
    {
        Self { id }
    }

    /// Where the pixel's routing is stored: the SMUX byte and its half.
    pub fn addr(&self) -> (a: (usize, Nibble))
        ensures
            a.0 == pixel_byte_index(self.id_value()),
            a.1 == pixel_nibble(self.id_value()),
    {
        let i2c_address = (self.id / 2) as usize;
        let nibble = if self.id % 2 == 0 {
            Nibble::Lower
        } else {
            Nibble::Upper
        };
        (i2c_address, nibble)
    }
}

/// `byte` with the given half replaced by `value` (which fits in four bits).
pub open spec fn with_nibble(byte: u8, nibble: Nibble, value: u8) -> int {
    match nibble {
        Nibble::Lower => (byte as int / 16) * 16 + value,
        Nibble::Upper => value * 16 + byte as int % 16,
    }
}

/// The half `nibble` of `byte`.
pub open spec fn nibble_of(byte: u8, nibble: Nibble) -> int {
    match nibble {
        Nibble::Lower => byte as int % 16,
        Nibble::Upper => byte as int / 16,
    }
}

/// SMUX bytes after routing pixel `id` to `adc`.
pub open spec fn connect_one(bytes: Seq<u8>, id: u8, adc: Adc) -> Seq<u8> {
    let i = pixel_byte_index(id);
    bytes.update(i, with_nibble(bytes[i], pixel_nibble(id), adc_code(adc)) as u8)
}

/// SMUX bytes after routing the pixels `ids`, first to last, to `adc`.
pub open spec fn connect_all(bytes: Seq<u8>, ids: Seq<u8>, adc: Adc) -> Seq<u8>
    decreases ids.len(),
{
    if ids.len() == 0 {
        bytes
    } else {
        connect_one(connect_all(bytes, ids.drop_last(), adc), ids.last(), adc)
    }
}

/// Which ADC each of the 40 pixel slots is routed to: the 20 bytes of the
/// SMUX configuration, two pixels per byte.
#[derive(Clone, Copy, Debug)]
pub struct PixelConnections {
    raw_bytes: [u8; 20],
}

impl View for PixelConnections {
    type V = Seq<u8>;

    closed spec fn view(&self) -> Seq<u8> {
        self.raw_bytes@
    }
}

/// The SMUX configuration always has 20 bytes.
pub proof fn lemma_pixel_connections_len(c: PixelConnections)
    ensures
        c@.len() == 20,
{
}

impl PixelConnections {
    /// No pixel routed anywhere: all bytes zero.
    pub fn empty() -> (c: Self)
        ensures
            c@ == Seq::new(20, |i: int| 0u8),
    {
        let c = Self { raw_bytes: [0u8; 20] };
        assert(c@ =~= Seq::new(20, |i: int| 0u8));
        c
    }

    /// The SMUX configuration bytes.
    pub fn as_bytes(&self) -> (b: &[u8; 20])
        ensures
            b@ == self@,
    {
        &self.raw_bytes
    }

    /// Routes `pixel` to `adc`, leaving every other pixel's routing as it was.
    pub fn connect_pixel(&mut self, pixel: Pixel, adc: Adc)
        requires
            pixel.id_value() < 40,
        ensures
            final(self)@ == connect_one(old(self)@, pixel.id_value(), adc),
    {
        let (i2c_address, nibble) = pixel.addr();
        let current_byte_value = self.raw_bytes[i2c_address];
        let code = adc.code();
        let new_byte_value = match nibble {
            Nibble::Lower => {
                let v = (current_byte_value & 0xf0) | code;
                assert(v == (current_byte_value / 16) * 16 + code) by (bit_vector)
                    requires
                        code < 16,
                        v == (current_byte_value & 0xf0) | code,
                ;
                v
            },
            Nibble::Upper => {
                let v = (current_byte_value & 0x0f) | (code << 4);
                assert(v == code * 16 + current_byte_value % 16) by (bit_vector)
                    requires
                        code < 16,
                        v == (current_byte_value & 0x0f) | (code << 4),
                ;
                v
            },
        };
        self.raw_bytes[i2c_address] = new_byte_value;
    }

    /// Routes each of `pixels`, first to last, to `adc`.
    pub fn connect_pixels(self, pixels: &[Pixel], adc: Adc) -> (c: Self)
        requires
            forall|i: int| 0 <= i < pixels@.len() ==> (#[trigger] pixel_ids(pixels@)[i]) < 40,
        ensures
            c@ == connect_all(self@, pixel_ids(pixels@), adc),
    {
        let mut c = self;
        let mut i: usize = 0;
        while i < pixels.len()
            invariant
                i <= pixels@.len(),
                forall|k: int| 0 <= k < pixels@.len() ==> (#[trigger] pixel_ids(pixels@)[k]) < 40,
                c@ == connect_all(self@, pixel_ids(pixels@.take(i as int)), adc),
            decreases pixels@.len() - i,
        {
            assert(pixel_ids(pixels@.take(i as int + 1)).drop_last() =~= pixel_ids(
                pixels@.take(i as int),
            ));
            assert(pixel_ids(pixels@)[i as int] == pixels@[i as int].id_value());
            c.connect_pixel(pixels[i], adc);
            i += 1;
        }
        assert(pixels@.take(i as int) =~= pixels@);
        c
    }

    /// F1 to F5 on ADC0 to ADC4 and NIR on ADC5.
    pub fn f1_f5_nir() -> (c: Self)
        ensures
            c@ == f1_f5_nir_bytes(),
    {
        let c = Self::empty().connect_pixels(&f1_pixels(), Adc::Adc0).connect_pixels(
            &f2_pixels(),
            Adc::Adc1,
        ).connect_pixels(&f3_pixels(), Adc::Adc2).connect_pixels(
            &f4_pixels(),
            Adc::Adc3,
        ).connect_pixels(&f5_pixels(), Adc::Adc4).connect_pixels(&nir_pixels(), Adc::Adc5);
        proof {
            reveal_with_fuel(connect_all, 3);
        }
        assert(c@ =~= f1_f5_nir_bytes());
        c
    }

    /// F6 to F8 on ADC0 to ADC2.
    pub fn f6_f8() -> (c: Self)
        ensures
            c@ == f6_f8_bytes(),
    {
        let c = Self::empty().connect_pixels(&f6_pixels(), Adc::Adc0).connect_pixels(
            &f7_pixels(),
            Adc::Adc1,
        ).connect_pixels(&f8_pixels(), Adc::Adc2);
        proof {
            reveal_with_fuel(connect_all, 3);
        }
        assert(c@ =~= f6_f8_bytes());
        c
    }

    /// F1 to F4 on ADC0 to ADC3, the clear pixels on ADC4 and NIR on ADC5.
    pub fn f1_f4_clear_nir() -> (c: Self)
        ensures
            c@ == f1_f4_clear_nir_bytes(),
    {
        let c = Self::empty().connect_pixels(&f1_pixels(), Adc::Adc0).connect_pixels(
            &f2_pixels(),
            Adc::Adc1,
        ).connect_pixels(&f3_pixels(), Adc::Adc2).connect_pixels(
            &f4_pixels(),
            Adc::Adc3,
        ).connect_pixels(&clear_pixels(), Adc::Adc4).connect_pixels(&nir_pixels(), Adc::Adc5);
        proof {
            reveal_with_fuel(connect_all, 3);
        }
        assert(c@ =~= f1_f4_clear_nir_bytes());
        c
    }

    /// F5 to F8 on ADC0 to ADC3.
    pub fn f5_f8() -> (c: Self)
        ensures
            c@ == f5_f8_bytes(),
    {
        let c = Self::empty().connect_pixels(&f5_pixels(), Adc::Adc0).connect_pixels(
            &f6_pixels(),
            Adc::Adc1,
        ).connect_pixels(&f7_pixels(), Adc::Adc2).connect_pixels(&f8_pixels(), Adc::Adc3);
        proof {
            reveal_with_fuel(connect_all, 3);
        }
        assert(c@ =~= f5_f8_bytes());
        c
    }
}

/// SMUX bytes of `PixelConnections::f1_f5_nir`.
pub open spec fn f1_f5_nir_bytes() -> Seq<u8> {
    seq![
        0x30u8, 0x01, 0x00, 0x00, 0x00, 0x42, 0x50, 0x00, 0x00, 0x50,
        0x00, 0x00, 0x20, 0x04, 0x00, 0x30, 0x01, 0x00, 0x00, 0x06,
    ]
}

/// SMUX bytes of `PixelConnections::f6_f8`.
pub open spec fn f6_f8_bytes() -> Seq<u8> {
    seq![
        0x00u8, 0x00, 0x00, 0x30, 0x01, 0x00, 0x00, 0x02, 0x00, 0x00,
        0x02, 0x00, 0x00, 0x00, 0x13, 0x00, 0x00, 0x00, 0x00, 0x00,
    ]
}

/// SMUX bytes of `PixelConnections::f1_f4_clear_nir`.
pub open spec fn f1_f4_clear_nir_bytes() -> Seq<u8> {
    seq![
        0x30u8, 0x01, 0x00, 0x00, 0x00, 0x42, 0x00, 0x00, 0x50, 0x00,
        0x00, 0x00, 0x20, 0x04, 0x00, 0x30, 0x01, 0x50, 0x00, 0x06,
    ]
}

/// SMUX bytes of `PixelConnections::f5_f8`.
pub open spec fn f5_f8_bytes() -> Seq<u8> {
    seq![
        0x00u8, 0x00, 0x00, 0x40, 0x02, 0x00, 0x10, 0x03, 0x00, 0x10,
        0x03, 0x00, 0x00, 0x00, 0x24, 0x00, 0x00, 0x00, 0x00, 0x00,
    ]
}

/// The F1 pixels.
pub fn f1_pixels() -> (p: [Pixel; 2])
    ensures
        pixel_ids(p@) == seq![2u8, 32u8],
{
    let p = [Pixel::new(2), Pixel::new(32)];
    assert(pixel_ids(p@) =~= seq![2u8, 32u8]);
    p
}

/// The F2 pixels.
pub fn f2_pixels() -> (p: [Pixel; 2])
    ensures
        pixel_ids(p@) == seq![10u8, 25u8],
{
    let p = [Pixel::new(10), Pixel::new(25)];
    assert(pixel_ids(p@) =~= seq![10u8, 25u8]);
    p
}

/// The F3 pixels.
pub fn f3_pixels() -> (p: [Pixel; 2])
    ensures
        pixel_ids(p@) == seq![1u8, 31u8],
{
    let p = [Pixel::new(1), Pixel::new(31)];
    assert(pixel_ids(p@) =~= seq![1u8, 31u8]);
    p
}

/// The F4 pixels.
pub fn f4_pixels() -> (p: [Pixel; 2])
    ensures
        pixel_ids(p@) == seq![11u8, 26u8],
{
    let p = [Pixel::new(11), Pixel::new(26)];
    assert(pixel_ids(p@) =~= seq![11u8, 26u8]);
    p
}

/// The F5 pixels.
pub fn f5_pixels() -> (p: [Pixel; 2])
    ensures
        pixel_ids(p@) == seq![13u8, 19u8],
{
    let p = [Pixel::new(13), Pixel::new(19)];
    assert(pixel_ids(p@) =~= seq![13u8, 19u8]);
    p
}

/// The F6 pixels.
pub fn f6_pixels() -> (p: [Pixel; 2])
    ensures
        pixel_ids(p@) == seq![8u8, 29u8],
{
    let p = [Pixel::new(8), Pixel::new(29)];
    assert(pixel_ids(p@) =~= seq![8u8, 29u8]);
    p
}

/// The F7 pixels.
pub fn f7_pixels() -> (p: [Pixel; 2])
    ensures
        pixel_ids(p@) == seq![14u8, 20u8],
{
    let p = [Pixel::new(14), Pixel::new(20)];
    assert(pixel_ids(p@) =~= seq![14u8, 20u8]);
    p
}

/// The F8 pixels.
pub fn f8_pixels() -> (p: [Pixel; 2])
    ensures
        pixel_ids(p@) == seq![7u8, 28u8],
{
    let p = [Pixel::new(7), Pixel::new(28)];
    assert(pixel_ids(p@) =~= seq![7u8, 28u8]);
    p
}

/// The clear pixels.
pub fn clear_pixels() -> (p: [Pixel; 2])
    ensures
        pixel_ids(p@) == seq![17u8, 35u8],
{
    let p = [Pixel::new(17), Pixel::new(35)];
    assert(pixel_ids(p@) =~= seq![17u8, 35u8]);
    p
}

/// The near-infrared pixel.
pub fn nir_pixels() -> (p: [Pixel; 1])
    ensures
        pixel_ids(p@) == seq![38u8],
{
    let p = [Pixel::new(38)];
    assert(pixel_ids(p@) =~= seq![38u8]);
    p
}


/// Routing a pixel sets the half of its SMUX byte to the ADC's code and
/// leaves the other half of that byte, and every other byte, as they were.
pub proof fn lemma_connect_one_reads_back(bytes: Seq<u8>, id: u8, adc: Adc)
    requires
        bytes.len() == 20,
        id < 40,
    ensures
        ({
            let after = connect_one(bytes, id, adc);
            let i = pixel_byte_index(id);
            let other = match pixel_nibble(id) {
                Nibble::Lower => Nibble::Upper,
                Nibble::Upper => Nibble::Lower,
            };
            &&& after.len() == 20
            &&& nibble_of(after[i], pixel_nibble(id)) == adc_code(adc)
            &&& nibble_of(after[i], other) == nibble_of(bytes[i], other)
            &&& forall|j: int| 0 <= j < 20 && j != i ==> after[j] == bytes[j]
        }),
{
    let i = pixel_byte_index(id);
    let b = bytes[i];
    let code = adc_code(adc);
    assert(code < 16);
    let nb = with_nibble(b, pixel_nibble(id), code);
    assert(0 <= nb < 256);
    assert(nibble_of(nb as u8, pixel_nibble(id)) == code);
}

/// Pixel `id` is routed by SMUX byte `id / 2`: an even pixel by its low four
/// bits, an odd one by its high four bits.
pub proof fn lemma_connect_one_places(bytes: Seq<u8>, id: u8, adc: Adc)
    requires
        bytes.len() == 20,
        id < 40,
    ensures
        connect_one(bytes, id, adc).len() == 20,
        id % 2 == 0 ==> connect_one(bytes, id, adc)[id as int / 2] % 16 == adc_code(adc)
            && connect_one(bytes, id, adc)[id as int / 2] / 16 == bytes[id as int / 2] / 16,
        id % 2 == 1 ==> connect_one(bytes, id, adc)[id as int / 2] / 16 == adc_code(adc)
            && connect_one(bytes, id, adc)[id as int / 2] % 16 == bytes[id as int / 2] % 16,
        forall|j: int|
            0 <= j < 20 && j != id as int / 2 ==> #[trigger] connect_one(bytes, id, adc)[j] == bytes[j],
{
    lemma_connect_one_reads_back(bytes, id, adc);
}

/// Gain of the ADCs (CFG1 register).
#[derive(Debug, Clone, Copy, PartialEq, Eq, Structural)]
pub enum Gain {
    X0_5,
    X1,
    X2,
    X4,
    X8,
    X16,
    X32,
    X64,
    X128,
    X256,
    X512,
}

/// The CFG1 code of a gain.
pub open spec fn gain_code(gain: Gain) -> u8 {
    match gain {
        Gain::X0_5 => 0,
        Gain::X1 => 1,
        Gain::X2 => 2,
        Gain::X4 => 3,
        Gain::X8 => 4,
        Gain::X16 => 5,
        Gain::X32 => 6,
        Gain::X64 => 7,
        Gain::X128 => 8,
        Gain::X256 => 9,
        Gain::X512 => 10,
    }
}

/// Twice the amplification of a gain: 1 for 0.5x up to 1024 for 512x.
pub open spec fn gain_times_two(gain: Gain) -> nat {
    match gain {
        Gain::X0_5 => 1,
        Gain::X1 => 2,
        Gain::X2 => 4,
        Gain::X4 => 8,
        Gain::X8 => 16,
        Gain::X16 => 32,
        Gain::X32 => 64,
        Gain::X64 => 128,
        Gain::X128 => 256,
        Gain::X256 => 512,
        Gain::X512 => 1024,
    }
}

/// Each step of the CFG1 gain code doubles the gain, from 0.5x at code 0:
/// the gain is 2^code / 2.
pub proof fn lemma_gain_code_doubles(gain: Gain)
    ensures
        pow2(gain_code(gain) as nat) == gain_times_two(gain),
{
    lemma2_to64();
}

impl Gain {
    /// The CFG1 code of this gain.
    pub fn code(self) -> (c: u8)
        ensures
            c == gain_code(self),
    {
        match self {
            Gain::X0_5 => 0,
            Gain::X1 => 1,
            Gain::X2 => 2,
            Gain::X4 => 3,
            Gain::X8 => 4,
            Gain::X16 => 5,
            Gain::X32 => 6,
            Gain::X64 => 7,
            Gain::X128 => 8,
            Gain::X256 => 9,
            Gain::X512 => 10,
        }
    }
}

/// Commands of the SMUX (CFG6 register).
#[derive(Debug, Clone, Copy, PartialEq, Eq, Structural)]
pub enum SmuxCommand {
    RomInit,
    Read,
    Write,
}

/// The CFG6 value of an SMUX command (the command sits in bits 3 and 4).
pub open spec fn smux_command_code(cmd: SmuxCommand) -> u8 {
    match cmd {
        SmuxCommand::RomInit => 0,
        SmuxCommand::Read => 8,
        SmuxCommand::Write => 16,
    }
}

impl SmuxCommand {
    /// The CFG6 value of this command.
    pub fn code(self) -> (c: u8)
        ensures
            c == smux_command_code(self),
    {
        match self {
            SmuxCommand::RomInit => 0,
            SmuxCommand::Read => 8,
            SmuxCommand::Write => 16,
        }
    }
}

/// Bit of ENABLE that powers the sensor on.
pub const POWER_ON_BIT: u8 = 0;

/// Bit of ENABLE that starts spectral measurements.
pub const SPECTRAL_MEASUREMENT_ENABLE_BIT: u8 = 1;

/// Bit of ENABLE that turns the wait between measurements on.
pub const WAIT_ENABLE_BIT: u8 = 3;

/// Bit of ENABLE that starts an SMUX command; the sensor clears it when done.
pub const SMUX_ENABLE_BIT: u8 = 4;

/// Bit of ENABLE that turns flicker detection on.
pub const FLICKER_DETECTION_ENABLE_BIT: u8 = 6;

/// Bit of STATUS2 that tells that spectral data is valid.
pub const SPECTRAL_VALID_BIT: u8 = 6;

/// The ENABLE register.
#[derive(Debug, Clone, Copy, PartialEq, Eq, Structural)]
pub struct EnableRegister {
    raw: u8,
}

impl EnableRegister {
    /// The register's byte.
    pub closed spec fn bits(&self) -> u8 {
        self.raw
    }

    /// All bits clear.
    pub fn zero() -> (r: Self)
        ensures
            r.bits() == 0,
    {
        Self { raw: 0 }
    }

    /// The register holding `raw`.
    pub fn new_with_raw_value(raw: u8) -> (r: Self)
        ensures
            r.bits() == raw,
    {
        Self { raw }
    }

    /// The register's byte.
    pub fn raw_value(&self) -> (v: u8)
        ensures
            v == self.bits(),
    {
        self.raw
    }

    /// Whether the sensor is powered on.
    pub fn power_on(&self) -> (b: bool)
        ensures
            b == bit_is_set(self.bits(), POWER_ON_BIT),
    {
        get_bit(self.raw, POWER_ON_BIT)
    }

    /// The register with the power-on bit set to `value`, all else kept.
    pub fn with_power_on(self, value: bool) -> (r: Self)
        ensures
            bit_is_set(r.bits(), POWER_ON_BIT) == value,
            forall|j: u8| j < 8 && j != POWER_ON_BIT ==> bit_is_set(r.bits(), j) == bit_is_set(self.bits(), j),
    {
        Self { raw: with_bit(self.raw, POWER_ON_BIT, value) }
    }

    /// Whether spectral measurement is enabled.
    pub fn spectral_measurement_enable(&self) -> (b: bool)
        ensures
            b == bit_is_set(self.bits(), SPECTRAL_MEASUREMENT_ENABLE_BIT),
    {
        get_bit(self.raw, SPECTRAL_MEASUREMENT_ENABLE_BIT)
    }

    /// The register with spectral measurement set to `value`, all else kept.
    pub fn with_spectral_measurement_enable(self, value: bool) -> (r: Self)
        ensures
            bit_is_set(r.bits(), SPECTRAL_MEASUREMENT_ENABLE_BIT) == value,
            forall|j: u8| j < 8 && j != SPECTRAL_MEASUREMENT_ENABLE_BIT ==> bit_is_set(r.bits(), j) == bit_is_set(self.bits(), j),
    {
        Self { raw: with_bit(self.raw, SPECTRAL_MEASUREMENT_ENABLE_BIT, value) }
    }

    /// Whether the wait between measurements is enabled.
    pub fn wait_enable(&self) -> (b: bool)
        ensures
            b == bit_is_set(self.bits(), WAIT_ENABLE_BIT),
    {
        get_bit(self.raw, WAIT_ENABLE_BIT)
    }

    /// The register with the wait enabled or not, all else kept.
    pub fn with_wait_enable(self, value: bool) -> (r: Self)
        ensures
            bit_is_set(r.bits(), WAIT_ENABLE_BIT) == value,
            forall|j: u8| j < 8 && j != WAIT_ENABLE_BIT ==> bit_is_set(r.bits(), j) == bit_is_set(self.bits(), j),
    {
        Self { raw: with_bit(self.raw, WAIT_ENABLE_BIT, value) }
    }

    /// Whether an SMUX command is running.
    pub fn smux_enable(&self) -> (b: bool)
        ensures
            b == bit_is_set(self.bits(), SMUX_ENABLE_BIT),
    {
        get_bit(self.raw, SMUX_ENABLE_BIT)
    }

    /// The register with the SMUX bit set to `value`, all else kept.
    pub fn with_smux_enable(self, value: bool) -> (r: Self)
        ensures
            bit_is_set(r.bits(), SMUX_ENABLE_BIT) == value,
            forall|j: u8| j < 8 && j != SMUX_ENABLE_BIT ==> bit_is_set(r.bits(), j) == bit_is_set(self.bits(), j),
    {
        Self { raw: with_bit(self.raw, SMUX_ENABLE_BIT, value) }
    }

    /// Whether flicker detection is enabled.
    pub fn flicker_detection_enable(&self) -> (b: bool)
        ensures
            b == bit_is_set(self.bits(), FLICKER_DETECTION_ENABLE_BIT),
    {
        get_bit(self.raw, FLICKER_DETECTION_ENABLE_BIT)
    }

    /// The register with flicker detection set to `value`, all else kept.
    pub fn with_flicker_detection_enable(self, value: bool) -> (r: Self)
        ensures
            bit_is_set(r.bits(), FLICKER_DETECTION_ENABLE_BIT) == value,
            forall|j: u8| j < 8 && j != FLICKER_DETECTION_ENABLE_BIT ==> bit_is_set(r.bits(), j) == bit_is_set(self.bits(), j),
    {
        Self { raw: with_bit(self.raw, FLICKER_DETECTION_ENABLE_BIT, value) }
    }
}

/// The STATUS2 register.
#[derive(Debug, Clone, Copy, PartialEq, Eq, Structural)]
pub struct Status2 {
    raw: u8,
}

impl Status2 {
    /// The register's byte.
    pub closed spec fn bits(&self) -> u8 {
        self.raw
    }

    /// The register holding `raw`.
    pub fn new_with_raw_value(raw: u8) -> (r: Self)
        ensures
            r.bits() == raw,
    {
        Self { raw }
    }

    /// Whether the spectral data is valid.
    pub fn spectral_valid(&self) -> (b: bool)
        ensures
            b == bit_is_set(self.bits(), SPECTRAL_VALID_BIT),
    {
        get_bit(self.raw, SPECTRAL_VALID_BIT)
    }
}

/// The block of channel registers, from CH0_DATA_L to STATUS3.
#[derive(Debug, Clone, Copy, PartialEq, Eq, Structural)]
pub struct ChannelData {
    pub ch0_data: u16,
    pub ch1_data: u16,
    pub ch2_data: u16,
    pub ch3_data: u16,
    pub ch4_data: u16,
    pub ch5_data: u16,
    pub reserved0: u8,
    pub reserved1: u8,
    pub status2: u8,
    pub status3: u8,
}

/// The channel block that `bytes` (as read from CH0_DATA_L on) hold: six
/// little-endian counts, two reserved bytes, STATUS2 and STATUS3.
pub open spec fn channel_data_from(bytes: Seq<u8>) -> ChannelData {
    ChannelData {
        ch0_data: le_u16(bytes[0], bytes[1]) as u16,
        ch1_data: le_u16(bytes[2], bytes[3]) as u16,
        ch2_data: le_u16(bytes[4], bytes[5]) as u16,
        ch3_data: le_u16(bytes[6], bytes[7]) as u16,
        ch4_data: le_u16(bytes[8], bytes[9]) as u16,
        ch5_data: le_u16(bytes[10], bytes[11]) as u16,
        reserved0: bytes[12],
        reserved1: bytes[13],
        status2: bytes[14],
        status3: bytes[15],
    }
}

/// The count of channel `k` (0 to 5) is the little-endian word at bytes `2k`
/// and `2k + 1` of the block read from CH0_DATA_L on; the two reserved bytes,
/// STATUS2 and STATUS3 follow.
pub proof fn lemma_channel_data_layout(bytes: Seq<u8>)
    requires
        bytes.len() == 16,
    ensures
        channel_data_from(bytes).ch0_data == bytes[0] + 256 * bytes[1],
        channel_data_from(bytes).ch1_data == bytes[2] + 256 * bytes[3],
        channel_data_from(bytes).ch2_data == bytes[4] + 256 * bytes[5],
        channel_data_from(bytes).ch3_data == bytes[6] + 256 * bytes[7],
        channel_data_from(bytes).ch4_data == bytes[8] + 256 * bytes[9],
        channel_data_from(bytes).ch5_data == bytes[10] + 256 * bytes[11],
        channel_data_from(bytes).reserved0 == bytes[12],
        channel_data_from(bytes).reserved1 == bytes[13],
        channel_data_from(bytes).status2 == bytes[14],
        channel_data_from(bytes).status3 == bytes[15],
{
}

impl ChannelData {
    /// All counts and status bytes zero.
    pub fn zeroed() -> (d: Self)
        ensures
            d == channel_data_from(Seq::new(16, |i: int| 0u8)),
    {
        Self {
            ch0_data: 0,
            ch1_data: 0,
            ch2_data: 0,
            ch3_data: 0,
            ch4_data: 0,
            ch5_data: 0,
            reserved0: 0,
            reserved1: 0,
            status2: 0,
            status3: 0,
        }
    }

    /// The channel block held by the 16 bytes read from CH0_DATA_L on.
    pub fn from_bytes(bytes: &[u8; 16]) -> (d: Self)
        ensures
            d == channel_data_from(bytes@),
    {
        Self {
            ch0_data: u16_from_le(bytes[0], bytes[1]),
            ch1_data: u16_from_le(bytes[2], bytes[3]),
            ch2_data: u16_from_le(bytes[4], bytes[5]),
            ch3_data: u16_from_le(bytes[6], bytes[7]),
            ch4_data: u16_from_le(bytes[8], bytes[9]),
            ch5_data: u16_from_le(bytes[10], bytes[11]),
            reserved0: bytes[12],
            reserved1: bytes[13],
            status2: bytes[14],
            status3: bytes[15],
        }
    }

    /// Whether STATUS2 tells that the counts are valid.
    pub fn spectral_valid(&self) -> (b: bool)
        ensures
            b == bit_is_set(self.status2, SPECTRAL_VALID_BIT),
    {
        Status2::new_with_raw_value(self.status2).spectral_valid()
    }
}

/// How long, and how often, to wait for valid channel data.
#[derive(Debug, Clone, Copy)]
pub struct PollingConfig {
    pub polling_interval: Duration,
    pub number_of_intervals: usize,
}

/// The write that sets the gain.
pub fn set_gain_frame(gain: Gain) -> (f: [u8; 2])
    ensures
        f@ == seq![CFG1_ADDRESS, gain_code(gain)],
{
    let f = [CFG1_ADDRESS, gain.code()];
    assert(f@ =~= seq![CFG1_ADDRESS, gain_code(gain)]);
    f
}

/// The write that issues an SMUX command.
pub fn set_smux_command_frame(cmd: SmuxCommand) -> (f: [u8; 2])
    ensures
        f@ == seq![CFG6_ADDRESS, smux_command_code(cmd)],
{
    let f = [CFG6_ADDRESS, cmd.code()];
    assert(f@ =~= seq![CFG6_ADDRESS, smux_command_code(cmd)]);
    f
}

/// The write that sets the ENABLE register.
pub fn set_enable_frame(register_value: EnableRegister) -> (f: [u8; 2])
    ensures
        f@ == seq![ENABLE_ADDRESS, register_value.bits()],
{
    let f = [ENABLE_ADDRESS, register_value.raw_value()];
    assert(f@ =~= seq![ENABLE_ADDRESS, register_value.bits()]);
    f
}

/// The write that sets how often the sensor auto-zeroes.
pub fn set_autozero_frequency_frame(freq: u8) -> (f: [u8; 2])
    ensures
        f@ == seq![AZ_CFG_ADDRESS, freq],
{
    let f = [AZ_CFG_ADDRESS, freq];
    assert(f@ =~= seq![AZ_CFG_ADDRESS, freq]);
    f
}

/// The ENABLE value to write so that spectral measurement is `value`, or
/// `None` when the register already says so.
pub fn spectral_measurement_update(current: EnableRegister, value: bool) -> (r: Option<EnableRegister>)
    ensures
        bit_is_set(current.bits(), SPECTRAL_MEASUREMENT_ENABLE_BIT) == value ==> r is None,
        bit_is_set(current.bits(), SPECTRAL_MEASUREMENT_ENABLE_BIT) != value ==> (r matches Some(n)
            && bit_is_set(n.bits(), SPECTRAL_MEASUREMENT_ENABLE_BIT) == value
            && forall|j: u8| j < 8 && j != SPECTRAL_MEASUREMENT_ENABLE_BIT ==> bit_is_set(n.bits(), j) == bit_is_set(current.bits(), j)),
{
    if current.spectral_measurement_enable() != value {
        Some(current.with_spectral_measurement_enable(value))
    } else {
        None
    }
}

/// The write of a whole SMUX configuration: the start address, then the 20 bytes.
pub fn smux_write_frame(pixel_connections: &PixelConnections) -> (f: [u8; 21])
    ensures
        f@ == seq![SMUX_START_ADDRESS] + pixel_connections@,
{
    let mut f = [0u8; 21];
    f[0] = SMUX_START_ADDRESS;
    let src = pixel_connections.as_bytes();
    let mut i: usize = 0;
    while i < 20
        invariant
            i <= 20,
            src@ == pixel_connections@,
            src@.len() == 20,
            f@.len() == 21,
            f@[0] == SMUX_START_ADDRESS,
            forall|k: int| 0 <= k < i ==> f@[k + 1] == src@[k],
        decreases 20 - i,
    {
        f[i + 1] = src[i];
        i += 1;
    }
    assert(f@ =~= seq![SMUX_START_ADDRESS] + pixel_connections@);
    f
}

/// The three writes that apply timing settings: ATIME, WTIME, then ASTEP
/// (low byte first).
pub fn timing_frames(timing_settings: &TimingSettings) -> (f: ([u8; 2], [u8; 2], [u8; 3]))
    ensures
        f.0@ == seq![ATIME_ADDRESS, timing_settings.integration_time.atime_value()],
        f.1@ == seq![WTIME_ADDRESS, timing_settings.wait_time.raw_value()],
        f.2@.len() == 3,
        f.2@[0] == ASTEP_L_ADDRESS,
        le_u16(f.2@[1], f.2@[2]) == timing_settings.integration_time.astep_value(),
{
    let atime = timing_settings.integration_time.atime();
    let wtime = timing_settings.wait_time.into_raw();
    let astep = timing_settings.integration_time.astep();
    let lo = (astep & 0xff) as u8;
    let hi = (astep >> 8) as u8;
    assert(lo + 256 * hi == astep) by (bit_vector)
        requires
            lo == (astep & 0xff) as u8,
            hi == (astep >> 8) as u8,
    ;
    let a = [ATIME_ADDRESS, atime];
    let w = [WTIME_ADDRESS, wtime];
    let s = [ASTEP_L_ADDRESS, lo, hi];
    assert(a@ =~= seq![ATIME_ADDRESS, timing_settings.integration_time.atime_value()]);
    assert(w@ =~= seq![WTIME_ADDRESS, timing_settings.wait_time.raw_value()]);
    (a, w, s)
}

/// What to do after one look at the device while waiting for it.
#[derive(Debug, Clone, Copy, PartialEq, Eq, Structural)]
pub enum PollDecision {
    /// The device is ready.
    Done,
    /// Not ready; look again after the next interval.
    Retry,
    /// Not ready and no attempt is left.
    TimedOut,
}

/// Counts the looks left while waiting for the device, such as for the SMUX
/// command to finish or for valid channel data.
pub struct Poller {
    remaining: usize,
}

impl Poller {
    /// The number of looks left.
    pub closed spec fn remaining_attempts(&self) -> nat {
        self.remaining as nat
    }

    /// A poller that allows `attempts` looks.
    pub fn new(attempts: usize) -> (p: Self)
        ensures
            p.remaining_attempts() == attempts,
    {
        Self { remaining: attempts }
    }

    /// Whether another look is allowed.
    pub fn has_attempt_left(&self) -> (b: bool)
        ensures
            b == (self.remaining_attempts() > 0),
    {
        self.remaining > 0
    }

    /// Records one look, `ready` telling what it showed.
    pub fn record(&mut self, ready: bool) -> (d: PollDecision)
        requires
            old(self).remaining_attempts() > 0,
        ensures
            final(self).remaining_attempts() == old(self).remaining_attempts() - 1,
            d == if ready {
                PollDecision::Done
            } else if old(self).remaining_attempts() == 1 {
                PollDecision::TimedOut
            } else {
                PollDecision::Retry
            },
    {
        self.remaining = self.remaining - 1;
        if ready {
            PollDecision::Done
        } else if self.remaining == 0 {
            PollDecision::TimedOut
        } else {
            PollDecision::Retry
        }
    }
}

} // verus!
