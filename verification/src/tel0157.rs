//! TEL0157 GNSS receiver: the register map of a position fix and the mode
//! and sleep registers.

use vstd::prelude::*;
use crate::bits::{lemma_u8_bit_weights, bit_is_set, field_value, get_bit, get_field, in_field, low_mask, with_bit, with_field};

verus! {

/// I2C address of the TEL0157.
pub const TEL0157_I2C_ADDR: u8 = 0x20;

/// First register of the position fix that is read in one go.
pub const REGISTER_MAP_START: u8 = 0x07;

/// Number of registers read from `REGISTER_MAP_START` on.
pub const REGISTER_MAP_LEN: usize = 22;

/// Register that selects the satellite systems.
pub const GNSS_MODE_REGISTER: u8 = 0x22;

/// Register that puts the receiver to sleep or wakes it.
pub const SLEEP_REGISTER: u8 = 0x23;

/// The registers of a position fix, from 0x07 to 0x1C.
#[derive(Debug, Clone, Copy, PartialEq, Eq, Structural)]
pub struct RegisterMap {
    pub lat_degrees: u8,
    pub lat_minutes: u8,
    pub lat_decimal_minutes_msb: u8,
    pub lat_decimal_minutes_xsb: u8,
    pub lat_decimal_minutes_lsb: u8,
    pub lon_hemisphere: u8,
    pub lon_degrees: u8,
    pub lon_minutes: u8,
    pub lon_decimal_minutes_msb: u8,
    pub lon_decimal_minutes_xsb: u8,
    pub lon_decimal_minutes_lsb: u8,
    pub lat_hemisphere: u8,
    pub satellites: u8,
    pub alt_msb: u8,
    pub alt_lsb: u8,
    pub alt_xsb: u8,
    pub sog_msb: u8,
    pub sog_lsb: u8,
    pub sog_xsb: u8,
    pub cog_msb: u8,
    pub cog_lsb: u8,
    pub cog_xsb: u8,
}

/// The fix that the 22 bytes from 0x07 on hold.
pub open spec fn register_map_from(b: Seq<u8>) -> RegisterMap {
    RegisterMap {
        lat_degrees: b[0],
        lat_minutes: b[1],
        lat_decimal_minutes_msb: b[2],
        lat_decimal_minutes_xsb: b[3],
        lat_decimal_minutes_lsb: b[4],
        lon_hemisphere: b[5],
        lon_degrees: b[6],
        lon_minutes: b[7],
        lon_decimal_minutes_msb: b[8],
        lon_decimal_minutes_xsb: b[9],
        lon_decimal_minutes_lsb: b[10],
        lat_hemisphere: b[11],
        satellites: b[12],
        alt_msb: b[13],
        alt_lsb: b[14],
        alt_xsb: b[15],
        sog_msb: b[16],
        sog_lsb: b[17],
        sog_xsb: b[18],
        cog_msb: b[19],
        cog_lsb: b[20],
        cog_xsb: b[21],
    }
}

/// Each register of a fix is the byte at its offset from register 0x07:
/// latitude degrees at 0x07, longitude degrees at 0x0D and minutes at 0x0E,
/// and so on up to the course at 0x1A to 0x1C.
pub proof fn lemma_register_map_layout(b: Seq<u8>)
    requires
        b.len() == 22,
    ensures
        register_map_from(b).lat_degrees == b[0],
        register_map_from(b).lat_minutes == b[1],
        register_map_from(b).lat_decimal_minutes_msb == b[2],
        register_map_from(b).lat_decimal_minutes_xsb == b[3],
        register_map_from(b).lat_decimal_minutes_lsb == b[4],
        register_map_from(b).lon_hemisphere == b[5],
        register_map_from(b).lon_degrees == b[6],
        register_map_from(b).lon_minutes == b[7],
        register_map_from(b).lon_decimal_minutes_msb == b[8],
        register_map_from(b).lon_decimal_minutes_xsb == b[9],
        register_map_from(b).lon_decimal_minutes_lsb == b[10],
        register_map_from(b).lat_hemisphere == b[11],
        register_map_from(b).satellites == b[12],
        register_map_from(b).alt_msb == b[13],
        register_map_from(b).alt_lsb == b[14],
        register_map_from(b).alt_xsb == b[15],
        register_map_from(b).sog_msb == b[16],
        register_map_from(b).sog_lsb == b[17],
        register_map_from(b).sog_xsb == b[18],
        register_map_from(b).cog_msb == b[19],
        register_map_from(b).cog_lsb == b[20],
        register_map_from(b).cog_xsb == b[21],
{
}

/// The value of three bytes read as a big-endian number.
pub open spec fn be_u24(msb: u8, xsb: u8, lsb: u8) -> int {
    msb as int * 65536 + xsb as int * 256 + lsb as int
}

/// Of the value of three big-endian bytes, the first byte is the quotient by
/// 65536, the second the next eight bits and the third the remainder modulo
/// 256.
pub proof fn lemma_be_u24_places(msb: u8, xsb: u8, lsb: u8)
    ensures
        0 <= be_u24(msb, xsb, lsb) < 0x100_0000,
        be_u24(msb, xsb, lsb) / 65536 == msb,
        (be_u24(msb, xsb, lsb) / 256) % 256 == xsb,
        be_u24(msb, xsb, lsb) % 256 == lsb,
{
    let v = be_u24(msb, xsb, lsb);
    assert(v / 65536 == msb && (v / 256) % 256 == xsb && v % 256 == lsb && v < 0x100_0000)
        by (nonlinear_arith)
        requires
            v == msb * 65536 + xsb * 256 + lsb,
            0 <= msb < 256,
            0 <= xsb < 256,
            0 <= lsb < 256,
    ;
}

/// Reads three bytes as a big-endian number.
fn u24_from_be(msb: u8, xsb: u8, lsb: u8) -> (v: u32)
    ensures
        v == be_u24(msb, xsb, lsb),
{
    let v = ((msb as u32) << 16) | ((xsb as u32) << 8) | (lsb as u32);
    assert(v == msb as u32 * 65536 + xsb as u32 * 256 + lsb as u32) by (bit_vector)
        requires
            v == ((msb as u32) << 16) | ((xsb as u32) << 8) | (lsb as u32),
    ;
    v
}

impl RegisterMap {
    /// All registers zero.
    pub fn new_zeroed() -> (m: Self)
        ensures
            m == register_map_from(Seq::new(22, |i: int| 0u8)),
    {
        Self {
            lat_degrees: 0,
            lat_minutes: 0,
            lat_decimal_minutes_msb: 0,
            lat_decimal_minutes_xsb: 0,
            lat_decimal_minutes_lsb: 0,
            lon_hemisphere: 0,
            lon_degrees: 0,
            lon_minutes: 0,
            lon_decimal_minutes_msb: 0,
            lon_decimal_minutes_xsb: 0,
            lon_decimal_minutes_lsb: 0,
            lat_hemisphere: 0,
            satellites: 0,
            alt_msb: 0,
            alt_lsb: 0,
            alt_xsb: 0,
            sog_msb: 0,
            sog_lsb: 0,
            sog_xsb: 0,
            cog_msb: 0,
            cog_lsb: 0,
            cog_xsb: 0,
        }
    }

    /// The fix held by the 22 bytes read from 0x07 on.
    pub fn from_bytes(b: &[u8; 22]) -> (m: Self)
        ensures
            m == register_map_from(b@),
    {
        Self {
            lat_degrees: b[0],
            lat_minutes: b[1],
            lat_decimal_minutes_msb: b[2],
            lat_decimal_minutes_xsb: b[3],
            lat_decimal_minutes_lsb: b[4],
            lon_hemisphere: b[5],
            lon_degrees: b[6],
            lon_minutes: b[7],
            lon_decimal_minutes_msb: b[8],
            lon_decimal_minutes_xsb: b[9],
            lon_decimal_minutes_lsb: b[10],
            lat_hemisphere: b[11],
            satellites: b[12],
            alt_msb: b[13],
            alt_lsb: b[14],
            alt_xsb: b[15],
            sog_msb: b[16],
            sog_lsb: b[17],
            sog_xsb: b[18],
            cog_msb: b[19],
            cog_lsb: b[20],
            cog_xsb: b[21],
        }
    }

    /// The 22 registers, in address order.
    pub fn to_bytes(&self) -> (b: [u8; 22])
        ensures
            register_map_from(b@) == *self,
    {
        [
            self.lat_degrees,
            self.lat_minutes,
            self.lat_decimal_minutes_msb,
            self.lat_decimal_minutes_xsb,
            self.lat_decimal_minutes_lsb,
            self.lon_hemisphere,
            self.lon_degrees,
            self.lon_minutes,
            self.lon_decimal_minutes_msb,
            self.lon_decimal_minutes_xsb,
            self.lon_decimal_minutes_lsb,
            self.lat_hemisphere,
            self.satellites,
            self.alt_msb,
            self.alt_lsb,
            self.alt_xsb,
            self.sog_msb,
            self.sog_lsb,
            self.sog_xsb,
            self.cog_msb,
            self.cog_lsb,
            self.cog_xsb,
        ]
    }

    /// The fraction of the latitude's minutes, in hundred-thousandths of a
    /// minute: the big-endian number in its three decimal-minute registers.
    pub fn lat_decimal_minutes(&self) -> (v: u32)
        ensures
            v == be_u24(self.lat_decimal_minutes_msb, self.lat_decimal_minutes_xsb, self.lat_decimal_minutes_lsb),
    {
        u24_from_be(self.lat_decimal_minutes_msb, self.lat_decimal_minutes_xsb, self.lat_decimal_minutes_lsb)
    }

    /// The fraction of the longitude's minutes, in hundred-thousandths of a minute.
    pub fn lon_decimal_minutes(&self) -> (v: u32)
        ensures
            v == be_u24(self.lon_decimal_minutes_msb, self.lon_decimal_minutes_xsb, self.lon_decimal_minutes_lsb),
    {
        u24_from_be(self.lon_decimal_minutes_msb, self.lon_decimal_minutes_xsb, self.lon_decimal_minutes_lsb)
    }

    /// Whether the latitude counts positive: its hemisphere register holds
    /// 'N'; anything else counts as south.
    pub fn lat_is_positive(&self) -> (b: bool)
        ensures
            b == (self.lat_hemisphere == 0x4e),
    {
        self.lat_hemisphere == 0x4e
    }

    /// Whether the longitude counts positive: its hemisphere register holds
    /// 'E'; anything else counts as west.
    pub fn lon_is_positive(&self) -> (b: bool)
        ensures
            b == (self.lon_hemisphere == 0x45),
    {
        self.lon_hemisphere == 0x45
    }
}

/// Bytes that hold the same fix are the same bytes.
pub proof fn lemma_register_map_bytes_round_trip(b: Seq<u8>, c: Seq<u8>)
    requires
        b.len() == 22,
        c.len() == 22,
        register_map_from(b) == register_map_from(c),
    ensures
        b == c,
{
    assert(b =~= c);
}

/// Bit of the mode that selects GPS.
pub const GPS_BIT: u8 = 0;

/// Bit of the mode that selects BeiDou.
pub const BEIDOU_BIT: u8 = 1;

/// Bit of the mode that selects GLONASS.
pub const GLONASS_BIT: u8 = 2;

/// The satellite systems in use: a 3-bit set.
#[derive(Debug, Clone, Copy, PartialEq, Eq, Structural)]
pub struct GnssMode {
    raw: u8,
}

impl GnssMode {
    /// Only the three low bits are ever set.
    #[verifier::type_invariant]
    spec fn three_bits(&self) -> bool {
        self.raw < 8
    }

    /// The three bits.
    pub closed spec fn bits(&self) -> u8 {
        self.raw
    }

    /// No system selected.
    pub fn zero() -> (m: Self)
        ensures
            m.bits() == 0,
    {
        Self { raw: 0 }
    }

    /// The three bits.
    pub fn raw_value(&self) -> (v: u8)
        ensures
            v == self.bits(),
            v < 8,
    {
        proof {
            use_type_invariant(self);
        }
        self.raw
    }

    /// The mode with GPS selected or not, the rest kept.
    pub fn with_gps(self, value: bool) -> (m: Self)
        ensures
            bit_is_set(m.bits(), GPS_BIT) == value,
            forall|j: u8| j < 8 && j != GPS_BIT ==> bit_is_set(m.bits(), j) == bit_is_set(self.bits(), j),
            m.bits() < 8,
    {
        proof {
            use_type_invariant(&self);
        }
        let r = with_bit(self.raw, GPS_BIT, value);
        proof { lemma_below_8(self.raw, r); }
        Self { raw: r }
    }

    /// The mode with BeiDou selected or not, the rest kept.
    pub fn with_beidou(self, value: bool) -> (m: Self)
        ensures
            bit_is_set(m.bits(), BEIDOU_BIT) == value,
            forall|j: u8| j < 8 && j != BEIDOU_BIT ==> bit_is_set(m.bits(), j) == bit_is_set(self.bits(), j),
            m.bits() < 8,
    {
        proof {
            use_type_invariant(&self);
        }
        let r = with_bit(self.raw, BEIDOU_BIT, value);
        proof { lemma_below_8(self.raw, r); }
        Self { raw: r }
    }

    /// The mode with GLONASS selected or not, the rest kept.
    pub fn with_glonass(self, value: bool) -> (m: Self)
        ensures
            bit_is_set(m.bits(), GLONASS_BIT) == value,
            forall|j: u8| j < 8 && j != GLONASS_BIT ==> bit_is_set(m.bits(), j) == bit_is_set(self.bits(), j),
            m.bits() < 8,
    {
        proof {
            use_type_invariant(&self);
        }
        let r = with_bit(self.raw, GLONASS_BIT, value);
        proof { lemma_below_8(self.raw, r); }
        Self { raw: r }
    }

    /// Whether GPS is selected.
    pub fn gps(&self) -> (b: bool)
        ensures
            b == bit_is_set(self.bits(), GPS_BIT),
    {
        get_bit(self.raw, GPS_BIT)
    }

    /// Whether BeiDou is selected.
    pub fn beidou(&self) -> (b: bool)
        ensures
            b == bit_is_set(self.bits(), BEIDOU_BIT),
    {
        get_bit(self.raw, BEIDOU_BIT)
    }

    /// Whether GLONASS is selected.
    pub fn glonass(&self) -> (b: bool)
        ensures
            b == bit_is_set(self.bits(), GLONASS_BIT),
    {
        get_bit(self.raw, GLONASS_BIT)
    }
}

/// A byte whose bits 3 to 7 agree with those of a byte below 8 is below 8.
proof fn lemma_below_8(old_raw: u8, new_raw: u8)
    requires
        old_raw < 8,
        forall|j: u8| 3 <= j < 8 ==> bit_is_set(new_raw, j) == bit_is_set(old_raw, j),
    ensures
        new_raw < 8,
{
    assert(bit_is_set(new_raw, 3) == bit_is_set(old_raw, 3));
    assert(bit_is_set(new_raw, 4) == bit_is_set(old_raw, 4));
    assert(bit_is_set(new_raw, 5) == bit_is_set(old_raw, 5));
    assert(bit_is_set(new_raw, 6) == bit_is_set(old_raw, 6));
    assert(bit_is_set(new_raw, 7) == bit_is_set(old_raw, 7));
    assert(new_raw < 8) by (bit_vector)
        requires
            old_raw < 8,
            bit_is_set(new_raw, 3) == bit_is_set(old_raw, 3),
            bit_is_set(new_raw, 4) == bit_is_set(old_raw, 4),
            bit_is_set(new_raw, 5) == bit_is_set(old_raw, 5),
            bit_is_set(new_raw, 6) == bit_is_set(old_raw, 6),
            bit_is_set(new_raw, 7) == bit_is_set(old_raw, 7),
    ;
}

/// The register that selects the satellite systems: the mode in bits 0 to 2.
#[derive(Debug, Clone, Copy, PartialEq, Eq, Structural)]
pub struct GnssModeRegister {
    raw: u8,
}

impl GnssModeRegister {
    /// The register's byte.
    pub closed spec fn bits(&self) -> u8 {
        self.raw
    }

    /// All bits clear.
    pub fn zero() -> (r: Self)
        ensures
            r.bits() == 0,
    {
        Self { raw: 0 }
    }

    /// The register holding `raw`.
    pub fn new_with_raw_value(raw: u8) -> (r: Self)
        ensures
            r.bits() == raw,
    {
        Self { raw }
    }

    /// The register's byte.
    pub fn raw_value(&self) -> (v: u8)
        ensures
            v == self.bits(),
    {
        self.raw
    }

    /// The selected systems.
    pub fn mode(&self) -> (m: GnssMode)
        ensures
            m.bits() == field_value(self.bits(), 0, 3),
    {
        proof {
            lemma_u8_bit_weights();
        }
        GnssMode { raw: get_field(self.raw, 0, 3) }
    }

    /// The register with the selected systems set, the upper bits kept.
    pub fn with_mode(self, mode: GnssMode) -> (r: Self)
        ensures
            field_value(r.bits(), 0, 3) == mode.bits(),
            forall|j: u8| j < 8 && !in_field(j, 0, 3) ==> bit_is_set(r.bits(), j) == bit_is_set(self.bits(), j),
            r.bits() == (self.bits() & !(low_mask(3) << 0u8)) | (mode.bits() << 0u8),
    {
        proof {
            lemma_u8_bit_weights();
            use_type_invariant(&mode);
        }
        Self { raw: with_field(self.raw, 0, 3, mode.raw) }
    }
}

/// The register that puts the receiver to sleep: the sleep flag in bit 0.
#[derive(Debug, Clone, Copy, PartialEq, Eq, Structural)]
pub struct SleepRegister {
    raw: u8,
}

impl SleepRegister {
    /// The register's byte.
    pub closed spec fn bits(&self) -> u8 {
        self.raw
    }

    /// All bits clear.
    pub fn zero() -> (r: Self)
        ensures
            r.bits() == 0,
    {
        Self { raw: 0 }
    }

    /// The register holding `raw`.
    pub fn new_with_raw_value(raw: u8) -> (r: Self)
        ensures
            r.bits() == raw,
    {
        Self { raw }
    }

    /// The register's byte.
    pub fn raw_value(&self) -> (v: u8)
        ensures
            v == self.bits(),
    {
        self.raw
    }

    /// Whether the receiver sleeps.
    pub fn sleep(&self) -> (b: bool)
        ensures
            b == bit_is_set(self.bits(), 0),
    {
        get_bit(self.raw, 0)
    }

    /// The register with the sleep flag set to `value`, the rest kept.
    pub fn with_sleep(self, value: bool) -> (r: Self)
        ensures
            bit_is_set(r.bits(), 0) == value,
            forall|j: u8| j < 8 && j != 0 ==> bit_is_set(r.bits(), j) == bit_is_set(self.bits(), j),
    {
        Self { raw: with_bit(self.raw, 0, value) }
    }
}

/// The write that wakes the receiver: the sleep register with every bit clear.
pub fn power_on_frame() -> (f: [u8; 2])
    ensures
        f@ == seq![SLEEP_REGISTER, 0u8],
{
    let v = SleepRegister::zero().with_sleep(false).raw_value();
    assert(forall|j: u8| j < 8 ==> !bit_is_set(v, j)) by {
        assert(forall|j: u8| j < 8 ==> !bit_is_set(0u8, j)) by (bit_vector);
    }
    proof { lemma_no_bits_is_zero(v); }
    let f = [SLEEP_REGISTER, v];
    assert(f@ =~= seq![SLEEP_REGISTER, 0u8]);
    f
}

/// A byte with no bit set is zero.
proof fn lemma_no_bits_is_zero(v: u8)
    requires
        forall|j: u8| j < 8 ==> !bit_is_set(v, j),
    ensures
        v == 0,
{
    assert(!bit_is_set(v, 0) && !bit_is_set(v, 1) && !bit_is_set(v, 2) && !bit_is_set(v, 3));
    assert(!bit_is_set(v, 4) && !bit_is_set(v, 5) && !bit_is_set(v, 6) && !bit_is_set(v, 7));
    assert(v == 0) by (bit_vector)
        requires
            !bit_is_set(v, 0) && !bit_is_set(v, 1) && !bit_is_set(v, 2) && !bit_is_set(v, 3),
            !bit_is_set(v, 4) && !bit_is_set(v, 5) && !bit_is_set(v, 6) && !bit_is_set(v, 7),
    ;
}

/// The write that selects satellite systems, the register's upper bits clear.
pub fn set_gnss_mode_frame(mode: GnssMode) -> (f: [u8; 2])
    ensures
        f@ == seq![GNSS_MODE_REGISTER, mode.bits()],
{
    let m = mode.raw_value();
    let v = GnssModeRegister::zero().with_mode(mode).raw_value();
    assert(v == m) by (bit_vector)
        requires
            m < 8,
            v == (0u8 & !(low_mask(3) << 0u8)) | (m << 0u8),
    ;
    let f = [GNSS_MODE_REGISTER, v];
    assert(f@ =~= seq![GNSS_MODE_REGISTER, mode.bits()]);
    f
}

/// GPS, BeiDou and GLONASS all selected.
pub fn all_systems_mode() -> (m: GnssMode)
    ensures
        m.bits() == 7,
{
    let m = GnssMode::zero().with_gps(true).with_beidou(true).with_glonass(true);
    let v = m.raw_value();
    assert(bit_is_set(v, 0) && bit_is_set(v, 1) && bit_is_set(v, 2) && v < 8);
    assert(v == 7) by (bit_vector)
        requires
            bit_is_set(v, 0) && bit_is_set(v, 1) && bit_is_set(v, 2) && v < 8,
    ;
    m
}

} // verus!
