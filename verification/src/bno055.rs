//! BNO055 orientation sensor: sensor data and calibration byte layouts and
//! the operating mode register.

use vstd::prelude::*;
use crate::bits::{bit_is_set, field_value, get_field, in_field, lemma_u8_bit_weights, low_mask, with_field};
use crate::bytes::{le_u16, u16_from_le};

verus! {

/// I2C address of the BNO055.
pub const BNO_055_I2C_ADDR: u8 = 0x28;

/// First sensor data register (ACC_DATA_X_LSB).
pub const SENSOR_DATA_START: u8 = 0x08;

/// Number of bytes of sensor data (up to, not including, TEMP at 0x34).
pub const SENSOR_DATA_LENGTH: usize = 44;

/// CALIB_STAT register.
pub const CALIBRATION_STATUS: u8 = 0x35;

/// OPR_MODE register.
pub const OPERATING_MODE: u8 = 0x3d;

/// SYS_TRIGGER register.
pub const SYS_TRIGGER: u8 = 0x3f;

/// Bit of SYS_TRIGGER that resets the whole device (RST_SYS).
pub const RST_SYS: u8 = 0x20;

/// First calibration register (ACC_OFFSET_X_LSB).
pub const SENSOR_CONFIG_START: u8 = 0x55;

/// Number of bytes of calibration data (up to MAG_RADIUS_MSB at 0x6A).
pub const SENSOR_CONFIG_LENGTH: usize = 22;

/// All sensor readings, each a little-endian 16-bit register pair.
#[derive(Debug, Clone, Copy, PartialEq, Eq, Structural)]
pub struct SensorData {
    pub acc_x: u16,
    pub acc_y: u16,
    pub acc_z: u16,
    pub mag_x: u16,
    pub mag_y: u16,
    pub mag_z: u16,
    pub gyr_x: u16,
    pub gyr_y: u16,
    pub gyr_z: u16,
    pub eul_heading: u16,
    pub eul_roll: u16,
    pub eul_pitch: u16,
    pub qua_w: u16,
    pub qua_x: u16,
    pub qua_y: u16,
    pub qua_z: u16,
    pub lia_x: u16,
    pub lia_y: u16,
    pub lia_z: u16,
    pub grv_x: u16,
    pub grv_y: u16,
    pub grv_z: u16,
}

/// The readings that the 44 bytes from ACC_DATA_X_LSB on hold.
pub open spec fn sensor_data_from(b: Seq<u8>) -> SensorData {
    SensorData {
        acc_x: le_u16(b[0], b[1]) as u16,
        acc_y: le_u16(b[2], b[3]) as u16,
        acc_z: le_u16(b[4], b[5]) as u16,
        mag_x: le_u16(b[6], b[7]) as u16,
        mag_y: le_u16(b[8], b[9]) as u16,
        mag_z: le_u16(b[10], b[11]) as u16,
        gyr_x: le_u16(b[12], b[13]) as u16,
        gyr_y: le_u16(b[14], b[15]) as u16,
        gyr_z: le_u16(b[16], b[17]) as u16,
        eul_heading: le_u16(b[18], b[19]) as u16,
        eul_roll: le_u16(b[20], b[21]) as u16,
        eul_pitch: le_u16(b[22], b[23]) as u16,
        qua_w: le_u16(b[24], b[25]) as u16,
        qua_x: le_u16(b[26], b[27]) as u16,
        qua_y: le_u16(b[28], b[29]) as u16,
        qua_z: le_u16(b[30], b[31]) as u16,
        lia_x: le_u16(b[32], b[33]) as u16,
        lia_y: le_u16(b[34], b[35]) as u16,
        lia_z: le_u16(b[36], b[37]) as u16,
        grv_x: le_u16(b[38], b[39]) as u16,
        grv_y: le_u16(b[40], b[41]) as u16,
        grv_z: le_u16(b[42], b[43]) as u16,
    }
}

/// Reading number `i` in register order (acceleration x, y, z; magnetometer
/// x, y, z; gyroscope x, y, z; Euler heading, roll, pitch; quaternion w, x,
/// y, z; linear acceleration x, y, z; gravity x, y, z) is the little-endian
/// word at bytes `2i` and `2i + 1` of the block read from ACC_DATA_X_LSB on.
pub proof fn lemma_sensor_data_register_layout(b: Seq<u8>)
    requires
        b.len() == 44,
    ensures
        sensor_data_from(b).acc_x == b[0] + 256 * b[1],
        sensor_data_from(b).acc_y == b[2] + 256 * b[3],
        sensor_data_from(b).acc_z == b[4] + 256 * b[5],
        sensor_data_from(b).mag_x == b[6] + 256 * b[7],
        sensor_data_from(b).mag_y == b[8] + 256 * b[9],
        sensor_data_from(b).mag_z == b[10] + 256 * b[11],
        sensor_data_from(b).gyr_x == b[12] + 256 * b[13],
        sensor_data_from(b).gyr_y == b[14] + 256 * b[15],
        sensor_data_from(b).gyr_z == b[16] + 256 * b[17],
        sensor_data_from(b).eul_heading == b[18] + 256 * b[19],
        sensor_data_from(b).eul_roll == b[20] + 256 * b[21],
        sensor_data_from(b).eul_pitch == b[22] + 256 * b[23],
        sensor_data_from(b).qua_w == b[24] + 256 * b[25],
        sensor_data_from(b).qua_x == b[26] + 256 * b[27],
        sensor_data_from(b).qua_y == b[28] + 256 * b[29],
        sensor_data_from(b).qua_z == b[30] + 256 * b[31],
        sensor_data_from(b).lia_x == b[32] + 256 * b[33],
        sensor_data_from(b).lia_y == b[34] + 256 * b[35],
        sensor_data_from(b).lia_z == b[36] + 256 * b[37],
        sensor_data_from(b).grv_x == b[38] + 256 * b[39],
        sensor_data_from(b).grv_y == b[40] + 256 * b[41],
        sensor_data_from(b).grv_z == b[42] + 256 * b[43],
{
}

/// Splits a word into its little-endian bytes.
fn word_bytes(v: u16) -> (r: (u8, u8))
    ensures
        le_u16(r.0, r.1) == v,
{
    let lo = (v & 0xff) as u8;
    let hi = (v >> 8) as u8;
    assert(lo + 256 * hi == v) by (bit_vector)
        requires
            lo == (v & 0xff) as u8,
            hi == (v >> 8) as u8,
    ;
    (lo, hi)
}

/// Two byte pairs with the same little-endian value are the same pair.
proof fn lemma_le_u16_injective(a: u8, b: u8, c: u8, d: u8)
    requires
        le_u16(a, b) == le_u16(c, d),
    ensures
        a == c,
        b == d,
{
}

impl SensorData {
    /// All readings zero.
    pub fn zeroed() -> (d: Self)
        ensures
            d == sensor_data_from(Seq::new(44, |i: int| 0u8)),
    {
        Self {
            acc_x: 0,
            acc_y: 0,
            acc_z: 0,
            mag_x: 0,
            mag_y: 0,
            mag_z: 0,
            gyr_x: 0,
            gyr_y: 0,
            gyr_z: 0,
            eul_heading: 0,
            eul_roll: 0,
            eul_pitch: 0,
            qua_w: 0,
            qua_x: 0,
            qua_y: 0,
            qua_z: 0,
            lia_x: 0,
            lia_y: 0,
            lia_z: 0,
            grv_x: 0,
            grv_y: 0,
            grv_z: 0,
        }
    }

    /// The readings held by the 44 bytes read from ACC_DATA_X_LSB on.
    pub fn from_bytes(b: &[u8; 44]) -> (d: Self)
        ensures
            d == sensor_data_from(b@),
    {
        Self {
            acc_x: u16_from_le(b[0], b[1]),
            acc_y: u16_from_le(b[2], b[3]),
            acc_z: u16_from_le(b[4], b[5]),
            mag_x: u16_from_le(b[6], b[7]),
            mag_y: u16_from_le(b[8], b[9]),
            mag_z: u16_from_le(b[10], b[11]),
            gyr_x: u16_from_le(b[12], b[13]),
            gyr_y: u16_from_le(b[14], b[15]),
            gyr_z: u16_from_le(b[16], b[17]),
            eul_heading: u16_from_le(b[18], b[19]),
            eul_roll: u16_from_le(b[20], b[21]),
            eul_pitch: u16_from_le(b[22], b[23]),
            qua_w: u16_from_le(b[24], b[25]),
            qua_x: u16_from_le(b[26], b[27]),
            qua_y: u16_from_le(b[28], b[29]),
            qua_z: u16_from_le(b[30], b[31]),
            lia_x: u16_from_le(b[32], b[33]),
            lia_y: u16_from_le(b[34], b[35]),
            lia_z: u16_from_le(b[36], b[37]),
            grv_x: u16_from_le(b[38], b[39]),
            grv_y: u16_from_le(b[40], b[41]),
            grv_z: u16_from_le(b[42], b[43]),
        }
    }

    /// The 44 bytes that hold these readings, in register order.
    pub fn to_bytes(&self) -> (b: [u8; 44])
        ensures
            sensor_data_from(b@) == *self,
    {
        let (b0, b1) = word_bytes(self.acc_x);
        let (b2, b3) = word_bytes(self.acc_y);
        let (b4, b5) = word_bytes(self.acc_z);
        let (b6, b7) = word_bytes(self.mag_x);
        let (b8, b9) = word_bytes(self.mag_y);
        let (b10, b11) = word_bytes(self.mag_z);
        let (b12, b13) = word_bytes(self.gyr_x);
        let (b14, b15) = word_bytes(self.gyr_y);
        let (b16, b17) = word_bytes(self.gyr_z);
        let (b18, b19) = word_bytes(self.eul_heading);
        let (b20, b21) = word_bytes(self.eul_roll);
        let (b22, b23) = word_bytes(self.eul_pitch);
        let (b24, b25) = word_bytes(self.qua_w);
        let (b26, b27) = word_bytes(self.qua_x);
        let (b28, b29) = word_bytes(self.qua_y);
        let (b30, b31) = word_bytes(self.qua_z);
        let (b32, b33) = word_bytes(self.lia_x);
        let (b34, b35) = word_bytes(self.lia_y);
        let (b36, b37) = word_bytes(self.lia_z);
        let (b38, b39) = word_bytes(self.grv_x);
        let (b40, b41) = word_bytes(self.grv_y);
        let (b42, b43) = word_bytes(self.grv_z);
        let b = [
            b0,
            b1,
            b2,
            b3,
            b4,
            b5,
            b6,
            b7,
            b8,
            b9,
            b10,
            b11,
            b12,
            b13,
            b14,
            b15,
            b16,
            b17,
            b18,
            b19,
            b20,
            b21,
            b22,
            b23,
            b24,
            b25,
            b26,
            b27,
            b28,
            b29,
            b30,
            b31,
            b32,
            b33,
            b34,
            b35,
            b36,
            b37,
            b38,
            b39,
            b40,
            b41,
            b42,
            b43,
        ];
        assert(sensor_data_from(b@) == *self);
        b
    }
}

/// Bytes that hold the same readings are the same bytes.
pub proof fn lemma_sensor_data_bytes_round_trip(b: Seq<u8>, c: Seq<u8>)
    requires
        b.len() == 44,
        c.len() == 44,
        sensor_data_from(b) == sensor_data_from(c),
    ensures
        b == c,
{
    lemma_le_u16_injective(b[0], b[1], c[0], c[1]);
    lemma_le_u16_injective(b[2], b[3], c[2], c[3]);
    lemma_le_u16_injective(b[4], b[5], c[4], c[5]);
    lemma_le_u16_injective(b[6], b[7], c[6], c[7]);
    lemma_le_u16_injective(b[8], b[9], c[8], c[9]);
    lemma_le_u16_injective(b[10], b[11], c[10], c[11]);
    lemma_le_u16_injective(b[12], b[13], c[12], c[13]);
    lemma_le_u16_injective(b[14], b[15], c[14], c[15]);
    lemma_le_u16_injective(b[16], b[17], c[16], c[17]);
    lemma_le_u16_injective(b[18], b[19], c[18], c[19]);
    lemma_le_u16_injective(b[20], b[21], c[20], c[21]);
    lemma_le_u16_injective(b[22], b[23], c[22], c[23]);
    lemma_le_u16_injective(b[24], b[25], c[24], c[25]);
    lemma_le_u16_injective(b[26], b[27], c[26], c[27]);
    lemma_le_u16_injective(b[28], b[29], c[28], c[29]);
    lemma_le_u16_injective(b[30], b[31], c[30], c[31]);
    lemma_le_u16_injective(b[32], b[33], c[32], c[33]);
    lemma_le_u16_injective(b[34], b[35], c[34], c[35]);
    lemma_le_u16_injective(b[36], b[37], c[36], c[37]);
    lemma_le_u16_injective(b[38], b[39], c[38], c[39]);
    lemma_le_u16_injective(b[40], b[41], c[40], c[41]);
    lemma_le_u16_injective(b[42], b[43], c[42], c[43]);
    assert(b =~= c);
}

/// Calibration offsets and radii, byte by byte in register order.
#[derive(Debug, Clone, Copy, PartialEq, Eq, Structural)]
pub struct SensorConfig {
    pub acc_offset_x_lsb: u8,
    pub acc_offset_x_msb: u8,
    pub acc_offset_y_lsb: u8,
    pub acc_offset_y_msb: u8,
    pub acc_offset_z_lsb: u8,
    pub acc_offset_z_msb: u8,
    pub mag_offset_x_lsb: u8,
    pub mag_offset_x_msb: u8,
    pub mag_offset_y_lsb: u8,
    pub mag_offset_y_msb: u8,
    pub mag_offset_z_lsb: u8,
    pub mag_offset_z_msb: u8,
    pub gyr_offset_x_lsb: u8,
    pub gyr_offset_x_msb: u8,
    pub gyr_offset_y_lsb: u8,
    pub gyr_offset_y_msb: u8,
    pub gyr_offset_z_lsb: u8,
    pub gyr_offset_z_msb: u8,
    pub acc_radius_lsb: u8,
    pub acc_radius_msb: u8,
    pub mag_radius_lsb: u8,
    pub mag_radius_msb: u8,
}

/// The calibration that the 22 bytes from ACC_OFFSET_X_LSB on hold.
pub open spec fn sensor_config_from(b: Seq<u8>) -> SensorConfig {
    SensorConfig {
        acc_offset_x_lsb: b[0],
        acc_offset_x_msb: b[1],
        acc_offset_y_lsb: b[2],
        acc_offset_y_msb: b[3],
        acc_offset_z_lsb: b[4],
        acc_offset_z_msb: b[5],
        mag_offset_x_lsb: b[6],
        mag_offset_x_msb: b[7],
        mag_offset_y_lsb: b[8],
        mag_offset_y_msb: b[9],
        mag_offset_z_lsb: b[10],
        mag_offset_z_msb: b[11],
        gyr_offset_x_lsb: b[12],
        gyr_offset_x_msb: b[13],
        gyr_offset_y_lsb: b[14],
        gyr_offset_y_msb: b[15],
        gyr_offset_z_lsb: b[16],
        gyr_offset_z_msb: b[17],
        acc_radius_lsb: b[18],
        acc_radius_msb: b[19],
        mag_radius_lsb: b[20],
        mag_radius_msb: b[21],
    }
}

/// Each calibration byte is the byte at its offset from ACC_OFFSET_X_LSB:
/// the accelerometer, magnetometer and gyroscope offsets (x, y, z, each LSB
/// then MSB), then the accelerometer and magnetometer radii.
pub proof fn lemma_sensor_config_layout(b: Seq<u8>)
    requires
        b.len() == 22,
    ensures
        sensor_config_from(b).acc_offset_x_lsb == b[0],
        sensor_config_from(b).acc_offset_x_msb == b[1],
        sensor_config_from(b).acc_offset_y_lsb == b[2],
        sensor_config_from(b).acc_offset_y_msb == b[3],
        sensor_config_from(b).acc_offset_z_lsb == b[4],
        sensor_config_from(b).acc_offset_z_msb == b[5],
        sensor_config_from(b).mag_offset_x_lsb == b[6],
        sensor_config_from(b).mag_offset_x_msb == b[7],
        sensor_config_from(b).mag_offset_y_lsb == b[8],
        sensor_config_from(b).mag_offset_y_msb == b[9],
        sensor_config_from(b).mag_offset_z_lsb == b[10],
        sensor_config_from(b).mag_offset_z_msb == b[11],
        sensor_config_from(b).gyr_offset_x_lsb == b[12],
        sensor_config_from(b).gyr_offset_x_msb == b[13],
        sensor_config_from(b).gyr_offset_y_lsb == b[14],
        sensor_config_from(b).gyr_offset_y_msb == b[15],
        sensor_config_from(b).gyr_offset_z_lsb == b[16],
        sensor_config_from(b).gyr_offset_z_msb == b[17],
        sensor_config_from(b).acc_radius_lsb == b[18],
        sensor_config_from(b).acc_radius_msb == b[19],
        sensor_config_from(b).mag_radius_lsb == b[20],
        sensor_config_from(b).mag_radius_msb == b[21],
{
}

impl SensorConfig {
    /// All bytes zero.
    pub fn zeroed() -> (c: Self)
        ensures
            c == sensor_config_from(Seq::new(22, |i: int| 0u8)),
    {
        Self {
            acc_offset_x_lsb: 0,
            acc_offset_x_msb: 0,
            acc_offset_y_lsb: 0,
            acc_offset_y_msb: 0,
            acc_offset_z_lsb: 0,
            acc_offset_z_msb: 0,
            mag_offset_x_lsb: 0,
            mag_offset_x_msb: 0,
            mag_offset_y_lsb: 0,
            mag_offset_y_msb: 0,
            mag_offset_z_lsb: 0,
            mag_offset_z_msb: 0,
            gyr_offset_x_lsb: 0,
            gyr_offset_x_msb: 0,
            gyr_offset_y_lsb: 0,
            gyr_offset_y_msb: 0,
            gyr_offset_z_lsb: 0,
            gyr_offset_z_msb: 0,
            acc_radius_lsb: 0,
            acc_radius_msb: 0,
            mag_radius_lsb: 0,
            mag_radius_msb: 0,
        }
    }

    /// The calibration held by the 22 bytes read from ACC_OFFSET_X_LSB on.
    pub fn from_bytes(b: &[u8; 22]) -> (c: Self)
        ensures
            c == sensor_config_from(b@),
    {
        Self {
            acc_offset_x_lsb: b[0],
            acc_offset_x_msb: b[1],
            acc_offset_y_lsb: b[2],
            acc_offset_y_msb: b[3],
            acc_offset_z_lsb: b[4],
            acc_offset_z_msb: b[5],
            mag_offset_x_lsb: b[6],
            mag_offset_x_msb: b[7],
            mag_offset_y_lsb: b[8],
            mag_offset_y_msb: b[9],
            mag_offset_z_lsb: b[10],
            mag_offset_z_msb: b[11],
            gyr_offset_x_lsb: b[12],
            gyr_offset_x_msb: b[13],
            gyr_offset_y_lsb: b[14],
            gyr_offset_y_msb: b[15],
            gyr_offset_z_lsb: b[16],
            gyr_offset_z_msb: b[17],
            acc_radius_lsb: b[18],
            acc_radius_msb: b[19],
            mag_radius_lsb: b[20],
            mag_radius_msb: b[21],
        }
    }

    /// The 22 bytes of this calibration, in register order.
    pub fn to_bytes(&self) -> (b: [u8; 22])
        ensures
            sensor_config_from(b@) == *self,
    {
        [
            self.acc_offset_x_lsb,
            self.acc_offset_x_msb,
            self.acc_offset_y_lsb,
            self.acc_offset_y_msb,
            self.acc_offset_z_lsb,
            self.acc_offset_z_msb,
            self.mag_offset_x_lsb,
            self.mag_offset_x_msb,
            self.mag_offset_y_lsb,
            self.mag_offset_y_msb,
            self.mag_offset_z_lsb,
            self.mag_offset_z_msb,
            self.gyr_offset_x_lsb,
            self.gyr_offset_x_msb,
            self.gyr_offset_y_lsb,
            self.gyr_offset_y_msb,
            self.gyr_offset_z_lsb,
            self.gyr_offset_z_msb,
            self.acc_radius_lsb,
            self.acc_radius_msb,
            self.mag_radius_lsb,
            self.mag_radius_msb,
        ]
    }
}

/// Bytes that hold the same calibration are the same bytes.
pub proof fn lemma_sensor_config_bytes_round_trip(b: Seq<u8>, c: Seq<u8>)
    requires
        b.len() == 22,
        c.len() == 22,
        sensor_config_from(b) == sensor_config_from(c),
    ensures
        b == c,
{
    assert(b =~= c);
}

/// The write of a whole calibration: the start address, then the 22 bytes.
pub fn set_sensor_config_frame(sensor_config: &SensorConfig) -> (f: [u8; 23])
    ensures
        f@.len() == 23,
        f@[0] == SENSOR_CONFIG_START,
        sensor_config_from(f@.drop_first()) == *sensor_config,
{
    let c = sensor_config.to_bytes();
    let mut f = [0u8; 23];
    f[0] = SENSOR_CONFIG_START;
    let mut i: usize = 0;
    while i < 22
        invariant
            i <= 22,
            c@.len() == 22,
            f@.len() == 23,
            f@[0] == SENSOR_CONFIG_START,
            forall|k: int| 0 <= k < i ==> f@[k + 1] == c@[k],
        decreases 22 - i,
    {
        f[i + 1] = c[i];
        i += 1;
    }
    assert(f@.drop_first() =~= c@);
    f
}

/// Operating mode of the sensor: which sensors run and whether their data is fused.
#[allow(non_camel_case_types)]
#[derive(Debug, Clone, Copy, PartialEq, Eq, Structural)]
pub enum OperatingMode {
    CONFIGMODE,
    ACCONLY,
    MAGONLY,
    GYRONLY,
    ACCMAG,
    ACCGYRO,
    MAGGYRO,
    AMG,
    IMU,
    COMPASS,
    M4G,
    NDOF_FMC_OFF,
    NDOF,
}

/// The 4-bit OPR_MODE code of a mode.
pub open spec fn operating_mode_code(m: OperatingMode) -> u8 {
    match m {
        OperatingMode::CONFIGMODE => 0,
        OperatingMode::ACCONLY => 1,
        OperatingMode::MAGONLY => 2,
        OperatingMode::GYRONLY => 3,
        OperatingMode::ACCMAG => 4,
        OperatingMode::ACCGYRO => 5,
        OperatingMode::MAGGYRO => 6,
        OperatingMode::AMG => 7,
        OperatingMode::IMU => 8,
        OperatingMode::COMPASS => 9,
        OperatingMode::M4G => 10,
        OperatingMode::NDOF_FMC_OFF => 11,
        OperatingMode::NDOF => 12,
    }
}

impl OperatingMode {
    /// The 4-bit OPR_MODE code of this mode.
    pub fn code(self) -> (c: u8)
        ensures
            c == operating_mode_code(self),
    {
        match self {
            OperatingMode::CONFIGMODE => 0,
            OperatingMode::ACCONLY => 1,
            OperatingMode::MAGONLY => 2,
            OperatingMode::GYRONLY => 3,
            OperatingMode::ACCMAG => 4,
            OperatingMode::ACCGYRO => 5,
            OperatingMode::MAGGYRO => 6,
            OperatingMode::AMG => 7,
            OperatingMode::IMU => 8,
            OperatingMode::COMPASS => 9,
            OperatingMode::M4G => 10,
            OperatingMode::NDOF_FMC_OFF => 11,
            OperatingMode::NDOF => 12,
        }
    }

    /// The mode with the given 4-bit code; codes 13 to 15 are reserved.
    pub fn from_code(code: u8) -> (m: Option<Self>)
        ensures
            m matches Some(mode) ==> operating_mode_code(mode) == code,
            m is None <==> code > 12,
    {
        if code == 0 {
            Some(OperatingMode::CONFIGMODE)
        } else if code == 1 {
            Some(OperatingMode::ACCONLY)
        } else if code == 2 {
            Some(OperatingMode::MAGONLY)
        } else if code == 3 {
            Some(OperatingMode::GYRONLY)
        } else if code == 4 {
            Some(OperatingMode::ACCMAG)
        } else if code == 5 {
            Some(OperatingMode::ACCGYRO)
        } else if code == 6 {
            Some(OperatingMode::MAGGYRO)
        } else if code == 7 {
            Some(OperatingMode::AMG)
        } else if code == 8 {
            Some(OperatingMode::IMU)
        } else if code == 9 {
            Some(OperatingMode::COMPASS)
        } else if code == 10 {
            Some(OperatingMode::M4G)
        } else if code == 11 {
            Some(OperatingMode::NDOF_FMC_OFF)
        } else if code == 12 {
            Some(OperatingMode::NDOF)
        } else {
            None
        }
    }
}

/// Every mode comes back from its code.
pub proof fn lemma_operating_mode_code_injective(a: OperatingMode, b: OperatingMode)
    requires
        operating_mode_code(a) == operating_mode_code(b),
    ensures
        a == b,
{
}

/// The OPR_MODE register: the mode in bits 0 to 3.
#[derive(Debug, Clone, Copy, PartialEq, Eq, Structural)]
pub struct OperatingModeReg {
    raw: u8,
}

impl OperatingModeReg {
    /// The register's byte.
    pub closed spec fn bits(&self) -> u8 {
        self.raw
    }

    /// All bits clear.
    pub fn zero() -> (r: Self)
        ensures
            r.bits() == 0,
    {
        Self { raw: 0 }
    }

    /// The register holding `raw`.
    pub fn new_with_raw_value(raw: u8) -> (r: Self)
        ensures
            r.bits() == raw,
    {
        Self { raw }
    }

    /// The register's byte.
    pub fn raw_value(&self) -> (v: u8)
        ensures
            v == self.bits(),
    {
        self.raw
    }

    /// The mode, or `None` for a reserved code.
    pub fn operating_mode(&self) -> (m: Option<OperatingMode>)
        ensures
            m matches Some(mode) ==> operating_mode_code(mode) == field_value(self.bits(), 0, 4),
            m is None <==> field_value(self.bits(), 0, 4) > 12,
    {
        OperatingMode::from_code(get_field(self.raw, 0, 4))
    }

    /// The register with the mode set, the upper bits kept.
    pub fn with_operating_mode(self, mode: OperatingMode) -> (r: Self)
        ensures
            field_value(r.bits(), 0, 4) == operating_mode_code(mode),
            r.bits() == (self.bits() & !(low_mask(4) << 0u8)) | (operating_mode_code(mode) << 0u8),
    {
        let code = mode.code();
        proof { lemma_u8_bit_weights(); }
        Self { raw: with_field(self.raw, 0, 4, code) }
    }
}

/// The write that switches to `mode`, the upper OPR_MODE bits clear.
pub fn set_operating_mode_frame(mode: OperatingMode) -> (f: [u8; 2])
    ensures
        f@ == seq![OPERATING_MODE, operating_mode_code(mode)],
{
    let code = mode.code();
    let v = OperatingModeReg::zero().with_operating_mode(mode).raw_value();
    assert(v == code) by (bit_vector)
        requires
            code < 16,
            v == (0u8 & !(low_mask(4) << 0u8)) | (code << 0u8),
    ;
    let f = [OPERATING_MODE, v];
    assert(f@ =~= seq![OPERATING_MODE, operating_mode_code(mode)]);
    f
}

/// The write that resets the device: RST_SYS set in SYS_TRIGGER, all other
/// trigger bits clear.
pub fn reset_frame() -> (f: [u8; 2])
    ensures
        f@ == seq![SYS_TRIGGER, RST_SYS],
{
    let f = [SYS_TRIGGER, RST_SYS];
    assert(f@ =~= seq![SYS_TRIGGER, RST_SYS]);
    f
}

/// The CALIB_STAT register: calibration levels (0 to 3) of the magnetometer, accelerometer, gyroscope and the whole system.
#[derive(Debug, Clone, Copy, PartialEq, Eq, Structural)]
pub struct CalibrationStatus {
    raw: u8,
}

impl CalibrationStatus {
    /// The register's byte.
    pub closed spec fn bits(&self) -> u8 {
        self.raw
    }

    /// All bits clear.
    pub fn zero() -> (r: Self)
        ensures
            r.bits() == 0,
    {
        Self { raw: 0 }
    }

    /// The register holding `raw`.
    pub fn new_with_raw_value(raw: u8) -> (r: Self)
        ensures
            r.bits() == raw,
    {
        Self { raw }
    }

    /// The register's byte.
    pub fn raw_value(&self) -> (v: u8)
        ensures
            v == self.bits(),
    {
        self.raw
    }

    /// The register with the mag status field (bits 0 to 1) set, the rest kept.
    pub fn with_mag_status(self, value: u8) -> (r: Self)
        requires
            value < 4,
        ensures
            field_value(r.bits(), 0, 2) == value,
            forall|j: u8| j < 8 && !in_field(j, 0, 2) ==> bit_is_set(r.bits(), j) == bit_is_set(self.bits(), j),
            r.bits() == (self.bits() & !(low_mask(2) << 0u8)) | (value << 0u8),
    {
        let code = value;
        proof { lemma_u8_bit_weights(); }
        Self { raw: with_field(self.raw, 0, 2, code) }
    }

    /// The mag status field (bits 0 to 1).
    pub fn mag_status(&self) -> (v: u8)
        ensures
            v == field_value(self.bits(), 0, 2),
    {
        get_field(self.raw, 0, 2)
    }

    /// The register with the acc status field (bits 2 to 3) set, the rest kept.
    pub fn with_acc_status(self, value: u8) -> (r: Self)
        requires
            value < 4,
        ensures
            field_value(r.bits(), 2, 2) == value,
            forall|j: u8| j < 8 && !in_field(j, 2, 2) ==> bit_is_set(r.bits(), j) == bit_is_set(self.bits(), j),
            r.bits() == (self.bits() & !(low_mask(2) << 2u8)) | (value << 2u8),
    {
        let code = value;
        proof { lemma_u8_bit_weights(); }
        Self { raw: with_field(self.raw, 2, 2, code) }
    }

    /// The acc status field (bits 2 to 3).
    pub fn acc_status(&self) -> (v: u8)
        ensures
            v == field_value(self.bits(), 2, 2),
    {
        get_field(self.raw, 2, 2)
    }

    /// The register with the gyr status field (bits 4 to 5) set, the rest kept.
    pub fn with_gyr_status(self, value: u8) -> (r: Self)
        requires
            value < 4,
        ensures
            field_value(r.bits(), 4, 2) == value,
            forall|j: u8| j < 8 && !in_field(j, 4, 2) ==> bit_is_set(r.bits(), j) == bit_is_set(self.bits(), j),
            r.bits() == (self.bits() & !(low_mask(2) << 4u8)) | (value << 4u8),
    {
        let code = value;
        proof { lemma_u8_bit_weights(); }
        Self { raw: with_field(self.raw, 4, 2, code) }
    }

    /// The gyr status field (bits 4 to 5).
    pub fn gyr_status(&self) -> (v: u8)
        ensures
            v == field_value(self.bits(), 4, 2),
    {
        get_field(self.raw, 4, 2)
    }

    /// The register with the sys status field (bits 6 to 7) set, the rest kept.
    pub fn with_sys_status(self, value: u8) -> (r: Self)
        requires
            value < 4,
        ensures
            field_value(r.bits(), 6, 2) == value,
            forall|j: u8| j < 8 && !in_field(j, 6, 2) ==> bit_is_set(r.bits(), j) == bit_is_set(self.bits(), j),
            r.bits() == (self.bits() & !(low_mask(2) << 6u8)) | (value << 6u8),
    {
        let code = value;
        proof { lemma_u8_bit_weights(); }
        Self { raw: with_field(self.raw, 6, 2, code) }
    }

    /// The sys status field (bits 6 to 7).
    pub fn sys_status(&self) -> (v: u8)
        ensures
            v == field_value(self.bits(), 6, 2),
    {
        get_field(self.raw, 6, 2)
    }
}

/// Whether every part of the sensor is fully calibrated (all levels 3).
pub fn fully_calibrated(status: CalibrationStatus) -> (b: bool)
    ensures
        b == (field_value(status.bits(), 0, 2) == 3 && field_value(status.bits(), 2, 2) == 3
            && field_value(status.bits(), 4, 2) == 3 && field_value(status.bits(), 6, 2) == 3),
{
    status.mag_status() == 3 && status.acc_status() == 3 && status.gyr_status() == 3
        && status.sys_status() == 3
}

} // verus!
