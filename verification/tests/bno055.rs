use air_sensors::bno055::{
    reset_frame, set_operating_mode_frame, set_sensor_config_frame, OperatingMode, OperatingModeReg,
    SensorConfig, SensorData,
};

#[test]
fn sensor_config_round_trip() {
    let config = SensorConfig::from_bytes(&[0xaa; 22]);
    assert_eq!(config.acc_offset_x_lsb, 0xaa);
    assert_eq!(config.mag_radius_msb, 0xaa);
    assert_eq!(config.to_bytes(), [0xaa; 22]);
    assert_ne!(config, SensorConfig::zeroed());
}

#[test]
fn sensor_config_frame() {
    let mut bytes = [0u8; 22];
    for (i, b) in bytes.iter_mut().enumerate() {
        *b = i as u8;
    }
    let config = SensorConfig::from_bytes(&bytes);
    let frame = set_sensor_config_frame(&config);
    assert_eq!(frame[0], 0x55);
    assert_eq!(&frame[1..], &bytes);
}

#[test]
fn sensor_data_little_endian() {
    let mut bytes = [0u8; 44];
    bytes[0] = 0x34;
    bytes[1] = 0x12;
    bytes[42] = 0xff;
    bytes[43] = 0x01;
    let data = SensorData::from_bytes(&bytes);
    assert_eq!(data.acc_x, 0x1234);
    assert_eq!(data.grv_z, 0x01ff);
    assert_eq!(data.to_bytes(), bytes);
    assert_eq!(SensorData::from_bytes(&[0xcc; 44]).qua_w, 0xcccc);
}

#[test]
fn operating_mode_codes() {
    assert_eq!(set_operating_mode_frame(OperatingMode::CONFIGMODE), [0x3d, 0]);
    assert_eq!(set_operating_mode_frame(OperatingMode::NDOF_FMC_OFF), [0x3d, 11]);
    assert_eq!(set_operating_mode_frame(OperatingMode::NDOF), [0x3d, 12]);
    assert_eq!(OperatingMode::from_code(4), Some(OperatingMode::ACCMAG));
    assert_eq!(OperatingMode::from_code(13), None);
}

#[test]
fn operating_mode_register() {
    let r = OperatingModeReg::zero().with_operating_mode(OperatingMode::ACCMAG);
    assert_eq!(r.raw_value(), 4);
    assert_eq!(r.operating_mode(), Some(OperatingMode::ACCMAG));
    let r = OperatingModeReg::new_with_raw_value(0xf8);
    assert_eq!(r.operating_mode(), Some(OperatingMode::IMU));
    assert_eq!(r.with_operating_mode(OperatingMode::AMG).raw_value(), 0xf7);
    assert_eq!(OperatingModeReg::new_with_raw_value(0x0e).operating_mode(), None);
}

#[test]
fn reset_sets_rst_sys_in_sys_trigger() {
    assert_eq!(reset_frame(), [0x3f, 0x20]);
}
