use air_sensors::tel0157::{
    all_systems_mode, power_on_frame, set_gnss_mode_frame, GnssMode, GnssModeRegister,
    RegisterMap, SleepRegister,
};

#[test]
fn latitude_parts_svalbard() {
    let mut reg_map = RegisterMap::new_zeroed();
    reg_map.lat_hemisphere = b'N';
    reg_map.lat_degrees = 78;
    reg_map.lat_minutes = 14;
    reg_map.lat_decimal_minutes_msb = 0x00;
    reg_map.lat_decimal_minutes_xsb = 0x3a;
    reg_map.lat_decimal_minutes_lsb = 0x98;
    assert_eq!(reg_map.lat_decimal_minutes(), 15000);
    assert!(reg_map.lat_is_positive());
}

#[test]
fn longitude_parts_lake_natron() {
    let mut reg_map = RegisterMap::new_zeroed();
    reg_map.lon_hemisphere = b'E';
    reg_map.lon_decimal_minutes_msb = 0x01;
    reg_map.lon_decimal_minutes_xsb = 0x86;
    reg_map.lon_decimal_minutes_lsb = 0x8f;
    assert_eq!(reg_map.lon_decimal_minutes(), 99983);
    assert!(reg_map.lon_is_positive());
    reg_map.lon_hemisphere = b'W';
    assert!(!reg_map.lon_is_positive());
}

#[test]
fn register_map_round_trip() {
    let mut bytes = [0u8; 22];
    for (i, b) in bytes.iter_mut().enumerate() {
        *b = 0xab ^ i as u8;
    }
    let m = RegisterMap::from_bytes(&bytes);
    assert_eq!(m.lat_degrees, 0xab);
    assert_eq!(m.satellites, 0xab ^ 12);
    assert_eq!(m.cog_xsb, 0xab ^ 21);
    assert_eq!(m.to_bytes(), bytes);
}

#[test]
fn mode_and_sleep_frames() {
    assert_eq!(power_on_frame(), [0x23, 0x00]);
    let mode = all_systems_mode();
    assert!(mode.gps() && mode.beidou() && mode.glonass());
    assert_eq!(set_gnss_mode_frame(mode), [0x22, 0x07]);
    let gps_only = GnssMode::zero().with_gps(true);
    assert_eq!(set_gnss_mode_frame(gps_only), [0x22, 0x01]);
}

#[test]
fn mode_register_keeps_upper_bits() {
    let r = GnssModeRegister::new_with_raw_value(0xf8).with_mode(all_systems_mode());
    assert_eq!(r.raw_value(), 0xff);
    assert_eq!(r.mode().raw_value(), 7);
    assert!(SleepRegister::new_with_raw_value(1).sleep());
    assert_eq!(SleepRegister::new_with_raw_value(0xff).with_sleep(false).raw_value(), 0xfe);
}
