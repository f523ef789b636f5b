use air_sensors::bmp280::{
    force_measurement_frame, set_filter_frame, ConfigReg, CtrlMeasReg, Filter, Oversampling,
    PowerMode, PressureAndTemperature, Status, TrimmingParameters,
};

fn bosch_doc_parameters() -> TrimmingParameters {
    TrimmingParameters {
        dig_t1: 27504,
        dig_t2: 26435,
        dig_t3: -1000,

        dig_p1: 36477,
        dig_p2: -10685,
        dig_p3: 3024,
        dig_p4: 2855,
        dig_p5: 140,
        dig_p6: -7,
        dig_p7: 15500,
        dig_p8: -14600,
        dig_p9: 6000,
    }
}

#[test]
fn trimming_parameters_round_trip() {
    let params = bosch_doc_parameters();
    let bytes = params.to_bytes();
    assert_eq!(&bytes[0..6], &[0x70, 0x6b, 0x43, 0x67, 0x18, 0xfc]);
    assert_eq!(TrimmingParameters::from_bytes(&bytes), params);
}

#[test]
fn trimming_parameters_of_filled_bytes() {
    let params = TrimmingParameters::from_bytes(&[0xaa; 24]);
    assert_eq!(params.dig_t1, 0xaaaa);
    assert_eq!(params.dig_t2, 0xaaaa_u16 as i16);
    assert_eq!(params.to_bytes(), [0xaa; 24]);
}

#[test]
fn raw_readings_round_trip() {
    let mut pt = PressureAndTemperature::new_zeroed();
    pt.set_raw_tempeature(519888);
    pt.set_raw_pressure(415148);
    assert_eq!(pt.raw_temperature(), 519888);
    assert_eq!(pt.raw_pressure(), 415148);
    assert_eq!(PressureAndTemperature::from_bytes(&pt.to_bytes()), pt);
}

#[test]
fn raw_reading_drops_bit_20() {
    let mut pt = PressureAndTemperature::new_zeroed();
    pt.set_raw_tempeature((1 << 20) | 5);
    assert_eq!(pt.raw_temperature(), 5);
}

#[test]
fn raw_readings_from_register_bytes() {
    let pt = PressureAndTemperature::from_bytes(&[0xbb; 6]);
    assert_eq!(pt.raw_pressure(), 0xbbbbb);
    assert_eq!(pt.raw_temperature(), 0xbbbbb);
}

#[test]
fn control_frames() {
    assert_eq!(force_measurement_frame(), [0xf4, 0x55]);
    assert_eq!(set_filter_frame(Filter::X16), [0xf5, 0x10]);
    assert_eq!(set_filter_frame(Filter::Off), [0xf5, 0x00]);
}

#[test]
fn ctrl_meas_fields() {
    let r = CtrlMeasReg::zero()
        .with_power_mode(PowerMode::Normal)
        .with_pressure_oversampling(Oversampling::X4)
        .with_temperature_oversampling(Oversampling::X16Alt2);
    assert_eq!(r.raw_value(), 0b111_011_11);
    assert_eq!(r.power_mode(), PowerMode::Normal);
    assert_eq!(r.pressure_oversampling(), Oversampling::X4);
    assert_eq!(r.temperature_oversampling(), Oversampling::X16Alt2);
}

#[test]
fn config_keeps_other_bits() {
    let r = ConfigReg::new_with_raw_value(0xff).with_filter(Filter::X2);
    assert_eq!(r.raw_value(), 0b1110_0111);
    assert_eq!(r.filter(), Filter::X2);
}

#[test]
fn status_measuring() {
    assert!(Status::new_with_raw_value(0x08).measuring());
    assert!(!Status::new_with_raw_value(0xf7).measuring());
}
