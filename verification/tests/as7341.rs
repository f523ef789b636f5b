use std::time::Duration;

use air_sensors::as7341::integration_time::{IntegrationTime, TimingSettings, WaitTime};
use air_sensors::as7341::{
    set_autozero_frequency_frame, set_enable_frame, set_gain_frame, set_smux_command_frame,
    smux_write_frame, spectral_measurement_update, timing_frames, Adc, ChannelData,
    EnableRegister, Gain, Nibble, Pixel, PixelConnections, PollDecision, Poller, SmuxCommand,
};

#[test]
pub fn test_pixel_address_mapping() {
    let pixel1 = Pixel::new(1);
    assert_eq!(pixel1.addr(), (0x00, Nibble::Upper));

    let pixel2 = Pixel::new(2);
    assert_eq!(pixel2.addr(), (0x01, Nibble::Lower));

    let pixel7 = Pixel::new(7);
    assert_eq!(pixel7.addr(), (0x03, Nibble::Upper));

    let pixel8 = Pixel::new(8);
    assert_eq!(pixel8.addr(), (0x04, Nibble::Lower));

    let pixel10 = Pixel::new(10);
    assert_eq!(pixel10.addr(), (0x05, Nibble::Lower));

    let pixel11 = Pixel::new(11);
    assert_eq!(pixel11.addr(), (0x05, Nibble::Upper));

    let pixel13 = Pixel::new(13);
    assert_eq!(pixel13.addr(), (0x06, Nibble::Upper));

    let pixel14 = Pixel::new(14);
    assert_eq!(pixel14.addr(), (0x07, Nibble::Lower));

    let pixel17 = Pixel::new(17);
    assert_eq!(pixel17.addr(), (0x08, Nibble::Upper));

    let pixel19 = Pixel::new(19);
    assert_eq!(pixel19.addr(), (0x09, Nibble::Upper));

    let pixel20 = Pixel::new(20);
    assert_eq!(pixel20.addr(), (0x0A, Nibble::Lower));

    let pixel25 = Pixel::new(25);
    assert_eq!(pixel25.addr(), (0x0C, Nibble::Upper));

    let pixel26 = Pixel::new(26);
    assert_eq!(pixel26.addr(), (0x0D, Nibble::Lower));

    let pixel28 = Pixel::new(28);
    assert_eq!(pixel28.addr(), (0x0E, Nibble::Lower));

    let pixel29 = Pixel::new(29);
    assert_eq!(pixel29.addr(), (0x0E, Nibble::Upper));

    let pixel31 = Pixel::new(31);
    assert_eq!(pixel31.addr(), (0x0F, Nibble::Upper));

    let pixel32 = Pixel::new(32);
    assert_eq!(pixel32.addr(), (0x10, Nibble::Lower));

    let pixel35 = Pixel::new(35);
    assert_eq!(pixel35.addr(), (0x11, Nibble::Upper));

    let pixel38 = Pixel::new(38);
    assert_eq!(pixel38.addr(), (0x13, Nibble::Lower));
}

#[test]
fn test_as_bytes_f1_f4_clear_nir() {
    let raw_bytes: [u8; 20] = [
        0x30, 0x01, 0x00, 0x00, 0x00, 0x42, 0x00, 0x00, 0x50, 0x00, 0x00, 0x00, 0x20, 0x04, 0x00,
        0x30, 0x01, 0x50, 0x00, 0x06,
    ];

    assert_eq!(PixelConnections::f1_f4_clear_nir().as_bytes(), &raw_bytes);
}

#[test]
fn test_as_bytes_f5_f8() {
    let raw_bytes: [u8; 20] = [
        0x00, 0x00, 0x00, 0x40, 0x02, 0x00, 0x10, 0x03, 0x00, 0x10, 0x03, 0x00, 0x00, 0x00, 0x24,
        0x00, 0x00, 0x00, 0x00, 0x00,
    ];

    assert_eq!(PixelConnections::f5_f8().as_bytes(), &raw_bytes);
}

#[test]
fn test_integration_time_ok() {
    IntegrationTime::new(0, 65534);
    IntegrationTime::new(255, 65534);
    IntegrationTime::new(123, 456);
    IntegrationTime::new(123, 0);
}

#[test]
fn test_inegration_time_from_duration_ok() {
    let int_time = IntegrationTime::from_duration(Duration::from_micros(712));
    assert_eq!(int_time.into_duration(), Duration::from_nanos(711680));

    let int_time = IntegrationTime::from_duration(Duration::from_millis(3));
    assert_eq!(
        int_time.into_duration(),
        Duration::from_secs_f64(0.00299962)
    );
    assert_eq!(int_time.astep(), 1078);
    assert_eq!(int_time.atime(), 0);

    let int_time = IntegrationTime::from_duration(Duration::from_millis(50));
    assert_eq!(int_time.into_duration(), Duration::from_secs_f64(0.0499983));

    let int_time = IntegrationTime::from_duration(Duration::from_micros(182187));
    assert_eq!(
        int_time.into_duration(),
        Duration::from_secs_f64(0.18218452)
    );
    assert_eq!(int_time.astep(), 65533);
    assert_eq!(int_time.atime(), 0);
}

#[test]
fn test_wait_time_ok() {
    let wt = WaitTime::from_duration(Duration::from_millis(711));
    assert_eq!(wt, WaitTime::from_raw(255));

    let wt = WaitTime::from_duration(Duration::from_millis(356));
    assert_eq!(wt, WaitTime::from_raw(128));

    let wt = WaitTime::from_duration(Duration::from_millis(3));
    assert_eq!(wt, WaitTime::from_raw(1));
}

#[test]
fn test_wait_time_into_raw() {
    let wt = WaitTime::from_duration(Duration::from_micros(2780));
    assert_eq!(wt.into_duration(), Duration::from_micros(2780));

    let wt = WaitTime::from_duration(Duration::from_millis(356));
    assert_eq!(wt.into_duration(), Duration::from_micros(355840));
}

#[test]
fn wait_time_just_below_256_steps_is_255() {
    let wt = WaitTime::from_duration(Duration::from_nanos(711_679_999));
    assert_eq!(wt.into_raw(), 255);
    assert_eq!(wt.into_duration(), Duration::from_micros(708_900));
}

#[test]
fn wait_time_raw_round_trip() {
    for raw in 0..=255u8 {
        assert_eq!(WaitTime::from_raw(raw).into_raw(), raw);
        assert_eq!(
            WaitTime::from_raw(raw).into_duration(),
            Duration::from_micros(2780 * raw as u64)
        );
    }
}

#[test]
fn wait_time_rounds_down_to_whole_steps() {
    let wt = WaitTime::from_duration(Duration::from_micros(5559));
    assert_eq!(wt.into_raw(), 1);
    assert_eq!(wt.into_duration(), Duration::from_micros(2780));
}

#[test]
fn integration_time_of_shortest_duration() {
    let t = IntegrationTime::from_duration(Duration::from_nanos(5560));
    assert_eq!(t.astep(), 1);
    assert_eq!(t.atime(), 0);
    assert_eq!(t.into_duration(), Duration::from_nanos(5560));
}

#[test]
fn integration_time_with_atime_multiplies() {
    let t = IntegrationTime::new(2, 9);
    assert_eq!(t.into_duration(), Duration::from_nanos(2780 * 10 * 3));
}

#[test]
fn timing_settings_new_converts_both() {
    let s = TimingSettings::new(Duration::from_millis(50), Duration::from_millis(500));
    assert_eq!(s.wait_time, WaitTime::from_raw(179));
    assert_eq!(s.integration_time, IntegrationTime::new(0, 17984));
}

#[test]
fn f1_f5_nir_bytes() {
    let raw_bytes: [u8; 20] = [
        0x30, 0x01, 0x00, 0x00, 0x00, 0x42, 0x50, 0x00, 0x00, 0x50, 0x00, 0x00, 0x20, 0x04, 0x00,
        0x30, 0x01, 0x00, 0x00, 0x06,
    ];
    assert_eq!(PixelConnections::f1_f5_nir().as_bytes(), &raw_bytes);
}

#[test]
fn f6_f8_bytes() {
    let raw_bytes: [u8; 20] = [
        0x00, 0x00, 0x00, 0x30, 0x01, 0x00, 0x00, 0x02, 0x00, 0x00, 0x02, 0x00, 0x00, 0x00, 0x13,
        0x00, 0x00, 0x00, 0x00, 0x00,
    ];
    assert_eq!(PixelConnections::f6_f8().as_bytes(), &raw_bytes);
}

#[test]
fn connect_pixel_keeps_the_other_half() {
    let mut c = PixelConnections::empty();
    c.connect_pixel(Pixel::new(10), Adc::Adc1);
    c.connect_pixel(Pixel::new(11), Adc::Adc3);
    assert_eq!(c.as_bytes()[5], 0x42);
    c.connect_pixel(Pixel::new(10), Adc::Disabled);
    assert_eq!(c.as_bytes()[5], 0x40);
    assert_eq!(c.as_bytes().iter().filter(|b| **b != 0).count(), 1);
}

#[test]
fn connect_pixels_routes_each() {
    let c = PixelConnections::empty().connect_pixels(&[Pixel::new(0), Pixel::new(39)], Adc::Adc5);
    assert_eq!(c.as_bytes()[0], 0x06);
    assert_eq!(c.as_bytes()[19], 0x60);
}

#[test]
fn register_frames() {
    assert_eq!(set_gain_frame(Gain::X512), [0xaa, 10]);
    assert_eq!(set_gain_frame(Gain::X0_5), [0xaa, 0]);
    assert_eq!(set_smux_command_frame(SmuxCommand::Write), [0xaf, 0x10]);
    assert_eq!(set_smux_command_frame(SmuxCommand::Read), [0xaf, 0x08]);
    assert_eq!(set_autozero_frequency_frame(1), [0xd6, 1]);
    let power_on = EnableRegister::zero().with_power_on(true).with_wait_enable(true);
    assert_eq!(set_enable_frame(power_on), [0x80, 0x09]);
}

#[test]
fn smux_frame_prefixes_the_configuration() {
    let c = PixelConnections::f1_f5_nir();
    let f = smux_write_frame(&c);
    assert_eq!(f[0], 0x00);
    assert_eq!(&f[1..], &c.as_bytes()[..]);
}

#[test]
fn timing_frames_hold_the_registers() {
    let s = TimingSettings::new(Duration::from_millis(50), Duration::from_millis(500));
    let (atime, wtime, astep) = timing_frames(&s);
    assert_eq!(atime, [0x81, 0]);
    assert_eq!(wtime, [0x83, 179]);
    assert_eq!(astep, [0xca, (17984 & 0xff) as u8, (17984 >> 8) as u8]);
}

#[test]
fn enable_register_bits() {
    let r = EnableRegister::new_with_raw_value(0b0001_0011);
    assert!(r.power_on());
    assert!(r.spectral_measurement_enable());
    assert!(!r.wait_enable());
    assert!(r.smux_enable());
    assert!(!r.flicker_detection_enable());
    let r = r.with_smux_enable(false).with_flicker_detection_enable(true);
    assert_eq!(r.raw_value(), 0b0100_0011);
}

#[test]
fn spectral_measurement_update_writes_only_changes() {
    let on = EnableRegister::new_with_raw_value(0x0b);
    assert_eq!(spectral_measurement_update(on, true), None);
    assert_eq!(
        spectral_measurement_update(on, false),
        Some(EnableRegister::new_with_raw_value(0x09))
    );
    let off = EnableRegister::new_with_raw_value(0x09);
    assert_eq!(
        spectral_measurement_update(off, true),
        Some(EnableRegister::new_with_raw_value(0x0b))
    );
}

#[test]
fn channel_data_from_bytes() {
    let bytes: [u8; 16] = [
        0x01, 0x02, 0x03, 0x04, 0x05, 0x06, 0x07, 0x08, 0x09, 0x0a, 0x0b, 0x0c, 0xaa, 0xbb, 0x40,
        0x00,
    ];
    let d = ChannelData::from_bytes(&bytes);
    assert_eq!(d.ch0_data, 0x0201);
    assert_eq!(d.ch5_data, 0x0c0b);
    assert_eq!(d.status2, 0x40);
    assert!(d.spectral_valid());
    assert!(!ChannelData::zeroed().spectral_valid());
}

#[test]
fn poller_times_out_after_the_last_attempt() {
    let mut p = Poller::new(3);
    assert!(p.has_attempt_left());
    assert_eq!(p.record(false), PollDecision::Retry);
    assert_eq!(p.record(false), PollDecision::Retry);
    assert_eq!(p.record(false), PollDecision::TimedOut);
    assert!(!p.has_attempt_left());

    let mut p = Poller::new(10);
    assert_eq!(p.record(false), PollDecision::Retry);
    assert_eq!(p.record(true), PollDecision::Done);

    assert!(!Poller::new(0).has_attempt_left());
}
