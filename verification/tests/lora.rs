use air_sensors::lora::{
    fifo_write_header, frequency_write_frame, initial_modem_config1, initial_modem_config2,
    initial_op_mode, initial_pa_config, register_read_frame, register_write_frame,
    trimmed_payload_len, with_device_mode, BandWidth, CarrierFrequency, DeviceMode,
    RegModemConfig1, RegOpMode, SpreadingFactor,
};

fn register_value_for_hz(hz: f64) -> u32 {
    let resolution_hz = 61.035_f64;
    (hz / resolution_hz) as u32
}

#[test]
fn mhz434_bytes() {
    let bytes =
        CarrierFrequency::from_register_value(register_value_for_hz(434_000_000f64)).register_bytes();

    assert_eq!(bytes, [0x6c, 0x80, 0x12]);
}

#[test]
fn mhz868_bytes() {
    let bytes =
        CarrierFrequency::from_register_value(register_value_for_hz(868_000_000_f64)).register_bytes();

    assert_eq!(bytes, [0xd9, 0x00, 0x24]);
}

#[test]
fn register_bytes_drop_the_top_byte() {
    let f = CarrierFrequency::from_register_value(0x1234_5678);
    assert_eq!(f.register_bytes(), [0x34, 0x56, 0x78]);
    assert_eq!(frequency_write_frame(&f), [0x86, 0x34, 0x56, 0x78]);
}

#[test]
fn initial_registers() {
    assert_eq!(initial_op_mode().raw_value(), 0x80);
    assert_eq!(initial_modem_config1().raw_value(), 0x82);
    assert_eq!(initial_modem_config2().raw_value(), 0xb0);
    assert_eq!(initial_pa_config().raw_value(), 0x8c);
}

#[test]
fn spi_frames() {
    assert_eq!(register_write_frame(0x39, 0x12), [0xb9, 0x12]);
    assert_eq!(register_read_frame(0x42), [0x42, 0x00]);
    assert_eq!(fifo_write_header(), [0x80]);
}

#[test]
fn device_mode_change_keeps_the_rest() {
    let op = RegOpMode::new_with_raw_value(0x88);
    let tx = with_device_mode(op, DeviceMode::Tx);
    assert_eq!(tx.raw_value(), 0x8b);
    assert_eq!(tx.device_mode(), DeviceMode::Tx);
    assert_eq!(with_device_mode(tx, DeviceMode::Standby).raw_value(), 0x89);
}

#[test]
fn optional_fields() {
    assert_eq!(initial_modem_config1().bandwidth(), Some(BandWidth::Khz250));
    assert_eq!(RegModemConfig1::new_with_raw_value(0xf0).bandwidth(), None);
    assert_eq!(initial_modem_config2().spreading_factor(), Some(SpreadingFactor::SF11));
}

#[test]
fn payload_trimming() {
    assert_eq!(trimmed_payload_len(0), 0);
    assert_eq!(trimmed_payload_len(100), 100);
    assert_eq!(trimmed_payload_len(255), 255);
    assert_eq!(trimmed_payload_len(300), 255);
}
