use bmp280::register::Register;
use bmp280::{
    compensate_temperature, raw_adc, ConfigureState, BMP280, CONFIG_REGISTER, CONFIG_VALUE,
    CTRL_MEAS_REGISTER, CTRL_MEAS_VALUE, DEFAULT_ADDRESS,
};

#[test]
fn register_addresses_match_table() {
    assert_eq!(Register::ID.addr(), 0xD0);
    assert_eq!(Register::CALIB.addr(), 0x88);
    assert_eq!(Register::TEMPERATURE.addr(), 0xFA);
    // pure lookup: asking twice gives the same address
    assert_eq!(Register::ID.addr(), Register::ID.addr());
    assert_eq!(Register::TEMPERATURE.addr(), Register::TEMPERATURE.addr());
}

#[test]
fn calibration_decode_reference_block() {
    let d = BMP280::new();
    let mut block = [0u8; 24];
    block[0] = 0x70;
    block[1] = 0x6B;
    block[2] = 0x43;
    block[3] = 0x67;
    block[4] = 0x18;
    block[5] = 0xFC;
    // the trailing 18 bytes belong to pressure calibration; fill them
    // with arbitrary values
    for i in 6..24 {
        block[i] = (7 * i + 13) as u8;
    }
    let (t1, t2, t3) = d.read_calibration_decode(&block);
    assert_eq!(t1, 0x6B70);
    assert_eq!(t2, 0x6743);
    assert_eq!(t3, -1000); // 0xFC18 read as signed 16-bit
    assert_eq!(t1, 27504);
    assert_eq!(t2, 26435);
}

#[test]
fn calibration_ignores_trailing_bytes() {
    let d = BMP280::new();
    let prefix = [0x70, 0x6B, 0x43, 0x67, 0x18, 0xFC];
    let mut a = [0u8; 24];
    let mut b = [0xFFu8; 24];
    for i in 0..6 {
        a[i] = prefix[i];
        b[i] = prefix[i];
    }
    assert_eq!(d.read_calibration_decode(&a), d.read_calibration_decode(&b));
}

#[test]
fn raw_adc_packs_and_discards_low_nibble() {
    assert_eq!(raw_adc(&[0x52, 0x60, 0x00]), 0x52600);
    // the reserved low nibble of the third byte never contributes
    assert_eq!(raw_adc(&[0x52, 0x60, 0x0F]), 0x52600);
    assert_eq!(raw_adc(&[0x52, 0x60, 0xF0]), 0x5260F);
    assert_eq!(raw_adc(&[0xFF, 0xFF, 0xFF]), 0xFFFFF);
    assert_eq!(raw_adc(&[0x00, 0x00, 0x00]), 0);
}

#[test]
fn temperature_reference_vector() {
    let d = BMP280::new();
    let t = d.read_temperature_decode(&[0x52, 0x60, 0x00], 27504, 26435, -1000);
    assert_eq!(t, -3247); // -32.47 degrees Celsius
}

#[test]
fn temperature_canonical_sample() {
    // raw sample 519888 with the same calibration triple is the
    // manufacturer's worked example: 25.08 degrees Celsius
    assert_eq!(compensate_temperature(519888, 27504, 26435, -1000), 2508);
}

#[test]
fn temperature_negative_intermediates_round_toward_minus_infinity() {
    // a raw sample of zero drives both intermediate terms negative, so
    // every right shift acts on a negative value; only sign-preserving
    // shifts give this result
    assert_eq!(compensate_temperature(0, 27504, 26435, -1000), -14088);
    let d = BMP280::new();
    assert_eq!(
        d.read_temperature_decode(&[0x00, 0x00, 0x00], 27504, 26435, -1000),
        -14088
    );
}

#[test]
fn consecutive_temperature_reads_are_independent() {
    let d = BMP280::new();
    let first = d.read_temperature_decode(&[0x52, 0x60, 0x00], 27504, 26435, -1000);
    let second = d.read_temperature_decode(&[0x52, 0x60, 0x00], 27504, 26435, -1000);
    assert_eq!(first, second);
    // another driver value, and other operations in between, change nothing
    let d2 = BMP280::new();
    let _ = d2.read_calibration_request();
    assert_eq!(
        d2.read_temperature_decode(&[0x52, 0x60, 0x00], 27504, 26435, -1000),
        first
    );
}

#[test]
fn requests_target_fixed_device_address() {
    let d = BMP280::new();
    let id = d.read_id_request();
    assert_eq!(id.device, DEFAULT_ADDRESS);
    assert_eq!(id.device, 0x76);
    assert_eq!(id.reg, 0xD0);
    assert_eq!(id.read_len, 1);
    let cal = d.read_calibration_request();
    assert_eq!(cal.device, 0x76);
    assert_eq!(cal.reg, 0x88);
    assert_eq!(cal.read_len, 24);
    let tmp = d.read_temperature_request();
    assert_eq!(tmp.device, 0x76);
    assert_eq!(tmp.reg, 0xFA);
    assert_eq!(tmp.read_len, 3);
}

#[test]
fn read_id_decode_returns_response_byte() {
    let d = BMP280::new();
    assert_eq!(d.read_id_decode(&[0x58]), 0x58);
}

#[test]
fn bus_fault_is_returned_unchanged() {
    let d = BMP280::new();
    let fault = embassy_rp::i2c::Error::InvalidReadBufferLength;
    assert_eq!(d.read_id_outcome(Err(fault), &[0x58]), Err(fault));
    assert_eq!(d.read_calibration_outcome(Err(fault), &[0u8; 24]), Err(fault));
    assert_eq!(
        d.read_temperature_outcome(Err(fault), &[0x52, 0x60, 0x00], 27504, 26435, -1000),
        Err(fault)
    );
    let other = embassy_rp::i2c::Error::InvalidWriteBufferLength;
    assert_eq!(d.read_id_outcome(Err(other), &[0x58]), Err(other));
}

#[test]
fn successful_outcome_decodes_the_buffer() {
    let d = BMP280::new();
    assert_eq!(d.read_id_outcome(Ok(()), &[0x58]), Ok(0x58));
    assert_eq!(
        d.read_temperature_outcome(Ok(()), &[0x52, 0x60, 0x00], 27504, 26435, -1000),
        Ok(-3247)
    );
    let mut block = [0u8; 24];
    block[0] = 0x70;
    block[1] = 0x6B;
    block[2] = 0x43;
    block[3] = 0x67;
    block[4] = 0x18;
    block[5] = 0xFC;
    assert_eq!(
        d.read_calibration_outcome(Ok(()), &block),
        Ok((27504, 26435, -1000))
    );
}

#[test]
fn configure_orders_writes_ctrl_meas_first() {
    let d = BMP280::new();
    let mut state = ConfigureState::Start;
    let w1 = d.configure_next_write(&state).expect("a first write");
    assert_eq!(w1.reg, 0xF4); // CTRL_MEAS strictly first
    assert_eq!(w1.reg, CTRL_MEAS_REGISTER);
    assert_eq!(w1.value, 0b00100111);
    assert_eq!(w1.value, CTRL_MEAS_VALUE);
    assert_eq!(w1.device, 0x76);
    state = d.configure_advance(&state, true);
    let w2 = d.configure_next_write(&state).expect("a second write");
    assert_eq!(w2.reg, 0xF5);
    assert_eq!(w2.reg, CONFIG_REGISTER);
    assert_eq!(w2.value, 0b10100000);
    assert_eq!(w2.value, CONFIG_VALUE);
    assert_eq!(w2.device, 0x76);
    state = d.configure_advance(&state, true);
    assert_eq!(state, ConfigureState::Done);
    assert!(d.configure_next_write(&state).is_none());
}

#[test]
fn configure_never_issues_second_write_after_first_fails() {
    let d = BMP280::new();
    let state = d.configure_advance(&ConfigureState::Start, false);
    assert_eq!(state, ConfigureState::Failed);
    assert!(d.configure_next_write(&state).is_none());
}

#[test]
fn configure_stops_after_failed_second_write() {
    let d = BMP280::new();
    let mut state = d.configure_advance(&ConfigureState::Start, true);
    state = d.configure_advance(&state, false);
    assert_eq!(state, ConfigureState::Failed);
    assert!(d.configure_next_write(&state).is_none());
}
