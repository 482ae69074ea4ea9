//! PWM control protocol: request encoding and the mock-device round trip.

use dispctl::errors::HwError;
use dispctl::ioctl::{
    decode_class_tag, decode_direction_code, decode_number, decode_size, encode_request,
    pwm_read_request, pwm_write_request, Direction,
};
use dispctl::pwm::{pwm_read, pwm_write, MockPwmDevice, UNKNOWN_REQUEST_ERRNO};

#[test]
fn pwm_request_numbers_match_platform_convention() {
    // dir=write(1)<<30 | size=4<<16 | tag='p'(112)<<8 | nr=1
    assert_eq!(pwm_write_request(), 0x4004_7001);
    // dir=read(2)<<30 | size=4<<16 | tag='p'(112)<<8 | nr=2
    assert_eq!(pwm_read_request(), 0x8004_7002);
}

#[test]
fn encode_then_decode_recovers_every_field() {
    let code = encode_request(Direction::ReadData, 112, 2, 4);
    assert_eq!(decode_number(code), 2);
    assert_eq!(decode_class_tag(code), 112);
    assert_eq!(decode_size(code), 4);
    assert_eq!(decode_direction_code(code), 2);

    let code = encode_request(Direction::WriteData, 0xab, 0x7f, 0x3fff);
    assert_eq!(decode_number(code), 0x7f);
    assert_eq!(decode_class_tag(code), 0xab);
    assert_eq!(decode_size(code), 0x3fff);
    assert_eq!(decode_direction_code(code), 1);

    let code = encode_request(Direction::NoData, 0, 0, 0);
    assert_eq!(code, 0);
}

#[test]
fn write_then_read_round_trips() {
    let mut dev = MockPwmDevice::new(0);
    assert_eq!(pwm_write(&mut dev, 0xDEAD_BEEF), Ok(()));
    assert_eq!(pwm_read(&mut dev), Ok(0xDEAD_BEEF));
}

#[test]
fn write_then_read_round_trips_at_extremes() {
    let mut dev = MockPwmDevice::new(123);
    assert_eq!(pwm_write(&mut dev, 0), Ok(()));
    assert_eq!(pwm_read(&mut dev), Ok(0));
    assert_eq!(pwm_write(&mut dev, u32::MAX), Ok(()));
    assert_eq!(pwm_read(&mut dev), Ok(u32::MAX));
}

#[test]
fn failing_device_reports_errno_verbatim() {
    let mut dev = MockPwmDevice { value: 7, fail_errno: 5 };
    assert_eq!(pwm_write(&mut dev, 42), Err(HwError::IoctlError(5)));
    assert_eq!(pwm_read(&mut dev), Err(HwError::IoctlError(5)));
    // the failed write changed nothing
    assert_eq!(dev.value, 7);
}

#[test]
fn unknown_request_is_refused() {
    let mut dev = MockPwmDevice::new(1);
    let bogus = encode_request(Direction::NoData, 112, 3, 0);
    assert_eq!(
        dev.control(bogus, 0),
        Err(HwError::IoctlError(UNKNOWN_REQUEST_ERRNO))
    );
    // a refused request changes nothing
    assert_eq!(pwm_read(&mut dev), Ok(1));
}
