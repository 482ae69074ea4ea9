//! PWM control protocol over a simulated device.
//!
//! The protocol drives a single 32-bit PWM value through two control
//! requests whose numbers come from the protocol table in [`crate::ioctl`].
//! `MockPwmDevice` models the kernel side of a PWM-capable device node: it
//! dispatches on the request number exactly as the driver would, and can be
//! armed to fail with a chosen error code.  The real device node is driven
//! by the unverified front end with the same request numbers.

use vstd::prelude::*;

use crate::errors::HwError;
use crate::ioctl::{pwm_read_request, pwm_write_request};

verus! {

/// Error code a device reports for a request number it does not implement.
pub const UNKNOWN_REQUEST_ERRNO: i32 = 25;

/// Request number of the PWM "write new value" command, as an integer.
pub open spec fn spec_pwm_write_request() -> int {
    crate::ioctl::spec_request_code(
        crate::ioctl::Direction::WriteData,
        crate::ioctl::PWM_CLASS_TAG,
        crate::ioctl::PWM_WRITE_NR,
        crate::ioctl::PWM_PAYLOAD_SIZE,
    )
}

/// Request number of the PWM "read current value" command, as an integer.
pub open spec fn spec_pwm_read_request() -> int {
    crate::ioctl::spec_request_code(
        crate::ioctl::Direction::ReadData,
        crate::ioctl::PWM_CLASS_TAG,
        crate::ioctl::PWM_READ_NR,
        crate::ioctl::PWM_PAYLOAD_SIZE,
    )
}

/// Simulated PWM-capable device node.  `value` is the kernel-side PWM
/// register; a non-zero `fail_errno` makes every control call fail with
/// that code, modelling a driver-reported error.
#[derive(Clone, Copy, Debug, PartialEq, Eq, Structural)]
pub struct MockPwmDevice {
    /// Current PWM value held by the simulated driver.
    pub value: u32,
    /// When non-zero, every control call fails with this code.
    pub fail_errno: i32,
}

/// What one control call does to the simulated device: the next device
/// state and the call's result.
pub open spec fn spec_control(dev: MockPwmDevice, request: int, arg: u32) -> (MockPwmDevice, Result<
    u32,
    HwError,
>) {
    if dev.fail_errno != 0 {
        (dev, Err(HwError::IoctlError(dev.fail_errno)))
    } else if request == spec_pwm_write_request() {
        (MockPwmDevice { value: arg, ..dev }, Ok(0))
    } else if request == spec_pwm_read_request() {
        (dev, Ok(dev.value))
    } else {
        (dev, Err(HwError::IoctlError(UNKNOWN_REQUEST_ERRNO)))
    }
}

impl MockPwmDevice {
    /// A fresh simulated device holding `initial` and reporting no error.
    pub fn new(initial: u32) -> (r: MockPwmDevice)
        ensures
            r.value == initial,
            r.fail_errno == 0,
    {
        MockPwmDevice { value: initial, fail_errno: 0 }
    }

    /// One synchronous control call: dispatches on the request number as
    /// the driver would.
    pub fn control(&mut self, request: u32, arg: u32) -> (r: Result<u32, HwError>)
        ensures
            (*final(self), r) == spec_control(*old(self), request as int, arg),
    {
        if self.fail_errno != 0 {
            Err(HwError::IoctlError(self.fail_errno))
        } else if request == pwm_write_request() {
            self.value = arg;
            Ok(0)
        } else if request == pwm_read_request() {
            Ok(self.value)
        } else {
            Err(HwError::IoctlError(UNKNOWN_REQUEST_ERRNO))
        }
    }
}

/// Writes a new PWM value: succeeds and stores `value` exactly when the
/// device reports no error, and otherwise fails with the device's error
/// code verbatim, leaving the device unchanged.
pub fn pwm_write(dev: &mut MockPwmDevice, value: u32) -> (r: Result<(), HwError>)
    ensures
        old(dev).fail_errno == 0 ==> r == Ok::<(), HwError>(()) && *final(dev) == (MockPwmDevice {
            value,
            ..*old(dev)
        }),
        old(dev).fail_errno != 0 ==> r == Err::<(), HwError>(
            HwError::IoctlError(old(dev).fail_errno),
        ) && *final(dev) == *old(dev),
{
    let request = pwm_write_request();
    match dev.control(request, value) {
        Ok(_) => Ok(()),
        Err(e) => Err(e),
    }
}

/// Reads the current PWM value: returns it exactly when the device reports
/// no error, and otherwise fails with the device's error code verbatim.
/// The device is never changed by a read.
pub fn pwm_read(dev: &mut MockPwmDevice) -> (r: Result<u32, HwError>)
    ensures
        *final(dev) == *old(dev),
        old(dev).fail_errno == 0 ==> r == Ok::<u32, HwError>(old(dev).value),
        old(dev).fail_errno != 0 ==> r == Err::<u32, HwError>(
            HwError::IoctlError(old(dev).fail_errno),
        ),
{
    let request = pwm_read_request();
    dev.control(request, 0)
}

/// Round-trip law: on a device that reports no error, a write of any value
/// `v` succeeds, and a read performed after it returns exactly `v`.
pub proof fn lemma_pwm_roundtrip(dev: MockPwmDevice, v: u32)
    requires
        dev.fail_errno == 0,
    ensures
        spec_control(dev, spec_pwm_write_request(), v).1 == Ok::<u32, HwError>(0),
        spec_control(spec_control(dev, spec_pwm_write_request(), v).0, spec_pwm_read_request(), 0).1
            == Ok::<u32, HwError>(v),
{
    crate::ioctl::lemma_request_code_roundtrip(
        crate::ioctl::Direction::WriteData,
        crate::ioctl::PWM_CLASS_TAG,
        crate::ioctl::PWM_WRITE_NR,
        crate::ioctl::PWM_PAYLOAD_SIZE,
    );
    crate::ioctl::lemma_request_code_roundtrip(
        crate::ioctl::Direction::ReadData,
        crate::ioctl::PWM_CLASS_TAG,
        crate::ioctl::PWM_READ_NR,
        crate::ioctl::PWM_PAYLOAD_SIZE,
    );
}

} // verus!
