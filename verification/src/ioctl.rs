//! Ioctl request-number encoding.
//!
//! Control requests are numbered by the platform convention: a 2-bit
//! transfer direction, a 14-bit payload size, an 8-bit device class tag and
//! an 8-bit command number packed into one 32-bit word.  The fields occupy
//! disjoint bit ranges, so the packed word equals the weighted sum of the
//! fields; everything here is stated and computed arithmetically.
//!
//! The two PWM commands are a fixed protocol table: "write value" is command
//! 1 (caller to kernel) and "read value" is command 2 (kernel to caller),
//! both on the class tag `b'p'` with a 4-byte unsigned payload.

use vstd::prelude::*;

verus! {

/// Transfer direction of a control request.
#[derive(Clone, Copy, Debug, PartialEq, Eq, Structural)]
pub enum Direction {
    /// No payload transfer.
    NoData,
    /// Payload flows from the caller to the kernel.
    WriteData,
    /// Payload flows from the kernel to the caller.
    ReadData,
}

/// Numeric value of the direction field.
pub open spec fn spec_direction_code(d: Direction) -> int {
    match d {
        Direction::NoData => 0,
        Direction::WriteData => 1,
        Direction::ReadData => 2,
    }
}

/// Weight of the size field: it starts at bit 16.
pub const SIZE_WEIGHT: u32 = 0x1_0000;

/// Weight of the class-tag field: it starts at bit 8.
pub const TYPE_WEIGHT: u32 = 0x100;

/// Weight of the direction field: it starts at bit 30.
pub const DIR_WEIGHT: u32 = 0x4000_0000;

/// Payload sizes must fit in the 14-bit size field.
pub const MAX_PAYLOAD_SIZE: u32 = 0x4000;

/// The packed request number, as an unbounded integer.
pub open spec fn spec_request_code(d: Direction, class_tag: u8, number: u8, size: u32) -> int {
    spec_direction_code(d) * (DIR_WEIGHT as int) + (size as int) * (SIZE_WEIGHT as int)
        + (class_tag as int) * (TYPE_WEIGHT as int) + (number as int)
}

/// Numeric value of the direction field.
pub fn direction_code(d: Direction) -> (r: u32)
    ensures
        r as int == spec_direction_code(d),
{
    match d {
        Direction::NoData => 0,
        Direction::WriteData => 1,
        Direction::ReadData => 2,
    }
}

/// Packs a direction, class tag, command number and payload size into one
/// request number following the platform's ioctl-number convention.
pub fn encode_request(d: Direction, class_tag: u8, number: u8, size: u32) -> (r: u32)
    requires
        size < MAX_PAYLOAD_SIZE,
    ensures
        r as int == spec_request_code(d, class_tag, number, size),
{
    let dir: u32 = direction_code(d);
    dir * DIR_WEIGHT + size * SIZE_WEIGHT + (class_tag as u32) * TYPE_WEIGHT + (number as u32)
}

/// Command number field of a packed request.
pub fn decode_number(r: u32) -> (number: u8)
    ensures
        number as int == (r as int) % 0x100,
{
    (r % 0x100) as u8
}

/// Class-tag field of a packed request.
pub fn decode_class_tag(r: u32) -> (class_tag: u8)
    ensures
        class_tag as int == ((r as int) / 0x100) % 0x100,
{
    ((r / 0x100) % 0x100) as u8
}

/// Payload-size field of a packed request.
pub fn decode_size(r: u32) -> (size: u32)
    ensures
        size as int == ((r as int) / 0x1_0000) % 0x4000,
{
    (r / 0x1_0000) % 0x4000
}

/// Direction field of a packed request.
pub fn decode_direction_code(r: u32) -> (d: u32)
    ensures
        d as int == (r as int) / 0x4000_0000,
{
    r / 0x4000_0000
}

/// Decoding recovers every field of an encoded request: the four fields
/// occupy disjoint bit ranges, so the packing loses nothing.
pub proof fn lemma_request_code_roundtrip(d: Direction, class_tag: u8, number: u8, size: u32)
    requires
        size < MAX_PAYLOAD_SIZE,
    ensures
        spec_request_code(d, class_tag, number, size) % 0x100 == number as int,
        (spec_request_code(d, class_tag, number, size) / 0x100) % 0x100 == class_tag as int,
        (spec_request_code(d, class_tag, number, size) / 0x1_0000) % 0x4000 == size as int,
        spec_request_code(d, class_tag, number, size) / 0x4000_0000 == spec_direction_code(d),
{
    let dir = spec_direction_code(d);
    let code = spec_request_code(d, class_tag, number, size);
    assert(code == ((dir * 0x4000 + size) * 0x100 + class_tag) * 0x100 + number);
    vstd::arithmetic::div_mod::lemma_fundamental_div_mod_converse(
        code,
        0x100,
        (dir * 0x4000 + size as int) * 0x100 + class_tag as int,
        number as int,
    );
    vstd::arithmetic::div_mod::lemma_fundamental_div_mod_converse(
        (dir * 0x4000 + size as int) * 0x100 + class_tag as int,
        0x100,
        dir * 0x4000 + size as int,
        class_tag as int,
    );
    assert(code / 0x1_0000 == (code / 0x100) / 0x100) by {
        vstd::arithmetic::div_mod::lemma_div_denominator(code, 0x100, 0x100);
    }
    vstd::arithmetic::div_mod::lemma_fundamental_div_mod_converse(
        dir * 0x4000 + size as int,
        0x4000,
        dir,
        size as int,
    );
    assert(code / 0x4000_0000 == (code / 0x1_0000) / 0x4000) by {
        vstd::arithmetic::div_mod::lemma_div_denominator(code, 0x1_0000, 0x4000);
    }
    vstd::arithmetic::div_mod::lemma_fundamental_div_mod_converse(dir, 1, dir, 0);
}

/// Device class tag of the PWM protocol.
pub const PWM_CLASS_TAG: u8 = 112;

/// Command number for writing a new PWM value.
pub const PWM_WRITE_NR: u8 = 1;

/// Command number for reading the current PWM value.
pub const PWM_READ_NR: u8 = 2;

/// Payload size of both PWM commands: one 32-bit unsigned value.
pub const PWM_PAYLOAD_SIZE: u32 = 4;

/// Request number of the PWM "write new value" command
/// (caller-to-kernel, 4-byte payload, class `b'p'`, command 1).
pub fn pwm_write_request() -> (r: u32)
    ensures
        r as int == spec_request_code(Direction::WriteData, PWM_CLASS_TAG, PWM_WRITE_NR, PWM_PAYLOAD_SIZE),
        r == 0x4004_7001u32,
{
    encode_request(Direction::WriteData, PWM_CLASS_TAG, PWM_WRITE_NR, PWM_PAYLOAD_SIZE)
}

/// Request number of the PWM "read current value" command
/// (kernel-to-caller, 4-byte payload, class `b'p'`, command 2).
pub fn pwm_read_request() -> (r: u32)
    ensures
        r as int == spec_request_code(Direction::ReadData, PWM_CLASS_TAG, PWM_READ_NR, PWM_PAYLOAD_SIZE),
        r == 0x8004_7002u32,
{
    encode_request(Direction::ReadData, PWM_CLASS_TAG, PWM_READ_NR, PWM_PAYLOAD_SIZE)
}

} // verus!
