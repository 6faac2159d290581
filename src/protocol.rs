//! The control command protocol: command codes, request framing, response
//! validation and value decoding.
//!
//! A control exchange writes one request to the control-write endpoint and
//! reads one fixed-size response packet from the control-read endpoint. The
//! transfers themselves happen outside this module; what is decided about
//! their outcome happens here.

use vstd::prelude::*;

verus! {

/// Size of every control response packet, in bytes.
pub const RESPONSE_LEN: usize = 64;

/// Width of the value a command carries or returns.
#[derive(Clone, Copy, PartialEq, Eq, Structural, Debug)]
pub enum ValueWidth {
    /// One byte.
    Byte,
    /// Four bytes, little-endian.
    Word,
}

/// Commands that write a value to the device.
#[derive(Clone, Copy, PartialEq, Eq, Structural, Debug)]
pub enum SetCommand {
    ClearRingBuffer,
    EnableOutput,
    DacRate,
}

/// Commands that read a value from the device.
#[derive(Clone, Copy, PartialEq, Eq, Structural, Debug)]
pub enum GetCommand {
    OutputEnabled,
    DacRate,
    MaxDacRate,
    MinDacRate,
    MaxDacValue,
    VersionMajor,
    VersionMinor,
}

impl SetCommand {
    pub open spec fn spec_code(self) -> u8 {
        match self {
            SetCommand::ClearRingBuffer => 0x8d,
            SetCommand::EnableOutput => 0x80,
            SetCommand::DacRate => 0x82,
        }
    }

    pub open spec fn spec_width(self) -> ValueWidth {
        match self {
            SetCommand::DacRate => ValueWidth::Word,
            _ => ValueWidth::Byte,
        }
    }

    /// The command's wire byte.
    #[verifier::when_used_as_spec(spec_code)]
    pub fn code(self) -> (r: u8)
        ensures
            r == self.spec_code(),
    {
        match self {
            SetCommand::ClearRingBuffer => 0x8d,
            SetCommand::EnableOutput => 0x80,
            SetCommand::DacRate => 0x82,
        }
    }

    /// The width of the value the command carries.
    #[verifier::when_used_as_spec(spec_width)]
    pub fn width(self) -> (r: ValueWidth)
        ensures
            r == self.spec_width(),
    {
        match self {
            SetCommand::DacRate => ValueWidth::Word,
            _ => ValueWidth::Byte,
        }
    }
}

impl GetCommand {
    pub open spec fn spec_code(self) -> u8 {
        match self {
            GetCommand::OutputEnabled => 0x81,
            GetCommand::DacRate => 0x83,
            GetCommand::MaxDacRate => 0x84,
            GetCommand::MinDacRate => 0x87,
            GetCommand::MaxDacValue => 0x88,
            GetCommand::VersionMajor => 0x8b,
            GetCommand::VersionMinor => 0x8c,
        }
    }

    pub open spec fn spec_width(self) -> ValueWidth {
        match self {
            GetCommand::OutputEnabled => ValueWidth::Byte,
            _ => ValueWidth::Word,
        }
    }

    /// The command's wire byte.
    #[verifier::when_used_as_spec(spec_code)]
    pub fn code(self) -> (r: u8)
        ensures
            r == self.spec_code(),
    {
        match self {
            GetCommand::OutputEnabled => 0x81,
            GetCommand::DacRate => 0x83,
            GetCommand::MaxDacRate => 0x84,
            GetCommand::MinDacRate => 0x87,
            GetCommand::MaxDacValue => 0x88,
            GetCommand::VersionMajor => 0x8b,
            GetCommand::VersionMinor => 0x8c,
        }
    }

    /// The width of the value the device answers with.
    #[verifier::when_used_as_spec(spec_width)]
    pub fn width(self) -> (r: ValueWidth)
        ensures
            r == self.spec_width(),
    {
        match self {
            GetCommand::OutputEnabled => ValueWidth::Byte,
            _ => ValueWidth::Word,
        }
    }
}

/// Little-endian bytes of a 32-bit value.
pub open spec fn u32_le(v: u32) -> Seq<u8> {
    seq![
        (v % 0x100) as u8,
        (v / 0x100 % 0x100) as u8,
        (v / 0x1_0000 % 0x100) as u8,
        (v / 0x100_0000) as u8,
    ]
}

/// The 32-bit value of four little-endian bytes.
pub open spec fn le_u32(b0: u8, b1: u8, b2: u8, b3: u8) -> u32 {
    (b0 + 0x100 * b1 + 0x1_0000 * b2 + 0x100_0000 * b3) as u32
}

/// The payload bytes of value `v` at width `w`.
pub open spec fn payload(w: ValueWidth, v: u32) -> Seq<u8> {
    match w {
        ValueWidth::Byte => seq![v as u8],
        ValueWidth::Word => u32_le(v),
    }
}

/// Whether `v` fits in a payload of width `w`.
pub open spec fn fits(w: ValueWidth, v: u32) -> bool {
    w == ValueWidth::Byte ==> v < 0x100
}

/// The request that writes `v` with `cmd`: the command byte, then the payload.
pub open spec fn set_frame(cmd: SetCommand, v: u32) -> Seq<u8> {
    seq![cmd.spec_code()] + payload(cmd.spec_width(), v)
}

/// The request that reads the value of `cmd`: the command byte alone.
pub open spec fn get_frame(cmd: GetCommand) -> Seq<u8> {
    seq![cmd.spec_code()]
}

/// `requested` moved into the closed interval `[min, max]`.
pub open spec fn clamp_rate(requested: u32, min: u32, max: u32) -> u32 {
    if requested < min {
        min
    } else if requested > max {
        max
    } else {
        requested
    }
}

/// The request that reads the value of `cmd`.
pub fn get_request(cmd: GetCommand) -> (r: Vec<u8>)
    ensures
        r@ == get_frame(cmd),
{
    let mut r: Vec<u8> = Vec::new();
    r.push(cmd.code());
    assert(r@ =~= get_frame(cmd));
    r
}

/// The request that writes `value` with `cmd`.
pub fn set_request(cmd: SetCommand, value: u32) -> (r: Vec<u8>)
    requires
        fits(cmd.spec_width(), value),
    ensures
        r@ == set_frame(cmd, value),
{
    let mut r: Vec<u8> = Vec::new();
    r.push(cmd.code());
    match cmd.width() {
        ValueWidth::Byte => {
            r.push(value as u8);
        },
        ValueWidth::Word => {
            r.push((value % 0x100) as u8);
            r.push((value / 0x100 % 0x100) as u8);
            r.push((value / 0x1_0000 % 0x100) as u8);
            r.push((value / 0x100_0000) as u8);
        },
    }
    assert(r@ =~= set_frame(cmd, value));
    r
}

/// The request that empties the device's sample ring buffer.
pub fn clear_ring_buffer_request() -> (r: Vec<u8>)
    ensures
        r@ == set_frame(SetCommand::ClearRingBuffer, 0),
{
    set_request(SetCommand::ClearRingBuffer, 0)
}

/// The request that turns the device's output on.
pub fn enable_output_request() -> (r: Vec<u8>)
    ensures
        r@ == set_frame(SetCommand::EnableOutput, 1),
{
    set_request(SetCommand::EnableOutput, 1)
}

/// The request that turns the device's output off.
pub fn disable_output_request() -> (r: Vec<u8>)
    ensures
        r@ == set_frame(SetCommand::EnableOutput, 0),
{
    set_request(SetCommand::EnableOutput, 0)
}

/// `requested` moved into the device's rate interval `[min, max]`.
pub fn clamp_dac_rate(requested: u32, min: u32, max: u32) -> (r: u32)
    requires
        min <= max,
    ensures
        r == clamp_rate(requested, min, max),
        min <= r <= max,
{
    if requested < min {
        min
    } else if requested > max {
        max
    } else {
        requested
    }
}

/// The request that sets the DAC rate, given the interval `[min, max]` the
/// device reported: it always carries the requested rate clamped into that
/// interval, never a rate outside it.
pub fn dac_rate_request(requested: u32, min: u32, max: u32) -> (r: Vec<u8>)
    requires
        min <= max,
    ensures
        r@ == set_frame(SetCommand::DacRate, clamp_rate(requested, min, max)),
{
    let rate = clamp_dac_rate(requested, min, max);
    set_request(SetCommand::DacRate, rate)
}

/// Ways a transfer on the device's endpoints can come up short.
#[derive(Clone, Copy, PartialEq, Eq, Structural, Debug)]
pub enum BusError {
    /// The transport took fewer bytes than submitted: `(written, expected)`.
    IncompleteWrite(usize, usize),
    /// The response packet was shorter than `RESPONSE_LEN`: `(read, expected)`.
    IncompleteResponse(usize, usize),
    /// The response's status byte was not 0: `(actual, expected)`.
    UnexpectedContent(u8, u8),
}

/// Checks the byte count of a write: `IncompleteWrite` unless the transport
/// took all `expected` bytes.
pub fn check_write(written: usize, expected: usize) -> (r: Result<(), BusError>)
    ensures
        r == if written == expected {
            Ok(())
        } else {
            Err(BusError::IncompleteWrite(written, expected))
        },
{
    if written != expected {
        Err(BusError::IncompleteWrite(written, expected))
    } else {
        Ok(())
    }
}

/// A control response packet.
#[derive(Clone, Copy, Debug)]
pub struct Buf(pub [u8; 64]);

impl Buf {
    /// A zeroed packet to read a response into.
    pub fn new() -> (r: Buf)
        ensures
            forall|i: int| 0 <= i < RESPONSE_LEN ==> #[trigger] r.0@[i] == 0,
    {
        Buf([0u8; 64])
    }

    /// The status byte: 0 when the device accepted the request.
    pub open spec fn status(&self) -> u8 {
        self.0@[1]
    }

    /// The value at width `w`: byte 2, or bytes 2 to 5 little-endian.
    pub open spec fn spec_value(&self, w: ValueWidth) -> u32 {
        match w {
            ValueWidth::Byte => self.0@[2] as u32,
            ValueWidth::Word => le_u32(self.0@[2], self.0@[3], self.0@[4], self.0@[5]),
        }
    }

    /// The one-byte value of the response: byte 2.
    pub fn value_u8(&self) -> (r: u8)
        ensures
            r == self.0@[2],
    {
        self.0[2]
    }

    /// The four-byte value of the response: bytes 2 to 5, little-endian.
    pub fn value_u32(&self) -> (r: u32)
        ensures
            r == self.spec_value(ValueWidth::Word),
    {
        self.0[2] as u32 + (self.0[3] as u32) * 0x100 + (self.0[4] as u32) * 0x1_0000 + (
        self.0[5] as u32) * 0x100_0000
    }

    /// The value the response carries for `cmd`, at the width that `cmd`
    /// declares.
    pub fn value(&self, cmd: GetCommand) -> (r: u32)
        ensures
            r == self.spec_value(cmd.spec_width()),
    {
        match cmd.width() {
            ValueWidth::Byte => self.value_u8() as u32,
            ValueWidth::Word => self.value_u32(),
        }
    }
}

/// Validates a response packet of which `read` bytes arrived: in this order,
/// `IncompleteResponse` unless exactly `RESPONSE_LEN` bytes arrived, then
/// `UnexpectedContent` unless the status byte is 0, whatever the payload.
pub fn check_response(read: usize, recv: Buf) -> (r: Result<Buf, BusError>)
    ensures
        read != RESPONSE_LEN ==> r == Err::<Buf, BusError>(
            BusError::IncompleteResponse(read, RESPONSE_LEN),
        ),
        read == RESPONSE_LEN && recv.status() != 0 ==> r == Err::<Buf, BusError>(
            BusError::UnexpectedContent(recv.status(), 0),
        ),
        read == RESPONSE_LEN && recv.status() == 0 ==> r == Ok::<Buf, BusError>(recv),
{
    if read != RESPONSE_LEN {
        return Err(BusError::IncompleteResponse(read, RESPONSE_LEN));
    }
    if recv.0[1] != 0 {
        return Err(BusError::UnexpectedContent(recv.0[1], 0));
    }
    Ok(recv)
}

} // verus!
