//! Register transport over I2C.
//!
//! A register access is a short, fixed exchange on the bus. A write is one
//! transaction: the 16-bit register address, high byte first, followed by
//! the payload. A read is two: the address is written, then the payload is
//! read. Every transaction is followed by a settle delay, because the
//! sensor's MCU needs time between I2C operations; without it, reads come
//! back corrupted now and then.

use vstd::prelude::*;
use crate::host::Reply;
use crate::host::Request;
use crate::registers;

verus! {

/// One operation on the bus.
#[derive(Debug, PartialEq, Eq)]
pub enum BusOp {
    /// An I2C write of these bytes to the device.
    Write { bytes: Vec<u8> },
    /// An I2C read of this many bytes from the device.
    Read { length: usize },
    /// A pause in milliseconds.
    Delay { ms: u64 },
}

/// High byte of a register address.
pub open spec fn address_high(register: u16) -> u8 {
    (register / 256) as u8
}

/// Low byte of a register address.
pub open spec fn address_low(register: u16) -> u8 {
    (register % 256) as u8
}

/// The bytes of a register write: the address, high byte first, then the
/// payload.
pub open spec fn write_frame(register: u16, data: Seq<u8>) -> Seq<u8> {
    seq![address_high(register), address_low(register)] + data
}

/// The bytes of a 32-bit register value, most significant first.
pub open spec fn word_bytes(value: u32) -> Seq<u8> {
    seq![
        (value / 0x100_0000) as u8,
        (value / 0x1_0000 % 256) as u8,
        (value / 0x100 % 256) as u8,
        (value % 256) as u8,
    ]
}

/// The 32-bit value of four bytes, most significant first.
pub open spec fn word_value(bytes: Seq<u8>) -> u32
    recommends
        bytes.len() == 4,
{
    (bytes[0] * 0x100_0000 + bytes[1] * 0x1_0000 + bytes[2] * 0x100 + bytes[3]) as u32
}

/// Decoding undoes encoding.
pub proof fn lemma_word_round_trip(value: u32)
    ensures
        word_bytes(value).len() == 4,
        word_value(word_bytes(value)) == value,
{
}

/// Encoding undoes decoding.
pub proof fn lemma_bytes_round_trip(bytes: Seq<u8>)
    requires
        bytes.len() == 4,
    ensures
        word_bytes(word_value(bytes)) == bytes,
{
    assert(word_bytes(word_value(bytes)) =~= bytes);
}

/// The bytes of a 32-bit register value, most significant first.
pub fn encode_word(value: u32) -> (bytes: Vec<u8>)
    ensures
        bytes@ == word_bytes(value),
{
    let mut bytes: Vec<u8> = Vec::new();
    bytes.push((value / 0x100_0000) as u8);
    bytes.push((value / 0x1_0000 % 256) as u8);
    bytes.push((value / 0x100 % 256) as u8);
    bytes.push((value % 256) as u8);
    assert(bytes@ =~= word_bytes(value));
    bytes
}

/// The 32-bit value that a register read returned. A read of any other
/// length than four bytes has no value.
pub fn decode_word(bytes: &[u8]) -> (value: Option<u32>)
    ensures
        value == (if bytes@.len() == 4 {
            Some(word_value(bytes@))
        } else {
            None
        }),
{
    if bytes.len() == 4 {
        let b0: u32 = bytes[0] as u32;
        let b1: u32 = bytes[1] as u32;
        let b2: u32 = bytes[2] as u32;
        let b3: u32 = bytes[3] as u32;
        Some(b0 * 0x100_0000 + b1 * 0x1_0000 + b2 * 0x100 + b3)
    } else {
        None
    }
}

/// The module on its bus: its address and the pins that wake it.
#[derive(Clone, Copy, Debug, PartialEq, Eq, Structural)]
pub struct I2cDevice {
    pub address: u16,
    pub wakeup_pin: Option<u32>,
    pub int_pin: Option<u32>,
}

impl I2cDevice {
    pub fn new(address: u16) -> (device: I2cDevice)
        ensures
            device == (I2cDevice { address, wakeup_pin: None, int_pin: None }),
    {
        I2cDevice { address, wakeup_pin: None, int_pin: None }
    }

    /// Remembers the pins that wake the module and that report it ready.
    pub fn configure_gpio(&mut self, wakeup_pin: Option<u32>, int_pin: Option<u32>)
        ensures
            *final(self) == (I2cDevice { wakeup_pin, int_pin, ..*old(self) }),
    {
        self.wakeup_pin = wakeup_pin;
        self.int_pin = int_pin;
    }

    /// Whether the module is ready, given the level of its interrupt pin
    /// as far as it could be read. Without an interrupt pin the module
    /// counts as ready.
    pub fn is_module_ready(&self, level: Option<crate::gpio::GpioValue>) -> (ready: bool)
        ensures
            ready == (self.int_pin is None || level == Some(crate::gpio::GpioValue::High)),
    {
        match self.int_pin {
            None => true,
            Some(_) => match level {
                Some(crate::gpio::GpioValue::High) => true,
                _ => false,
            },
        }
    }

    /// The address as it goes on the bus: its low eight bits.
    pub fn bus_address(&self) -> (a: u8)
        ensures
            a == self.address % 256,
    {
        (self.address % 256) as u8
    }

    /// The bus operations of a register write.
    pub fn write_register(&self, register: u16, data: &[u8]) -> (ops: Vec<BusOp>)
        ensures
            ops@.len() == 2,
            ops@[0] matches BusOp::Write { bytes } && bytes@ == write_frame(register, data@),
            ops@[1] == (BusOp::Delay { ms: registers::BUS_SETTLE_MS }),
    {
        let mut bytes: Vec<u8> = Vec::new();
        bytes.push((register / 256) as u8);
        bytes.push((register % 256) as u8);
        let mut i: usize = 0;
        while i < data.len()
            invariant
                i <= data@.len(),
                bytes@ == write_frame(register, data@.take(i as int)),
            decreases data@.len() - i,
        {
            bytes.push(data[i]);
            assert(data@.take(i as int + 1) =~= data@.take(i as int).push(data@[i as int]));
            assert(bytes@ =~= write_frame(register, data@.take(i as int + 1)));
            i = i + 1;
        }
        assert(data@.take(i as int) =~= data@);
        let mut ops: Vec<BusOp> = Vec::new();
        ops.push(BusOp::Write { bytes });
        ops.push(BusOp::Delay { ms: registers::BUS_SETTLE_MS });
        ops
    }

    /// The bus operations of a register read of `length` bytes.
    pub fn read_register(&self, register: u16, length: usize) -> (ops: Vec<BusOp>)
        ensures
            ops@.len() == 4,
            ops@[0] matches BusOp::Write { bytes } && bytes@ == write_frame(register, Seq::empty()),
            ops@[1] == (BusOp::Delay { ms: registers::BUS_SETTLE_MS }),
            ops@[2] == (BusOp::Read { length }),
            ops@[3] == (BusOp::Delay { ms: registers::BUS_SETTLE_MS }),
    {
        let mut bytes: Vec<u8> = Vec::new();
        bytes.push((register / 256) as u8);
        bytes.push((register % 256) as u8);
        assert(bytes@ =~= write_frame(register, Seq::empty()));
        let mut ops: Vec<BusOp> = Vec::new();
        ops.push(BusOp::Write { bytes });
        ops.push(BusOp::Delay { ms: registers::BUS_SETTLE_MS });
        ops.push(BusOp::Read { length });
        ops.push(BusOp::Delay { ms: registers::BUS_SETTLE_MS });
        ops
    }

    /// The bus operations of a register write followed, after a pause, by
    /// a read of the same register.
    pub fn write_read_register(&self, register: u16, write_data: &[u8], read_length: usize) -> (ops:
        Vec<BusOp>)
        ensures
            ops@.len() == 7,
            ops@[0] matches BusOp::Write { bytes } && bytes@ == write_frame(register, write_data@),
            ops@[1] == (BusOp::Delay { ms: registers::BUS_SETTLE_MS }),
            ops@[2] == (BusOp::Delay { ms: registers::WRITE_READ_GAP_MS }),
            ops@[3] matches BusOp::Write { bytes } && bytes@ == write_frame(register, Seq::empty()),
            ops@[4] == (BusOp::Delay { ms: registers::BUS_SETTLE_MS }),
            ops@[5] == (BusOp::Read { length: read_length }),
            ops@[6] == (BusOp::Delay { ms: registers::BUS_SETTLE_MS }),
    {
        let mut ops = self.write_register(register, write_data);
        ops.push(BusOp::Delay { ms: registers::WRITE_READ_GAP_MS });
        let mut read = self.read_register(register, read_length);
        let last = read.pop().unwrap();
        let tail = read.pop().unwrap();
        let settle = read.pop().unwrap();
        let address = read.pop().unwrap();
        ops.push(address);
        ops.push(settle);
        ops.push(tail);
        ops.push(last);
        ops
    }

    /// The bus operations that carry out a register request. Requests
    /// that do not go over the bus have none.
    pub fn plan(&self, request: Request) -> (ops: Option<Vec<BusOp>>)
        ensures
            match request {
                Request::WriteRegister { address, value } => ops matches Some(list)
                    && list@.len() == 2 && (list@[0] matches BusOp::Write { bytes } && bytes@
                    == write_frame(address, word_bytes(value))) && list@[1] == (BusOp::Delay {
                    ms: registers::BUS_SETTLE_MS,
                }),
                Request::ReadRegister { address } => ops matches Some(list) && list@.len() == 4
                    && (list@[0] matches BusOp::Write { bytes } && bytes@ == write_frame(
                    address,
                    Seq::empty(),
                )) && list@[1] == (BusOp::Delay { ms: registers::BUS_SETTLE_MS }) && list@[2] == (
                BusOp::Read { length: 4 }) && list@[3] == (BusOp::Delay {
                    ms: registers::BUS_SETTLE_MS,
                }),
                _ => ops is None,
            },
    {
        match request {
            Request::WriteRegister { address, value } => {
                let payload = encode_word(value);
                Some(self.write_register(address, payload.as_slice()))
            },
            Request::ReadRegister { address } => Some(self.read_register(address, 4)),
            _ => None,
        }
    }
}

/// The reply to a register read, from what the bus returned: the bytes, or
/// nothing when a transaction failed. Bytes that are not one register
/// value count as a failure.
pub fn read_reply(bytes: Option<&[u8]>) -> (reply: Reply)
    ensures
        reply == (match bytes {
            Some(b) => if b@.len() == 4 {
                Reply::Word { value: word_value(b@) }
            } else {
                Reply::Failed
            },
            None => Reply::Failed,
        }),
{
    match bytes {
        Some(b) => match decode_word(b) {
            Some(value) => Reply::Word { value },
            None => Reply::Failed,
        },
        None => Reply::Failed,
    }
}

} // verus!
