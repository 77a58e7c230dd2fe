//! The driver's side of the bus, without the bus.
//!
//! The driver never touches a bus or a timer. It says what it needs done next
//! (a [`Request`]), is told how that went (an [`Event`]), and answers with
//! the next thing to do or with the outcome of the operation (an
//! [`Action`]). Whoever owns the bus performs each request as exactly one
//! transaction, with chip select held for its whole length.

use vstd::prelude::*;
use embedded_hal_async::spi::ErrorKind;
use crate::error::SensorError;
use crate::identity::Id;
use crate::motion::MotionDelta;
use crate::register::WRITE_BIT;

verus! {

/// One thing to do on the bus or the timer.
#[derive(Debug, Clone, Copy, PartialEq, Eq)]
pub enum Request {
    /// One transaction that sends `address`, then `value`. Nothing is read
    /// back. `address` already carries the write bit.
    Write { address: u8, value: u8 },
    /// One transaction that sends `address`, then clocks in one byte.
    Read { address: u8 },
    /// One transaction that sends `address`, then clocks in twelve bytes.
    ReadBurst { address: u8 },
    /// Wait for at least `ms` milliseconds.
    Delay { ms: u32 },
}

/// How a request went.
#[derive(Debug, Clone, Copy, PartialEq)]
pub enum Event {
    /// The write was sent, or the delay has passed.
    Done,
    /// The byte that a read clocked in.
    Byte(u8),
    /// The twelve bytes that a burst read clocked in.
    Burst([u8; 12]),
    /// The transaction failed.
    Fault(ErrorKind),
}

/// What an operation hands to the caller when it ends well.
#[derive(Debug, Clone, Copy, PartialEq, Eq)]
pub enum Output {
    /// The chip is set up, or the register is written.
    Ready,
    /// The identification that the chip reports.
    Identified(Id),
    /// The motion since the last sample.
    Motion(MotionDelta),
    /// A whole frame has been assembled; the sensor holds it.
    Frame,
}

/// What the driver wants next.
#[derive(Debug, Clone, Copy, PartialEq)]
pub enum Action {
    /// Perform the request and come back with the event.
    Perform(Request),
    /// The operation is over and succeeded.
    Finished(Output),
    /// The operation is over and failed.
    Failed(SensorError),
    /// No operation is in flight.
    Idle,
}

/// One step of a conversation between driver and bus: what the driver asked
/// for and how it went.
pub struct Exchange {
    pub request: Request,
    pub event: Event,
}

impl Request {
    /// The request that writes `value` to `register`: the address byte is
    /// the register with the write bit set.
    pub open spec fn write_of(register: u8, value: u8) -> Request {
        Request::Write { address: register | WRITE_BIT, value }
    }

    /// The request that reads `register`: the address byte is the bare
    /// register.
    pub open spec fn read_of(register: u8) -> Request {
        Request::Read { address: register }
    }

    /// Whether `event` is an outcome that this request can have had, other
    /// than a fault: a write or a delay is done, a read brings one byte, a
    /// burst read brings twelve.
    pub open spec fn answered_by(self, event: Event) -> bool {
        match self {
            Request::Write { .. } => event is Done,
            Request::Read { .. } => event is Byte,
            Request::ReadBurst { .. } => event is Burst,
            Request::Delay { .. } => event is Done,
        }
    }

    /// Builds [`Request::write_of`].
    pub fn write(register: u8, value: u8) -> (request: Request)
        ensures
            request == Request::write_of(register, value),
    {
        Request::Write { address: register | WRITE_BIT, value }
    }

    /// Builds [`Request::read_of`].
    pub fn read(register: u8) -> (request: Request)
        ensures
            request == Request::read_of(register),
    {
        Request::Read { address: register }
    }

    /// Tests [`Request::answered_by`].
    pub fn is_answered_by(&self, event: &Event) -> (ok: bool)
        ensures
            ok == self.answered_by(*event),
    {
        match self {
            Request::Write { .. } => matches!(event, Event::Done),
            Request::Read { .. } => matches!(event, Event::Byte(_)),
            Request::ReadBurst { .. } => matches!(event, Event::Burst(_)),
            Request::Delay { .. } => matches!(event, Event::Done),
        }
    }
}

impl Event {
    /// The byte that the event brings; zero where it brings none.
    pub open spec fn byte(self) -> u8 {
        match self {
            Event::Byte(value) => value,
            _ => 0,
        }
    }

    /// Computes [`Event::byte`].
    pub fn byte_or_zero(&self) -> (value: u8)
        ensures
            value == self.byte(),
    {
        match self {
            Event::Byte(value) => *value,
            _ => 0,
        }
    }
}

/// A bulk write: the requests that write the pairs of a table, register and
/// value, one write for each pair, in the order of the table.
pub open spec fn write_bulk(table: Seq<(u8, u8)>) -> Seq<Request> {
    Seq::new(table.len(), |i: int| Request::write_of(table[i].0, table[i].1))
}

/// A bulk read: the requests that read `count` registers in a row, one read
/// for each register, from `start` upwards.
pub open spec fn read_bulk(start: u8, count: nat) -> Seq<Request> {
    Seq::new(count, |i: int| Request::read_of((start + i) as u8))
}

/// A write carries the register in the low seven bits of its address byte
/// and always has the top bit set; a read sends the register as it is.
pub proof fn lemma_address_bytes(register: u8, value: u8)
    requires
        register < 0x80,
    ensures
        Request::write_of(register, value) == (Request::Write {
            address: (register + 0x80) as u8,
            value,
        }),
        Request::read_of(register) == (Request::Read { address: register }),
{
    assert(register < 0x80 ==> (register | 0x80) == (register + 0x80) as u8) by (bit_vector);
}

} // verus!
