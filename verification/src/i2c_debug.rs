//! What the development board answers on its I2C target interface while it
//! only listens to and records the host's traffic.

use vstd::prelude::*;

verus! {

/// 7-bit I2C address the host talks to.
pub const EC_I2C_ADDR: u8 = 0x2C;

/// Size of the buffer that receives the bytes of one write.
pub const RECEIVE_BUF_LEN: usize = 64;

/// An event the I2C target reports from the bus.
#[derive(Clone, Copy, Debug, PartialEq, Eq, Structural)]
pub enum I2cEvent {
    /// The host starts writing to the given address.
    Write(u8),
    /// The host starts reading from the given address.
    Read(u8),
    /// A repeated start ended the transfer to the given address.
    RepeatedStart(u8),
    /// A stop ended the transaction with the given address.
    Stop(u8),
    /// Any other bus event.
    Other,
}

/// What the debug responder does with an event.
#[derive(Clone, Copy, Debug, PartialEq, Eq, Structural)]
pub enum Response {
    /// Receive the written bytes into the buffer, then record them.
    ReceiveWrite,
    /// Answer the read with the filler bytes.
    SendFiller,
    /// Only record the event.
    RecordOnly,
}

/// What the debug responder does with `event`.
pub open spec fn spec_respond(event: I2cEvent) -> Response {
    match event {
        I2cEvent::Write(_) => Response::ReceiveWrite,
        I2cEvent::Read(_) => Response::SendFiller,
        _ => Response::RecordOnly,
    }
}

/// Decides what the debug responder does with `event`.
pub fn respond(event: I2cEvent) -> (response: Response)
    ensures
        response == spec_respond(event),
{
    match event {
        I2cEvent::Write(_) => Response::ReceiveWrite,
        I2cEvent::Read(_) => Response::SendFiller,
        _ => Response::RecordOnly,
    }
}

/// How a write transfer from the host ended.
#[derive(Clone, Copy, Debug, PartialEq, Eq, Structural)]
pub enum WriteOutcome {
    /// The host sent a stop after this many bytes.
    Stopped(usize),
    /// The host sent a repeated start after this many bytes.
    Restarted(usize),
    /// The buffer filled up with this many bytes.
    BufferFull(usize),
    /// The transfer ended in a way that reports no byte count.
    Other,
}

/// Number of bytes a write transfer delivered into the buffer.
pub open spec fn spec_received_len(outcome: WriteOutcome) -> nat {
    match outcome {
        WriteOutcome::Stopped(n) => n as nat,
        WriteOutcome::Restarted(n) => n as nat,
        WriteOutcome::BufferFull(n) => n as nat,
        WriteOutcome::Other => 0,
    }
}

/// Number of bytes a write transfer delivered into the buffer.
pub fn received_len(outcome: WriteOutcome) -> (n: usize)
    ensures
        n == spec_received_len(outcome),
        outcome matches WriteOutcome::Stopped(k) ==> n == k,
        outcome matches WriteOutcome::Restarted(k) ==> n == k,
        outcome matches WriteOutcome::BufferFull(k) ==> n == k,
        outcome == WriteOutcome::Other ==> n == 0,
{
    match outcome {
        WriteOutcome::Stopped(n) | WriteOutcome::Restarted(n) | WriteOutcome::BufferFull(n) => n,
        _ => 0,
    }
}

/// The bytes of `buf` that a write transfer filled in.
pub fn received_bytes(buf: &[u8], outcome: WriteOutcome) -> (bytes: Vec<u8>)
    requires
        spec_received_len(outcome) <= buf@.len(),
    ensures
        bytes@ == buf@.subrange(0, spec_received_len(outcome) as int),
        outcome matches WriteOutcome::Stopped(k) ==> bytes@.len() == k,
        outcome matches WriteOutcome::Restarted(k) ==> bytes@.len() == k,
        outcome matches WriteOutcome::BufferFull(k) ==> bytes@.len() == k,
        outcome == WriteOutcome::Other ==> bytes@.len() == 0,
        forall|i: int| 0 <= i < bytes@.len() ==> bytes@[i] == buf@[i],
{
    let n = received_len(outcome);
    let mut bytes: Vec<u8> = Vec::new();
    let mut i: usize = 0;
    while i < n
        invariant
            n == spec_received_len(outcome),
            n <= buf@.len(),
            i <= n,
            bytes@ == buf@.subrange(0, i as int),
        decreases n - i,
    {
        bytes.push(buf[i]);
        i = i + 1;
    }
    bytes
}

/// The bytes sent back when the host reads: filler, so that the host is not
/// left waiting.
pub fn read_filler() -> (filler: [u8; 4])
    ensures
        filler@ == seq![0xFFu8, 0xFFu8, 0xFFu8, 0xFFu8],
{
    [0xFF, 0xFF, 0xFF, 0xFF]
}

/// A write that ends by stop, repeated start or a full buffer delivered
/// exactly the number of bytes that its ending reports; any other ending
/// delivered none.
pub proof fn lemma_received_len_is_reported_count(k: usize)
    ensures
        spec_received_len(WriteOutcome::Stopped(k)) == k,
        spec_received_len(WriteOutcome::Restarted(k)) == k,
        spec_received_len(WriteOutcome::BufferFull(k)) == k,
        spec_received_len(WriteOutcome::Other) == 0,
{
}

/// The bytes recorded for a write that reported `k` bytes are the first `k`
/// bytes of the buffer, whichever way the write ended.
pub proof fn lemma_received_bytes_are_first_k(buf: Seq<u8>, k: usize)
    requires
        k <= buf.len(),
    ensures
        buf.subrange(0, spec_received_len(WriteOutcome::Stopped(k)) as int) == buf.subrange(0, k as int),
        buf.subrange(0, spec_received_len(WriteOutcome::Restarted(k)) as int) == buf.subrange(0, k as int),
        buf.subrange(0, spec_received_len(WriteOutcome::BufferFull(k)) as int) == buf.subrange(0, k as int),
        buf.subrange(0, k as int).len() == k,
{
}

} // verus!
