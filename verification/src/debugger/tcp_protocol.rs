//! The protocol of the debugger's socket: the requests that come in, the
//! responses that go out, the zero byte that ends each of them, and the steps
//! of writing to a socket that does not wait.

use vstd::prelude::*;
use crate::Address;

verus! {

/// Where the debugger listens.
pub const TCP_INTERFACE_ADDRESS: &'static str = "127.0.0.1:57017";

/// What stands before the port in the line that announces it.
pub const DEBUGGER_PORT_PREFIX: &'static str = "Debugger-Port:";

/// What a client asks for.
pub enum Request {
    StartExecution { stop_on_entry: bool },
    SetBreakpoints { locations: Vec<Address> },
    RemoveBreakpoints { locations: Vec<Address> },
    /// Go on with normal execution.
    Continue {  },
    /// Execute one instruction and hold again.
    StepOne {  },
    SetRegister { register: u8, value: u32 },
    Terminate {  },
}

/// What a client is told.
pub enum Response {
    Hello { pid: u32 },
    HitBreakpoint { location: Address },
    Breaking { location: Address },
    Pausing { location: Address },
    BreakState { registers: Vec<u32>, call_stack: Vec<Address> },
}

/// What a look at the socket found.
pub enum PollReturn {
    Nothing,
    ClientConnected,
    ClientDisconnected,
    ReceivedRequests(Vec<Request>),
}

/// The frame of a message: the message and a zero byte behind it.
pub fn frame(message: Vec<u8>) -> (framed: Vec<u8>)
    ensures
        framed@ == message@.push(0),
{
    let mut framed: Vec<u8> = message;
    framed.push(0);
    framed
}

/// How an attempt to read from the socket ended.
#[derive(Clone, Copy, Debug, PartialEq, Eq, Structural)]
pub enum ReadOutcome {
    /// So many bytes were read.
    Read(usize),
    /// The socket has no bytes now.
    WouldBlock,
    /// The attempt failed for another reason.
    Failed,
}

/// What to do after an attempt to read.
#[derive(Clone, Copy, Debug, PartialEq, Eq, Structural)]
pub enum ReadStep {
    /// Nothing has come; the client stays.
    Nothing,
    /// Hand so many bytes to the reader and parse the segments that they
    /// complete.
    Take(usize),
    /// The client has closed the connection: drop it.
    ClientDisconnected,
    /// The attempt failed: drop the client.
    GiveUp,
}

/// What follows an attempt to read: bytes that were read go to the reader; a
/// read of no bytes at all means that the client has disconnected, as it
/// does to the reader; a socket that has nothing now is asked again at the
/// next look; a socket that fails has lost its client.
pub open spec fn next_read_step(outcome: ReadOutcome) -> ReadStep {
    match outcome {
        ReadOutcome::Read(count) => if count == 0 {
            ReadStep::ClientDisconnected
        } else {
            ReadStep::Take(count)
        },
        ReadOutcome::WouldBlock => ReadStep::Nothing,
        ReadOutcome::Failed => ReadStep::GiveUp,
    }
}

/// Whether the client is dropped at `step`.
pub open spec fn loses_client(step: ReadStep) -> bool {
    step is ClientDisconnected || step is GiveUp
}

/// Decides what follows an attempt to read.
pub fn after_read(outcome: ReadOutcome) -> (step: ReadStep)
    ensures
        step == next_read_step(outcome),
{
    match outcome {
        ReadOutcome::Read(count) => {
            if count == 0 {
                ReadStep::ClientDisconnected
            } else {
                ReadStep::Take(count)
            }
        },
        ReadOutcome::WouldBlock => ReadStep::Nothing,
        ReadOutcome::Failed => ReadStep::GiveUp,
    }
}

/// Tells whether the client is dropped at `step`.
pub fn drops_client(step: ReadStep) -> (drops: bool)
    ensures
        drops == loses_client(step),
{
    match step {
        ReadStep::ClientDisconnected | ReadStep::GiveUp => true,
        _ => false,
    }
}

/// How an attempt to write to the socket ended.
#[derive(Clone, Copy, Debug, PartialEq, Eq, Structural)]
pub enum WriteOutcome {
    /// So many bytes were written.
    Written(usize),
    /// The attempt was interrupted before anything was written.
    Interrupted,
    /// The socket takes no bytes now.
    WouldBlock,
    /// The attempt failed for another reason.
    Failed,
}

/// What to do after an attempt to write.
#[derive(Clone, Copy, Debug, PartialEq, Eq, Structural)]
pub enum WriteStep {
    /// The whole frame is written.
    Finished,
    /// Write again, from this position on.
    Continue(usize),
    /// Wait a moment, then write again from this position on.
    Spin(usize),
    /// The socket took nothing: drop the client.
    WroteNothing,
    /// The attempt failed: drop the client.
    GiveUp,
}

/// What follows an attempt to write the bytes of a frame from `position` on:
/// bytes that were written are done with; an interrupted attempt is made
/// again, one that would block after a moment; a socket that takes nothing
/// or fails has lost its client.
pub open spec fn next_step(position: usize, length: usize, outcome: WriteOutcome) -> WriteStep {
    match outcome {
        WriteOutcome::Written(count) => if count == 0 {
            WriteStep::WroteNothing
        } else if position + count >= length {
            WriteStep::Finished
        } else {
            WriteStep::Continue((position + count) as usize)
        },
        WriteOutcome::Interrupted => WriteStep::Continue(position),
        WriteOutcome::WouldBlock => WriteStep::Spin(position),
        WriteOutcome::Failed => WriteStep::GiveUp,
    }
}

/// Decides what follows an attempt to write the bytes of a frame of `length`
/// bytes from `position` on.
pub fn after_write(position: usize, length: usize, outcome: WriteOutcome) -> (step: WriteStep)
    requires
        position < length,
    ensures
        step == next_step(position, length, outcome),
{
    match outcome {
        WriteOutcome::Written(count) => {
            if count == 0 {
                WriteStep::WroteNothing
            } else if count >= length - position {
                WriteStep::Finished
            } else {
                WriteStep::Continue(position + count)
            }
        },
        WriteOutcome::Interrupted => WriteStep::Continue(position),
        WriteOutcome::WouldBlock => WriteStep::Spin(position),
        WriteOutcome::Failed => WriteStep::GiveUp,
    }
}

} // verus!
