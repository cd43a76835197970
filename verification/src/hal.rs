//! Platform abstraction traits: the SPI register transport, GPU status
//! signals and user input.
use vstd::prelude::*;

verus! {

/// One operation that a transport carried out: a register access, or a look
/// at one of the GPU's flow-control lines.
pub enum BusOp {
    /// A register write of `data` to `addr` that the transport accepted.
    Write { addr: u8, data: u64 },
    /// A register read of `addr` that the transport answered with `data`.
    Read { addr: u8, data: u64 },
    /// A wait for the next VSYNC rising edge.
    VsyncWait,
    /// A query of CMD_FULL, answered with `full`.
    CmdFullQuery { full: bool },
    /// A query of CMD_EMPTY, answered with `empty`.
    CmdEmptyQuery { empty: bool },
}

/// Abstracts the 9-byte GPU register protocol over any SPI implementation.
///
/// Implementations handle CS toggling and flow control (CMD_FULL polling)
/// internally. Whether a transaction succeeds, and what a read returns, is
/// the transport's own business; what it must keep is `history`, the
/// operations it has carried out, oldest first: each accepted write and each
/// answered read is appended, and a failed transaction appends nothing.
pub trait SpiTransport {
    type Error;

    /// The operations this transport has carried out, oldest first. A
    /// transport verified against this trait defines it from its own state;
    /// the default, empty, is for transports outside verification, which
    /// nothing here can hold to the contracts below.
    closed spec fn history(&self) -> Seq<BusOp> {
        Seq::empty()
    }

    /// Write a 64-bit value to a GPU register.
    /// Implementations MUST handle flow control (poll CMD_FULL before write).
    fn write_register(&mut self, addr: u8, data: u64) -> (r: Result<(), Self::Error>)
        ensures
            r is Ok ==> final(self).history() == old(self).history().push(BusOp::Write { addr, data }),
            r is Err ==> final(self).history() == old(self).history();

    /// Read a 64-bit value from a GPU register.
    fn read_register(&mut self, addr: u8) -> (r: Result<u64, Self::Error>)
        ensures
            r matches Ok(v) ==> final(self).history() == old(self).history().push(
                BusOp::Read { addr, data: v },
            ),
            r is Err ==> final(self).history() == old(self).history();
}

/// Abstracts GPU status GPIO signals of a transport. Each look at a line is
/// appended to the transport's history with its answer.
pub trait FlowControl: SpiTransport {
    /// Returns true if GPU command FIFO is almost full.
    fn is_cmd_full(&mut self) -> (full: bool)
        ensures
            final(self).history() == old(self).history().push(BusOp::CmdFullQuery { full });

    /// Returns true if GPU command FIFO is empty.
    fn is_cmd_empty(&mut self) -> (empty: bool)
        ensures
            final(self).history() == old(self).history().push(BusOp::CmdEmptyQuery { empty });

    /// Block until VSYNC rising edge is detected.
    fn wait_vsync(&mut self)
        ensures
            final(self).history() == old(self).history().push(BusOp::VsyncWait);
}

/// Abstracts user input across platforms.
pub trait InputSource {
    /// Initialize the input subsystem.
    fn init(&mut self);

    /// Poll for input events. Non-blocking.
    fn poll(&mut self) -> Option<InputEvent>;
}

/// Platform-agnostic input events.
///
/// Uses a `u8` demo index rather than the `Demo` enum, so that the
/// platform layer does not depend on the scene layer.
#[derive(Debug, Clone, Copy, PartialEq, Eq, Structural)]
pub enum InputEvent {
    /// Select a demo scene by index (0, 1, 2, ...).
    SelectDemo(u8),
}

} // verus!
